use swirly_whirly::computer::ComputerPlayer;
use swirly_whirly::config::{BOT_TIME_FIRST, BOT_TIME_MAX, BOT_TIME_MIN};
use swirly_whirly::events::SelectionEvent;
use swirly_whirly::flow::countdown::Countdown;
use swirly_whirly::flow::{Flow, PhaseDurations};
use swirly_whirly::settings::GameMode;
use swirly_whirly::state::GameState;
use swirly_whirly::types::{Action, Choice, Dimension, Element, Player};

fn long() -> PhaseDurations {
    PhaseDurations {
        round_start: 10,
        select_element: 100_000,
        select_action: 100_000,
        resolve_action: 40,
        resolve_announced: 50,
        countdown: 5,
        reveal: 15,
    }
}

#[test]
fn computer_waits_first() {
    let computer = ComputerPlayer::default();
    assert_eq!(BOT_TIME_FIRST, 500);
    assert_eq!(computer.timer, Countdown { remaining: 500, finished: false });
}

#[test]
fn computer_wait_from_a_roll() {
    let mut computer = ComputerPlayer::default();
    computer.reset_to(0);
    assert_eq!(computer.timer, Countdown { remaining: 500, finished: false });
    computer.reset_to(999);
    assert_eq!(computer.timer, Countdown { remaining: 1499, finished: false });
    computer.timer.tick(2000);
    computer.reset_to(250);
    assert_eq!(computer.timer, Countdown { remaining: 750, finished: false });
}

#[test]
fn computer_wait_by_chance_is_within_bounds() {
    let mut computer = ComputerPlayer::default();
    for _ in 0..200 {
        computer.reset();
        assert!(!computer.timer.finished);
        assert!(computer.timer.remaining >= BOT_TIME_MIN as u64);
        assert!(computer.timer.remaining < BOT_TIME_MAX as u64);
    }
}

#[test]
fn computer_picks_fit() {
    for _ in 0..50 {
        let element = ComputerPlayer::pick(Dimension::Element, &Choice::Unset);
        assert!(element.fits(Dimension::Element));
        let action = ComputerPlayer::pick(Dimension::Action, &element);
        assert!(action.fits(Dimension::Action));
    }
    assert_eq!(
        ComputerPlayer::pick(Dimension::Action, &Choice::Unset),
        Choice::Action(Action::Hand)
    );
}

#[test]
fn computer_plays_player_two() {
    let mut flow = Flow::new(long());
    flow.show_title();
    flow.start_game(GameMode::SinglePlayer);
    // No picks during the opening, and the clock of the computer stands.
    assert_eq!(flow.update_bot(10_000), None);
    assert_eq!(flow.snapshot().computer.timer.remaining, 500);
    assert_eq!(flow.tick(10), Some(GameState::SelectElement));

    assert_eq!(flow.update_bot(499), None);
    assert_eq!(flow.snapshot().computer.timer.remaining, 1);
    let event = flow.update_bot(1);
    let element = flow.choice_selection(Player::Two).element;
    assert!(matches!(element, Choice::Element(_)));
    match event {
        Some(SelectionEvent::Element(event)) => {
            assert_eq!(event.player, Player::Two);
            assert_eq!(event.element, element);
        }
        other => panic!("no element was picked: {:?}", other),
    }
    assert_eq!(flow.choice_selection(Player::One).element, Choice::Unset);
    let wait = flow.snapshot().computer.timer;
    assert!(!wait.finished);
    assert!(wait.remaining >= 500 && wait.remaining < 1500);

    assert_eq!(flow.tick(100_000), Some(GameState::SelectAction));
    let event = flow.update_bot(1500);
    let action = flow.choice_selection(Player::Two).action;
    let possible: Vec<Choice> = (0..4)
        .map(|roll| Choice::Action(Action::weighted_action(&element, roll)))
        .collect();
    assert!(possible.contains(&action));
    match event {
        Some(SelectionEvent::Action(event)) => {
            assert_eq!(event.player, Player::Two);
            assert_eq!(event.action, action);
        }
        other => panic!("no action was picked: {:?}", other),
    }
    assert_eq!(flow.choice_selection(Player::Two).element, element);
}

#[test]
fn computer_keeps_out_of_a_match_of_two() {
    let mut flow = Flow::new(long());
    flow.show_title();
    flow.start_game(GameMode::TwoPlayer);
    flow.tick(10);
    assert_eq!(flow.update_bot(10_000), None);
    assert_eq!(flow.choice_selection(Player::Two).element, Choice::Unset);
    assert_eq!(flow.snapshot().computer.timer.remaining, 500);
}

#[test]
fn computer_picks_again_and_again() {
    let mut flow = Flow::new(long());
    flow.show_title();
    flow.start_game(GameMode::SinglePlayer);
    flow.tick(10);
    let mut picks = 0;
    for _ in 0..40 {
        flow.update_bot(1500);
        if matches!(flow.choice_selection(Player::Two).element, Choice::Element(Element::Fire)) {
            picks += 1;
        }
        assert!(matches!(flow.choice_selection(Player::Two).element, Choice::Element(_)));
    }
    assert!(picks <= 40);
}
