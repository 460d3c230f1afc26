use swirly_whirly::combo::ResolveResult;
use swirly_whirly::globals::{pick_clip, AudioAssets, GameAssets, PlayerAsset, UiAssets};
use swirly_whirly::helper::get_random;
use swirly_whirly::types::{Action, Choice, Element, Outcome, Player};

fn ui() -> UiAssets {
    UiAssets {
        logo: 1,
        heart_broken: 2,
        heart_full: 3,
        empty: 4,
        unknown: 5,
        element_fire: 6,
        element_grass: 7,
        element_water: 8,
        tool_hand: 9,
        tool_toilet: 10,
        tool_underwear: 11,
        result_swirly_p1: 12,
        result_swirly_p2: 13,
        result_whirly_p1: 14,
        result_whirly_p2: 15,
        result_wedgie_p1: 16,
        result_wedgie_p2: 17,
        result_draw: 18,
        fira_sans_bold: 19,
        ms_pain: 20,
    }
}

fn audio() -> AudioAssets {
    AudioAssets {
        nuggie: vec![101, 102, 103],
        wedgie: vec![111],
        swirly: vec![121, 122],
        laugh: vec![131, 132, 133],
        ready: 140,
        player_one_wins: 141,
        player_two_wins: 142,
        draw: vec![151, 152],
        select_fire: 160,
        select_grass: 161,
        select_water: 162,
        select_generic: vec![171, 172],
        player_one_advantage: 180,
        player_two_advantage: 181,
        no_advantage: 182,
        fight: 183,
        select_element: 184,
        combo_breaker: 185,
    }
}

#[test]
fn icons_of_choices() {
    let ui = ui();
    assert_eq!(ui.get_icon(Choice::Unset), 5);
    assert_eq!(ui.get_icon(Choice::Action(Action::Hand)), 9);
    assert_eq!(ui.get_icon(Choice::Action(Action::Toilet)), 10);
    assert_eq!(ui.get_icon(Choice::Action(Action::Underwear)), 11);
    assert_eq!(ui.get_icon(Choice::Element(Element::Fire)), 6);
    assert_eq!(ui.get_icon(Choice::Element(Element::Water)), 8);
    assert_eq!(ui.get_icon(Choice::Element(Element::Grass)), 7);
}

#[test]
fn pictures_of_results() {
    let ui = ui();
    let picture = |outcome, choice| ui.get_result(ResolveResult { outcome, choice });
    assert_eq!(picture(Outcome::PlayerOne, Choice::Action(Action::Hand)), 14);
    assert_eq!(picture(Outcome::PlayerOne, Choice::Action(Action::Toilet)), 12);
    assert_eq!(picture(Outcome::PlayerOne, Choice::Action(Action::Underwear)), 16);
    assert_eq!(picture(Outcome::PlayerTwo, Choice::Action(Action::Hand)), 15);
    assert_eq!(picture(Outcome::PlayerTwo, Choice::Action(Action::Toilet)), 13);
    assert_eq!(picture(Outcome::PlayerTwo, Choice::Action(Action::Underwear)), 17);
    assert_eq!(picture(Outcome::Draw, Choice::Unset), 18);
    assert_eq!(picture(Outcome::Draw, Choice::Action(Action::Hand)), 18);
    assert_eq!(picture(Outcome::PlayerOne, Choice::Element(Element::Fire)), 18);
    assert_eq!(picture(Outcome::PlayerTwo, Choice::Unset), 18);
}

#[test]
fn hearts_of_health() {
    let ui = ui();
    assert_eq!(ui.get_hearts(5), vec![3, 3, 3, 3, 3]);
    assert_eq!(ui.get_hearts(3), vec![3, 3, 3, 2, 2]);
    assert_eq!(ui.get_hearts(1), vec![3, 2, 2, 2, 2]);
    assert_eq!(ui.get_hearts(0), vec![2, 2, 2, 2, 2]);
    assert_eq!(ui.get_hearts(-1), vec![2, 2, 2, 2, 2]);
    assert_eq!(ui.get_hearts(9), vec![3, 3, 3, 3, 3]);
    assert_eq!(ui.get_hearts(i32::MAX), vec![3, 3, 3, 3, 3]);
    assert_eq!(ui.get_hearts(i32::MIN), vec![2, 2, 2, 2, 2]);
}

#[test]
fn figures_under_elements() {
    let one = PlayerAsset { neutral: 1, fire: 2, water: 3, grass: 4 };
    let two = PlayerAsset { neutral: 5, fire: 6, water: 7, grass: 8 };
    let assets = GameAssets { player_one: one, player_two: two };
    assert_eq!(assets.get(Player::One), &one);
    assert_eq!(assets.get(Player::Two), &two);
    assert_eq!(one.get(&Choice::Element(Element::Fire)), 2);
    assert_eq!(one.get(&Choice::Element(Element::Water)), 3);
    assert_eq!(one.get(&Choice::Element(Element::Grass)), 4);
    assert_eq!(one.get(&Choice::Unset), 1);
    assert_eq!(two.get(&Choice::Action(Action::Hand)), 5);
}

#[test]
fn sounds_of_actions_and_outcomes() {
    let audio = audio();
    assert_eq!(audio.action_clips(Choice::Action(Action::Hand)), &vec![101, 102, 103]);
    assert_eq!(audio.action_clips(Choice::Action(Action::Toilet)), &vec![121, 122]);
    assert_eq!(audio.action_clips(Choice::Action(Action::Underwear)), &vec![111]);
    assert_eq!(audio.action_clips(Choice::Unset), &vec![131, 132, 133]);
    assert_eq!(audio.action_clips(Choice::Element(Element::Fire)), &vec![131, 132, 133]);
    assert_eq!(audio.outcome_clips(Outcome::Draw), &vec![151, 152]);
    assert_eq!(audio.outcome_clips(Outcome::PlayerOne), &vec![131, 132, 133]);
    assert_eq!(audio.outcome_clips(Outcome::PlayerTwo), &vec![131, 132, 133]);
    assert_eq!(audio.winner_clip(Player::One), 141);
    assert_eq!(audio.winner_clip(Player::Two), 142);
}

#[test]
fn sounds_by_chance_come_from_their_list() {
    let audio = audio();
    for _ in 0..30 {
        assert_eq!(audio.action_audio(Choice::Action(Action::Underwear)), Some(111));
        let nuggie = audio.action_audio(Choice::Action(Action::Hand)).unwrap();
        assert!(audio.nuggie.contains(&nuggie));
        let draw = audio.outcome_audio(Outcome::Draw).unwrap();
        assert!(audio.draw.contains(&draw));
        let laugh = audio.outcome_audio(Outcome::PlayerTwo).unwrap();
        assert!(audio.laugh.contains(&laugh));
        let generic = audio.select_audio(Choice::Unset).unwrap();
        assert!(audio.select_generic.contains(&generic));
    }
    assert_eq!(audio.select_audio(Choice::Element(Element::Fire)), Some(160));
    assert_eq!(audio.select_audio(Choice::Element(Element::Grass)), Some(161));
    assert_eq!(audio.select_audio(Choice::Element(Element::Water)), Some(162));
}

#[test]
fn no_sound_where_there_is_none() {
    let mut audio = audio();
    audio.select_generic = Vec::new();
    audio.laugh = Vec::new();
    assert_eq!(audio.select_audio(Choice::Unset), None);
    assert_eq!(audio.outcome_audio(Outcome::PlayerOne), None);
    assert_eq!(audio.action_audio(Choice::Unset), None);
    assert_eq!(pick_clip(&Vec::new()), None);
    assert_eq!(pick_clip(&vec![7]), Some(7));
}

#[test]
fn random_item_is_an_item() {
    let words = vec!["a".to_string(), "b".to_string(), "c".to_string()];
    let mut seen = [false; 3];
    for _ in 0..200 {
        let word = get_random(&words);
        let at = words.iter().position(|w| w == word).unwrap();
        seen[at] = true;
    }
    assert_eq!(seen, [true, true, true]);
    assert_eq!(get_random(&vec![42]), &42);
}
