use std::collections::HashMap;
use swirly_whirly::combo::{
    AnimationConfig, ChoiceSelection, GameData, PlayerData, PlayerInput, ResolveResult,
};
use swirly_whirly::config::{KEY_A, KEY_D, KEY_J, KEY_K, KEY_L, KEY_S, MAX_HEALTH};
use swirly_whirly::events::{SelectActionEvent, SelectElementEvent, SelectionEvent};
use swirly_whirly::settings::GameMode;
use swirly_whirly::types::{Action, Choice, Dimension, Element, Outcome, Player};

fn selection(element: Element, action: Action) -> ChoiceSelection {
    ChoiceSelection {
        element: Choice::Element(element),
        action: Choice::Action(action),
    }
}

#[test]
fn double_damage_for_three_pairs_of_nine() {
    let mut doubles = Vec::new();
    for element in [Element::Fire, Element::Water, Element::Grass] {
        for action in [Action::Toilet, Action::Underwear, Action::Hand] {
            if selection(element, action).can_double() {
                doubles.push((element, action));
            }
        }
    }
    assert_eq!(
        doubles,
        vec![
            (Element::Fire, Action::Hand),
            (Element::Water, Action::Toilet),
            (Element::Grass, Action::Underwear),
        ]
    );
}

#[test]
fn no_double_damage_without_element() {
    let only_action = ChoiceSelection {
        element: Choice::Unset,
        action: Choice::Action(Action::Hand),
    };
    assert!(!only_action.can_double());
    let only_element = ChoiceSelection {
        element: Choice::Element(Element::Fire),
        action: Choice::Unset,
    };
    assert!(!only_element.can_double());
}

#[test]
fn selection_defaults_to_nothing() {
    let empty = ChoiceSelection::default();
    assert_eq!(empty.element, Choice::Unset);
    assert_eq!(empty.action, Choice::Unset);
    assert_eq!(empty.get(Dimension::Action), Choice::Unset);
    assert_eq!(empty.get(Dimension::Element), Choice::Unset);
}

#[test]
fn fresh_record() {
    let data = GameData::default();
    assert_eq!(data.player_one.health, MAX_HEALTH);
    assert_eq!(data.player_two.health, 5);
    assert_eq!(data.action, 0);
    assert_eq!(data.advantage, Player::One);
    assert_eq!(data.player_one.choice_selection, ChoiceSelection::default());
    assert!(data.player_one.input.map.is_empty());
    assert!(!data.can_end_game());
}

#[test]
fn select_is_idempotent() {
    let mut player = PlayerData::default();
    let fire = Choice::Element(Element::Fire);
    let water = Choice::Element(Element::Water);
    assert_eq!(
        player.select_element(Player::One, fire),
        Some(SelectElementEvent { player: Player::One, element: fire })
    );
    assert_eq!(player.select_element(Player::One, fire), None);
    assert_eq!(player.choice_selection.element, fire);
    assert_eq!(
        player.select_element(Player::One, water),
        Some(SelectElementEvent { player: Player::One, element: water })
    );
    assert_eq!(player.choice_selection.element, water);
    assert_eq!(player.choice_selection.action, Choice::Unset);

    let hand = Choice::Action(Action::Hand);
    assert_eq!(
        player.select_action(Player::Two, hand),
        Some(SelectActionEvent { player: Player::Two, action: hand })
    );
    assert_eq!(player.select_action(Player::Two, hand), None);
    assert_eq!(player.choice_selection.action, hand);
    assert_eq!(player.choice_selection.element, water);
    assert_eq!(player.health, MAX_HEALTH);
}

#[test]
fn select_by_dimension() {
    let mut data = GameData::default();
    let grass = Choice::Element(Element::Grass);
    let toilet = Choice::Action(Action::Toilet);
    assert_eq!(
        data.select(Player::Two, Dimension::Element, grass),
        Some(SelectionEvent::Element(SelectElementEvent { player: Player::Two, element: grass }))
    );
    assert_eq!(
        data.select(Player::One, Dimension::Action, toilet),
        Some(SelectionEvent::Action(SelectActionEvent { player: Player::One, action: toilet }))
    );
    assert_eq!(data.select(Player::One, Dimension::Action, toilet), None);
    assert_eq!(data.player_two.choice_selection.element, grass);
    assert_eq!(data.player_one.choice_selection.action, toilet);
    assert_eq!(data.get_action(Player::One), toilet);
    assert_eq!(data.get_action(Player::Two), Choice::Unset);
    assert_eq!(data.player(Player::Two).choice_selection.element, grass);
}

#[test]
fn resolve_picks_the_winner() {
    let mut data = GameData::default();
    data.player_one.choice_selection = selection(Element::Water, Action::Toilet);
    data.player_two.choice_selection = selection(Element::Fire, Action::Hand);
    assert_eq!(
        data.resolve(Dimension::Action),
        ResolveResult { outcome: Outcome::PlayerOne, choice: Choice::Action(Action::Toilet) }
    );
    assert_eq!(
        data.resolve(Dimension::Element),
        ResolveResult { outcome: Outcome::PlayerOne, choice: Choice::Element(Element::Water) }
    );
    assert_eq!(data.get_action_result(), data.resolve(Dimension::Action));

    data.player_two.choice_selection = selection(Element::Grass, Action::Underwear);
    assert_eq!(
        data.resolve(Dimension::Action),
        ResolveResult { outcome: Outcome::PlayerTwo, choice: Choice::Action(Action::Underwear) }
    );
    assert_eq!(
        data.resolve(Dimension::Element),
        ResolveResult { outcome: Outcome::PlayerTwo, choice: Choice::Element(Element::Grass) }
    );
}

#[test]
fn resolve_draws() {
    let mut data = GameData::default();
    let draw = ResolveResult { outcome: Outcome::Draw, choice: Choice::Unset };
    assert_eq!(data.resolve(Dimension::Action), draw);
    assert_eq!(data.resolve(Dimension::Element), draw);
    data.player_one.choice_selection = selection(Element::Water, Action::Hand);
    data.player_two.choice_selection = selection(Element::Water, Action::Hand);
    assert_eq!(data.resolve(Dimension::Action), draw);
    assert_eq!(data.resolve(Dimension::Element), draw);
    assert_eq!(draw.winner(), None);
    assert_eq!(ResolveResult::default(), draw);
}

#[test]
fn missing_action_loses() {
    let mut data = GameData::default();
    data.player_two.choice_selection.action = Choice::Action(Action::Underwear);
    assert_eq!(
        data.get_action_result(),
        ResolveResult { outcome: Outcome::PlayerTwo, choice: Choice::Action(Action::Underwear) }
    );
    data.player_two.choice_selection.action = Choice::Unset;
    data.player_one.choice_selection.action = Choice::Action(Action::Hand);
    let result = data.get_action_result();
    assert_eq!(result.outcome, Outcome::PlayerOne);
    assert_eq!(result.winner(), Some(Player::One));
}

#[test]
fn process_turn_single_damage() {
    let mut data = GameData::default();
    data.player_one.choice_selection = selection(Element::Fire, Action::Toilet);
    data.player_two.choice_selection = selection(Element::Fire, Action::Hand);
    assert!(data.check_can_process());
    data.process_turn();
    assert_eq!(data.player_one.health, 5);
    assert_eq!(data.player_two.health, 4);
    assert_eq!(data.action, 1);
    assert_eq!(data.player_one.choice_selection, ChoiceSelection::default());
    assert_eq!(data.player_two.choice_selection, ChoiceSelection::default());
}

#[test]
fn process_turn_double_damage() {
    let mut data = GameData::default();
    data.player_one.choice_selection = selection(Element::Water, Action::Hand);
    data.player_two.choice_selection = selection(Element::Water, Action::Toilet);
    data.action = 3;
    data.process_turn();
    assert_eq!(data.player_one.health, 3);
    assert_eq!(data.player_two.health, 5);
    assert_eq!(data.action, 4);
}

#[test]
fn process_turn_draw_costs_nothing() {
    let mut data = GameData::default();
    data.player_one.choice_selection = selection(Element::Water, Action::Toilet);
    data.player_two.choice_selection = selection(Element::Fire, Action::Toilet);
    data.process_turn();
    assert_eq!(data.player_one.health, 5);
    assert_eq!(data.player_two.health, 5);
    assert_eq!(data.action, 1);
}

#[test]
fn record_at_the_end_of_its_range() {
    let mut data = GameData::default();
    data.action = u32::MAX;
    assert!(!data.check_can_process());
    data.action = 0;
    data.player_one.health = i32::MIN + 1;
    assert!(!data.check_can_process());
    data.player_one.health = i32::MIN + 2;
    assert!(data.check_can_process());
}

#[test]
fn end_of_game_and_winner() {
    let mut data = GameData::default();
    assert!(!data.can_end_game());
    data.player_two.health = 0;
    assert!(data.can_end_game());
    assert_eq!(data.get_winner(), Player::One);
    data.player_two.health = 3;
    data.player_one.health = -1;
    assert!(data.can_end_game());
    assert_eq!(data.get_winner(), Player::Two);
    data.player_one.health = 3;
    assert!(!data.can_end_game());
    assert_eq!(data.get_winner(), Player::Two);
}

#[test]
fn reset_keeps_the_advantage() {
    let mut data = GameData::default();
    data.setup(GameMode::TwoPlayer);
    data.player_one.health = 1;
    data.player_two.choice_selection = selection(Element::Fire, Action::Hand);
    data.action = 7;
    data.advantage = Player::Two;
    data.reset();
    assert_eq!(data.player_one.health, MAX_HEALTH);
    assert_eq!(data.player_two.choice_selection, ChoiceSelection::default());
    assert_eq!(data.action, 0);
    assert_eq!(data.advantage, Player::Two);
    assert!(data.player_one.input.map.is_empty());
    assert!(data.player_two.input.map.is_empty());
}

#[test]
fn reset_choice_keeps_the_rest() {
    let mut data = GameData::default();
    data.player_one.choice_selection = selection(Element::Fire, Action::Hand);
    data.player_two.choice_selection = selection(Element::Water, Action::Toilet);
    data.player_one.health = 2;
    data.action = 4;
    data.reset_choice();
    assert_eq!(data.player_one.choice_selection, ChoiceSelection::default());
    assert_eq!(data.player_two.choice_selection, ChoiceSelection::default());
    assert_eq!(data.player_one.health, 2);
    assert_eq!(data.action, 4);
}

#[test]
fn setup_binds_keys_by_mode() {
    let mut data = GameData::default();
    data.setup(GameMode::SinglePlayer);
    assert_eq!(data.player_one.input.map.len(), 3);
    assert_eq!(data.player_one.input.map[&KEY_A], selection(Element::Water, Action::Toilet));
    assert_eq!(data.player_one.input.map[&KEY_S], selection(Element::Grass, Action::Underwear));
    assert_eq!(data.player_one.input.map[&KEY_D], selection(Element::Fire, Action::Hand));
    assert!(data.player_two.input.map.is_empty());

    data.setup(GameMode::TwoPlayer);
    assert_eq!(data.player_two.input.map.len(), 3);
    assert_eq!(data.player_two.input.map[&KEY_J], selection(Element::Water, Action::Toilet));
    assert_eq!(data.player_two.input.map[&KEY_K], selection(Element::Grass, Action::Underwear));
    assert_eq!(data.player_two.input.map[&KEY_L], selection(Element::Fire, Action::Hand));
    assert_eq!(data.player_one.input.map.len(), 3);
    assert_eq!(data.player_one.health, MAX_HEALTH);
    assert_eq!(data.action, 0);
}

#[test]
fn pressed_keys_select() {
    let input = PlayerInput::bindings(10, 20, 30);
    assert_eq!(input.selected(&vec![]), None);
    assert_eq!(input.selected(&vec![1, 2, 3]), None);
    assert_eq!(input.selected(&vec![20]), Some(selection(Element::Grass, Action::Underwear)));
    assert_eq!(
        input.selected(&vec![5, 30, 10]),
        Some(selection(Element::Fire, Action::Hand))
    );
    assert_eq!(
        input.selected(&vec![10, 30]),
        Some(selection(Element::Water, Action::Toilet))
    );
    assert_eq!(PlayerInput::default().selected(&vec![10, 20, 30]), None);
}

#[test]
fn input_from_a_map() {
    let mut map = HashMap::new();
    map.insert(7, selection(Element::Fire, Action::Toilet));
    let input = PlayerInput::new(map);
    assert_eq!(input.selected(&vec![7]), Some(selection(Element::Fire, Action::Toilet)));
    assert_eq!(input.selected(&vec![8]), None);
}

#[test]
fn rebinding_a_key_keeps_the_last() {
    let input = PlayerInput::bindings(1, 1, 2);
    assert_eq!(input.map.len(), 2);
    assert_eq!(input.selected(&vec![1]), Some(selection(Element::Grass, Action::Underwear)));
}

#[test]
fn sprite_frames_cycle() {
    let config = AnimationConfig::new(0, 1, 10);
    assert_eq!(config.first_sprite_index, 0);
    assert_eq!(config.last_sprite_index, 1);
    assert_eq!(config.fps, 10);
    assert_eq!(config.next_index(0), 1);
    assert_eq!(config.next_index(1), 0);
    let longer = AnimationConfig::new(2, 5, 4);
    assert_eq!(longer.next_index(2), 3);
    assert_eq!(longer.next_index(4), 5);
    assert_eq!(longer.next_index(5), 2);
}
