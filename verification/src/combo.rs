//! The state of a match: what each player picked, their health, the count
//! of exchanges since the elements were picked, and who holds the
//! advantage.

use crate::config::{KEY_A, KEY_D, KEY_J, KEY_K, KEY_L, KEY_S, MAX_HEALTH};
use crate::events::{SelectActionEvent, SelectElementEvent, SelectionEvent};
use crate::settings::GameMode;
use crate::types::{Action, Choice, Dimension, Element, Outcome, Player};
use std::cmp::Ordering;
use std::collections::HashMap;
use vstd::prelude::*;

verus! {

broadcast use vstd::std_specs::hash::group_hash_axioms;

/// The frames of a sprite that is animated by stepping through them.
#[derive(Debug, Copy, Clone, PartialEq, Eq, Structural)]
pub struct AnimationConfig {
    pub first_sprite_index: usize,
    pub last_sprite_index: usize,
    pub fps: u8,
}

impl AnimationConfig {
    /// The frames from `first` to `last`, shown at `fps` frames a second.
    pub fn new(first: usize, last: usize, fps: u8) -> (r: Self)
        ensures
            r.first_sprite_index == first,
            r.last_sprite_index == last,
            r.fps == fps,
    {
        Self { first_sprite_index: first, last_sprite_index: last, fps }
    }

    /// The frame that follows frame `index`: the first one after the last,
    /// else the next.
    pub open spec fn next_index_spec(self, index: usize) -> int {
        if index == self.last_sprite_index {
            self.first_sprite_index as int
        } else {
            index + 1
        }
    }

    /// The frame that follows frame `index`.
    pub fn next_index(&self, index: usize) -> (r: usize)
        requires
            index == self.last_sprite_index || index < usize::MAX,
        ensures
            r == self.next_index_spec(index),
    {
        if index == self.last_sprite_index {
            self.first_sprite_index
        } else {
            index + 1
        }
    }
}

/// What a player picked for the exchange at hand.
#[derive(Debug, Copy, Clone, PartialEq, Eq, Structural)]
pub struct ChoiceSelection {
    pub element: Choice,
    pub action: Choice,
}

impl Default for ChoiceSelection {
    fn default() -> (r: ChoiceSelection)
        ensures
            r == ChoiceSelection::empty(),
    {
        ChoiceSelection { element: Choice::Unset, action: Choice::Unset }
    }
}

impl ChoiceSelection {
    /// Nothing picked.
    pub open spec fn empty() -> ChoiceSelection {
        ChoiceSelection { element: Choice::Unset, action: Choice::Unset }
    }

    /// Whether the element is the one paired with the action.
    pub open spec fn can_double_spec(self) -> bool {
        self.element == Choice::complement_spec(self.action)
    }

    /// Whether a win with this selection does double damage: the element
    /// is the one paired with the action.
    pub fn can_double(self) -> (r: bool)
        ensures
            r == self.can_double_spec(),
    {
        self.element == Choice::get_complement(&self.action)
    }

    /// The pick for `dimension`.
    pub open spec fn get_spec(self, dimension: Dimension) -> Choice {
        match dimension {
            Dimension::Action => self.action,
            Dimension::Element => self.element,
        }
    }

    /// The pick for `dimension`.
    pub fn get(self, dimension: Dimension) -> (r: Choice)
        ensures
            r == self.get_spec(dimension),
    {
        match dimension {
            Dimension::Action => self.action,
            Dimension::Element => self.element,
        }
    }

    /// The selection with `choice` as the pick for `dimension`.
    pub open spec fn with(self, dimension: Dimension, choice: Choice) -> ChoiceSelection {
        match dimension {
            Dimension::Action => ChoiceSelection { action: choice, ..self },
            Dimension::Element => ChoiceSelection { element: choice, ..self },
        }
    }

    /// Whether each pick is of its own kind or missing.
    pub open spec fn well_kinded(self) -> bool {
        &&& self.element is Unset || self.element is Element
        &&& self.action is Unset || self.action is Action
    }
}

/// Of the nine pairs of an element and an action, a selection does double
/// damage with exactly three: Fire with Hand, Water with Toilet, Grass
/// with Underwear.
pub proof fn lemma_double_damage_pairs(element: Element, action: Action)
    ensures
        (ChoiceSelection {
            element: Choice::Element(element),
            action: Choice::Action(action),
        }).can_double_spec() <==> {
            ||| element == Element::Fire && action == Action::Hand
            ||| element == Element::Water && action == Action::Toilet
            ||| element == Element::Grass && action == Action::Underwear
        },
{
}

/// The selection that each key of a player stands for. A key is known by
/// its number.
#[derive(Debug)]
pub struct PlayerInput {
    pub map: HashMap<u32, ChoiceSelection>,
}

impl Default for PlayerInput {
    fn default() -> (r: PlayerInput)
        ensures
            r.map@ == Map::<u32, ChoiceSelection>::empty(),
    {
        PlayerInput { map: HashMap::new() }
    }
}

impl PlayerInput {
    /// The keys of `map`, each standing for the selection it is mapped to.
    pub fn new(map: HashMap<u32, ChoiceSelection>) -> (r: Self)
        ensures
            r.map == map,
    {
        Self { map }
    }

    /// The selection that each of the three keys stands for: Toilet with
    /// Water, Underwear with Grass, Hand with Fire.
    pub open spec fn bindings_spec(toilet: u32, underwear: u32, hand: u32) -> Map<
        u32,
        ChoiceSelection,
    > {
        Map::<u32, ChoiceSelection>::empty().insert(
            toilet,
            ChoiceSelection {
                element: Choice::Element(Element::Water),
                action: Choice::Action(Action::Toilet),
            },
        ).insert(
            underwear,
            ChoiceSelection {
                element: Choice::Element(Element::Grass),
                action: Choice::Action(Action::Underwear),
            },
        ).insert(
            hand,
            ChoiceSelection {
                element: Choice::Element(Element::Fire),
                action: Choice::Action(Action::Hand),
            },
        )
    }

    /// Binds three keys, each to an action and the element paired with it.
    pub fn bindings(toilet: u32, underwear: u32, hand: u32) -> (r: Self)
        ensures
            r.map@ == PlayerInput::bindings_spec(toilet, underwear, hand),
    {
        let mut map: HashMap<u32, ChoiceSelection> = HashMap::new();
        map.insert(
            toilet,
            ChoiceSelection {
                element: Choice::Element(Element::Water),
                action: Choice::Action(Action::Toilet),
            },
        );
        map.insert(
            underwear,
            ChoiceSelection {
                element: Choice::Element(Element::Grass),
                action: Choice::Action(Action::Underwear),
            },
        );
        map.insert(
            hand,
            ChoiceSelection {
                element: Choice::Element(Element::Fire),
                action: Choice::Action(Action::Hand),
            },
        );
        Self { map }
    }

    /// The place in `pressed` of the first key that is bound, or the
    /// length of `pressed` where none is.
    pub open spec fn first_bound(self, pressed: Seq<u32>) -> int
        decreases pressed.len(),
    {
        if pressed.len() == 0 {
            0
        } else if self.map@.contains_key(pressed.first()) {
            0
        } else {
            1 + self.first_bound(pressed.drop_first())
        }
    }

    /// The selection that the pressed keys stand for: that of the first
    /// key in `pressed` that is bound, if any is.
    pub open spec fn selected_spec(self, pressed: Seq<u32>) -> Option<ChoiceSelection> {
        let at = self.first_bound(pressed);
        if at < pressed.len() {
            Some(self.map@[pressed[at]])
        } else {
            None
        }
    }

    /// `first_bound` is the least place of a bound key.
    pub proof fn lemma_first_bound(self, pressed: Seq<u32>)
        ensures
            0 <= self.first_bound(pressed) <= pressed.len(),
            forall|j: int|
                0 <= j < self.first_bound(pressed) ==> !self.map@.contains_key(
                    #[trigger] pressed[j],
                ),
            self.first_bound(pressed) < pressed.len() ==> self.map@.contains_key(
                pressed[self.first_bound(pressed)],
            ),
        decreases pressed.len(),
    {
        if pressed.len() == 0 {
        } else if self.map@.contains_key(pressed.first()) {
        } else {
            let rest = pressed.drop_first();
            self.lemma_first_bound(rest);
            assert forall|j: int| 0 <= j < self.first_bound(pressed) implies !self.map@.contains_key(
                #[trigger] pressed[j],
            ) by {
                if j > 0 {
                    assert(pressed[j] == rest[j - 1]);
                }
            }
        }
    }

    /// A place below which no key is bound, and which holds a bound key
    /// or is the end of `pressed`, is `first_bound`.
    pub proof fn lemma_first_bound_is(self, pressed: Seq<u32>, at: int)
        requires
            0 <= at <= pressed.len(),
            forall|j: int| 0 <= j < at ==> !self.map@.contains_key(#[trigger] pressed[j]),
            at < pressed.len() ==> self.map@.contains_key(pressed[at]),
        ensures
            self.first_bound(pressed) == at,
    {
        self.lemma_first_bound(pressed);
        let first = self.first_bound(pressed);
        if first < at {
            assert(!self.map@.contains_key(pressed[first]));
        } else if at < first {
            assert(!self.map@.contains_key(pressed[at]));
        }
    }

    /// The selection that the pressed keys stand for.
    pub fn selected(&self, pressed: &Vec<u32>) -> (r: Option<ChoiceSelection>)
        ensures
            r == self.selected_spec(pressed@),
    {
        let mut i: usize = 0;
        while i < pressed.len()
            invariant
                i <= pressed.len(),
                forall|j: int| 0 <= j < i ==> !self.map@.contains_key(#[trigger] pressed@[j]),
            decreases pressed.len() - i,
        {
            let found = self.map.get(&pressed[i]);
            if let Some(selection) = found {
                proof {
                    self.lemma_first_bound_is(pressed@, i as int);
                }
                return Some(*selection);
            }
            i += 1;
        }
        proof {
            self.lemma_first_bound_is(pressed@, i as int);
        }
        None
    }
}

/// One player's part of the match.
#[derive(Debug)]
pub struct PlayerData {
    pub choice_selection: ChoiceSelection,
    pub health: i32,
    pub input: PlayerInput,
}

impl Default for PlayerData {
    fn default() -> (r: PlayerData)
        ensures
            r.choice_selection == ChoiceSelection::empty(),
            r.health == MAX_HEALTH,
            r.input.map@ == Map::<u32, ChoiceSelection>::empty(),
    {
        Self {
            choice_selection: ChoiceSelection::default(),
            input: PlayerInput::default(),
            health: MAX_HEALTH,
        }
    }
}

impl PlayerData {
    /// Records `choice` as the player's element. Picking what is already
    /// picked changes nothing and reports nothing; a new pick replaces the
    /// old one and is reported once.
    pub fn select_element(&mut self, player: Player, choice: Choice) -> (r: Option<
        SelectElementEvent,
    >)
        ensures
            final(self).choice_selection.element == choice,
            final(self).choice_selection.action == old(self).choice_selection.action,
            final(self).health == old(self).health,
            final(self).input == old(self).input,
            r == if old(self).choice_selection.element != choice {
                Some(SelectElementEvent { player, element: choice })
            } else {
                None
            },
    {
        if self.choice_selection.element != choice {
            self.choice_selection.element = choice;
            Some(SelectElementEvent::new(player, choice))
        } else {
            None
        }
    }

    /// The player's part with `choice` as the pick for `dimension`.
    pub open spec fn with_choice(self, dimension: Dimension, choice: Choice) -> PlayerData {
        PlayerData { choice_selection: self.choice_selection.with(dimension, choice), ..self }
    }

    /// Records `choice` as the player's pick for `dimension`, and reports
    /// the change if it is one.
    pub fn select(&mut self, player: Player, dimension: Dimension, choice: Choice) -> (r: Option<
        SelectionEvent,
    >)
        ensures
            *final(self) == old(self).with_choice(dimension, choice),
            r == SelectionEvent::of_change(
                player,
                dimension,
                old(self).choice_selection.get_spec(dimension),
                choice,
            ),
    {
        match dimension {
            Dimension::Element => match self.select_element(player, choice) {
                Some(event) => Some(SelectionEvent::Element(event)),
                None => None,
            },
            Dimension::Action => match self.select_action(player, choice) {
                Some(event) => Some(SelectionEvent::Action(event)),
                None => None,
            },
        }
    }

    /// Records `choice` as the player's action. Picking what is already
    /// picked changes nothing and reports nothing; a new pick replaces the
    /// old one and is reported once.
    pub fn select_action(&mut self, player: Player, choice: Choice) -> (r: Option<
        SelectActionEvent,
    >)
        ensures
            final(self).choice_selection.action == choice,
            final(self).choice_selection.element == old(self).choice_selection.element,
            final(self).health == old(self).health,
            final(self).input == old(self).input,
            r == if old(self).choice_selection.action != choice {
                Some(SelectActionEvent { player, action: choice })
            } else {
                None
            },
    {
        if self.choice_selection.action != choice {
            self.choice_selection.action = choice;
            Some(SelectActionEvent::new(player, choice))
        } else {
            None
        }
    }
}

/// How a comparison of both players' picks ended, and the pick that won.
#[derive(Debug, Copy, Clone, PartialEq, Eq, Structural)]
pub struct ResolveResult {
    pub outcome: Outcome,
    pub choice: Choice,
}

impl ResolveResult {
    /// The result of comparing player one's pick with player two's: the
    /// greater pick wins and is the result's choice; equal picks, two
    /// missing ones too, are a draw without a choice.
    pub open spec fn of(one: Choice, two: Choice) -> ResolveResult {
        match one.compare_spec(two) {
            Ordering::Greater => ResolveResult { outcome: Outcome::PlayerOne, choice: one },
            Ordering::Less => ResolveResult { outcome: Outcome::PlayerTwo, choice: two },
            Ordering::Equal => ResolveResult { outcome: Outcome::Draw, choice: Choice::Unset },
        }
    }

    /// The player who won, if one did.
    pub open spec fn winner_spec(self) -> Option<Player> {
        match self.outcome {
            Outcome::PlayerOne => Some(Player::One),
            Outcome::PlayerTwo => Some(Player::Two),
            Outcome::Draw => None,
        }
    }

    /// The player who won, if one did.
    pub fn winner(&self) -> (r: Option<Player>)
        ensures
            r == self.winner_spec(),
    {
        match self.outcome {
            Outcome::PlayerOne => Some(Player::One),
            Outcome::PlayerTwo => Some(Player::Two),
            Outcome::Draw => None,
        }
    }
}

impl Default for ResolveResult {
    fn default() -> (r: ResolveResult)
        ensures
            r == (ResolveResult { outcome: Outcome::Draw, choice: Choice::Unset }),
    {
        ResolveResult { outcome: Outcome::Draw, choice: Choice::Unset }
    }
}

/// The single record of a match.
#[derive(Debug)]
pub struct GameData {
    pub player_one: PlayerData,
    pub player_two: PlayerData,
    /// Exchanges resolved since the elements were last picked.
    pub action: u32,
    /// Who won the first exchange of the running streak.
    pub advantage: Player,
}

impl Default for GameData {
    fn default() -> (r: GameData)
        ensures
            r.is_fresh(),
            r.advantage == Player::One,
    {
        Self {
            player_one: PlayerData::default(),
            player_two: PlayerData::default(),
            action: 0,
            advantage: Player::One,
        }
    }
}

impl GameData {
    /// The state in which a match begins, but for the advantage and the
    /// keys: nothing picked, full health, no exchange counted.
    pub open spec fn is_fresh(self) -> bool {
        &&& self.player_one.choice_selection == ChoiceSelection::empty()
        &&& self.player_two.choice_selection == ChoiceSelection::empty()
        &&& self.player_one.health == MAX_HEALTH
        &&& self.player_two.health == MAX_HEALTH
        &&& self.player_one.input.map@ == Map::<u32, ChoiceSelection>::empty()
        &&& self.player_two.input.map@ == Map::<u32, ChoiceSelection>::empty()
        &&& self.action == 0
    }

    /// The part of `player`.
    pub open spec fn player_spec(self, player: Player) -> PlayerData {
        match player {
            Player::One => self.player_one,
            Player::Two => self.player_two,
        }
    }

    /// The part of `player`.
    pub fn player(&self, player: Player) -> (r: &PlayerData)
        ensures
            *r == self.player_spec(player),
    {
        match player {
            Player::One => &self.player_one,
            Player::Two => &self.player_two,
        }
    }

    /// The record with `choice` as the pick of `player` for `dimension`.
    pub open spec fn with_choice(
        self,
        player: Player,
        dimension: Dimension,
        choice: Choice,
    ) -> GameData {
        match player {
            Player::One => GameData {
                player_one: self.player_one.with_choice(dimension, choice),
                ..self
            },
            Player::Two => GameData {
                player_two: self.player_two.with_choice(dimension, choice),
                ..self
            },
        }
    }

    /// Records `choice` as the pick of `player` for `dimension`, and
    /// reports the change if it is one.
    pub fn select(&mut self, player: Player, dimension: Dimension, choice: Choice) -> (r: Option<
        SelectionEvent,
    >)
        ensures
            *final(self) == old(self).with_choice(player, dimension, choice),
            r == SelectionEvent::of_change(
                player,
                dimension,
                old(self).player_spec(player).choice_selection.get_spec(dimension),
                choice,
            ),
    {
        match player {
            Player::One => self.player_one.select(player, dimension, choice),
            Player::Two => self.player_two.select(player, dimension, choice),
        }
    }

    /// Whether the record is ready for a match in `mode`: nothing picked,
    /// full health, no exchange counted, player one's keys bound, and
    /// player two's where a person plays.
    pub open spec fn is_set_up(self, mode: GameMode) -> bool {
        &&& self.player_one.choice_selection == ChoiceSelection::empty()
        &&& self.player_two.choice_selection == ChoiceSelection::empty()
        &&& self.player_one.health == MAX_HEALTH
        &&& self.player_two.health == MAX_HEALTH
        &&& self.action == 0
        &&& self.player_one.input.map@ == PlayerInput::bindings_spec(KEY_A, KEY_S, KEY_D)
        &&& self.player_two.input.map@ == if mode == GameMode::TwoPlayer {
            PlayerInput::bindings_spec(KEY_J, KEY_K, KEY_L)
        } else {
            Map::<u32, ChoiceSelection>::empty()
        }
    }

    /// The action that `player` picked.
    pub fn get_action(&self, player: Player) -> (r: Choice)
        ensures
            r == self.player_spec(player).choice_selection.action,
    {
        match player {
            Player::One => self.player_one.choice_selection.action,
            Player::Two => self.player_two.choice_selection.action,
        }
    }

    /// Puts both players and the exchange count back to where a match
    /// begins. Who held the advantage stays.
    pub fn reset(&mut self)
        ensures
            final(self).is_fresh(),
            final(self).advantage == old(self).advantage,
    {
        self.player_one = PlayerData::default();
        self.player_two = PlayerData::default();
        self.action = 0;
    }

    /// Readies the record for a match in `mode`: a fresh state, player
    /// one's keys bound, and player two's where a person plays.
    pub fn setup(&mut self, mode: GameMode)
        ensures
            final(self).is_set_up(mode),
            final(self).advantage == old(self).advantage,
    {
        self.reset();
        self.player_one.input = PlayerInput::bindings(KEY_A, KEY_S, KEY_D);
        // Only init controls for Two Player Mode
        if mode == GameMode::TwoPlayer {
            self.player_two.input = PlayerInput::bindings(KEY_J, KEY_K, KEY_L);
        }
    }

    /// Clears what both players picked.
    pub fn reset_choice(&mut self)
        ensures
            final(self).player_one.choice_selection == ChoiceSelection::empty(),
            final(self).player_two.choice_selection == ChoiceSelection::empty(),
            final(self).player_one.health == old(self).player_one.health,
            final(self).player_two.health == old(self).player_two.health,
            final(self).player_one.input == old(self).player_one.input,
            final(self).player_two.input == old(self).player_two.input,
            final(self).action == old(self).action,
            final(self).advantage == old(self).advantage,
    {
        self.player_one.choice_selection = ChoiceSelection::default();
        self.player_two.choice_selection = ChoiceSelection::default();
    }

    /// The result of comparing what both players picked for `dimension`.
    pub open spec fn resolve_spec(self, dimension: Dimension) -> ResolveResult {
        ResolveResult::of(
            self.player_one.choice_selection.get_spec(dimension),
            self.player_two.choice_selection.get_spec(dimension),
        )
    }

    /// Compares what both players picked for `dimension`.
    pub fn resolve(&self, dimension: Dimension) -> (r: ResolveResult)
        ensures
            r == self.resolve_spec(dimension),
    {
        let choice_one = self.player_one.choice_selection.get(dimension);
        let choice_two = self.player_two.choice_selection.get(dimension);
        if choice_one > choice_two {
            ResolveResult { outcome: Outcome::PlayerOne, choice: choice_one }
        } else if choice_one < choice_two {
            ResolveResult { outcome: Outcome::PlayerTwo, choice: choice_two }
        } else {
            ResolveResult { outcome: Outcome::Draw, choice: Choice::Unset }
        }
    }

    /// Compares the actions that both players picked.
    pub fn get_action_result(&self) -> (r: ResolveResult)
        ensures
            r == self.resolve_spec(Dimension::Action),
    {
        self.resolve(Dimension::Action)
    }

    /// The health that `player` loses in the exchange at hand: none unless
    /// the other player wins it, then two where the winner's element is the
    /// one paired with the winning action, else one.
    pub open spec fn damage_to(self, player: Player) -> int {
        let winner = self.resolve_spec(Dimension::Action).winner_spec();
        if winner == Some(player.opponent_spec()) {
            if self.player_spec(player.opponent_spec()).choice_selection.can_double_spec() {
                2
            } else {
                1
            }
        } else {
            0
        }
    }

    /// Whether the exchange at hand can be counted and its damage taken
    /// off without leaving the range of the machine's numbers.
    pub open spec fn can_process(self) -> bool {
        &&& self.action < u32::MAX
        &&& self.player_one.health >= i32::MIN + 2
        &&& self.player_two.health >= i32::MIN + 2
    }

    /// Whether the exchange at hand can be counted and its damage taken
    /// off without leaving the range of the machine's numbers.
    pub fn check_can_process(&self) -> (r: bool)
        ensures
            r == self.can_process(),
    {
        self.action < u32::MAX && self.player_one.health >= i32::MIN + 2 && self.player_two.health
            >= i32::MIN + 2
    }

    /// Takes the exchange at hand into the record: counts it, takes the
    /// damage off the loser's health, and clears what both players picked.
    pub fn process_turn(&mut self)
        requires
            old(self).can_process(),
        ensures
            final(self).action == old(self).action + 1,
            final(self).player_one.health == old(self).player_one.health - old(self).damage_to(
                Player::One,
            ),
            final(self).player_two.health == old(self).player_two.health - old(self).damage_to(
                Player::Two,
            ),
            final(self).player_one.choice_selection == ChoiceSelection::empty(),
            final(self).player_two.choice_selection == ChoiceSelection::empty(),
            final(self).player_one.input == old(self).player_one.input,
            final(self).player_two.input == old(self).player_two.input,
            final(self).advantage == old(self).advantage,
    {
        // Increment Action by One
        self.action += 1;
        // Update Healths
        let result = self.get_action_result();
        match result.outcome {
            Outcome::PlayerOne => {
                if self.player_one.choice_selection.can_double() {
                    self.player_two.health -= 2;
                } else {
                    self.player_two.health -= 1;
                }
            },
            Outcome::PlayerTwo => {
                if self.player_two.choice_selection.can_double() {
                    self.player_one.health -= 2;
                } else {
                    self.player_one.health -= 1;
                }
            },
            Outcome::Draw => (),
        }
        // Reset Choices
        self.reset_choice();
    }

    /// Whether a player is out of health.
    pub open spec fn can_end_game_spec(self) -> bool {
        self.player_one.health <= 0 || self.player_two.health <= 0
    }

    /// Whether a player is out of health, which ends the match.
    pub fn can_end_game(&self) -> (r: bool)
        ensures
            r == self.can_end_game_spec(),
    {
        self.player_one.health <= 0 || self.player_two.health <= 0
    }

    /// The player with more health; player two where both have the same.
    pub fn get_winner(&self) -> (r: Player)
        ensures
            r == if self.player_one.health > self.player_two.health {
                Player::One
            } else {
                Player::Two
            },
    {
        if self.player_one.health > self.player_two.health {
            Player::One
        } else {
            Player::Two
        }
    }
}

} // verus!
