//! What is shown and played for what happens in a match. Pictures and
//! sounds are known here by their numbers only.

use crate::combo::ResolveResult;
use crate::config::MAX_HEALTH;
use crate::helper::pick_one;
use crate::types::{Action, Choice, Element, Outcome, Player};
use vstd::prelude::*;

verus! {

/// The number under which a picture, a sound or a font is kept.
pub type AssetId = u32;

/// The pictures of one player's figure: plain, and under each element.
#[derive(Debug, Copy, Clone, PartialEq, Eq, Structural)]
pub struct PlayerAsset {
    pub neutral: AssetId,
    pub fire: AssetId,
    pub water: AssetId,
    pub grass: AssetId,
}

impl PlayerAsset {
    /// The picture of the figure under `element`; the plain one where
    /// `element` is no element.
    pub open spec fn get_spec(self, element: Choice) -> AssetId {
        match element {
            Choice::Element(Element::Fire) => self.fire,
            Choice::Element(Element::Water) => self.water,
            Choice::Element(Element::Grass) => self.grass,
            _ => self.neutral,
        }
    }

    /// The picture of the figure under `element`.
    pub fn get(&self, element: &Choice) -> (r: AssetId)
        ensures
            r == self.get_spec(*element),
    {
        match element {
            Choice::Element(Element::Fire) => self.fire,
            Choice::Element(Element::Water) => self.water,
            Choice::Element(Element::Grass) => self.grass,
            _ => self.neutral,
        }
    }
}

/// The pictures of both players' figures.
#[derive(Debug, Copy, Clone, PartialEq, Eq, Structural)]
pub struct GameAssets {
    pub player_one: PlayerAsset,
    pub player_two: PlayerAsset,
}

impl GameAssets {
    /// The pictures of the figure of `player`.
    pub fn get(&self, player: Player) -> (r: &PlayerAsset)
        ensures
            *r == match player {
                Player::One => self.player_one,
                Player::Two => self.player_two,
            },
    {
        match player {
            Player::One => &self.player_one,
            Player::Two => &self.player_two,
        }
    }
}

/// The pictures and fonts of the screen.
#[derive(Debug, Copy, Clone, PartialEq, Eq, Structural)]
pub struct UiAssets {
    pub logo: AssetId,
    pub heart_broken: AssetId,
    pub heart_full: AssetId,
    pub empty: AssetId,
    pub unknown: AssetId,
    pub element_fire: AssetId,
    pub element_grass: AssetId,
    pub element_water: AssetId,
    pub tool_hand: AssetId,
    pub tool_toilet: AssetId,
    pub tool_underwear: AssetId,
    pub result_swirly_p1: AssetId,
    pub result_swirly_p2: AssetId,
    pub result_whirly_p1: AssetId,
    pub result_whirly_p2: AssetId,
    pub result_wedgie_p1: AssetId,
    pub result_wedgie_p2: AssetId,
    pub result_draw: AssetId,
    pub fira_sans_bold: AssetId,
    pub ms_pain: AssetId,
}

impl UiAssets {
    /// The icon that stands for `choice`.
    pub open spec fn icon(self, choice: Choice) -> AssetId {
        match choice {
            Choice::Unset => self.unknown,
            Choice::Action(Action::Hand) => self.tool_hand,
            Choice::Action(Action::Toilet) => self.tool_toilet,
            Choice::Action(Action::Underwear) => self.tool_underwear,
            Choice::Element(Element::Fire) => self.element_fire,
            Choice::Element(Element::Water) => self.element_water,
            Choice::Element(Element::Grass) => self.element_grass,
        }
    }

    /// The icon that stands for `choice`.
    pub fn get_icon(&self, choice: Choice) -> (r: AssetId)
        ensures
            r == self.icon(choice),
    {
        match choice {
            Choice::Unset => self.unknown,
            Choice::Action(Action::Hand) => self.tool_hand,
            Choice::Action(Action::Toilet) => self.tool_toilet,
            Choice::Action(Action::Underwear) => self.tool_underwear,
            Choice::Element(Element::Fire) => self.element_fire,
            Choice::Element(Element::Water) => self.element_water,
            Choice::Element(Element::Grass) => self.element_grass,
        }
    }

    /// The picture that shows `result`: one for each winner and winning
    /// action, and the picture of a draw for anything else.
    pub open spec fn result_picture(self, result: ResolveResult) -> AssetId {
        match (result.outcome, result.choice) {
            (Outcome::PlayerOne, Choice::Action(Action::Hand)) => self.result_whirly_p1,
            (Outcome::PlayerOne, Choice::Action(Action::Toilet)) => self.result_swirly_p1,
            (Outcome::PlayerOne, Choice::Action(Action::Underwear)) => self.result_wedgie_p1,
            (Outcome::PlayerTwo, Choice::Action(Action::Hand)) => self.result_whirly_p2,
            (Outcome::PlayerTwo, Choice::Action(Action::Toilet)) => self.result_swirly_p2,
            (Outcome::PlayerTwo, Choice::Action(Action::Underwear)) => self.result_wedgie_p2,
            _ => self.result_draw,
        }
    }

    /// The picture that shows `result`.
    pub fn get_result(&self, result: ResolveResult) -> (r: AssetId)
        ensures
            r == self.result_picture(result),
    {
        match (result.outcome, result.choice) {
            (Outcome::PlayerOne, Choice::Action(Action::Hand)) => self.result_whirly_p1,
            (Outcome::PlayerOne, Choice::Action(Action::Toilet)) => self.result_swirly_p1,
            (Outcome::PlayerOne, Choice::Action(Action::Underwear)) => self.result_wedgie_p1,
            (Outcome::PlayerTwo, Choice::Action(Action::Hand)) => self.result_whirly_p2,
            (Outcome::PlayerTwo, Choice::Action(Action::Toilet)) => self.result_swirly_p2,
            (Outcome::PlayerTwo, Choice::Action(Action::Underwear)) => self.result_wedgie_p2,
            _ => self.result_draw,
        }
    }

    /// The heart in place `index` of a player's row, counted from zero:
    /// full while the player's health is above `index`, else broken.
    pub open spec fn heart(self, health: i32, index: int) -> AssetId {
        if health < index + 1 {
            self.heart_broken
        } else {
            self.heart_full
        }
    }

    /// The row of hearts of a player with `health`: as many hearts as full
    /// health has, the first `health` of them full.
    pub fn get_hearts(&self, health: i32) -> (r: Vec<AssetId>)
        ensures
            r@.len() == MAX_HEALTH,
            forall|i: int| 0 <= i < MAX_HEALTH ==> #[trigger] r@[i] == self.heart(health, i),
    {
        let mut hearts: Vec<AssetId> = Vec::new();
        let mut i: i32 = 0;
        while i < MAX_HEALTH
            invariant
                0 <= i <= MAX_HEALTH,
                hearts@.len() == i,
                forall|j: int| 0 <= j < i ==> #[trigger] hearts@[j] == self.heart(health, j),
            decreases MAX_HEALTH - i,
        {
            if health < i + 1 {
                hearts.push(self.heart_broken);
            } else {
                hearts.push(self.heart_full);
            }
            i += 1;
        }
        hearts
    }
}

/// The sounds of the game. Of some there are several to pick from.
#[derive(Debug)]
pub struct AudioAssets {
    pub nuggie: Vec<AssetId>,
    pub wedgie: Vec<AssetId>,
    pub swirly: Vec<AssetId>,
    pub laugh: Vec<AssetId>,
    pub ready: AssetId,
    pub player_one_wins: AssetId,
    pub player_two_wins: AssetId,
    pub draw: Vec<AssetId>,
    pub select_fire: AssetId,
    pub select_grass: AssetId,
    pub select_water: AssetId,
    pub select_generic: Vec<AssetId>,
    pub player_one_advantage: AssetId,
    pub player_two_advantage: AssetId,
    pub no_advantage: AssetId,
    pub fight: AssetId,
    pub select_element: AssetId,
    pub combo_breaker: AssetId,
}

impl AudioAssets {
    /// The sounds for an exchange that the action `choice` won: those of
    /// the action, and laughter where no action won.
    pub open spec fn action_clips_spec(self, choice: Choice) -> Vec<AssetId> {
        match choice {
            Choice::Action(Action::Hand) => self.nuggie,
            Choice::Action(Action::Toilet) => self.swirly,
            Choice::Action(Action::Underwear) => self.wedgie,
            _ => self.laugh,
        }
    }

    /// The sounds for an exchange that the action `choice` won.
    pub fn action_clips(&self, choice: Choice) -> (r: &Vec<AssetId>)
        ensures
            *r == self.action_clips_spec(choice),
    {
        match choice {
            Choice::Action(Action::Hand) => &self.nuggie,
            Choice::Action(Action::Toilet) => &self.swirly,
            Choice::Action(Action::Underwear) => &self.wedgie,
            _ => &self.laugh,
        }
    }

    /// The sounds for the outcome of an exchange: those of a draw, and
    /// laughter where a player won.
    pub open spec fn outcome_clips_spec(self, outcome: Outcome) -> Vec<AssetId> {
        match outcome {
            Outcome::Draw => self.draw,
            _ => self.laugh,
        }
    }

    /// The sounds for the outcome of an exchange.
    pub fn outcome_clips(&self, outcome: Outcome) -> (r: &Vec<AssetId>)
        ensures
            *r == self.outcome_clips_spec(outcome),
    {
        match outcome {
            Outcome::Draw => &self.draw,
            _ => &self.laugh,
        }
    }

    /// The sound for the winner of the match.
    pub fn winner_clip(&self, winner: Player) -> (r: AssetId)
        ensures
            r == match winner {
                Player::One => self.player_one_wins,
                Player::Two => self.player_two_wins,
            },
    {
        match winner {
            Player::One => self.player_one_wins,
            Player::Two => self.player_two_wins,
        }
    }

    /// The sound for a player picking `element`: each element has its own;
    /// for anything else it is one of the general sounds, picked by chance,
    /// and none where there is no general sound.
    pub fn select_audio(&self, element: Choice) -> (r: Option<AssetId>)
        ensures
            match element {
                Choice::Element(Element::Fire) => r == Some(self.select_fire),
                Choice::Element(Element::Water) => r == Some(self.select_water),
                Choice::Element(Element::Grass) => r == Some(self.select_grass),
                _ => one_of(self.select_generic@, r),
            },
    {
        match element {
            Choice::Element(Element::Fire) => Some(self.select_fire),
            Choice::Element(Element::Water) => Some(self.select_water),
            Choice::Element(Element::Grass) => Some(self.select_grass),
            _ => pick_clip(&self.select_generic),
        }
    }

    /// The sound for an exchange that the action `choice` won, picked by
    /// chance among those there are.
    pub fn action_audio(&self, choice: Choice) -> (r: Option<AssetId>)
        ensures
            one_of(self.action_clips_spec(choice)@, r),
    {
        pick_clip(self.action_clips(choice))
    }

    /// The sound for the outcome of an exchange, picked by chance among
    /// those there are.
    pub fn outcome_audio(&self, outcome: Outcome) -> (r: Option<AssetId>)
        ensures
            one_of(self.outcome_clips_spec(outcome)@, r),
    {
        pick_clip(self.outcome_clips(outcome))
    }
}

/// Whether `picked` is a pick from `clips`: one of them, and none only
/// where there is none.
pub open spec fn one_of(clips: Seq<AssetId>, picked: Option<AssetId>) -> bool {
    match picked {
        Some(clip) => clips.contains(clip),
        None => clips.len() == 0,
    }
}

/// One of `clips`, picked by chance.
pub fn pick_clip(clips: &Vec<AssetId>) -> (r: Option<AssetId>)
    ensures
        one_of(clips@, r),
{
    match pick_one(clips) {
        Some(clip) => Some(*clip),
        None => None,
    }
}

} // verus!
