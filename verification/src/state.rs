//! The phases of a match.

use crate::types::Dimension;
use vstd::prelude::*;

verus! {

/// Where the game stands. A match runs from `GameStart` through the
/// selection and resolution phases, round after round, to `GameOver`.
#[derive(Debug, Clone, Copy, Eq, PartialEq, Hash, Structural)]
pub enum GameState {
    /// Nothing was started yet.
    Idle,
    /// The title screen, where the kind of match is chosen.
    Title,
    /// The opening of a match.
    GameStart,
    /// Both players pick an element.
    SelectElement,
    /// Both players pick an action.
    SelectAction,
    /// The actions are compared and the exchange takes effect.
    ResolveAction,
    /// A player is out of health: the match is decided.
    GameOver,
}

impl Default for GameState {
    fn default() -> (r: GameState)
        ensures
            r == GameState::Idle,
    {
        GameState::Idle
    }
}

impl GameState {
    /// The kind of pick that the phase takes, if it takes any.
    pub open spec fn accepts_spec(self) -> Option<Dimension> {
        match self {
            GameState::SelectElement => Some(Dimension::Element),
            GameState::SelectAction => Some(Dimension::Action),
            _ => None,
        }
    }

    /// The kind of pick that the phase takes, if it takes any.
    pub fn accepts(self) -> (r: Option<Dimension>)
        ensures
            r == self.accepts_spec(),
    {
        match self {
            GameState::SelectElement => Some(Dimension::Element),
            GameState::SelectAction => Some(Dimension::Action),
            _ => None,
        }
    }

    /// Whether a match is under way in this phase.
    pub open spec fn in_match_spec(self) -> bool {
        self == GameState::GameStart || self == GameState::SelectElement || self
            == GameState::SelectAction || self == GameState::ResolveAction
    }

    /// Whether a match is under way in this phase.
    pub fn in_match(self) -> (r: bool)
        ensures
            r == self.in_match_spec(),
    {
        match self {
            GameState::GameStart
            | GameState::SelectElement
            | GameState::SelectAction
            | GameState::ResolveAction => true,
            _ => false,
        }
    }
}

/// What the screen lays over the game within a phase.
#[derive(Debug, Clone, Copy, Eq, PartialEq, Hash, Structural)]
pub enum UiState {
    /// Nothing.
    Hidden,
    /// The title of the phase.
    Title,
    /// The countdown to the end of the phase.
    Countdown,
    /// What both players picked.
    Reveal,
}

impl Default for UiState {
    fn default() -> (r: UiState)
        ensures
            r == UiState::Hidden,
    {
        UiState::Hidden
    }
}

} // verus!
