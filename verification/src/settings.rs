//! Who plays.

use vstd::prelude::*;

verus! {

/// Whether the second player is the computer or a person.
#[derive(Debug, PartialEq, Eq, Copy, Clone, Structural)]
pub enum GameMode {
    SinglePlayer,
    TwoPlayer,
}

impl Default for GameMode {
    fn default() -> (r: GameMode)
        ensures
            r == GameMode::SinglePlayer,
    {
        GameMode::SinglePlayer
    }
}

/// The settings of a match.
#[derive(Debug, PartialEq, Eq, Copy, Clone, Structural)]
pub struct GameSettings {
    pub game_mode: GameMode,
}

impl Default for GameSettings {
    fn default() -> (r: GameSettings)
        ensures
            r.game_mode == GameMode::SinglePlayer,
    {
        GameSettings { game_mode: GameMode::SinglePlayer }
    }
}

} // verus!
