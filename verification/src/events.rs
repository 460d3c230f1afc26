//! What the library reports when a player's pick changes.

use crate::types::{Choice, Dimension, Player};
use vstd::prelude::*;

verus! {

/// A player's element changed.
#[derive(Debug, Eq, PartialEq, Copy, Clone, Structural)]
pub struct SelectElementEvent {
    pub player: Player,
    pub element: Choice,
}

impl SelectElementEvent {
    /// The report that `player` now fights under `element`.
    pub fn new(player: Player, element: Choice) -> (r: Self)
        ensures
            r.player == player,
            r.element == element,
    {
        Self { player, element }
    }
}

/// A player's action changed.
#[derive(Debug, Eq, PartialEq, Copy, Clone, Structural)]
pub struct SelectActionEvent {
    pub player: Player,
    pub action: Choice,
}

impl SelectActionEvent {
    /// The report that `player` now goes for `action`.
    pub fn new(player: Player, action: Choice) -> (r: Self)
        ensures
            r.player == player,
            r.action == action,
    {
        Self { player, action }
    }
}

/// A player's pick changed.
#[derive(Debug, Eq, PartialEq, Copy, Clone, Structural)]
pub enum SelectionEvent {
    Element(SelectElementEvent),
    Action(SelectActionEvent),
}

impl SelectionEvent {
    /// What is reported when `player` picks `new` for `dimension` where
    /// `previous` was picked: the change, if it is one.
    pub open spec fn of_change(
        player: Player,
        dimension: Dimension,
        previous: Choice,
        new: Choice,
    ) -> Option<SelectionEvent> {
        if previous == new {
            None
        } else {
            Some(
                match dimension {
                    Dimension::Element => SelectionEvent::Element(
                        SelectElementEvent { player, element: new },
                    ),
                    Dimension::Action => SelectionEvent::Action(
                        SelectActionEvent { player, action: new },
                    ),
                },
            )
        }
    }
}

} // verus!
