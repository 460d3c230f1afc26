//! The computer that plays the second player where no person does.

use crate::config::{ACTION_FACES, BOT_TIME_FIRST, BOT_TIME_MAX, BOT_TIME_MIN, ELEMENT_FACES};
use crate::flow::countdown::Countdown;
use crate::helper::roll_below;
use crate::types::{Action, Choice, Dimension, Element};
use vstd::prelude::*;

verus! {

/// The computer's clock: when it runs out, the computer picks.
#[derive(Debug, Copy, Clone, PartialEq, Eq, Structural)]
pub struct ComputerPlayer {
    pub timer: Countdown,
}

impl Default for ComputerPlayer {
    fn default() -> (r: ComputerPlayer)
        ensures
            r == ComputerPlayer::first(),
    {
        ComputerPlayer { timer: Countdown::new(BOT_TIME_FIRST as u64) }
    }
}

impl ComputerPlayer {
    /// The computer at the start of a match: its first pick comes after a
    /// fixed time.
    pub open spec fn first() -> ComputerPlayer {
        ComputerPlayer { timer: Countdown { remaining: BOT_TIME_FIRST as u64, finished: false } }
    }

    /// Whether the clock was set for the wait between two picks: it runs,
    /// over a time within the bounds of that wait.
    pub open spec fn is_waiting(self) -> bool {
        &&& !self.timer.finished
        &&& BOT_TIME_MIN <= self.timer.remaining < BOT_TIME_MAX
    }

    /// Sets the clock to the time that `roll` stands for: the shortest
    /// wait and `roll` milliseconds.
    pub fn reset_to(&mut self, roll: u32)
        requires
            roll < BOT_TIME_MAX - BOT_TIME_MIN,
        ensures
            final(self).timer == (Countdown {
                remaining: (BOT_TIME_MIN + roll) as u64,
                finished: false,
            }),
            final(self).is_waiting(),
    {
        let wait: u32 = BOT_TIME_MIN + roll;
        self.timer.reset(wait as u64);
    }

    /// Sets the clock to a wait picked by chance.
    pub fn reset(&mut self)
        ensures
            final(self).is_waiting(),
    {
        let roll: u32 = roll_below(BOT_TIME_MAX - BOT_TIME_MIN);
        self.reset_to(roll);
    }

    /// Whether the computer may come up with `choice` for `dimension` when
    /// it fights under `element`: any element; an action that one of the
    /// faces of the weighted roll gives.
    pub open spec fn may_pick(dimension: Dimension, element: Choice, choice: Choice) -> bool {
        match dimension {
            Dimension::Element => exists|roll: u32|
                roll < ELEMENT_FACES && choice == Choice::Element(
                    #[trigger] Element::from_roll_spec(roll),
                ),
            Dimension::Action => exists|roll: u32|
                roll < ACTION_FACES && choice == Choice::Action(
                    #[trigger] Action::weighted_spec(element, roll),
                ),
        }
    }

    /// The computer's pick for `dimension`, made by chance; for an action
    /// the chance leans towards the one paired with `element`.
    pub fn pick(dimension: Dimension, element: &Choice) -> (r: Choice)
        ensures
            ComputerPlayer::may_pick(dimension, *element, r),
            r.fits_spec(dimension),
    {
        match dimension {
            Dimension::Element => Choice::Element(Element::random()),
            Dimension::Action => Choice::Action(Action::weighted(element)),
        }
    }
}

} // verus!
