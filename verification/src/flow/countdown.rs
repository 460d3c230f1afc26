//! The timer of a phase: a number of milliseconds that is counted down
//! tick by tick and expires once.

use vstd::prelude::*;

verus! {

/// A countdown in milliseconds. It expires on the tick that brings it to
/// zero, and on no tick after that one until it is set again.
#[derive(Debug, Copy, Clone, PartialEq, Eq, Structural)]
pub struct Countdown {
    /// What is left.
    pub remaining: u64,
    /// Whether it expired since it was last set.
    pub finished: bool,
}

impl Default for Countdown {
    fn default() -> (r: Countdown)
        ensures
            r == (Countdown { remaining: 0, finished: false }),
    {
        Countdown { remaining: 0, finished: false }
    }
}

impl Countdown {
    /// A countdown over `duration`, not yet expired.
    pub fn new(duration: u64) -> (r: Countdown)
        ensures
            r == (Countdown { remaining: duration, finished: false }),
    {
        Countdown { remaining: duration, finished: false }
    }

    /// Sets the countdown to the full `duration`, whatever was left.
    pub fn reset(&mut self, duration: u64)
        ensures
            *final(self) == (Countdown { remaining: duration, finished: false }),
    {
        self.remaining = duration;
        self.finished = false;
    }

    /// Sets the countdown to zero and keeps it from expiring.
    pub fn stop(&mut self)
        ensures
            *final(self) == (Countdown { remaining: 0, finished: true }),
    {
        self.remaining = 0;
        self.finished = true;
    }

    /// What a tick of `delta` leaves of the countdown: an expired one
    /// stays as it is; a running one loses `delta`, at most all that is
    /// left, and is expired once nothing is left.
    pub open spec fn after_tick(self, delta: u64) -> Countdown {
        if self.finished {
            self
        } else if delta >= self.remaining {
            Countdown { remaining: 0, finished: true }
        } else {
            Countdown { remaining: (self.remaining - delta) as u64, finished: false }
        }
    }

    /// Whether the countdown expires on a tick of `delta`.
    pub open spec fn expires_on(self, delta: u64) -> bool {
        !self.finished && delta >= self.remaining
    }

    /// Counts `delta` down and says whether the countdown expired on this
    /// tick.
    pub fn tick(&mut self, delta: u64) -> (just_finished: bool)
        ensures
            *final(self) == old(self).after_tick(delta),
            just_finished == old(self).expires_on(delta),
    {
        if self.finished {
            false
        } else if delta >= self.remaining {
            self.remaining = 0;
            self.finished = true;
            true
        } else {
            self.remaining = self.remaining - delta;
            false
        }
    }
}

/// A countdown expires exactly once: after the tick on which it expired no
/// tick makes it expire again, and ticks that add up to less than what is
/// left do not make it expire at all.
pub proof fn lemma_countdown_expires_once(timer: Countdown, first: u64, second: u64)
    ensures
        timer.expires_on(first) ==> !timer.after_tick(first).expires_on(second),
        timer.finished ==> !timer.expires_on(first),
        !timer.finished && first + second < timer.remaining ==> !timer.expires_on(first)
            && !timer.after_tick(first).expires_on(second),
        !timer.finished && first < timer.remaining && first + second >= timer.remaining
            ==> timer.after_tick(first).expires_on(second),
{
}

} // verus!
