//! The precise wait: a blocking sleep for the bulk of a long wait, and a spin
//! on the clock for the rest.

use vstd::prelude::*;

use crate::config::NANOS_PER_MILLI;

verus! {

/// The length of the tail, in nanoseconds, that a long wait leaves to
/// spinning.
pub const SPIN_TAIL_NANOS: u128 = 20_000_000;

/// The number of whole milliseconds above which a wait starts with a
/// blocking sleep.
pub const COARSE_ABOVE_MILLIS: u128 = 40;

/// What the caller of a timer does next.
#[derive(Clone, Copy, Debug, PartialEq, Eq, Structural)]
pub enum TimerAction {
    /// Block for this many nanoseconds, then ask again.
    Sleep(u128),
    /// Spin once, then ask again.
    Spin,
    /// The wait is over.
    Done,
}

/// One wait in progress.
#[derive(Clone, Copy, Debug, PartialEq, Eq, Structural)]
pub struct PrecisionTimer {
    /// The requested duration, in nanoseconds.
    pub requested: u128,
    /// Whether the blocking sleep is still to be decided on.
    pub coarse_pending: bool,
}

/// The part of a wait that is spent in a blocking sleep, in nanoseconds:
/// all but the spin tail where the wait has more than 40 whole milliseconds,
/// nothing otherwise.
pub open spec fn coarse_part(requested: u128) -> int {
    if requested / NANOS_PER_MILLI > COARSE_ABOVE_MILLIS {
        requested - SPIN_TAIL_NANOS
    } else {
        0
    }
}

impl PrecisionTimer {
    /// A wait of `requested` nanoseconds that has not begun.
    pub open spec fn fresh(requested: u128) -> PrecisionTimer {
        PrecisionTimer { requested, coarse_pending: true }
    }

    /// The action that the timer answers with when `elapsed` nanoseconds of
    /// the wait have passed.
    pub open spec fn action_at(self, elapsed: u128) -> TimerAction {
        if self.requested == 0 {
            TimerAction::Done
        } else if self.coarse_pending && coarse_part(self.requested) > 0 {
            TimerAction::Sleep(coarse_part(self.requested) as u128)
        } else if elapsed >= self.requested {
            TimerAction::Done
        } else {
            TimerAction::Spin
        }
    }

    /// A wait of `requested` nanoseconds that has not begun.
    pub fn new(requested: u128) -> (timer: PrecisionTimer)
        ensures
            timer == PrecisionTimer::fresh(requested),
    {
        PrecisionTimer { requested, coarse_pending: true }
    }

    /// Decides what comes next, given the time that has passed since the
    /// wait began. The blocking sleep is handed out once at most.
    pub fn step(&mut self, elapsed: u128) -> (action: TimerAction)
        ensures
            action == old(self).action_at(elapsed),
            *final(self) == (PrecisionTimer { coarse_pending: false, ..*old(self) }),
    {
        let pending = self.coarse_pending;
        self.coarse_pending = false;
        if self.requested == 0 {
            TimerAction::Done
        } else if pending && self.requested / NANOS_PER_MILLI > COARSE_ABOVE_MILLIS {
            TimerAction::Sleep(self.requested - SPIN_TAIL_NANOS)
        } else if elapsed >= self.requested {
            TimerAction::Done
        } else {
            TimerAction::Spin
        }
    }
}

/// A wait is never reported over before the requested time has passed, a
/// wait of no length is over at once, and the blocking sleep always leaves
/// the whole spin tail.
pub proof fn law_wait_lasts(timer: PrecisionTimer, elapsed: u128)
    ensures
        timer.action_at(elapsed) is Done ==> elapsed >= timer.requested,
        timer.requested == 0 ==> timer.action_at(elapsed) is Done,
        timer.action_at(elapsed) matches TimerAction::Sleep(nanos) ==> 0 < nanos && nanos
            + SPIN_TAIL_NANOS == timer.requested,
        !timer.coarse_pending && elapsed >= timer.requested ==> timer.action_at(elapsed) is Done,
{
}

} // verus!
