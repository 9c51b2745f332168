//! The focus monitor: what each probe of the host's focus does to the flags.

use vstd::prelude::*;

use crate::shared::SharedState;
use crate::state::State;

verus! {

/// The time between two probes, in nanoseconds.
pub const PROBE_INTERVAL_NANOS: u128 = 1_000_000_000;

/// The monitor's own state.
#[derive(Clone, Copy, Debug, PartialEq, Eq, Structural)]
pub struct FocusMonitor {
    /// What the last probe said.
    pub last_known_active: bool,
}

impl FocusMonitor {
    /// The monitor before its first probe: the host counts as inactive.
    pub open spec fn initial() -> FocusMonitor {
        FocusMonitor { last_known_active: false }
    }

    /// Whether a probe that says `current_active` finds that a running
    /// sequence has just lost the host's focus.
    pub open spec fn loses_focus(self, flags: State, current_active: bool) -> bool {
        self.last_known_active && !current_active && flags.running
    }

    /// The flags after a probe that says `current_active`: the host flag
    /// takes the probe's answer, and the run flag falls on focus loss.
    pub open spec fn flags_after(self, flags: State, current_active: bool) -> State {
        State {
            warframe_active: current_active,
            running: flags.running && !self.loses_focus(flags, current_active),
            ..flags
        }
    }

    /// The monitor before its first probe.
    pub fn new() -> (monitor: FocusMonitor)
        ensures
            monitor == FocusMonitor::initial(),
    {
        FocusMonitor { last_known_active: false }
    }

    /// Takes in one probe of the host's focus. Returns whether a running
    /// sequence was stopped because the focus was lost, which is when the
    /// caller clears the shared run flag and says so.
    pub fn tick(&mut self, flags: &mut State, current_active: bool) -> (lost_focus: bool)
        ensures
            lost_focus == old(self).loses_focus(*old(flags), current_active),
            *final(flags) == old(self).flags_after(*old(flags), current_active),
            *final(self) == (FocusMonitor { last_known_active: current_active }),
    {
        let mut lost_focus = false;
        if current_active != self.last_known_active {
            if !current_active && flags.running {
                flags.running = false;
                lost_focus = true;
            }
            self.last_known_active = current_active;
        }
        flags.warframe_active = current_active;
        lost_focus
    }

    /// Takes in one probe of the host's focus against the shared flags: reads
    /// them, decides as `tick` does on what was read, writes the host flag,
    /// and clears the run flag where the focus was lost. Returns whether it
    /// was, which is when the caller says so.
    pub fn probe(&mut self, shared: &SharedState, current_active: bool) -> (lost_focus: bool)
        ensures
            *final(self) == (FocusMonitor { last_known_active: current_active }),
            exists|seen: State| lost_focus == #[trigger] old(self).loses_focus(seen, current_active),
    {
        let seen = shared.observe();
        let mut flags = seen;
        let lost_focus = self.tick(&mut flags, current_active);
        shared.set_warframe_active(flags.warframe_active);
        if lost_focus {
            shared.set_running(false);
        }
        proof {
            assert(lost_focus == old(self).loses_focus(seen, current_active));
        }
        lost_focus
    }
}

} // verus!
