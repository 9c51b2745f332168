//! The shared flags through which the tasks of the engine coordinate.

use vstd::prelude::*;

verus! {

/// One observation of the four shared flags.
///
/// Each flag is independent of the others. The tasks of the engine read the
/// flags, decide on the values they saw, and write back single flags.
#[derive(Clone, Copy, Debug, PartialEq, Eq, Structural)]
pub struct State {
    /// A sequence is being executed. Set by the input poller on a trigger
    /// press, cleared by the poller on release and by the focus monitor on
    /// focus loss; read by the running sequence.
    pub running: bool,
    /// The global switch that the toggle hotkey flips.
    pub macro_enabled: bool,
    /// The target application is in the foreground. Written by the focus
    /// monitor only.
    pub warframe_active: bool,
    /// A rapid-click burst is in flight.
    pub rapid_clicking: bool,
}

impl State {
    /// The flags at start-up: nothing runs, the macro is enabled, and the host
    /// counts as inactive until the first probe says otherwise.
    pub open spec fn initial() -> State {
        State { running: false, macro_enabled: true, warframe_active: false, rapid_clicking: false }
    }

    /// The flags at start-up.
    pub fn new() -> (s: State)
        ensures
            s == State::initial(),
    {
        State { running: false, macro_enabled: true, warframe_active: false, rapid_clicking: false }
    }

    /// Flips the global switch and returns its new value.
    pub fn toggle_macro(&mut self) -> (enabled: bool)
        ensures
            enabled == !old(self).macro_enabled,
            *final(self) == (State { macro_enabled: enabled, ..*old(self) }),
    {
        self.macro_enabled = !self.macro_enabled;
        self.macro_enabled
    }
}

} // verus!
