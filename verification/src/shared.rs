//! The flags as the threads of a program share them: one atomic per flag.
//!
//! Every flag is read and written on its own, without a lock. Between a read
//! and the next statement any other thread may write, so nothing is promised
//! of what a read returns; the decisions that the engine takes on a reading
//! are those of the state machines, whatever the reading was.

use std::sync::atomic::{AtomicBool, Ordering};
use vstd::prelude::*;

use crate::state::State;

verus! {

/// The four flags, shared by reference among the tasks.
pub struct SharedState {
    running: AtomicBool,
    macro_enabled: AtomicBool,
    warframe_active: AtomicBool,
    rapid_clicking: AtomicBool,
}

impl SharedState {
    /// The flags at start-up, as `State::new` gives them.
    pub fn new() -> SharedState {
        let initial = State::new();
        SharedState {
            running: AtomicBool::new(initial.running),
            macro_enabled: AtomicBool::new(initial.macro_enabled),
            warframe_active: AtomicBool::new(initial.warframe_active),
            rapid_clicking: AtomicBool::new(initial.rapid_clicking),
        }
    }

    /// Reads the four flags, one after the other.
    pub fn observe(&self) -> State {
        State {
            running: self.running.load(Ordering::Relaxed),
            macro_enabled: self.macro_enabled.load(Ordering::Relaxed),
            warframe_active: self.warframe_active.load(Ordering::Relaxed),
            rapid_clicking: self.rapid_clicking.load(Ordering::Relaxed),
        }
    }

    /// Reads the run flag.
    pub fn running(&self) -> bool {
        self.running.load(Ordering::Relaxed)
    }

    /// Reads the global switch.
    pub fn macro_enabled(&self) -> bool {
        self.macro_enabled.load(Ordering::Relaxed)
    }

    /// Writes the run flag.
    pub fn set_running(&self, value: bool) {
        self.running.store(value, Ordering::Relaxed);
    }

    /// Takes the run flag from down to up in one step, by compare-and-set.
    /// Returns whether it did: whether the flag was down, and is up now by
    /// this call.
    pub fn claim_run(&self) -> bool {
        self.running.compare_exchange(false, true, Ordering::Relaxed, Ordering::Relaxed).is_ok()
    }

    /// Writes the flag that says the host is in the foreground.
    pub fn set_warframe_active(&self, value: bool) {
        self.warframe_active.store(value, Ordering::Relaxed);
    }

    /// Writes the flag that says a rapid-click burst is in flight.
    pub fn set_rapid_clicking(&self, value: bool) {
        self.rapid_clicking.store(value, Ordering::Relaxed);
    }

    /// Flips the global switch: reads it, and writes back the opposite of
    /// what was read. Returns what was written.
    pub fn toggle_macro(&self) -> bool {
        let mut seen = self.observe();
        let enabled = seen.toggle_macro();
        self.macro_enabled.store(enabled, Ordering::Relaxed);
        enabled
    }
}

} // verus!
