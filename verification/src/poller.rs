//! The input poller: what one sample of the keys and buttons does to the
//! flags, and which tasks it starts.

use vstd::prelude::*;

use crate::keys::{Key, Keybinds};
use crate::shared::SharedState;
use crate::state::State;

verus! {

/// The wait after the toggle hotkey was seen down, in nanoseconds.
pub const DEBOUNCE_NANOS: u128 = 200_000_000;

/// The time between two samples while a sequence runs, in nanoseconds.
pub const RUNNING_POLL_NANOS: u128 = 500_000;

/// The time between two samples while nothing runs, in nanoseconds.
pub const IDLE_POLL_NANOS: u128 = 2_000_000;

/// The poller's own state: what the last sample said of the two triggers.
#[derive(Clone, Copy, Debug, PartialEq, Eq, Structural)]
pub struct InputPoller {
    pub last_macro_pressed: bool,
    pub last_rapid_click_pressed: bool,
}

/// What the caller does after a sample.
#[derive(Clone, Copy, Debug, PartialEq, Eq, Structural)]
pub struct PollOutcome {
    /// Start a rapid-click burst.
    pub start_rapid_click: bool,
    /// The run flag goes up: start a sequence task.
    pub start_sequence: bool,
    /// The run flag goes down: the trigger was released.
    pub stop_sequence: bool,
}

/// Whether a key is among the keys that are down.
pub open spec fn key_down(keys: Seq<Key>, key: Key) -> bool {
    keys.contains(key)
}

/// Whether the button of an index is down. An index past the last button is
/// a button that is up.
pub open spec fn button_down(buttons: Seq<bool>, idx: usize) -> bool {
    idx < buttons.len() && buttons[idx as int]
}

/// Whether the sequence trigger is held: the trigger button, or the second
/// one where it is configured.
pub open spec fn trigger_down(buttons: Seq<bool>, keybinds: Keybinds) -> bool {
    button_down(buttons, keybinds.macro_button) || (keybinds.macro_alt matches Some(alt)
        && button_down(buttons, alt))
}

impl InputPoller {
    /// The poller before its first sample.
    pub open spec fn initial() -> InputPoller {
        InputPoller { last_macro_pressed: false, last_rapid_click_pressed: false }
    }

    /// What a sample asks for, given the flags and whether the two triggers
    /// are down. Nothing while the host is inactive. A burst on a press of
    /// the rapid-click key while the macro is enabled and no burst is in
    /// flight. A sequence on a press of the trigger while the macro is
    /// enabled and nothing runs; a stop on its release.
    pub open spec fn outcome(self, flags: State, rapid_click_down: bool, trigger_down: bool)
        -> PollOutcome {
        let start_sequence = flags.warframe_active && trigger_down && !self.last_macro_pressed
            && !flags.running && flags.macro_enabled;
        PollOutcome {
            start_rapid_click: flags.warframe_active && rapid_click_down
                && !self.last_rapid_click_pressed && flags.macro_enabled
                && !flags.rapid_clicking,
            start_sequence,
            stop_sequence: flags.warframe_active && !trigger_down && self.last_macro_pressed,
        }
    }

    /// The flags after a sample: the run flag is set where a sequence starts
    /// and cleared where it stops.
    pub open spec fn flags_after(self, flags: State, rapid_click_down: bool, trigger_down: bool)
        -> State {
        let outcome = self.outcome(flags, rapid_click_down, trigger_down);
        State {
            running: if outcome.start_sequence {
                true
            } else if outcome.stop_sequence {
                false
            } else {
                flags.running
            },
            ..flags
        }
    }

    /// The poller after a sample: it remembers the two triggers while the
    /// host is active, and forgets them while it is not.
    pub open spec fn after(self, flags: State, rapid_click_down: bool, trigger_down: bool)
        -> InputPoller {
        InputPoller {
            last_macro_pressed: flags.warframe_active && trigger_down,
            last_rapid_click_pressed: flags.warframe_active && rapid_click_down,
        }
    }

    /// The poller before its first sample.
    pub fn new() -> (poller: InputPoller)
        ensures
            poller == InputPoller::initial(),
    {
        InputPoller { last_macro_pressed: false, last_rapid_click_pressed: false }
    }

    /// Whether the toggle hotkey, F11, is down: the caller then flips the
    /// global switch and waits out the debounce time.
    pub fn toggle_requested(keys: &[Key]) -> (requested: bool)
        ensures
            requested == key_down(keys@, Key::F11),
    {
        is_key_down(keys, Key::F11)
    }

    /// Takes in one sample, given whether the two triggers are down in it.
    pub fn react(&mut self, flags: &mut State, rapid_click_down: bool, trigger_down: bool) -> (outcome:
        PollOutcome)
        ensures
            outcome == old(self).outcome(*old(flags), rapid_click_down, trigger_down),
            *final(flags) == old(self).flags_after(*old(flags), rapid_click_down, trigger_down),
            *final(self) == old(self).after(*old(flags), rapid_click_down, trigger_down),
    {
        let mut outcome = PollOutcome {
            start_rapid_click: false,
            start_sequence: false,
            stop_sequence: false,
        };
        if flags.warframe_active {
            if rapid_click_down && !self.last_rapid_click_pressed && flags.macro_enabled
                && !flags.rapid_clicking {
                outcome.start_rapid_click = true;
            }
            self.last_rapid_click_pressed = rapid_click_down;

            if trigger_down && !self.last_macro_pressed && !flags.running && flags.macro_enabled {
                flags.running = true;
                outcome.start_sequence = true;
            } else if !trigger_down && self.last_macro_pressed {
                flags.running = false;
                outcome.stop_sequence = true;
            }
            self.last_macro_pressed = trigger_down;
        } else {
            self.last_rapid_click_pressed = false;
            self.last_macro_pressed = false;
        }
        outcome
    }

    /// Takes in one sample of the keys and mouse buttons that are down.
    pub fn process(
        &mut self,
        flags: &mut State,
        keys: &[Key],
        buttons: &[bool],
        keybinds: &Keybinds,
    ) -> (outcome: PollOutcome)
        ensures
            outcome == old(self).outcome(
                *old(flags),
                key_down(keys@, keybinds.rapid_click),
                trigger_down(buttons@, *keybinds),
            ),
            *final(flags) == old(self).flags_after(
                *old(flags),
                key_down(keys@, keybinds.rapid_click),
                trigger_down(buttons@, *keybinds),
            ),
            *final(self) == old(self).after(
                *old(flags),
                key_down(keys@, keybinds.rapid_click),
                trigger_down(buttons@, *keybinds),
            ),
    {
        let rapid_click_pressed = is_key_down(keys, keybinds.rapid_click);
        let macro_pressed = is_button_down(buttons, keybinds.macro_button) || match keybinds.macro_alt {
            Some(alt) => is_button_down(buttons, alt),
            None => false,
        };
        self.react(flags, rapid_click_pressed, macro_pressed)
    }

    /// Takes in one sample against the shared flags: reads them, decides as
    /// `process` does on what was read, and writes the run flag where a
    /// sequence starts or stops.
    ///
    /// A sequence starts only if the run flag can be taken from down to up
    /// in one step. Where it cannot, because the flag went up after it was
    /// read, the sample starts nothing: it is the sample of a reading with
    /// the run flag up.
    pub fn poll(
        &mut self,
        shared: &SharedState,
        keys: &[Key],
        buttons: &[bool],
        keybinds: &Keybinds,
    ) -> (outcome: PollOutcome)
        ensures
            exists|seen: State|
                {
                    &&& outcome == #[trigger] old(self).outcome(
                        seen,
                        key_down(keys@, keybinds.rapid_click),
                        trigger_down(buttons@, *keybinds),
                    )
                    &&& *final(self) == old(self).after(
                        seen,
                        key_down(keys@, keybinds.rapid_click),
                        trigger_down(buttons@, *keybinds),
                    )
                },
    {
        let seen = shared.observe();
        let mut flags = seen;
        let outcome = self.process(&mut flags, keys, buttons, keybinds);
        if outcome.start_sequence && !shared.claim_run() {
            let overtaken = PollOutcome { start_sequence: false, ..outcome };
            proof {
                assert(overtaken == old(self).outcome(
                    State { running: true, ..seen },
                    key_down(keys@, keybinds.rapid_click),
                    trigger_down(buttons@, *keybinds),
                ));
            }
            return overtaken;
        }
        if outcome.stop_sequence {
            shared.set_running(false);
        }
        proof {
            assert(outcome == old(self).outcome(
                seen,
                key_down(keys@, keybinds.rapid_click),
                trigger_down(buttons@, *keybinds),
            ));
        }
        outcome
    }

    /// The time to the next sample, in nanoseconds: short while a sequence
    /// runs, so that a release is seen soon.
    pub fn interval(running: bool) -> (nanos: u128)
        ensures
            nanos == if running { RUNNING_POLL_NANOS } else { IDLE_POLL_NANOS },
    {
        if running {
            RUNNING_POLL_NANOS
        } else {
            IDLE_POLL_NANOS
        }
    }
}

/// Whether a key is among the keys that are down.
pub fn is_key_down(keys: &[Key], key: Key) -> (down: bool)
    ensures
        down == key_down(keys@, key),
{
    let mut i: usize = 0;
    while i < keys.len()
        invariant
            i <= keys@.len(),
            forall|j: int| 0 <= j < i ==> keys@[j] != key,
        decreases keys@.len() - i,
    {
        if keys[i] == key {
            return true;
        }
        i += 1;
    }
    false
}

/// Whether the button of an index is down.
pub fn is_button_down(buttons: &[bool], idx: usize) -> (down: bool)
    ensures
        down == button_down(buttons@, idx),
{
    idx < buttons.len() && buttons[idx]
}

} // verus!
