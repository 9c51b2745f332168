//! The flags, the focus monitor and the input poller taken together: the
//! histories that the three can go through, and what holds in all of them.
//!
//! A history is a sequence of events, each taken in as a whole: a probe of the
//! host's focus, a press of the toggle hotkey, a sample of the triggers, a
//! write of the burst flag.

use vstd::prelude::*;

use crate::focus::FocusMonitor;
use crate::poller::{InputPoller, PollOutcome};
use crate::state::State;

verus! {

/// What one sample says of the two triggers.
#[derive(Clone, Copy, Debug, PartialEq, Eq, Structural)]
pub struct Sample {
    pub rapid_click_down: bool,
    pub trigger_down: bool,
}

/// One event in the life of the engine.
#[derive(Clone, Copy, Debug, PartialEq, Eq, Structural)]
pub enum Event {
    /// The focus monitor probed the host, with this answer.
    Probe(bool),
    /// The poller saw the toggle hotkey down.
    Toggle,
    /// The poller sampled the triggers.
    Sample(Sample),
    /// A rapid-click burst wrote its flag.
    Burst(bool),
}

/// The flags with the state of the two long-lived tasks.
#[derive(Clone, Copy, Debug, PartialEq, Eq, Structural)]
pub struct Engine {
    pub flags: State,
    pub monitor: FocusMonitor,
    pub poller: InputPoller,
}

impl Engine {
    /// The engine at start-up.
    pub open spec fn initial() -> Engine {
        Engine {
            flags: State::initial(),
            monitor: FocusMonitor::initial(),
            poller: InputPoller::initial(),
        }
    }

    /// What the poller asks for on an event: nothing, unless it is a sample.
    pub open spec fn outcome(self, event: Event) -> PollOutcome {
        match event {
            Event::Sample(sample) => self.poller.outcome(
                self.flags,
                sample.rapid_click_down,
                sample.trigger_down,
            ),
            _ => PollOutcome {
                start_rapid_click: false,
                start_sequence: false,
                stop_sequence: false,
            },
        }
    }

    /// The engine after an event.
    pub open spec fn after(self, event: Event) -> Engine {
        match event {
            Event::Probe(active) => Engine {
                flags: self.monitor.flags_after(self.flags, active),
                monitor: FocusMonitor { last_known_active: active },
                ..self
            },
            Event::Toggle => Engine {
                flags: State { macro_enabled: !self.flags.macro_enabled, ..self.flags },
                ..self
            },
            Event::Sample(sample) => Engine {
                flags: self.poller.flags_after(
                    self.flags,
                    sample.rapid_click_down,
                    sample.trigger_down,
                ),
                poller: self.poller.after(
                    self.flags,
                    sample.rapid_click_down,
                    sample.trigger_down,
                ),
                ..self
            },
            Event::Burst(in_flight) => Engine {
                flags: State { rapid_clicking: in_flight, ..self.flags },
                ..self
            },
        }
    }

    /// The engine after a history.
    pub open spec fn after_all(self, events: Seq<Event>) -> Engine
        decreases events.len(),
    {
        if events.len() == 0 {
            self
        } else {
            self.after_all(events.drop_last()).after(events.last())
        }
    }

    /// The number of sequences that a history starts.
    pub open spec fn starts(self, events: Seq<Event>) -> nat
        decreases events.len(),
    {
        if events.len() == 0 {
            0
        } else {
            let before = self.after_all(events.drop_last());
            self.starts(events.drop_last()) + if before.outcome(events.last()).start_sequence {
                1nat
            } else {
                0nat
            }
        }
    }

    /// The number of times that a history stops the sequence on a release.
    pub open spec fn stops(self, events: Seq<Event>) -> nat
        decreases events.len(),
    {
        if events.len() == 0 {
            0
        } else {
            let before = self.after_all(events.drop_last());
            self.stops(events.drop_last()) + if before.outcome(events.last()).stop_sequence {
                1nat
            } else {
                0nat
            }
        }
    }

    /// The number of times that the run flag falls in a history.
    pub open spec fn falls(self, events: Seq<Event>) -> nat
        decreases events.len(),
    {
        if events.len() == 0 {
            0
        } else {
            let before = self.after_all(events.drop_last());
            self.falls(events.drop_last()) + if before.flags.running && !before.after(
                events.last(),
            ).flags.running {
                1nat
            } else {
                0nat
            }
        }
    }

    /// What every history keeps: the monitor remembers what it wrote to the
    /// host flag, and nothing runs while that flag is down.
    pub open spec fn consistent(self) -> bool {
        &&& self.monitor.last_known_active == self.flags.warframe_active
        &&& !self.flags.warframe_active ==> !self.flags.running
    }

    /// The engine at start-up.
    pub fn new() -> (engine: Engine)
        ensures
            engine == Engine::initial(),
    {
        Engine { flags: State::new(), monitor: FocusMonitor::new(), poller: InputPoller::new() }
    }

    /// Takes in one event. Returns what the poller asks for, and whether a
    /// running sequence was stopped because the host lost the focus.
    pub fn handle(&mut self, event: Event) -> (reaction: (PollOutcome, bool))
        ensures
            *final(self) == old(self).after(event),
            reaction.0 == old(self).outcome(event),
            reaction.1 == (event matches Event::Probe(active) && old(self).monitor.loses_focus(
                old(self).flags,
                active,
            )),
    {
        let nothing = PollOutcome {
            start_rapid_click: false,
            start_sequence: false,
            stop_sequence: false,
        };
        match event {
            Event::Probe(active) => {
                let lost_focus = self.monitor.tick(&mut self.flags, active);
                (nothing, lost_focus)
            },
            Event::Toggle => {
                self.flags.toggle_macro();
                (nothing, false)
            },
            Event::Sample(sample) => {
                let outcome = self.poller.react(
                    &mut self.flags,
                    sample.rapid_click_down,
                    sample.trigger_down,
                );
                (outcome, false)
            },
            Event::Burst(in_flight) => {
                self.flags.rapid_clicking = in_flight;
                (nothing, false)
            },
        }
    }
}

/// The number of presses in a history of a button's level: the samples in
/// which it is down after one in which it was up. Before the first sample it
/// counts as up.
pub open spec fn presses(levels: Seq<bool>) -> nat
    decreases levels.len(),
{
    if levels.len() == 0 {
        0
    } else {
        presses(levels.drop_last()) + if levels.last() && !level_before_last(levels) {
            1nat
        } else {
            0nat
        }
    }
}

/// The number of releases in a history of a button's level: the samples in
/// which it is up after one in which it was down.
pub open spec fn releases(levels: Seq<bool>) -> nat
    decreases levels.len(),
{
    if levels.len() == 0 {
        0
    } else {
        releases(levels.drop_last()) + if !levels.last() && level_before_last(levels) {
            1nat
        } else {
            0nat
        }
    }
}

/// The level in the sample before the last one; up where there is none.
pub open spec fn level_before_last(levels: Seq<bool>) -> bool {
    levels.len() >= 2 && levels[levels.len() - 2]
}

/// The samples of a history in which only the trigger is sampled.
pub open spec fn trigger_samples(levels: Seq<bool>) -> Seq<Event> {
    Seq::new(
        levels.len(),
        |i: int| Event::Sample(Sample { rapid_click_down: false, trigger_down: levels[i] }),
    )
}

/// An event keeps an engine consistent.
pub proof fn law_event_keeps_consistency(engine: Engine, event: Event)
    requires
        engine.consistent(),
    ensures
        engine.after(event).consistent(),
{
}

/// In every history from start-up, nothing runs while the host flag is down:
/// the probe that finds the focus lost clears the run flag, and no sample
/// sets it before a probe finds the focus back.
pub proof fn law_never_runs_unfocused(events: Seq<Event>)
    ensures
        Engine::initial().after_all(events).consistent(),
        !Engine::initial().after_all(events).flags.warframe_active ==> !Engine::initial().after_all(
            events,
        ).flags.running,
    decreases events.len(),
{
    if events.len() > 0 {
        law_never_runs_unfocused(events.drop_last());
        law_event_keeps_consistency(
            Engine::initial().after_all(events.drop_last()),
            events.last(),
        );
    }
}

/// The run flag rises only where a sequence may start: on a sample of the
/// triggers that finds the trigger newly pressed, the host active and the
/// macro enabled. That sample starts the sequence.
pub proof fn law_run_flag_rises_on_a_permitted_press(engine: Engine, event: Event)
    requires
        !engine.flags.running,
        engine.after(event).flags.running,
    ensures
        event matches Event::Sample(sample) && sample.trigger_down,
        !engine.poller.last_macro_pressed,
        engine.flags.warframe_active,
        engine.flags.macro_enabled,
        engine.outcome(event).start_sequence,
{
}

/// Bursts do not overlap: no event starts a rapid-click burst while the flag
/// that says one is in flight is up.
pub proof fn law_no_burst_starts_during_a_burst(engine: Engine, event: Event)
    requires
        engine.flags.rapid_clicking,
    ensures
        !engine.outcome(event).start_rapid_click,
{
}

/// One sequence runs at a time: in every history that begins with nothing
/// running, each start of a sequence but the last has been followed by a
/// fall of the run flag, and the last one has too unless the flag is up.
pub proof fn law_one_run_at_a_time(engine: Engine, events: Seq<Event>)
    requires
        !engine.flags.running,
    ensures
        engine.starts(events) == engine.falls(events) + if engine.after_all(events).flags.running {
            1nat
        } else {
            0nat
        },
    decreases events.len(),
{
    if events.len() > 0 {
        law_one_run_at_a_time(engine, events.drop_last());
    }
}

/// With the host active and the macro enabled, a history of trigger samples
/// starts one sequence for each press and stops it once for each release, and
/// leaves the run flag at the trigger's last level.
pub proof fn law_one_run_per_press(engine: Engine, levels: Seq<bool>)
    requires
        engine.flags.warframe_active,
        engine.flags.macro_enabled,
        !engine.flags.running,
        !engine.poller.last_macro_pressed,
    ensures
        engine.starts(trigger_samples(levels)) == presses(levels),
        engine.stops(trigger_samples(levels)) == releases(levels),
        engine.after_all(trigger_samples(levels)).flags.running == (levels.len() > 0
            && levels.last()),
        engine.after_all(trigger_samples(levels)).poller.last_macro_pressed == (levels.len() > 0
            && levels.last()),
        engine.after_all(trigger_samples(levels)).flags.warframe_active,
        engine.after_all(trigger_samples(levels)).flags.macro_enabled,
    decreases levels.len(),
{
    if levels.len() > 0 {
        let shorter = levels.drop_last();
        law_one_run_per_press(engine, shorter);
        assert(trigger_samples(levels).drop_last() =~= trigger_samples(shorter));
        assert(level_before_last(levels) == (shorter.len() > 0 && shorter.last()));
    }
}

} // verus!
