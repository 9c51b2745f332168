//! What a task derives from its copy of the configuration, and the actions
//! that it asks its caller to perform.

use vstd::prelude::*;

use crate::config::{durations_of, get_durations_from_config, keybinds_of, Durations, SharedConfig};
use crate::keys::{
    button_from_index, button_of_index, inject_key_of, Button, InjectKey, PrecomputedKeys,
};

verus! {

/// One thing that a task asks its caller to do before the next step.
#[derive(Clone, Copy, Debug, PartialEq, Eq, Structural)]
pub enum Action {
    /// Copy the shared configuration and hand the copy over with `load`.
    Snapshot,
    /// Press a key.
    KeyDown(InjectKey),
    /// Release a key.
    KeyUp(InjectKey),
    /// Press a mouse button.
    ButtonDown(Button),
    /// Release a mouse button.
    ButtonUp(Button),
    /// Wait this many nanoseconds, precisely.
    Wait(u128),
    /// Write this value to the flag that says a rapid-click burst is in
    /// flight.
    RapidClicking(bool),
    /// The task is over. Nothing else follows.
    Finished,
}

/// A key or a button of the injector.
#[derive(Clone, Copy, Debug, PartialEq, Eq, Structural)]
pub enum Input {
    Key(InjectKey),
    Button(Button),
}

/// The inputs that are down after an action, given those that were down
/// before it.
pub open spec fn held_after(held: Set<Input>, action: Action) -> Set<Input> {
    match action {
        Action::KeyDown(key) => held.insert(Input::Key(key)),
        Action::KeyUp(key) => held.remove(Input::Key(key)),
        Action::ButtonDown(button) => held.insert(Input::Button(button)),
        Action::ButtonUp(button) => held.remove(Input::Button(button)),
        _ => held,
    }
}

/// The keys and buttons that a task presses and releases.
#[derive(Clone, Copy, Debug, PartialEq, Eq, Structural)]
pub struct Inputs {
    pub keys: PrecomputedKeys,
    pub aim: Button,
    pub fire: Button,
}

/// All that one run of a task reads of the configuration.
#[derive(Clone, Copy, Debug, PartialEq, Eq, Structural)]
pub struct Plan {
    pub inputs: Inputs,
    pub durations: Durations,
    /// How long the rapid-fire stage of the sequence clicks, in milliseconds.
    pub rapid_fire_duration_ms: u64,
    /// How many clicks a rapid-click burst makes.
    pub rapid_click_count: usize,
}

/// The inputs that a configuration binds.
#[verifier::opaque]
pub open spec fn inputs_of(config: SharedConfig) -> Inputs {
    Inputs {
        keys: PrecomputedKeys {
            jump: inject_key_of(keybinds_of(config).jump),
            melee: inject_key_of(keybinds_of(config).melee),
            emote: inject_key_of(keybinds_of(config).emote),
            rapid_click: inject_key_of(keybinds_of(config).rapid_click),
        },
        aim: button_of_index(config.aim_button),
        fire: button_of_index(config.fire_button),
    }
}

/// The plan that a configuration stands for.
#[verifier::opaque]
pub open spec fn plan_of(config: SharedConfig) -> Plan {
    Plan {
        inputs: inputs_of(config),
        durations: durations_of(config),
        rapid_fire_duration_ms: config.rapid_fire_duration_ms,
        rapid_click_count: config.rapid_click_count,
    }
}

/// The parts of the plan that a configuration stands for.
pub proof fn lemma_plan_parts(config: SharedConfig)
    ensures
        plan_of(config).inputs == inputs_of(config),
        plan_of(config).durations == durations_of(config),
        plan_of(config).rapid_fire_duration_ms == config.rapid_fire_duration_ms,
        plan_of(config).rapid_click_count == config.rapid_click_count,
{
    reveal(plan_of);
}

impl Inputs {
    /// The inputs of a task that has not read a configuration yet.
    pub open spec fn unbound() -> Inputs {
        Inputs {
            keys: PrecomputedKeys {
                jump: InjectKey::Space,
                melee: InjectKey::Space,
                emote: InjectKey::Space,
                rapid_click: InjectKey::Space,
            },
            aim: Button::Left,
            fire: Button::Left,
        }
    }

    /// The inputs that a configuration binds.
    pub fn from_config(config: &SharedConfig) -> (inputs: Inputs)
        ensures
            inputs == inputs_of(*config),
    {
        proof {
            reveal(inputs_of);
        }
        let keybinds = config.to_keybinds();
        Inputs {
            keys: PrecomputedKeys::from_keybinds(&keybinds),
            aim: button_from_index(keybinds.aim),
            fire: button_from_index(keybinds.fire),
        }
    }
}

impl Plan {
    /// The plan of a task that has not read a configuration yet: no input is
    /// bound and every duration is zero.
    pub open spec fn empty() -> Plan {
        Plan {
            inputs: Inputs::unbound(),
            durations: Durations {
                double_jump: 0,
                aim_melee: 0,
                melee_hold: 0,
                emote_preparation: 0,
                rapid_fire_click: 0,
                sequence_end: 0,
                loop_delay: 0,
                rapid_click: 0,
            },
            rapid_fire_duration_ms: 0,
            rapid_click_count: 0,
        }
    }

    /// The plan of a task that has not read a configuration yet.
    pub fn new() -> (plan: Plan)
        ensures
            plan == Plan::empty(),
    {
        Plan {
            inputs: Inputs {
                keys: PrecomputedKeys {
                    jump: InjectKey::Space,
                    melee: InjectKey::Space,
                    emote: InjectKey::Space,
                    rapid_click: InjectKey::Space,
                },
                aim: Button::Left,
                fire: Button::Left,
            },
            durations: Durations {
                double_jump: 0,
                aim_melee: 0,
                melee_hold: 0,
                emote_preparation: 0,
                rapid_fire_click: 0,
                sequence_end: 0,
                loop_delay: 0,
                rapid_click: 0,
            },
            rapid_fire_duration_ms: 0,
            rapid_click_count: 0,
        }
    }

    /// The plan that a configuration stands for.
    pub fn from_config(config: &SharedConfig) -> (plan: Plan)
        requires
            config.valid(),
        ensures
            plan == plan_of(*config),
    {
        proof {
            reveal(plan_of);
        }
        Plan {
            inputs: Inputs::from_config(config),
            durations: get_durations_from_config(config),
            rapid_fire_duration_ms: config.rapid_fire_duration_ms,
            rapid_click_count: config.rapid_click_count,
        }
    }
}

} // verus!
