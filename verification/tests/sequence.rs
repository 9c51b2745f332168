use contagion_macro::config::{FrameRate, SharedConfig};
use contagion_macro::keys::{Button, InjectKey};
use contagion_macro::plan::{Action, Inputs, Plan};
use contagion_macro::sequence::{ContagionTask, Phase, SCRIPT_LEN};

const MS: u128 = 1_000_000;

/// Drives a task as its caller does: every wait moves the clock on by its
/// length, every request for a snapshot is answered with `config`. The run
/// flag is up for the first `up` steps and down from then on. Stops after the
/// task has finished, or after `limit` steps.
fn drive(task: &mut ContagionTask, config: &SharedConfig, up: usize, limit: usize) -> Vec<Action> {
    let mut actions = Vec::new();
    let mut now = 0u128;
    while actions.len() < limit {
        let action = task.step(actions.len() < up, now);
        match action {
            Action::Snapshot => task.load(config),
            Action::Wait(nanos) => now += nanos,
            _ => {}
        }
        actions.push(action);
        if action == Action::Finished {
            break;
        }
    }
    actions
}

fn default_script() -> Vec<Action> {
    let jump = InjectKey::Space;
    let melee = InjectKey::Unicode('e');
    let emote = InjectKey::Unicode('.');
    vec![
        Action::KeyDown(jump),
        Action::Wait(6_875_000),
        Action::KeyUp(jump),
        Action::KeyDown(jump),
        Action::Wait(6_875_000),
        Action::KeyUp(jump),
        Action::ButtonDown(Button::Right),
        Action::Wait(25 * MS),
        Action::KeyDown(melee),
        Action::Wait(50 * MS),
        Action::KeyUp(melee),
        Action::ButtonUp(Button::Right),
        Action::Wait(113 * MS),
        Action::KeyDown(emote),
        Action::Wait(6_875_000),
        Action::KeyUp(emote),
        Action::KeyDown(emote),
        Action::Wait(6_875_000),
        Action::KeyUp(emote),
    ]
}

fn default_cleanup() -> Vec<Action> {
    vec![
        Action::Snapshot,
        Action::KeyUp(InjectKey::Unicode('e')),
        Action::KeyUp(InjectKey::Unicode('.')),
        Action::ButtonUp(Button::Right),
        Action::ButtonUp(Button::Left),
        Action::Finished,
    ]
}

fn click() -> Vec<Action> {
    vec![Action::ButtonDown(Button::Left), Action::ButtonUp(Button::Left), Action::Wait(MS)]
}

#[test]
fn a_task_without_an_injector_is_over_at_once() {
    let mut task = ContagionTask::new(false);
    assert!(task.is_done());
    assert_eq!(task.step(true, 0), Action::Finished);
    assert_eq!(task.step(true, 1), Action::Finished);
    assert!(task.is_done());
}

#[test]
fn a_new_task_stands_at_the_top_with_an_empty_plan() {
    let task = ContagionTask::new(true);
    assert_eq!(task.phase, Phase::Top);
    assert_eq!(task.plan, Plan::new());
    assert_eq!(task.burst_start, 0);
    assert!(!task.is_done());
    assert!(!task.is_awaiting_plan());
    assert_eq!(SCRIPT_LEN, 19);
}

#[test]
fn the_default_sequence_end_to_end() {
    let config = SharedConfig::default();
    let mut task = ContagionTask::new(true);
    let actions = drive(&mut task, &config, usize::MAX, 715);

    let mut expected = vec![Action::Snapshot];
    expected.extend(default_script());
    // With a click every millisecond, the first check that finds more than
    // 230 ms gone is the one after click 231.
    for _ in 0..231 {
        expected.extend(click());
    }
    expected.push(Action::Wait(50 * MS));
    expected.push(Action::Wait(MS));
    assert_eq!(actions.len(), 715);
    assert_eq!(actions, expected);
    assert_eq!(task.phase, Phase::Top);

    // The next run begins with a fresh snapshot.
    assert_eq!(task.step(true, 0), Action::Snapshot);
    assert!(task.is_awaiting_plan());
}

#[test]
fn the_sequence_repeats_while_the_run_flag_stays_up() {
    let config = SharedConfig::default();
    let mut task = ContagionTask::new(true);
    let actions = drive(&mut task, &config, usize::MAX, 3 * 715);
    assert_eq!(actions[..715], actions[715..1430]);
    assert_eq!(actions[..715], actions[1430..]);
}

#[test]
fn the_order_of_the_stages_does_not_depend_on_the_config() {
    let mut config = SharedConfig::default();
    config.fps = FrameRate { milli_fps: 60_000, ln_micro: 4_094_345 };
    config.jump_delay_us = 600_000;
    config.aim_melee_delay_ms = 3;
    config.melee_hold_time_ms = 4;
    config.use_emote_formula = false;
    config.emote_preparation_delay_manual_ms = 5;
    config.rapid_fire_duration_ms = 20;
    config.rapid_fire_click_delay_ms = 7;
    config.sequence_end_delay_ms = 8;
    config.loop_delay_ms = 9;
    config.melee_key = "f".to_string();
    config.jump_key = "W".to_string();
    config.emote_key = "F5".to_string();
    config.aim_button = 3;
    config.fire_button = 2;
    let mut task = ContagionTask::new(true);
    let actions = drive(&mut task, &config, usize::MAX, 31);

    let jump = InjectKey::Unicode('w');
    let melee = InjectKey::Unicode('f');
    let emote = InjectKey::Function(5);
    let mut expected = vec![
        Action::Snapshot,
        Action::KeyDown(jump),
        Action::Wait(10 * MS),
        Action::KeyUp(jump),
        Action::KeyDown(jump),
        Action::Wait(10 * MS),
        Action::KeyUp(jump),
        Action::ButtonDown(Button::Middle),
        Action::Wait(3 * MS),
        Action::KeyDown(melee),
        Action::Wait(4 * MS),
        Action::KeyUp(melee),
        Action::ButtonUp(Button::Middle),
        Action::Wait(5 * MS),
        Action::KeyDown(emote),
        Action::Wait(10 * MS),
        Action::KeyUp(emote),
        Action::KeyDown(emote),
        Action::Wait(10 * MS),
        Action::KeyUp(emote),
    ];
    // Checks at 7, 14 and 21 ms: the third finds more than 20 ms gone.
    for _ in 0..3 {
        expected.push(Action::ButtonDown(Button::Right));
        expected.push(Action::ButtonUp(Button::Right));
        expected.push(Action::Wait(7 * MS));
    }
    expected.push(Action::Wait(8 * MS));
    expected.push(Action::Wait(9 * MS));
    assert_eq!(actions, expected);
}

#[test]
fn the_rapid_fire_stage_ends_only_when_more_than_its_duration_is_gone() {
    let mut task = ContagionTask::new(true);
    task.step(true, 0);
    task.load(&SharedConfig::default());
    for _ in 0..19 {
        task.step(true, 0);
    }
    assert_eq!(task.phase, Phase::Script(19));
    let start = 5_000 * MS;
    assert_eq!(task.step(true, start), Action::ButtonDown(Button::Left));
    assert_eq!(task.burst_start, start);
    assert_eq!(task.step(true, start), Action::ButtonUp(Button::Left));
    assert_eq!(task.step(true, start), Action::Wait(MS));
    // Exactly 230 ms, and anything short of 231 whole milliseconds: go on.
    assert_eq!(task.step(true, start + 230 * MS), Action::ButtonDown(Button::Left));
    task.step(true, 0);
    task.step(true, 0);
    assert_eq!(task.step(true, start + 231 * MS - 1), Action::ButtonDown(Button::Left));
    task.step(true, 0);
    task.step(true, 0);
    // A clock that has gone back counts as no time gone.
    assert_eq!(task.step(true, start - 1), Action::ButtonDown(Button::Left));
    task.step(true, 0);
    task.step(true, 0);
    assert_eq!(task.step(true, start + 231 * MS), Action::Wait(50 * MS));
    assert_eq!(task.step(true, 0), Action::Wait(MS));
    assert_eq!(task.phase, Phase::Top);
}

#[test]
fn each_run_reads_a_fresh_snapshot() {
    let mut task = ContagionTask::new(true);
    let mut config = SharedConfig::default();
    config.rapid_fire_duration_ms = 0;
    let first = drive(&mut task, &config, usize::MAX, 25);
    assert_eq!(first[1], Action::KeyDown(InjectKey::Space));
    assert_eq!(first[20..], [click(), vec![Action::Wait(50 * MS), Action::Wait(MS)]].concat());
    assert_eq!(task.phase, Phase::Top);

    config.jump_key = "x".to_string();
    config.loop_delay_ms = 2;
    let second = drive(&mut task, &config, usize::MAX, 25);
    assert_eq!(second[0], Action::Snapshot);
    assert_eq!(second[1], Action::KeyDown(InjectKey::Unicode('x')));
    assert_eq!(second[24], Action::Wait(2 * MS));
}

#[test]
fn a_config_edit_takes_effect_only_with_the_next_snapshot() {
    let mut task = ContagionTask::new(true);
    assert_eq!(task.step(true, 0), Action::Snapshot);
    task.load(&SharedConfig::default());
    let mut edited = SharedConfig::default();
    edited.jump_key = "x".to_string();
    // The task has not asked: the copy is ignored.
    let before = task;
    task.load(&edited);
    assert_eq!(task, before);
    assert_eq!(task.step(true, 0), Action::KeyDown(InjectKey::Space));
}

#[test]
fn a_task_started_with_the_run_flag_down_only_cleans_up() {
    let mut task = ContagionTask::new(true);
    let actions = drive(&mut task, &SharedConfig::default(), 0, 100);
    assert_eq!(actions, default_cleanup());
    assert!(task.is_done());
}

#[test]
fn cancellation_is_seen_before_each_stage() {
    let config = SharedConfig::default();
    let script = default_script();
    // (steps with the flag up, number of script actions that still come out)
    for (up, done) in [(1, 0), (2, 6), (7, 6), (8, 12), (13, 12), (14, 13), (15, 19), (19, 19), (20, 19)] {
        let mut task = ContagionTask::new(true);
        let actions = drive(&mut task, &config, up, 100);
        let mut expected = vec![Action::Snapshot];
        expected.extend(script[..done].iter().copied());
        expected.extend(default_cleanup());
        assert_eq!(actions, expected, "flag up for {up} steps");
        assert!(task.is_done());
    }
}

#[test]
fn cancellation_between_the_wait_and_the_emote_taps() {
    let config = SharedConfig::default();
    let mut task = ContagionTask::new(true);
    // Up for the snapshot, the twelve actions before the wait, and the wait.
    let actions = drive(&mut task, &config, 14, 100);
    let mut expected = vec![Action::Snapshot];
    expected.extend(default_script()[..13].iter().copied());
    expected.extend(default_cleanup());
    assert_eq!(actions, expected);
}

#[test]
fn cancellation_while_clicking_is_prompt() {
    let config = SharedConfig::default();
    for (up, tail) in [
        // Before a click: nothing more is clicked.
        (23, vec![]),
        // The button is down: it is released and the click's wait is kept.
        (24, vec![Action::ButtonUp(Button::Left), Action::Wait(MS)]),
        (25, vec![Action::Wait(MS)]),
        (26, vec![]),
    ] {
        let mut task = ContagionTask::new(true);
        let actions = drive(&mut task, &config, up, 100);
        let clicked = (up - 20) / 3;
        let mut expected = vec![Action::Snapshot];
        expected.extend(default_script());
        for _ in 0..clicked {
            expected.extend(click());
        }
        if up == 24 {
            expected.push(Action::ButtonDown(Button::Left));
        } else if up == 25 {
            expected.extend([Action::ButtonDown(Button::Left), Action::ButtonUp(Button::Left)]);
        }
        expected.extend(tail);
        expected.extend(default_cleanup());
        assert_eq!(actions, expected, "flag up for {up} steps");
        let waits_after = actions[up..].iter().filter(|a| matches!(a, Action::Wait(_))).count();
        assert!(waits_after <= 1);
    }
}

#[test]
fn cancellation_before_the_end_delay_skips_it() {
    let mut config = SharedConfig::default();
    config.rapid_fire_duration_ms = 0;
    let mut task = ContagionTask::new(true);
    // Snapshot, script, one click; the check after it finds the flag down.
    let actions = drive(&mut task, &config, 23, 100);
    let mut expected = vec![Action::Snapshot];
    expected.extend(default_script());
    expected.extend(click());
    expected.extend(default_cleanup());
    assert_eq!(actions, expected);
}

#[test]
fn cancellation_during_the_delay_before_the_next_run() {
    let mut config = SharedConfig::default();
    config.rapid_fire_duration_ms = 0;
    let mut task = ContagionTask::new(true);
    let actions = drive(&mut task, &config, 24, 100);
    assert_eq!(actions[23..], [vec![Action::Wait(50 * MS), Action::Wait(MS)], default_cleanup()].concat());
}

#[test]
fn whatever_is_interrupted_the_four_inputs_are_released_last() {
    let config = SharedConfig::default();
    for up in 0..800 {
        let mut task = ContagionTask::new(true);
        let actions = drive(&mut task, &config, up, 2000);
        assert!(task.is_done());
        assert_eq!(actions[actions.len() - 6..], default_cleanup()[..]);
        // Every press before the clean-up has its release.
        let mut held: Vec<Action> = Vec::new();
        for action in &actions {
            match *action {
                Action::KeyDown(_) | Action::ButtonDown(_) => held.push(*action),
                Action::KeyUp(key) => held.retain(|h| *h != Action::KeyDown(key)),
                Action::ButtonUp(button) => held.retain(|h| *h != Action::ButtonDown(button)),
                _ => {}
            }
        }
        assert!(held.is_empty());
    }
}

#[test]
fn the_clean_up_releases_what_the_latest_config_binds() {
    let mut task = ContagionTask::new(true);
    let mut config = SharedConfig::default();
    assert_eq!(task.step(true, 0), Action::Snapshot);
    task.load(&config);
    assert_eq!(task.step(false, 0), Action::Snapshot);
    config.melee_key = "q".to_string();
    config.emote_key = "f2".to_string();
    config.aim_button = 3;
    config.fire_button = 2;
    // Even a config whose durations do not exist will do for the clean-up.
    config.fps.milli_fps = 0;
    assert!(!task.is_awaiting_plan());
    task.load(&config);
    assert_eq!(task.plan.inputs, Inputs::from_config(&config));
    assert_eq!(task.step(true, 0), Action::KeyUp(InjectKey::Unicode('q')));
    assert_eq!(task.step(true, 0), Action::KeyUp(InjectKey::Function(2)));
    assert_eq!(task.step(true, 0), Action::ButtonUp(Button::Middle));
    assert_eq!(task.step(true, 0), Action::ButtonUp(Button::Right));
    assert_eq!(task.step(true, 0), Action::Finished);
    assert_eq!(task.step(true, 0), Action::Finished);
}

#[test]
fn a_task_asks_again_until_it_is_handed_a_snapshot() {
    let mut task = ContagionTask::new(true);
    assert_eq!(task.step(true, 0), Action::Snapshot);
    assert_eq!(task.step(true, 0), Action::Snapshot);
    assert_eq!(task.step(false, 0), Action::Snapshot);
    assert!(task.is_awaiting_plan());
    task.load(&SharedConfig::default());
    assert_eq!(task.phase, Phase::Script(0));
    assert_eq!(task.plan, Plan::from_config(&SharedConfig::default()));

    let mut task = ContagionTask::new(true);
    assert_eq!(task.step(false, 0), Action::Snapshot);
    assert_eq!(task.step(true, 0), Action::Snapshot);
    assert_eq!(task.phase, Phase::AwaitCleanup);
}
