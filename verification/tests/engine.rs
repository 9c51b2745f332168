use contagion_macro::engine::{Engine, Event, Sample};
use contagion_macro::focus::FocusMonitor;
use contagion_macro::poller::InputPoller;
use contagion_macro::state::State;

/// A small generator of pseudo-random numbers, so that the histories are the
/// same in every run.
fn next(seed: &mut u64) -> u64 {
    *seed = seed.wrapping_mul(6364136223846793005).wrapping_add(1442695040888963407);
    *seed >> 33
}

fn trigger(down: bool) -> Event {
    Event::Sample(Sample { rapid_click_down: false, trigger_down: down })
}

#[test]
fn the_engine_starts_with_fresh_parts() {
    let engine = Engine::new();
    assert_eq!(engine.flags, State::new());
    assert_eq!(engine.monitor, FocusMonitor::new());
    assert_eq!(engine.poller, InputPoller::new());
}

#[test]
fn the_engine_hands_each_event_to_its_part() {
    let mut engine = Engine::new();
    let (out, lost) = engine.handle(trigger(true));
    assert!(!out.start_sequence && !lost);
    let (_, lost) = engine.handle(Event::Probe(true));
    assert!(!lost);
    assert!(engine.flags.warframe_active);
    let (out, _) = engine.handle(trigger(true));
    assert!(out.start_sequence);
    assert!(engine.flags.running);
    let (out, lost) = engine.handle(Event::Toggle);
    assert!(!out.start_sequence && !out.stop_sequence && !out.start_rapid_click && !lost);
    assert!(!engine.flags.macro_enabled);
    assert!(engine.flags.running);
    let (_, lost) = engine.handle(Event::Probe(false));
    assert!(lost);
    assert!(!engine.flags.running);
    assert!(!engine.flags.warframe_active);
    let (out, _) = engine.handle(Event::Sample(Sample { rapid_click_down: true, trigger_down: false }));
    assert!(!out.start_rapid_click);
}

#[test]
fn nothing_runs_while_the_host_flag_is_down_in_random_histories() {
    for start in 0..200u64 {
        let mut seed = start * 7919 + 1;
        let mut engine = Engine::new();
        for _ in 0..400 {
            let event = match next(&mut seed) % 10 {
                0 => Event::Probe(true),
                1 => Event::Probe(false),
                2 => Event::Toggle,
                n => Event::Sample(Sample { rapid_click_down: n % 2 == 0, trigger_down: next(&mut seed) % 3 != 0 }),
            };
            let before = engine;
            let (out, lost) = engine.handle(event);
            assert!(engine.flags.warframe_active || !engine.flags.running);
            assert_eq!(engine.monitor.last_known_active, engine.flags.warframe_active);
            // The run flag rises only on a sample taken with the host active
            // and the macro enabled.
            if engine.flags.running && !before.flags.running {
                assert!(out.start_sequence);
                assert!(before.flags.warframe_active && before.flags.macro_enabled);
            }
            if lost {
                assert!(before.flags.running && !engine.flags.running);
            }
        }
    }
}

#[test]
fn the_run_flag_falls_with_the_probe_that_finds_the_focus_lost() {
    let mut engine = Engine::new();
    engine.handle(Event::Probe(true));
    engine.handle(trigger(true));
    assert!(engine.flags.running);
    engine.handle(Event::Probe(false));
    assert!(!engine.flags.running);
    // The trigger is still held; nothing restarts while the host is away.
    for _ in 0..10 {
        engine.handle(trigger(true));
        engine.handle(Event::Probe(false));
        assert!(!engine.flags.running);
    }
}

#[test]
fn one_start_for_each_press_and_one_stop_for_each_release() {
    for start in 0..100u64 {
        let mut seed = start * 104729 + 3;
        let mut engine = Engine::new();
        engine.handle(Event::Probe(true));
        let (mut starts, mut stops, mut presses, mut releases) = (0, 0, 0, 0);
        let mut last = false;
        for _ in 0..300 {
            let down = next(&mut seed) % 4 != 0;
            if down && !last {
                presses += 1;
            }
            if !down && last {
                releases += 1;
            }
            last = down;
            let (out, _) = engine.handle(trigger(down));
            if out.start_sequence {
                starts += 1;
            }
            if out.stop_sequence {
                stops += 1;
            }
            assert!(!(out.start_sequence && out.stop_sequence));
            assert_eq!(engine.flags.running, down);
        }
        assert_eq!(starts, presses);
        assert_eq!(stops, releases);
        assert!(presses > 10);
    }
}

#[test]
fn a_held_trigger_starts_exactly_once() {
    let mut engine = Engine::new();
    engine.handle(Event::Probe(true));
    let mut starts = 0;
    for _ in 0..1000 {
        if engine.handle(trigger(true)).0.start_sequence {
            starts += 1;
        }
    }
    assert_eq!(starts, 1);
    assert!(engine.handle(trigger(false)).0.stop_sequence);
    assert!(!engine.handle(trigger(false)).0.stop_sequence);
}

#[test]
fn the_burst_flag_touches_nothing_else() {
    let mut engine = Engine::new();
    engine.handle(Event::Probe(true));
    engine.handle(trigger(true));
    let before = engine;
    engine.handle(Event::Burst(true));
    assert_eq!(engine.flags, State { rapid_clicking: true, ..before.flags });
    assert_eq!((engine.monitor, engine.poller), (before.monitor, before.poller));
    engine.handle(Event::Burst(false));
    assert_eq!(engine, before);
}

#[test]
fn no_burst_starts_during_a_burst_in_random_histories() {
    for start in 0..100u64 {
        let mut seed = start * 15485863 + 11;
        let mut engine = Engine::new();
        engine.handle(Event::Probe(true));
        let mut starts = 0;
        for _ in 0..400 {
            let event = match next(&mut seed) % 8 {
                0 => Event::Burst(true),
                1 => Event::Burst(false),
                2 => Event::Toggle,
                n => Event::Sample(Sample { rapid_click_down: n % 2 == 0, trigger_down: false }),
            };
            let before = engine;
            let (out, _) = engine.handle(event);
            if out.start_rapid_click {
                starts += 1;
                assert!(!before.flags.rapid_clicking);
                assert!(before.flags.macro_enabled && before.flags.warframe_active);
            }
        }
        assert!(starts > 0);
    }
}
