use contagion_macro::keys::{Key, Keybinds};
use contagion_macro::poller::{
    is_button_down, is_key_down, InputPoller, PollOutcome, DEBOUNCE_NANOS, IDLE_POLL_NANOS,
    RUNNING_POLL_NANOS,
};
use contagion_macro::state::State;

fn keybinds() -> Keybinds {
    Keybinds {
        melee: Key::E,
        jump: Key::Space,
        aim: 2,
        fire: 1,
        emote: Key::Dot,
        macro_button: 8,
        macro_alt: Some(9),
        rapid_click: Key::J,
    }
}

fn active() -> State {
    State { running: false, macro_enabled: true, warframe_active: true, rapid_clicking: false }
}

fn buttons(down: &[usize]) -> Vec<bool> {
    (0..10).map(|i| down.contains(&i)).collect()
}

const NOTHING: PollOutcome = PollOutcome { start_rapid_click: false, start_sequence: false, stop_sequence: false };

#[test]
fn the_toggle_hotkey_is_f11() {
    assert!(InputPoller::toggle_requested(&[Key::A, Key::F11]));
    assert!(InputPoller::toggle_requested(&[Key::F11]));
    assert!(!InputPoller::toggle_requested(&[Key::F12, Key::F1, Key::Key1]));
    assert!(!InputPoller::toggle_requested(&[]));
    assert_eq!(DEBOUNCE_NANOS, 200_000_000);
}

#[test]
fn keys_and_buttons_are_looked_up_in_the_sample() {
    assert!(is_key_down(&[Key::A, Key::J], Key::J));
    assert!(!is_key_down(&[Key::A, Key::J], Key::K));
    assert!(!is_key_down(&[], Key::K));
    assert!(is_button_down(&[false, true], 1));
    assert!(!is_button_down(&[false, true], 0));
    assert!(!is_button_down(&[false, true], 2));
    assert!(!is_button_down(&[], 0));
    assert!(!is_button_down(&[true], usize::MAX));
}

#[test]
fn a_press_of_the_trigger_starts_one_sequence() {
    let mut poller = InputPoller::new();
    let mut flags = active();
    let out = poller.process(&mut flags, &[], &buttons(&[8]), &keybinds());
    assert_eq!(out, PollOutcome { start_rapid_click: false, start_sequence: true, stop_sequence: false });
    assert!(flags.running);
    for _ in 0..5 {
        assert_eq!(poller.process(&mut flags, &[], &buttons(&[8]), &keybinds()), NOTHING);
        assert!(flags.running);
    }
}

#[test]
fn a_release_of_the_trigger_stops_the_sequence() {
    let mut poller = InputPoller::new();
    let mut flags = active();
    poller.process(&mut flags, &[], &buttons(&[8]), &keybinds());
    let out = poller.process(&mut flags, &[], &buttons(&[]), &keybinds());
    assert_eq!(out, PollOutcome { start_rapid_click: false, start_sequence: false, stop_sequence: true });
    assert!(!flags.running);
    assert_eq!(poller.process(&mut flags, &[], &buttons(&[]), &keybinds()), NOTHING);
    assert!(!flags.running);
}

#[test]
fn a_release_stops_even_what_the_poller_did_not_start() {
    let mut poller = InputPoller { last_macro_pressed: true, last_rapid_click_pressed: false };
    let mut flags = State { running: true, macro_enabled: false, warframe_active: true, rapid_clicking: false };
    let out = poller.process(&mut flags, &[], &buttons(&[]), &keybinds());
    assert!(out.stop_sequence);
    assert!(!flags.running);
}

#[test]
fn the_second_trigger_counts_where_it_is_configured() {
    let mut poller = InputPoller::new();
    let mut flags = active();
    assert!(poller.process(&mut flags, &[], &buttons(&[9]), &keybinds()).start_sequence);

    let mut without = keybinds();
    without.macro_alt = None;
    let mut poller = InputPoller::new();
    let mut flags = active();
    assert_eq!(poller.process(&mut flags, &[], &buttons(&[9]), &without), NOTHING);
    assert!(!flags.running);
    assert!(!poller.last_macro_pressed);
}

#[test]
fn moving_from_one_trigger_to_the_other_is_one_hold() {
    let mut poller = InputPoller::new();
    let mut flags = active();
    assert!(poller.process(&mut flags, &[], &buttons(&[8]), &keybinds()).start_sequence);
    assert_eq!(poller.process(&mut flags, &[], &buttons(&[8, 9]), &keybinds()), NOTHING);
    assert_eq!(poller.process(&mut flags, &[], &buttons(&[9]), &keybinds()), NOTHING);
    assert!(flags.running);
}

#[test]
fn a_trigger_index_past_the_last_button_is_a_button_that_is_up() {
    let mut poller = InputPoller::new();
    let mut flags = active();
    let short = vec![true, true, true];
    assert_eq!(poller.process(&mut flags, &[], &short, &keybinds()), NOTHING);
    assert!(!flags.running);
    let mut far = keybinds();
    far.macro_button = 2;
    far.macro_alt = Some(usize::MAX);
    assert!(poller.process(&mut flags, &[], &short, &far).start_sequence);
}

#[test]
fn nothing_starts_while_the_macro_is_disabled() {
    let mut poller = InputPoller::new();
    let mut flags = State { macro_enabled: false, ..active() };
    assert_eq!(poller.process(&mut flags, &[Key::J], &buttons(&[8]), &keybinds()), NOTHING);
    assert!(!flags.running);
    assert!(poller.last_macro_pressed);
    assert!(poller.last_rapid_click_pressed);
    // Enabling the macro while the trigger is held starts nothing: there is
    // no new press.
    flags.macro_enabled = true;
    assert_eq!(poller.process(&mut flags, &[Key::J], &buttons(&[8]), &keybinds()), NOTHING);
    assert!(!flags.running);
}

#[test]
fn nothing_starts_while_a_sequence_runs() {
    let mut poller = InputPoller::new();
    let mut flags = State { running: true, ..active() };
    assert_eq!(poller.process(&mut flags, &[], &buttons(&[8]), &keybinds()), NOTHING);
    assert!(flags.running);
}

#[test]
fn an_inactive_host_resets_the_poller() {
    let mut poller = InputPoller { last_macro_pressed: true, last_rapid_click_pressed: true };
    let mut flags = State { running: true, macro_enabled: true, warframe_active: false, rapid_clicking: false };
    assert_eq!(poller.process(&mut flags, &[Key::J], &buttons(&[8]), &keybinds()), NOTHING);
    assert_eq!(poller, InputPoller::new());
    assert_eq!(flags, State { running: true, macro_enabled: true, warframe_active: false, rapid_clicking: false });
}

#[test]
fn a_trigger_held_while_the_focus_comes_back_counts_as_a_press() {
    let mut poller = InputPoller::new();
    let mut flags = State { warframe_active: false, ..active() };
    assert_eq!(poller.process(&mut flags, &[], &buttons(&[8]), &keybinds()), NOTHING);
    flags.warframe_active = true;
    assert!(poller.process(&mut flags, &[], &buttons(&[8]), &keybinds()).start_sequence);
}

#[test]
fn a_press_of_the_rapid_click_key_starts_one_burst() {
    let mut poller = InputPoller::new();
    let mut flags = active();
    let out = poller.process(&mut flags, &[Key::A, Key::J], &buttons(&[]), &keybinds());
    assert_eq!(out, PollOutcome { start_rapid_click: true, start_sequence: false, stop_sequence: false });
    assert_eq!(poller.process(&mut flags, &[Key::J], &buttons(&[]), &keybinds()), NOTHING);
    assert_eq!(poller.process(&mut flags, &[], &buttons(&[]), &keybinds()), NOTHING);
    assert!(poller.process(&mut flags, &[Key::J], &buttons(&[]), &keybinds()).start_rapid_click);
    assert!(!flags.running);
    assert!(!flags.rapid_clicking);
}

#[test]
fn no_burst_starts_while_another_is_in_flight() {
    let mut poller = InputPoller::new();
    let mut flags = State { rapid_clicking: true, ..active() };
    assert_eq!(poller.process(&mut flags, &[Key::J], &buttons(&[]), &keybinds()), NOTHING);
    assert!(poller.last_rapid_click_pressed);
    assert!(flags.rapid_clicking);
    // The press was seen while the burst was in flight. It is no new press
    // once the burst is over.
    flags.rapid_clicking = false;
    assert_eq!(poller.process(&mut flags, &[Key::J], &buttons(&[]), &keybinds()), NOTHING);
    assert_eq!(poller.process(&mut flags, &[], &buttons(&[]), &keybinds()), NOTHING);
    assert!(poller.process(&mut flags, &[Key::J], &buttons(&[]), &keybinds()).start_rapid_click);
}

#[test]
fn a_burst_in_flight_does_not_keep_a_sequence_from_starting() {
    let mut poller = InputPoller::new();
    let mut flags = State { rapid_clicking: true, ..active() };
    let out = poller.process(&mut flags, &[Key::J], &buttons(&[8]), &keybinds());
    assert_eq!(out, PollOutcome { start_rapid_click: false, start_sequence: true, stop_sequence: false });
    assert!(flags.running);
}

#[test]
fn both_triggers_in_one_sample() {
    let mut poller = InputPoller::new();
    let mut flags = active();
    let out = poller.process(&mut flags, &[Key::J], &buttons(&[8]), &keybinds());
    assert_eq!(out, PollOutcome { start_rapid_click: true, start_sequence: true, stop_sequence: false });
}

#[test]
fn react_takes_the_two_levels_directly() {
    let mut poller = InputPoller::new();
    let mut flags = active();
    assert!(poller.react(&mut flags, false, true).start_sequence);
    assert!(poller.react(&mut flags, true, true).start_rapid_click);
    assert!(poller.react(&mut flags, true, false).stop_sequence);
    assert_eq!(poller, InputPoller { last_macro_pressed: false, last_rapid_click_pressed: true });
}

#[test]
fn the_poller_samples_faster_while_a_sequence_runs() {
    assert_eq!(InputPoller::interval(true), 500_000);
    assert_eq!(InputPoller::interval(false), 2_000_000);
    assert_eq!(RUNNING_POLL_NANOS, 500_000);
    assert_eq!(IDLE_POLL_NANOS, 2_000_000);
}

#[test]
fn a_poll_against_the_shared_flags_writes_the_run_flag() {
    let shared = contagion_macro::shared::SharedState::new();
    let mut poller = InputPoller::new();
    // The host is not active yet.
    assert_eq!(poller.poll(&shared, &[], &buttons(&[8]), &keybinds()), NOTHING);
    assert!(!shared.running());
    shared.set_warframe_active(true);
    assert!(poller.poll(&shared, &[], &buttons(&[8]), &keybinds()).start_sequence);
    assert!(shared.running());
    assert_eq!(poller.poll(&shared, &[Key::J], &buttons(&[8]), &keybinds()),
        PollOutcome { start_rapid_click: true, start_sequence: false, stop_sequence: false });
    assert!(shared.running());
    assert!(poller.poll(&shared, &[Key::J], &buttons(&[]), &keybinds()).stop_sequence);
    assert!(!shared.running());
    assert_eq!(shared.observe(), State { warframe_active: true, ..State::new() });
}

#[test]
fn a_poll_does_not_start_a_burst_while_the_shared_flag_is_up() {
    let shared = contagion_macro::shared::SharedState::new();
    shared.set_warframe_active(true);
    shared.set_rapid_clicking(true);
    let mut poller = InputPoller::new();
    assert_eq!(poller.poll(&shared, &[Key::J], &buttons(&[]), &keybinds()), NOTHING);
    shared.set_rapid_clicking(false);
    assert_eq!(poller.poll(&shared, &[], &buttons(&[]), &keybinds()), NOTHING);
    assert!(poller.poll(&shared, &[Key::J], &buttons(&[]), &keybinds()).start_rapid_click);
}
