use contagion_macro::config::SharedConfig;
use contagion_macro::keys::Button;
use contagion_macro::plan::Action;
use contagion_macro::rapid_click::{BurstPhase, BurstPlan, RapidClickTask};

const MS: u128 = 1_000_000;

/// Drives a burst as its caller does, with the global switch on for the
/// first `on` steps and off from then on.
fn drive(task: &mut RapidClickTask, config: &SharedConfig, on: usize) -> Vec<Action> {
    let mut actions = Vec::new();
    while actions.len() < 10_000 {
        let action = task.step(actions.len() < on);
        if action == Action::Snapshot {
            task.load(config);
        }
        actions.push(action);
        if action == Action::Finished {
            break;
        }
    }
    actions
}

fn burst(clicks: usize, fire: Button, delay: u128) -> Vec<Action> {
    let mut expected = vec![Action::RapidClicking(true), Action::Snapshot];
    for _ in 0..clicks {
        expected.extend([Action::ButtonDown(fire), Action::ButtonUp(fire), Action::Wait(delay)]);
    }
    expected.extend([Action::RapidClicking(false), Action::Finished]);
    expected
}

#[test]
fn a_burst_of_ten_makes_ten_clicks() {
    let mut task = RapidClickTask::new(true);
    let actions = drive(&mut task, &SharedConfig::default(), usize::MAX);
    assert_eq!(actions, burst(10, Button::Left, 50 * MS));
    assert_eq!(actions.iter().filter(|a| matches!(a, Action::ButtonDown(_))).count(), 10);
    assert_eq!(actions.iter().filter(|a| matches!(a, Action::ButtonUp(_))).count(), 10);
    assert!(task.is_done());
    assert_eq!(task.remaining, 0);
}

#[test]
fn every_click_is_followed_by_the_click_delay() {
    let mut task = RapidClickTask::new(true);
    let actions = drive(&mut task, &SharedConfig::default(), usize::MAX);
    for (i, action) in actions.iter().enumerate() {
        if matches!(action, Action::ButtonDown(_)) {
            assert_eq!(actions[i + 1], Action::ButtonUp(Button::Left));
            assert_eq!(actions[i + 2], Action::Wait(50 * MS));
        }
    }
}

#[test]
fn a_burst_follows_the_config() {
    let mut config = SharedConfig::default();
    config.rapid_click_count = 3;
    config.rapid_click_delay_ms = 7;
    config.fire_button = 2;
    // The frame rate plays no part in a burst.
    config.fps.milli_fps = 0;
    let mut task = RapidClickTask::new(true);
    assert_eq!(drive(&mut task, &config, usize::MAX), burst(3, Button::Right, 7 * MS));
    assert_eq!(task.plan, BurstPlan { fire: Button::Right, delay: 7 * MS, count: 3 });
}

#[test]
fn a_burst_of_none_only_raises_and_lowers_the_flag() {
    let mut config = SharedConfig::default();
    config.rapid_click_count = 0;
    let mut task = RapidClickTask::new(true);
    assert_eq!(drive(&mut task, &config, usize::MAX), burst(0, Button::Left, 50 * MS));
}

#[test]
fn the_switch_cuts_a_burst_short() {
    let config = SharedConfig::default();
    // The switch is read before each click: at steps 2, 5, 8, ...
    for (on, clicks) in [(0, 0), (2, 0), (3, 1), (5, 1), (6, 2), (17, 5), (29, 9), (30, 10), (31, 10), (32, 10)] {
        let mut task = RapidClickTask::new(true);
        let actions = drive(&mut task, &config, on);
        assert_eq!(actions, burst(clicks, Button::Left, 50 * MS), "switch on for {on} steps");
    }
}

#[test]
fn a_click_that_has_begun_is_finished() {
    let mut task = RapidClickTask::new(true);
    task.step(true);
    task.step(true);
    task.load(&SharedConfig::default());
    assert_eq!(task.step(true), Action::ButtonDown(Button::Left));
    assert_eq!(task.step(false), Action::ButtonUp(Button::Left));
    assert_eq!(task.step(false), Action::Wait(50 * MS));
    assert_eq!(task.remaining, 9);
    assert_eq!(task.step(false), Action::RapidClicking(false));
    assert_eq!(task.step(true), Action::Finished);
}

#[test]
fn a_burst_never_exceeds_its_count() {
    for count in [0usize, 1, 2, 10, 50] {
        let mut config = SharedConfig::default();
        config.rapid_click_count = count;
        for on in 0..(3 * count + 6) {
            let mut task = RapidClickTask::new(true);
            let actions = drive(&mut task, &config, on);
            let clicks = actions.iter().filter(|a| matches!(a, Action::ButtonDown(_))).count();
            assert!(clicks <= count);
            assert_eq!(actions[0], Action::RapidClicking(true));
            assert_eq!(actions[actions.len() - 2], Action::RapidClicking(false));
        }
    }
}

#[test]
fn a_burst_without_an_injector_lowers_the_flag_again() {
    let mut task = RapidClickTask::new(false);
    assert_eq!(task.phase, BurstPhase::Begin);
    assert_eq!(
        drive(&mut task, &SharedConfig::default(), usize::MAX),
        vec![Action::RapidClicking(true), Action::RapidClicking(false), Action::Finished]
    );
}

#[test]
fn a_burst_asks_again_until_it_is_handed_a_snapshot() {
    let mut task = RapidClickTask::new(true);
    // The copy is not asked for yet: it is ignored.
    task.load(&SharedConfig::default());
    assert_eq!(task, RapidClickTask::new(true));
    assert_eq!(task.step(true), Action::RapidClicking(true));
    assert_eq!(task.step(true), Action::Snapshot);
    assert_eq!(task.step(false), Action::Snapshot);
    task.load(&SharedConfig::default());
    assert_eq!(task.phase, BurstPhase::Press);
    assert_eq!(task.remaining, 10);
    let loaded = task;
    task.load(&SharedConfig::default());
    assert_eq!(task, loaded);
}
