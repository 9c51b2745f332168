use contagion_macro::timer::{PrecisionTimer, TimerAction, COARSE_ABOVE_MILLIS, SPIN_TAIL_NANOS};

/// Runs a wait against a clock that moves on by `tick` with every spin and
/// by the whole sleep with every sleep. Returns the time at which the wait
/// was over, the number of sleeps and the number of spins.
fn run(requested: u128, tick: u128) -> (u128, u32, u32) {
    let mut timer = PrecisionTimer::new(requested);
    let (mut elapsed, mut sleeps, mut spins) = (0u128, 0u32, 0u32);
    loop {
        match timer.step(elapsed) {
            TimerAction::Sleep(nanos) => {
                sleeps += 1;
                elapsed += nanos;
            }
            TimerAction::Spin => {
                spins += 1;
                elapsed += tick;
            }
            TimerAction::Done => return (elapsed, sleeps, spins),
        }
    }
}

#[test]
fn a_wait_of_no_length_is_over_at_once() {
    let mut timer = PrecisionTimer::new(0);
    assert_eq!(timer.step(0), TimerAction::Done);
    assert_eq!(timer.step(5), TimerAction::Done);
    assert_eq!(run(0, 1), (0, 0, 0));
}

#[test]
fn a_short_wait_only_spins() {
    let mut timer = PrecisionTimer::new(10_000_000);
    assert_eq!(timer.step(0), TimerAction::Spin);
    assert_eq!(timer.step(9_999_999), TimerAction::Spin);
    assert_eq!(timer.step(10_000_000), TimerAction::Done);
    assert_eq!(run(10_000_000, 1_000), (10_000_000, 0, 10_000));
}

#[test]
fn a_long_wait_sleeps_all_but_the_spin_tail() {
    let mut timer = PrecisionTimer::new(50_000_000);
    assert_eq!(timer.step(0), TimerAction::Sleep(30_000_000));
    assert_eq!(timer.step(30_000_000), TimerAction::Spin);
    assert_eq!(timer.step(49_999_999), TimerAction::Spin);
    assert_eq!(timer.step(50_000_000), TimerAction::Done);
}

#[test]
fn the_sleep_is_handed_out_once() {
    let mut timer = PrecisionTimer::new(2_000_000_000);
    assert_eq!(timer.step(0), TimerAction::Sleep(1_980_000_000));
    assert_eq!(timer.step(0), TimerAction::Spin);
    assert!(!timer.coarse_pending);
    assert_eq!(timer.requested, 2_000_000_000);
}

#[test]
fn an_overslept_wait_is_over_without_spinning() {
    let mut timer = PrecisionTimer::new(100_000_000);
    assert_eq!(timer.step(0), TimerAction::Sleep(80_000_000));
    assert_eq!(timer.step(131_000_000), TimerAction::Done);
}

#[test]
fn the_sleep_starts_above_forty_whole_milliseconds() {
    assert_eq!(COARSE_ABOVE_MILLIS, 40);
    assert_eq!(SPIN_TAIL_NANOS, 20_000_000);
    assert_eq!(PrecisionTimer::new(40_000_000).step(0), TimerAction::Spin);
    assert_eq!(PrecisionTimer::new(40_999_999).step(0), TimerAction::Spin);
    assert_eq!(PrecisionTimer::new(41_000_000).step(0), TimerAction::Sleep(21_000_000));
}

#[test]
fn a_wait_lasts_at_least_as_long_as_requested() {
    for requested in [0u128, 1, 999, 1_000_000, 6_875_000, 40_000_000, 41_000_000, 113_000_000, 2_000_000_000] {
        for tick in [1_000u128, 7_777, 250_000] {
            let (elapsed, sleeps, _) = run(requested, tick);
            assert!(elapsed >= requested);
            assert!(elapsed < requested + tick);
            assert_eq!(sleeps, if requested >= 41_000_000 { 1 } else { 0 });
        }
    }
}
