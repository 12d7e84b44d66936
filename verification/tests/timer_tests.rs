use datimer::timer::Timer;
use datimer::timer::TimerState;

const SECOND: u128 = 1_000_000_000;

#[test]
fn a_new_timer_runs_with_nothing_on_it() {
    let timer = Timer::new(7 * SECOND);
    assert_eq!(timer.state(), TimerState::Running);
    assert_eq!(timer.running_total(), 0);
    assert_eq!(timer.anchor(), 7 * SECOND);
    assert_eq!(timer.elapsed(7 * SECOND), 0);
}

#[test]
fn elapsed_while_running_is_total_plus_time_since_anchor() {
    let mut timer = Timer::new(100);
    assert_eq!(timer.elapsed(350), 250);
    timer.toggle(400);
    timer.toggle(1000);
    assert_eq!(timer.running_total(), 300);
    assert_eq!(timer.anchor(), 1000);
    assert_eq!(timer.elapsed(1000), 300);
    assert_eq!(timer.elapsed(1234), 300 + 234);
}

#[test]
fn elapsed_while_paused_is_the_total_and_does_not_drift() {
    let mut timer = Timer::new(0);
    timer.toggle(5 * SECOND);
    assert_eq!(timer.state(), TimerState::Paused);
    assert_eq!(timer.elapsed(5 * SECOND), 5 * SECOND);
    assert_eq!(timer.elapsed(6 * SECOND), 5 * SECOND);
    assert_eq!(timer.elapsed(1_000_000 * SECOND), 5 * SECOND);
    assert_eq!(timer.elapsed(u128::MAX), 5 * SECOND);
}

#[test]
fn pausing_commits_the_current_interval() {
    let mut timer = Timer::new(2 * SECOND);
    timer.toggle(5 * SECOND);
    assert_eq!(timer.state(), TimerState::Paused);
    assert_eq!(timer.running_total(), 3 * SECOND);
}

#[test]
fn resuming_sets_the_anchor_and_keeps_the_total() {
    let mut timer = Timer::new(0);
    timer.toggle(3 * SECOND);
    timer.toggle(10 * SECOND);
    assert_eq!(timer.state(), TimerState::Running);
    assert_eq!(timer.running_total(), 3 * SECOND);
    assert_eq!(timer.anchor(), 10 * SECOND);
}

#[test]
fn running_total_never_shrinks_and_changes_on_pause_only() {
    let mut timer = Timer::new(0);
    let times: [u128; 8] = [10, 10, 25, 40, 41, 100, 100, 1000];
    let mut last = timer.running_total();
    for now in times {
        let was = timer.state();
        timer.toggle(now);
        let total = timer.running_total();
        assert!(total >= last);
        if was == TimerState::Paused {
            assert_eq!(total, last);
            assert_eq!(timer.state(), TimerState::Running);
        } else {
            assert_eq!(timer.state(), TimerState::Paused);
        }
        last = total;
    }
    // Running over 0..10, 10..25, 40..41 and 100..100.
    assert_eq!(last, 10 + 15 + 1 + 0);
}

#[test]
fn a_clock_that_went_back_adds_nothing() {
    let mut timer = Timer::new(500);
    assert_eq!(timer.elapsed(400), 0);
    timer.toggle(400);
    assert_eq!(timer.running_total(), 0);
    assert_eq!(timer.state(), TimerState::Paused);
}

#[test]
fn fits_tells_whether_the_elapsed_time_can_be_held() {
    let mut timer = Timer::new(0);
    assert!(timer.fits(u128::MAX));
    timer.toggle(10);
    assert!(timer.fits(u128::MAX));
    timer.toggle(0);
    assert_eq!(timer.running_total(), 10);
    assert!(timer.fits(u128::MAX - 10));
    assert!(!timer.fits(u128::MAX - 9));
    assert!(!timer.fits(u128::MAX));
    assert_eq!(timer.elapsed(u128::MAX - 10), u128::MAX);
}
