use nexus_actor::clock::{saturate, Clock, CLOCK_MAX};
use nexus_actor::restart_statistics::RestartStatistics;

const SECOND: u64 = 1_000_000_000;

#[test]
fn new_statistics_are_empty() {
    let stats = RestartStatistics::new();
    assert_eq!(stats.failure_count(), 0);
    assert_eq!(stats.number_of_failures_at(5, 0), 0);
    assert_eq!(stats.number_of_failures_at(5, 10), 0);
    assert_eq!(RestartStatistics::default().failure_count(), 0);
}

#[test]
fn failures_are_appended_in_order() {
    let mut stats = RestartStatistics::new();
    stats.fail_at(3);
    stats.fail_at(1);
    stats.fail_at(7);
    assert_eq!(stats.failure_times(), &vec![3, 1, 7]);
    assert_eq!(stats.failure_count(), 3);
}

#[test]
fn window_counts_only_failures_inside_it() {
    let mut stats = RestartStatistics::new();
    stats.fail_at(1 * SECOND);
    stats.fail_at(5 * SECOND);
    stats.fail_at(9 * SECOND);
    stats.fail_at(10 * SECOND);
    // The window of two seconds that ends at ten seconds holds 9 s and 10 s.
    assert_eq!(stats.number_of_failures_at(10 * SECOND, 2 * SECOND), 2);
    // A failure exactly as old as the window is long is inside.
    assert_eq!(stats.number_of_failures_at(10 * SECOND, 1 * SECOND), 2);
    assert_eq!(stats.number_of_failures_at(10 * SECOND, 1 * SECOND - 1), 1);
    assert_eq!(stats.number_of_failures_at(10 * SECOND, 5 * SECOND), 3);
    assert_eq!(stats.number_of_failures_at(10 * SECOND, 9 * SECOND), 4);
    assert_eq!(stats.number_of_failures_at(10 * SECOND, 9 * SECOND - 1), 3);
    assert_eq!(stats.number_of_failures_at(10 * SECOND, 5 * SECOND + 1), 3);
    assert_eq!(stats.number_of_failures_at(10 * SECOND, 100 * SECOND), 4);
    // A failure later than the end of the window is outside.
    assert_eq!(stats.number_of_failures_at(5 * SECOND, 100 * SECOND), 2);
}

#[test]
fn window_of_length_zero_counts_every_failure() {
    let mut stats = RestartStatistics::new();
    stats.fail_at(1);
    stats.fail_at(1_000);
    stats.fail_at(1_000_000);
    assert_eq!(stats.number_of_failures_at(0, 0), 3);
    assert_eq!(stats.number_of_failures_at(u64::MAX, 0), 3);
    assert_eq!(stats.number_of_failures(0), 3);
}

#[test]
fn reset_forgets_every_failure() {
    let mut stats = RestartStatistics::new();
    stats.fail_at(1);
    stats.fail_at(2);
    stats.reset();
    assert_eq!(stats.failure_count(), 0);
    assert_eq!(stats.number_of_failures_at(2, 0), 0);
    stats.fail_at(3);
    assert_eq!(stats.failure_times(), &vec![3]);
}

#[test]
fn fail_reads_the_clock() {
    let mut stats = RestartStatistics::new();
    let first = stats.fail();
    let second = stats.fail();
    assert_eq!(stats.failure_count(), 2);
    assert_eq!(stats.failure_times(), &vec![first, second]);
    assert!(first <= second);
    assert!(stats.now() >= second);
    // Both failures are recent: a window of one hour holds them.
    assert_eq!(stats.number_of_failures(3600 * SECOND), 2);
}

#[test]
fn a_copy_keeps_the_recorded_times() {
    let mut stats = RestartStatistics::with_clock(Clock::start());
    stats.fail_at(4);
    stats.fail_at(8);
    let copy = stats.clone();
    stats.fail_at(9);
    assert_eq!(copy.failure_times(), &vec![4, 8]);
    assert_eq!(stats.failure_times(), &vec![4, 8, 9]);
}

#[test]
fn clock_readings_are_cut_off_at_the_largest_value() {
    assert_eq!(saturate(0), 0);
    assert_eq!(saturate(12_345), 12_345);
    assert_eq!(saturate(u64::MAX as u128), CLOCK_MAX);
    assert_eq!(saturate(u64::MAX as u128 + 1), CLOCK_MAX);
    assert_eq!(saturate(u128::MAX), CLOCK_MAX);
    let clock = Clock::start();
    let a = clock.now();
    let b = clock.now();
    assert!(a <= b);
}

#[test]
fn a_record_reads_the_clock_it_was_given() {
    let clock = Clock::start();
    let mut waited = clock.now();
    while waited < 2_000_000 {
        waited = clock.now();
    }
    let mut stats = RestartStatistics::with_clock(clock);
    assert_eq!(stats.failure_count(), 0);
    assert!(stats.now() >= waited);
    let at = stats.fail();
    assert!(at >= waited);
    assert_eq!(stats.failure_times(), &vec![at]);
    // A copy and a reset stay on the same clock.
    let copy = stats.clone();
    stats.reset();
    assert!(copy.now() >= waited);
    assert!(stats.now() >= waited);
}

#[test]
fn one_failure_on_the_edge_of_the_window_counts() {
    let mut stats = RestartStatistics::new();
    stats.fail_at(5 * SECOND);
    assert_eq!(stats.number_of_failures_at(15 * SECOND, 10 * SECOND), 1);
    assert_eq!(stats.number_of_failures_at(15 * SECOND + 1, 10 * SECOND), 0);
    assert_eq!(stats.number_of_failures_at(5 * SECOND, 1), 1);
    assert_eq!(stats.number_of_failures_at(5 * SECOND - 1, 10 * SECOND), 0);
}
