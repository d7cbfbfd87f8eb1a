use spotifly::position::{PositionTracker, MAX_EXTRAPOLATION_MS};

#[test]
fn nothing_observed_reads_zero() {
    let tracker = PositionTracker::new();
    assert_eq!(tracker.read(0), 0);
    assert_eq!(tracker.read(1_000_000), 0);
    assert!(!tracker.is_playing());
}

#[test]
fn playing_position_runs_with_the_clock() {
    let mut tracker = PositionTracker::new();
    tracker.record(1000, true, 50_000);
    assert_eq!(tracker.read(50_000), 1000);
    assert_eq!(tracker.read(52_000), 3000);
    assert!(tracker.is_playing());
}

#[test]
fn extrapolation_is_capped_at_five_seconds() {
    let mut tracker = PositionTracker::new();
    tracker.record(1000, true, 50_000);
    assert_eq!(tracker.read(60_000), 6000);
    assert_eq!(tracker.read(54_999), 5999);
    assert_eq!(tracker.read(55_000), 6000);
    assert_eq!(tracker.read(55_001), 6000);
    assert_eq!(tracker.read(u64::MAX), 6000);
    assert_eq!(MAX_EXTRAPOLATION_MS, 5000);
}

#[test]
fn halted_position_stands_still() {
    let mut tracker = PositionTracker::new();
    tracker.record(42_000, false, 1_000);
    assert_eq!(tracker.read(1_000), 42_000);
    assert_eq!(tracker.read(9_000), 42_000);
    assert!(!tracker.is_playing());
}

#[test]
fn clock_reading_before_the_observation_counts_as_no_time() {
    let mut tracker = PositionTracker::new();
    tracker.record(1000, true, 50_000);
    assert_eq!(tracker.read(49_000), 1000);
}

#[test]
fn estimate_saturates_at_the_top_of_the_range() {
    let mut tracker = PositionTracker::new();
    tracker.record(u32::MAX - 10, true, 0);
    assert_eq!(tracker.read(5), u32::MAX - 5);
    assert_eq!(tracker.read(10), u32::MAX);
    assert_eq!(tracker.read(4000), u32::MAX);
}

#[test]
fn reset_is_a_record_of_zero_not_playing() {
    let mut tracker = PositionTracker::new();
    tracker.record(7000, true, 100);
    tracker.reset(200);
    assert_eq!(tracker.read(200), 0);
    assert_eq!(tracker.read(9_000), 0);
    assert!(!tracker.is_playing());
}

#[test]
fn set_playing_keeps_the_observation() {
    let mut tracker = PositionTracker::new();
    tracker.set_playing(true);
    assert!(tracker.is_playing());
    assert_eq!(tracker.read(3000), 0);
    tracker.record(1000, false, 10_000);
    tracker.set_playing(true);
    assert_eq!(tracker.read(12_000), 3000);
    tracker.set_playing(false);
    assert_eq!(tracker.read(12_000), 1000);
}

#[test]
fn later_record_replaces_the_earlier() {
    let mut tracker = PositionTracker::new();
    tracker.record(1000, true, 0);
    tracker.record(9000, true, 4000);
    assert_eq!(tracker.read(4500), 9500);
}
