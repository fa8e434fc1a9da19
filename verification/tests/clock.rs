use hotlap::clock::{decompose, elapsed, parse_millis, Time};
use std::time::Duration;

#[test]
fn decompose_splits_fields() {
    assert_eq!(decompose(3_723_004), Time { h: 1, m: 2, s: 3, ms: 4 });
    assert_eq!(decompose(0), Time { h: 0, m: 0, s: 0, ms: 0 });
    assert_eq!(decompose(999), Time { h: 0, m: 0, s: 0, ms: 999 });
    assert_eq!(decompose(1_000), Time { h: 0, m: 0, s: 1, ms: 0 });
    assert_eq!(decompose(59_999), Time { h: 0, m: 0, s: 59, ms: 999 });
    assert_eq!(decompose(60_000), Time { h: 0, m: 1, s: 0, ms: 0 });
    assert_eq!(decompose(3_599_999), Time { h: 0, m: 59, s: 59, ms: 999 });
}

#[test]
fn decompose_wraps_hours_after_a_day() {
    assert_eq!(decompose(86_399_999), Time { h: 23, m: 59, s: 59, ms: 999 });
    assert_eq!(decompose(86_400_000), Time { h: 0, m: 0, s: 0, ms: 0 });
    assert_eq!(decompose(25 * 3_600_000 + 61_001), Time { h: 1, m: 1, s: 1, ms: 1 });
}

#[test]
fn decompose_keeps_fields_in_range() {
    let samples: [u128; 8] = [
        0,
        1,
        12_345,
        86_399_999,
        86_400_000,
        987_654_321_012,
        u64::MAX as u128,
        u128::MAX,
    ];
    for t in samples {
        let r = decompose(t);
        assert!(0 <= r.m && r.m < 60);
        assert!(0 <= r.s && r.s < 60);
        assert!(0 <= r.ms && r.ms < 1000);
        assert_eq!(r.h as u128, (t / 3_600_000) % 24);
        assert_eq!(r.to_millis() as u128, t % 86_400_000);
    }
}

#[test]
fn parse_millis_reads_whole_milliseconds() {
    assert_eq!(parse_millis(Duration::from_millis(3_723_004)), (1, 2, 3, 4));
    assert_eq!(parse_millis(Duration::from_micros(1_999)), (0, 0, 0, 1));
    assert_eq!(parse_millis(Duration::from_secs(90_061)), (1, 1, 1, 0));
    assert_eq!(parse_millis(Duration::from_millis(0)), (0, 0, 0, 0));
}

#[test]
fn elapsed_is_the_difference_of_two_readings() {
    assert_eq!(elapsed(1_000, 10_500), Time { h: 0, m: 0, s: 9, ms: 500 });
    assert_eq!(elapsed(7, 7), Time { h: 0, m: 0, s: 0, ms: 0 });
    assert_eq!(elapsed(0, u64::MAX), decompose(u64::MAX as u128));
}

#[test]
fn elapsed_clamps_a_clock_that_ran_backwards() {
    assert_eq!(elapsed(500, 100), Time { h: 0, m: 0, s: 0, ms: 0 });
    assert_eq!(elapsed(u64::MAX, 0), Time::zero());
}

#[test]
fn to_millis_adds_the_fields_up() {
    assert_eq!(Time { h: 1, m: 2, s: 3, ms: 4 }.to_millis(), 3_723_004);
    assert_eq!(Time { h: 0, m: 75, s: 0, ms: 0 }.to_millis(), 4_500_000);
    assert_eq!(Time { h: 0, m: 0, s: -1, ms: 0 }.to_millis(), -1_000);
    let extreme = Time { h: i32::MAX, m: i32::MAX, s: i32::MAX, ms: i32::MAX };
    assert_eq!(extreme.to_millis(), (i32::MAX as i64) * 3_661_001);
    let lowest = Time { h: i32::MIN, m: i32::MIN, s: i32::MIN, ms: i32::MIN };
    assert_eq!(lowest.to_millis(), (i32::MIN as i64) * 3_661_001);
}
