use hotlap::clock::Time;
use hotlap::ledger::Milestone;
use hotlap::text::{format_delta, format_hundreds, format_tens, format_time, milestone_row, Row};

#[test]
fn format_tens_pads_to_two_places() {
    assert_eq!(format_tens(0), "00");
    assert_eq!(format_tens(7), "07");
    assert_eq!(format_tens(9), "09");
    assert_eq!(format_tens(10), "10");
    assert_eq!(format_tens(59), "59");
    assert_eq!(format_tens(123), "123");
}

#[test]
fn format_tens_of_a_negative_number_puts_the_zero_first() {
    assert_eq!(format_tens(-5), "0-5");
    assert_eq!(format_tens(i32::MIN), "0-2147483648");
    assert_eq!(format_tens(i32::MAX), "2147483647");
}

#[test]
fn format_hundreds_pads_to_three_places() {
    assert_eq!(format_hundreds(0), "000");
    assert_eq!(format_hundreds(4), "004");
    assert_eq!(format_hundreds(10), "010");
    assert_eq!(format_hundreds(45), "045");
    assert_eq!(format_hundreds(100), "100");
    assert_eq!(format_hundreds(999), "999");
    assert_eq!(format_hundreds(1000), "1000");
    assert_eq!(format_hundreds(-1), "00-1");
}

#[test]
fn format_time_reads_as_a_clock() {
    assert_eq!(format_time(&Time { h: 0, m: 0, s: 9, ms: 500 }), "00:00:09.500");
    assert_eq!(format_time(&Time { h: 23, m: 59, s: 59, ms: 999 }), "23:59:59.999");
    assert_eq!(format_time(&Time { h: 1, m: 2, s: 3, ms: 4 }), "01:02:03.004");
    assert_eq!(format_time(&Time::zero()), "00:00:00.000");
}

#[test]
fn format_delta_gives_seconds_with_three_decimals() {
    assert_eq!(format_delta(-200), "-0.200");
    assert_eq!(format_delta(-1000), "-1.000");
    assert_eq!(format_delta(0), "0.000");
    assert_eq!(format_delta(5), "0.005");
    assert_eq!(format_delta(12_034), "12.034");
    assert_eq!(format_delta(-59_999), "-59.999");
    assert_eq!(format_delta(i64::MAX), "9223372036854775.807");
    assert_eq!(format_delta(i64::MIN), "-9223372036854775.808");
}

#[test]
fn milestone_row_is_blank_until_passed() {
    let fresh = Milestone {
        name: String::from("Sector 1"),
        reference_time: Time { h: 0, m: 1, s: 2, ms: 30 },
        delta: None,
    };
    assert_eq!(
        milestone_row(&fresh),
        Row {
            name: String::from("Sector 1"),
            delta: String::new(),
            reference_time: String::from("00:01:02.030"),
        }
    );
    let passed = Milestone { delta: Some(-200), ..fresh.clone() };
    assert_eq!(milestone_row(&passed).delta, "-0.200");
    assert_eq!(milestone_row(&passed).name, "Sector 1");
}
