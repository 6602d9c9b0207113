use std::time::Duration;
use relative_time::english_relative_time;
use relative_time::digits::u64_to_decimal;
use relative_time::phrase::magnitude_phrase;
use relative_time::phrase::signed_relative_time;
use relative_time::{NegativeRelativeTime, RelativeTime};

#[test]
fn test_std_duration() {
    let d = Duration::new(10, 0);
    assert_eq!(d.to_relative(), "in a few seconds");

    let d = Duration::new(45, 0);
    assert_eq!(d.to_relative(), "in a minute");

    let d = Duration::new(10 * 60, 0);
    assert_eq!(d.to_relative(), "in 10 minutes");

    let d = Duration::new(50 * 60, 0);
    assert_eq!(d.to_relative(), "in an hour");

    let d = Duration::new(3 * 60 * 60, 0);
    assert_eq!(d.to_relative(), "in 3 hours");

    let d = Duration::new(23 * 60 * 60, 0);
    assert_eq!(d.to_relative(), "in a day");

    let d = Duration::new(12 * 24 * 60 * 60, 0);
    assert_eq!(d.to_relative(), "in 12 days");

    let d = Duration::new(27 * 24 * 60 * 60, 0);
    assert_eq!(d.to_relative(), "in a month");

    let d = Duration::new(31 * 24 * 60 * 60, 0);
    assert_eq!(d.to_relative(), "in a month");

    let d = Duration::new(2 * 30 * 24 * 60 * 60, 0);
    assert_eq!(d.to_relative(), "in 2 months");

    let d = Duration::new(11 * 30 * 24 * 60 * 60, 0);
    assert_eq!(d.to_relative(), "in a year");

    let d = Duration::new(18 * 30 * 24 * 60 * 60, 0);
    assert_eq!(d.to_relative(), "in 2 years");

    let d = Duration::new(5 * 12 * 30 * 24 * 60 * 60, 0);
    assert_eq!(d.to_relative(), "in 5 years");

    let d = Duration::new(80, 0);
    assert_eq!(d.to_relative_in_past(), "a minute ago");
}

#[test]
fn test_chrono_duration() {
    let d = chrono::Duration::seconds(10);
    assert_eq!(d.to_relative(), "in a few seconds");

    let d = chrono::Duration::minutes(-10);
    assert_eq!(d.to_relative(), "10 minutes ago");
}

#[test]
fn boundaries_of_every_bucket() {
    assert_eq!(english_relative_time(10), "a few seconds");
    assert_eq!(english_relative_time(44), "a few seconds");
    assert_eq!(english_relative_time(45), "a minute");
    assert_eq!(english_relative_time(89), "a minute");
    assert_eq!(english_relative_time(90), "1 minutes");
    assert_eq!(english_relative_time(600), "10 minutes");
    assert_eq!(english_relative_time(2699), "44 minutes");
    assert_eq!(english_relative_time(2700), "an hour");
    assert_eq!(english_relative_time(3000), "an hour");
    assert_eq!(english_relative_time(5399), "an hour");
    assert_eq!(english_relative_time(5400), "1 hours");
    assert_eq!(english_relative_time(10800), "3 hours");
    assert_eq!(english_relative_time(79199), "21 hours");
    assert_eq!(english_relative_time(79200), "a day");
    assert_eq!(english_relative_time(82800), "a day");
    assert_eq!(english_relative_time(129599), "a day");
    assert_eq!(english_relative_time(129600), "1 days");
    assert_eq!(english_relative_time(1036800), "12 days");
    assert_eq!(english_relative_time(2246399), "25 days");
    assert_eq!(english_relative_time(2246400), "a month");
    assert_eq!(english_relative_time(2332800), "a month");
    assert_eq!(english_relative_time(2678400), "a month");
    assert_eq!(english_relative_time(3974399), "a month");
    assert_eq!(english_relative_time(3974400), "1 months");
    assert_eq!(english_relative_time(5184000), "2 months");
    assert_eq!(english_relative_time(28511999), "10 months");
    assert_eq!(english_relative_time(28512000), "a year");
    assert_eq!(english_relative_time(46655999), "a year");
    assert_eq!(english_relative_time(46656000), "2 years");
    assert_eq!(english_relative_time(155520000), "5 years");
}

#[test]
fn negative_magnitude_is_a_few_seconds() {
    assert_eq!(english_relative_time(-5), "a few seconds");
    assert_eq!(english_relative_time(-600), "a few seconds");
    assert_eq!(english_relative_time(i64::MIN), "a few seconds");
}

#[test]
fn years_are_rounded_to_nearest_ties_up() {
    // 18 months round up to 2 years, 29 months down to 2, 30 months up to 3.
    assert_eq!(english_relative_time(18 * 30 * 86400), "2 years");
    assert_eq!(english_relative_time(29 * 30 * 86400), "2 years");
    assert_eq!(english_relative_time(30 * 30 * 86400), "3 years");
    assert_eq!(english_relative_time(i64::MAX), "296533308798 years");
}

#[test]
fn huge_unsigned_magnitudes_keep_their_size() {
    assert_eq!(magnitude_phrase(u64::MAX), "593066617596 years");
    let d = Duration::new(u64::MAX, 0);
    assert_eq!(d.to_relative(), "in 593066617596 years");
}

#[test]
fn zero_is_in_a_few_seconds() {
    let d = Duration::new(0, 0);
    assert_eq!(d.to_relative(), "in a few seconds");
    let d = chrono::Duration::seconds(0);
    assert_eq!(d.to_relative(), "in a few seconds");
    assert_eq!(signed_relative_time(0), "in a few seconds");
}

#[test]
fn formatting_is_idempotent() {
    assert_eq!(english_relative_time(600), english_relative_time(600));
    let d = Duration::new(600, 0);
    assert_eq!(d.to_relative(), d.to_relative());
    let d = chrono::Duration::minutes(-10);
    assert_eq!(d.to_relative(), d.to_relative());
}

#[test]
fn signed_direction_by_sign() {
    assert_eq!(signed_relative_time(-10), "a few seconds ago");
    assert_eq!(signed_relative_time(10), "in a few seconds");
    assert_eq!(signed_relative_time(-600), "10 minutes ago");
    assert_eq!(signed_relative_time(600), "in 10 minutes");
    assert_eq!(signed_relative_time(i64::MIN), "296533308798 years ago");
    let d = chrono::Duration::seconds(-10);
    assert_eq!(d.to_relative(), "a few seconds ago");
}

#[test]
fn past_tense_forced_on_unsigned_values() {
    let d = Duration::new(600, 0);
    assert_eq!(d.to_relative_in_past(), "10 minutes ago");
    let d = Duration::new(0, 0);
    assert_eq!(d.to_relative_in_past(), "a few seconds ago");
}

#[test]
fn decimal_rendering() {
    assert_eq!(u64_to_decimal(0), "0");
    assert_eq!(u64_to_decimal(7), "7");
    assert_eq!(u64_to_decimal(10), "10");
    assert_eq!(u64_to_decimal(90210), "90210");
    assert_eq!(u64_to_decimal(u64::MAX), "18446744073709551615");
}
