//! Tests of the timestamp wire format and the expiry computation.

use wms_api::model::access_token_expire_date;
use wms_api::model::expiry_from;
use wms_api::model::format_timestamp;
use wms_api::model::parse_timestamp;
use wms_api::model::Timestamp;

fn sample() -> Timestamp {
    Timestamp { year: 2024, month: 3, day: 9, hour: 8, minute: 5, second: 30 }
}

#[test]
fn formats_in_the_wire_format() {
    assert_eq!(format_timestamp(&sample()), "2024-03-09T08:05:30");
    let eve = Timestamp { year: 999, month: 12, day: 31, hour: 23, minute: 59, second: 59 };
    assert_eq!(format_timestamp(&eve), "0999-12-31T23:59:59");
}

#[test]
fn parses_the_wire_format_back() {
    assert_eq!(parse_timestamp("2024-03-09T08:05:30"), Some(sample()));
    assert_eq!(parse_timestamp(&format_timestamp(&sample())), Some(sample()));
}

#[test]
fn rejects_malformed_timestamps() {
    assert_eq!(parse_timestamp(""), None);
    assert_eq!(parse_timestamp("2024-03-09"), None);
    assert_eq!(parse_timestamp("2024-03-09 08:05:30"), None);
    assert_eq!(parse_timestamp("2024-13-09T08:05:30"), None);
    assert_eq!(parse_timestamp("2024-00-09T08:05:30"), None);
    assert_eq!(parse_timestamp("2024-03-32T08:05:30"), None);
    assert_eq!(parse_timestamp("2024-03-09T24:05:30"), None);
    assert_eq!(parse_timestamp("2024-03-09T08:60:30"), None);
    assert_eq!(parse_timestamp("2024-03-09T08:05:60"), None);
    assert_eq!(parse_timestamp("20x4-03-09T08:05:30"), None);
    assert_eq!(parse_timestamp("2024-03-09T08:05:301"), None);
}

#[test]
fn expiry_is_two_weeks_later_at_midnight() {
    let ts = expiry_from(2024, 3, 9).unwrap();
    assert_eq!(ts.year, 2024);
    assert_eq!(ts.month, 3);
    assert_eq!(ts.day, 23);
    assert_eq!((ts.hour, ts.minute, ts.second), (0, 0, 0));
    let rollover = expiry_from(2024, 12, 25).unwrap();
    assert_eq!((rollover.year, rollover.month, rollover.day), (2025, 1, 8));
}

#[test]
fn expiry_rejects_dates_that_are_no_dates() {
    assert_eq!(expiry_from(2024, 2, 30), None);
    assert_eq!(expiry_from(2024, 13, 1), None);
}

#[test]
fn expiry_from_the_clock_is_well_formed() {
    let ts = access_token_expire_date().unwrap();
    assert!(ts.year >= 2024);
    assert!((1..=12).contains(&ts.month));
    assert!((1..=31).contains(&ts.day));
    assert_eq!((ts.hour, ts.minute, ts.second), (0, 0, 0));
}
