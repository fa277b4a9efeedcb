use http_checker::timeout::{DEFAULT_TIMEOUT_NANOS, MAX_TIMEOUT_NANOS, MIN_TIMEOUT_NANOS};
use http_checker::{Timeout, TimeoutError};

const SECOND: u64 = 1_000_000_000;

#[test]
fn parses_seconds() {
    assert_eq!(Timeout::parse("30s").unwrap().nanos(), 30 * SECOND);
    assert_eq!(Timeout::parse("2s").unwrap().nanos(), 2 * SECOND);
}

#[test]
fn parses_minutes_and_mixed_units() {
    assert_eq!(Timeout::parse("5min").unwrap().nanos(), 300 * SECOND);
    assert_eq!(Timeout::parse("1min 30s").unwrap().nanos(), 90 * SECOND);
    assert_eq!(Timeout::parse("1500ms").unwrap().nanos(), 1_500_000_000);
}

#[test]
fn accepts_both_ends_of_the_range() {
    assert_eq!(Timeout::parse("1s").unwrap().nanos(), MIN_TIMEOUT_NANOS);
    assert_eq!(Timeout::parse("10min").unwrap().nanos(), MAX_TIMEOUT_NANOS);
    assert_eq!(Timeout::parse("600s").unwrap().nanos(), 600 * SECOND);
    assert_eq!(Timeout::parse("1000ms").unwrap().nanos(), SECOND);
}

#[test]
fn rejects_zero_seconds() {
    assert_eq!(Timeout::parse("0s"), Err(TimeoutError::OutOfRange(0)));
}

#[test]
fn rejects_fifteen_minutes() {
    assert_eq!(Timeout::parse("15min"), Err(TimeoutError::OutOfRange(900 * SECOND)));
}

#[test]
fn rejects_just_outside_the_range() {
    assert_eq!(Timeout::parse("999ms"), Err(TimeoutError::OutOfRange(999_000_000)));
    assert_eq!(Timeout::parse("601s"), Err(TimeoutError::OutOfRange(601 * SECOND)));
    assert_eq!(
        Timeout::parse("10min 1ns"),
        Err(TimeoutError::OutOfRange(600 * SECOND + 1))
    );
    assert_eq!(Timeout::parse("1h"), Err(TimeoutError::OutOfRange(3600 * SECOND)));
}

#[test]
fn rejects_text_that_is_no_duration() {
    assert_eq!(Timeout::parse("soon"), Err(TimeoutError::Unreadable));
    assert_eq!(Timeout::parse("30"), Err(TimeoutError::Unreadable));
    assert_eq!(Timeout::parse("-5s"), Err(TimeoutError::Unreadable));
    assert_eq!(Timeout::parse("30 parsecs"), Err(TimeoutError::Unreadable));
}

#[test]
fn rejects_a_duration_too_long_to_hold() {
    assert_eq!(Timeout::parse("18446744073709551615ms"), Err(TimeoutError::Unreadable));
    assert_eq!(Timeout::parse("99999999999999999999999s"), Err(TimeoutError::Unreadable));
}

#[test]
fn empty_text_reads_as_no_time_at_all() {
    assert_eq!(Timeout::parse(""), Err(TimeoutError::OutOfRange(0)));
}

#[test]
fn from_nanos_checks_the_range() {
    assert_eq!(Timeout::from_nanos(SECOND).unwrap().nanos(), SECOND);
    assert_eq!(Timeout::from_nanos(600 * SECOND).unwrap().nanos(), 600 * SECOND);
    assert_eq!(Timeout::from_nanos(SECOND - 1), Err(TimeoutError::OutOfRange(SECOND - 1)));
    assert_eq!(
        Timeout::from_nanos(600 * SECOND + 1),
        Err(TimeoutError::OutOfRange(600 * SECOND + 1))
    );
    assert_eq!(Timeout::from_nanos(0), Err(TimeoutError::OutOfRange(0)));
    assert_eq!(Timeout::from_nanos(u64::MAX), Err(TimeoutError::OutOfRange(u64::MAX)));
}

#[test]
fn from_parsed_passes_on_what_the_parser_said() {
    assert_eq!(Timeout::from_parsed(None), Err(TimeoutError::Unreadable));
    assert_eq!(Timeout::from_parsed(Some(0)), Err(TimeoutError::OutOfRange(0)));
    assert_eq!(Timeout::from_parsed(Some(45 * SECOND)).unwrap().nanos(), 45 * SECOND);
}

#[test]
fn default_is_thirty_seconds() {
    assert_eq!(Timeout::default().nanos(), 30 * SECOND);
    assert_eq!(Timeout::default().nanos(), DEFAULT_TIMEOUT_NANOS);
    assert_eq!(Timeout::default(), Timeout::parse("30s").unwrap());
}

#[test]
fn refusals_say_what_is_expected() {
    assert_eq!(
        TimeoutError::Unreadable.message(),
        "timeout must be a duration such as 30s or 5min"
    );
    assert_eq!(
        TimeoutError::OutOfRange(0).message(),
        "timeout must lie between 1s and 10min"
    );
    assert_eq!(
        Timeout::parse("15min").unwrap_err().message(),
        "timeout must lie between 1s and 10min"
    );
}
