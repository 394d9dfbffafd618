use chrono::{DateTime, Duration, SecondsFormat, TimeZone, Utc};
use lambda_api::err::{ApiError, ApiErrorPayload};
use lambda_api::failure::{JsonFailure, JsonCause};
use lambda_api::timestamp::is_timestamp;

fn assert_stamped_between(timestamp: &str, before: DateTime<Utc>, after: DateTime<Utc>) {
    assert!(is_timestamp(timestamp), "{}", timestamp);
    assert_eq!(timestamp.len(), 24);
    assert!(timestamp.ends_with('Z'));
    let parsed = DateTime::parse_from_rfc3339(timestamp).unwrap();
    assert_eq!(parsed.offset().local_minus_utc(), 0);
    let instant = parsed.with_timezone(&Utc);
    // The timestamp drops what is below a millisecond.
    assert!(instant > before - Duration::milliseconds(1));
    assert!(instant <= after);
    assert_eq!(instant.to_rfc3339_opts(SecondsFormat::Millis, true), timestamp);
}

#[test]
fn payload_timestamp_is_the_time_of_mapping() {
    let before = Utc::now();
    let (_, payload) = ApiError::Internal.into_response();
    let after = Utc::now();
    assert_stamped_between(&payload.timestamp, before, after);
}

#[test]
fn rejection_payload_timestamp_is_the_time_of_mapping() {
    let rejection = JsonFailure::new(JsonCause::JsonSyntaxError);
    let before = Utc::now();
    let (_, payload) = ApiError::JsonDeserialization(rejection).into_response();
    let direct = ApiErrorPayload::from_json_failure(rejection);
    let after = Utc::now();
    assert_stamped_between(&payload.timestamp, before, after);
    assert_stamped_between(&direct.timestamp, before, after);
}

#[test]
fn timestamps_do_not_run_backwards() {
    let (_, first) = ApiError::NotFound.into_response();
    let (_, second) = ApiError::NotFound.into_response();
    let first = DateTime::parse_from_rfc3339(&first.timestamp).unwrap();
    let second = DateTime::parse_from_rfc3339(&second.timestamp).unwrap();
    assert!(first <= second);
}

#[test]
fn well_formed_timestamps_are_accepted() {
    assert!(is_timestamp("2018-01-26T18:30:09.453Z"));
    assert!(is_timestamp("1970-01-01T00:00:00.000Z"));
    assert!(is_timestamp("9999-12-31T23:59:59.999Z"));
    assert!(is_timestamp("+10000-01-01T00:00:00.000Z"));
    assert!(is_timestamp("+262142-12-31T23:59:59.999Z"));
}

#[test]
fn malformed_timestamps_are_refused() {
    assert!(!is_timestamp(""));
    assert!(!is_timestamp("2018-01-26T18:30:09Z"));
    assert!(!is_timestamp("2018-01-26T18:30:09.453"));
    assert!(!is_timestamp("2018-01-26T18:30:09.453+00:00"));
    assert!(!is_timestamp("2018-01-26 18:30:09.453Z"));
    assert!(!is_timestamp("2018-01-26T18:30:09.45Z"));
    assert!(!is_timestamp("2018-01-26T18:30:09.4537Z"));
    assert!(!is_timestamp("2018-13-26T18:30:09.453Z"));
    assert!(!is_timestamp("2018-00-26T18:30:09.453Z"));
    assert!(!is_timestamp("2018-01-32T18:30:09.453Z"));
    assert!(!is_timestamp("2018-01-00T18:30:09.453Z"));
    assert!(!is_timestamp("2018-01-26T24:30:09.453Z"));
    assert!(!is_timestamp("2018-01-26T18:60:09.453Z"));
    assert!(!is_timestamp("2018-01-26T18:30:60.453Z"));
    assert!(!is_timestamp("2O18-01-26T18:30:09.453Z"));
    assert!(!is_timestamp("02018-01-26T18:30:09.453Z"));
    assert!(!is_timestamp("+2018-01-26T18:30:09.453Z"));
    assert!(!is_timestamp("-10000-01-26T18:30:09.453Z"));
    assert!(!is_timestamp("2018-01-26T18:30:09.453z"));
    assert!(!is_timestamp("２０１８-01-26T18:30:09.453Z"));
}

#[test]
fn the_formatter_writes_what_is_accepted() {
    let instants = vec![
        Utc.with_ymd_and_hms(1970, 1, 1, 0, 0, 0).unwrap(),
        Utc.with_ymd_and_hms(2024, 2, 29, 12, 34, 56).unwrap() + Duration::milliseconds(7),
        Utc.with_ymd_and_hms(9999, 12, 31, 23, 59, 59).unwrap() + Duration::milliseconds(999),
        Utc.with_ymd_and_hms(10000, 1, 1, 0, 0, 0).unwrap(),
        Utc.with_ymd_and_hms(262142, 12, 31, 23, 59, 59).unwrap(),
    ];
    let expected = vec![
        "1970-01-01T00:00:00.000Z",
        "2024-02-29T12:34:56.007Z",
        "9999-12-31T23:59:59.999Z",
        "+10000-01-01T00:00:00.000Z",
        "+262142-12-31T23:59:59.000Z",
    ];
    for (instant, expected) in instants.iter().zip(expected) {
        let written = instant.to_rfc3339_opts(SecondsFormat::Millis, true);
        assert_eq!(written, expected);
        assert!(is_timestamp(&written));
    }
}
