use chrono::{Datelike, Timelike};
use profit_rat::error::AppError;
use profit_rat::input::{
    claim_time_text, local_instant, parse_bond_id, parse_close_time, parse_id, parse_market_id,
    parse_offer_id, parse_optional_close_time, parse_optional_time, read_close_time,
    read_maturity_time, LocalReading, TimeReading,
};

const SECOND: i128 = 1_000_000_000;

fn utc(instant: i128) -> chrono::DateTime<chrono::Utc> {
    let seconds = instant.div_euclid(SECOND) as i64;
    let nanos = instant.rem_euclid(SECOND) as u32;
    chrono::DateTime::from_timestamp(seconds, nanos).expect("representable")
}

#[test]
fn parses_rfc3339_close_time() {
    let parsed = parse_close_time("2026-06-22T21:00:00-06:00").expect("parse");
    assert_eq!(utc(parsed).year(), 2026);
}

#[test]
fn parses_simple_local_close_time() {
    let parsed = parse_close_time("2026-06-22 21:00").expect("parse");
    assert_eq!(utc(parsed).year(), 2026);
    assert_eq!(utc(parsed).minute(), 0);
}

#[test]
fn parses_date_only_close_time() {
    let parsed = parse_close_time("2026-06-22").expect("parse");
    assert_eq!(utc(parsed).year(), 2026);
}

#[test]
fn rfc3339_close_time_keeps_its_offset() {
    let parsed = parse_close_time("  2026-06-22T21:00:00-06:00 ").unwrap();
    assert_eq!(utc(parsed).to_rfc3339(), "2026-06-23T03:00:00+00:00");
}

#[test]
fn unreadable_times_are_refused() {
    match parse_close_time("next tuesday") {
        Err(AppError::Validation(m)) => assert_eq!(
            m,
            "close_time must look like `2026-06-22 21:00`, `2026-06-22T21:00`, `2026-06-22`, or full RFC3339"
        ),
        other => panic!("unexpected {other:?}"),
    }
    match parse_optional_time(Some("later".to_string())) {
        Err(AppError::Validation(m)) => assert_eq!(
            m,
            "time must look like `2026-06-23 18:00`, `2026-06-23T18:00`, `2026-06-23`, or full RFC3339"
        ),
        other => panic!("unexpected {other:?}"),
    }
    assert_eq!(parse_optional_time(None).unwrap(), None);
    assert_eq!(parse_optional_time(Some("   ".to_string())).unwrap(), None);
    assert_eq!(parse_optional_close_time(None).unwrap(), None);
    assert!(parse_optional_time(Some("2026-06-23".to_string())).unwrap().is_some());
    assert!(parse_close_time("2026/06/22 21:00").is_ok());
}

#[test]
fn local_readings_pick_the_first_reported_instant() {
    assert_eq!(local_instant(LocalReading::Single((10, 5)), "gone").unwrap(), 10 * SECOND + 5);
    assert_eq!(local_instant(LocalReading::Ambiguous((20, 0)), "gone").unwrap(), 20 * SECOND);
    match local_instant(LocalReading::Missing, "gone") {
        Err(AppError::Validation(m)) => assert_eq!(m, "gone"),
        other => panic!("unexpected {other:?}"),
    }
}

#[test]
fn typed_ids_are_trimmed_numbers() {
    assert_eq!(parse_market_id(" 42 ").unwrap(), 42);
    assert_eq!(parse_offer_id("-3").unwrap(), -3);
    assert_eq!(parse_bond_id("+7").unwrap(), 7);
    match parse_market_id("abc") {
        Err(AppError::Validation(m)) => assert_eq!(
            m,
            "pick a market from the autocomplete list or enter a numeric market id"
        ),
        other => panic!("unexpected {other:?}"),
    }
    match parse_id("x1", "loan") {
        Err(AppError::Validation(m)) => {
            assert_eq!(m, "pick a loan from the autocomplete list or enter a numeric id")
        }
        other => panic!("unexpected {other:?}"),
    }
    assert!(parse_bond_id("99999999999999999999").is_err());
}

#[test]
fn claim_time_text_says_when() {
    assert_eq!(claim_time_text(None, 0), "Claim is ready now.");
    assert_eq!(claim_time_text(Some(5 * SECOND), 10 * SECOND), "Claim is ready now.");
    assert_eq!(
        claim_time_text(Some(100 * SECOND + 7), 10 * SECOND),
        "Next claim: <t:100:F> (<t:100:R>)"
    );
}

#[test]
fn wall_clock_times_are_read_before_the_zone_is_consulted() {
    assert!(matches!(read_close_time(" 2026-06-22 21:00 "), Ok(TimeReading::WallClock((1_782_162_000, 0)))));
    assert!(matches!(read_close_time("2026-06-22T21:00"), Ok(TimeReading::WallClock((1_782_162_000, 0)))));
    assert!(matches!(read_close_time("2026/06/22 21:00"), Ok(TimeReading::WallClock((1_782_162_000, 0)))));
    assert!(matches!(read_close_time("2026-06-22"), Ok(TimeReading::WallClock((1_782_172_740, 0)))));
    assert!(matches!(read_maturity_time("2026-06-23 18:00"), Ok(TimeReading::WallClock((1_782_237_600, 0)))));
    assert!(matches!(read_maturity_time("2026-06-23"), Ok(TimeReading::WallClock((1_782_172_800, 0)))));
    match read_close_time("2026-06-22T21:00:00-06:00") {
        Ok(TimeReading::Instant(v)) => assert_eq!(v, 1_782_183_600 * SECOND),
        other => panic!("unexpected {other:?}"),
    }
    assert!(matches!(read_close_time("soon"), Err(AppError::Validation(_))));
    assert!(matches!(read_maturity_time("soon"), Err(AppError::Validation(_))));
}

#[test]
fn local_close_times_stay_within_a_day_of_the_wall_clock() {
    let wall = 1_782_162_000 * SECOND;
    let parsed = parse_close_time("2026-06-22 21:00").expect("parse");
    assert!((wall - parsed).abs() < 86_400 * SECOND);
    assert_eq!((wall - parsed).rem_euclid(SECOND), 0);
    let date_only = parse_close_time("2026-06-22").expect("parse");
    assert!((1_782_172_740 * SECOND - date_only).abs() < 86_400 * SECOND);
}

#[test]
fn leap_seconds_stay_inside_their_minute() {
    let leap = parse_close_time("2016-12-31T23:59:60Z").expect("parse");
    let before = parse_close_time("2016-12-31T23:59:59.5Z").expect("parse");
    let after = parse_close_time("2017-01-01T00:00:00Z").expect("parse");
    assert_eq!(leap, 1_483_228_799 * SECOND + 999_999_999);
    assert!(before < leap && leap < after);
}
