use chrono::TimeZone;
use halving_api::calendar::{
    civil_of_timestamp, format_civil, format_utc, parse_utc, CivilTime, MAX_FORMATTABLE_TS,
    MIN_FORMATTABLE_TS,
};

#[test]
fn epoch_renders_as_expected() {
    assert_eq!(format_utc(0), "1970-01-01 00:00:00 UTC");
}

#[test]
fn known_moment_renders_as_expected() {
    assert_eq!(format_utc(1700000000), "2023-11-14 22:13:20 UTC");
}

#[test]
fn rendering_agrees_with_chrono() {
    let samples: [i64; 12] = [
        0,
        -1,
        1,
        951782400,   // a leap day
        951868799,
        1709164800,
        1700000000,
        -2203891200, // before the epoch
        4102444800,
        253402300799,
        -62135596800, // 0001-01-01
        86400,
    ];
    for &ts in samples.iter() {
        let expected = chrono::Utc.timestamp_opt(ts, 0).unwrap().to_string();
        assert_eq!(format_utc(ts), expected, "timestamp {}", ts);
    }
}

#[test]
fn rendering_round_trips_through_parsing() {
    let mut samples: Vec<i64> = vec![
        MIN_FORMATTABLE_TS,
        MAX_FORMATTABLE_TS,
        0,
        -1,
        1,
        1700000000,
        951782400,
        -62135596800,
    ];
    // a spread of moments across the covered range
    let mut ts: i64 = MIN_FORMATTABLE_TS;
    while ts < MAX_FORMATTABLE_TS {
        samples.push(ts);
        ts += 7146229801; // a large odd step, to vary all fields
    }
    for &ts in samples.iter() {
        let rendered = format_utc(ts);
        assert_eq!(parse_utc(&rendered), Some(ts), "round trip of {}", ts);
    }
}

#[test]
fn civil_fields_of_known_moments() {
    let c = civil_of_timestamp(0);
    assert_eq!(
        c,
        CivilTime { year: 1970, month: 1, day: 1, hour: 0, minute: 0, second: 0 }
    );
    let d = civil_of_timestamp(951782400);
    assert_eq!(
        d,
        CivilTime { year: 2000, month: 2, day: 29, hour: 0, minute: 0, second: 0 }
    );
    let e = civil_of_timestamp(MAX_FORMATTABLE_TS);
    assert_eq!(
        e,
        CivilTime { year: 9999, month: 12, day: 31, hour: 23, minute: 59, second: 59 }
    );
    let f = civil_of_timestamp(MIN_FORMATTABLE_TS);
    assert_eq!(
        f,
        CivilTime { year: 0, month: 1, day: 1, hour: 0, minute: 0, second: 0 }
    );
}

#[test]
fn formatting_civil_fields_directly() {
    let c = CivilTime { year: 7, month: 3, day: 9, hour: 4, minute: 5, second: 6 };
    assert_eq!(format_civil(c), "0007-03-09 04:05:06 UTC");
}

#[test]
fn parsing_accepts_the_range_bounds() {
    assert_eq!(parse_utc("0000-01-01 00:00:00 UTC"), Some(MIN_FORMATTABLE_TS));
    assert_eq!(parse_utc("9999-12-31 23:59:59 UTC"), Some(MAX_FORMATTABLE_TS));
    assert_eq!(parse_utc("1970-01-01 00:00:00 UTC"), Some(0));
}

#[test]
fn parsing_rejects_malformed_strings() {
    assert_eq!(parse_utc(""), None);
    assert_eq!(parse_utc("1970-01-01 00:00:00"), None);
    assert_eq!(parse_utc("1970-01-01 00:00:00 utc"), None);
    assert_eq!(parse_utc("1970/01/01 00:00:00 UTC"), None);
    assert_eq!(parse_utc("197a-01-01 00:00:00 UTC"), None);
    assert_eq!(parse_utc("1970-13-01 00:00:00 UTC"), None);
    assert_eq!(parse_utc("1970-00-01 00:00:00 UTC"), None);
    assert_eq!(parse_utc("1970-01-00 00:00:00 UTC"), None);
    assert_eq!(parse_utc("1970-01-32 00:00:00 UTC"), None);
    assert_eq!(parse_utc("1970-02-29 00:00:00 UTC"), None);
    assert_eq!(parse_utc("2000-02-30 00:00:00 UTC"), None);
    assert_eq!(parse_utc("1970-01-01 24:00:00 UTC"), None);
    assert_eq!(parse_utc("1970-01-01 00:60:00 UTC"), None);
    assert_eq!(parse_utc("1970-01-01 00:00:60 UTC"), None);
    assert_eq!(parse_utc("1970-01-01 00:00:00 UTX"), None);
}

#[test]
fn parsing_handles_leap_days() {
    // 2000 is a leap year (divisible by 400), 1900 is not.
    assert!(parse_utc("2000-02-29 12:00:00 UTC").is_some());
    assert_eq!(parse_utc("1900-02-29 12:00:00 UTC"), None);
    assert!(parse_utc("2024-02-29 12:00:00 UTC").is_some());
    assert_eq!(parse_utc("2023-02-29 12:00:00 UTC"), None);
}
