use chrono::TimeZone;
use rusty_cdb::metadata::temporal::{format_datetime, parse_datetime, Temporal, UtcInstant};
use rusty_cdb::metadata::MetadataViolation;

fn dt(text: &str) -> UtcInstant {
    parse_datetime(text).unwrap()
}

fn instant_of(t: chrono::DateTime<chrono::Utc>) -> UtcInstant {
    UtcInstant { secs: t.timestamp(), nanos: t.timestamp_subsec_nanos() }
}

#[test]
fn req_core_metadata_datetime_accepts_utc_forms() {
    assert_eq!(
        dt("2026-07-14T09:30:00Z"),
        instant_of(chrono::Utc.with_ymd_and_hms(2026, 7, 14, 9, 30, 0).unwrap())
    );
    assert_eq!(dt("2026-07-14T09:30:00+00:00"), dt("2026-07-14T09:30:00Z"));
    assert_eq!(dt("2026-07-14T09:30:00.250Z").nanos / 1_000_000, 250);
}

#[test]
fn req_core_metadata_datetime_rejects_non_utc() {
    for value in ["2026-07-14T09:30:00+02:00", "2026-07-14T09:30:00-05:00"] {
        assert!(matches!(parse_datetime(value), Err(MetadataViolation::NotUtc { .. })), "{value}");
    }
}

#[test]
fn req_core_metadata_datetime_rejects_malformed() {
    for value in ["", "2026-07-14", "2026-07-14T09:30:00", "2026-07-14 09:30:00Z", "14/07/2026"] {
        assert!(
            matches!(parse_datetime(value), Err(MetadataViolation::InvalidDateTime { .. })),
            "{value}"
        );
    }
}

#[test]
fn req_core_metadata_datetime_formats_canonical_z() {
    let instant = instant_of(chrono::Utc.with_ymd_and_hms(2026, 7, 14, 9, 30, 0).unwrap());
    let text = format_datetime(&instant).unwrap();
    assert_eq!(text, "2026-07-14T09:30:00Z");
    assert_eq!(dt(&text), instant);
}

#[test]
fn req_core_metadata_temporal_instant() {
    assert_eq!(
        Temporal::parse("2026-07-14T09:30:00Z").unwrap(),
        Temporal::Instant(dt("2026-07-14T09:30:00Z"))
    );
}

#[test]
fn req_core_metadata_temporal_bounded_interval() {
    assert_eq!(
        Temporal::parse("2025-01-01T00:00:00Z/2026-01-01T00:00:00Z").unwrap(),
        Temporal::Interval {
            start: Some(dt("2025-01-01T00:00:00Z")),
            end: Some(dt("2026-01-01T00:00:00Z")),
        }
    );
}

#[test]
fn req_core_metadata_temporal_half_bounded() {
    let open_start = Temporal::Interval { start: None, end: Some(dt("2026-01-01T00:00:00Z")) };
    assert_eq!(Temporal::parse("../2026-01-01T00:00:00Z").unwrap(), open_start);
    assert_eq!(Temporal::parse("/2026-01-01T00:00:00Z").unwrap(), open_start);

    let open_end = Temporal::Interval { start: Some(dt("2025-01-01T00:00:00Z")), end: None };
    assert_eq!(Temporal::parse("2025-01-01T00:00:00Z/..").unwrap(), open_end);
    assert_eq!(Temporal::parse("2025-01-01T00:00:00Z/").unwrap(), open_end);
}

#[test]
fn req_core_metadata_temporal_rejects_invalid() {
    for value in [
        "../..",
        "/",
        "2025-01-01T00:00:00Z/2026-01-01T00:00:00Z/..",
        "2026-01-01T00:00:00Z/2025-01-01T00:00:00Z",
    ] {
        assert!(
            matches!(
                Temporal::parse(value),
                Err(MetadataViolation::InvalidTemporalInterval { .. })
            ),
            "{value}"
        );
    }
    assert!(matches!(
        Temporal::parse("2025-01-01T00:00:00+01:00/.."),
        Err(MetadataViolation::NotUtc { .. })
    ));
}

#[test]
fn temporal_display_canonicalizes_and_roundtrips() {
    let parsed = Temporal::parse("/2026-01-01T00:00:00Z").unwrap();
    let text = parsed.to_text().unwrap();
    assert_eq!(text, "../2026-01-01T00:00:00Z");
    assert_eq!(Temporal::parse(&text).unwrap(), parsed);
}

#[test]
fn temporal_fractional_instants_read_back_exactly() {
    for value in [
        "2026-07-14T09:30:00.250Z",
        "2026-07-14T09:30:00.000001Z",
        "1999-12-31T23:59:59.123456789Z/2000-01-01T00:00:00Z",
    ] {
        let parsed = Temporal::parse(value).unwrap();
        let text = parsed.to_text().unwrap();
        assert_eq!(text, value);
        assert_eq!(Temporal::parse(&text).unwrap(), parsed);
    }
}

#[test]
fn temporal_leap_second_reads_back() {
    let parsed = Temporal::parse("2016-12-31T23:59:60.5Z/..").unwrap();
    match parsed {
        Temporal::Interval { start: Some(s), end: None } => assert!(s.nanos >= 1_000_000_000),
        other => panic!("unexpected {other:?}"),
    }
    let text = parsed.to_text().unwrap();
    assert_eq!(text, "2016-12-31T23:59:60.500Z/..");
    assert_eq!(Temporal::parse(&text).unwrap(), parsed);
}
