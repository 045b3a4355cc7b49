use chrono::{DateTime, TimeDelta, Utc};
use jiracc::application::presentation::format_relative_time;
use jiracc::domain::Timestamp;

fn timestamp(instant: DateTime<Utc>) -> Timestamp {
    Timestamp::new(instant.timestamp(), instant.timestamp_subsec_nanos())
        .expect("a representable instant")
}

#[test]
fn format_relative_time_handles_elapsed_time_boundaries() -> anyhow::Result<()> {
    let reference_time = "2026-09-18T15:15:00Z".parse::<DateTime<Utc>>()?;
    let cases = [
        (TimeDelta::milliseconds(-1), None),
        (TimeDelta::zero(), Some("just now")),
        (TimeDelta::seconds(59), Some("just now")),
        (TimeDelta::seconds(60), Some("1m ago")),
        (TimeDelta::seconds(24 * 60 + 59), Some("24m ago")),
        (TimeDelta::seconds(3_599), Some("59m ago")),
        (TimeDelta::seconds(3_600), Some("1h ago")),
        (
            TimeDelta::seconds(13 * 3_600 + 45 * 60 + 59),
            Some("13h 45m ago"),
        ),
        (TimeDelta::seconds(86_399), Some("23h 59m ago")),
        (TimeDelta::seconds(86_400), Some("1d ago")),
        (TimeDelta::seconds(4 * 86_400), Some("4d ago")),
        (
            TimeDelta::seconds(4 * 86_400 + 14 * 3_600 + 3_599),
            Some("4d 14h ago"),
        ),
    ];

    for (elapsed, expected) in cases {
        let earlier = reference_time - elapsed;

        assert_eq!(
            format_relative_time(timestamp(earlier), timestamp(reference_time)).as_deref(),
            expected
        );
    }

    Ok(())
}

#[test]
fn partial_seconds_round_down() -> anyhow::Result<()> {
    let reference_time = "2026-09-18T15:15:00.250Z".parse::<DateTime<Utc>>()?;
    let earlier = "2026-09-18T15:13:00.500Z".parse::<DateTime<Utc>>()?;
    // 119.75 seconds elapsed: one whole minute.
    assert_eq!(
        format_relative_time(timestamp(earlier), timestamp(reference_time)).as_deref(),
        Some("1m ago")
    );
    Ok(())
}

#[test]
fn timestamps_take_a_second_or_more_of_nanoseconds_only_in_a_leap_second() {
    assert!(Timestamp::new(0, 1_000_000_000).is_none());
    assert!(Timestamp::new(59, 1_999_999_999).is_some());
    assert!(Timestamp::new(59, 2_000_000_000).is_none());
    assert!(Timestamp::new(-1, 1_500_000_000).is_some());
    let timestamp = Timestamp::new(1_700_000_000, 999_999_999).expect("representable");
    assert_eq!(timestamp.seconds(), 1_700_000_000);
    assert_eq!(timestamp.nanos(), 999_999_999);
}

#[test]
fn timestamps_cover_the_years_that_the_time_library_represents() {
    assert!(Timestamp::new(-8_334_601_228_800, 0).is_some());
    assert!(Timestamp::new(-8_334_601_228_801, 999_999_999).is_none());
    assert!(Timestamp::new(8_210_266_876_799, 999_999_999).is_some());
    assert!(Timestamp::new(8_210_266_876_800, 0).is_none());
    assert!(Timestamp::new(i64::MAX, 0).is_none());
    assert!(Timestamp::new(i64::MIN, 0).is_none());
}

#[test]
fn a_leap_second_counts_as_the_time_library_counts_it() -> anyhow::Result<()> {
    // 2016-12-31T23:59:60.5Z, during a leap second.
    let leap = Timestamp::new(1_483_228_799, 1_500_000_000).expect("a leap second");
    let cases = [
        (1_483_228_799_i64, 0_u32, None),
        (1_483_228_799, 1_600_000_000, Some("just now")),
        (1_483_228_800, 0, Some("just now")),
        (1_483_228_860, 0, Some("just now")),
        (1_483_228_861, 0, Some("1m ago")),
        (1_483_232_399, 0, Some("59m ago")),
        (1_483_232_401, 0, Some("1h ago")),
    ];

    for (seconds, nanos, expected) in cases {
        let reference = Timestamp::new(seconds, nanos).expect("representable");
        assert_eq!(
            format_relative_time(leap, reference).as_deref(),
            expected,
            "reference {seconds}.{nanos}"
        );

        // The time library gives the same answer.
        let leap_instant = DateTime::from_timestamp(1_483_228_799, 1_500_000_000)
            .ok_or_else(|| anyhow::Error::msg("a leap second"))?;
        let reference_instant = DateTime::from_timestamp(seconds, nanos)
            .ok_or_else(|| anyhow::Error::msg("representable"))?;
        let elapsed = reference_instant.signed_duration_since(leap_instant).num_seconds();
        assert_eq!(
            reference_instant < leap_instant,
            expected.is_none(),
            "reference {seconds}.{nanos}"
        );
        if expected == Some("just now") {
            assert!(elapsed < 60, "reference {seconds}.{nanos}");
        }
    }

    Ok(())
}
