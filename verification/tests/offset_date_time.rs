use token_manager::offset_date_time::{OffsetDateTime, OFFSET_MAX_SECONDS};
use token_manager::timestamp::{Timestamp, MAX_NANOSECONDS, MIN_NANOSECONDS};

fn moment(nanoseconds: i128) -> Timestamp {
    Timestamp::from_nanoseconds(nanoseconds).unwrap()
}

/// The same date in the calendar of the `time` crate.
fn calendar(local_nanoseconds: i128, offset_seconds: i32) -> time::OffsetDateTime {
    time::OffsetDateTime::from_unix_timestamp_nanos(local_nanoseconds)
        .unwrap()
        .replace_offset(time::UtcOffset::from_whole_seconds(offset_seconds).unwrap())
}

#[test]
fn range_is_that_of_the_calendar_in_every_time_zone() {
    for offset in [-OFFSET_MAX_SECONDS, -7200, 0, 3600, OFFSET_MAX_SECONDS] {
        assert!(time::UtcOffset::from_whole_seconds(offset).is_ok());
        assert!(OffsetDateTime::new(MIN_NANOSECONDS, offset).is_some());
        assert!(OffsetDateTime::new(MAX_NANOSECONDS, offset).is_some());
        assert!(OffsetDateTime::new(MIN_NANOSECONDS - 1, offset).is_none());
        assert!(OffsetDateTime::new(MAX_NANOSECONDS + 1, offset).is_none());
    }
    for offset in [-OFFSET_MAX_SECONDS - 1, OFFSET_MAX_SECONDS + 1, i32::MIN, i32::MAX] {
        assert!(time::UtcOffset::from_whole_seconds(offset).is_err());
        assert!(OffsetDateTime::new(0, offset).is_none());
    }
}

#[test]
fn date_keeps_its_time_zone() {
    let date = OffsetDateTime::new(1_700_000_000_000_000_007, 5400).unwrap();
    assert_eq!(date.local_nanoseconds(), 1_700_000_000_000_000_007);
    assert_eq!(date.offset_seconds(), 5400);
    assert_eq!(date.unix_timestamp_nanos(), 1_699_994_600_000_000_007);
}

#[test]
fn moments_agree_with_the_calendar() {
    for (local, offset) in [
        (0, 0),
        (1_700_000_000_123_456_789, 19_800),
        (-1, -12_345),
        (MAX_NANOSECONDS, -OFFSET_MAX_SECONDS),
        (MIN_NANOSECONDS, OFFSET_MAX_SECONDS),
    ] {
        let date = OffsetDateTime::new(local, offset).unwrap();
        assert_eq!(date.unix_timestamp_nanos(), calendar(local, offset).unix_timestamp_nanos());
    }
}

#[test]
fn moment_is_written_in_utc() {
    let date = OffsetDateTime::from_timestamp(moment(-5));
    assert_eq!(date.local_nanoseconds(), -5);
    assert_eq!(date.offset_seconds(), 0);
    assert_eq!(date.unix_timestamp_nanos(), -5);
}

#[test]
fn dates_are_ordered_by_their_moment() {
    let utc = |nanoseconds| OffsetDateTime::from_timestamp(moment(nanoseconds));
    assert!(utc(60_000_000_001).is_after_by(&moment(0), 60));
    assert!(!utc(60_000_000_000).is_after_by(&moment(0), 60));
    assert!(!utc(MAX_NANOSECONDS).is_after_by(&moment(MAX_NANOSECONDS), 60));
    let early = OffsetDateTime::new(3_660_000_000_000, 3600).unwrap();
    assert!(!early.is_after_by(&moment(0), 60));
    let late = OffsetDateTime::new(MAX_NANOSECONDS, -61).unwrap();
    assert!(late.is_after_by(&moment(MAX_NANOSECONDS), 60));
    assert!(!late.is_after_by(&moment(MAX_NANOSECONDS), 61));
    let now = time::Timestamp::from_nanoseconds(MAX_NANOSECONDS).unwrap();
    assert!(calendar(MAX_NANOSECONDS, -61) > now);
}
