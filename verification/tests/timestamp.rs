use token_manager::timestamp::{Timestamp, MAX_NANOSECONDS, MIN_NANOSECONDS};

fn at(nanoseconds: i128) -> Timestamp {
    Timestamp::from_nanoseconds(nanoseconds).unwrap()
}

#[test]
fn range_is_that_of_the_calendar() {
    assert_eq!(MIN_NANOSECONDS, time::Timestamp::MIN.as_nanoseconds());
    assert_eq!(MAX_NANOSECONDS, time::Timestamp::MAX.as_nanoseconds());
    assert!(Timestamp::from_nanoseconds(MIN_NANOSECONDS).is_some());
    assert!(Timestamp::from_nanoseconds(MAX_NANOSECONDS).is_some());
    assert!(Timestamp::from_nanoseconds(MIN_NANOSECONDS - 1).is_none());
    assert!(Timestamp::from_nanoseconds(MAX_NANOSECONDS + 1).is_none());
}

#[test]
fn seconds_are_added() {
    assert_eq!(at(5).checked_add_seconds(3), Some(at(3_000_000_005)));
    assert_eq!(at(-1_000_000_000).checked_add_seconds(1), Some(at(0)));
    assert_eq!(at(0).checked_add_seconds(u64::MAX), None);
    assert_eq!(at(MAX_NANOSECONDS).checked_add_seconds(0), Some(at(MAX_NANOSECONDS)));
    assert_eq!(at(MAX_NANOSECONDS).checked_add_seconds(1), None);
    assert_eq!(
        at(MAX_NANOSECONDS - 1_000_000_000).checked_add_seconds(1),
        Some(at(MAX_NANOSECONDS))
    );
}

#[test]
fn sums_agree_with_the_calendar() {
    let start = time::Timestamp::from_nanoseconds(1_700_000_000_123_456_789).unwrap();
    let sum = start + std::time::Duration::from_secs(3599);
    assert_eq!(
        at(1_700_000_000_123_456_789).checked_add_seconds(3599).unwrap().as_nanoseconds(),
        sum.as_nanoseconds()
    );
}

#[test]
fn clock_shows_the_present() {
    let before = time::Timestamp::now().as_nanoseconds();
    let now = Timestamp::now().as_nanoseconds();
    let after = time::Timestamp::now().as_nanoseconds();
    assert!(before <= now && now <= after);
}
