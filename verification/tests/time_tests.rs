use cot_proto::time::Timestamp;

#[test]
fn rfc3339_is_read_as_an_instant() {
    let t = Timestamp::parse_rfc3339("2023-08-21T12:47:02.283Z").unwrap();
    assert_eq!(t.secs(), 1692622022);
    assert_eq!(t.nanos(), 283_000_000);
    let same = Timestamp::parse_rfc3339("2023-08-21T14:47:02.283+02:00").unwrap();
    assert_eq!(same, t);
}

#[test]
fn what_is_not_rfc3339_is_refused() {
    assert_eq!(Timestamp::parse_rfc3339("2023-10- 24T03:16:14.985238Z"), None);
    assert_eq!(Timestamp::parse_rfc3339("2023-08-21"), None);
    assert_eq!(Timestamp::parse_rfc3339(""), None);
    assert_eq!(Timestamp::parse_rfc3339("2023-08-21T12:47:02.283"), None);
}

#[test]
fn wire_form_has_milliseconds_and_z() {
    let t = Timestamp::new(1692622022, 283_000_000).unwrap();
    assert_eq!(t.to_rfc3339_millis(), "2023-08-21T12:47:02.283Z");
    let whole = Timestamp::new(0, 0).unwrap();
    assert_eq!(whole.to_rfc3339_millis(), "1970-01-01T00:00:00.000Z");
    let fine = Timestamp::new(1692622022, 897_441_999).unwrap();
    assert_eq!(fine.to_rfc3339_millis(), "2023-08-21T12:47:02.897Z");
}

#[test]
fn only_instants_of_the_calendar_are_made() {
    assert!(Timestamp::new(0, 0).is_some());
    assert!(Timestamp::new(-1, 999_999_999).is_some());
    assert!(Timestamp::new(0, 2_000_000_000).is_none());
    assert!(Timestamp::new(0, 1_000_000_000).is_none());
    assert!(Timestamp::new(1483228799, 1_500_000_000).is_some());
    assert!(Timestamp::new(i64::MAX, 0).is_none());
    assert!(Timestamp::new(i64::MIN, 0).is_none());
}

#[test]
fn seconds_are_added_with_care() {
    let t = Timestamp::new(1692622022, 283_000_000).unwrap();
    let later = t.checked_add_seconds(86_400).unwrap();
    assert_eq!(later.secs(), 1692708422);
    assert_eq!(later.nanos(), 283_000_000);
    assert_eq!(t.checked_add_seconds(-1692622022).unwrap().secs(), 0);
    assert_eq!(t.checked_add_seconds(i64::MAX), None);
    assert_eq!(t.checked_add_seconds(i64::MAX - 1692622022), None);
}

#[test]
fn the_clock_gives_an_instant_that_can_be_written() {
    let now = Timestamp::now();
    assert!(now.secs() > 1_600_000_000);
    assert_eq!(Timestamp::parse_rfc3339(&now.to_rfc3339_millis()).unwrap().secs(), now.secs());
}
