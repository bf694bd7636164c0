use warden_vault::clock::{Moment, Timestamp};

fn forms(seconds: i64, nanos: u32) -> Option<(String, String)> {
    Moment::at(Timestamp { seconds, nanos }).map(|m| (m.rfc3339().to_string(), m.compact().to_string()))
}

#[test]
fn moment_is_written_in_both_forms() {
    assert_eq!(
        forms(1704164645, 0),
        Some(("2024-01-02T03:04:05+00:00".to_string(), "20240102_030405".to_string()))
    );
    assert_eq!(
        forms(0, 0),
        Some(("1970-01-01T00:00:00+00:00".to_string(), "19700101_000000".to_string()))
    );
    assert_eq!(
        forms(-1, 0),
        Some(("1969-12-31T23:59:59+00:00".to_string(), "19691231_235959".to_string()))
    );
    assert_eq!(
        forms(253402300799, 0),
        Some(("9999-12-31T23:59:59+00:00".to_string(), "99991231_235959".to_string()))
    );
}

#[test]
fn rfc3339_keeps_the_fraction_and_the_stamp_drops_it() {
    assert_eq!(
        forms(1704164645, 500_000_000),
        Some(("2024-01-02T03:04:05.500+00:00".to_string(), "20240102_030405".to_string()))
    );
    assert_eq!(
        forms(1704164645, 123_456_789),
        Some(("2024-01-02T03:04:05.123456789+00:00".to_string(), "20240102_030405".to_string()))
    );
    assert_eq!(
        forms(1704164645, 123_456_000),
        Some(("2024-01-02T03:04:05.123456+00:00".to_string(), "20240102_030405".to_string()))
    );
}

#[test]
fn time_out_of_range_has_no_moment() {
    assert_eq!(forms(i64::MAX, 0), None);
    assert_eq!(forms(i64::MIN, 0), None);
    assert_eq!(forms(0, 2_000_000_000), None);
    assert_eq!(forms(0, 1_500_000_000), None);
}

#[test]
fn same_second_gives_same_stamp() {
    let a = Moment::at(Timestamp { seconds: 951782399, nanos: 0 }).unwrap();
    let b = Moment::at(Timestamp { seconds: 951782399, nanos: 999_999_999 }).unwrap();
    assert_eq!(a.compact(), b.compact());
    assert_ne!(a.rfc3339(), b.rfc3339());
    assert_ne!(a, b);
}

#[test]
fn now_is_a_moment_of_the_present() {
    let before = Timestamp::now();
    assert!(Moment::at(before).is_some());
    let now = Moment::now().unwrap();
    let after = Timestamp::now();
    assert!(before.seconds <= after.seconds);
    assert!(before.seconds > 1_600_000_000);
    assert!(before.nanos < 1_000_000_000);
    assert_eq!(now.compact().len(), 15);
    assert!(now.rfc3339().ends_with("+00:00"));
    let lower = Moment::at(Timestamp { seconds: before.seconds, nanos: 0 }).unwrap();
    let upper = Moment::at(Timestamp { seconds: after.seconds, nanos: 0 }).unwrap();
    assert!(lower.compact() <= now.compact() && now.compact() <= upper.compact());
}
