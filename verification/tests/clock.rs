use chrono::{DateTime, Utc};
use hermes::clock::Timestamp;

fn at(secs: i64, nanos: u32) -> Timestamp {
    Timestamp { secs, nanos, offset: 0 }
}

fn chrono_of(t: &Timestamp) -> DateTime<Utc> {
    DateTime::from_timestamp(t.secs, t.nanos).unwrap()
}

#[test]
fn epoch_is_written_in_rfc3339() {
    assert_eq!(at(0, 0).to_rfc3339(), Some("1970-01-01T00:00:00+00:00".to_string()));
}

#[test]
fn offset_and_fraction_are_written() {
    let t = Timestamp { secs: 1_700_000_000, nanos: 123_000_000, offset: 3600 };
    assert_eq!(t.to_rfc3339(), Some("2023-11-14T23:13:20.123+01:00".to_string()));
    let t = Timestamp { secs: 1_700_000_000, nanos: 1, offset: -18_000 };
    assert_eq!(t.to_rfc3339(), Some("2023-11-14T17:13:20.000000001-05:00".to_string()));
    let t = Timestamp { secs: -1, nanos: 500_000, offset: 0 };
    assert_eq!(t.to_rfc3339(), Some("1969-12-31T23:59:59.000500+00:00".to_string()));
}

#[test]
fn a_time_without_text_has_none() {
    assert_eq!(Timestamp { secs: 0, nanos: 0, offset: 86_400 }.to_rfc3339(), None);
    assert_eq!(Timestamp { secs: 0, nanos: 0, offset: -86_400 }.to_rfc3339(), None);
    assert_eq!(Timestamp { secs: i64::MAX, nanos: 0, offset: 0 }.to_rfc3339(), None);
    assert_eq!(Timestamp { secs: i64::MIN, nanos: 0, offset: 0 }.to_rfc3339(), None);
    assert_eq!(Timestamp { secs: 0, nanos: 2_000_000_000, offset: 0 }.to_rfc3339(), None);
}

#[test]
fn text_is_what_chrono_writes() {
    for (secs, nanos, offset) in [
        (0i64, 0u32, 0i32),
        (1_700_000_000, 999_999_999, 7200),
        (951_782_400, 0, -3600),
        (253_402_300_799, 0, 0),
        (-62_167_219_200, 0, 0),
        (4_102_444_800, 120_000, 19_800),
    ] {
        let zone = chrono::FixedOffset::east_opt(offset).unwrap();
        let expected = DateTime::from_timestamp(secs, nanos).unwrap().with_timezone(&zone).to_rfc3339();
        assert_eq!(Timestamp { secs, nanos, offset }.to_rfc3339(), Some(expected));
    }
}

#[test]
fn elapsed_millis_are_whole_and_rounded_toward_zero() {
    assert_eq!(at(10, 500_000_000).elapsed_millis(&at(10, 0)), 500);
    assert_eq!(at(10, 500_999_999).elapsed_millis(&at(10, 0)), 500);
    assert_eq!(at(11, 0).elapsed_millis(&at(10, 999_000_000)), 1);
    assert_eq!(at(11, 0).elapsed_millis(&at(10, 999_000_001)), 0);
    assert_eq!(at(0, 0).elapsed_millis(&at(0, 0)), 0);
    assert_eq!(at(0, 0).elapsed_millis(&at(0, 999_999)), 0);
    assert_eq!(at(0, 0).elapsed_millis(&at(0, 1_000_000)), -1);
    assert_eq!(at(0, 0).elapsed_millis(&at(0, 1_999_999)), -1);
    assert_eq!(at(0, 0).elapsed_millis(&at(1, 0)), -1000);
    assert_eq!(at(-5, 0).elapsed_millis(&at(5, 0)), -10_000);
}

#[test]
fn later_adds_whole_seconds_and_keeps_the_rest() {
    let t = Timestamp { secs: 10, nanos: 5, offset: -60 };
    assert_eq!(t.later(4), Timestamp { secs: 14, nanos: 5, offset: -60 });
    assert_eq!(t.later(0), t);
    assert_eq!(at(-3, 0).later(4), at(1, 0));
    assert_eq!(at(i64::MIN, 0).later(u64::MAX), at(i64::MAX, 0));
    assert_eq!(at(i64::MAX - 4, 1).later(4), at(i64::MAX, 1));
    assert_eq!(at(i64::MAX - 3, 1).later(4), at(i64::MAX, 1));
    assert_eq!(at(0, 0).later(u64::MAX), at(i64::MAX, 0));
}

#[test]
fn before_compares_instants() {
    assert!(at(1, 0).before(&at(1, 1)));
    assert!(at(0, 999_999_999).before(&at(1, 0)));
    assert!(!at(1, 0).before(&at(1, 0)));
    assert!(!at(1, 1).before(&at(1, 0)));
    assert!(at(-1, 0).before(&at(0, 0)));
    assert!(at(i64::MIN, 0).before(&at(i64::MAX, u32::MAX)));
    let east = Timestamp { secs: 5, nanos: 0, offset: 3600 };
    let west = Timestamp { secs: 5, nanos: 0, offset: -3600 };
    assert!(!east.before(&west) && !west.before(&east));
}

#[test]
fn elapsed_ignores_the_offset() {
    let a = Timestamp { secs: 100, nanos: 0, offset: 3600 };
    let b = Timestamp { secs: 100, nanos: 0, offset: -3600 };
    assert_eq!(a.elapsed_millis(&b), 0);
}

#[test]
fn elapsed_does_not_overflow_at_the_ends() {
    let first = Timestamp { secs: i64::MIN, nanos: 0, offset: 0 };
    let last = Timestamp { secs: i64::MAX, nanos: u32::MAX, offset: 0 };
    assert_eq!(first.elapsed_millis(&last), -(u64::MAX as i128) * 1000 - 4294);
    assert_eq!(last.elapsed_millis(&first), (u64::MAX as i128) * 1000 + 4294);
}

#[test]
fn elapsed_is_what_chrono_measures() {
    let times = [
        at(0, 0),
        at(0, 1),
        at(0, 999_999),
        at(0, 1_000_000),
        at(1, 0),
        at(1_700_000_000, 123_456_789),
        at(1_700_000_000, 123_999_999),
        at(1_700_000_004, 0),
        at(-1, 999_999_999),
        at(-86_400, 5),
    ];
    for a in times.iter() {
        for b in times.iter() {
            let delta = chrono_of(a) - chrono_of(b);
            assert_eq!(a.elapsed_millis(b), delta.num_milliseconds() as i128);
            assert_eq!(a.before(b), chrono_of(a) < chrono_of(b));
        }
    }
}
