use chrono::{DateTime, Utc};
use pulsar::datetime::{OffsetDateTime, UtcDateTime, MAX_SECONDS, MIN_SECONDS};
use pulsar::models::user::{NativeUtcDateTime, OptionalNativeUtcDateTime};

fn at(seconds: i64, nanos: u32) -> UtcDateTime {
    UtcDateTime::new(seconds, nanos).expect("in range")
}

fn stored(seconds: i64, nanos: u32, offset: i32) -> OffsetDateTime {
    OffsetDateTime::new(seconds, nanos, offset).expect("in range")
}

#[test]
fn the_range_is_that_of_chrono() {
    assert_eq!(DateTime::<Utc>::MIN_UTC.timestamp(), MIN_SECONDS);
    assert_eq!(DateTime::<Utc>::MAX_UTC.timestamp(), MAX_SECONDS);
    assert!(DateTime::<Utc>::from_timestamp(MIN_SECONDS, 0).is_some());
    assert!(DateTime::<Utc>::from_timestamp(MAX_SECONDS, 0).is_some());
    assert!(DateTime::<Utc>::from_timestamp(MIN_SECONDS - 1, 0).is_none());
    assert!(DateTime::<Utc>::from_timestamp(MAX_SECONDS + 1, 0).is_none());
}

#[test]
fn values_out_of_range_are_refused() {
    assert!(UtcDateTime::new(MIN_SECONDS, 0).is_some());
    assert!(UtcDateTime::new(MAX_SECONDS, 1_999_999_999).is_some());
    assert_eq!(UtcDateTime::new(MIN_SECONDS - 1, 0), None);
    assert_eq!(UtcDateTime::new(MAX_SECONDS + 1, 0), None);
    assert_eq!(UtcDateTime::new(0, 2_000_000_000), None);
    assert!(OffsetDateTime::new(0, 0, 86_399).is_some());
    assert!(OffsetDateTime::new(0, 0, -86_399).is_some());
    assert_eq!(OffsetDateTime::new(0, 0, 86_400), None);
    assert_eq!(OffsetDateTime::new(0, 0, -86_400), None);
    assert_eq!(OffsetDateTime::new(MAX_SECONDS + 1, 0, 0), None);
    assert_eq!(OffsetDateTime::new(0, 2_000_000_000, 0), None);
}

#[test]
fn parts_are_read_back() {
    let value = at(-5, 17);
    assert_eq!((value.seconds(), value.nanos()), (-5, 17));
    let kept = stored(12, 34, -3600);
    assert_eq!((kept.seconds(), kept.nanos(), kept.offset()), (12, 34, -3600));
}

#[test]
fn rfc3339_text_is_in_utc() {
    assert_eq!(at(1_431_648_000, 0).to_rfc3339(), "2015-05-15T00:00:00+00:00");
    assert_eq!(at(0, 0).to_rfc3339(), "1970-01-01T00:00:00+00:00");
    assert_eq!(at(0, 5_000_000).to_rfc3339(), "1970-01-01T00:00:00.005+00:00");
    assert_eq!(at(-1, 0).to_rfc3339(), "1969-12-31T23:59:59+00:00");
    assert_eq!(at(59, 1_000_000_000).to_rfc3339(), "1970-01-01T00:00:60+00:00");
}

#[test]
fn rfc3339_text_exists_at_the_ends_of_the_range() {
    assert_eq!(at(MIN_SECONDS, 0).to_rfc3339(), "-262143-01-01T00:00:00+00:00");
    assert_eq!(
        at(MAX_SECONDS, 999_999_999).to_rfc3339(),
        "+262142-12-31T23:59:59.999999999+00:00"
    );
    assert_eq!(at(MAX_SECONDS, 1_000_000_000).to_rfc3339(), "+262142-12-31T23:59:60+00:00");
}

#[test]
fn a_time_is_stored_at_offset_zero() {
    assert_eq!(NativeUtcDateTime::to_storage(&at(1_431_648_000, 7)), stored(1_431_648_000, 7, 0));
    assert_eq!(NativeUtcDateTime::to_storage(&at(MIN_SECONDS, 0)), stored(MIN_SECONDS, 0, 0));
    assert_eq!(
        NativeUtcDateTime::to_storage(&at(MAX_SECONDS, 1_999_999_999)),
        stored(MAX_SECONDS, 1_999_999_999, 0)
    );
}

#[test]
fn a_stored_time_is_read_at_its_instant_whatever_its_offset() {
    assert_eq!(NativeUtcDateTime::from_storage(&stored(1_431_648_000, 7, 0)), at(1_431_648_000, 7));
    assert_eq!(NativeUtcDateTime::from_storage(&stored(1_431_648_000, 7, 19_800)), at(1_431_648_000, 7));
    assert_eq!(NativeUtcDateTime::from_storage(&stored(MAX_SECONDS, 0, 86_399)), at(MAX_SECONDS, 0));
    assert_eq!(NativeUtcDateTime::from_storage(&stored(MIN_SECONDS, 1_500_000_000, -86_399)), at(MIN_SECONDS, 1_500_000_000));
}

#[test]
fn stored_times_round_trip() {
    for value in [at(0, 0), at(-1, 999_999_999), at(1_700_000_000, 1_234_567_890)] {
        let kept = NativeUtcDateTime::to_storage(&value);
        assert_eq!(NativeUtcDateTime::from_storage(&kept), value);
        let kept = OptionalNativeUtcDateTime::to_storage(&Some(value));
        assert_eq!(OptionalNativeUtcDateTime::from_storage(&kept), Some(value));
    }
    assert_eq!(OptionalNativeUtcDateTime::to_storage(&None), None);
    assert_eq!(OptionalNativeUtcDateTime::from_storage(&None), None);
}

#[test]
fn storing_what_was_read_drops_the_offset() {
    let read = OptionalNativeUtcDateTime::from_storage(&Some(stored(100, 5, 3600)));
    assert_eq!(OptionalNativeUtcDateTime::to_storage(&read), Some(stored(100, 5, 0)));
}
