use win_acapture_rs::audio_stream::convert_instant;
use win_acapture_rs::stream_instant::{Duration, StreamInstant};

#[test]
fn duration_since_forward() {
    let a = StreamInstant::new(1, 500_000_000);
    let b = StreamInstant::new(3, 250_000_000);
    let d = b.duration_since(&a).unwrap();
    assert_eq!(d.as_nanos(), 1_750_000_000);
}

#[test]
fn duration_since_backward_is_none() {
    let a = StreamInstant::new(1, 500_000_000);
    let b = StreamInstant::new(3, 250_000_000);
    assert!(a.duration_since(&b).is_none());
}

#[test]
fn duration_since_equal_is_zero() {
    let a = StreamInstant::new(7, 123);
    let d = a.duration_since(&a).unwrap();
    assert_eq!(d.as_nanos(), 0);
}

#[test]
fn add_advances_by_duration() {
    let a = StreamInstant::new(1, 999_999_999);
    let b = a.add(Duration::from_nanos(2)).unwrap();
    let d = b.duration_since(&a).unwrap();
    assert_eq!(d.as_nanos(), 2);
}

#[test]
fn add_overflow_is_none() {
    let a = StreamInstant::new(i64::MAX, 0);
    assert!(a.add(Duration::new(u64::MAX, 0)).is_none());
}

#[test]
fn sub_steps_back_by_duration() {
    let a = StreamInstant::new(5, 0);
    let b = a.sub(Duration::from_nanos(1_000_000_000)).unwrap();
    let d = a.duration_since(&b).unwrap();
    assert_eq!(d.as_nanos(), 1_000_000_000);
}

#[test]
fn sub_then_add_round_trips() {
    let a = StreamInstant::new(10, 250_000_000);
    let span = Duration::from_nanos(3_750_000_123);
    let back = a.sub(span).unwrap();
    let again = back.add(span).unwrap();
    assert_eq!(again, a);
}

#[test]
fn from_nanos_splits_seconds() {
    let i = StreamInstant::from_nanos(2_000_000_003);
    assert_eq!(i, StreamInstant::new(2, 3));
    let j = StreamInstant::from_nanos_i128(7_000_000_001).unwrap();
    assert_eq!(j, StreamInstant::new(7, 1));
}

#[test]
fn from_nanos_i128_out_of_range_is_none() {
    assert!(StreamInstant::from_nanos_i128(i128::MAX).is_none());
}

#[test]
fn duration_from_nanos_round_trips() {
    let d = Duration::from_nanos(3_123_456_789);
    assert_eq!(d.as_nanos(), 3_123_456_789);
    let z = Duration::from_nanos(0);
    assert_eq!(z.as_nanos(), 0);
}

#[test]
fn convert_instant_counts_hundred_nanosecond_ticks() {
    let i = convert_instant(10_000_000);
    assert_eq!(i, StreamInstant::new(1, 0));
    let j = convert_instant(10_000_001);
    assert_eq!(j, StreamInstant::new(1, 100));
    let origin = convert_instant(0);
    assert_eq!(origin, StreamInstant::new(0, 0));
}
