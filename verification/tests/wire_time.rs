//! Normalization and host-duration conversion behaviour on concrete values.

use wire_time::Duration;
use wire_time::Timestamp;

#[test]
fn duration_normalize_carry() {
    let mut d = Duration { seconds: 1, nanos: 1_500_000_000 };
    d.normalize();
    assert_eq!(d, Duration { seconds: 2, nanos: 500_000_000 });
}

#[test]
fn duration_normalize_borrow() {
    let mut d = Duration { seconds: 1, nanos: -500_000_000 };
    d.normalize();
    assert_eq!(d, Duration { seconds: 0, nanos: 500_000_000 });
}

#[test]
fn duration_normalize_negative_carry() {
    let mut d = Duration { seconds: -1, nanos: -1_500_000_000 };
    d.normalize();
    assert_eq!(d, Duration { seconds: -2, nanos: -500_000_000 });

    let mut d = Duration { seconds: -1, nanos: 500_000_000 };
    d.normalize();
    assert_eq!(d, Duration { seconds: 0, nanos: -500_000_000 });
}

#[test]
fn duration_normalize_is_idempotent() {
    let mut d = Duration { seconds: -3, nanos: 2_000_000_001 };
    d.normalize();
    let once = d;
    d.normalize();
    assert_eq!(d, once);
}

#[test]
fn duration_normalize_range_invariant() {
    let inputs = [
        (0i64, 0i32),
        (0, i32::MAX),
        (0, i32::MIN),
        (5, -2_000_000_001),
        (-5, 2_000_000_001),
        (1, 999_999_999),
        (-1, -999_999_999),
    ];
    for (s, n) in inputs {
        let mut d = Duration { seconds: s, nanos: n };
        d.normalize();
        assert!(-999_999_999 <= d.nanos && d.nanos <= 999_999_999);
        assert!(!(d.seconds < 0 && d.nanos > 0));
        assert!(!(d.seconds > 0 && d.nanos < 0));
    }
}

#[test]
fn timestamp_normalize_borrows_below_zero() {
    let mut ts = Timestamp { seconds: 1, nanos: -500_000_000 };
    ts.normalize();
    assert_eq!(ts, Timestamp { seconds: 0, nanos: 500_000_000 });

    let mut ts = Timestamp { seconds: 0, nanos: -1 };
    ts.normalize();
    assert_eq!(ts, Timestamp { seconds: -1, nanos: 999_999_999 });
}

#[test]
fn timestamp_normalize_range_invariant() {
    let inputs = [
        (0i64, 0i32),
        (0, i32::MIN),
        (0, i32::MAX),
        (-2, -2_000_000_001),
        (7, 2_000_000_001),
        (-1, 999_999_999),
    ];
    for (s, n) in inputs {
        let mut ts = Timestamp { seconds: s, nanos: n };
        ts.normalize();
        assert!(0 <= ts.nanos && ts.nanos <= 999_999_999);
    }
}

#[test]
fn timestamp_normalize_is_idempotent() {
    let mut ts = Timestamp { seconds: 4, nanos: -2_000_000_007 };
    ts.normalize();
    let once = ts;
    ts.normalize();
    assert_eq!(ts, once);
}

#[test]
fn duration_round_trip_non_negative() {
    let host = std::time::Duration::new(1_404_810_611, 12);
    let wire = Duration::from_host(&host);
    assert_eq!(wire, Duration { seconds: 1_404_810_611, nanos: 12 });
    assert_eq!(wire.try_into_host(), Ok(host));

    let wire = Duration::from_host_parts(3, 999_999_999);
    assert_eq!(wire.try_into_parts(), Ok((3, 999_999_999)));
}

#[test]
fn duration_from_host_saturates() {
    let wire = Duration::from_host_parts(u64::MAX, 999_999_999);
    assert_eq!(wire, Duration { seconds: i64::MAX, nanos: 999_999_999 });
}

#[test]
fn duration_negative_fails_with_magnitude() {
    let wire = Duration { seconds: -5, nanos: -500_000_000 };
    assert_eq!(wire.try_into_parts(), Err((5, 500_000_000)));
    assert_eq!(wire.try_into_host(), Err(std::time::Duration::new(5, 500_000_000)));
}

#[test]
fn duration_negative_nanos_alone_fail() {
    let wire = Duration { seconds: 0, nanos: -500_000_000 };
    assert_eq!(wire.try_into_parts(), Err((0, 500_000_000)));
}

#[test]
fn duration_unnormalized_input_is_folded_first() {
    let wire = Duration { seconds: 2, nanos: -1_500_000_000 };
    assert_eq!(wire.try_into_parts(), Ok((0, 500_000_000)));
}
