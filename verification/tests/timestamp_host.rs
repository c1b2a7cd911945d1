//! Timestamp conversions to and from the host's absolute time point.

use wire_time::Timestamp;
use wire_time::TimestampHostError;

#[test]
fn timestamp_round_trip_at_or_after_epoch() {
    let point = std::time::UNIX_EPOCH + std::time::Duration::new(1_404_810_611, 12);
    let wire = Timestamp::from_host(&point).unwrap();
    assert_eq!(wire, Timestamp { seconds: 1_404_810_611, nanos: 12 });
    match wire.try_into_host() {
        Ok(back) => assert_eq!(back, point),
        Err(_) => panic!("a point after the epoch must convert"),
    }
}

#[test]
fn timestamp_from_host_before_epoch_is_none() {
    let point = std::time::UNIX_EPOCH - std::time::Duration::new(1, 0);
    assert!(Timestamp::from_host(&point).is_none());
}

#[test]
fn timestamp_from_host_parts_saturates() {
    let wire = Timestamp::from_host_parts(u64::MAX, 7);
    assert_eq!(wire, Timestamp { seconds: i64::MAX, nanos: 7 });
}

#[test]
fn timestamp_before_epoch_fails_with_distance() {
    let wire = Timestamp { seconds: -1, nanos: 0 };
    match wire.try_into_host() {
        Err(TimestampHostError::BeforeEpoch(d)) => {
            assert_eq!(d, std::time::Duration::new(1, 0));
        }
        _ => panic!("a point before the epoch must fail"),
    }
}

#[test]
fn timestamp_before_epoch_magnitude_keeps_nanos() {
    let wire = Timestamp { seconds: -1, nanos: 500_000_000 };
    match wire.try_into_host() {
        Err(TimestampHostError::BeforeEpoch(d)) => {
            assert_eq!(d, std::time::Duration::new(1, 500_000_000));
        }
        _ => panic!("a point before the epoch must fail"),
    }
}

#[test]
fn timestamp_unnormalized_input_is_folded_first() {
    let wire = Timestamp { seconds: 1, nanos: -500_000_000 };
    assert_eq!(wire.try_into_parts(), Ok((0, 500_000_000)));

    let wire = Timestamp { seconds: 0, nanos: -1 };
    assert_eq!(wire.try_into_parts(), Err((1, 999_999_999)));
}
