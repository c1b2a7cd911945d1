//! Conversions between the wire types and the host platform's time types.
//!
//! The host's monotonic duration and absolute time point are opaque here:
//! the verified logic works on their whole-second and nanosecond counts, and
//! a thin trusted layer moves those counts in and out of `std::time`.  What
//! each trusted call returns is a function of its arguments alone, so it is
//! given a name, and the contracts of the public conversions speak of those
//! names.

use crate::duration::Duration;
use crate::norm::lemma_sym_norm_fixed;
use crate::norm::lemma_sym_norm_range;
use crate::norm::lemma_ts_norm_range;
use crate::norm::sat_secs_i64;
use crate::norm::sym_norm_is_nonneg;
use crate::norm::sym_norm_nanos;
use crate::norm::sym_norm_secs;
use crate::norm::timestamp_normalized;
use crate::norm::ts_norm_nanos;
use crate::norm::ts_norm_secs;
use crate::timestamp::Timestamp;
use vstd::prelude::*;

verus! {

#[verifier::external_type_specification]
#[verifier::external_body]
pub struct ExSystemTime(std::time::SystemTime);

/// How turning a wire timestamp into a host time point fails.
pub enum TimestampHostError {
    /// The point precedes the epoch; the payload is how far, as a host
    /// duration.
    BeforeEpoch(std::time::Duration),
    /// The host cannot represent a point that far after the epoch.
    OutOfRange,
}

/// What std::time::Duration::new returns for the given whole-second and
/// nanosecond counts: the host duration holding them.
pub uninterp spec fn host_duration_of(secs: u64, nanos: u32) -> std::time::Duration;

/// What std::time::Duration::as_secs returns for the given host duration:
/// its whole-second count.
pub uninterp spec fn host_secs_of(d: std::time::Duration) -> u64;

/// What std::time::Duration::subsec_nanos returns for the given host
/// duration: its fractional part in nanoseconds.
pub uninterp spec fn host_subsec_nanos_of(d: std::time::Duration) -> u32;

/// What the host reports as the elapsed time from the Unix epoch to the
/// given time point, as its whole-second and nanosecond counts — or nothing
/// for a point before the epoch.
pub uninterp spec fn host_elapsed_of(t: std::time::SystemTime) -> Option<(u64, u32)>;

/// Relies on std::time::Duration::new: builds the duration from whole
/// seconds and nanoseconds; with fewer than a billion nanoseconds there is
/// no carry and no panic.
#[verifier::external_body]
fn host_duration_new(secs: u64, nanos: u32) -> (r: std::time::Duration)
    requires
        nanos < 1_000_000_000,
    ensures
        r == host_duration_of(secs, nanos),
{
    std::time::Duration::new(secs, nanos)
}

/// Relies on std::time::Duration::as_secs: the whole-second count of the
/// duration.
#[verifier::external_body]
fn host_duration_secs(d: &std::time::Duration) -> (r: u64)
    ensures
        r == host_secs_of(*d),
{
    d.as_secs()
}

/// Relies on std::time::Duration::subsec_nanos: the fractional part in
/// nanoseconds, always below one billion.
#[verifier::external_body]
fn host_duration_subsec_nanos(d: &std::time::Duration) -> (r: u32)
    ensures
        r == host_subsec_nanos_of(*d),
        r < 1_000_000_000,
{
    d.subsec_nanos()
}

/// Relies on std::time::SystemTime::duration_since, measured from
/// std::time::UNIX_EPOCH: the elapsed time since the epoch, or nothing if
/// the point precedes the epoch.  What comes back holds exactly the counts
/// named as the point's elapsed time.
#[verifier::external_body]
fn host_elapsed_since_epoch(t: &std::time::SystemTime) -> (r: Option<std::time::Duration>)
    ensures
        ({
            match r {
                Some(d) => host_elapsed_of(*t) == Some((host_secs_of(d), host_subsec_nanos_of(d))),
                None => host_elapsed_of(*t) is None,
            }
        }),
{
    t.duration_since(std::time::UNIX_EPOCH).ok()
}

/// Relies on std::time::SystemTime::checked_add, applied to
/// std::time::UNIX_EPOCH: the point the given time past the epoch, or
/// nothing if the host cannot represent it.  Where that range ends is the
/// platform's own affair, so nothing is promised of the outcome.
#[verifier::external_body]
fn host_epoch_plus(d: std::time::Duration) -> Option<std::time::SystemTime> {
    std::time::UNIX_EPOCH.checked_add(d)
}

impl Duration {
    /// Builds a wire duration from a host duration, by the saturating copy
    /// of its whole-second and nanosecond counts.  A host duration is never
    /// negative and its fractional part is below one second, so the result
    /// is canonical and non-negative.
    pub fn from_host(d: &std::time::Duration) -> (r: Duration)
        ensures
            r.seconds as int == sat_secs_i64(host_secs_of(*d)),
            r.nanos == host_subsec_nanos_of(*d),
            r.seconds >= 0,
            0 <= r.nanos < 1_000_000_000,
    {
        let secs = host_duration_secs(d);
        let nanos = host_duration_subsec_nanos(d);
        proof {
            lemma_sym_norm_fixed(sat_secs_i64(secs), nanos as int);
        }
        Duration::from_host_parts(secs, nanos)
    }

    /// Normalizes this wire duration and converts it to a host duration.
    /// A non-negative span succeeds with the host duration built from its
    /// canonical counts; a negative one cannot live in the non-negative
    /// host type, so it fails with the host duration built from the counts
    /// of its magnitude, leaving the caller to interpret the sign.
    pub fn try_into_host(self) -> (r: Result<std::time::Duration, std::time::Duration>)
        requires
            i64::MIN <= sym_norm_secs(self.seconds as int, self.nanos as int) <= i64::MAX,
        ensures
            r is Ok <==> sym_norm_is_nonneg(self.seconds as int, self.nanos as int),
            ({
                let ns = sym_norm_secs(self.seconds as int, self.nanos as int);
                let nn = sym_norm_nanos(self.seconds as int, self.nanos as int);
                if sym_norm_is_nonneg(self.seconds as int, self.nanos as int) {
                    r == Ok::<std::time::Duration, std::time::Duration>(
                        host_duration_of(ns as u64, nn as u32),
                    )
                } else {
                    r == Err::<std::time::Duration, std::time::Duration>(
                        host_duration_of((-ns) as u64, (-nn) as u32),
                    )
                }
            }),
    {
        proof {
            lemma_sym_norm_range(self.seconds as int, self.nanos as int);
        }
        match self.try_into_parts() {
            Ok((secs, nanos)) => Ok(host_duration_new(secs, nanos)),
            Err((secs, nanos)) => Err(host_duration_new(secs, nanos)),
        }
    }
}

impl Timestamp {
    /// Builds a wire timestamp from a host time point, as the elapsed time
    /// from the epoch to the point: `Some` holding the saturating copy of
    /// the elapsed counts exactly when the host reports an elapsed time,
    /// `None` exactly when the point precedes the epoch.
    pub fn from_host(t: &std::time::SystemTime) -> (r: Option<Timestamp>)
        ensures
            ({
                match host_elapsed_of(*t) {
                    Some(parts) => r matches Some(ts) && ts.seconds as int == sat_secs_i64(parts.0)
                        && ts.nanos == parts.1,
                    None => r is None,
                }
            }),
            ({
                match r {
                    Some(ts) => ts.seconds >= 0 && timestamp_normalized(
                        ts.seconds as int,
                        ts.nanos as int,
                    ),
                    None => true,
                }
            }),
    {
        match host_elapsed_since_epoch(t) {
            Some(d) => {
                let secs = host_duration_secs(&d);
                let nanos = host_duration_subsec_nanos(&d);
                proof {
                    lemma_sym_norm_fixed(sat_secs_i64(secs), nanos as int);
                }
                Some(Timestamp::from_host_parts(secs, nanos))
            },
            None => None,
        }
    }

    /// Normalizes this wire timestamp and converts it to a host time point,
    /// as the epoch plus the elapsed seconds and nanoseconds.  A point
    /// before the epoch fails with how far it precedes the epoch, as the
    /// host duration built from the magnitude of the canonical second count
    /// with the same nanoseconds; a point beyond what the host can
    /// represent fails as out of range.
    pub fn try_into_host(self) -> (r: Result<std::time::SystemTime, TimestampHostError>)
        requires
            i64::MIN < ts_norm_secs(self.seconds as int, self.nanos as int) <= i64::MAX,
        ensures
            ts_norm_secs(self.seconds as int, self.nanos as int) < 0 <==> (r matches Err(
                TimestampHostError::BeforeEpoch(_),
            )),
            r matches Err(TimestampHostError::OutOfRange) ==> ts_norm_secs(
                self.seconds as int,
                self.nanos as int,
            ) >= 0,
            r matches Err(TimestampHostError::BeforeEpoch(d)) ==> d == host_duration_of(
                (-ts_norm_secs(self.seconds as int, self.nanos as int)) as u64,
                ts_norm_nanos(self.seconds as int, self.nanos as int) as u32,
            ),
    {
        proof {
            lemma_ts_norm_range(self.seconds as int, self.nanos as int);
        }
        match self.try_into_parts() {
            Ok((secs, nanos)) => {
                match host_epoch_plus(host_duration_new(secs, nanos)) {
                    Some(t) => Ok(t),
                    None => Err(TimestampHostError::OutOfRange),
                }
            },
            Err((secs, nanos)) => Err(TimestampHostError::BeforeEpoch(
                host_duration_new(secs, nanos),
            )),
        }
    }
}

} // verus!
