//! The wire timestamp type: an absolute point in time relative to an epoch.

use crate::duration::Duration;
use crate::norm::NANOS_PER_SECOND;
use crate::norm::lemma_carry_rem;
use crate::norm::lemma_sym_norm_fixed;
use crate::norm::lemma_ts_norm_fixed;
use crate::norm::lemma_ts_norm_range;
use crate::norm::sat_nanos_i32;
use crate::norm::sat_secs_i64;
use crate::norm::sym_norm_nanos;
use crate::norm::sym_norm_secs;
use crate::norm::timestamp_normalized;
use crate::norm::ts_norm_nanos;
use crate::norm::ts_norm_secs;
use vstd::prelude::*;

verus! {

/// An absolute point in time on the wire: a signed offset in whole seconds
/// from a fixed epoch, plus nanoseconds.  Once normalized the nanoseconds
/// are a forward offset from the whole-second mark, never negative, whatever
/// the sign of the seconds.  A value read off the wire may be un-normalized;
/// every conversion out normalizes it first.
#[derive(Clone, Copy, Debug, PartialEq, Eq, Structural)]
pub struct Timestamp {
    pub seconds: i64,
    pub nanos: i32,
}

impl Timestamp {
    /// Folds the pair into canonical form: nanoseconds in the range
    /// `0..=999_999_999`, borrowing one second when the raw count is
    /// negative.  The caller keeps the canonical second count inside the
    /// 64-bit range; no calendar bound is put on the point.
    pub fn normalize(&mut self)
        requires
            i64::MIN <= ts_norm_secs(old(self).seconds as int, old(self).nanos as int)
                <= i64::MAX,
        ensures
            final(self).seconds == ts_norm_secs(old(self).seconds as int, old(self).nanos as int),
            final(self).nanos == ts_norm_nanos(old(self).seconds as int, old(self).nanos as int),
            timestamp_normalized(final(self).seconds as int, final(self).nanos as int),
    {
        proof {
            lemma_carry_rem(old(self).nanos as int);
            lemma_ts_norm_range(old(self).seconds as int, old(self).nanos as int);
        }
        if self.nanos <= -NANOS_PER_SECOND || self.nanos >= NANOS_PER_SECOND {
            self.seconds = self.seconds + (self.nanos / NANOS_PER_SECOND) as i64;
            self.nanos = self.nanos % NANOS_PER_SECOND;
        }
        if self.nanos < 0 {
            self.seconds = self.seconds - 1;
            self.nanos = self.nanos + NANOS_PER_SECOND;
        }
    }

    /// Assigns an epoch offset into a wire timestamp, field for field.  The
    /// counts come from trusted calendar arithmetic, so no normalization is
    /// applied; a leap-second nanosecond count of a billion or more is
    /// carried through as the calendar reports it.
    pub fn from_epoch_parts(secs: i64, subsec_nanos: u32) -> (ts: Timestamp)
        requires
            subsec_nanos < 2_000_000_000,
        ensures
            ts.seconds == secs,
            ts.nanos == subsec_nanos,
    {
        Timestamp { seconds: secs, nanos: subsec_nanos as i32 }
    }

    /// Builds a wire timestamp from the elapsed time between the epoch and
    /// the point, given as a host duration's whole-second and nanosecond
    /// counts.  The counts pass through the same saturating copy as a wire
    /// duration and are assigned field for field.
    pub fn from_host_parts(secs: u64, nanos: u32) -> (ts: Timestamp)
        requires
            sym_norm_secs(sat_secs_i64(secs), sat_nanos_i32(nanos)) <= i64::MAX,
        ensures
            ts.seconds == sym_norm_secs(sat_secs_i64(secs), sat_nanos_i32(nanos)),
            ts.nanos == sym_norm_nanos(sat_secs_i64(secs), sat_nanos_i32(nanos)),
    {
        let d = Duration::from_host_parts(secs, nanos);
        Timestamp { seconds: d.seconds, nanos: d.nanos }
    }

    /// Normalizes this timestamp and splits it into host parts.  A point at
    /// or after the epoch yields `Ok` with the elapsed whole seconds and
    /// nanoseconds; a point before the epoch yields `Err` carrying how far
    /// it precedes the epoch, as the symmetric normalization of the negated
    /// second count with the same nanoseconds.
    pub fn try_into_parts(self) -> (r: Result<(u64, u32), (u64, u32)>)
        requires
            i64::MIN < ts_norm_secs(self.seconds as int, self.nanos as int) <= i64::MAX,
        ensures
            ({
                let ns = ts_norm_secs(self.seconds as int, self.nanos as int);
                let nn = ts_norm_nanos(self.seconds as int, self.nanos as int);
                if ns >= 0 {
                    r == Ok::<(u64, u32), (u64, u32)>((ns as u64, nn as u32))
                } else {
                    r == Err::<(u64, u32), (u64, u32)>(((-ns) as u64, nn as u32))
                }
            }),
    {
        let mut ts = self;
        ts.normalize();
        if ts.seconds >= 0 {
            Ok((ts.seconds as u64, ts.nanos as u32))
        } else {
            let mut mag = Duration { seconds: -ts.seconds, nanos: ts.nanos };
            proof {
                lemma_sym_norm_fixed(mag.seconds as int, mag.nanos as int);
            }
            mag.normalize();
            Err((mag.seconds as u64, mag.nanos as u32))
        }
    }
}

/// Round trip on the at-or-after-the-epoch domain: a host time point given
/// as a non-negative elapsed duration since the epoch, whose second count
/// fits the signed 64-bit field, converts to wire form and back without
/// loss.  The wire pair built from `(secs, nanos)` is `(secs, nanos)`
/// itself, already canonical under both policies, and splitting it back out
/// yields the same two counts.
pub proof fn lemma_timestamp_round_trip(secs: u64, nanos: u32)
    requires
        secs <= i64::MAX,
        nanos < 1_000_000_000,
    ensures
        sat_secs_i64(secs) == secs as int,
        sat_nanos_i32(nanos) == nanos as int,
        sym_norm_secs(secs as int, nanos as int) == secs as int,
        sym_norm_nanos(secs as int, nanos as int) == nanos as int,
        ts_norm_secs(secs as int, nanos as int) == secs as int,
        ts_norm_nanos(secs as int, nanos as int) == nanos as int,
{
    lemma_sym_norm_fixed(secs as int, nanos as int);
    lemma_ts_norm_fixed(secs as int, nanos as int);
}

} // verus!
