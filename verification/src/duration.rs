//! The wire duration type: a signed span of time, possibly negative.

use crate::norm::NANOS_PER_SECOND;
use crate::norm::duration_normalized;
use crate::norm::lemma_carry_rem;
use crate::norm::lemma_sym_norm_fixed;
use crate::norm::lemma_sym_norm_range;
use crate::norm::sat_nanos_i32;
use crate::norm::sat_secs_i64;
use crate::norm::sym_norm_is_nonneg;
use crate::norm::sym_norm_nanos;
use crate::norm::sym_norm_secs;
use vstd::prelude::*;

verus! {

/// An elapsed time interval on the wire: whole seconds plus nanoseconds,
/// each signed.  A value read off the wire may be un-normalized; every
/// conversion out normalizes it first.
#[derive(Clone, Copy, Debug, PartialEq, Eq, Structural)]
pub struct Duration {
    pub seconds: i64,
    pub nanos: i32,
}

impl Duration {
    /// Folds the pair into canonical form: nanoseconds within one second of
    /// zero and never opposing the sign of the seconds.  The caller keeps the
    /// canonical second count inside the 64-bit range; no other bound is put
    /// on the span.
    pub fn normalize(&mut self)
        requires
            i64::MIN <= sym_norm_secs(old(self).seconds as int, old(self).nanos as int)
                <= i64::MAX,
        ensures
            final(self).seconds == sym_norm_secs(old(self).seconds as int, old(self).nanos as int),
            final(self).nanos == sym_norm_nanos(old(self).seconds as int, old(self).nanos as int),
            duration_normalized(final(self).seconds as int, final(self).nanos as int),
    {
        proof {
            lemma_carry_rem(old(self).nanos as int);
            lemma_sym_norm_range(old(self).seconds as int, old(self).nanos as int);
        }
        if self.nanos <= -NANOS_PER_SECOND || self.nanos >= NANOS_PER_SECOND {
            self.seconds = self.seconds + (self.nanos / NANOS_PER_SECOND) as i64;
            self.nanos = self.nanos % NANOS_PER_SECOND;
        }
        if self.seconds < 0 && self.nanos > 0 {
            self.seconds = self.seconds + 1;
            self.nanos = self.nanos - NANOS_PER_SECOND;
        } else if self.seconds > 0 && self.nanos < 0 {
            self.seconds = self.seconds - 1;
            self.nanos = self.nanos + NANOS_PER_SECOND;
        }
    }

    /// Builds a wire duration from a host duration's whole-second and
    /// nanosecond counts, clamping each to the largest value its signed
    /// field can hold, then normalizing.  The clamp makes the conversion
    /// total rather than failing; the caller keeps the canonical second
    /// count inside the 64-bit range.
    pub fn from_host_parts(secs: u64, nanos: u32) -> (d: Duration)
        requires
            sym_norm_secs(sat_secs_i64(secs), sat_nanos_i32(nanos)) <= i64::MAX,
        ensures
            d.seconds == sym_norm_secs(sat_secs_i64(secs), sat_nanos_i32(nanos)),
            d.nanos == sym_norm_nanos(sat_secs_i64(secs), sat_nanos_i32(nanos)),
    {
        let seconds: i64 = if secs > i64::MAX as u64 {
            i64::MAX
        } else {
            secs as i64
        };
        let nanos: i32 = if nanos > i32::MAX as u32 {
            i32::MAX
        } else {
            nanos as i32
        };
        let mut d = Duration { seconds, nanos };
        proof {
            lemma_carry_rem(nanos as int);
        }
        d.normalize();
        d
    }

    /// Normalizes this duration and splits it into host duration parts.
    /// A non-negative span yields `Ok` with its whole seconds and
    /// nanoseconds; a negative span cannot live in a non-negative host
    /// duration, so it yields `Err` carrying the magnitude of the span in
    /// the same two counts.
    pub fn try_into_parts(self) -> (r: Result<(u64, u32), (u64, u32)>)
        requires
            i64::MIN <= sym_norm_secs(self.seconds as int, self.nanos as int) <= i64::MAX,
        ensures
            ({
                let ns = sym_norm_secs(self.seconds as int, self.nanos as int);
                let nn = sym_norm_nanos(self.seconds as int, self.nanos as int);
                if sym_norm_is_nonneg(self.seconds as int, self.nanos as int) {
                    r == Ok::<(u64, u32), (u64, u32)>((ns as u64, nn as u32))
                } else {
                    r == Err::<(u64, u32), (u64, u32)>(((-ns) as u64, (-nn) as u32))
                }
            }),
    {
        let mut d = self;
        d.normalize();
        if d.seconds > 0 || (d.seconds == 0 && d.nanos >= 0) {
            Ok((d.seconds as u64, d.nanos as u32))
        } else {
            let mag_secs: u64 = if d.seconds < 0 {
                ((-(d.seconds + 1)) as u64) + 1
            } else {
                0
            };
            let mag_nanos: u32 = (-d.nanos) as u32;
            Err((mag_secs, mag_nanos))
        }
    }
}

/// Round trip on the non-negative domain: a host duration whose second
/// count fits the signed 64-bit field converts to wire form and back
/// without loss.  The wire pair built from `(secs, nanos)` is `(secs,
/// nanos)` itself, already canonical, and splitting it back out yields the
/// same two counts.
pub proof fn lemma_duration_round_trip(secs: u64, nanos: u32)
    requires
        secs <= i64::MAX,
        nanos < 1_000_000_000,
    ensures
        sat_secs_i64(secs) == secs as int,
        sat_nanos_i32(nanos) == nanos as int,
        sym_norm_secs(secs as int, nanos as int) == secs as int,
        sym_norm_nanos(secs as int, nanos as int) == nanos as int,
        sym_norm_is_nonneg(secs as int, nanos as int),
{
    lemma_sym_norm_fixed(secs as int, nanos as int);
}

} // verus!
