//! The mathematical model of wire-time normalization.
//!
//! A wire value is a pair `(seconds, nanos)`.  Normalization first carries
//! whole seconds out of the nanosecond field (truncating division, so the
//! remainder keeps the sign of `nanos`), then reconciles the signs: under the
//! symmetric policy (durations) `nanos` may not oppose the sign of `seconds`;
//! under the timestamp policy `nanos` is forced non-negative.

use vstd::arithmetic::div_mod::lemma_basic_div;
use vstd::arithmetic::div_mod::lemma_div_pos_is_pos;
use vstd::arithmetic::div_mod::lemma_fundamental_div_mod;
use vstd::arithmetic::div_mod::lemma_mod_bound;
use vstd::arithmetic::div_mod::lemma_multiply_divide_lt;
use vstd::prelude::*;

verus! {

pub const NANOS_PER_SECOND: i32 = 1_000_000_000;

/// Whole seconds carried out of a raw nanosecond count, by division
/// truncating toward zero (the remainder keeps the sign of `n`).
pub open spec fn nanos_carry(n: int) -> int {
    if n >= 0 {
        n / (NANOS_PER_SECOND as int)
    } else {
        -((-n) / (NANOS_PER_SECOND as int))
    }
}

/// The nanoseconds left after carrying whole seconds out of `n`.
pub open spec fn nanos_rem(n: int) -> int {
    n - (NANOS_PER_SECOND as int) * nanos_carry(n)
}

/// Seconds of the pair `(s, n)` normalized under the symmetric sign policy.
pub open spec fn sym_norm_secs(s: int, n: int) -> int {
    let s1 = s + nanos_carry(n);
    let n1 = nanos_rem(n);
    if s1 < 0 && n1 > 0 {
        s1 + 1
    } else if s1 > 0 && n1 < 0 {
        s1 - 1
    } else {
        s1
    }
}

/// Nanoseconds of the pair `(s, n)` normalized under the symmetric sign policy.
pub open spec fn sym_norm_nanos(s: int, n: int) -> int {
    let s1 = s + nanos_carry(n);
    let n1 = nanos_rem(n);
    if s1 < 0 && n1 > 0 {
        n1 - (NANOS_PER_SECOND as int)
    } else if s1 > 0 && n1 < 0 {
        n1 + (NANOS_PER_SECOND as int)
    } else {
        n1
    }
}

/// Seconds of the pair `(s, n)` normalized under the timestamp sign policy.
pub open spec fn ts_norm_secs(s: int, n: int) -> int {
    let s1 = s + nanos_carry(n);
    let n1 = nanos_rem(n);
    if n1 < 0 {
        s1 - 1
    } else {
        s1
    }
}

/// Nanoseconds of the pair `(s, n)` normalized under the timestamp sign policy.
pub open spec fn ts_norm_nanos(s: int, n: int) -> int {
    let n1 = nanos_rem(n);
    if n1 < 0 {
        n1 + (NANOS_PER_SECOND as int)
    } else {
        n1
    }
}

/// A canonical duration pair: `nanos` within one second of zero and not
/// opposing the sign of `seconds`.
pub open spec fn duration_normalized(s: int, n: int) -> bool {
    &&& -999_999_999 <= n <= 999_999_999
    &&& !(s < 0 && n > 0)
    &&& !(s > 0 && n < 0)
}

/// A canonical timestamp pair: `nanos` is a forward offset from the whole
/// second mark, never negative.
pub open spec fn timestamp_normalized(s: int, n: int) -> bool {
    0 <= n <= 999_999_999
}

/// Whether the pair `(s, n)` denotes a non-negative span of time once
/// normalized under the symmetric policy.
pub open spec fn sym_norm_is_nonneg(s: int, n: int) -> bool {
    sym_norm_secs(s, n) > 0 || (sym_norm_secs(s, n) == 0 && sym_norm_nanos(s, n) >= 0)
}

/// A host whole-second count clamped to the largest signed 64-bit value.
pub open spec fn sat_secs_i64(secs: u64) -> int {
    if secs > i64::MAX {
        i64::MAX as int
    } else {
        secs as int
    }
}

/// A host nanosecond count clamped to the largest signed 32-bit value.
pub open spec fn sat_nanos_i32(nanos: u32) -> int {
    if nanos > i32::MAX {
        i32::MAX as int
    } else {
        nanos as int
    }
}

/// Division facts behind the carry step: carry and remainder reconstruct
/// `n`, the remainder stays within one second of zero and keeps the sign of
/// `n`, and a carry out of a 32-bit count is at most two seconds.
pub proof fn lemma_carry_rem(n: int)
    ensures
        n == (NANOS_PER_SECOND as int) * nanos_carry(n) + nanos_rem(n),
        -999_999_999 <= nanos_rem(n) <= 999_999_999,
        n >= 0 ==> nanos_carry(n) >= 0 && nanos_rem(n) >= 0,
        n <= 0 ==> nanos_carry(n) <= 0 && nanos_rem(n) <= 0,
        -1_000_000_000 < n < 1_000_000_000 ==> nanos_carry(n) == 0 && nanos_rem(n) == n,
        i32::MIN <= n <= i32::MAX ==> -2 <= nanos_carry(n) <= 2,
{
    let b = NANOS_PER_SECOND as int;
    if n >= 0 {
        lemma_fundamental_div_mod(n, b);
        lemma_div_pos_is_pos(n, b);
        lemma_mod_bound(n, b);
        assert(nanos_rem(n) == n % b);
        if n < b {
            lemma_basic_div(n, b);
        }
        if n <= i32::MAX {
            assert(n < b * 3) by (nonlinear_arith)
                requires n <= 0x7fff_ffff, b == 1_000_000_000;
            lemma_multiply_divide_lt(n, b, 3);
        }
    } else {
        let m = -n;
        lemma_fundamental_div_mod(m, b);
        lemma_div_pos_is_pos(m, b);
        lemma_mod_bound(m, b);
        assert(nanos_carry(n) == -(m / b));
        assert(nanos_rem(n) == -(m % b));
        if m < b {
            lemma_basic_div(m, b);
        }
        if n >= i32::MIN {
            assert(m < b * 3) by (nonlinear_arith)
                requires m <= 0x8000_0000, b == 1_000_000_000;
            lemma_multiply_divide_lt(m, b, 3);
        }
    }
}

/// Range invariant under the symmetric policy: every pair normalizes to a
/// canonical duration pair, whatever the input.
pub proof fn lemma_sym_norm_range(s: int, n: int)
    ensures
        duration_normalized(sym_norm_secs(s, n), sym_norm_nanos(s, n)),
{
    lemma_carry_rem(n);
}

/// Range invariant under the timestamp policy: every pair normalizes to a
/// pair whose nanoseconds are a non-negative sub-second offset.
pub proof fn lemma_ts_norm_range(s: int, n: int)
    ensures
        timestamp_normalized(ts_norm_secs(s, n), ts_norm_nanos(s, n)),
{
    lemma_carry_rem(n);
}

/// A canonical duration pair is a fixed point of symmetric normalization.
pub proof fn lemma_sym_norm_fixed(s: int, n: int)
    requires
        duration_normalized(s, n),
    ensures
        sym_norm_secs(s, n) == s,
        sym_norm_nanos(s, n) == n,
{
    lemma_carry_rem(n);
}

/// A canonical timestamp pair is a fixed point of timestamp normalization.
pub proof fn lemma_ts_norm_fixed(s: int, n: int)
    requires
        timestamp_normalized(s, n),
    ensures
        ts_norm_secs(s, n) == s,
        ts_norm_nanos(s, n) == n,
{
    lemma_carry_rem(n);
}

/// Normalization idempotence, symmetric policy: normalizing a pair a second
/// time changes nothing.
pub proof fn lemma_sym_norm_idempotent(s: int, n: int)
    ensures
        sym_norm_secs(sym_norm_secs(s, n), sym_norm_nanos(s, n)) == sym_norm_secs(s, n),
        sym_norm_nanos(sym_norm_secs(s, n), sym_norm_nanos(s, n)) == sym_norm_nanos(s, n),
{
    lemma_sym_norm_range(s, n);
    lemma_sym_norm_fixed(sym_norm_secs(s, n), sym_norm_nanos(s, n));
}

/// Normalization idempotence, timestamp policy: normalizing a pair a second
/// time changes nothing.
pub proof fn lemma_ts_norm_idempotent(s: int, n: int)
    ensures
        ts_norm_secs(ts_norm_secs(s, n), ts_norm_nanos(s, n)) == ts_norm_secs(s, n),
        ts_norm_nanos(ts_norm_secs(s, n), ts_norm_nanos(s, n)) == ts_norm_nanos(s, n),
{
    lemma_ts_norm_range(s, n);
    lemma_ts_norm_fixed(ts_norm_secs(s, n), ts_norm_nanos(s, n));
}

} // verus!
