//! Canonicalization and conversion for wire-format time values.
//!
//! Protocol-buffer style messages carry elapsed times and absolute times as a
//! pair of integers: a signed whole-second count and a signed nanosecond
//! count.  Such a pair arrives untrusted and possibly un-normalized, so every
//! conversion out of the wire form first folds it into a canonical range.
//! This crate holds the two wire value types, the normalization algorithm for
//! both sign policies, and the conversions to and from the host platform's
//! time types.

mod duration;
mod host;
mod norm;
mod timestamp;

pub use duration::Duration;
pub use duration::lemma_duration_round_trip;
pub use host::TimestampHostError;
pub use host::host_duration_of;
pub use host::host_elapsed_of;
pub use host::host_secs_of;
pub use host::host_subsec_nanos_of;
pub use norm::duration_normalized;
pub use norm::lemma_sym_norm_fixed;
pub use norm::lemma_sym_norm_idempotent;
pub use norm::lemma_sym_norm_range;
pub use norm::lemma_ts_norm_fixed;
pub use norm::lemma_ts_norm_idempotent;
pub use norm::lemma_ts_norm_range;
pub use norm::nanos_carry;
pub use norm::nanos_rem;
pub use norm::sat_nanos_i32;
pub use norm::sat_secs_i64;
pub use norm::sym_norm_is_nonneg;
pub use norm::sym_norm_nanos;
pub use norm::sym_norm_secs;
pub use norm::timestamp_normalized;
pub use norm::ts_norm_nanos;
pub use norm::ts_norm_secs;
pub use timestamp::Timestamp;
pub use timestamp::lemma_timestamp_round_trip;
