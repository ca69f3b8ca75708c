//! What this crate assumes of `std::time::Duration`.
//!
//! A `Duration` is opaque to the verifier. Its length is given a name,
//! [`duration_nanos`], and the two conversions that the clock uses are
//! specified over that name. Nothing in this file is proved.

use std::time::Duration;
use vstd::prelude::*;

verus! {

/// Nanoseconds in one millisecond.
pub const NANOS_PER_MILLI: u64 = 1_000_000;

/// The length of a `Duration`, in nanoseconds.
pub uninterp spec fn duration_nanos(d: Duration) -> nat;

/// The whole milliseconds contained in a `Duration`. What is left of a
/// millisecond is dropped.
pub open spec fn duration_millis(d: Duration) -> nat {
    duration_nanos(d) / (NANOS_PER_MILLI as nat)
}

/// Whether a `Duration` lasts `millis` milliseconds, no more and no less.
pub open spec fn lasts_millis(d: Duration, millis: int) -> bool {
    duration_nanos(d) == millis * NANOS_PER_MILLI
}

/// `Duration::from_millis` returns the duration that lasts `millis`
/// milliseconds exactly.
pub assume_specification[ Duration::from_millis ](millis: u64) -> (d: Duration)
    ensures
        duration_nanos(d) == millis * NANOS_PER_MILLI,
;

/// `Duration::as_millis` returns the number of whole milliseconds that the
/// duration contains, rounding down.
pub assume_specification[ Duration::as_millis ](d: &Duration) -> (millis: u128)
    ensures
        millis == duration_nanos(*d) / (NANOS_PER_MILLI as nat),
;

} // verus!
