//! The clock as arithmetic on counters of milliseconds.
//!
//! To a specification a time store is the `u64` that its counter holds, and a
//! clock value is the `u64` that the counter held when the value was taken: a
//! read of the store returns the first, and a value taken from the store holds
//! it as the second. The functions of this module say what each operation of
//! the clock makes of these counters. Spans of time are whole milliseconds.

use crate::duration::duration_millis;
use std::time::Duration;
use vstd::prelude::*;

verus! {

/// The counter of a store after it is set to `time`: `time`, whatever the
/// store held before.
pub open spec fn set_time(counter: u64, time: u64) -> u64 {
    time
}

/// The counter of a store after it is advanced by `millis`. The store can
/// hold it only if it is no more than `u64::MAX`.
pub open spec fn advance_time(counter: u64, millis: u64) -> int {
    counter + millis
}

/// The milliseconds from the clock value `earlier` to the clock value
/// `later`. It is negative when `earlier` is in truth the later one.
pub open spec fn duration_since(later: u64, earlier: u64) -> int {
    later - earlier
}

/// The milliseconds from `earlier` to `later`, or `None` when `earlier` is in
/// truth the later one.
pub open spec fn checked_duration_since(later: u64, earlier: u64) -> Option<int> {
    if earlier <= later {
        Some(duration_since(later, earlier))
    } else {
        None
    }
}

/// The milliseconds from `earlier` to `later`, or zero when `earlier` is in
/// truth the later one.
pub open spec fn saturating_duration_since(later: u64, earlier: u64) -> int {
    if earlier <= later {
        duration_since(later, earlier)
    } else {
        0
    }
}

/// The clock value that lies the whole milliseconds of `duration` after
/// `created`, or `None` when a `u64` cannot hold it.
pub open spec fn checked_add(created: u64, duration: Duration) -> Option<u64> {
    if created + duration_millis(duration) <= u64::MAX {
        Some((created + duration_millis(duration)) as u64)
    } else {
        None
    }
}

/// The clock value that lies the whole milliseconds of `duration` before
/// `created`, or `None` when it would lie before zero.
pub open spec fn checked_sub(created: u64, duration: Duration) -> Option<u64> {
    if duration_millis(duration) <= created {
        Some((created - duration_millis(duration)) as u64)
    } else {
        None
    }
}

} // verus!
