//! What holds of the clock, whatever the counters and durations.
//!
//! Each law is stated over the functions of [`crate::model`], in which the
//! contracts of [`FakeClock`] are written, and is proved from them.

use crate::clock::FakeClock;
use crate::duration::duration_millis;
use crate::duration::lasts_millis;
use crate::model;
use std::cmp::Ordering;
use std::time::Duration;
use vstd::prelude::*;
use vstd::std_specs::cmp::PartialEqSpec;
use vstd::std_specs::cmp::PartialOrdIs;
use vstd::std_specs::cmp::PartialOrdSpec;
use vstd::std_specs::ops::AddSpec;
use vstd::std_specs::ops::SubSpec;

verus! {

/// A store that is set to `time` reads as `time`, whatever it held before.
pub proof fn set_time_then_time(before: u64, time: u64)
    ensures
        model::set_time(before, time) == time,
{
}

/// A store that is set to `time` and then advanced by `first` reads as
/// `time + first`; advanced once more by `second`, it reads as
/// `time + first + second`. Both hold as far as the counter can hold the sums.
pub proof fn set_time_then_advance_time(before: u64, time: u64, first: u64, second: u64)
    requires
        time + first <= u64::MAX,
    ensures
        model::advance_time(model::set_time(before, time), first) == time + first,
        time + first + second <= u64::MAX ==> model::advance_time(
            model::advance_time(model::set_time(before, time), first) as u64,
            second,
        ) == time + first + second,
{
}

/// Of two clock values, the first taken when the store read `at_earlier` and
/// the second when it read `at_later`, with the store not behind where it was:
/// the time from the first to the second is the difference of the two
/// readings, and each way of asking for it gives just that.
pub proof fn duration_since_is_difference(at_later: u64, at_earlier: u64)
    requires
        at_earlier <= at_later,
    ensures
        model::duration_since(at_later, at_earlier) == at_later - at_earlier,
        model::checked_duration_since(at_later, at_earlier) == Some(at_later - at_earlier),
        model::saturating_duration_since(at_later, at_earlier) == at_later - at_earlier,
{
}

/// Where `earlier` is in truth the later value, the checked difference is
/// `None` and the saturating difference is zero.
pub proof fn duration_since_out_of_order(later: u64, earlier: u64)
    requires
        later < earlier,
    ensures
        model::checked_duration_since(later, earlier) is None,
        model::saturating_duration_since(later, earlier) == 0,
{
}

/// A value offset forward by a duration and then back by the same duration is
/// the value it was, wherever the way forward did not overflow.
pub proof fn checked_add_then_checked_sub(created: u64, duration: Duration)
    requires
        model::checked_add(created, duration) is Some,
    ensures
        model::checked_sub(model::checked_add(created, duration).unwrap(), duration) == Some(
            created,
        ),
{
}

/// A value offset back by a duration and then forward by the same duration is
/// the value it was, wherever the way back did not fall below zero.
pub proof fn checked_sub_then_checked_add(created: u64, duration: Duration)
    requires
        model::checked_sub(created, duration) is Some,
    ensures
        model::checked_add(model::checked_sub(created, duration).unwrap(), duration) == Some(
            created,
        ),
{
}

/// The time from a value to the value that lies a duration after it is the
/// whole milliseconds of that duration, and so is the time from the value that
/// lies the duration before it.
pub proof fn duration_since_an_offset(created: u64, duration: Duration)
    ensures
        model::checked_add(created, duration) matches Some(later) ==> model::duration_since(
            later,
            created,
        ) == duration_millis(duration),
        model::checked_sub(created, duration) matches Some(before) ==> model::duration_since(
            created,
            before,
        ) == duration_millis(duration),
{
}

/// A value offset forward by the time that passed from it to a later value is
/// that later value, and the later value offset back by the same time is the
/// first.
pub proof fn offset_by_duration_since(later: u64, earlier: u64, elapsed: Duration)
    requires
        earlier <= later,
        lasts_millis(elapsed, model::duration_since(later, earlier)),
    ensures
        model::checked_add(earlier, elapsed) == Some(later),
        model::checked_sub(later, elapsed) == Some(earlier),
{
}

/// Where `+` and `-` with a duration are defined, which is where the checked
/// offsets find a value, they yield that value.
pub proof fn operators_are_the_checked_offsets(value: FakeClock, duration: Duration)
    ensures
        value.add_req(duration) <==> model::checked_add(value@, duration) is Some,
        value.sub_req(duration) <==> model::checked_sub(value@, duration) is Some,
        value.add_req(duration) ==> model::checked_add(value@, duration) == Some(
            value.add_spec(duration)@,
        ),
        value.sub_req(duration) ==> model::checked_sub(value@, duration) == Some(
            value.sub_spec(duration)@,
        ),
{
    if value.add_req(duration) {
        FakeClock::lemma_at_holds_counter(model::checked_add(value@, duration).unwrap());
    }
    if value.sub_req(duration) {
        FakeClock::lemma_at_holds_counter(model::checked_sub(value@, duration).unwrap());
    }
}

/// A value at `u64::MAX` cannot be offset forward by a millisecond or more,
/// nor a value at zero back by a millisecond or more; by less than a
/// millisecond either stays where it is.
pub proof fn checked_offsets_at_the_bounds(duration: Duration)
    ensures
        duration_millis(duration) >= 1 ==> model::checked_add(u64::MAX, duration) is None,
        duration_millis(duration) >= 1 ==> model::checked_sub(0, duration) is None,
        duration_millis(duration) == 0 ==> model::checked_add(u64::MAX, duration) == Some(
            u64::MAX,
        ),
        duration_millis(duration) == 0 ==> model::checked_sub(0, duration) == Some(0u64),
{
}

/// Clock values are ordered as the counters that they hold, and equal when
/// the counters are: `a < b` exactly when the counter of `a` is less than that
/// of `b`, and so for `<=`, `>`, `>=` and `==`.
pub proof fn order_follows_counter(a: FakeClock, b: FakeClock)
    ensures
        a.is_lt(&b) <==> a@ < b@,
        a.is_le(&b) <==> a@ <= b@,
        a.is_gt(&b) <==> a@ > b@,
        a.is_ge(&b) <==> a@ >= b@,
        a.eq_spec(&b) <==> a@ == b@,
{
}

/// The order of clock values is total: any two values compare, exactly one of
/// less, equal and greater holds of them, two values that are each no later
/// than the other are the same value, and a value no later than a second that
/// is no later than a third is no later than the third.
pub proof fn order_is_total(a: FakeClock, b: FakeClock, c: FakeClock)
    ensures
        a.partial_cmp_spec(&b) is Some,
        a.partial_cmp_spec(&b) == Some(Ordering::Equal) <==> a.eq_spec(&b),
        a.is_lt(&b) <==> b.is_gt(&a),
        a.is_le(&b) || b.is_le(&a),
        a.is_le(&b) && b.is_le(&a) ==> a == b,
        a.is_le(&b) && b.is_le(&c) ==> a.is_le(&c),
{
    FakeClock::lemma_counter_is_value(a, b);
}

} // verus!
