//! The operators of a clock value: `+` and `-` with a `Duration`, and `-`
//! between two values.
//!
//! Each operator takes for granted what its checked counterpart tests, and
//! states that as its precondition. A caller that is not held to it by
//! verification and breaks it gets a panic, never a result that has wrapped
//! around.

use crate::clock::FakeClock;
use crate::duration::lasts_millis;
use crate::model;
use std::ops::Add;
use std::ops::Sub;
use std::time::Duration;
use vstd::prelude::*;

verus! {

impl vstd::std_specs::ops::AddSpecImpl<Duration> for FakeClock {
    open spec fn obeys_add_spec() -> bool {
        true
    }

    /// The sum must be a value that [`FakeClock::checked_add`] would return.
    open spec fn add_req(self, rhs: Duration) -> bool {
        model::checked_add(self@, rhs) is Some
    }

    /// The value that holds the counter of the sum.
    open spec fn add_spec(self, rhs: Duration) -> FakeClock {
        FakeClock::at(model::checked_add(self@, rhs).unwrap())
    }
}

impl Add<Duration> for FakeClock {
    type Output = FakeClock;

    /// Returns the value that lies the whole milliseconds of `rhs` after
    /// `self`.
    fn add(self, rhs: Duration) -> (later: FakeClock)
        ensures
            model::checked_add(self@, rhs) == Some(later@),
    {
        let later = self.checked_add(rhs).expect("the clock value overflowed");
        proof {
            FakeClock::lemma_counter_is_value(later, later);
        }
        later
    }
}

impl vstd::std_specs::ops::SubSpecImpl<Duration> for FakeClock {
    open spec fn obeys_sub_spec() -> bool {
        true
    }

    /// The difference must be a value that [`FakeClock::checked_sub`] would
    /// return.
    open spec fn sub_req(self, rhs: Duration) -> bool {
        model::checked_sub(self@, rhs) is Some
    }

    /// The value that holds the counter of the difference.
    open spec fn sub_spec(self, rhs: Duration) -> FakeClock {
        FakeClock::at(model::checked_sub(self@, rhs).unwrap())
    }
}

impl Sub<Duration> for FakeClock {
    type Output = FakeClock;

    /// Returns the value that lies the whole milliseconds of `rhs` before
    /// `self`.
    fn sub(self, rhs: Duration) -> (before: FakeClock)
        ensures
            model::checked_sub(self@, rhs) == Some(before@),
    {
        let before = self.checked_sub(rhs).expect("the clock value fell below zero");
        proof {
            FakeClock::lemma_counter_is_value(before, before);
        }
        before
    }
}

impl vstd::std_specs::ops::SubSpecImpl<FakeClock> for FakeClock {
    /// A `Duration` is opaque to the verifier, so no result can be named in a
    /// specification: what `-` returns is stated by the `ensures` of `sub`.
    open spec fn obeys_sub_spec() -> bool {
        false
    }

    /// `rhs` must not be the later of the two values.
    open spec fn sub_req(self, rhs: FakeClock) -> bool {
        rhs@ <= self@
    }

    /// Some duration that is as long as the time from `rhs` to `self`.
    open spec fn sub_spec(self, rhs: FakeClock) -> Duration {
        choose|elapsed: Duration| lasts_millis(elapsed, model::duration_since(self@, rhs@))
    }
}

impl Sub<FakeClock> for FakeClock {
    type Output = Duration;

    /// Returns the time that passed from `rhs` to `self`, as
    /// [`FakeClock::duration_since`] does.
    fn sub(self, rhs: FakeClock) -> (elapsed: Duration)
        ensures
            lasts_millis(elapsed, model::duration_since(self@, rhs@)),
    {
        self.duration_since(rhs)
    }
}

} // verus!
