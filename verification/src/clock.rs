//! The time store and the clock values taken from it.

use crate::duration::lasts_millis;
use crate::model;
use std::cmp::Ordering;
use std::time::Duration;
use vstd::prelude::*;
use vstd::std_specs::cmp::PartialEqSpecImpl;
use vstd::std_specs::cmp::PartialOrdSpecImpl;

verus! {

/// A counter of elapsed milliseconds, owned by one scope of execution.
///
/// The counter starts at zero and changes only when it is set or advanced. It
/// may be set to any value, an earlier one too: a test must be able to turn
/// the clock back.
#[derive(Debug)]
pub struct TimeStore {
    current_millis: u64,
}

impl View for TimeStore {
    type V = u64;

    /// What the counter holds, in milliseconds.
    closed spec fn view(&self) -> u64 {
        self.current_millis
    }
}

impl TimeStore {
    /// A store whose counter stands at zero.
    pub fn new() -> (store: TimeStore)
        ensures
            store@ == 0,
    {
        TimeStore { current_millis: 0 }
    }
}

impl Default for TimeStore {
    /// A store whose counter stands at zero.
    fn default() -> (store: TimeStore)
        ensures
            store@ == 0,
    {
        TimeStore::new()
    }
}

/// An instant of virtual time: what the counter of a time store held when the
/// value was taken.
///
/// A value never changes once it is taken. Two values are equal, and ordered,
/// as the counters that they hold.
#[derive(Copy, Clone, Debug, Eq, Ord, Hash)]
pub struct FakeClock {
    time_created: u64,
}

impl View for FakeClock {
    type V = u64;

    /// The counter that the value holds, in milliseconds.
    closed spec fn view(&self) -> u64 {
        self.time_created
    }
}

impl FakeClock {
    /// Sets the counter of `store` to `time`.
    pub fn set_time(store: &mut TimeStore, time: u64)
        ensures
            final(store)@ == model::set_time(old(store)@, time),
    {
        store.current_millis = time;
    }

    /// Advances the counter of `store` by `millis` milliseconds.
    ///
    /// The counter must be able to hold the sum. A caller that is not held to
    /// this by verification and breaks it gets a panic, never a counter that
    /// has wrapped around.
    pub fn advance_time(store: &mut TimeStore, millis: u64)
        requires
            model::advance_time(old(store)@, millis) <= u64::MAX,
        ensures
            final(store)@ == model::advance_time(old(store)@, millis),
    {
        store.current_millis = store.current_millis.checked_add(millis).expect(
            "the time store's counter overflowed",
        );
    }

    /// Returns what the counter of `store` holds.
    pub fn time(store: &TimeStore) -> (millis: u64)
        ensures
            millis == store@,
    {
        store.current_millis
    }

    /// Takes the value of the present instant from `store`.
    pub fn now(store: &TimeStore) -> (instant: FakeClock)
        ensures
            instant@ == store@,
    {
        FakeClock { time_created: Self::time(store) }
    }

    /// Returns the time that passed from `earlier` to `self`.
    ///
    /// `earlier` must not be the later of the two: this is the path for
    /// callers that know the order of their values. A caller that is not held
    /// to this by verification and breaks it gets a panic, never a duration
    /// that has wrapped around. Where the order is not known, use
    /// [`FakeClock::checked_duration_since`] or
    /// [`FakeClock::saturating_duration_since`].
    pub fn duration_since(self, earlier: FakeClock) -> (elapsed: Duration)
        requires
            earlier@ <= self@,
        ensures
            lasts_millis(elapsed, model::duration_since(self@, earlier@)),
    {
        self.checked_duration_since(earlier).expect(
            "the earlier clock value is later than this one",
        )
    }

    /// Returns the time that passed from `earlier` to `self`, or `None` when
    /// `earlier` is the later of the two.
    pub fn checked_duration_since(self, earlier: FakeClock) -> (elapsed: Option<Duration>)
        ensures
            match elapsed {
                Some(d) => model::checked_duration_since(self@, earlier@) matches Some(millis)
                    && lasts_millis(d, millis),
                None => model::checked_duration_since(self@, earlier@) is None,
            },
    {
        match self.time_created.checked_sub(earlier.time_created) {
            Some(millis) => Some(Duration::from_millis(millis)),
            None => None,
        }
    }

    /// Returns the time that passed from `earlier` to `self`, or a duration of
    /// zero when `earlier` is the later of the two.
    pub fn saturating_duration_since(self, earlier: FakeClock) -> (elapsed: Duration)
        ensures
            lasts_millis(elapsed, model::saturating_duration_since(self@, earlier@)),
    {
        Duration::from_millis(self.time_created.saturating_sub(earlier.time_created))
    }

    /// Returns the time that passed from `self` to the present instant of
    /// `store`: what [`FakeClock::duration_since`] returns for the value of
    /// that instant and `self`.
    ///
    /// The counter of `store` must not stand before `self`.
    pub fn elapsed(self, store: &TimeStore) -> (elapsed: Duration)
        requires
            self@ <= store@,
        ensures
            lasts_millis(elapsed, model::duration_since(store@, self@)),
    {
        Self::now(store).duration_since(self)
    }

    /// Returns the value that lies the whole milliseconds of `duration` after
    /// `self`, or `None` when its counter would pass `u64::MAX`.
    pub fn checked_add(&self, duration: Duration) -> (later: Option<FakeClock>)
        ensures
            match later {
                Some(instant) => model::checked_add(self@, duration) == Some(instant@),
                None => model::checked_add(self@, duration) is None,
            },
    {
        match duration.as_millis().checked_add(u128::from(self.time_created)) {
            Some(sum) => match u64::try_from(sum) {
                Ok(time) => Some(FakeClock { time_created: time }),
                Err(_) => None,
            },
            None => None,
        }
    }

    /// Returns the value that lies the whole milliseconds of `duration` before
    /// `self`, or `None` when its counter would fall below zero.
    pub fn checked_sub(&self, duration: Duration) -> (before: Option<FakeClock>)
        ensures
            match before {
                Some(instant) => model::checked_sub(self@, duration) == Some(instant@),
                None => model::checked_sub(self@, duration) is None,
            },
    {
        match u64::try_from(duration.as_millis()) {
            Ok(millis) => match self.time_created.checked_sub(millis) {
                Some(time) => Some(FakeClock { time_created: time }),
                None => None,
            },
            Err(_) => None,
        }
    }
}

impl FakeClock {
    /// The value that holds `counter`.
    pub closed spec fn at(counter: u64) -> FakeClock {
        FakeClock { time_created: counter }
    }

    /// There is a value for every counter: `FakeClock::at(counter)` holds
    /// `counter`.
    pub proof fn lemma_at_holds_counter(counter: u64)
        ensures
            FakeClock::at(counter)@ == counter,
    {
    }

    /// A value is the counter that it holds and nothing more: two values that
    /// hold the same counter are the same value.
    pub proof fn lemma_counter_is_value(a: FakeClock, b: FakeClock)
        ensures
            (a@ == b@) <==> (a == b),
            FakeClock::at(a@) == a,
    {
    }
}

impl PartialEq for FakeClock {
    fn eq(&self, other: &FakeClock) -> (equal: bool) {
        self.time_created == other.time_created
    }
}

impl PartialEqSpecImpl for FakeClock {
    open spec fn obeys_eq_spec() -> bool {
        true
    }

    /// Two values are equal when they hold the same counter.
    open spec fn eq_spec(&self, other: &FakeClock) -> bool {
        self@ == other@
    }
}

impl PartialOrd for FakeClock {
    fn partial_cmp(&self, other: &FakeClock) -> (order: Option<Ordering>) {
        if self.time_created < other.time_created {
            Some(Ordering::Less)
        } else if self.time_created > other.time_created {
            Some(Ordering::Greater)
        } else {
            Some(Ordering::Equal)
        }
    }
}

impl PartialOrdSpecImpl for FakeClock {
    open spec fn obeys_partial_cmp_spec() -> bool {
        true
    }

    /// Two values are ordered as the counters that they hold.
    open spec fn partial_cmp_spec(&self, other: &FakeClock) -> Option<Ordering> {
        if self@ < other@ {
            Some(Ordering::Less)
        } else if self@ > other@ {
            Some(Ordering::Greater)
        } else {
            Some(Ordering::Equal)
        }
    }
}

} // verus!
