//! A virtual clock with the interface of a monotonic instant.
//!
//! A [`TimeStore`] is a counter of milliseconds that a test sets and advances
//! by hand. A [`FakeClock`] is a snapshot of that counter: it can be compared
//! with other snapshots, measured against them, and offset by a `Duration`.
//! Code that asks a `FakeClock` for the time sees time pass only when the test
//! says so.
//!
//! - [`clock`] holds the two types and what can be done with them.
//! - [`ops`] gives a clock value its operators `+` and `-`.
//! - [`model`] says, as arithmetic on counters, what each operation yields;
//!   the contracts of `clock` and `ops` are written in its terms.
//! - [`laws`] proves what follows for every counter and every duration.
//! - [`duration`] holds what is assumed of `std::time::Duration`.

pub mod clock;
pub mod duration;
pub mod laws;
pub mod model;
pub mod ops;

pub use clock::FakeClock;
pub use clock::TimeStore;
