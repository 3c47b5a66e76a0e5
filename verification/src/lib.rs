//! A thread-parking primitive, as verified state transitions.
//!
//! The crate holds the decisions of a park/unpark protocol: which native
//! wait facility a process binds to ([`backend`]), how the word behind a
//! waiter's key moves through a parking cycle, what a parked thread does
//! next after every return of its native wait, and what an unparking
//! thread owes the waiter after it has marked it ([`parker`], [`timeout`]).
//! Blocking itself is left to the caller: every operation here is one
//! atomic transition on plain values. What these transitions guarantee
//! when two threads and the facility interleave in any order is proved in
//! [`cycle`].
//!
//! [`bench`] serves the charts of the lock benchmarks.

pub mod backend;
pub mod parker;
pub mod cycle;
pub mod timeout;
pub mod bench;
