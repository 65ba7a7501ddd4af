//! Counters shared by the workers of a request-serving process, in three
//! strategies: one counter behind a lock, one counter per worker, and a
//! per-worker count paired with a process-wide count kept without a lock.
//! `model` states what a sequence of requests does to them and proves that no
//! increment is lost and that workers do not see each other's counters.
use vstd::prelude::*;

pub mod counters;
pub mod decimal;
pub mod model;
pub mod process;

verus! {

} // verus!
