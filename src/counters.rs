use vstd::prelude::*;

use crate::decimal::{decimal, push_decimal, push_signed_decimal, signed_decimal};

verus! {

/// Why a lock-guarded counter could not be used.
#[derive(Debug, Clone, Copy, PartialEq, Eq, Structural)]
pub enum LockError {
    /// An earlier holder of the lock stopped while holding it.
    Poisoned,
}

/// The text that reports the exclusive counter's value.
pub open spec fn request_number_text(n: int) -> Seq<char> {
    "Request number: "@ + signed_decimal(n)
}

/// The text that reports a per-worker counter's value.
pub open spec fn count_text(n: nat) -> Seq<char> {
    "count: "@ + decimal(n)
}

/// The text that reports the global count beside a worker's local count.
pub open spec fn counts_text(global: nat, local: nat) -> Seq<char> {
    "global_count: "@ + decimal(global) + "\nlocal_count: "@ + decimal(local)
}

/// A counter that all workers share, used only while its lock is held.
pub struct ExclusiveCounter {
    count: i32,
}

impl View for ExclusiveCounter {
    type V = int;

    closed spec fn view(&self) -> int {
        self.count as int
    }
}

impl ExclusiveCounter {
    pub fn new() -> (r: ExclusiveCounter)
        ensures
            r@ == 0,
    {
        ExclusiveCounter { count: 0 }
    }

    pub fn value(&self) -> (r: i32)
        ensures
            r == self@,
    {
        self.count
    }

    /// Adds one and returns the new value.
    pub fn increment_exclusive(&mut self) -> (r: i32)
        requires
            old(self)@ < i32::MAX,
        ensures
            final(self)@ == old(self)@ + 1,
            r == final(self)@,
    {
        self.count = self.count + 1;
        self.count
    }

    /// Renders the value as `Request number: {value}`.
    pub fn report(&self) -> (r: String)
        ensures
            r@ == request_number_text(self@),
    {
        let mut s = String::from_str("Request number: ");
        push_signed_decimal(&mut s, self.count as i64);
        s
    }
}

/// Handles one request on the exclusive counter, given the counter as found
/// under its lock and whether that lock was poisoned: a poisoned lock is an
/// error and leaves the counter as it is; otherwise the counter gains one and
/// the new value is reported.
pub fn index_mutable_state(counter: &mut ExclusiveCounter, poisoned: bool) -> (r: Result<String, LockError>)
    requires
        !poisoned ==> old(counter)@ < i32::MAX,
    ensures
        poisoned ==> r == Err::<String, LockError>(LockError::Poisoned),
        poisoned ==> *final(counter) == *old(counter),
        !poisoned ==> final(counter)@ == old(counter)@ + 1,
        !poisoned ==> r is Ok && r->Ok_0@ == request_number_text(final(counter)@),
{
    if poisoned {
        return Err(LockError::Poisoned);
    }
    counter.increment_exclusive();
    Ok(counter.report())
}

/// A counter owned by one worker, never seen by another.
#[derive(Clone, Copy)]
pub struct WorkerCounter {
    count: usize,
}

impl View for WorkerCounter {
    type V = nat;

    closed spec fn view(&self) -> nat {
        self.count as nat
    }
}

impl WorkerCounter {
    pub fn new() -> (r: WorkerCounter)
        ensures
            r@ == 0,
    {
        WorkerCounter { count: 0 }
    }

    pub fn value(&self) -> (r: usize)
        ensures
            r == self@,
    {
        self.count
    }

    /// Reads the value, stores it plus one, and returns the new value.
    pub fn read_and_increment_local(&mut self) -> (r: usize)
        requires
            old(self)@ < usize::MAX,
        ensures
            final(self)@ == old(self)@ + 1,
            r == final(self)@,
    {
        let count = self.count;
        self.count = count + 1;
        self.count
    }
}

/// Renders a worker's counter as `count: {value}`.
pub fn show_count(counter: &WorkerCounter) -> (r: String)
    ensures
        r@ == count_text(counter@),
{
    let mut s = String::from_str("count: ");
    push_decimal(&mut s, counter.value() as u64);
    s
}

/// Adds one to a worker's counter and renders the new value.
pub fn add_one(counter: &mut WorkerCounter) -> (r: String)
    requires
        old(counter)@ < usize::MAX,
    ensures
        final(counter)@ == old(counter)@ + 1,
        r@ == count_text(final(counter)@),
{
    counter.read_and_increment_local();
    show_count(counter)
}

/// Renders the global count and a worker's local count, one per line.
pub fn show_count_clone(global: usize, local: &WorkerCounter) -> (r: String)
    ensures
        r@ == counts_text(global as nat, local@),
{
    let mut s = String::from_str("global_count: ");
    push_decimal(&mut s, global as u64);
    s.append("\nlocal_count: ");
    push_decimal(&mut s, local.value() as u64);
    s
}

/// Adds one to a worker's local count and renders it beside `global`, the
/// global count as read after this request's own increment of it.
pub fn add_one_clone(global: usize, local: &mut WorkerCounter) -> (r: String)
    requires
        old(local)@ < usize::MAX,
    ensures
        final(local)@ == old(local)@ + 1,
        r@ == counts_text(global as nat, final(local)@),
{
    local.read_and_increment_local();
    show_count_clone(global, local)
}

/// The total of the counter that all workers share without a lock, as seen
/// once every increment before it has taken effect.
pub struct GlobalCounter {
    count: usize,
}

impl View for GlobalCounter {
    type V = nat;

    closed spec fn view(&self) -> nat {
        self.count as nat
    }
}

impl GlobalCounter {
    pub fn new() -> (r: GlobalCounter)
        ensures
            r@ == 0,
    {
        GlobalCounter { count: 0 }
    }

    pub fn value(&self) -> (r: usize)
        ensures
            r == self@,
    {
        self.count
    }

    /// Adds one and returns the new total.
    pub fn increment_global(&mut self) -> (r: usize)
        requires
            old(self)@ < usize::MAX,
        ensures
            final(self)@ == old(self)@ + 1,
            r == final(self)@,
    {
        self.count = self.count + 1;
        self.count
    }
}

} // verus!
