use vstd::prelude::*;

use crate::counters::{show_count, show_count_clone, ExclusiveCounter, GlobalCounter, WorkerCounter};
use crate::model::{fits, initial_state, names_worker, response, step, CounterState, Op, Request};

verus! {

/// The counters of a process with a fixed number of workers, with each
/// request handled to completion before the next.
pub struct Counters {
    exclusive: ExclusiveCounter,
    global: GlobalCounter,
    counts: Vec<WorkerCounter>,
    locals: Vec<WorkerCounter>,
}

impl View for Counters {
    type V = CounterState;

    closed spec fn view(&self) -> CounterState {
        CounterState {
            exclusive: self.exclusive@,
            global: self.global@ as int,
            counts: self.counts@.map_values(|c: WorkerCounter| c@ as int),
            locals: self.locals@.map_values(|c: WorkerCounter| c@ as int),
        }
    }
}

impl Counters {
    /// Counters for `workers` workers, all zero.
    pub fn new(workers: usize) -> (r: Counters)
        ensures
            r@ == initial_state(workers as nat),
    {
        let mut counts: Vec<WorkerCounter> = Vec::new();
        let mut locals: Vec<WorkerCounter> = Vec::new();
        let mut i: usize = 0;
        while i < workers
            invariant
                i <= workers,
                counts@.len() == i,
                locals@.len() == i,
                forall|j: int| 0 <= j < i ==> #[trigger] counts@[j]@ == 0,
                forall|j: int| 0 <= j < i ==> #[trigger] locals@[j]@ == 0,
            decreases workers - i,
        {
            counts.push(WorkerCounter::new());
            locals.push(WorkerCounter::new());
            i = i + 1;
        }
        let r = Counters {
            exclusive: ExclusiveCounter::new(),
            global: GlobalCounter::new(),
            counts,
            locals,
        };
        assert(r@.counts =~= initial_state(workers as nat).counts);
        assert(r@.locals =~= initial_state(workers as nat).locals);
        r
    }

    /// The number of workers.
    pub fn workers(&self) -> (r: usize)
        ensures
            r == self@.counts.len(),
    {
        self.counts.len()
    }

    /// The exclusive counter's value.
    pub fn read_exclusive(&self) -> (r: i32)
        ensures
            r == self@.exclusive,
    {
        self.exclusive.value()
    }

    /// The global count and worker `worker`'s local count.
    pub fn read_counts(&self, worker: usize) -> (r: (usize, usize))
        requires
            worker < self@.locals.len(),
        ensures
            r.0 == self@.global,
            r.1 == self@.locals[worker as int],
    {
        (self.global.value(), self.locals[worker].value())
    }

    /// Worker `worker`'s own counter.
    pub fn read_local(&self, worker: usize) -> (r: usize)
        requires
            worker < self@.counts.len(),
        ensures
            r == self@.counts[worker as int],
    {
        self.counts[worker].value()
    }

    /// Adds one to the exclusive counter and returns its new value.
    pub fn increment_exclusive(&mut self) -> (r: i32)
        requires
            old(self)@.exclusive < i32::MAX,
        ensures
            final(self)@ == (CounterState { exclusive: old(self)@.exclusive + 1, ..old(self)@ }),
            r == final(self)@.exclusive,
    {
        self.exclusive.increment_exclusive()
    }

    /// Adds one to worker `worker`'s own counter and returns its new value.
    pub fn read_and_increment_local(&mut self, worker: usize) -> (r: usize)
        requires
            worker < old(self)@.counts.len(),
            old(self)@.counts[worker as int] < usize::MAX,
        ensures
            final(self)@ == step(old(self)@, Request { worker, op: Op::AddOne }),
            r == final(self)@.counts[worker as int],
    {
        let mut c = self.counts[worker];
        let r = c.read_and_increment_local();
        self.counts.set(worker, c);
        assert(self@.counts =~= step(old(self)@, Request { worker, op: Op::AddOne }).counts);
        r
    }

    /// Adds one to the global count and to worker `worker`'s local count, and
    /// returns both new values, global first.
    pub fn increment_global_and_local(&mut self, worker: usize) -> (r: (usize, usize))
        requires
            worker < old(self)@.locals.len(),
            old(self)@.global < usize::MAX,
            old(self)@.locals[worker as int] < usize::MAX,
        ensures
            final(self)@ == step(old(self)@, Request { worker, op: Op::IncrementGlobalAndLocal }),
            r.0 == final(self)@.global,
            r.1 == final(self)@.locals[worker as int],
    {
        let global = self.global.increment_global();
        let mut c = self.locals[worker];
        let local = c.read_and_increment_local();
        self.locals.set(worker, c);
        assert(self@.locals =~= step(
            old(self)@,
            Request { worker, op: Op::IncrementGlobalAndLocal },
        ).locals);
        (global, local)
    }

    /// Handles one request: the state moves by one step and the request
    /// receives the report of the state after it.
    pub fn handle(&mut self, r: Request) -> (text: String)
        requires
            names_worker(old(self)@, r),
            fits(old(self)@, r),
        ensures
            final(self)@ == step(old(self)@, r),
            text@ == response(final(self)@, r),
    {
        let w = r.worker;
        match r.op {
            Op::IncrementExclusive => {
                self.increment_exclusive();
                self.exclusive.report()
            },
            Op::ShowCount => show_count(&self.counts[w]),
            Op::AddOne => {
                self.read_and_increment_local(w);
                assert(self.counts@.len() == self@.counts.len());
                show_count(&self.counts[w])
            },
            Op::ShowCounts => show_count_clone(self.global.value(), &self.locals[w]),
            Op::IncrementGlobalAndLocal => {
                self.increment_global_and_local(w);
                assert(self.locals@.len() == self@.locals.len());
                show_count_clone(self.global.value(), &self.locals[w])
            },
        }
    }
}

} // verus!
