use vstd::prelude::*;

use crate::counters::{count_text, counts_text, request_number_text};

verus! {

/// What a request asks of the counters.
#[derive(Debug, Clone, Copy, PartialEq, Eq, Structural)]
pub enum Op {
    /// Add one to the exclusive counter and report it.
    IncrementExclusive,
    /// Report the worker's own counter.
    ShowCount,
    /// Add one to the worker's own counter and report it.
    AddOne,
    /// Report the global count and the worker's local count.
    ShowCounts,
    /// Add one to the global count and to the worker's local count, and report both.
    IncrementGlobalAndLocal,
}

/// A request, as handled by one worker.
#[derive(Debug, Clone, Copy, PartialEq, Eq, Structural)]
pub struct Request {
    pub worker: usize,
    pub op: Op,
}

/// The counters of a whole process: the exclusive counter, the global
/// count, and for each worker its own counter (`counts`) and the local half of
/// its global/local pair (`locals`).
pub ghost struct CounterState {
    pub exclusive: int,
    pub global: int,
    pub counts: Seq<int>,
    pub locals: Seq<int>,
}

/// The state after one request. Lock and atomic operation each take effect at
/// one instant, so concurrent requests act as these steps in some order.
pub open spec fn step(s: CounterState, r: Request) -> CounterState {
    let w = r.worker as int;
    match r.op {
        Op::IncrementExclusive => CounterState { exclusive: s.exclusive + 1, ..s },
        Op::AddOne => CounterState { counts: s.counts.update(w, s.counts[w] + 1), ..s },
        Op::IncrementGlobalAndLocal => CounterState {
            global: s.global + 1,
            locals: s.locals.update(w, s.locals[w] + 1),
            ..s
        },
        Op::ShowCount | Op::ShowCounts => s,
    }
}

/// The state after a sequence of requests, in the order in which they took effect.
pub open spec fn run(s: CounterState, reqs: Seq<Request>) -> CounterState
    decreases reqs.len(),
{
    if reqs.len() == 0 {
        s
    } else {
        step(run(s, reqs.drop_last()), reqs.last())
    }
}

/// What a request receives, given the state after it.
pub open spec fn response(s: CounterState, r: Request) -> Seq<char> {
    let w = r.worker as int;
    match r.op {
        Op::IncrementExclusive => request_number_text(s.exclusive),
        Op::ShowCount | Op::AddOne => count_text(s.counts[w] as nat),
        Op::ShowCounts | Op::IncrementGlobalAndLocal => counts_text(
            s.global as nat,
            s.locals[w] as nat,
        ),
    }
}

/// A state with `workers` workers, as the process starts: every counter zero.
pub open spec fn initial_state(workers: nat) -> CounterState {
    CounterState {
        exclusive: 0,
        global: 0,
        counts: Seq::new(workers, |i: int| 0),
        locals: Seq::new(workers, |i: int| 0),
    }
}

/// The request names one of the state's workers.
pub open spec fn names_worker(s: CounterState, r: Request) -> bool {
    r.worker < s.counts.len() && s.counts.len() == s.locals.len()
}

/// The request can be handled in machine integers: no counter it adds to is at its limit.
pub open spec fn fits(s: CounterState, r: Request) -> bool {
    let w = r.worker as int;
    match r.op {
        Op::IncrementExclusive => s.exclusive < i32::MAX,
        Op::AddOne => s.counts[w] < usize::MAX,
        Op::IncrementGlobalAndLocal => s.global < usize::MAX && s.locals[w] < usize::MAX,
        Op::ShowCount | Op::ShowCounts => true,
    }
}

/// How many of the requests add to the exclusive counter.
pub open spec fn exclusive_increments(reqs: Seq<Request>) -> nat
    decreases reqs.len(),
{
    if reqs.len() == 0 {
        0
    } else {
        exclusive_increments(reqs.drop_last()) + if reqs.last().op == Op::IncrementExclusive {
            1nat
        } else {
            0nat
        }
    }
}

/// How many of the requests add to the global count.
pub open spec fn global_increments(reqs: Seq<Request>) -> nat
    decreases reqs.len(),
{
    if reqs.len() == 0 {
        0
    } else {
        global_increments(reqs.drop_last()) + if reqs.last().op == Op::IncrementGlobalAndLocal {
            1nat
        } else {
            0nat
        }
    }
}

/// How many of the requests add `op`'s one to worker `w`.
pub open spec fn worker_increments(reqs: Seq<Request>, w: usize, op: Op) -> nat
    decreases reqs.len(),
{
    if reqs.len() == 0 {
        0
    } else {
        worker_increments(reqs.drop_last(), w, op) + if reqs.last().worker == w
            && reqs.last().op == op {
            1nat
        } else {
            0nat
        }
    }
}

/// Every request names one of the state's workers.
pub open spec fn all_name_workers(s: CounterState, reqs: Seq<Request>) -> bool {
    s.counts.len() == s.locals.len() && forall|i: int|
        0 <= i < reqs.len() ==> #[trigger] reqs[i].worker < s.counts.len()
}

/// Requests change neither how many workers there are nor which worker is which.
pub proof fn lemma_run_keeps_workers(s: CounterState, reqs: Seq<Request>)
    requires
        all_name_workers(s, reqs),
    ensures
        run(s, reqs).counts.len() == s.counts.len(),
        run(s, reqs).locals.len() == s.locals.len(),
    decreases reqs.len(),
{
    if reqs.len() > 0 {
        let prefix = reqs.drop_last();
        assert forall|i: int| 0 <= i < prefix.len() implies #[trigger] prefix[i].worker
            < s.counts.len() by {
            assert(prefix[i] == reqs[i]);
        }
        lemma_run_keeps_workers(s, prefix);
        assert(reqs.last() == reqs[reqs.len() - 1]);
    }
}

/// No increment of the exclusive counter is lost: whatever the workers and
/// whatever the order, its final value is its first value plus the number of
/// increments.
pub proof fn lemma_exclusive_no_lost_updates(s: CounterState, reqs: Seq<Request>)
    ensures
        run(s, reqs).exclusive == s.exclusive + exclusive_increments(reqs),
    decreases reqs.len(),
{
    if reqs.len() > 0 {
        lemma_exclusive_no_lost_updates(s, reqs.drop_last());
    }
}

/// No increment of the global count is lost: whatever the workers and
/// whatever the order, its final value is its first value plus the number of
/// increments.
pub proof fn lemma_global_no_lost_updates(s: CounterState, reqs: Seq<Request>)
    ensures
        run(s, reqs).global == s.global + global_increments(reqs),
    decreases reqs.len(),
{
    if reqs.len() > 0 {
        lemma_global_no_lost_updates(s, reqs.drop_last());
    }
}

/// A request handled by one worker leaves every other worker's counters as they were.
pub proof fn lemma_worker_isolation(s: CounterState, r: Request, other: usize)
    requires
        names_worker(s, r),
        other < s.counts.len(),
        other != r.worker,
    ensures
        step(s, r).counts[other as int] == s.counts[other as int],
        step(s, r).locals[other as int] == s.locals[other as int],
{
}

/// A worker's counters depend on its own requests alone: each is its first
/// value plus the number of that worker's requests that add to it.
pub proof fn lemma_worker_counts(s: CounterState, reqs: Seq<Request>, w: usize)
    requires
        all_name_workers(s, reqs),
        w < s.counts.len(),
    ensures
        run(s, reqs).counts[w as int] == s.counts[w as int] + worker_increments(
            reqs,
            w,
            Op::AddOne,
        ),
        run(s, reqs).locals[w as int] == s.locals[w as int] + worker_increments(
            reqs,
            w,
            Op::IncrementGlobalAndLocal,
        ),
    decreases reqs.len(),
{
    if reqs.len() > 0 {
        let prefix = reqs.drop_last();
        assert forall|i: int| 0 <= i < prefix.len() implies #[trigger] prefix[i].worker
            < s.counts.len() by {
            assert(prefix[i] == reqs[i]);
        }
        lemma_worker_counts(s, prefix, w);
        lemma_run_keeps_workers(s, prefix);
        assert(reqs.last() == reqs[reqs.len() - 1]);
    }
}

} // verus!
