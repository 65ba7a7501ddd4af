use shared_counters::counters::{
    add_one, add_one_clone, index_mutable_state, show_count, show_count_clone, ExclusiveCounter,
    GlobalCounter, LockError, WorkerCounter,
};
use shared_counters::decimal::{push_decimal, push_signed_decimal};
use shared_counters::process::Counters;
use shared_counters::model::{Op, Request};

fn req(worker: usize, op: Op) -> Request {
    Request { worker, op }
}

#[test]
fn exclusive_one_increment_reports_request_number_one() {
    let mut c = ExclusiveCounter::new();
    assert_eq!(index_mutable_state(&mut c, false), Ok(String::from("Request number: 1")));
    assert_eq!(c.value(), 1);
    assert_eq!(c.report(), "Request number: 1");
}

#[test]
fn exclusive_poisoned_lock_is_an_error_and_keeps_value() {
    let mut c = ExclusiveCounter::new();
    c.increment_exclusive();
    assert_eq!(index_mutable_state(&mut c, true), Err(LockError::Poisoned));
    assert_eq!(c.value(), 1);
    assert_eq!(index_mutable_state(&mut c, false), Ok(String::from("Request number: 2")));
}

#[test]
fn exclusive_increments_from_many_workers_are_all_counted() {
    let mut c = Counters::new(4);
    for i in 0..100usize {
        let text = c.handle(req(i % 4, Op::IncrementExclusive));
        assert_eq!(text, format!("Request number: {}", i + 1));
    }
    assert_eq!(c.read_exclusive(), 100);
}

#[test]
fn global_increments_from_many_workers_are_all_counted() {
    let mut c = Counters::new(3);
    for i in 0..30usize {
        c.handle(req((i * 7) % 3, Op::IncrementGlobalAndLocal));
    }
    assert_eq!(c.read_counts(0).0, 30);
    assert_eq!(c.read_counts(0).1, 10);
    assert_eq!(c.read_counts(1).1, 10);
    assert_eq!(c.read_counts(2).1, 10);
}

#[test]
fn worker_counters_are_independent() {
    let mut c = Counters::new(2);
    c.handle(req(0, Op::AddOne));
    c.handle(req(0, Op::AddOne));
    c.handle(req(0, Op::IncrementGlobalAndLocal));
    assert_eq!(c.read_local(0), 2);
    assert_eq!(c.read_local(1), 0);
    assert_eq!(c.read_counts(1), (1, 0));
    assert_eq!(c.handle(req(1, Op::ShowCount)), "count: 0");
    assert_eq!(c.handle(req(0, Op::ShowCount)), "count: 2");
}

#[test]
fn combined_one_increment_on_one_worker() {
    let mut c = Counters::new(1);
    assert_eq!(c.handle(req(0, Op::IncrementGlobalAndLocal)), "global_count: 1\nlocal_count: 1");
    assert_eq!(c.handle(req(0, Op::ShowCounts)), "global_count: 1\nlocal_count: 1");
}

#[test]
fn combined_two_increments_on_one_worker() {
    let mut c = Counters::new(1);
    c.handle(req(0, Op::IncrementGlobalAndLocal));
    assert_eq!(c.handle(req(0, Op::IncrementGlobalAndLocal)), "global_count: 2\nlocal_count: 2");
    assert_eq!(c.handle(req(0, Op::ShowCounts)), "global_count: 2\nlocal_count: 2");
}

#[test]
fn combined_one_increment_on_each_of_two_workers() {
    let mut c = Counters::new(2);
    assert_eq!(c.handle(req(0, Op::IncrementGlobalAndLocal)), "global_count: 1\nlocal_count: 1");
    assert_eq!(c.handle(req(1, Op::IncrementGlobalAndLocal)), "global_count: 2\nlocal_count: 1");
    assert_eq!(c.read_counts(0), (2, 1));
    assert_eq!(c.read_counts(1), (2, 1));
    assert_eq!(c.handle(req(0, Op::ShowCounts)), "global_count: 2\nlocal_count: 1");
}

#[test]
fn named_operations_return_new_values() {
    let mut c = Counters::new(2);
    assert_eq!(c.workers(), 2);
    assert_eq!(c.increment_exclusive(), 1);
    assert_eq!(c.read_and_increment_local(1), 1);
    assert_eq!(c.read_and_increment_local(1), 2);
    assert_eq!(c.increment_global_and_local(0), (1, 1));
    assert_eq!(c.increment_global_and_local(1), (2, 1));
    assert_eq!(c.read_local(0), 0);
}

#[test]
fn fresh_counters_read_zero() {
    let c = Counters::new(3);
    assert_eq!(c.read_exclusive(), 0);
    assert_eq!(c.read_counts(2), (0, 0));
    assert_eq!(c.read_local(2), 0);
    let empty = Counters::new(0);
    assert_eq!(empty.workers(), 0);
}

#[test]
fn worker_counter_reports() {
    let mut w = WorkerCounter::new();
    assert_eq!(show_count(&w), "count: 0");
    assert_eq!(add_one(&mut w), "count: 1");
    assert_eq!(add_one(&mut w), "count: 2");
    assert_eq!(w.value(), 2);
    assert_eq!(w.read_and_increment_local(), 3);
}

#[test]
fn combined_reports_take_the_global_count_as_read() {
    let mut w = WorkerCounter::new();
    assert_eq!(show_count_clone(0, &w), "global_count: 0\nlocal_count: 0");
    assert_eq!(add_one_clone(7, &mut w), "global_count: 7\nlocal_count: 1");
    assert_eq!(show_count_clone(1234, &w), "global_count: 1234\nlocal_count: 1");
}

#[test]
fn global_counter_counts_up() {
    let mut g = GlobalCounter::new();
    assert_eq!(g.value(), 0);
    assert_eq!(g.increment_global(), 1);
    assert_eq!(g.increment_global(), 2);
    assert_eq!(g.value(), 2);
}

#[test]
fn decimal_notation() {
    let cases: [(u64, &str); 5] = [
        (0, "0"),
        (9, "9"),
        (10, "10"),
        (1234567890, "1234567890"),
        (u64::MAX, "18446744073709551615"),
    ];
    for (n, expected) in cases {
        let mut s = String::from("n=");
        push_decimal(&mut s, n);
        assert_eq!(s, format!("n={}", expected));
    }
}

#[test]
fn signed_decimal_notation() {
    let cases: [(i64, &str); 5] = [
        (0, "0"),
        (42, "42"),
        (-7, "-7"),
        (-100, "-100"),
        (i64::MIN, "-9223372036854775808"),
    ];
    for (n, expected) in cases {
        let mut s = String::new();
        push_signed_decimal(&mut s, n);
        assert_eq!(s, expected);
    }
}
