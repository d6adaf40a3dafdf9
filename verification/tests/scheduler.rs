use embedding::clock::{Clock, Deadline};
use embedding::executor::{poll_deadline, Computation, Executor};
use embedding::job::{Job, Mailbox};

#[test]
fn polling_a_pending_deadline_registers_it() {
    let mut clock = Clock::new();
    let mut exec: Executor<u64> = Executor::new();
    let task = exec.spawn(Computation::new(vec![20], 0));
    let d = Deadline::new(20);
    assert!(!poll_deadline(&d, &clock, &mut exec, task));
    assert_eq!(exec.earliest_deadline(), Some(20));
    clock.set(20);
    assert!(poll_deadline(&d, &clock, &mut exec, task));
}

#[test]
fn clock_starts_at_zero_and_moves_as_set() {
    let mut clock = Clock::new();
    assert_eq!(clock.get(), 0);
    clock.set(7);
    assert_eq!(clock.get(), 7);
    clock.set(100);
    assert_eq!(clock.get(), 100);
}

#[test]
fn deadline_is_ready_exactly_when_reached() {
    let mut clock = Clock::new();
    let d = Deadline::new(10);
    assert!(!d.is_ready(&clock));
    clock.set(9);
    assert!(!d.is_ready(&clock));
    clock.set(10);
    assert!(d.is_ready(&clock));
    clock.set(11);
    assert!(d.is_ready(&clock));
}

#[test]
fn job_resolves_after_deadline_at_100() {
    let mut clock = Clock::new();
    let mut exec: Executor<u64> = Executor::new();
    let mut job = Job::spawn(&mut exec, Computation::new(vec![100], 42));

    // The initial run suspends the computation on its deadline.
    assert_eq!(exec.step(&clock), 1);
    // At virtual time 0 the run is quiescent and the deadline is registered.
    assert_eq!(exec.step(&clock), 0);
    assert_eq!(exec.earliest_deadline(), Some(100));
    assert!(matches!(job.mailbox(&mut exec), Mailbox::Pending));

    // Advance the clock to the deadline and wake what became due.
    clock.set(100);
    let woken = exec.ready_deadlines(clock.get());
    assert_eq!(woken.len(), 1);
    for id in woken {
        exec.wake(id);
    }
    // The resumed job now runs to completion.
    assert_eq!(exec.step(&clock), 1);
    match job.mailbox(&mut exec) {
        Mailbox::Done(v) => assert_eq!(v, 42),
        _ => panic!("expected Done"),
    }
    assert!(matches!(job.mailbox(&mut exec), Mailbox::Gone));
}

#[test]
fn step_never_resumes_a_computation_before_its_deadline() {
    let mut clock = Clock::new();
    let mut exec: Executor<u64> = Executor::new();
    let mut job = Job::spawn(&mut exec, Computation::new(vec![5], 1));
    exec.step(&clock);

    // However often the driver steps below the deadline, the job stays
    // pending.
    for t in 0..5u64 {
        clock.set(t);
        for id in exec.ready_deadlines(clock.get()) {
            exec.wake(id);
        }
        exec.step(&clock);
        assert!(matches!(job.mailbox(&mut exec), Mailbox::Pending));
    }

    clock.set(5);
    for id in exec.ready_deadlines(clock.get()) {
        exec.wake(id);
    }
    exec.step(&clock);
    assert!(matches!(job.mailbox(&mut exec), Mailbox::Done(1)));
}

#[test]
fn deadlines_fire_in_registration_order() {
    let clock = Clock::new();
    let mut exec: Executor<u64> = Executor::new();
    let a = exec.spawn(Computation::new(vec![10], 1));
    let b = exec.spawn(Computation::new(vec![5], 2));
    exec.step(&clock);
    assert_eq!(exec.earliest_deadline(), Some(5));
    // Both are due at 10; they come back in the order they were registered.
    let woken = exec.ready_deadlines(10);
    assert_eq!(woken, vec![a, b]);
    assert_eq!(exec.earliest_deadline(), None);
}

#[test]
fn ready_deadlines_keeps_later_registrations() {
    let clock = Clock::new();
    let mut exec: Executor<u64> = Executor::new();
    exec.spawn(Computation::new(vec![3], 1));
    exec.spawn(Computation::new(vec![8], 2));
    exec.step(&clock);
    let woken = exec.ready_deadlines(5);
    assert_eq!(woken.len(), 1);
    assert_eq!(exec.earliest_deadline(), Some(8));
}

#[test]
fn a_computation_with_several_waits_suspends_at_each() {
    let mut clock = Clock::new();
    let mut exec: Executor<u64> = Executor::new();
    let mut job = Job::spawn(&mut exec, Computation::new(vec![2, 4], 9));
    exec.step(&clock);
    assert_eq!(exec.earliest_deadline(), Some(2));

    clock.set(2);
    for id in exec.ready_deadlines(clock.get()) {
        exec.wake(id);
    }
    exec.step(&clock);
    assert!(matches!(job.mailbox(&mut exec), Mailbox::Pending));
    assert_eq!(exec.earliest_deadline(), Some(4));

    clock.set(4);
    for id in exec.ready_deadlines(clock.get()) {
        exec.wake(id);
    }
    exec.step(&clock);
    assert!(matches!(job.mailbox(&mut exec), Mailbox::Done(9)));
}

#[test]
fn a_stale_deadline_for_a_discarded_job_fires_harmlessly() {
    let mut clock = Clock::new();
    let mut exec: Executor<u64> = Executor::new();
    let job = Job::spawn(&mut exec, Computation::new(vec![10], 3));
    exec.step(&clock);
    assert_eq!(exec.earliest_deadline(), Some(10));

    // Discarding the job cancels the computation, but its registration is
    // not purged.
    job.discard(&mut exec);
    clock.set(10);
    let woken = exec.ready_deadlines(clock.get());
    assert_eq!(woken.len(), 1);
    for id in woken {
        exec.wake(id);
    }
    // Resuming the abandoned slot is a safe no-op, counted like any other.
    assert_eq!(exec.step(&clock), 1);
    assert_eq!(exec.step(&clock), 0);
}

#[test]
fn a_computation_with_no_waits_finishes_on_the_first_step() {
    let clock = Clock::new();
    let mut exec: Executor<u64> = Executor::new();
    let mut job = Job::spawn(&mut exec, Computation::new(Vec::new(), 7));
    assert_eq!(exec.step(&clock), 1);
    assert!(matches!(job.mailbox(&mut exec), Mailbox::Done(7)));
}
