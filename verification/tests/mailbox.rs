use embedding::clock::Clock;
use embedding::executor::{Computation, Executor};
use embedding::job::{Job, Mailbox};

#[test]
fn mailbox_reports_pending_then_done_then_gone() {
    let clock = Clock::new();
    let mut exec: Executor<u64> = Executor::new();
    let mut job = Job::spawn(&mut exec, Computation::new(Vec::new(), 11));

    // Before any step the computation has not run.
    assert!(matches!(job.mailbox(&mut exec), Mailbox::Pending));
    exec.step(&clock);
    assert!(matches!(job.mailbox(&mut exec), Mailbox::Done(11)));
    assert!(matches!(job.mailbox(&mut exec), Mailbox::Gone));
    assert!(matches!(job.mailbox(&mut exec), Mailbox::Gone));
}

#[test]
fn readiness_polling_buffers_without_handing_out() {
    let clock = Clock::new();
    let mut exec: Executor<u64> = Executor::new();
    let mut job = Job::spawn(&mut exec, Computation::new(Vec::new(), 5));

    assert!(!job.poll(&mut exec));
    exec.step(&clock);
    // The readiness check sees completion and buffers the value.
    assert!(job.poll(&mut exec));
    // Polling again stays ready and does not disturb the buffered value.
    assert!(job.poll(&mut exec));
    // The mailbox still hands the value out exactly once.
    assert!(matches!(job.mailbox(&mut exec), Mailbox::Done(5)));
    assert!(matches!(job.mailbox(&mut exec), Mailbox::Gone));
    // The job stays ready after the value is gone.
    assert!(job.poll(&mut exec));
}

#[test]
fn two_jobs_keep_separate_mailboxes() {
    let clock = Clock::new();
    let mut exec: Executor<u64> = Executor::new();
    let mut a = Job::spawn(&mut exec, Computation::new(Vec::new(), 1));
    let mut b = Job::spawn(&mut exec, Computation::new(vec![50], 2));
    exec.step(&clock);
    assert!(matches!(a.mailbox(&mut exec), Mailbox::Done(1)));
    assert!(matches!(b.mailbox(&mut exec), Mailbox::Pending));
    assert!(matches!(a.mailbox(&mut exec), Mailbox::Gone));
}
