//! The Job / Mailbox adapter.
//!
//! A [`Job`] bridges a spawned computation to the poll-once, fetch-once
//! surface the guest-facing interfaces need: a non-blocking [`Job::mailbox`]
//! query that yields the result exactly once, and a separate readiness check
//! ([`Job::poll`]) that may buffer the result without giving it out.  The two
//! paths keep independent bookkeeping and do not disturb each other.

use vstd::prelude::*;

use crate::executor::{Computation, Executor, TaskModel};

verus! {

/// What one `mailbox` call reports.
pub enum Mailbox<T> {
    /// The job has not finished yet.
    Pending,
    /// The job finished; this is its value, handed out exactly once.
    Done(T),
    /// The job finished and a prior call already retrieved the value.
    Gone,
}

/// A handle to a computation spawned under an executor, with read-once
/// delivery of its result.
pub struct Job<T> {
    task: usize,
    received: Option<T>,
    gone: bool,
}

/// The abstract state of a job, as the contracts see it.
pub struct JobModel<T> {
    /// The task slot the job owns.
    pub task: int,
    /// A result buffered by a readiness check, not yet handed out.
    pub received: Option<T>,
    /// Whether the value has been handed out (or the job given up).
    pub gone: bool,
}

/// One `mailbox` call, as a pure transition: from the job state and the
/// state of its task slot to the new job state, the new slot state and the
/// reported mailbox value.
pub open spec fn mailbox_step<T>(j: JobModel<T>, cell: TaskModel<T>) -> (
    JobModel<T>,
    TaskModel<T>,
    Mailbox<T>,
) {
    if j.gone {
        (j, cell, Mailbox::Gone)
    } else {
        match j.received {
            Some(v) => (
                JobModel { task: j.task, received: None, gone: true },
                cell,
                Mailbox::Done(v),
            ),
            None => match cell {
                TaskModel::Finished { result } => (
                    JobModel { task: j.task, received: None, gone: true },
                    TaskModel::Taken,
                    Mailbox::Done(result),
                ),
                _ => (j, cell, Mailbox::Pending),
            },
        }
    }
}

/// One readiness check, as a pure transition: it may buffer a finished
/// task's value but never hands it out.
pub open spec fn poll_step<T>(j: JobModel<T>, cell: TaskModel<T>) -> (
    JobModel<T>,
    TaskModel<T>,
    bool,
) {
    if j.gone || j.received is Some {
        (j, cell, true)
    } else {
        match cell {
            TaskModel::Finished { result } => (
                JobModel { task: j.task, received: Some(result), gone: false },
                TaskModel::Taken,
                true,
            ),
            _ => (j, cell, false),
        }
    }
}

impl<T> Job<T> {
    /// The abstract state of this job.
    pub closed spec fn model(&self) -> JobModel<T> {
        JobModel { task: self.task as int, received: self.received, gone: self.gone }
    }

    /// Spawn a computation and return the job that owns its result.
    pub fn spawn(exec: &mut Executor<T>, comp: Computation<T>) -> (j: Job<T>)
        requires
            old(exec).wf(),
            comp.wf(),
            old(exec).tasks_model().len() < usize::MAX,
        ensures
            final(exec).wf(),
            j.model() == (JobModel::<T> {
                task: old(exec).tasks_model().len() as int,
                received: None,
                gone: false,
            }),
            final(exec).tasks_model() =~= old(exec).tasks_model().push(
                TaskModel::Active { waits: comp.remaining(), result: comp.spec_result() },
            ),
            final(exec).queue() =~= old(exec).queue().push(
                old(exec).tasks_model().len() as usize,
            ),
            final(exec).pending() == old(exec).pending(),
    {
        let task = exec.spawn(comp);
        Job { task, received: None, gone: false }
    }

    /// The non-blocking result query.  The first call that finds the job
    /// finished reports `Done` with its value; every later call reports
    /// `Gone`; before that, `Pending`.
    pub fn mailbox(&mut self, exec: &mut Executor<T>) -> (m: Mailbox<T>)
        requires
            old(exec).wf(),
            old(self).model().task < old(exec).tasks_model().len(),
        ensures
            final(exec).wf(),
            final(exec).tasks_model().len() == old(exec).tasks_model().len(),
            final(exec).queue() == old(exec).queue(),
            final(exec).pending() == old(exec).pending(),
            ({
                let step = mailbox_step(
                    old(self).model(),
                    old(exec).tasks_model()[old(self).model().task],
                );
                &&& final(self).model() == step.0
                &&& final(exec).tasks_model() =~= old(exec).tasks_model().update(
                    old(self).model().task,
                    step.1,
                )
                &&& m == step.2
            }),
    {
        proof {
            assert(old(exec).tasks_model().update(
                old(self).model().task,
                old(exec).tasks_model()[old(self).model().task],
            ) =~= old(exec).tasks_model());
        }
        if self.gone {
            Mailbox::Gone
        } else if self.received.is_some() {
            let v = self.received.take().unwrap();
            self.gone = true;
            Mailbox::Done(v)
        } else {
            match exec.poll_task(self.task) {
                Some(v) => {
                    self.gone = true;
                    Mailbox::Done(v)
                },
                None => Mailbox::Pending,
            }
        }
    }

    /// The readiness check behind awaiting the job: true once the
    /// computation has finished.  A finished value is buffered for a later
    /// `mailbox` call, never handed out here.
    pub fn poll(&mut self, exec: &mut Executor<T>) -> (ready: bool)
        requires
            old(exec).wf(),
            old(self).model().task < old(exec).tasks_model().len(),
        ensures
            final(exec).wf(),
            final(exec).tasks_model().len() == old(exec).tasks_model().len(),
            final(exec).queue() == old(exec).queue(),
            final(exec).pending() == old(exec).pending(),
            ({
                let step = poll_step(
                    old(self).model(),
                    old(exec).tasks_model()[old(self).model().task],
                );
                &&& final(self).model() == step.0
                &&& final(exec).tasks_model() =~= old(exec).tasks_model().update(
                    old(self).model().task,
                    step.1,
                )
                &&& ready == step.2
            }),
    {
        proof {
            assert(old(exec).tasks_model().update(
                old(self).model().task,
                old(exec).tasks_model()[old(self).model().task],
            ) =~= old(exec).tasks_model());
        }
        if self.gone {
            true
        } else if self.received.is_some() {
            true
        } else {
            match exec.poll_task(self.task) {
                Some(v) => {
                    self.received = Some(v);
                    true
                },
                None => false,
            }
        }
    }

    /// Give the job up: the underlying computation is cancelled and no value
    /// is ever delivered for it.
    pub fn discard(self, exec: &mut Executor<T>)
        requires
            old(exec).wf(),
            self.model().task < old(exec).tasks_model().len(),
        ensures
            final(exec).wf(),
            final(exec).tasks_model() =~= old(exec).tasks_model().update(
                self.model().task,
                TaskModel::Cancelled,
            ),
            final(exec).queue() == old(exec).queue(),
            final(exec).pending() == old(exec).pending(),
    {
        exec.cancel(self.task);
    }
}

/// The mailbox reports of a whole run: starting from job state `j`, one
/// `mailbox` call is made before each slot state of `cells` (the executor
/// may move the slot arbitrarily between calls).
pub open spec fn mailbox_outputs<T>(j: JobModel<T>, cells: Seq<TaskModel<T>>) -> Seq<Mailbox<T>>
    decreases cells.len(),
{
    if cells.len() == 0 {
        Seq::empty()
    } else {
        let step = mailbox_step(j, cells[0]);
        seq![step.2] + mailbox_outputs(step.0, cells.skip(1))
    }
}

/// Once a job is gone it answers `Gone` forever.
proof fn lemma_mailbox_gone_forever<T>(j: JobModel<T>, cells: Seq<TaskModel<T>>)
    requires
        j.gone,
    ensures
        mailbox_outputs(j, cells).len() == cells.len(),
        forall|i: int|
            0 <= i < cells.len() ==> #[trigger] mailbox_outputs(j, cells)[i] is Gone,
    decreases cells.len(),
{
    if cells.len() > 0 {
        lemma_mailbox_gone_forever(j, cells.skip(1));
    }
}

/// Law: however the executor interleaves with it, the sequence of values a
/// job's mailbox reports is a prefix of `Pending*, Done(v), Gone*`: after
/// the first report that is not `Pending` every report is `Gone`, and a
/// `Gone` is only ever preceded by the single `Done`.  In particular `Done`
/// occurs at most once, so the job's value is handed out exactly once.
pub proof fn lemma_mailbox_protocol<T>(j: JobModel<T>, cells: Seq<TaskModel<T>>)
    requires
        !j.gone,
    ensures
        mailbox_outputs(j, cells).len() == cells.len(),
        forall|a: int, b: int|
            0 <= a < b < cells.len() && !(#[trigger] mailbox_outputs(j, cells)[a] is Pending)
                ==> #[trigger] mailbox_outputs(j, cells)[b] is Gone,
        forall|b: int|
            0 <= b < cells.len() && #[trigger] mailbox_outputs(j, cells)[b] is Gone
                ==> exists|a: int| 0 <= a < b && mailbox_outputs(j, cells)[a] is Done,
    decreases cells.len(),
{
    if cells.len() > 0 {
        let step = mailbox_step(j, cells[0]);
        let outs = mailbox_outputs(j, cells);
        let rest = mailbox_outputs(step.0, cells.skip(1));
        assert(forall|i: int| 1 <= i < outs.len() ==> outs[i] == rest[i - 1]);
        if step.2 is Done {
            lemma_mailbox_gone_forever(step.0, cells.skip(1));
            assert forall|b: int|
                0 <= b < cells.len() && #[trigger] outs[b] is Gone implies exists|a: int|
                0 <= a < b && outs[a] is Done by {
                assert(outs[0] is Done);
            }
        } else {
            assert(step.2 is Pending && step.0 == j);
            lemma_mailbox_protocol(step.0, cells.skip(1));
            assert forall|a: int, b: int|
                0 <= a < b < cells.len() && !(#[trigger] outs[a] is Pending) implies #[trigger] outs[b] is Gone by {
                assert(a >= 1);
                assert(outs[a] == rest[a - 1] && outs[b] == rest[b - 1]);
            }
            assert forall|b: int|
                0 <= b < cells.len() && #[trigger] outs[b] is Gone implies exists|a: int|
                0 <= a < b && outs[a] is Done by {
                assert(b >= 1);
                assert(rest[b - 1] is Gone);
                let a0 = choose|a0: int| 0 <= a0 < b - 1 && mailbox_outputs(step.0, cells.skip(1))[a0] is Done;
                assert(outs[a0 + 1] is Done);
            }
        }
    }
}

} // verus!
