//! The single-threaded cooperative scheduler.
//!
//! The executor owns an arena of tasks, a FIFO queue of runnable task ids and
//! an unordered registry of `(due, task)` deadline registrations.  A task is a
//! [`Computation`]: a list of virtual instants it must await, in order, and
//! the value it yields once the last one has passed.  Resuming a task runs it
//! to its next suspension point; a task suspended on a deadline is re-enqueued
//! only when the driver advances the clock far enough for the registration to
//! fire.  Everything is advanced only by explicit calls — nothing here ever
//! waits on real time.

use vstd::prelude::*;
use vstd::std_specs::vec::vec_index_mut;

use crate::clock::{Clock, Deadline};
use crate::seq_util::lemma_filter_push;

use std::collections::VecDeque;

verus! {

/// A deterministic suspendable computation: it awaits each instant of
/// `waits` in order and then yields `result`.
///
/// `next` marks how far the computation has already run; the instants before
/// it have been awaited and passed.
pub struct Computation<T> {
    waits: Vec<u64>,
    next: usize,
    result: T,
}

impl<T> Computation<T> {
    /// The consumed prefix never runs past the end of the wait list.
    pub closed spec fn wf(&self) -> bool {
        self.next <= self.waits@.len()
    }

    /// The instants this computation still has to await, in order.
    pub closed spec fn remaining(&self) -> Seq<u64> {
        self.waits@.skip(self.next as int)
    }

    /// The value the computation will yield when it finishes.
    pub closed spec fn spec_result(&self) -> T {
        self.result
    }

    /// A computation that must await every instant of `waits` in order and
    /// then yields `result`.
    pub fn new(waits: Vec<u64>, result: T) -> (c: Self)
        ensures
            c.wf(),
            c.remaining() == waits@,
            c.spec_result() == result,
    {
        let c = Computation { waits, next: 0, result };
        proof {
            assert(c.remaining() =~= c.waits@);
        }
        c
    }
}

/// The abstract state of one task slot, as the contracts see it.
pub enum TaskModel<T> {
    /// Spawned and not yet finished: the instants still to await, then the
    /// value it will yield.
    Active { waits: Seq<u64>, result: T },
    /// Finished; the yielded value has not been taken yet.
    Finished { result: T },
    /// Finished and the value was taken, exactly once.
    Taken,
    /// Cancelled; it will never yield a value.
    Cancelled,
}

/// The concrete state of one task slot.
enum TaskState<T> {
    Active(Computation<T>),
    Finished(T),
    Taken,
    Cancelled,
}

impl<T> TaskState<T> {
    spec fn wf(&self) -> bool {
        match self {
            TaskState::Active(c) => c.wf(),
            _ => true,
        }
    }

    spec fn model(&self) -> TaskModel<T> {
        match self {
            TaskState::Active(c) => TaskModel::Active { waits: c.remaining(), result: c.spec_result() },
            TaskState::Finished(v) => TaskModel::Finished { result: *v },
            TaskState::Taken => TaskModel::Taken,
            TaskState::Cancelled => TaskModel::Cancelled,
        }
    }
}

/// One resumption of an active computation: it consumes due instants from the
/// front of its wait list until it either finishes or reaches an instant that
/// is still in the future, where it suspends again.
pub open spec fn run_waits<T>(waits: Seq<u64>, result: T, now: u64) -> TaskModel<T>
    decreases waits.len(),
{
    if waits.len() == 0 {
        TaskModel::Finished { result }
    } else if waits[0] <= now {
        run_waits(waits.skip(1), result, now)
    } else {
        TaskModel::Active { waits, result }
    }
}

/// The deadline a resumption registers: the first instant of the wait list
/// that is still in the future, if the computation suspends at all.
pub open spec fn suspend_due(waits: Seq<u64>, now: u64) -> Option<u64>
    decreases waits.len(),
{
    if waits.len() == 0 {
        None
    } else if waits[0] <= now {
        suspend_due(waits.skip(1), now)
    } else {
        Some(waits[0])
    }
}

/// Resuming a task slot: only an active computation moves; waking a slot in
/// any other state is a safe no-op (a deadline left behind by abandoned work
/// fires harmlessly).
pub open spec fn resume_model<T>(t: TaskModel<T>, now: u64) -> TaskModel<T> {
    match t {
        TaskModel::Active { waits, result } => run_waits(waits, result, now),
        _ => t,
    }
}

/// The deadline registration a resumption of this slot leaves behind.
pub open spec fn resume_registration<T>(t: TaskModel<T>, now: u64) -> Option<u64> {
    match t {
        TaskModel::Active { waits, result } => suspend_due(waits, now),
        _ => None,
    }
}

/// Running a whole run queue front to back: each popped id is resumed against
/// the task states as they stand at its turn, and the deadline registrations
/// are collected in order.
pub open spec fn run_queue<T>(tasks: Seq<TaskModel<T>>, queue: Seq<usize>, now: u64) -> (Seq<
    TaskModel<T>,
>, Seq<(u64, usize)>)
    decreases queue.len(),
{
    if queue.len() == 0 {
        (tasks, Seq::empty())
    } else {
        let id = queue[0] as int;
        if 0 <= id < tasks.len() {
            let regs: Seq<(u64, usize)> = match resume_registration(tasks[id], now) {
                Some(d) => seq![(d, queue[0])],
                None => Seq::empty(),
            };
            let rest = run_queue(tasks.update(id, resume_model(tasks[id], now)), queue.skip(1), now);
            (rest.0, regs + rest.1)
        } else {
            run_queue(tasks, queue.skip(1), now)
        }
    }
}

/// The registrations still pending once every deadline due by `now` has fired.
pub open spec fn still_pending(pending: Seq<(u64, usize)>, now: u64) -> Seq<(u64, usize)> {
    pending.filter(|p: (u64, usize)| p.0 > now)
}

/// The task ids whose registrations fire at `now`, in registry order.
pub open spec fn fired(pending: Seq<(u64, usize)>, now: u64) -> Seq<usize> {
    pending.filter(|p: (u64, usize)| p.0 <= now).map_values(|p: (u64, usize)| p.1)
}

/// The cooperative run queue plus the deadline registry.
pub struct Executor<T> {
    tasks: Vec<TaskState<T>>,
    runnables: VecDeque<usize>,
    deadlines: Vec<(u64, usize)>,
}

impl<T> Executor<T> {
    /// The state of every task slot ever spawned, by id.
    pub closed spec fn tasks_model(&self) -> Seq<TaskModel<T>> {
        self.tasks@.map(|i: int, t: TaskState<T>| t.model())
    }

    /// The FIFO run queue of task ids.
    pub closed spec fn queue(&self) -> Seq<usize> {
        self.runnables@
    }

    /// The `(due, task)` deadline registrations, in registration order.
    pub closed spec fn pending(&self) -> Seq<(u64, usize)> {
        self.deadlines@
    }

    /// Every queued or registered id points at an existing task slot.
    pub closed spec fn wf(&self) -> bool {
        &&& forall|i: int|
            0 <= i < self.runnables@.len() ==> (self.runnables@[i] as int) < self.tasks@.len()
        &&& forall|i: int|
            0 <= i < self.deadlines@.len() ==> (self.deadlines@[i].1 as int) < self.tasks@.len()
        &&& forall|i: int| 0 <= i < self.tasks@.len() ==> self.tasks@[i].wf()
    }

    /// An executor with no tasks, an empty run queue and no registrations.
    pub fn new() -> (e: Self)
        ensures
            e.wf(),
            e.tasks_model() =~= Seq::<TaskModel<T>>::empty(),
            e.queue() =~= Seq::<usize>::empty(),
            e.pending() =~= Seq::<(u64, usize)>::empty(),
    {
        Executor { tasks: Vec::new(), runnables: VecDeque::new(), deadlines: Vec::new() }
    }

    /// Start a computation under this executor: it gets a fresh task slot and
    /// is scheduled for an initial run immediately.
    pub fn spawn(&mut self, comp: Computation<T>) -> (id: usize)
        requires
            old(self).wf(),
            comp.wf(),
            old(self).tasks_model().len() < usize::MAX,
        ensures
            final(self).wf(),
            id == old(self).tasks_model().len(),
            final(self).tasks_model() =~= old(self).tasks_model().push(
                TaskModel::Active { waits: comp.remaining(), result: comp.spec_result() },
            ),
            final(self).queue() =~= old(self).queue().push(id),
            final(self).pending() == old(self).pending(),
    {
        let id = self.tasks.len();
        self.tasks.push(TaskState::Active(comp));
        self.runnables.push_back(id);
        id
    }

    /// Register `(due, id)`: when the clock reaches `due`, task `id` is to be
    /// woken.
    pub fn push_deadline(&mut self, due: u64, id: usize)
        requires
            old(self).wf(),
            (id as int) < old(self).tasks_model().len(),
        ensures
            final(self).wf(),
            final(self).pending() =~= old(self).pending().push((due, id)),
            final(self).tasks_model() == old(self).tasks_model(),
            final(self).queue() == old(self).queue(),
    {
        self.deadlines.push((due, id));
    }

    /// Put a task id at the back of the run queue (a wake).
    pub fn wake(&mut self, id: usize)
        requires
            old(self).wf(),
            (id as int) < old(self).tasks_model().len(),
        ensures
            final(self).wf(),
            final(self).queue() =~= old(self).queue().push(id),
            final(self).tasks_model() == old(self).tasks_model(),
            final(self).pending() == old(self).pending(),
    {
        self.runnables.push_back(id);
    }

    /// The earliest due time among the pending registrations, if any.
    pub fn earliest_deadline(&self) -> (r: Option<u64>)
        ensures
            r is None <==> self.pending().len() == 0,
            match r {
                Some(m) => {
                    &&& exists|k: int| 0 <= k < self.pending().len() && self.pending()[k].0 == m
                    &&& forall|k: int| 0 <= k < self.pending().len() ==> self.pending()[k].0 >= m
                },
                None => true,
            },
    {
        let mut best: Option<u64> = None;
        let mut i: usize = 0;
        while i < self.deadlines.len()
            invariant
                i <= self.deadlines@.len(),
                best is None <==> i == 0,
                match best {
                    Some(m) => {
                        &&& exists|k: int| 0 <= k < i && self.deadlines@[k].0 == m
                        &&& forall|k: int| 0 <= k < i ==> self.deadlines@[k].0 >= m
                    },
                    None => true,
                },
            decreases self.deadlines@.len() - i,
        {
            let d = self.deadlines[i].0;
            best = match best {
                None => Some(d),
                Some(m) => if d < m {
                    Some(d)
                } else {
                    Some(m)
                },
            };
            i += 1;
        }
        best
    }

    /// Remove and return, in registry order, the ids of every registration
    /// whose due time has been reached; later registrations stay.
    pub fn ready_deadlines(&mut self, now: u64) -> (woken: Vec<usize>)
        requires
            old(self).wf(),
        ensures
            final(self).wf(),
            final(self).pending() =~= still_pending(old(self).pending(), now),
            woken@ =~= fired(old(self).pending(), now),
            forall|i: int|
                0 <= i < woken@.len() ==> (woken@[i] as int) < final(self).tasks_model().len(),
            final(self).tasks_model() == old(self).tasks_model(),
            final(self).queue() == old(self).queue(),
    {
        let ghost pend0 = self.deadlines@;
        let mut kept: Vec<(u64, usize)> = Vec::new();
        let mut woken: Vec<usize> = Vec::new();
        let mut i: usize = 0;
        while i < self.deadlines.len()
            invariant
                self.wf(),
                i <= self.deadlines@.len(),
                self.deadlines@ == pend0,
                kept@ =~= still_pending(pend0.take(i as int), now),
                woken@ =~= fired(pend0.take(i as int), now),
                forall|k: int| 0 <= k < kept@.len() ==> pend0.contains(#[trigger] kept@[k]),
                forall|k: int|
                    0 <= k < woken@.len() ==> (#[trigger] woken@[k] as int) < self.tasks@.len(),
            decreases self.deadlines@.len() - i,
        {
            let p = self.deadlines[i];
            proof {
                assert(p == pend0[i as int]);
                assert((pend0[i as int].1 as int) < self.tasks@.len());
                assert(pend0.take(i + 1) =~= pend0.take(i as int).push(p));
                lemma_filter_push(pend0.take(i as int), |q: (u64, usize)| q.0 > now, p);
                lemma_filter_push(pend0.take(i as int), |q: (u64, usize)| q.0 <= now, p);
                assert(pend0.take(i as int).filter(|q: (u64, usize)| q.0 <= now).push(p).map_values(
                    |q: (u64, usize)| q.1,
                ) =~= fired(pend0.take(i as int), now).push(p.1));
            }
            if p.0 <= now {
                woken.push(p.1);
            } else {
                kept.push(p);
            }
            i += 1;
        }
        proof {
            assert(pend0.take(pend0.len() as int) =~= pend0);
        }
        self.deadlines = kept;
        woken
    }

    /// Resume task `id` once: run it to its next suspension point, recording
    /// a deadline registration if it suspends again.
    fn resume_one(&mut self, id: usize, clock: &Clock)
        requires
            old(self).wf(),
            (id as int) < old(self).tasks_model().len(),
        ensures
            final(self).wf(),
            final(self).tasks_model() =~= old(self).tasks_model().update(
                id as int,
                resume_model(old(self).tasks_model()[id as int], clock.spec_now()),
            ),
            final(self).pending() =~= old(self).pending() + match resume_registration(
                old(self).tasks_model()[id as int],
                clock.spec_now(),
            ) {
                Some(d) => seq![(d, id)],
                None => Seq::empty(),
            },
            final(self).queue() == old(self).queue(),
    {
        let now = clock.get();
        let ghost model0 = self.tasks_model()[id as int];
        let cell = vec_index_mut(&mut self.tasks, id);
        let mut taken = TaskState::Taken;
        core::mem::swap(cell, &mut taken);
        match taken {
            TaskState::Active(mut comp) => {
                let ghost rem0 = comp.remaining();
                let ghost res0 = comp.spec_result();
                while comp.next < comp.waits.len() && comp.waits[comp.next] <= now
                    invariant
                        comp.wf(),
                        comp.spec_result() == res0,
                        run_waits(rem0, res0, now) == run_waits(comp.remaining(), res0, now),
                        suspend_due(rem0, now) == suspend_due(comp.remaining(), now),
                    decreases comp.waits@.len() - comp.next,
                {
                    proof {
                        assert(comp.remaining()[0] == comp.waits@[comp.next as int]);
                        assert(comp.remaining().skip(1) =~= comp.waits@.skip(comp.next + 1));
                    }
                    comp.next += 1;
                }
                if comp.next == comp.waits.len() {
                    proof {
                        assert(comp.remaining() =~= Seq::<u64>::empty());
                    }
                    *cell = TaskState::Finished(comp.result);
                } else {
                    let due = comp.waits[comp.next];
                    proof {
                        assert(comp.remaining()[0] == due);
                        assert(due > now);
                    }
                    *cell = TaskState::Active(comp);
                    self.deadlines.push((due, id));
                }
            },
            other => {
                *cell = other;
            },
        }
        proof {
            assert(final(self).tasks_model() =~= old(self).tasks_model().update(
                id as int,
                resume_model(model0, clock.spec_now()),
            ));
        }
    }

    /// Run everything currently runnable: pop the front of the run queue and
    /// resume it, until the queue is empty.  Returns how many resumptions
    /// occurred; `0` means the executor is quiescent at the current virtual
    /// time.
    pub fn step(&mut self, clock: &Clock) -> (n: usize)
        requires
            old(self).wf(),
        ensures
            final(self).wf(),
            n == old(self).queue().len(),
            final(self).queue().len() == 0,
            final(self).tasks_model() =~= run_queue(
                old(self).tasks_model(),
                old(self).queue(),
                clock.spec_now(),
            ).0,
            final(self).pending() =~= old(self).pending() + run_queue(
                old(self).tasks_model(),
                old(self).queue(),
                clock.spec_now(),
            ).1,
    {
        let ghost tasks0 = self.tasks_model();
        let ghost queue0 = self.queue();
        let ghost pend0 = self.pending();
        let ghost now = clock.spec_now();
        let initial_len = self.runnables.len();
        let mut n: usize = 0;
        while self.runnables.len() > 0
            invariant
                self.wf(),
                clock.spec_now() == now,
                queue0.len() == initial_len,
                n == queue0.len() - self.queue().len(),
                self.queue().len() <= queue0.len(),
                run_queue(tasks0, queue0, now).0 =~= run_queue(self.tasks_model(), self.queue(), now).0,
                pend0 + run_queue(tasks0, queue0, now).1 =~= self.pending() + run_queue(
                    self.tasks_model(),
                    self.queue(),
                    now,
                ).1,
            decreases self.queue().len(),
        {
            let ghost tasks_i = self.tasks_model();
            let ghost queue_i = self.queue();
            let ghost pend_i = self.pending();
            let id = self.runnables.pop_front().unwrap();
            self.resume_one(id, clock);
            n += 1;
            proof {
                assert(queue_i[0] == id);
                assert(self.queue() =~= queue_i.skip(1));
                lemma_run_queue_step(tasks_i, queue_i, now);
                assert(pend_i + run_queue(tasks_i, queue_i, now).1 =~= self.pending() + run_queue(
                    self.tasks_model(),
                    self.queue(),
                    now,
                ).1);
            }
        }
        n
    }

    /// A non-blocking completion check of task `id`: if it has finished and
    /// its value is still there, take the value — exactly once; in every
    /// other state nothing changes.
    pub fn poll_task(&mut self, id: usize) -> (r: Option<T>)
        requires
            old(self).wf(),
            (id as int) < old(self).tasks_model().len(),
        ensures
            final(self).wf(),
            match old(self).tasks_model()[id as int] {
                TaskModel::Finished { result } => {
                    &&& r == Some(result)
                    &&& final(self).tasks_model() =~= old(self).tasks_model().update(
                        id as int,
                        TaskModel::Taken,
                    )
                },
                _ => r is None && final(self).tasks_model() =~= old(self).tasks_model(),
            },
            final(self).queue() == old(self).queue(),
            final(self).pending() == old(self).pending(),
    {
        let cell = vec_index_mut(&mut self.tasks, id);
        let mut taken = TaskState::Taken;
        core::mem::swap(cell, &mut taken);
        match taken {
            TaskState::Finished(v) => Some(v),
            other => {
                *cell = other;
                proof {
                    assert(final(self).tasks_model() =~= old(self).tasks_model());
                }
                None
            },
        }
    }

    /// Cancel task `id`: it will never run again nor yield a value.
    pub fn cancel(&mut self, id: usize)
        requires
            old(self).wf(),
            (id as int) < old(self).tasks_model().len(),
        ensures
            final(self).wf(),
            final(self).tasks_model() =~= old(self).tasks_model().update(
                id as int,
                TaskModel::Cancelled,
            ),
            final(self).queue() == old(self).queue(),
            final(self).pending() == old(self).pending(),
    {
        let cell = vec_index_mut(&mut self.tasks, id);
        *cell = TaskState::Cancelled;
    }
}

/// The poll behaviour of a deadline awaited by task `task`: if the clock has
/// not reached it, the registration `(due, task)` is recorded with the
/// scheduler and the task stays suspended; once the clock has reached it,
/// the await is over and nothing is registered.
pub fn poll_deadline<T>(d: &Deadline, clock: &Clock, exec: &mut Executor<T>, task: usize) -> (ready:
    bool)
    requires
        old(exec).wf(),
        (task as int) < old(exec).tasks_model().len(),
    ensures
        final(exec).wf(),
        ready == (d.spec_due() <= clock.spec_now()),
        ready ==> final(exec).pending() == old(exec).pending(),
        !ready ==> final(exec).pending() =~= old(exec).pending().push((d.spec_due(), task)),
        final(exec).tasks_model() == old(exec).tasks_model(),
        final(exec).queue() == old(exec).queue(),
{
    if d.is_ready(clock) {
        true
    } else {
        exec.push_deadline(d.due_time(), task);
        false
    }
}

/// What a resumption at virtual time `now` may have done to a task: only an
/// active computation moves, it keeps its result, it consumes waits from the
/// front only while they are due, and if it is still active it is stopped at
/// a wait that is strictly in the future.
pub open spec fn resumed_within_time<T>(before: TaskModel<T>, after: TaskModel<T>, now: u64) -> bool {
    after == before || match before {
        TaskModel::Active { waits, result } => match after {
            TaskModel::Active { waits: rem, result: r2 } => {
                &&& r2 == result
                &&& 0 < rem.len() <= waits.len()
                &&& rem == waits.skip(waits.len() - rem.len())
                &&& rem[0] > now
                &&& forall|i: int| 0 <= i < waits.len() - rem.len() ==> waits[i] <= now
            },
            TaskModel::Finished { result: r2 } => {
                &&& r2 == result
                &&& forall|i: int| 0 <= i < waits.len() ==> waits[i] <= now
            },
            _ => false,
        },
        _ => false,
    }
}

/// A task is never moved at all by a resumption that does not touch it.
proof fn lemma_resumed_within_time_refl<T>(t: TaskModel<T>, now: u64)
    ensures
        resumed_within_time(t, t, now),
{
}

/// Consecutive resumptions at the same virtual time compose.
proof fn lemma_resumed_within_time_trans<T>(a: TaskModel<T>, b: TaskModel<T>, c: TaskModel<T>, now: u64)
    requires
        resumed_within_time(a, b, now),
        resumed_within_time(b, c, now),
    ensures
        resumed_within_time(a, c, now),
{
    if a != b && b != c {
        match a {
            TaskModel::Active { waits, result } => match b {
                TaskModel::Active { waits: rem_b, .. } => {
                    let off_b = waits.len() - rem_b.len();
                    match c {
                        TaskModel::Active { waits: rem_c, .. } => {
                            let off_c = rem_b.len() - rem_c.len();
                            assert(rem_c =~= waits.skip(off_b + off_c));
                            assert forall|i: int| 0 <= i < off_b + off_c implies waits[i] <= now by {
                                if i >= off_b {
                                    assert(waits[i] == rem_b[i - off_b]);
                                }
                            }
                        },
                        TaskModel::Finished { .. } => {
                            assert forall|i: int| 0 <= i < waits.len() implies waits[i] <= now by {
                                if i >= off_b {
                                    assert(waits[i] == rem_b[i - off_b]);
                                }
                            }
                        },
                        _ => {},
                    }
                },
                _ => {},
            },
            _ => {},
        }
    }
}

/// The exact effect of one resumption on a wait list: the consumed prefix
/// was due, and a suspension stops at a strictly future wait.
pub open spec fn resume_progress<T>(waits: Seq<u64>, after: TaskModel<T>, result: T, now: u64) -> bool {
    match after {
        TaskModel::Active { waits: rem, result: r2 } => {
            &&& r2 == result
            &&& 0 < rem.len() <= waits.len()
            &&& rem == waits.skip(waits.len() - rem.len())
            &&& rem[0] > now
            &&& forall|i: int| 0 <= i < waits.len() - rem.len() ==> waits[i] <= now
        },
        TaskModel::Finished { result: r2 } => {
            &&& r2 == result
            &&& forall|i: int| 0 <= i < waits.len() ==> waits[i] <= now
        },
        _ => false,
    }
}

/// One resumption of a wait list consumes due instants only.
proof fn lemma_run_waits_only_due<T>(waits: Seq<u64>, result: T, now: u64)
    ensures
        resume_progress(waits, run_waits(waits, result, now), result, now),
        suspend_due(waits, now) matches Some(d) ==> d > now,
        (suspend_due(waits, now) is Some) == (run_waits(waits, result, now) is Active),
    decreases waits.len(),
{
    if waits.len() == 0 {
    } else if waits[0] <= now {
        lemma_run_waits_only_due(waits.skip(1), result, now);
        match run_waits(waits.skip(1), result, now) {
            TaskModel::Active { waits: rem, .. } => {
                assert(rem =~= waits.skip(waits.len() - rem.len()));
                assert forall|i: int| 0 <= i < waits.len() - rem.len() implies waits[i] <= now by {
                    if i > 0 {
                        assert(waits[i] == waits.skip(1)[i - 1]);
                    }
                }
            },
            TaskModel::Finished { .. } => {
                assert forall|i: int| 0 <= i < waits.len() implies waits[i] <= now by {
                    if i > 0 {
                        assert(waits[i] == waits.skip(1)[i - 1]);
                    }
                }
            },
            _ => {},
        }
    } else {
        assert(waits =~= waits.skip(0));
    }
}

/// Law: however the driver has advanced the clock, running the queue never
/// resumes a computation past a deadline that is still in the future.  Every
/// wait consumed by a `step` at virtual time `now` was due (`<= now`), a
/// computation that stays suspended is stopped at a strictly future wait, and
/// every deadline registration a step records is strictly in the future.
///
/// The statement quantifies over an arbitrary task arena, run queue and
/// clock value, so it holds at every point of every sequence of clock
/// advances, increments and steps a driver can make; together with the
/// contract of `ready_deadlines` — only registrations with `due <= now`
/// fire — no deadline ever acts early.
pub proof fn lemma_step_never_resumes_early<T>(tasks: Seq<TaskModel<T>>, queue: Seq<usize>, now: u64)
    ensures
        run_queue(tasks, queue, now).0.len() == tasks.len(),
        forall|id: int|
            0 <= id < tasks.len() ==> resumed_within_time(
                tasks[id],
                #[trigger] run_queue(tasks, queue, now).0[id],
                now,
            ),
        forall|k: int|
            0 <= k < run_queue(tasks, queue, now).1.len() ==> (#[trigger] run_queue(
                tasks,
                queue,
                now,
            ).1[k]).0 > now,
    decreases queue.len(),
{
    if queue.len() == 0 {
        assert forall|id: int| 0 <= id < tasks.len() implies resumed_within_time(
            tasks[id],
            run_queue(tasks, queue, now).0[id],
            now,
        ) by {
            lemma_resumed_within_time_refl(tasks[id], now);
        }
    } else {
        let id0 = queue[0] as int;
        if 0 <= id0 < tasks.len() {
            let tasks2 = tasks.update(id0, resume_model(tasks[id0], now));
            lemma_step_never_resumes_early(tasks2, queue.skip(1), now);
            match tasks[id0] {
                TaskModel::Active { waits, result } => {
                    lemma_run_waits_only_due(waits, result, now);
                },
                _ => {},
            }
            assert forall|id: int| 0 <= id < tasks.len() implies resumed_within_time(
                tasks[id],
                run_queue(tasks, queue, now).0[id],
                now,
            ) by {
                if id == id0 {
                    lemma_resumed_within_time_refl(tasks[id0], now);
                    lemma_resumed_within_time_trans(
                        tasks[id0],
                        tasks2[id0],
                        run_queue(tasks2, queue.skip(1), now).0[id0],
                        now,
                    );
                }
            }
        } else {
            lemma_step_never_resumes_early(tasks, queue.skip(1), now);
        }
    }
}

/// Unfolding one step of `run_queue` when the queue is non-empty and its
/// front id is in range.
proof fn lemma_run_queue_step<T>(tasks: Seq<TaskModel<T>>, queue: Seq<usize>, now: u64)
    requires
        queue.len() > 0,
        (queue[0] as int) < tasks.len(),
    ensures
        run_queue(tasks, queue, now).0 == run_queue(
            tasks.update(queue[0] as int, resume_model(tasks[queue[0] as int], now)),
            queue.skip(1),
            now,
        ).0,
        run_queue(tasks, queue, now).1 =~= (match resume_registration(tasks[queue[0] as int], now) {
            Some(d) => seq![(d, queue[0])],
            None => Seq::empty(),
        }) + run_queue(
            tasks.update(queue[0] as int, resume_model(tasks[queue[0] as int], now)),
            queue.skip(1),
            now,
        ).1,
{
}

} // verus!
