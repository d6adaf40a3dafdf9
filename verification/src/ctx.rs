//! The host context and the driver's handle on a run.
//!
//! [`EmbeddingCtx`] aggregates the executor, the virtual clock and the
//! captured output sinks of one run.  [`RunningComponent`] wraps the context
//! together with the top-level guest task and the response slot, and exposes
//! the whole control surface a deterministic driver needs: run until
//! quiescent, jump the clock to the next interesting instant, repeat, then
//! check for completion.

use vstd::prelude::*;

use crate::clock::{Clock, Deadline};
use crate::executor::{fired, run_queue, still_pending, Computation, Executor, TaskModel};
use crate::fields::{Fields, ImmutFields};
use crate::http::{ErrorCode, IncomingBody, IncomingRequest, OutgoingResponse, StatusCode};
use crate::job::{Job, Mailbox};
use crate::outparam::{OutparamError, ResponseOutparam};
use crate::resources::{
    IncomingRequestResource, OutgoingRequestResource, RequestOptionsResource,
    OutgoingResponseResource, ResponseOutparamResource,
};
use crate::streams::{lines_of, NeverReadable, TimestampedWrites};
use crate::text::{from_utf8_lossy_owned, lossy_of};

verus! {

/// The header of the stdout section of a report: the bytes of `stdout:`
/// and a line break.
pub open spec fn stdout_header() -> Seq<u8> {
    seq![115u8, 116u8, 100u8, 111u8, 117u8, 116u8, 58u8, 10u8]
}

/// The header of the stderr section of a report: the bytes of `stderr:`
/// and a line break.
pub open spec fn stderr_header() -> Seq<u8> {
    seq![115u8, 116u8, 100u8, 101u8, 114u8, 114u8, 58u8, 10u8]
}

/// The full report of a run: both captured sinks, each under its header.
pub open spec fn report_of(stdout: Seq<(u64, Seq<u8>)>, stderr: Seq<(u64, Seq<u8>)>) -> Seq<u8> {
    stdout_header() + lines_of(stdout) + stderr_header() + lines_of(stderr)
}

/// Everything one run shares: the scheduler, the virtual clock and the
/// captured output sinks.
pub struct EmbeddingCtx<T> {
    executor: Executor<T>,
    clock: Clock,
    stdout: TimestampedWrites,
    stderr: TimestampedWrites,
}

impl<T> EmbeddingCtx<T> {
    /// The current virtual time.
    pub closed spec fn spec_now(&self) -> u64 {
        self.clock.spec_now()
    }

    /// The task slots of the run.
    pub closed spec fn tasks_model(&self) -> Seq<TaskModel<T>> {
        self.executor.tasks_model()
    }

    /// The run queue.
    pub closed spec fn queue(&self) -> Seq<usize> {
        self.executor.queue()
    }

    /// The deadline registrations.
    pub closed spec fn pending(&self) -> Seq<(u64, usize)> {
        self.executor.pending()
    }

    /// The captured stdout log.
    pub closed spec fn stdout_log(&self) -> Seq<(u64, Seq<u8>)> {
        self.stdout.log_model()
    }

    /// The captured stderr log.
    pub closed spec fn stderr_log(&self) -> Seq<(u64, Seq<u8>)> {
        self.stderr.log_model()
    }

    /// The executor is well formed.
    pub closed spec fn wf(&self) -> bool {
        self.executor.wf()
    }

    /// A fresh context: time zero, no tasks, empty logs.
    pub fn new() -> (r: EmbeddingCtx<T>)
        ensures
            r.wf(),
            r.spec_now() == 0,
            r.tasks_model() =~= Seq::<TaskModel<T>>::empty(),
            r.queue() =~= Seq::<usize>::empty(),
            r.pending() =~= Seq::<(u64, usize)>::empty(),
            r.stdout_log() =~= Seq::<(u64, Seq<u8>)>::empty(),
            r.stderr_log() =~= Seq::<(u64, Seq<u8>)>::empty(),
    {
        EmbeddingCtx {
            executor: Executor::new(),
            clock: Clock::new(),
            stdout: TimestampedWrites::new(),
            stderr: TimestampedWrites::new(),
        }
    }

    /// What the guest is told the time is.
    pub fn monotonic_now(&self) -> (r: u64)
        ensures
            r == self.spec_now(),
    {
        self.clock.get()
    }

    /// The clock's resolution: one virtual unit.
    pub fn resolution(&self) -> (r: u64)
        ensures
            r == 1,
    {
        1
    }

    /// The suspension primitive behind a guest's timer subscription to an
    /// instant.
    pub fn monotonic_timer(&self, deadline: u64) -> (r: Deadline)
        ensures
            r.spec_due() == deadline,
    {
        Deadline::new(deadline)
    }

    /// The suspension primitive behind a guest's timer subscription to a
    /// duration from now.
    pub fn monotonic_timer_after(&self, duration: u64) -> (r: Deadline)
        requires
            self.spec_now() + duration <= u64::MAX,
        ensures
            r.spec_due() == self.spec_now() + duration,
    {
        Deadline::new(self.clock.get() + duration)
    }

    /// The guest's stdin: never readable.
    pub fn stdin(&self) -> (r: NeverReadable) {
        NeverReadable
    }

    /// The guest sees no command-line arguments.
    pub fn get_arguments(&self) -> (r: Vec<String>)
        ensures
            r@.len() == 0,
    {
        Vec::new()
    }

    /// The guest sees an empty environment.
    pub fn get_environment(&self) -> (r: Vec<(String, String)>)
        ensures
            r@.len() == 0,
    {
        Vec::new()
    }

    /// The guest sees no working directory.
    pub fn initial_cwd(&self) -> (r: Option<String>)
        ensures
            r is None,
    {
        None
    }

    /// The deterministic stand-in for randomness: all zeros.
    pub fn get_random_bytes(&self, len: usize) -> (r: Vec<u8>)
        ensures
            r@ =~= Seq::new(len as nat, |i: int| 0u8),
    {
        let mut v: Vec<u8> = Vec::new();
        let mut i: usize = 0;
        while i < len
            invariant
                i <= len,
                v@ =~= Seq::new(i as nat, |j: int| 0u8),
            decreases len - i,
        {
            v.push(0);
            proof {
                assert(v@ =~= Seq::new((i + 1) as nat, |j: int| 0u8));
            }
            i += 1;
        }
        v
    }

    /// The deterministic stand-in for a random number: zero.
    pub fn get_random_u64(&self) -> (r: u64)
        ensures
            r == 0,
    {
        0
    }

    /// Capture one write to stdout, stamped with the current virtual time.
    pub fn write_stdout(&mut self, contents: bytes::Bytes)
        ensures
            final(self).stdout_log() =~= old(self).stdout_log().push(
                (old(self).spec_now(), crate::streams::bytes_view(contents)),
            ),
            final(self).stderr_log() == old(self).stderr_log(),
            final(self).spec_now() == old(self).spec_now(),
            final(self).tasks_model() == old(self).tasks_model(),
            final(self).queue() == old(self).queue(),
            final(self).pending() == old(self).pending(),
            final(self).wf() == old(self).wf(),
    {
        let now = self.clock.get();
        let _ = self.stdout.write(now, contents);
    }

    /// Capture one write to stderr, stamped with the current virtual time.
    pub fn write_stderr(&mut self, contents: bytes::Bytes)
        ensures
            final(self).stderr_log() =~= old(self).stderr_log().push(
                (old(self).spec_now(), crate::streams::bytes_view(contents)),
            ),
            final(self).stdout_log() == old(self).stdout_log(),
            final(self).spec_now() == old(self).spec_now(),
            final(self).tasks_model() == old(self).tasks_model(),
            final(self).queue() == old(self).queue(),
            final(self).pending() == old(self).pending(),
            final(self).wf() == old(self).wf(),
    {
        let now = self.clock.get();
        let _ = self.stderr.write(now, contents);
    }

    /// The report of everything the guest wrote, both sinks under their
    /// headers, each write stamped with its virtual time.
    pub fn report(&self) -> (r: String)
        ensures
            r@ == lossy_of(report_of(self.stdout_log(), self.stderr_log())),
    {
        let mut bytes: Vec<u8> = Vec::new();
        bytes.push(115);
        bytes.push(116);
        bytes.push(100);
        bytes.push(111);
        bytes.push(117);
        bytes.push(116);
        bytes.push(58);
        bytes.push(10);
        proof {
            assert(bytes@ =~= stdout_header());
        }
        let mut out_lines = self.stdout.report_bytes();
        bytes.append(&mut out_lines);
        let n = bytes.len();
        bytes.push(115);
        bytes.push(116);
        bytes.push(100);
        bytes.push(101);
        bytes.push(114);
        bytes.push(114);
        bytes.push(58);
        bytes.push(10);
        proof {
            assert(bytes@.skip(n as int) =~= stderr_header());
        }
        let mut err_lines = self.stderr.report_bytes();
        bytes.append(&mut err_lines);
        proof {
            assert(bytes@ =~= report_of(self.stdout_log(), self.stderr_log()));
        }
        from_utf8_lossy_owned(&bytes)
    }
}

/// The driver's handle on one run: the context, the top-level guest task
/// and the single-shot response slot.
pub struct RunningComponent<T> {
    ctx: EmbeddingCtx<T>,
    outparam: ResponseOutparam,
    output: usize,
}

impl<T> RunningComponent<T> {
    /// The context of the run.
    pub closed spec fn spec_ctx(&self) -> EmbeddingCtx<T> {
        self.ctx
    }

    /// The response slot.
    pub closed spec fn spec_outparam(&self) -> Option<
        Result<(StatusCode, Seq<(Seq<char>, Seq<u8>)>), ErrorCode>,
    > {
        self.outparam.model()
    }

    /// The task slot of the top-level guest computation.
    pub closed spec fn spec_output(&self) -> int {
        self.output as int
    }

    /// The component is well formed: its executor is, and the top-level
    /// task exists.
    pub closed spec fn wf(&self) -> bool {
        &&& self.ctx.wf()
        &&& (self.output as int) < self.ctx.executor.tasks_model().len()
    }

    /// Start a run: a fresh context whose executor holds the guest
    /// computation as its first task, the request resource the guest will
    /// read, and the capability it answers through.
    pub fn create(
        req: IncomingRequest,
        headers: Fields,
        body: IncomingBody,
        guest: Computation<T>,
    ) -> (r: (RunningComponent<T>, IncomingRequestResource, ResponseOutparamResource))
        requires
            guest.wf(),
        ensures
            r.0.wf(),
            r.0.spec_ctx().spec_now() == 0,
            r.0.spec_ctx().tasks_model() =~= seq![
                TaskModel::Active { waits: guest.remaining(), result: guest.spec_result() },
            ],
            r.0.spec_ctx().queue() =~= seq![0usize],
            r.0.spec_ctx().pending() =~= Seq::<(u64, usize)>::empty(),
            r.0.spec_ctx().stdout_log() =~= Seq::<(u64, Seq<u8>)>::empty(),
            r.0.spec_ctx().stderr_log() =~= Seq::<(u64, Seq<u8>)>::empty(),
            r.0.spec_outparam() is None,
            r.0.spec_output() == 0,
            r.1.spec_req() == req,
            r.1.spec_headers()@ == headers@,
            r.1.spec_headers().is_mut(),
            r.1.spec_headers().owners() == 1,
            r.1.has_body(),
    {
        let mut ctx = EmbeddingCtx::new();
        let output = ctx.executor.spawn(guest);
        let incoming = IncomingRequestResource::new(req, headers, body);
        let component = RunningComponent { ctx, outparam: ResponseOutparam::new(), output };
        (component, incoming, ResponseOutparamResource::new())
    }

    /// The current virtual time of the run.
    pub fn now(&self) -> (r: u64)
        ensures
            r == self.spec_ctx().spec_now(),
    {
        self.ctx.clock.get()
    }

    /// The earliest registered deadline, if any: the next interesting
    /// virtual instant.
    pub fn earliest_deadline(&self) -> (r: Option<u64>)
        ensures
            r is None <==> self.spec_ctx().pending().len() == 0,
            match r {
                Some(m) => {
                    &&& exists|k: int|
                        0 <= k < self.spec_ctx().pending().len() && self.spec_ctx().pending()[k].0
                            == m
                    &&& forall|k: int|
                        0 <= k < self.spec_ctx().pending().len()
                            ==> self.spec_ctx().pending()[k].0 >= m
                },
                None => true,
            },
    {
        let r = self.ctx.executor.earliest_deadline();
        proof {
            if r is Some {
                let m = r->0;
                let k = choose|k: int|
                    0 <= k < self.ctx.executor.pending().len() && self.ctx.executor.pending()[k].0
                        == m;
                assert(self.spec_ctx().pending()[k].0 == m);
            }
        }
        r
    }

    /// Wake every registration due by now.
    fn check_for_wake(&mut self)
        requires
            old(self).wf(),
        ensures
            final(self).wf(),
            final(self).spec_ctx().pending() =~= still_pending(
                old(self).spec_ctx().pending(),
                old(self).spec_ctx().spec_now(),
            ),
            final(self).spec_ctx().queue() =~= old(self).spec_ctx().queue() + fired(
                old(self).spec_ctx().pending(),
                old(self).spec_ctx().spec_now(),
            ),
            final(self).spec_ctx().tasks_model() == old(self).spec_ctx().tasks_model(),
            final(self).spec_ctx().spec_now() == old(self).spec_ctx().spec_now(),
            final(self).spec_ctx().stdout_log() == old(self).spec_ctx().stdout_log(),
            final(self).spec_ctx().stderr_log() == old(self).spec_ctx().stderr_log(),
            final(self).spec_outparam() == old(self).spec_outparam(),
            final(self).spec_output() == old(self).spec_output(),
    {
        let now = self.ctx.clock.get();
        let woken = self.ctx.executor.ready_deadlines(now);
        let ghost fired_ids = fired(old(self).spec_ctx().pending(), now);
        let mut i: usize = 0;
        while i < woken.len()
            invariant
                i <= woken@.len(),
                woken@ == fired_ids,
                self.ctx.executor.wf(),
                forall|k: int|
                    0 <= k < woken@.len() ==> (woken@[k] as int)
                        < self.ctx.executor.tasks_model().len(),
                self.ctx.executor.queue() =~= old(self).spec_ctx().queue() + fired_ids.take(
                    i as int,
                ),
                self.ctx.executor.pending() =~= still_pending(
                    old(self).spec_ctx().pending(),
                    old(self).spec_ctx().spec_now(),
                ),
                self.ctx.executor.tasks_model() == old(self).spec_ctx().tasks_model(),
                self.ctx.clock == old(self).ctx.clock,
                self.ctx.stdout == old(self).ctx.stdout,
                self.ctx.stderr == old(self).ctx.stderr,
                self.outparam == old(self).outparam,
                self.output == old(self).output,
            decreases woken@.len() - i,
        {
            let id = woken[i];
            self.ctx.executor.wake(id);
            proof {
                assert(fired_ids.take(i + 1) =~= fired_ids.take(i as int).push(id));
            }
            i += 1;
        }
        proof {
            assert(fired_ids.take(fired_ids.len() as int) =~= fired_ids);
        }
    }

    /// Move the clock one tick and wake everything that became due.
    pub fn increment_clock(&mut self)
        requires
            old(self).wf(),
            old(self).spec_ctx().spec_now() < u64::MAX,
        ensures
            final(self).wf(),
            final(self).spec_ctx().spec_now() == old(self).spec_ctx().spec_now() + 1,
            final(self).spec_ctx().pending() =~= still_pending(
                old(self).spec_ctx().pending(),
                (old(self).spec_ctx().spec_now() + 1) as u64,
            ),
            final(self).spec_ctx().queue() =~= old(self).spec_ctx().queue() + fired(
                old(self).spec_ctx().pending(),
                (old(self).spec_ctx().spec_now() + 1) as u64,
            ),
            final(self).spec_ctx().tasks_model() == old(self).spec_ctx().tasks_model(),
            final(self).spec_ctx().stdout_log() == old(self).spec_ctx().stdout_log(),
            final(self).spec_ctx().stderr_log() == old(self).spec_ctx().stderr_log(),
            final(self).spec_outparam() == old(self).spec_outparam(),
            final(self).spec_output() == old(self).spec_output(),
    {
        let now = self.ctx.clock.get();
        self.ctx.clock.set(now + 1);
        self.check_for_wake();
    }

    /// Jump the clock to `to` and wake everything that became due.
    pub fn advance_clock(&mut self, to: u64)
        requires
            old(self).wf(),
        ensures
            final(self).wf(),
            final(self).spec_ctx().spec_now() == to,
            final(self).spec_ctx().pending() =~= still_pending(
                old(self).spec_ctx().pending(),
                to,
            ),
            final(self).spec_ctx().queue() =~= old(self).spec_ctx().queue() + fired(
                old(self).spec_ctx().pending(),
                to,
            ),
            final(self).spec_ctx().tasks_model() == old(self).spec_ctx().tasks_model(),
            final(self).spec_ctx().stdout_log() == old(self).spec_ctx().stdout_log(),
            final(self).spec_ctx().stderr_log() == old(self).spec_ctx().stderr_log(),
            final(self).spec_outparam() == old(self).spec_outparam(),
            final(self).spec_output() == old(self).spec_output(),
    {
        self.ctx.clock.set(to);
        self.check_for_wake();
    }

    /// Run everything currently runnable; the count of resumptions is `0`
    /// exactly when the run is quiescent at the current virtual time.
    pub fn step(&mut self) -> (n: usize)
        requires
            old(self).wf(),
        ensures
            final(self).wf(),
            n == old(self).spec_ctx().queue().len(),
            final(self).spec_ctx().queue().len() == 0,
            final(self).spec_ctx().tasks_model() =~= run_queue(
                old(self).spec_ctx().tasks_model(),
                old(self).spec_ctx().queue(),
                old(self).spec_ctx().spec_now(),
            ).0,
            final(self).spec_ctx().pending() =~= old(self).spec_ctx().pending() + run_queue(
                old(self).spec_ctx().tasks_model(),
                old(self).spec_ctx().queue(),
                old(self).spec_ctx().spec_now(),
            ).1,
            final(self).spec_ctx().spec_now() == old(self).spec_ctx().spec_now(),
            final(self).spec_ctx().stdout_log() == old(self).spec_ctx().stdout_log(),
            final(self).spec_ctx().stderr_log() == old(self).spec_ctx().stderr_log(),
            final(self).spec_outparam() == old(self).spec_outparam(),
            final(self).spec_output() == old(self).spec_output(),
    {
        proof {
            crate::executor::lemma_step_never_resumes_early(
                self.ctx.executor.tasks_model(),
                self.ctx.executor.queue(),
                self.ctx.clock.spec_now(),
            );
        }
        self.ctx.executor.step(&self.ctx.clock)
    }

    /// Deliver the guest's answer through its capability into the slot.
    pub fn set(
        &mut self,
        capability: ResponseOutparamResource,
        result: Result<OutgoingResponseResource, ErrorCode>,
    ) -> (r: Result<(), OutparamError>)
        requires
            match result {
                Ok(res) => res.wf() && res.spec_headers().owners() == 1,
                Err(_) => true,
            },
        ensures
            old(self).spec_outparam() is Some ==> {
                &&& r == Err::<(), OutparamError>(OutparamError::AlreadySent)
                &&& final(self).spec_outparam() == old(self).spec_outparam()
            },
            old(self).spec_outparam() is None ==> r is Ok && match result {
                Ok(res) => final(self).spec_outparam() == Some(
                    Ok::<(StatusCode, Seq<(Seq<char>, Seq<u8>)>), ErrorCode>(
                        (res.spec_resp().spec_status_code(), res.spec_headers()@),
                    ),
                ),
                Err(code) => final(self).spec_outparam() == Some(
                    Err::<(StatusCode, Seq<(Seq<char>, Seq<u8>)>), ErrorCode>(code),
                ),
            },
            final(self).spec_ctx() == old(self).spec_ctx(),
            final(self).spec_output() == old(self).spec_output(),
            final(self).wf() == old(self).wf(),
    {
        capability.set(&mut self.outparam, result)
    }

    /// The outbound-exchange entry, against this run's executor: see
    /// [`crate::resources::handle`].
    pub fn handle(
        &mut self,
        request: OutgoingRequestResource,
        options: Option<RequestOptionsResource>,
        waits: Vec<u64>,
        reply: T,
    ) -> (r: Result<Job<T>, ErrorCode>)
        requires
            old(self).wf(),
            old(self).spec_ctx().tasks_model().len() < usize::MAX,
            request.wf(),
            request.spec_headers().owners() == 1,
        ensures
            final(self).wf(),
            match r {
                Ok(job) => {
                    &&& job.model() == (crate::job::JobModel::<T> {
                        task: old(self).spec_ctx().tasks_model().len() as int,
                        received: None,
                        gone: false,
                    })
                    &&& final(self).spec_ctx().tasks_model() =~= old(
                        self,
                    ).spec_ctx().tasks_model().push(
                        TaskModel::Active { waits: waits@, result: reply },
                    )
                    &&& final(self).spec_ctx().queue() =~= old(self).spec_ctx().queue().push(
                        old(self).spec_ctx().tasks_model().len() as usize,
                    )
                    &&& final(self).spec_ctx().pending() == old(self).spec_ctx().pending()
                },
                Err(_) => false,
            },
            final(self).spec_ctx().spec_now() == old(self).spec_ctx().spec_now(),
            final(self).spec_ctx().stdout_log() == old(self).spec_ctx().stdout_log(),
            final(self).spec_ctx().stderr_log() == old(self).spec_ctx().stderr_log(),
            final(self).spec_outparam() == old(self).spec_outparam(),
            final(self).spec_output() == old(self).spec_output(),
    {
        crate::resources::handle(&mut self.ctx.executor, request, options, waits, reply)
    }

    /// Poll a job of this run without blocking; see [`Job::mailbox`].
    pub fn mailbox(&mut self, job: &mut Job<T>) -> (m: Mailbox<T>)
        requires
            old(self).wf(),
            old(job).model().task < old(self).spec_ctx().tasks_model().len(),
        ensures
            final(self).wf(),
            final(self).spec_ctx().tasks_model().len() == old(self).spec_ctx().tasks_model().len(),
            final(self).spec_ctx().queue() == old(self).spec_ctx().queue(),
            final(self).spec_ctx().pending() == old(self).spec_ctx().pending(),
            final(self).spec_ctx().spec_now() == old(self).spec_ctx().spec_now(),
            final(self).spec_ctx().stdout_log() == old(self).spec_ctx().stdout_log(),
            final(self).spec_ctx().stderr_log() == old(self).spec_ctx().stderr_log(),
            final(self).spec_outparam() == old(self).spec_outparam(),
            final(self).spec_output() == old(self).spec_output(),
            ({
                let step = crate::job::mailbox_step(
                    old(job).model(),
                    old(self).spec_ctx().tasks_model()[old(job).model().task],
                );
                &&& final(job).model() == step.0
                &&& final(self).spec_ctx().tasks_model() =~= old(
                    self,
                ).spec_ctx().tasks_model().update(old(job).model().task, step.1)
                &&& m == step.2
            }),
    {
        job.mailbox(&mut self.ctx.executor)
    }

    /// A single non-blocking completion check.  Once the top-level guest
    /// task has finished, the report of everything it wrote and the contents
    /// of the response slot are handed out, exactly once.
    pub fn check_complete(&mut self) -> (r: Option<
        (String, Result<(OutgoingResponse, ImmutFields), OutparamError>),
    >)
        requires
            old(self).wf(),
        ensures
            final(self).wf(),
            final(self).spec_ctx().queue() == old(self).spec_ctx().queue(),
            final(self).spec_ctx().pending() == old(self).spec_ctx().pending(),
            final(self).spec_ctx().spec_now() == old(self).spec_ctx().spec_now(),
            final(self).spec_ctx().stdout_log() == old(self).spec_ctx().stdout_log(),
            final(self).spec_ctx().stderr_log() == old(self).spec_ctx().stderr_log(),
            final(self).spec_output() == old(self).spec_output(),
            match old(self).spec_ctx().tasks_model()[old(self).spec_output()] {
                TaskModel::Finished { .. } => {
                    &&& final(self).spec_ctx().tasks_model() =~= old(
                        self,
                    ).spec_ctx().tasks_model().update(old(self).spec_output(), TaskModel::Taken)
                    &&& final(self).spec_outparam() is None
                    &&& match r {
                        Some((report, outcome)) => {
                            &&& report@ == lossy_of(
                                report_of(
                                    old(self).spec_ctx().stdout_log(),
                                    old(self).spec_ctx().stderr_log(),
                                ),
                            )
                            &&& match old(self).spec_outparam() {
                                None => outcome == Err::<
                                    (OutgoingResponse, ImmutFields),
                                    OutparamError,
                                >(OutparamError::NoResponseSent),
                                Some(Err(code)) => outcome == Err::<
                                    (OutgoingResponse, ImmutFields),
                                    OutparamError,
                                >(OutparamError::Code(code)),
                                Some(Ok((sc, hv))) => match outcome {
                                    Ok((resp, headers)) => resp.spec_status_code() == sc
                                        && headers@ == hv,
                                    Err(_) => false,
                                },
                            }
                        },
                        None => false,
                    }
                },
                _ => {
                    &&& r is None
                    &&& final(self).spec_ctx().tasks_model() == old(self).spec_ctx().tasks_model()
                    &&& final(self).spec_outparam() == old(self).spec_outparam()
                },
            },
    {
        match self.ctx.executor.poll_task(self.output) {
            Some(_) => {
                let report = self.ctx.report();
                let mut slot = ResponseOutparam::new();
                core::mem::swap(&mut self.outparam, &mut slot);
                Some((report, slot.into_inner()))
            },
            None => None,
        }
    }
}

} // verus!
