//! Host-side core of a deterministic, virtually-timed component sandbox.
//!
//! The crate drives guest computations with a cooperative scheduler whose
//! notion of time is a driver-controlled virtual clock: no operation ever
//! blocks a real thread, and a run can be replayed step by step.  Around the
//! scheduler sit the protocol resources a guest exchanges with the host:
//! header collections that freeze into immutable ones, consume-once body
//! handles, and a single-shot response slot.
//!
//! The pieces, leaves first: [`clock`] holds the virtual clock and the
//! deadline primitive; [`executor`] the run queue, the deadline registry and
//! the task arena; [`job`] the poll-once, fetch-once adapter over a spawned
//! task.  [`fields`], [`http`], [`outparam`] and [`resources`] are the
//! protocol state machines; [`streams`] and [`text`] the captured output
//! sinks and their report; [`ctx`] ties one run together for its driver, and
//! [`iface`] states the embedding interface those types serve.

pub mod clock;
pub mod ctx;
pub mod executor;
pub mod fields;
pub mod http;
pub mod iface;
pub mod job;
pub mod outparam;
pub mod resources;
mod seq_util;
pub mod streams;
pub mod text;
