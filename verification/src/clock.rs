//! The virtual clock and the deadline suspension primitive.
//!
//! The clock is a plain counter that only the external driver moves; nothing
//! in the runtime reads real time.  A [`Deadline`] marks a point in virtual
//! time at which a suspended computation becomes runnable again.

use vstd::prelude::*;

verus! {

/// A driver-controlled monotonic counter standing in for "now".
///
/// One clock is shared (by explicit threading) among the scheduler and every
/// deadline of a run; only the driver advances it.
pub struct Clock {
    now: u64,
}

impl Clock {
    /// The current virtual time.
    pub closed spec fn spec_now(&self) -> u64 {
        self.now
    }

    /// A fresh clock starts at virtual time zero.
    pub fn new() -> (c: Clock)
        ensures
            c.spec_now() == 0,
    {
        Clock { now: 0 }
    }

    /// Read the current virtual time.
    pub fn get(&self) -> (t: u64)
        ensures
            t == self.spec_now(),
    {
        self.now
    }

    /// Move the clock.  The driver only ever moves it forward; the counter
    /// itself places no condition on the target.
    pub fn set(&mut self, to: u64)
        ensures
            final(self).spec_now() == to,
    {
        self.now = to;
    }
}

/// A suspend-until-time primitive: a computation awaiting a deadline is
/// resumed once the clock reaches or passes `due`.
pub struct Deadline {
    due: u64,
}

impl Deadline {
    /// The virtual instant at which this deadline fires.
    pub closed spec fn spec_due(&self) -> u64 {
        self.due
    }

    /// A deadline for the given virtual instant.
    pub fn new(due: u64) -> (d: Deadline)
        ensures
            d.spec_due() == due,
    {
        Deadline { due }
    }

    /// The instant at which this deadline fires.
    pub fn due_time(&self) -> (r: u64)
        ensures
            r == self.spec_due(),
    {
        self.due
    }

    /// The poll decision of a deadline: ready exactly when the clock has
    /// reached it.  A pending deadline is registered with the scheduler by
    /// its awaiting task, not here.
    pub fn is_ready(&self, clock: &Clock) -> (r: bool)
        ensures
            r == (self.spec_due() <= clock.spec_now()),
    {
        self.due <= clock.get()
    }
}

} // verus!
