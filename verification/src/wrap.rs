//! The pausable wrapper: an inner computation plus a shared pause record.
//!
//! The wrapper owns the inner computation exclusively and shares the pause
//! record with every controller taken from it.  Its readiness protocol is
//! [`Pausable::poll_step`]: the decision of one poll, taken under the
//! critical section.  The caller that drives the computation then either
//! polls `inner` with the scheduler's handle (on `Delegate`) or reports
//! "not ready" (on `Park`); the inner computation itself is outside this
//! crate's reach, which is why the field is public and the delegation is
//! the caller's.

use vstd::prelude::*;

use crate::control::Controller;
use crate::state::PollStep;

verus! {

/// A computation that can be paused and resumed through detached
/// [`Controller`] handles.
pub struct Pausable<F> {
    /// The wrapped computation.  Polled by the driver only when
    /// [`Pausable::poll_step`] says `Delegate`.
    pub inner: F,
    /// The wrapper's own handle on the shared pause record; the source of
    /// every handle [`Pausable::controller`] gives out.
    pub controller: Controller,
}

impl<F> Pausable<F> {
    /// Wrap `inner`.  The fresh shared record says running, with an empty
    /// waiter slot, so until the first `pause` the wrapper is transparent.
    pub fn new(inner: F) -> (p: Pausable<F>)
        ensures
            p.inner == inner,
    {
        Pausable { inner, controller: Controller::new() }
    }

    /// A fresh controller handle; all handles returned here, and their
    /// clones, share this wrapper's pause record.
    pub fn controller(&self) -> Controller {
        self.controller.clone()
    }

    /// The decision of one poll, taken under the critical section: either
    /// delegate to `inner` with the scheduler's handle, or park a clone of
    /// the handle and report "not ready".  See [`Controller::poll_step`].
    pub fn poll_step(&self, h: &core::task::Waker) -> PollStep {
        self.controller.poll_step(h)
    }
}

} // verus!
