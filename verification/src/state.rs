//! The shared pause record and its transitions.
//!
//! A [`PauseState`] is the protected record `(paused, waiter)`: the pause
//! flag, and the at-most-one parked notification handle.  Every operation
//! of the controller and of the wrapper's readiness protocol is, under the
//! critical section, one of the transitions below.  Each executable
//! transition is specified against a spec-level counterpart, so the model
//! lemmas in [`crate::model`] speak about exactly what the code does.

use vstd::prelude::*;

use crate::notify::clone_waker;

verus! {

/// The record shared by the wrapper and all controller handles:
/// the pause flag and the waiter slot.
pub struct PauseState {
    /// Advisory flag read by the wrapper's readiness protocol.
    pub paused: bool,
    /// The most recently parked notification handle, if any.
    pub waiter: Option<core::task::Waker>,
}

/// What a poll of the wrapper does, as decided under the critical section:
/// either delegate to the inner computation (after the lock is released),
/// or park the scheduler's handle and report "not ready".
#[derive(Clone, Copy, Debug, PartialEq, Eq, Structural)]
pub enum PollStep {
    /// The flag was clear: poll the inner computation and return its
    /// result verbatim.
    Delegate,
    /// The flag was set: the handle is parked; report "not ready".
    Park,
}

impl PauseState {
    /// The state a fresh wrapper starts in: running, no parked handle.
    pub open spec fn initial() -> PauseState {
        PauseState { paused: false, waiter: None }
    }

    /// Transition taken by `pause`: set the flag, leave the waiter slot alone.
    pub open spec fn pause_step(self) -> PauseState {
        PauseState { paused: true, waiter: self.waiter }
    }

    /// Transition taken by `resume`: clear the flag and empty the waiter
    /// slot.  Whatever the slot held is what `resume` fires.
    pub open spec fn resume_step(self) -> PauseState {
        PauseState { paused: false, waiter: None }
    }

    /// Transition taken by a poll that observes the flag set: the slot is
    /// overwritten with the polling scheduler's handle.
    pub open spec fn park_step(self, h: core::task::Waker) -> PauseState {
        PauseState { paused: self.paused, waiter: Some(h) }
    }

    /// A fresh record: running, empty waiter slot.
    pub fn new() -> (s: PauseState)
        ensures
            s == PauseState::initial(),
    {
        PauseState { paused: false, waiter: None }
    }

    /// Read the pause flag.  No side effects.
    pub fn is_paused(&self) -> (b: bool)
        ensures
            b == self.paused,
    {
        self.paused
    }

    /// Set the pause flag.  Does not touch the waiter slot.
    pub fn pause(&mut self)
        ensures
            *final(self) == old(self).pause_step(),
    {
        self.paused = true;
    }

    /// Clear the pause flag and take whatever handle was parked.  The
    /// caller fires the returned handle, if any, after releasing the
    /// critical section.
    pub fn resume(&mut self) -> (fired: Option<core::task::Waker>)
        ensures
            *final(self) == old(self).resume_step(),
            fired == old(self).waiter,
    {
        self.paused = false;
        self.waiter.take()
    }

    /// One poll's decision, taken under the critical section.
    ///
    /// If the flag is clear the record is untouched and the poll must
    /// delegate to the inner computation; if it is set, a clone of the
    /// scheduler's handle overwrites the waiter slot (discarding any
    /// previous occupant) and the poll reports "not ready".  The result is
    /// `Delegate` exactly when the flag was observed clear, so the inner
    /// computation is never polled during a poll that observed the pause.
    pub fn on_poll(&mut self, h: &core::task::Waker) -> (d: PollStep)
        ensures
            (d is Delegate) == !old(self).paused,
            old(self).paused ==> *final(self) == old(self).park_step(*h),
            !old(self).paused ==> *final(self) == *old(self),
    {
        if self.paused {
            self.waiter = Some(clone_waker(h));
            PollStep::Park
        } else {
            PollStep::Delegate
        }
    }
}

} // verus!
