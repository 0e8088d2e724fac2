//! The controller: a cheap, cloneable handle on the shared pause record.
//!
//! All clones of a controller, and the wrapper they came from, share one
//! [`PauseState`] behind a reference-counted reader-writer lock.  Every
//! operation acquires the critical section briefly and releases it before
//! doing anything else; in particular `resume` fires the taken handle only
//! after the lock is gone, so no user code ever runs under it.
//!
//! Because the record is shared, nothing can be promised here about its
//! value across calls: another handle may mutate it at any time.  What each
//! critical section does to the record is exactly one transition of
//! [`PauseState`], whose contracts and the lemmas of [`crate::model`] carry
//! the guarantees.

use std::sync::Arc;
use vstd::prelude::*;
use vstd::rwlock::RwLock;
use vstd::rwlock::RwLockPredicate;

use crate::notify::wake_handle;
use crate::state::PauseState;
use crate::state::PollStep;

verus! {

/// Every combination of flag and waiter slot is a well-defined state of
/// the record, so the lock's invariant admits them all.
pub struct AnyState {}

impl RwLockPredicate<PauseState> for AnyState {
    open spec fn inv(self, v: PauseState) -> bool {
        true
    }
}

/// The controller of a pausable wrapper.
///
/// Cloneable; all clones, and the wrapper itself, refer to the same shared
/// pause record.  Safe to use from any thread.
#[derive(Clone)]
pub struct Controller {
    shared: Arc<RwLock<PauseState, AnyState>>,
}

impl Controller {
    /// A fresh controller over a fresh record: running, no parked handle.
    pub fn new() -> (c: Controller) {
        Controller {
            shared: Arc::new(RwLock::new(PauseState::new(), Ghost(AnyState {}))),
        }
    }

    /// Is the wrapper paused?  Reads the flag; no side effects.
    pub fn is_paused(&self) -> bool {
        let handle = self.shared.acquire_read();
        let b = handle.borrow().is_paused();
        handle.release_read();
        b
    }

    /// Pause the wrapper: set the flag.  The waiter slot is untouched.  A
    /// poll that acquires the critical section after this one observes the
    /// pause; repeated pauses have no further effect.
    pub fn pause(&self) {
        let (mut s, handle) = self.shared.acquire_write();
        s.pause();
        handle.release_write(s);
    }

    /// Resume the wrapper: clear the flag and empty the waiter slot, then,
    /// after releasing the critical section, fire the taken handle if
    /// there was one.  Only a resume that actually takes a handle fires;
    /// repeated resumes leave the flag clear and fire nothing more.
    pub fn resume(&self) {
        let (mut s, handle) = self.shared.acquire_write();
        let fired = s.resume();
        handle.release_write(s);
        if let Some(h) = fired {
            wake_handle(h);
        }
    }

    /// One poll's decision on behalf of the wrapper: under the critical
    /// section, either leave the record alone and tell the caller to
    /// delegate to the inner computation (flag clear), or park a clone of
    /// `h` in the waiter slot and tell it to report "not ready" (flag
    /// set).  See [`PauseState::on_poll`] for the exact transition.
    pub fn poll_step(&self, h: &core::task::Waker) -> PollStep {
        let (mut s, handle) = self.shared.acquire_write();
        let d = s.on_poll(h);
        handle.release_write(s);
        d
    }
}

} // verus!
