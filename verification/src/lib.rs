//! A pausable wrapper around an asynchronous computation.
//!
//! The wrapper owns an inner computation and shares a small pause record
//! with any number of detachable [`Controller`] handles.  While the record
//! says "running", the wrapper behaves exactly like the inner computation;
//! while it says "paused", each poll parks the scheduler's notification
//! handle and reports "not ready".  Resuming clears the flag and fires the
//! parked handle, so the scheduler polls again.

pub mod control;
pub mod model;
pub mod notify;
pub mod state;
pub mod wrap;

pub use control::Controller;
pub use wrap::Pausable;
pub use state::PauseState;
pub use state::PollStep;
