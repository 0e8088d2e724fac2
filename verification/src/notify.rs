//! Trusted declarations for the scheduler's notification handle.
//!
//! The notification handle is `core::task::Waker`: an opaque, cloneable
//! token the scheduler supplies during a poll.  Firing it makes the
//! scheduler poll again.  Verus knows nothing of its inside; the two
//! functions below are the only operations this crate relies on.

use vstd::prelude::*;

verus! {

#[verifier::external_type_specification]
#[verifier::external_body]
pub struct ExWaker(core::task::Waker);

/// Relies on `Waker::clone`: the clone is a duplicate of the handle and
/// wakes the same task as the original.
#[verifier::external_body]
pub(crate) fn clone_waker(h: &core::task::Waker) -> (r: core::task::Waker)
    ensures
        r == *h,
{
    h.clone()
}

/// Relies on `Waker::wake`: fires the handle, making the scheduler poll
/// the associated task again.  Consumes the handle; nothing is returned.
#[verifier::external_body]
pub(crate) fn wake_handle(h: core::task::Waker) {
    h.wake()
}

} // verus!
