//! The pause/resume handshake as a transition system, and its laws.
//!
//! An [`Event`] is one interaction with the shared record: a controller's
//! `pause` or `resume`, or one scheduler poll offering a notification
//! handle.  [`step`] is the transition each event performs under the
//! critical section — by construction the very transitions the executable
//! operations in [`crate::state`] are specified against — and [`run`]
//! folds a whole interleaving.  The lemmas below are the guarantees of the
//! primitive: transparency while never paused, idempotence of pause and of
//! resume, no lost wakeups, the waiter slot as a one-place buffer, no
//! delegation while paused, and quietness once the scheduler stops
//! polling.

use vstd::prelude::*;

use crate::state::PauseState;

verus! {

/// One interaction with the shared pause record.
pub enum Event {
    /// A controller sets the pause flag.
    Pause,
    /// A controller clears the flag and fires whatever handle was parked.
    Resume,
    /// The scheduler polls the wrapper, offering this notification handle.
    Poll(core::task::Waker),
}

/// The transition one event performs on the record under the critical
/// section.  A poll parks the offered handle when the flag is set and
/// leaves the record alone when it is clear; pause and resume are the
/// transitions of the controller operations.
pub open spec fn step(s: PauseState, e: Event) -> PauseState {
    match e {
        Event::Pause => s.pause_step(),
        Event::Resume => s.resume_step(),
        Event::Poll(h) => if s.paused {
            s.park_step(h)
        } else {
            s
        },
    }
}

/// The notification handle this event fires, if any: only a resume fires,
/// and only the handle that was parked when it ran.
pub open spec fn fired(s: PauseState, e: Event) -> Option<core::task::Waker> {
    if e is Resume {
        s.waiter
    } else {
        None
    }
}

/// Whether the event is a poll that goes on to poll the inner
/// computation.  Exactly the polls that observe the flag clear delegate.
pub open spec fn delegates(s: PauseState, e: Event) -> bool {
    e is Poll && !s.paused
}

/// The record after an interleaving of events, applied in order.
pub open spec fn run(s: PauseState, evs: Seq<Event>) -> PauseState
    decreases evs.len(),
{
    if evs.len() == 0 {
        s
    } else {
        step(run(s, evs.drop_last()), evs.last())
    }
}

/// The record as event `i` finds it: the state after the first `i` events.
pub open spec fn state_at(s: PauseState, evs: Seq<Event>, i: int) -> PauseState {
    run(s, evs.take(i))
}

/// The same event, `n` times in a row.
pub open spec fn repeated(e: Event, n: nat) -> Seq<Event> {
    Seq::new(n, |i: int| e)
}

/// The waiter slot is occupied only while the flag is set: a handle is
/// parked only by a poll that observed the pause, and the resume that
/// clears the flag also empties the slot.
pub open spec fn waiter_implies_paused(s: PauseState) -> bool {
    s.waiter is Some ==> s.paused
}

/// The invariant `waiter_implies_paused` holds of the initial record and
/// is preserved by every event, hence holds in every reachable state.
pub proof fn lemma_waiter_implies_paused(s: PauseState, evs: Seq<Event>)
    requires
        waiter_implies_paused(s),
    ensures
        waiter_implies_paused(run(s, evs)),
    decreases evs.len(),
{
    if evs.len() > 0 {
        lemma_waiter_implies_paused(s, evs.drop_last());
    }
}

/// Transparency: in an interleaving with no pause at all, starting from
/// the initial record, every poll delegates to the inner computation,
/// nothing ever fires, and the record never changes.  The wrapper is
/// observationally the inner computation.
pub proof fn lemma_transparency(s: PauseState, evs: Seq<Event>)
    requires
        !s.paused,
        s.waiter is None,
        forall|i: int| 0 <= i < evs.len() ==> !((#[trigger] evs[i]) is Pause),
    ensures
        run(s, evs) == s,
        forall|i: int|
            0 <= i < evs.len() && evs[i] is Poll ==> delegates(
                #[trigger] state_at(s, evs, i),
                evs[i],
            ),
        forall|i: int| 0 <= i < evs.len() ==> fired(#[trigger] state_at(s, evs, i), evs[i]) is None,
    decreases evs.len(),
{
    if evs.len() > 0 {
        let pre = evs.drop_last();
        let n = evs.len() - 1;
        assert(forall|i: int| 0 <= i < pre.len() ==> !((#[trigger] pre[i]) is Pause));
        lemma_transparency(s, pre);
        assert(evs.take(n as int) =~= pre);
        assert(step(s, evs.last()) == s);
        assert forall|i: int| 0 <= i < n implies state_at(s, evs, i) == state_at(s, pre, i) by {
            assert(evs.take(i) =~= pre.take(i));
        }
    }
}

/// While no resume runs, the flag, once set, stays set.
pub proof fn lemma_paused_persists(s: PauseState, evs: Seq<Event>)
    requires
        s.paused,
        forall|i: int| 0 <= i < evs.len() ==> !((#[trigger] evs[i]) is Resume),
    ensures
        run(s, evs).paused,
    decreases evs.len(),
{
    if evs.len() > 0 {
        assert(forall|i: int|
            0 <= i < evs.drop_last().len() ==> !((#[trigger] evs.drop_last()[i]) is Resume));
        lemma_paused_persists(s, evs.drop_last());
    }
}

/// No lost wakeup: if the record is paused and, before any resume, at
/// least one poll runs, then a handle is parked and stays parked, so the
/// next resume fires it — and the fired handle makes the scheduler poll
/// the wrapper again.
pub proof fn lemma_no_lost_wake(s: PauseState, evs: Seq<Event>, k: int)
    requires
        s.paused,
        forall|i: int| 0 <= i < evs.len() ==> !((#[trigger] evs[i]) is Resume),
        0 <= k < evs.len(),
        evs[k] is Poll,
    ensures
        run(s, evs).waiter is Some,
        fired(run(s, evs), Event::Resume) is Some,
    decreases evs.len(),
{
    let pre = evs.drop_last();
    assert(forall|i: int| 0 <= i < pre.len() ==> !((#[trigger] pre[i]) is Resume));
    if k == evs.len() - 1 {
        lemma_paused_persists(s, pre);
    } else {
        lemma_no_lost_wake(s, pre, k);
    }
}

/// Idempotent pause: any number of consecutive pauses leaves the record
/// exactly as one pause does.
pub proof fn lemma_pause_idempotent(s: PauseState, n: nat)
    requires
        n >= 1,
    ensures
        run(s, repeated(Event::Pause, n)) == step(s, Event::Pause),
    decreases n,
{
    let evs = repeated(Event::Pause, n);
    assert(evs.last() == Event::Pause);
    if n == 1 {
        assert(evs.drop_last() =~= Seq::<Event>::empty());
        assert(run(s, evs.drop_last()) == s);
    } else {
        lemma_pause_idempotent(s, (n - 1) as nat);
        assert(evs.drop_last() =~= repeated(Event::Pause, (n - 1) as nat));
        assert(run(s, evs) == step(run(s, evs.drop_last()), Event::Pause));
        assert(step(step(s, Event::Pause), Event::Pause) == step(s, Event::Pause));
    }
}

/// A state one event maps to itself is kept by any number of repetitions
/// of that event, and every one of them finds the record in that state.
pub proof fn lemma_fixpoint(s: PauseState, e: Event, n: nat)
    requires
        step(s, e) == s,
    ensures
        run(s, repeated(e, n)) == s,
        forall|i: int| 0 <= i <= n ==> #[trigger] state_at(s, repeated(e, n), i) == s,
    decreases n,
{
    let evs = repeated(e, n);
    if n == 0 {
        assert(evs.take(0) =~= Seq::<Event>::empty());
    } else {
        let pre = repeated(e, (n - 1) as nat);
        lemma_fixpoint(s, e, (n - 1) as nat);
        assert(evs.drop_last() =~= pre);
        assert forall|i: int| 0 <= i <= n implies #[trigger] state_at(s, evs, i) == s by {
            if i < n {
                assert(evs.take(i) =~= pre.take(i));
                assert(state_at(s, pre, i) == s);
            } else {
                assert(evs.take(i) =~= evs);
            }
        }
    }
}

/// Idempotent resume on a running record: any number of consecutive
/// resumes leaves the record unchanged, and none of them fires anything,
/// because the waiter slot is and stays empty.
pub proof fn lemma_resume_idempotent_running(s: PauseState, n: nat)
    requires
        !s.paused,
        s.waiter is None,
    ensures
        run(s, repeated(Event::Resume, n)) == s,
        forall|i: int|
            0 <= i < n ==> fired(
                #[trigger] state_at(s, repeated(Event::Resume, n), i),
                repeated(Event::Resume, n)[i],
            ) is None,
{
    lemma_fixpoint(s, Event::Resume, n);
}

/// At most one parked waiter: a second poll while paused overwrites the
/// first handle; the slot never accumulates.
pub proof fn lemma_waiter_overwritten(s: PauseState, h1: core::task::Waker, h2: core::task::Waker)
    requires
        s.paused,
    ensures
        step(s, Event::Poll(h1)).waiter == Some(h1),
        step(step(s, Event::Poll(h1)), Event::Poll(h2)).waiter == Some(h2),
{
}

/// A poll that observes the flag set does not delegate: the inner
/// computation is not polled during that poll, and the record merely
/// parks the offered handle.
pub proof fn lemma_paused_poll_does_not_delegate(s: PauseState, h: core::task::Waker)
    requires
        s.paused,
    ensures
        !delegates(s, Event::Poll(h)),
        step(s, Event::Poll(h)) == s.park_step(h),
{
}

/// Only the resume that takes a handle fires one: immediately after a
/// resume the slot is empty, so a second resume fires nothing.
pub proof fn lemma_resume_fires_at_most_once(s: PauseState)
    ensures
        fired(step(s, Event::Resume), Event::Resume) is None,
{
}

/// The resume/poll race of a paused record, resolved by the critical
/// section: whichever order the lock grants, no wakeup is lost.  If the
/// poll runs first it parks its handle and the resume fires exactly that
/// handle; if the resume runs first, the poll observes the flag clear and
/// delegates straight to the inner computation.
pub proof fn lemma_resume_poll_race(s: PauseState, h: core::task::Waker)
    requires
        s.paused,
    ensures
        fired(step(s, Event::Poll(h)), Event::Resume) == Some(h),
        delegates(step(s, Event::Resume), Event::Poll(h)),
{
}

/// Terminal quietness: once the scheduler stops polling (as it does after
/// the inner computation's terminal result was delivered — a delivery that
/// happens with the flag observed clear, hence, by
/// `waiter_implies_paused`, with an empty slot), any run of pauses and
/// resumes fires nothing: there is no parked handle to fire, and none is
/// ever parked again.
pub proof fn lemma_terminal_quiet(s: PauseState, evs: Seq<Event>)
    requires
        s.waiter is None,
        forall|i: int| 0 <= i < evs.len() ==> !((#[trigger] evs[i]) is Poll),
    ensures
        run(s, evs).waiter is None,
        forall|i: int| 0 <= i < evs.len() ==> fired(#[trigger] state_at(s, evs, i), evs[i]) is None,
    decreases evs.len(),
{
    if evs.len() > 0 {
        let pre = evs.drop_last();
        let n = evs.len() - 1;
        assert(forall|i: int| 0 <= i < pre.len() ==> !((#[trigger] pre[i]) is Poll));
        lemma_terminal_quiet(s, pre);
        assert(evs.take(n as int) =~= pre);
        assert forall|i: int| 0 <= i < n implies state_at(s, evs, i) == state_at(s, pre, i) by {
            assert(evs.take(i) =~= pre.take(i));
        }
    }
}

} // verus!
