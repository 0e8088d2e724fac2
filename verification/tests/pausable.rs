//! End-to-end scenarios and concrete instances of the protocol's laws,
//! driven through the public API with real notification handles.

use std::sync::atomic::AtomicUsize;
use std::sync::atomic::Ordering;
use std::sync::Arc;
use std::task::Wake;
use std::task::Waker;

use pausable::Controller;
use pausable::Pausable;
use pausable::PauseState;
use pausable::PollStep;

/// A notification handle that counts how often it is fired.
struct WakeCounter(AtomicUsize);

impl Wake for WakeCounter {
    fn wake(self: Arc<Self>) {
        self.0.fetch_add(1, Ordering::SeqCst);
    }
}

fn counting_waker() -> (Arc<WakeCounter>, Waker) {
    let counter = Arc::new(WakeCounter(AtomicUsize::new(0)));
    let waker = Waker::from(counter.clone());
    (counter, waker)
}

fn fires(counter: &Arc<WakeCounter>) -> usize {
    counter.0.load(Ordering::SeqCst)
}

/// One poll of a wrapped sequence: delegate to the iterator when running,
/// report "not ready" (None) when parked.
fn poll_seq(p: &mut Pausable<std::vec::IntoIter<i32>>, w: &Waker) -> Option<Option<i32>> {
    match p.poll_step(w) {
        PollStep::Delegate => Some(p.inner.next()),
        PollStep::Park => None,
    }
}

#[test]
fn pass_through() {
    let p = Pausable::new(42u32);
    let ctrl = p.controller();
    assert!(!ctrl.is_paused());
    let (counter, waker) = counting_waker();
    assert_eq!(p.poll_step(&waker), PollStep::Delegate);
    let value = p.inner;
    assert_eq!(value, 42);
    assert!(!ctrl.is_paused());
    assert_eq!(fires(&counter), 0);
}

#[test]
fn pause_before_first_poll_then_resume() {
    let p = Pausable::new("ok");
    let ctrl = p.controller();
    ctrl.pause();
    let (counter, waker) = counting_waker();
    assert_eq!(p.poll_step(&waker), PollStep::Park);
    assert_eq!(fires(&counter), 0);
    ctrl.resume();
    assert_eq!(fires(&counter), 1);
    assert_eq!(p.poll_step(&waker), PollStep::Delegate);
    assert_eq!(p.inner, "ok");
}

#[test]
fn pause_mid_flight_for_a_sequence() {
    let mut p = Pausable::new(vec![1, 2, 3].into_iter());
    let ctrl = p.controller();
    let (first_counter, first_waker) = counting_waker();
    let (second_counter, second_waker) = counting_waker();
    assert_eq!(poll_seq(&mut p, &first_waker), Some(Some(1)));
    assert_eq!(poll_seq(&mut p, &first_waker), Some(Some(2)));
    ctrl.pause();
    assert_eq!(poll_seq(&mut p, &first_waker), None);
    // A spurious re-poll while still paused replaces the parked handle.
    assert_eq!(poll_seq(&mut p, &second_waker), None);
    ctrl.resume();
    assert_eq!(fires(&first_counter), 0);
    assert_eq!(fires(&second_counter), 1);
    assert_eq!(poll_seq(&mut p, &second_waker), Some(Some(3)));
    assert_eq!(poll_seq(&mut p, &second_waker), Some(None));
}

#[test]
fn multiple_controllers() {
    let p = Pausable::new(7u8);
    let a = p.controller();
    let b = p.controller();
    a.pause();
    assert!(b.is_paused());
    let (counter, waker) = counting_waker();
    assert_eq!(p.poll_step(&waker), PollStep::Park);
    b.resume();
    assert_eq!(fires(&counter), 1);
    assert_eq!(p.poll_step(&waker), PollStep::Delegate);
    assert_eq!(p.inner, 7u8);
}

#[test]
fn resume_without_prior_pause() {
    let p = Pausable::new(1u8);
    let ctrl = p.controller();
    ctrl.resume();
    assert!(!ctrl.is_paused());
    let (counter, waker) = counting_waker();
    assert_eq!(p.poll_step(&waker), PollStep::Delegate);
    assert_eq!(fires(&counter), 0);
}

#[test]
fn drop_while_paused() {
    let p = Pausable::new(5u64);
    let ctrl = p.controller();
    ctrl.pause();
    let (_counter, waker) = counting_waker();
    assert_eq!(p.poll_step(&waker), PollStep::Park);
    drop(p);
    // The outstanding controller stays valid; its operations only mutate
    // the orphaned flag.
    ctrl.resume();
    assert!(!ctrl.is_paused());
    ctrl.pause();
    assert!(ctrl.is_paused());
}

#[test]
fn transparency_when_never_paused() {
    let mut p = Pausable::new(vec![10, 20].into_iter());
    let ctrl = p.controller();
    let (counter, waker) = counting_waker();
    assert_eq!(poll_seq(&mut p, &waker), Some(Some(10)));
    assert_eq!(poll_seq(&mut p, &waker), Some(Some(20)));
    assert_eq!(poll_seq(&mut p, &waker), Some(None));
    assert!(!ctrl.is_paused());
    assert_eq!(fires(&counter), 0);
}

#[test]
fn repeated_pause_equals_one() {
    let p = Pausable::new(0u8);
    let ctrl = p.controller();
    ctrl.pause();
    ctrl.pause();
    ctrl.pause();
    assert!(ctrl.is_paused());
    let (counter, waker) = counting_waker();
    assert_eq!(p.poll_step(&waker), PollStep::Park);
    // The repeated pauses did not touch the parked handle: one resume
    // still fires it exactly once.
    ctrl.pause();
    ctrl.resume();
    assert_eq!(fires(&counter), 1);
}

#[test]
fn repeated_resume_on_running_fires_nothing() {
    let p = Pausable::new(0u8);
    let ctrl = p.controller();
    let (counter, waker) = counting_waker();
    assert_eq!(p.poll_step(&waker), PollStep::Delegate);
    ctrl.resume();
    ctrl.resume();
    ctrl.resume();
    assert!(!ctrl.is_paused());
    assert_eq!(fires(&counter), 0);
}

#[test]
fn no_lost_wake_fires_exactly_once() {
    let p = Pausable::new(0u8);
    let ctrl = p.controller();
    ctrl.pause();
    let (counter, waker) = counting_waker();
    assert_eq!(p.poll_step(&waker), PollStep::Park);
    ctrl.resume();
    assert_eq!(fires(&counter), 1);
    // Only the resume that took the handle fired it.
    ctrl.resume();
    assert_eq!(fires(&counter), 1);
}

#[test]
fn second_poll_overwrites_parked_waiter() {
    let p = Pausable::new(0u8);
    let ctrl = p.controller();
    ctrl.pause();
    let (first_counter, first_waker) = counting_waker();
    let (second_counter, second_waker) = counting_waker();
    assert_eq!(p.poll_step(&first_waker), PollStep::Park);
    assert_eq!(p.poll_step(&second_waker), PollStep::Park);
    ctrl.resume();
    assert_eq!(fires(&first_counter), 0);
    assert_eq!(fires(&second_counter), 1);
}

#[test]
fn terminal_result_then_controller_operations_fire_nothing() {
    let mut p = Pausable::new(vec![9].into_iter());
    let ctrl = p.controller();
    let (counter, waker) = counting_waker();
    assert_eq!(poll_seq(&mut p, &waker), Some(Some(9)));
    assert_eq!(poll_seq(&mut p, &waker), Some(None));
    // The scheduler polls no further; pause and resume find an empty
    // waiter slot and fire nothing.
    ctrl.pause();
    ctrl.resume();
    ctrl.resume();
    assert_eq!(fires(&counter), 0);
}

#[test]
fn controller_clones_share_state() {
    let ctrl = Controller::new();
    let other = ctrl.clone();
    other.pause();
    assert!(ctrl.is_paused());
    ctrl.resume();
    assert!(!other.is_paused());
}

#[test]
fn pause_state_transitions() {
    let mut s = PauseState::new();
    assert!(!s.is_paused());
    s.pause();
    assert!(s.is_paused());
    s.pause();
    assert!(s.is_paused());
    let fired = s.resume();
    assert!(fired.is_none());
    assert!(!s.is_paused());
}

#[test]
fn pause_state_parks_and_releases_the_handle() {
    let mut s = PauseState::new();
    s.pause();
    let (counter, waker) = counting_waker();
    assert_eq!(s.on_poll(&waker), PollStep::Park);
    let fired = s.resume();
    assert!(fired.is_some());
    // Firing the released clone notifies the original handle's task.
    fired.unwrap().wake();
    assert_eq!(fires(&counter), 1);
}

#[test]
fn pause_state_delegates_while_running() {
    let mut s = PauseState::new();
    let (counter, waker) = counting_waker();
    assert_eq!(s.on_poll(&waker), PollStep::Delegate);
    let fired = s.resume();
    assert!(fired.is_none());
    assert_eq!(fires(&counter), 0);
}
