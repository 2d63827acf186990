use std::future::Future;
use url_uploader::coordinator::{Acquire, Cancel, Coordinator};

#[test]
fn first_acquire_wins_others_busy() {
    let mut c = Coordinator::new();
    assert_eq!(c.acquire(7, 100), Acquire::Granted);
    assert_eq!(c.acquire(7, 200), Acquire::Busy);
    assert_eq!(c.acquire(7, 100), Acquire::Busy);
    assert_eq!(c.owner_of(7), Some(100));
}

#[test]
fn second_user_in_same_chat_gets_busy() {
    let mut c = Coordinator::new();
    assert_eq!(c.acquire(-1001, 1), Acquire::Granted);
    assert_eq!(c.acquire(-1001, 2), Acquire::Busy);
    assert_eq!(c.owner_of(-1001), Some(1));
}

#[test]
fn different_chats_are_independent() {
    let mut c = Coordinator::new();
    assert_eq!(c.acquire(1, 10), Acquire::Granted);
    assert_eq!(c.acquire(2, 20), Acquire::Granted);
    c.release(1);
    assert_eq!(c.owner_of(1), None);
    assert_eq!(c.owner_of(2), Some(20));
}

#[test]
fn non_owner_cancel_is_unauthorized() {
    let mut c = Coordinator::new();
    c.acquire(5, 1);
    assert_eq!(c.cancel(5, 2), Cancel::Unauthorized);
    assert_eq!(c.owner_of(5), Some(1));
    assert_eq!(c.acquire(5, 2), Acquire::Busy);
}

#[test]
fn owner_cancel_is_signalled_and_repeatable() {
    let mut c = Coordinator::new();
    c.acquire(5, 1);
    assert_eq!(c.cancel(5, 1), Cancel::Signalled);
    assert_eq!(c.cancel(5, 1), Cancel::Signalled);
    assert_eq!(c.owner_of(5), Some(1));
}

#[test]
fn cancel_without_lease_is_not_found() {
    let mut c = Coordinator::new();
    assert_eq!(c.cancel(9, 1), Cancel::NotFound);
}

#[test]
fn release_frees_chat_and_is_idempotent() {
    let mut c = Coordinator::new();
    c.acquire(3, 1);
    c.release(3);
    c.release(3);
    assert_eq!(c.owner_of(3), None);
    assert_eq!(c.acquire(3, 2), Acquire::Granted);
}

#[test]
fn armed_handle_fires_on_cancel() {
    let mut c = Coordinator::new();
    c.acquire(4, 1);
    let (trigger, tripwire) = stream_cancel::Tripwire::new();
    assert!(c.arm(4, trigger));
    let mut fired = Box::pin(tripwire);
    let waker = futures::task::noop_waker();
    let mut cx = std::task::Context::from_waker(&waker);
    assert!(fired.as_mut().poll(&mut cx).is_pending());
    assert_eq!(c.cancel(4, 1), Cancel::Signalled);
    assert_eq!(fired.as_mut().poll(&mut cx), std::task::Poll::Ready(true));
}

#[test]
fn handle_after_cancel_fires_at_once() {
    let mut c = Coordinator::new();
    c.acquire(4, 1);
    assert_eq!(c.cancel(4, 1), Cancel::Signalled);
    let (trigger, tripwire) = stream_cancel::Tripwire::new();
    assert!(!c.arm(4, trigger));
    let mut fired = Box::pin(tripwire);
    let waker = futures::task::noop_waker();
    let mut cx = std::task::Context::from_waker(&waker);
    assert_eq!(fired.as_mut().poll(&mut cx), std::task::Poll::Ready(true));
}

#[test]
fn arming_without_lease_is_refused() {
    let mut c = Coordinator::new();
    let (trigger, _tripwire) = stream_cancel::Tripwire::new();
    assert!(!c.arm(11, trigger));
    assert_eq!(c.owner_of(11), None);
}

#[test]
fn cancel_request_is_recorded() {
    let mut c = Coordinator::new();
    c.acquire(6, 1);
    assert!(!c.cancel_requested(6));
    assert_eq!(c.cancel(6, 2), Cancel::Unauthorized);
    assert!(!c.cancel_requested(6));
    assert_eq!(c.cancel(6, 1), Cancel::Signalled);
    assert!(c.cancel_requested(6));
    c.release(6);
    assert!(!c.cancel_requested(6));
}
