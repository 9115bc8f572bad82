use std::sync::atomic::{AtomicBool, Ordering};
use std::sync::Arc;

use rustix::fd::AsRawFd;
use simple_rt::driver::Polled;
use simple_rt::reactor::Reactor;
use simple_rt::registry::Registry;
use simple_rt::IoError;

fn flag_waker() -> (Arc<AtomicBool>, core::task::Waker) {
    let flag = Arc::new(AtomicBool::new(false));
    let inner = flag.clone();
    let waker = waker_fn::waker_fn(move || {
        inner.store(true, Ordering::SeqCst);
    });
    (flag, waker)
}

#[test]
fn registry_insert_remove_reuse() {
    let mut r = Registry::new();
    let k0 = r.insert(3);
    let k1 = r.insert(4);
    assert_eq!((k0, k1), (0, 1));
    assert_eq!(r.fd_of(k0), Some(3));
    assert_eq!(r.fd_of(k1), Some(4));
    assert!(r.remove(k0));
    assert!(!r.contains(k0));
    assert!(!r.remove(k0));
    let k2 = r.insert(5);
    assert_eq!(k2, k0);
    assert_eq!(r.fd_of(k2), Some(5));
}

#[test]
fn registry_take_ready_consumes_callback_once() {
    let mut r = Registry::new();
    let key = r.insert(9);
    let (_flag, waker) = flag_waker();
    assert!(r.set_waker(key, waker));
    let first = r.take_ready(key);
    assert!(first.is_some());
    assert!(r.is_ready(key));
    let second = r.take_ready(key);
    assert!(second.is_none());
    assert!(r.is_ready(key));
}

#[test]
fn reactor_register_then_cancel_unregisters() {
    let mut reactor = Reactor::new().expect("a polling instance");
    let (read_end, _write_end) = rustix::pipe::pipe().expect("a pipe");
    let fd = read_end.as_raw_fd();
    let key = reactor.register_interest(fd).expect("registration");
    assert!(reactor.contains(key));
    reactor.cancel_interest(key);
    assert!(!reactor.contains(key));
    // The slot is free again and, because the descriptor was deregistered
    // from the OS poller as well, the same descriptor registers cleanly a
    // second time (a leaked OS registration would be rejected as a duplicate).
    let again = reactor.register_interest(fd).expect("re-registration");
    assert_eq!(again, key);
    reactor.cancel_interest(again);
}

#[test]
fn reactor_failed_registration_leaves_no_trace() {
    let mut reactor = Reactor::new().expect("a polling instance");
    let bad: i32 = -1;
    assert!(reactor.register_interest(bad).is_err());
    let (read_end, _write_end) = rustix::pipe::pipe().expect("a pipe");
    let key = reactor.register_interest(read_end.as_raw_fd()).expect("registration");
    // The failed attempt gave its slot back, so the first good registration
    // gets the least key.
    assert_eq!(key, 0);
    reactor.cancel_interest(key);
}

#[test]
fn block_until_marks_ready_and_wakes() {
    let mut reactor = Reactor::new().expect("a polling instance");
    let (read_end, write_end) = rustix::pipe::pipe().expect("a pipe");
    let key = reactor.register_interest(read_end.as_raw_fd()).expect("registration");

    let (flag, waker) = flag_waker();
    match reactor.poll_interest(key, waker) {
        Polled::Pending => {},
        Polled::Ready(()) => panic!("nothing was written yet"),
    }
    assert!(!flag.load(Ordering::SeqCst));

    rustix::io::write(&write_end, b"x").expect("write into the pipe");
    reactor.block_until().expect("a successful wait");

    assert!(flag.load(Ordering::SeqCst), "the stored wake callback must fire");
    assert!(reactor.ready(key), "readiness is level-triggered and persists");
    let (_flag2, waker2) = flag_waker();
    match reactor.poll_interest(key, waker2) {
        Polled::Ready(()) => {},
        Polled::Pending => panic!("an already-ready entry completes on its next poll"),
    }
    reactor.cancel_interest(key);
    assert!(!reactor.contains(key));
}

#[test]
fn reactor_waker_nudges_blocking_wait() {
    let mut reactor = Reactor::new().expect("a polling instance");
    let waker = reactor.waker();
    waker.wake();
    // The nudge is already pending, so the wait returns instead of blocking
    // forever with nothing registered.
    reactor.block_until().expect("the nudged wait returns");
}

#[test]
fn io_error_interrupted_is_recognised() {
    assert!(IoError::Interrupted.is_interrupted());
    assert!(!IoError::Os(5).is_interrupted());
    assert!(!IoError::Other.is_interrupted());
}

#[test]
fn notify_keys_marks_reported_and_ignores_unknown() {
    let mut reactor = Reactor::new().expect("a polling instance");
    let (read_end, _write_end) = rustix::pipe::pipe().expect("a pipe");
    let key = reactor.register_interest(read_end.as_raw_fd()).expect("registration");
    let (flag, waker) = flag_waker();
    match reactor.poll_interest(key, waker) {
        Polled::Pending => {},
        Polled::Ready(()) => panic!("nothing was written"),
    }
    let stray = key + 7;
    reactor.notify_keys(&vec![key, stray]);
    assert!(flag.load(Ordering::SeqCst), "the reported key's callback fires");
    assert!(reactor.ready(key));
    assert!(!reactor.contains(stray), "a key with no entry is ignored");
    let (flag2, waker2) = flag_waker();
    match reactor.poll_interest(key, waker2) {
        Polled::Ready(()) => {},
        Polled::Pending => panic!("the marked entry completes on its next poll"),
    }
    // The first callback was consumed by the first notify, and the ready
    // fast path stored no second one, so another notify finds nothing to fire.
    reactor.notify_keys(&vec![key]);
    assert!(!flag2.load(Ordering::SeqCst), "no callback is left to fire");
    reactor.cancel_interest(key);
}
