//! Trusted boundary to the OS readiness poller and to `core::task::Waker`.
//!
//! Everything here is an `external_body` wrapper around one outside call, or a
//! type declaration that lets those values cross verified signatures. The
//! contracts state only what the outside sources plainly show; readiness
//! itself depends on the machine, so nothing is promised about which keys a
//! wait reports.

use vstd::prelude::*;
use crate::IoError;
use std::sync::Arc;
use std::time::Duration;

verus! {

/// `polling::Poller` is opaque to the verifier; values of it are only carried
/// through and handed to the wrappers below.
#[verifier::external_type_specification]
#[verifier::external_body]
pub struct ExPoller(polling::Poller);

/// `core::task::Waker` is opaque to the verifier; the registry stores one per
/// pending interest and `wake` hands it back to whoever built it.
#[verifier::external_type_specification]
#[verifier::external_body]
pub struct ExWaker(core::task::Waker);

/// Relies on `polling::Poller::new`: creates a fresh OS polling instance or
/// reports the OS error.
#[verifier::external_body]
pub(crate) fn poller_new() -> Result<Arc<polling::Poller>, IoError> {
    match polling::Poller::new() {
        Ok(p) => Ok(Arc::new(p)),
        Err(e) if e.kind() == std::io::ErrorKind::Interrupted => Err(IoError::Interrupted),
        Err(e) => Err(match e.raw_os_error() {
            Some(code) => IoError::Os(code),
            None => IoError::Other,
        }),
    }
}

/// Relies on `polling::Poller::add` (with `Source` implemented for `RawFd`):
/// registers read interest in `fd` under `key`, or reports the OS error.
#[verifier::external_body]
pub(crate) fn poller_add(poller: &Arc<polling::Poller>, fd: i32, key: usize) -> Result<
    (),
    IoError,
> {
    match poller.add(fd, polling::Event::readable(key)) {
        Ok(()) => Ok(()),
        Err(e) if e.kind() == std::io::ErrorKind::Interrupted => Err(IoError::Interrupted),
        Err(e) => Err(match e.raw_os_error() {
            Some(code) => IoError::Os(code),
            None => IoError::Other,
        }),
    }
}

/// Relies on `polling::Poller::delete`: removes the OS-level registration of
/// `fd`, or reports the OS error.
#[verifier::external_body]
pub(crate) fn poller_delete(poller: &Arc<polling::Poller>, fd: i32) -> Result<(), IoError> {
    match poller.delete(fd) {
        Ok(()) => Ok(()),
        Err(e) if e.kind() == std::io::ErrorKind::Interrupted => Err(IoError::Interrupted),
        Err(e) => Err(match e.raw_os_error() {
            Some(code) => IoError::Os(code),
            None => IoError::Other,
        }),
    }
}

/// Relies on `polling::Poller::wait` with no timeout: blocks until at least
/// one registered descriptor is ready or `notify` is called, then reports the
/// keys of the ready events. Which keys come back depends on the machine, so
/// nothing is stated about them.
#[verifier::external_body]
pub(crate) fn poller_wait(poller: &Arc<polling::Poller>) -> Result<Vec<usize>, IoError> {
    let mut events: Vec<polling::Event> = Vec::new();
    let none: Option<Duration> = None;
    match poller.wait(&mut events, none) {
        Ok(_) => Ok(events.iter().map(|ev| ev.key).collect()),
        Err(e) if e.kind() == std::io::ErrorKind::Interrupted => Err(IoError::Interrupted),
        Err(e) => Err(match e.raw_os_error() {
            Some(code) => IoError::Os(code),
            None => IoError::Other,
        }),
    }
}

/// Relies on `polling::Poller::notify`: makes a concurrent or future `wait`
/// return early. A failed nudge is harmless — the wait wakes on the next
/// event anyway — so no error is reported.
#[verifier::external_body]
pub(crate) fn poller_notify(poller: &Arc<polling::Poller>) {
    let _ = poller.notify();
}

/// The whole effect of the reactor's own wake callback: nudge the poller so
/// that a blocking wait returns early.
pub(crate) fn nudge(poller: &Arc<polling::Poller>) {
    poller_notify(poller);
}

/// Relies on `waker_fn::waker_fn`: builds a wake callback whose only effect
/// is `nudge`, i.e. making the poller's blocking wait return early.
#[verifier::external_body]
pub(crate) fn notify_waker(poller: &Arc<polling::Poller>) -> core::task::Waker {
    let poller = poller.clone();
    waker_fn::waker_fn(move || crate::sys::nudge(&poller))
}

/// Relies on `core::task::Waker::wake`: delivers the wake-up to whoever built
/// the callback.
#[verifier::external_body]
pub(crate) fn wake(w: core::task::Waker) {
    w.wake()
}

} // verus!
