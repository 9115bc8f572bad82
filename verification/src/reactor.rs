//! The reactor: owns the OS polling instance and the readiness registry, and
//! demultiplexes OS readiness events into wake-callback invocations.
//!
//! The registry bookkeeping is verified; the OS calls go through the trusted
//! wrappers in `sys`. Which keys a blocking wait reports depends on the
//! machine, so `block_until` promises what holds of every outcome: no
//! registration appears or disappears, descriptors are unchanged, readiness
//! is level-triggered (never cleared), and a callback, once taken, is gone.

use vstd::prelude::*;
use crate::IoError;
use crate::driver::Polled;
use crate::registry::{EntryModel, Registry};
use crate::sys;
use core::task::Waker;
use std::sync::Arc;

verus! {

/// The reactor: an OS polling instance plus the registry of pending
/// interest registrations.
pub struct Reactor {
    poller: Arc<polling::Poller>,
    registry: Registry,
}

/// How one `block_until` may change one entry: it is untouched, or it has
/// just been marked ready with its wake callback consumed.
pub open spec fn notified_step(before: EntryModel, after: EntryModel) -> bool {
    after == before || (after == EntryModel { fd: before.fd, ready: true, has_waker: false })
}

/// The frame of a blocking wait over the whole registry: the same keys are
/// registered, each under its old descriptor, readiness is never cleared,
/// and each entry changed at all was marked ready with its callback taken.
pub open spec fn wait_frame(before: Map<int, EntryModel>, after: Map<int, EntryModel>) -> bool {
    &&& after.dom() =~= before.dom()
    &&& forall|k: int| before.dom().contains(k) ==> notified_step(before[k], #[trigger] after[k])
}

/// Level-triggered readiness: an entry once marked ready is still ready
/// after any further blocking wait, until it is removed — a waiter that
/// polls late still observes readiness, so no wakeup is missed.
pub proof fn lemma_readiness_level_triggered(
    before: Map<int, EntryModel>,
    after: Map<int, EntryModel>,
    k: int,
)
    requires
        wait_frame(before, after),
        before.dom().contains(k),
        before[k].ready,
    ensures
        after.dom().contains(k),
        after[k].ready,
{
    assert(notified_step(before[k], after[k]));
}

/// The wait frame composes: what each blocking wait guarantees of the
/// registry carries over any run of waits, as the dedicated reactor
/// thread's loop performs them.
pub proof fn lemma_wait_frame_composes(
    a: Map<int, EntryModel>,
    b: Map<int, EntryModel>,
    c: Map<int, EntryModel>,
)
    requires
        wait_frame(a, b),
        wait_frame(b, c),
    ensures
        wait_frame(a, c),
{
    assert forall|k: int| a.dom().contains(k) implies notified_step(a[k], #[trigger] c[k]) by {
        assert(b.dom().contains(k));
        assert(notified_step(a[k], b[k]));
        assert(notified_step(b[k], c[k]));
    }
}

impl View for Reactor {
    type V = Map<int, EntryModel>;

    /// The reactor as the contracts see it: its registry's contents.
    closed spec fn view(&self) -> Map<int, EntryModel> {
        self.registry@
    }
}

impl Reactor {
    /// A reactor with a fresh OS polling instance and no registrations, or
    /// the OS error from creating the instance.
    pub fn new() -> (r: Result<Reactor, IoError>)
        ensures
            r matches Ok(re) ==> re@ =~= Map::<int, EntryModel>::empty(),
    {
        match sys::poller_new() {
            Ok(poller) => Ok(Reactor { poller, registry: Registry::new() }),
            Err(e) => Err(e),
        }
    }

    /// Begins awaiting read-readiness on `fd`: installs an interest entry
    /// under the least free key and registers `fd` with the OS poller. If the
    /// OS registration fails, the entry is removed again before the error is
    /// returned, so a failed registration leaves no trace.
    pub fn register_interest(&mut self, fd: i32) -> (r: Result<usize, IoError>)
        ensures
            r matches Ok(key) ==> !old(self)@.dom().contains(key as int) && (forall|j: int|
                0 <= j < key ==> old(self)@.dom().contains(j)) && final(self)@ =~= old(self)@.insert(
                key as int,
                EntryModel { fd: fd as int, ready: false, has_waker: false },
            ),
            r is Err ==> final(self)@ =~= old(self)@,
    {
        let key = self.registry.insert(fd);
        match sys::poller_add(&self.poller, fd, key) {
            Ok(()) => Ok(key),
            Err(e) => {
                self.registry.remove(key);
                Err(e)
            },
        }
    }

    /// Ends an await, completed or cancelled: removes the interest entry and
    /// deregisters its descriptor from the OS poller. Both the completion
    /// path and the drop path of an await run exactly this, so the registry
    /// is left as if the registration had never happened. A failure of the
    /// OS deregistration is ignored: the entry is gone either way, and a
    /// cancelled await has nobody left to report to.
    pub fn cancel_interest(&mut self, key: usize)
        ensures
            final(self)@ =~= old(self)@.remove(key as int),
    {
        let fd = self.registry.fd_of(key);
        self.registry.remove(key);
        match fd {
            Some(fd) => {
                let _ = sys::poller_delete(&self.poller, fd);
            },
            None => {},
        }
    }

    /// One poll of a pending await: ready exactly when the entry has been
    /// marked ready (the already-ready fast path); otherwise `w` is stored
    /// as the entry's current wake callback — last registered wins — and the
    /// await suspends.
    pub fn poll_interest(&mut self, key: usize, w: Waker) -> (r: Polled<()>)
        requires
            old(self)@.dom().contains(key as int),
        ensures
            r is Ready <==> old(self)@[key as int].ready,
            r is Ready ==> final(self)@ =~= old(self)@,
            r is Pending ==> final(self)@ =~= old(self)@.insert(
                key as int,
                EntryModel { fd: old(self)@[key as int].fd, ready: false, has_waker: true },
            ),
    {
        if self.registry.is_ready(key) {
            Polled::Ready(())
        } else {
            self.registry.set_waker(key, w);
            Polled::Pending
        }
    }

    /// Whether the entry under `key` has been marked ready.
    pub fn ready(&self, key: usize) -> (r: bool)
        ensures
            r == (self@.dom().contains(key as int) && self@[key as int].ready),
    {
        self.registry.is_ready(key)
    }

    /// Whether `key` currently holds a registration.
    pub fn contains(&self, key: usize) -> (r: bool)
        ensures
            r == self@.dom().contains(key as int),
    {
        self.registry.contains(key)
    }

    /// Demultiplexes one batch of reported keys: for each key that is still
    /// registered, marks its entry ready and takes and invokes its current
    /// wake callback — exactly once, since taking consumes it and a second
    /// take finds none. A reported key with no live entry is ignored. Every
    /// other entry is left exactly as it was.
    pub fn notify_keys(&mut self, keys: &Vec<usize>)
        ensures
            wait_frame(old(self)@, final(self)@),
            forall|i: int|
                0 <= i < keys@.len() && old(self)@.dom().contains(#[trigger] keys@[i] as int)
                    ==> final(self)@[keys@[i] as int] == (EntryModel {
                    fd: old(self)@[keys@[i] as int].fd,
                    ready: true,
                    has_waker: false,
                }),
            forall|k: int|
                old(self)@.dom().contains(k) && (forall|j: int|
                    0 <= j < keys@.len() ==> #[trigger] keys@[j] as int != k)
                    ==> #[trigger] final(self)@[k] == old(self)@[k],
    {
        let mut i: usize = 0;
        while i < keys.len()
            invariant
                i <= keys@.len(),
                wait_frame(old(self)@, self.registry@),
                forall|n: int|
                    0 <= n < i && old(self)@.dom().contains(#[trigger] keys@[n] as int)
                        ==> self.registry@[keys@[n] as int] == (EntryModel {
                        fd: old(self)@[keys@[n] as int].fd,
                        ready: true,
                        has_waker: false,
                    }),
                forall|k: int|
                    old(self)@.dom().contains(k) && (forall|j: int|
                        0 <= j < i ==> #[trigger] keys@[j] as int != k)
                        ==> #[trigger] self.registry@[k] == old(self)@[k],
            decreases keys@.len() - i,
        {
            let k = keys[i];
            match self.registry.take_ready(k) {
                Some(w) => sys::wake(w),
                None => {},
            }
            i = i + 1;
        }
    }

    /// Blocks until the OS reports readiness or the poller is nudged, then
    /// hands the reported keys to `notify_keys`, whose contract pins what
    /// happens to each: its entry is marked ready and its current wake
    /// callback is taken and invoked exactly once. An interrupted system
    /// call is absorbed and reported as success with nothing changed; any
    /// other OS error propagates, also with the registry untouched.
    /// Whatever the OS reported, `wait_frame` relates the registry before
    /// and after.
    pub fn block_until(&mut self) -> (r: Result<(), IoError>)
        ensures
            wait_frame(old(self)@, final(self)@),
            r is Err ==> !(r->Err_0 is Interrupted),
            r is Err ==> final(self)@ =~= old(self)@,
    {
        match sys::poller_wait(&self.poller) {
            Ok(keys) => {
                self.notify_keys(&keys);
                Ok(())
            },
            Err(e) => {
                if e.is_interrupted() {
                    Ok(())
                } else {
                    Err(e)
                }
            },
        }
    }

    /// A wake callback that touches no task: invoking it nudges the OS
    /// polling instance so that a blocking `block_until` returns early. Used
    /// by the reactor-integrated driver to get a completed non-I/O future
    /// re-polled promptly.
    pub fn waker(&self) -> (w: Waker) {
        sys::notify_waker(&self.poller)
    }
}

} // verus!
