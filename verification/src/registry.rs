//! The readiness registry: bookkeeping for pending interest registrations.
//!
//! A registry maps an integer key to an interest entry — the raw descriptor,
//! a level-triggered ready flag, and the at-most-one current wake callback.
//! Keys name slots; a key is handed out again only after its entry has been
//! removed, and the key chosen is always the least one not currently in use,
//! so cancelled registrations give their slot back instead of leaking it.

use vstd::prelude::*;
use core::task::Waker;

verus! {

/// What the contracts see of one interest entry: the descriptor, the
/// level-triggered ready flag, and whether a wake callback is stored.
pub ghost struct EntryModel {
    pub fd: int,
    pub ready: bool,
    pub has_waker: bool,
}

/// One pending readiness registration.
pub struct Entry {
    pub fd: i32,
    pub ready: bool,
    pub waker: Option<Waker>,
}

impl Entry {
    /// The entry as the contracts see it.
    pub open spec fn model(self) -> EntryModel {
        EntryModel { fd: self.fd as int, ready: self.ready, has_waker: self.waker is Some }
    }
}

/// The registry itself: a slot map from key to interest entry.
pub struct Registry {
    slots: Vec<Option<Entry>>,
}

impl View for Registry {
    type V = Map<int, EntryModel>;

    /// The registry's contents: the model of every occupied slot, keyed by
    /// slot index.
    closed spec fn view(&self) -> Map<int, EntryModel> {
        Map::new(
            |k: int| 0 <= k < self.slots@.len() && self.slots@[k] is Some,
            |k: int| self.slots@[k]->0.model(),
        )
    }
}

impl Registry {
    /// A registry with no pending registrations.
    pub fn new() -> (r: Registry)
        ensures
            r@ =~= Map::<int, EntryModel>::empty(),
    {
        Registry { slots: Vec::new() }
    }

    /// The least slot index holding no entry, if any slot is vacant.
    fn find_vacant(&self) -> (r: Option<usize>)
        ensures
            r matches Some(i) ==> i < self.slots@.len() && self.slots@[i as int] is None
                && (forall|j: int| 0 <= j < i ==> self.slots@[j] is Some),
            r is None ==> forall|j: int|
                0 <= j < self.slots@.len() ==> self.slots@[j] is Some,
    {
        let mut i: usize = 0;
        while i < self.slots.len()
            invariant
                i <= self.slots@.len(),
                forall|j: int| 0 <= j < i ==> self.slots@[j] is Some,
            decreases self.slots@.len() - i,
        {
            if self.slots[i].is_none() {
                return Some(i);
            }
            i = i + 1;
        }
        None
    }

    /// Begins tracking interest in `fd`: stores a fresh entry — not ready, no
    /// wake callback — under the least key not currently in use, and returns
    /// that key. The key was vacant before the call, so no live registration
    /// is ever overwritten.
    pub fn insert(&mut self, fd: i32) -> (key: usize)
        ensures
            !old(self)@.dom().contains(key as int),
            forall|j: int| 0 <= j < key ==> old(self)@.dom().contains(j),
            final(self)@ =~= old(self)@.insert(
                key as int,
                EntryModel { fd: fd as int, ready: false, has_waker: false },
            ),
    {
        let entry = Entry { fd, ready: false, waker: None };
        match self.find_vacant() {
            Some(i) => {
                self.slots[i] = Some(entry);
                i
            },
            None => {
                let key = self.slots.len();
                self.slots.push(Some(entry));
                key
            },
        }
    }

    /// Ends tracking of `key`: the entry, if any, is discarded, and the slot
    /// becomes free for reuse. Returns whether an entry was present. Removing
    /// an absent key changes nothing.
    pub fn remove(&mut self, key: usize) -> (had: bool)
        ensures
            had == old(self)@.dom().contains(key as int),
            final(self)@ =~= old(self)@.remove(key as int),
    {
        if key < self.slots.len() {
            let had = self.slots[key].is_some();
            self.slots[key] = None;
            had
        } else {
            false
        }
    }

    /// The descriptor registered under `key`, if that key is in use.
    pub fn fd_of(&self, key: usize) -> (r: Option<i32>)
        ensures
            r matches Some(fd) ==> self@.dom().contains(key as int) && self@[key as int].fd
                == fd as int,
            r is None ==> !self@.dom().contains(key as int),
    {
        if key < self.slots.len() {
            match &self.slots[key] {
                Some(e) => Some(e.fd),
                None => None,
            }
        } else {
            None
        }
    }

    /// Whether `key` is in use and its entry has been marked ready. The flag
    /// is level-triggered: nothing clears it short of removing the entry, so
    /// a waiter arriving after the OS event still observes readiness.
    pub fn is_ready(&self, key: usize) -> (r: bool)
        ensures
            r == (self@.dom().contains(key as int) && self@[key as int].ready),
    {
        if key < self.slots.len() {
            match &self.slots[key] {
                Some(e) => e.ready,
                None => false,
            }
        } else {
            false
        }
    }

    /// Stores `w` as the entry's current wake callback; the last callback
    /// registered wins and any previous one is discarded without firing.
    /// Returns whether `key` was in use; on an absent key nothing changes.
    pub fn set_waker(&mut self, key: usize, w: Waker) -> (stored: bool)
        ensures
            stored == old(self)@.dom().contains(key as int),
            stored ==> final(self)@ =~= old(self)@.insert(
                key as int,
                EntryModel {
                    fd: old(self)@[key as int].fd,
                    ready: old(self)@[key as int].ready,
                    has_waker: true,
                },
            ),
            !stored ==> final(self)@ =~= old(self)@,
    {
        if key < self.slots.len() {
            match &mut self.slots[key] {
                Some(e) => {
                    e.waker = Some(w);
                    true
                },
                None => false,
            }
        } else {
            false
        }
    }

    /// Marks the entry under `key` ready and takes its current wake callback,
    /// so that each stored callback is handed out — and can be invoked — at
    /// most once. The ready flag stays set afterwards (level-triggered). On
    /// an absent key nothing changes and no callback is returned.
    pub fn take_ready(&mut self, key: usize) -> (w: Option<Waker>)
        ensures
            old(self)@.dom().contains(key as int) ==> final(self)@ =~= old(self)@.insert(
                key as int,
                EntryModel { fd: old(self)@[key as int].fd, ready: true, has_waker: false },
            ),
            !old(self)@.dom().contains(key as int) ==> final(self)@ =~= old(self)@ && w is None,
            old(self)@.dom().contains(key as int) ==> (w is Some <==> old(
                self,
            )@[key as int].has_waker),
    {
        if key < self.slots.len() {
            match &mut self.slots[key] {
                Some(e) => {
                    e.ready = true;
                    e.waker.take()
                },
                None => None,
            }
        } else {
            None
        }
    }

    /// Whether `key` currently holds an entry.
    pub fn contains(&self, key: usize) -> (r: bool)
        ensures
            r == self@.dom().contains(key as int),
    {
        if key < self.slots.len() {
            self.slots[key].is_some()
        } else {
            false
        }
    }
}

/// Leak-freedom of a register/cancel pair: inserting an entry under a fresh
/// key and then removing that key leaves the registry's contents — and hence
/// its size — exactly as they were, whether the await completed or was
/// dropped mid-flight.
pub proof fn lemma_register_cancel_leak_free(m: Map<int, EntryModel>, key: int, e: EntryModel)
    requires
        !m.dom().contains(key),
    ensures
        m.insert(key, e).remove(key) =~= m,
{
}

} // verus!
