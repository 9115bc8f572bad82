//! The poll-or-suspend driver: the loop shape shared by the thread-park
//! `block_on` and the reactor-integrated single-future driver.
//!
//! Both drivers repeat one step — poll the computation; if it is ready,
//! return its value, otherwise suspend until woken. The step and the loop are
//! modelled here over the sequence of outcomes the computation produces, and
//! the parking primitive is modelled by the atomic "already notified" flag
//! its correctness depends on.

use vstd::prelude::*;

verus! {

/// One poll outcome of a suspendable computation, on plain values.
#[derive(Clone, Copy)]
pub enum Polled<T> {
    /// The computation finished with its value.
    Ready(T),
    /// The computation installed a wake-up and yielded.
    Pending,
}

/// What a whole drive of a computation yields, given the sequence of poll
/// outcomes it produces: its value and the number of suspensions taken before
/// it, or nothing if the script never turns ready.
pub open spec fn spec_drive<T>(script: Seq<Polled<T>>) -> Option<(T, nat)>
    decreases script.len(),
{
    if script.len() == 0 {
        None
    } else {
        match script[0] {
            Polled::Ready(v) => Some((v, 0 as nat)),
            Polled::Pending => match spec_drive(script.drop_first()) {
                Some(p) => Some((p.0, (p.1 + 1) as nat)),
                None => None,
            },
        }
    }
}

/// A drive whose first `i` polls are all pending is the drive of the rest,
/// with those `i` suspensions added on.
proof fn lemma_drive_pending_prefix<T>(script: Seq<Polled<T>>, i: int)
    requires
        0 <= i <= script.len(),
        forall|j: int| 0 <= j < i ==> script[j] is Pending,
    ensures
        spec_drive(script) == match spec_drive(script.skip(i)) {
            Some(p) => Some((p.0, (p.1 + i) as nat)),
            None => None::<(T, nat)>,
        },
    decreases i,
{
    if i == 0 {
        assert(script.skip(0) =~= script);
    } else {
        lemma_drive_pending_prefix(script.drop_first(), i - 1);
        assert(script.drop_first().skip(i - 1) =~= script.skip(i));
    }
}

/// Drives one computation to completion, the way both `block_on` variants
/// do: poll, and on `Pending` suspend until woken, then poll again. The
/// computation is given by the script of outcomes its successive polls
/// produce; the result is its value paired with the number of suspensions
/// taken, or nothing if the script never turns ready.
pub fn drive<T: Copy>(script: &Vec<Polled<T>>) -> (r: Option<(T, usize)>)
    ensures
        r matches Some(p) ==> spec_drive(script@) == Some((p.0, p.1 as nat)),
        r is None ==> spec_drive(script@) is None,
{
    let mut i: usize = 0;
    while i < script.len()
        invariant
            i <= script@.len(),
            forall|j: int| 0 <= j < i ==> script@[j] is Pending,
        decreases script@.len() - i,
    {
        match script[i] {
            Polled::Ready(v) => {
                proof {
                    lemma_drive_pending_prefix(script@, i as int);
                    assert(script@.skip(i as int)[0] == script@[i as int]);
                }
                return Some((v, i));
            },
            Polled::Pending => {
                i = i + 1;
            },
        }
    }
    proof {
        lemma_drive_pending_prefix(script@, i as int);
    }
    None
}

/// Already-ready fast path: a computation that is ready on its first poll
/// completes with that value after the single poll and zero suspensions, so
/// the driver never reaches its blocking wait.
pub proof fn lemma_ready_first_poll_never_parks<T>(script: Seq<Polled<T>>)
    requires
        script.len() > 0,
        script[0] is Ready,
    ensures
        spec_drive(script) == Some((script[0]->Ready_0, 0 as nat)),
{
}

/// Self-waking re-poll: a computation that yields on its first poll and is
/// ready on its second completes with the second poll's value after exactly
/// one suspension — it is polled exactly twice, and nothing the first poll
/// did is reordered past the suspension point.
pub proof fn lemma_single_yield_completes_on_second_poll<T>(script: Seq<Polled<T>>)
    requires
        script.len() >= 2,
        script[0] is Pending,
        script[1] is Ready,
    ensures
        spec_drive(script) == Some((script[1]->Ready_0, 1 as nat)),
{
    assert(script.drop_first()[0] == script[1]);
    assert(spec_drive(script.drop_first()) == Some((script[1]->Ready_0, 0 as nat)));
}

/// The thread-park primitive as the driver requires it to behave: a wake
/// that has already arrived is remembered in an "already notified" flag, and
/// a park consumes that flag instead of blocking.
pub struct Parker {
    notified: bool,
}

/// What a wake-up does to the parker's flag: it is set, whatever it was.
pub open spec fn spec_unpark(notified: bool) -> bool {
    true
}

/// What one park attempt does: it continues immediately exactly when the
/// flag was set, and consumes the flag either way.
pub open spec fn spec_park(notified: bool) -> (bool, bool) {
    (notified, false)
}

impl Parker {
    /// The flag as the contracts see it: has an unconsumed wake-up arrived?
    pub closed spec fn spec_notified(&self) -> bool {
        self.notified
    }

    /// A parker with no wake-up pending.
    pub fn new() -> (r: Parker)
        ensures
            !r.spec_notified(),
    {
        Parker { notified: false }
    }

    /// The wake callback's side: records that a wake-up arrived.
    pub fn unpark(&mut self)
        ensures
            final(self).spec_notified() == spec_unpark(old(self).spec_notified()),
    {
        self.notified = true;
    }

    /// The parking side: reports whether the thread continues immediately
    /// (an earlier wake-up is pending) or must block awaiting one, and
    /// consumes the pending wake-up either way.
    pub fn park_try(&mut self) -> (immediate: bool)
        ensures
            immediate == spec_park(old(self).spec_notified()).0,
            final(self).spec_notified() == spec_park(old(self).spec_notified()).1,
    {
        let immediate = self.notified;
        self.notified = false;
        immediate
    }
}

/// No missed wakeup: if the wake callback fires before the thread parks, the
/// park that follows returns immediately rather than blocking forever,
/// whatever state the flag was in before.
pub proof fn lemma_no_missed_wakeup(notified: bool)
    ensures
        spec_park(spec_unpark(notified)).0,
{
}

} // verus!
