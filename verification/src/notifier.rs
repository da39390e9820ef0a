//! The single-slot advance signal between the button interrupt and the
//! cooperative draw loop.

use vstd::prelude::*;

verus! {

/// A process-wide single-slot signal: either empty or holding exactly one
/// pending advance signal.  The interrupt handler is the sole writer
/// (`post`), the active screen's poll is the sole reader (`try_consume`).
/// Posting saturates: the slot never queues more than one signal.
pub struct Notifier {
    pending: bool,
}

/// Slot state after one `post`: pending, whatever it held before
/// (posting onto an already pending slot is a no-op).
pub open spec fn spec_post(pending: bool) -> bool {
    true
}

/// Result and slot state after one `try_consume`: the signal, if any,
/// is handed out and the slot is left empty.
pub open spec fn spec_consume(pending: bool) -> (bool, bool) {
    (pending, false)
}

/// Slot state after `n` consecutive `post` calls with nothing consumed
/// in between.
pub open spec fn after_posts(pending: bool, n: nat) -> bool
    decreases n,
{
    if n == 0 {
        pending
    } else {
        spec_post(after_posts(pending, (n - 1) as nat))
    }
}

/// Slot state after `k` consecutive `try_consume` calls with nothing
/// posted in between.
pub open spec fn after_consumes(pending: bool, k: nat) -> bool
    decreases k,
{
    if k == 0 {
        pending
    } else {
        spec_consume(after_consumes(pending, (k - 1) as nat)).1
    }
}

impl Notifier {
    /// True when an advance signal has been posted and not yet consumed.
    pub closed spec fn is_pending(self) -> bool {
        self.pending
    }

    pub fn new() -> (n: Notifier)
        ensures
            !n.is_pending(),
    {
        Notifier { pending: false }
    }

    /// Record an advance signal.  Called from interrupt context in the
    /// real system: it neither blocks nor allocates, and never queues a
    /// second signal behind a pending one.
    pub fn post(&mut self)
        ensures
            final(self).is_pending() == spec_post(old(self).is_pending()),
    {
        self.pending = true;
    }

    /// Non-blocking poll from the cooperative loop: report whether a
    /// signal was pending and leave the slot empty either way.
    pub fn try_consume(&mut self) -> (r: bool)
        ensures
            (r, final(self).is_pending()) == spec_consume(old(self).is_pending()),
    {
        let r = self.pending;
        self.pending = false;
        r
    }
}

proof fn lemma_consumes_stay_empty(k: nat)
    ensures
        !after_consumes(false, k),
    decreases k,
{
    if k > 0 {
        lemma_consumes_stay_empty((k - 1) as nat);
    }
}

/// Saturation and idempotence of the slot: after any run of one or more
/// `post` calls with no consume in between, the slot holds exactly one
/// signal — the first `try_consume` returns true and empties it, every
/// later `try_consume` returns false, and only another `post` makes a
/// `try_consume` return true again.
pub proof fn lemma_signal_saturation(pending0: bool, n: nat)
    requires
        n >= 1,
    ensures
        after_posts(pending0, n),
        spec_consume(after_posts(pending0, n)) == (true, false),
        forall|k: nat| !spec_consume(#[trigger] after_consumes(false, k)).0,
        forall|k: nat| spec_consume(spec_post(#[trigger] after_consumes(false, k))).0,
{
    assert forall|k: nat| !spec_consume(#[trigger] after_consumes(false, k)).0 by {
        lemma_consumes_stay_empty(k);
    }
}

} // verus!
