//! Reference-count bookkeeping of chunks and `Arc` handles.

use vstd::prelude::*;
use crate::constants::{LARGE, LARGE_SHARED_REF_SURPLUS, MAX_STRONG_REFCOUNT};

verus! {

/// `Arc::clone`'s saturation guard: a clone that observes a previous strong
/// count above [`MAX_STRONG_REFCOUNT`] aborts instead of risking wraparound.
/// Returns whether the clone may proceed.
pub fn strong_clone_allowed(prev: u32) -> (r: bool)
    ensures
        r <==> prev <= MAX_STRONG_REFCOUNT,
{
    prev <= MAX_STRONG_REFCOUNT
}

/// The strong count after a clone that observed `prev`.
pub open spec fn strong_count_after_clone(prev: int) -> int {
    prev + 1
}

/// The strong count after releasing one handle of `prev`, and whether that
/// handle was the last one.
pub open spec fn strong_count_after_release(prev: int) -> (int, bool) {
    (prev - 1, prev == 1)
}

/// The strong count after a permitted clone.
pub fn strong_after_clone(prev: u32) -> (r: u32)
    requires
        prev <= MAX_STRONG_REFCOUNT,
    ensures
        r == strong_count_after_clone(prev as int),
{
    prev + 1
}

/// `Arc::drop`'s release of one strong reference: the count after the
/// release, and whether this was the last reference (the value is then
/// dropped and the chunk reference released).
pub fn strong_after_release(prev: u32) -> (r: (u32, bool))
    requires
        prev >= 1,
    ensures
        (r.0 as int, r.1) == strong_count_after_release(prev as int),
{
    (prev - 1, prev == 1)
}

/// A clone (`strong_after_clone`) followed by the release of one handle
/// (`strong_after_release`) leaves the strong count where it was and never
/// tears the value down; releasing the only handle tears it down.
pub proof fn law_clone_then_release_restores_count(prev: u32)
    requires
        1 <= prev <= MAX_STRONG_REFCOUNT,
    ensures
        strong_count_after_release(strong_count_after_clone(prev as int)) == (prev as int, false),
        strong_count_after_release(1) == (0int, true),
{
}

/// Whether the per-tenure handle counter `n` of a current chunk has reached
/// the overflow threshold; the caller then aborts the process rather than
/// issue handle number `LARGE - 1`.
pub fn check_smart_pointers_issued_overflow(n: u64) -> (r: bool)
    ensures
        r <==> n >= LARGE - 1,
{
    n >= LARGE - 1
}

/// Strong references handed out from a chunk whose refcount was
/// pre-credited with [`LARGE_SHARED_REF_SURPLUS`] at install time.
pub struct SharedRefLedger {
    local_shared_count: u32,
}

impl View for SharedRefLedger {
    type V = int;

    /// Handles handed out since the chunk was installed.
    closed spec fn view(&self) -> int {
        self.local_shared_count as int
    }
}

impl SharedRefLedger {
    /// A ledger for a freshly installed chunk.
    pub fn new() -> (r: SharedRefLedger)
        ensures
            r@ == 0,
    {
        SharedRefLedger { local_shared_count: 0 }
    }

    /// Handles handed out since install.
    pub fn handed_out(&self) -> (r: u32)
        ensures
            r == self@,
    {
        self.local_shared_count
    }

    /// Hand out one pre-credited reference (no atomic operation).
    pub fn acquire(&mut self)
        requires
            old(self)@ < LARGE_SHARED_REF_SURPLUS,
        ensures
            final(self)@ == old(self)@ + 1,
    {
        self.local_shared_count = self.local_shared_count + 1;
    }

    /// Retire the chunk: return the number of pre-credited references that
    /// were never handed out and must be refunded to the chunk's refcount,
    /// and start over at zero.
    pub fn reconcile(&mut self) -> (refund: u32)
        requires
            old(self)@ <= LARGE_SHARED_REF_SURPLUS,
        ensures
            refund == surplus_refund(old(self)@),
            final(self)@ == 0,
    {
        let local = self.local_shared_count;
        self.local_shared_count = 0;
        LARGE_SHARED_REF_SURPLUS - local
    }
}

/// The references refunded when a ledger that handed out `handed_out`
/// pre-credited references is reconciled.
pub open spec fn surplus_refund(handed_out: int) -> int {
    LARGE_SHARED_REF_SURPLUS - handed_out
}

/// A chunk installed with `held` references of its own plus the surplus,
/// after the ledger's refund is subtracted.
pub open spec fn refcount_after_reconcile(held: int, handed_out: int) -> int {
    held + LARGE_SHARED_REF_SURPLUS - surplus_refund(handed_out)
}

/// After any number of handouts (`acquire`), the refund at retirement
/// (`reconcile`) plus the handles handed out is exactly the pre-credited
/// surplus, so the chunk's refcount ends up as its own holds plus one per
/// live handle.
pub proof fn law_refund_balances_surplus(held: int, handed_out: int)
    requires
        0 <= handed_out <= LARGE_SHARED_REF_SURPLUS,
    ensures
        surplus_refund(handed_out) + handed_out == LARGE_SHARED_REF_SURPLUS,
        0 <= surplus_refund(handed_out) <= LARGE_SHARED_REF_SURPLUS,
        refcount_after_reconcile(held, handed_out) == held + handed_out,
{
}

} // verus!
