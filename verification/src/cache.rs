//! The transform-plan cache's bookkeeping.
//!
//! Setting a transform up for a block length is expensive; executing it is
//! not. The process therefore keeps one reusable plan per block length and
//! pays the setup cost once. The plans themselves are opaque objects held
//! outside this crate in a slot table; what is decided here — which slot a
//! block length owns, and when a fresh slot must be filled — is stated and
//! proved exactly.

use vstd::prelude::*;

verus! {

/// Whether no block length owns two slots.
pub open spec fn distinct_sizes(s: Seq<u64>) -> bool {
    forall|i: int, j: int| 0 <= i < j < s.len() ==> s[i] != s[j]
}

/// The slot bookkeeping of the plan cache: slot `i` of the caller's plan
/// table belongs to block length `self@[i]`. Each length owns at most one
/// slot, so a length, once planned, is never planned again.
pub struct PlanCache {
    sizes: Vec<u64>,
}

impl PlanCache {
    /// The block lengths with a plan, in slot order.
    pub closed spec fn view(&self) -> Seq<u64> {
        self.sizes@
    }

    /// Well-formedness: no block length owns two slots.
    pub open spec fn wf(&self) -> bool {
        distinct_sizes(self@)
    }

    /// An empty cache: no block length has a plan yet.
    pub fn new() -> (r: PlanCache)
        ensures
            r.wf(),
            r@ =~= Seq::<u64>::empty(),
    {
        PlanCache { sizes: Vec::new() }
    }

    /// How many block lengths have a plan.
    pub fn len(&self) -> (r: usize)
        ensures
            r == self@.len(),
    {
        self.sizes.len()
    }

    /// The slot for block length `n`: the existing one if `n` already has a
    /// plan, a fresh one at the end of the table otherwise. Returns the
    /// slot index and whether the caller must fill it with a newly built
    /// plan; a length that was looked up before never asks for a second
    /// build.
    pub fn lookup_or_insert(&mut self, n: u64) -> (r: (usize, bool))
        requires
            old(self).wf(),
        ensures
            final(self).wf(),
            r.0 < final(self)@.len(),
            final(self)@[r.0 as int] == n,
            r.1 == !old(self)@.contains(n),
            old(self)@.contains(n) ==> final(self)@ == old(self)@,
            !old(self)@.contains(n) ==> final(self)@ == old(self)@.push(n) && r.0 == old(
                self,
            )@.len(),
    {
        let mut i: usize = 0;
        while i < self.sizes.len()
            invariant
                self.sizes@ == old(self).sizes@,
                distinct_sizes(self.sizes@),
                i <= self.sizes@.len(),
                forall|j: int| 0 <= j < i ==> self.sizes@[j] != n,
            decreases self.sizes@.len() - i,
        {
            if self.sizes[i] == n {
                return (i, false);
            }
            i += 1;
        }
        proof {
            assert(!self.sizes@.contains(n));
        }
        let slot = self.sizes.len();
        self.sizes.push(n);
        (slot, true)
    }
}

/// A block length owns at most one slot: two slots that both claim length
/// `n` are the same slot. With `lookup_or_insert`'s contract this says
/// that repeated lookups of one length keep returning the one slot that
/// the first lookup filled.
pub proof fn lemma_slot_unique(s: Seq<u64>, n: u64, i1: int, i2: int)
    requires
        distinct_sizes(s),
        0 <= i1 < s.len(),
        0 <= i2 < s.len(),
        s[i1] == n,
        s[i2] == n,
    ensures
        i1 == i2,
{
}

} // verus!
