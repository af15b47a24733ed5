//! The cycle meter: one budget shared by every frame of a call chain.
//!
//! `used` only grows, never passes `limit`, and a charge that would pass the
//! limit pins `used` at the limit exactly and aborts the chain.

use vstd::prelude::*;
use crate::types::ExecError;

verus! {

/// Cycle accounting for one top-level invocation.  `limit` and `price` are
/// fixed for the invocation; `used` is shared by all frames of its call
/// chain.
pub struct CycleMeter {
    pub limit: u64,
    pub price: u64,
    pub used: u64,
}

impl CycleMeter {
    /// Usage never exceeds the budget.
    pub open spec fn wf(&self) -> bool {
        self.used <= self.limit
    }

    /// Builds a meter; usage may start non-zero when the node has already
    /// charged for work outside this runtime.
    pub fn new(limit: u64, price: u64, used: u64) -> (r: CycleMeter)
        requires
            used <= limit,
        ensures
            r.limit == limit,
            r.price == price,
            r.used == used,
            r.wf(),
    {
        CycleMeter { limit, price, used }
    }

    /// Charges `n` cycles.  Fails exactly when the charge would pass the
    /// budget, in which case usage is pinned at the limit and nothing is
    /// partially applied.  Charges are never refunded.
    pub fn charge(&mut self, n: u64) -> (r: Result<(), ExecError>)
        requires
            old(self).wf(),
        ensures
            final(self).wf(),
            final(self).limit == old(self).limit,
            final(self).price == old(self).price,
            final(self).used >= old(self).used,
            old(self).used + n <= old(self).limit ==> r is Ok && final(self).used == old(
                self,
            ).used + n,
            old(self).used + n > old(self).limit ==> r == Err::<(), ExecError>(
                ExecError::OutOfCycles,
            ) && final(self).used == old(self).limit,
    {
        if n <= self.limit - self.used {
            self.used = self.used + n;
            Ok(())
        } else {
            self.used = self.limit;
            Err(ExecError::OutOfCycles)
        }
    }
}

/// Cycle usage is monotonically non-decreasing and never exceeds the budget:
/// a single charge either lands within the limit and adds exactly its cost,
/// or fails with usage pinned at the limit; chaining charges therefore keeps
/// usage non-decreasing and bounded at every step.
pub proof fn lemma_charge_bounds(before: CycleMeter, mid: CycleMeter, after: CycleMeter, m: u64, n: u64)
    requires
        before.wf(),
        mid.used == if before.used + m <= before.limit {
            (before.used + m) as u64
        } else {
            before.limit
        },
        mid.limit == before.limit,
        after.used == if mid.used + n <= mid.limit {
            (mid.used + n) as u64
        } else {
            mid.limit
        },
        after.limit == mid.limit,
    ensures
        before.used <= mid.used <= after.used,
        after.used <= before.limit,
{
}

} // verus!
