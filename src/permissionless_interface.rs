use vstd::prelude::*;
use crate::vault::{collected, EscrowBalances};

verus! {

/// The caller-agnostic half of collection: measuring what a fee claim brought in.
pub struct PermissionlessInterface;

impl PermissionlessInterface {
    /// What a claim added to each escrow balance, from the balances read just
    /// before and just after it. A balance that fell counts as zero.
    pub fn collect_position_fees(before: &EscrowBalances, after: &EscrowBalances) -> (r: (u64, u64))
        ensures
            r.0 == collected(before.base, after.base),
            r.1 == collected(before.quote, after.quote),
    {
        (after.base.saturating_sub(before.base), after.quote.saturating_sub(before.quote))
    }
}

} // verus!
