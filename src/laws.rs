use vstd::prelude::*;
use crate::vault::{
    after_collection, collected, run_collections, same_identity, sum_collected_base,
    sum_collected_quote, EscrowBalances, FeeVault,
};

verus! {

/// Collections never lower a lifetime total, whatever the observed balances
/// did (a balance that fell during a claim counts as zero), and they change no
/// field but the totals.
pub proof fn lemma_collections_never_decrease(v: FeeVault, obs: Seq<(EscrowBalances, EscrowBalances)>)
    ensures
        run_collections(v, obs).total_collected_base >= v.total_collected_base,
        run_collections(v, obs).total_collected_quote >= v.total_collected_quote,
        same_identity(run_collections(v, obs), v),
    decreases obs.len(),
{
    if obs.len() > 0 {
        lemma_collections_never_decrease(after_collection(v, obs[0].0, obs[0].1), obs.drop_first());
    }
}

/// After any sequence of collections whose totals stay representable, each
/// lifetime total equals its starting value plus the sum of the non-negative
/// balance increases observed across the claims: nothing is counted twice and
/// nothing is lost.
pub proof fn lemma_collections_sum(v: FeeVault, obs: Seq<(EscrowBalances, EscrowBalances)>)
    requires
        v.total_collected_base + sum_collected_base(obs) <= u64::MAX,
        v.total_collected_quote + sum_collected_quote(obs) <= u64::MAX,
    ensures
        run_collections(v, obs).total_collected_base == v.total_collected_base + sum_collected_base(obs),
        run_collections(v, obs).total_collected_quote == v.total_collected_quote + sum_collected_quote(obs),
    decreases obs.len(),
{
    if obs.len() > 0 {
        let w = after_collection(v, obs[0].0, obs[0].1);
        assert(w.total_collected_base == v.total_collected_base + collected(obs[0].0.base, obs[0].1.base));
        lemma_collections_sum(w, obs.drop_first());
    }
}

} // verus!
