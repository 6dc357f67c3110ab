use vstd::prelude::*;
use crate::address::Address;
use crate::permissionless_interface::PermissionlessInterface;
use crate::derivation::{
    derive_vault_authority, found_program_address, program_address, vault_authority_from_bump,
    vault_seed_list, vault_signer_seed_list, vault_signer_seeds, seeds_view,
};

verus! {

/// Why an operation on a fee vault was refused. Every refusal leaves the vault
/// record and the escrow balances as they were.
#[derive(Clone, Copy, Debug, PartialEq, Eq, Structural)]
pub enum FeeRoutingError {
    InvalidDlmmPool,
    InsufficientBaseCollection,
    InsufficientQuoteCollection,
    InsufficientBalance,
    MathOverflow,
    Unauthorized,
    InvalidVaultSeeds,
}

/// The persistent record of one vault, linked to one pool.
#[derive(Clone, Copy, Debug)]
pub struct FeeVault {
    /// The identity that may distribute and administer.
    pub authority: Address,
    pub dlmm_pool: Address,
    pub base_mint: Address,
    pub quote_mint: Address,
    /// The bump seed that, after the pool's seeds, reconstructs the vault authority.
    pub bump: u8,
    pub total_collected_base: u64,
    pub total_collected_quote: u64,
    pub creation_time: i64,
}

/// The two escrow balances held by the vault authority.
#[derive(Clone, Copy, Debug, PartialEq, Eq, Structural)]
pub struct EscrowBalances {
    pub base: u64,
    pub quote: u64,
}

#[derive(Clone, Copy, Debug, PartialEq, Eq, Structural)]
pub enum Asset {
    Base,
    Quote,
}

/// One transfer out of an escrow balance to the recipient, signed by the vault authority.
#[derive(Clone, Copy, Debug, PartialEq, Eq, Structural)]
pub struct TransferLeg {
    pub asset: Asset,
    pub amount: u64,
}

impl FeeVault {
    /// Size of the stored record: an eight-byte tag, four identities, the bump,
    /// two totals and the creation time.
    pub const LEN: usize = 8 + 32 + 32 + 32 + 32 + 1 + 8 + 8 + 8;

    /// The seeds with which the vault authority signs transfers out of escrow.
    pub fn signer_seeds(&self) -> (r: Vec<Vec<u8>>)
        ensures
            seeds_view(r@) == vault_signer_seed_list(self.dlmm_pool@, self.bump),
    {
        vault_signer_seeds(&self.dlmm_pool, self.bump)
    }

    /// The vault authority, reconstructed from the pool and the stored bump.
    pub fn authority_address(&self, program_id: &Address) -> (r: Result<Address, FeeRoutingError>)
        ensures
            match r {
                Ok(a) => program_address(vault_signer_seed_list(self.dlmm_pool@, self.bump), program_id@) == Some(a@),
                Err(e) => {
                    &&& e == FeeRoutingError::InvalidVaultSeeds
                    &&& program_address(vault_signer_seed_list(self.dlmm_pool@, self.bump), program_id@) is None
                },
            },
    {
        match vault_authority_from_bump(program_id, &self.dlmm_pool, self.bump) {
            Some(a) => Ok(a),
            None => Err(FeeRoutingError::InvalidVaultSeeds),
        }
    }
}

/// What one escrow balance gained across a claim: the increase, or zero where
/// it did not increase.
pub open spec fn collected(before: u64, after: u64) -> nat {
    if after >= before {
        (after - before) as nat
    } else {
        0
    }
}

/// Whether both totals can take what a claim brought in.
pub open spec fn collection_fits(v: FeeVault, before: EscrowBalances, after: EscrowBalances) -> bool {
    &&& v.total_collected_base + collected(before.base, after.base) <= u64::MAX
    &&& v.total_collected_quote + collected(before.quote, after.quote) <= u64::MAX
}

/// The record after a collection that observed `before` and `after`: both
/// totals grow by what was collected, or nothing changes where either would
/// overflow.
pub open spec fn after_collection(v: FeeVault, before: EscrowBalances, after: EscrowBalances) -> FeeVault {
    if collection_fits(v, before, after) {
        FeeVault {
            total_collected_base: (v.total_collected_base + collected(before.base, after.base)) as u64,
            total_collected_quote: (v.total_collected_quote + collected(before.quote, after.quote)) as u64,
            ..v
        }
    } else {
        v
    }
}

/// The record after a sequence of collections, each given by the balances it
/// observed before and after its claim.
pub open spec fn run_collections(v: FeeVault, obs: Seq<(EscrowBalances, EscrowBalances)>) -> FeeVault
    decreases obs.len(),
{
    if obs.len() == 0 {
        v
    } else {
        run_collections(after_collection(v, obs[0].0, obs[0].1), obs.drop_first())
    }
}

pub open spec fn sum_collected_base(obs: Seq<(EscrowBalances, EscrowBalances)>) -> nat
    decreases obs.len(),
{
    if obs.len() == 0 {
        0
    } else {
        collected(obs[0].0.base, obs[0].1.base) + sum_collected_base(obs.drop_first())
    }
}

pub open spec fn sum_collected_quote(obs: Seq<(EscrowBalances, EscrowBalances)>) -> nat
    decreases obs.len(),
{
    if obs.len() == 0 {
        0
    } else {
        collected(obs[0].0.quote, obs[0].1.quote) + sum_collected_quote(obs.drop_first())
    }
}

/// Whether two records agree on every field that no collection changes.
pub open spec fn same_identity(a: FeeVault, b: FeeVault) -> bool {
    &&& a.authority == b.authority
    &&& a.dlmm_pool == b.dlmm_pool
    &&& a.base_mint == b.base_mint
    &&& a.quote_mint == b.quote_mint
    &&& a.bump == b.bump
    &&& a.creation_time == b.creation_time
}

/// The transfers a distribution makes: the base leg, then the quote leg, each
/// only where its amount is not zero.
pub open spec fn planned_legs(base_amount: u64, quote_amount: u64) -> Seq<TransferLeg> {
    let b = if base_amount > 0 {
        seq![TransferLeg { asset: Asset::Base, amount: base_amount }]
    } else {
        Seq::empty()
    };
    if quote_amount > 0 {
        b.push(TransferLeg { asset: Asset::Quote, amount: quote_amount })
    } else {
        b
    }
}

/// Why a distribution is refused, if it is: a caller other than the control
/// authority first, then either amount beyond its escrow balance.
pub open spec fn distribution_refusal(
    v: FeeVault,
    caller: Address,
    escrow: EscrowBalances,
    base_amount: u64,
    quote_amount: u64,
) -> Option<FeeRoutingError> {
    if caller@ != v.authority@ {
        Some(FeeRoutingError::Unauthorized)
    } else if escrow.base < base_amount || escrow.quote < quote_amount {
        Some(FeeRoutingError::InsufficientBalance)
    } else {
        None
    }
}

pub open spec fn is_error<T>(r: Result<T, FeeRoutingError>, e: FeeRoutingError) -> bool {
    match r {
        Ok(_) => false,
        Err(x) => x == e,
    }
}

/// Pays `base_amount` and `quote_amount` out of escrow. Both legs are checked
/// before either is made, so a refusal moves nothing; on success the escrow
/// balances drop by exactly the amounts, and the transfers to make are returned.
/// The lifetime totals are not touched.
pub fn distribute_fees(
    vault: &FeeVault,
    caller: &Address,
    escrow: &mut EscrowBalances,
    base_amount: u64,
    quote_amount: u64,
) -> (r: Result<Vec<TransferLeg>, FeeRoutingError>)
    ensures
        match r {
            Ok(legs) => {
                &&& distribution_refusal(*vault, *caller, *old(escrow), base_amount, quote_amount) is None
                &&& legs@ == planned_legs(base_amount, quote_amount)
                &&& final(escrow).base == old(escrow).base - base_amount
                &&& final(escrow).quote == old(escrow).quote - quote_amount
            },
            Err(e) => {
                &&& distribution_refusal(*vault, *caller, *old(escrow), base_amount, quote_amount) == Some(e)
                &&& *final(escrow) == *old(escrow)
            },
        },
        caller@ == vault.authority@ && base_amount > old(escrow).base ==> {
            &&& is_error(r, FeeRoutingError::InsufficientBalance)
            &&& *final(escrow) == *old(escrow)
        },
        caller@ == vault.authority@ && base_amount == 0 && quote_amount == 0 ==> {
            &&& r is Ok
            &&& *final(escrow) == *old(escrow)
        },
{
    if !caller.same_as(&vault.authority) {
        return Err(FeeRoutingError::Unauthorized);
    }
    if escrow.base < base_amount {
        return Err(FeeRoutingError::InsufficientBalance);
    }
    if escrow.quote < quote_amount {
        return Err(FeeRoutingError::InsufficientBalance);
    }
    let mut legs: Vec<TransferLeg> = Vec::new();
    if base_amount > 0 {
        escrow.base = escrow.base - base_amount;
        legs.push(TransferLeg { asset: Asset::Base, amount: base_amount });
    }
    if quote_amount > 0 {
        escrow.quote = escrow.quote - quote_amount;
        legs.push(TransferLeg { asset: Asset::Quote, amount: quote_amount });
    }
    proof {
        assert(legs@ =~= planned_legs(base_amount, quote_amount));
    }
    Ok(legs)
}

/// Records a fee claim that anyone may trigger, given the escrow balances read
/// just before and just after the claim. Both totals grow by what was
/// collected; where either would overflow, nothing changes and the result is
/// `MathOverflow`. Returns what was collected.
pub fn collect_position_fees(
    vault: &mut FeeVault,
    before: &EscrowBalances,
    after: &EscrowBalances,
) -> (r: Result<(u64, u64), FeeRoutingError>)
    ensures
        *final(vault) == after_collection(*old(vault), *before, *after),
        match r {
            Ok((b, q)) => {
                &&& collection_fits(*old(vault), *before, *after)
                &&& b == collected(before.base, after.base)
                &&& q == collected(before.quote, after.quote)
            },
            Err(e) => {
                &&& !collection_fits(*old(vault), *before, *after)
                &&& e == FeeRoutingError::MathOverflow
            },
        },
        final(vault).total_collected_base >= old(vault).total_collected_base,
        final(vault).total_collected_quote >= old(vault).total_collected_quote,
{
    let (base_collected, quote_collected) = PermissionlessInterface::collect_position_fees(before, after);
    let new_base = match vault.total_collected_base.checked_add(base_collected) {
        Some(t) => t,
        None => return Err(FeeRoutingError::MathOverflow),
    };
    let new_quote = match vault.total_collected_quote.checked_add(quote_collected) {
        Some(t) => t,
        None => return Err(FeeRoutingError::MathOverflow),
    };
    vault.total_collected_base = new_base;
    vault.total_collected_quote = new_quote;
    Ok((base_collected, quote_collected))
}

/// Creates the record of a new vault for `dlmm_pool`, with zero totals and
/// `authority` as its control authority. `bump` must be the canonical bump of
/// the pool's vault authority under `program_id`: where no authority can be
/// derived the result is `InvalidDlmmPool`, and where `bump` is another one it
/// is `InvalidVaultSeeds`. The stored seeds then reconstruct the derived authority.
pub fn initialize_fee_vault(
    program_id: &Address,
    authority: &Address,
    dlmm_pool: &Address,
    base_mint: &Address,
    quote_mint: &Address,
    bump: u8,
    creation_time: i64,
) -> (r: Result<FeeVault, FeeRoutingError>)
    ensures
        match found_program_address(vault_seed_list(dlmm_pool@), program_id@) {
            None => r == Err::<FeeVault, FeeRoutingError>(FeeRoutingError::InvalidDlmmPool),
            Some((a, b)) => if b == bump {
                &&& r == Ok::<FeeVault, FeeRoutingError>(
                    FeeVault {
                        authority: *authority,
                        dlmm_pool: *dlmm_pool,
                        base_mint: *base_mint,
                        quote_mint: *quote_mint,
                        bump,
                        total_collected_base: 0,
                        total_collected_quote: 0,
                        creation_time,
                    },
                )
                &&& program_address(vault_signer_seed_list(dlmm_pool@, bump), program_id@) == Some(a)
            } else {
                r == Err::<FeeVault, FeeRoutingError>(FeeRoutingError::InvalidVaultSeeds)
            },
        },
{
    match derive_vault_authority(program_id, dlmm_pool) {
        None => Err(FeeRoutingError::InvalidDlmmPool),
        Some((_, b)) => {
            if b != bump {
                return Err(FeeRoutingError::InvalidVaultSeeds);
            }
            Ok(
                FeeVault {
                    authority: *authority,
                    dlmm_pool: *dlmm_pool,
                    base_mint: *base_mint,
                    quote_mint: *quote_mint,
                    bump,
                    total_collected_base: 0,
                    total_collected_quote: 0,
                    creation_time,
                },
            )
        },
    }
}

/// Replaces the control authority with `new_authority` where one is given.
/// Only the current control authority may call it: any other caller gets
/// `Unauthorized` and the record is unchanged. No other field changes.
pub fn update_fee_vault(vault: &mut FeeVault, caller: &Address, new_authority: Option<Address>) -> (r: Result<(), FeeRoutingError>)
    ensures
        caller@ != old(vault).authority@ ==> {
            &&& r == Err::<(), FeeRoutingError>(FeeRoutingError::Unauthorized)
            &&& *final(vault) == *old(vault)
        },
        caller@ == old(vault).authority@ ==> {
            &&& r is Ok
            &&& *final(vault) == match new_authority {
                Some(a) => FeeVault { authority: a, ..*old(vault) },
                None => *old(vault),
            }
        },
{
    if !caller.same_as(&vault.authority) {
        return Err(FeeRoutingError::Unauthorized);
    }
    if let Some(a) = new_authority {
        vault.authority = a;
    }
    Ok(())
}

} // verus!
