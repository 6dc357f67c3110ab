use meteora_fee_routing::address::Address;
use meteora_fee_routing::derivation::{derive_vault_authority, vault_authority_from_bump, vault_seeds, vault_signer_seeds};
use meteora_fee_routing::permissionless_interface::PermissionlessInterface;
use meteora_fee_routing::vault::{
    collect_position_fees, distribute_fees, initialize_fee_vault, update_fee_vault, Asset,
    EscrowBalances, FeeRoutingError, FeeVault, TransferLeg,
};

fn addr(b: u8) -> Address {
    Address::new([b; 32])
}

fn vault_with(authority: Address) -> FeeVault {
    FeeVault {
        authority,
        dlmm_pool: addr(2),
        base_mint: addr(3),
        quote_mint: addr(4),
        bump: 254,
        total_collected_base: 0,
        total_collected_quote: 0,
        creation_time: 1_700_000_000,
    }
}

fn bal(base: u64, quote: u64) -> EscrowBalances {
    EscrowBalances { base, quote }
}

#[test]
fn collection_after_claim_of_one_thousand_base() {
    let mut v = vault_with(addr(1));
    let before = bal(0, 0);
    let after = bal(1000, 0);
    let r = collect_position_fees(&mut v, &before, &after);
    assert_eq!(r, Ok((1000, 0)));
    assert_eq!(v.total_collected_base, 1000);
    assert_eq!(v.total_collected_quote, 0);
    assert_eq!(after.base - before.base, 1000);
}

#[test]
fn distribution_beyond_quote_balance_fails_entirely() {
    let v = vault_with(addr(1));
    let mut escrow = bal(1000, 500);
    let r = distribute_fees(&v, &addr(1), &mut escrow, 1000, 600);
    assert_eq!(r, Err(FeeRoutingError::InsufficientBalance));
    assert_eq!(escrow, bal(1000, 500));
}

#[test]
fn two_collections_of_one_hundred_base_add_up() {
    let mut v = vault_with(addr(1));
    assert_eq!(collect_position_fees(&mut v, &bal(0, 0), &bal(100, 0)), Ok((100, 0)));
    assert_eq!(collect_position_fees(&mut v, &bal(100, 0), &bal(200, 0)), Ok((100, 0)));
    assert_eq!(v.total_collected_base, 200);
}

#[test]
fn collection_totals_are_sum_of_observed_increases() {
    let mut v = vault_with(addr(1));
    let obs = [(bal(0, 0), bal(5, 7)), (bal(5, 7), bal(5, 3)), (bal(5, 3), bal(40, 10)), (bal(40, 10), bal(1, 10))];
    let mut last = 0u64;
    for (before, after) in obs.iter() {
        assert!(collect_position_fees(&mut v, before, after).is_ok());
        assert!(v.total_collected_base >= last);
        last = v.total_collected_base;
    }
    assert_eq!(v.total_collected_base, 5 + 35);
    assert_eq!(v.total_collected_quote, 7 + 7);
}

#[test]
fn collection_with_falling_balance_counts_zero() {
    let mut v = vault_with(addr(1));
    v.total_collected_base = 50;
    v.total_collected_quote = 60;
    let r = collect_position_fees(&mut v, &bal(900, 900), &bal(100, 950));
    assert_eq!(r, Ok((0, 50)));
    assert_eq!(v.total_collected_base, 50);
    assert_eq!(v.total_collected_quote, 110);
}

#[test]
fn collection_with_no_change_is_a_zero_success() {
    let mut v = vault_with(addr(1));
    v.total_collected_base = 9;
    let r = collect_position_fees(&mut v, &bal(10, 10), &bal(10, 10));
    assert_eq!(r, Ok((0, 0)));
    assert_eq!(v.total_collected_base, 9);
    assert_eq!(v.total_collected_quote, 0);
}

#[test]
fn collection_overflow_aborts_without_change() {
    let mut v = vault_with(addr(1));
    v.total_collected_base = 10;
    v.total_collected_quote = u64::MAX - 1;
    let r = collect_position_fees(&mut v, &bal(0, 0), &bal(5, 2));
    assert_eq!(r, Err(FeeRoutingError::MathOverflow));
    assert_eq!(v.total_collected_base, 10);
    assert_eq!(v.total_collected_quote, u64::MAX - 1);
}

#[test]
fn collection_up_to_the_largest_total() {
    let mut v = vault_with(addr(1));
    v.total_collected_base = u64::MAX - 5;
    let r = collect_position_fees(&mut v, &bal(0, 0), &bal(5, 0));
    assert_eq!(r, Ok((5, 0)));
    assert_eq!(v.total_collected_base, u64::MAX);
}

#[test]
fn measured_increases_saturate() {
    assert_eq!(PermissionlessInterface::collect_position_fees(&bal(3, 10), &bal(8, 4)), (5, 0));
    assert_eq!(PermissionlessInterface::collect_position_fees(&bal(0, 0), &bal(u64::MAX, 1)), (u64::MAX, 1));
}

#[test]
fn distribution_beyond_base_balance_fails() {
    let v = vault_with(addr(1));
    let mut escrow = bal(10, 10);
    let r = distribute_fees(&v, &addr(1), &mut escrow, 11, 0);
    assert_eq!(r, Err(FeeRoutingError::InsufficientBalance));
    assert_eq!(escrow, bal(10, 10));
    assert_eq!(v.total_collected_base, 0);
}

#[test]
fn distribution_of_nothing_is_a_no_op() {
    let v = vault_with(addr(1));
    let mut escrow = bal(10, 20);
    let r = distribute_fees(&v, &addr(1), &mut escrow, 0, 0);
    assert_eq!(r, Ok(vec![]));
    assert_eq!(escrow, bal(10, 20));
}

#[test]
fn distribution_moves_exact_amounts() {
    let v = vault_with(addr(1));
    let mut escrow = bal(1000, 500);
    let r = distribute_fees(&v, &addr(1), &mut escrow, 400, 500);
    assert_eq!(
        r,
        Ok(vec![
            TransferLeg { asset: Asset::Base, amount: 400 },
            TransferLeg { asset: Asset::Quote, amount: 500 },
        ])
    );
    assert_eq!(escrow, bal(600, 0));
}

#[test]
fn distribution_of_quote_only() {
    let v = vault_with(addr(1));
    let mut escrow = bal(1000, 500);
    let r = distribute_fees(&v, &addr(1), &mut escrow, 0, 200);
    assert_eq!(r, Ok(vec![TransferLeg { asset: Asset::Quote, amount: 200 }]));
    assert_eq!(escrow, bal(1000, 300));
}

#[test]
fn distribution_by_other_caller_is_unauthorized() {
    let v = vault_with(addr(1));
    let mut escrow = bal(1000, 500);
    let r = distribute_fees(&v, &addr(9), &mut escrow, 1, 1);
    assert_eq!(r, Err(FeeRoutingError::Unauthorized));
    assert_eq!(escrow, bal(1000, 500));
}

#[test]
fn update_by_other_caller_is_unauthorized() {
    let mut v = vault_with(addr(1));
    let r = update_fee_vault(&mut v, &addr(9), Some(addr(9)));
    assert_eq!(r, Err(FeeRoutingError::Unauthorized));
    assert_eq!(v.authority, addr(1));
}

#[test]
fn update_replaces_authority() {
    let mut v = vault_with(addr(1));
    assert_eq!(update_fee_vault(&mut v, &addr(1), Some(addr(7))), Ok(()));
    assert_eq!(v.authority, addr(7));
    assert_eq!(v.dlmm_pool, addr(2));
    assert_eq!(update_fee_vault(&mut v, &addr(7), None), Ok(()));
    assert_eq!(v.authority, addr(7));
    assert_eq!(update_fee_vault(&mut v, &addr(1), None), Err(FeeRoutingError::Unauthorized));
}

#[test]
fn seeds_hold_tag_pool_and_bump() {
    let pool = addr(2);
    let seeds = vault_seeds(&pool);
    assert_eq!(seeds, vec![b"fee_vault".to_vec(), vec![2u8; 32]]);
    let signer = vault_signer_seeds(&pool, 251);
    assert_eq!(signer, vec![b"fee_vault".to_vec(), vec![2u8; 32], vec![251u8]]);
    assert_eq!(vault_with(addr(1)).signer_seeds(), vec![b"fee_vault".to_vec(), vec![2u8; 32], vec![254u8]]);
}

#[test]
fn derived_authority_is_reconstructed_from_bump() {
    let program = addr(11);
    let pool = addr(12);
    let (a, bump) = derive_vault_authority(&program, &pool).unwrap();
    assert_ne!(a, program);
    assert_ne!(a, pool);
    assert_eq!(derive_vault_authority(&program, &pool), Some((a, bump)));
    assert_eq!(vault_authority_from_bump(&program, &pool, bump), Some(a));
    let other = derive_vault_authority(&program, &addr(13)).unwrap();
    assert_ne!(other.0, a);
}

#[test]
fn initialization_checks_bump_and_zeroes_totals() {
    let program = addr(11);
    let pool = addr(12);
    let (a, bump) = derive_vault_authority(&program, &pool).unwrap();
    let v = initialize_fee_vault(&program, &addr(1), &pool, &addr(3), &addr(4), bump, 42).unwrap();
    assert_eq!(v.authority, addr(1));
    assert_eq!(v.dlmm_pool, pool);
    assert_eq!(v.base_mint, addr(3));
    assert_eq!(v.quote_mint, addr(4));
    assert_eq!(v.bump, bump);
    assert_eq!(v.total_collected_base, 0);
    assert_eq!(v.total_collected_quote, 0);
    assert_eq!(v.creation_time, 42);
    assert_eq!(v.authority_address(&program), Ok(a));
    let wrong = bump.wrapping_sub(1);
    let r = initialize_fee_vault(&program, &addr(1), &pool, &addr(3), &addr(4), wrong, 42);
    assert_eq!(r.map(|v| v.bump), Err(FeeRoutingError::InvalidVaultSeeds));
}

#[test]
fn record_size() {
    assert_eq!(FeeVault::LEN, 161);
}
