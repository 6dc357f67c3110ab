use vstd::prelude::*;
use anchor_lang::solana_program::pubkey::{Pubkey, PubkeyError};
use crate::address::Address;

verus! {

/// The address that `Pubkey::create_program_address` derives from the seeds and
/// the program id, or `None` where it refuses them.
pub uninterp spec fn program_address(seeds: Seq<Seq<u8>>, program_id: Seq<u8>) -> Option<Seq<u8>>;

/// The address and bump seed that `Pubkey::try_find_program_address` finds for
/// the seeds and the program id, or `None` where it finds none.
pub uninterp spec fn found_program_address(seeds: Seq<Seq<u8>>, program_id: Seq<u8>) -> Option<(Seq<u8>, u8)>;

pub open spec fn seeds_view(seeds: Seq<Vec<u8>>) -> Seq<Seq<u8>> {
    seeds.map_values(|s: Vec<u8>| s@)
}

/// The namespace tag under which every vault authority is derived.
pub open spec fn vault_tag() -> Seq<u8> {
    seq![102u8, 101u8, 101u8, 95u8, 118u8, 97u8, 117u8, 108u8, 116u8]
}

/// The seeds that locate the vault authority of a pool, before the bump.
pub open spec fn vault_seed_list(pool: Seq<u8>) -> Seq<Seq<u8>> {
    seq![vault_tag(), pool]
}

/// The seeds with which the vault authority of a pool signs: the locating
/// seeds followed by the one-byte bump.
pub open spec fn vault_signer_seed_list(pool: Seq<u8>, bump: u8) -> Seq<Seq<u8>> {
    vault_seed_list(pool).push(seq![bump])
}

#[verifier::external_type_specification]
#[verifier::external_body]
pub struct ExPubkeyError(PubkeyError);

/// Relies on `Pubkey::create_program_address`: it hashes the seeds with the
/// program id and succeeds, with an address that depends on its arguments
/// alone, exactly when the seeds are within the length limits and the hash is
/// off the curve.
#[verifier::external_body]
fn create_program_address(seeds: &Vec<Vec<u8>>, program_id: &Address) -> (r: Result<Address, PubkeyError>)
    ensures
        match r {
            Ok(a) => program_address(seeds_view(seeds@), program_id@) == Some(a@),
            Err(_) => program_address(seeds_view(seeds@), program_id@) is None,
        },
{
    let refs: Vec<&[u8]> = seeds.iter().map(|s| s.as_slice()).collect();
    match Pubkey::create_program_address(&refs, &Pubkey::new_from_array(program_id.bytes)) {
        Ok(k) => Ok(Address { bytes: k.to_bytes() }),
        Err(e) => Err(e),
    }
}

/// Relies on `Pubkey::try_find_program_address`: it tries the bump seeds from
/// 255 downwards, appending each to the seeds, and returns the first one for
/// which `create_program_address` succeeds, with that address.
#[verifier::external_body]
fn try_find_program_address(seeds: &Vec<Vec<u8>>, program_id: &Address) -> (r: Option<(Address, u8)>)
    ensures
        match r {
            Some((a, b)) => found_program_address(seeds_view(seeds@), program_id@) == Some((a@, b)),
            None => found_program_address(seeds_view(seeds@), program_id@) is None,
        },
        match r {
            Some((a, b)) => {
                &&& program_address(seeds_view(seeds@).push(seq![b]), program_id@) == Some(a@)
                &&& forall|c: u8|
                    b < c ==> (#[trigger] program_address(seeds_view(seeds@).push(seq![c]), program_id@)) is None
            },
            None => true,
        },
{
    let refs: Vec<&[u8]> = seeds.iter().map(|s| s.as_slice()).collect();
    match Pubkey::try_find_program_address(&refs, &Pubkey::new_from_array(program_id.bytes)) {
        Some((k, b)) => Some((Address { bytes: k.to_bytes() }, b)),
        None => None,
    }
}

/// The namespace tag as bytes.
pub fn vault_tag_bytes() -> (r: Vec<u8>)
    ensures
        r@ == vault_tag(),
{
    let r: Vec<u8> = vec![102u8, 101u8, 101u8, 95u8, 118u8, 97u8, 117u8, 108u8, 116u8];
    proof {
        assert(r@ =~= vault_tag());
    }
    r
}

/// The seeds that locate the vault authority of `pool`.
pub fn vault_seeds(pool: &Address) -> (r: Vec<Vec<u8>>)
    ensures
        seeds_view(r@) == vault_seed_list(pool@),
{
    let mut r: Vec<Vec<u8>> = Vec::new();
    r.push(vault_tag_bytes());
    r.push(pool.to_vec());
    proof {
        assert(seeds_view(r@) =~= vault_seed_list(pool@));
    }
    r
}

/// The seeds with which the vault authority of `pool` signs, given its bump.
pub fn vault_signer_seeds(pool: &Address, bump: u8) -> (r: Vec<Vec<u8>>)
    ensures
        seeds_view(r@) == vault_signer_seed_list(pool@, bump),
{
    let mut r = vault_seeds(pool);
    let b: Vec<u8> = vec![bump];
    proof {
        assert(b@ =~= seq![bump]);
    }
    r.push(b);
    proof {
        assert(seeds_view(r@) =~= vault_signer_seed_list(pool@, bump));
    }
    r
}

/// Derives the vault authority of `pool` under `program_id`: the canonical
/// (highest) bump for which the signer seeds give an address, and that address.
/// The same inputs always give the same authority, and the signer seeds with
/// the returned bump reconstruct it.
pub fn derive_vault_authority(program_id: &Address, pool: &Address) -> (r: Option<(Address, u8)>)
    ensures
        match r {
            Some((a, b)) => {
                &&& found_program_address(vault_seed_list(pool@), program_id@) == Some((a@, b))
                &&& program_address(vault_signer_seed_list(pool@, b), program_id@) == Some(a@)
                &&& forall|c: u8|
                    b < c ==> (#[trigger] program_address(vault_signer_seed_list(pool@, c), program_id@)) is None
            },
            None => found_program_address(vault_seed_list(pool@), program_id@) is None,
        },
{
    let seeds = vault_seeds(pool);
    try_find_program_address(&seeds, program_id)
}

/// Reconstructs the vault authority of `pool` from its bump, without a search.
pub fn vault_authority_from_bump(program_id: &Address, pool: &Address, bump: u8) -> (r: Option<Address>)
    ensures
        match r {
            Some(a) => program_address(vault_signer_seed_list(pool@, bump), program_id@) == Some(a@),
            None => program_address(vault_signer_seed_list(pool@, bump), program_id@) is None,
        },
{
    let seeds = vault_signer_seeds(pool, bump);
    match create_program_address(&seeds, program_id) {
        Ok(a) => Some(a),
        Err(_) => None,
    }
}

} // verus!
