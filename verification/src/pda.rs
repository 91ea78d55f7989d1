//! Derived (program-owned) addresses. Every record the program trusts lives
//! at an address re-derived from a seed tag, the owning keys and a bump
//! salt; an account reference is accepted only if its address equals the
//! re-derivation.

use vstd::prelude::*;
use crate::consts::{
    id, spec_id, managed_proof_seed, spec_managed_proof_seed, delegated_stake_seed,
    spec_delegated_stake_seed, delegated_boost_seed, spec_delegated_boost_seed,
    delegated_boost_v2_seed, spec_delegated_boost_v2_seed,
};
use crate::error::ProgramError;
use crate::pubkey::Pubkey;

verus! {

/// The address and bump that `find_program_address` derives from these
/// seeds under this program id.
pub uninterp spec fn spec_find_pda(seeds: Seq<Seq<u8>>, program: Seq<u8>) -> (Seq<u8>, u8);

/// The address that `create_program_address` derives from these seeds under
/// this program id, or `None` where it rejects them.
pub uninterp spec fn spec_create_pda(seeds: Seq<Seq<u8>>, program: Seq<u8>) -> Option<Seq<u8>>;

/// Relies on `solana_program::pubkey::Pubkey::find_program_address`: the
/// result depends on the seeds and the program id alone, and appending the
/// returned bump to the seeds makes `create_program_address` return exactly
/// the returned address (its documentation states this search contract).
/// It aborts only in the cryptographically improbable case that no bump
/// salt yields an off-curve address.
#[verifier::external_body]
pub(crate) fn find_program_address(seeds: &Vec<Vec<u8>>, program_id: &Pubkey) -> (r: (Pubkey, u8))
    requires
        seeds.deep_view().len() < 16,
        forall|i: int| 0 <= i < seeds.deep_view().len() ==> #[trigger] seeds.deep_view()[i].len()
            <= 32,
    ensures
        (r.0@, r.1) == spec_find_pda(seeds.deep_view(), program_id@),
        spec_create_pda(seeds.deep_view().push(seq![r.1]), program_id@) == Some(r.0@),
{
    let seed_refs: Vec<&[u8]> = seeds.iter().map(|s| s.as_slice()).collect();
    let program = solana_program::pubkey::Pubkey::new_from_array(program_id.bytes);
    let (address, bump) = solana_program::pubkey::Pubkey::find_program_address(&seed_refs, &program);
    (Pubkey { bytes: address.to_bytes() }, bump)
}

/// Relies on `solana_program::pubkey::Pubkey::create_program_address`: the
/// result depends on the seeds and the program id alone; within the seed
/// limits required here it errs exactly where the derived point lies on the
/// curve, which `spec_create_pda` models as `None`.
#[verifier::external_body]
pub(crate) fn create_program_address(seeds: &Vec<Vec<u8>>, program_id: &Pubkey) -> (r: Result<
    Pubkey,
    ProgramError,
>)
    requires
        seeds.deep_view().len() <= 16,
        forall|i: int| 0 <= i < seeds.deep_view().len() ==> #[trigger] seeds.deep_view()[i].len()
            <= 32,
    ensures
        r is Ok <==> spec_create_pda(seeds.deep_view(), program_id@) is Some,
        r is Ok ==> Some(r->Ok_0@) == spec_create_pda(seeds.deep_view(), program_id@),
        r is Err ==> r->Err_0 == ProgramError::InvalidSeeds,
{
    let seed_refs: Vec<&[u8]> = seeds.iter().map(|s| s.as_slice()).collect();
    let program = solana_program::pubkey::Pubkey::new_from_array(program_id.bytes);
    match solana_program::pubkey::Pubkey::create_program_address(&seed_refs, &program) {
        Ok(address) => Ok(Pubkey { bytes: address.to_bytes() }),
        Err(_) => Err(ProgramError::InvalidSeeds),
    }
}

/// The seeds of a pool record's address: the pool tag and the operator key.
pub open spec fn spec_managed_proof_seeds(miner: Seq<u8>) -> Seq<Seq<u8>> {
    seq![spec_managed_proof_seed(), miner]
}

/// The address and bump of the pool record of `miner`.
pub fn managed_proof_pda(miner: Pubkey) -> (r: (Pubkey, u8))
    ensures
        (r.0@, r.1) == spec_find_pda(spec_managed_proof_seeds(miner@), spec_id()),
        spec_create_pda(spec_managed_proof_seeds(miner@).push(seq![r.1]), spec_id()) == Some(
            r.0@,
        ),
{
    let seeds: Vec<Vec<u8>> = vec![managed_proof_seed(), miner.to_vec()];
    proof {
        assert(seeds.deep_view() =~~= spec_managed_proof_seeds(miner@));
    }
    find_program_address(&seeds, &id())
}

/// The seeds of a primary share ledger's address: the ledger tag, the
/// staker key and the pool record's address.
pub open spec fn spec_delegated_stake_seeds(staker: Seq<u8>, managed_proof: Seq<u8>) -> Seq<
    Seq<u8>,
> {
    seq![spec_delegated_stake_seed(), staker, managed_proof]
}

/// The address and bump of the share ledger of `staker` in the pool of
/// `miner`.
pub fn delegated_stake_pda(miner: Pubkey, staker: Pubkey) -> (r: (Pubkey, u8))
    ensures
        ({
            let pool = spec_find_pda(spec_managed_proof_seeds(miner@), spec_id()).0;
            &&& (r.0@, r.1) == spec_find_pda(
                spec_delegated_stake_seeds(staker@, pool),
                spec_id(),
            )
            &&& spec_create_pda(
                spec_delegated_stake_seeds(staker@, pool).push(seq![r.1]),
                spec_id(),
            ) == Some(r.0@)
        }),
{
    let pool = managed_proof_pda(miner);
    let seeds: Vec<Vec<u8>> = vec![delegated_stake_seed(), staker.to_vec(), pool.0.to_vec()];
    proof {
        assert(seeds.deep_view() =~~= spec_delegated_stake_seeds(
            staker@,
            spec_find_pda(spec_managed_proof_seeds(miner@), spec_id()).0,
        ));
    }
    find_program_address(&seeds, &id())
}

/// The seeds of a v1 boost ledger's address: the tag, the staker key, the
/// reward mint and the pool record's address.
pub open spec fn spec_delegated_boost_seeds(
    staker: Seq<u8>,
    mint: Seq<u8>,
    managed_proof: Seq<u8>,
) -> Seq<Seq<u8>> {
    seq![spec_delegated_boost_seed(), staker, mint, managed_proof]
}

/// The address and bump of the v1 boost ledger of `staker` for `mint` in
/// the pool of `miner`.
pub fn delegated_boost_pda(miner: Pubkey, staker: Pubkey, mint: Pubkey) -> (r: (Pubkey, u8))
    ensures
        ({
            let pool = spec_find_pda(spec_managed_proof_seeds(miner@), spec_id()).0;
            &&& (r.0@, r.1) == spec_find_pda(
                spec_delegated_boost_seeds(staker@, mint@, pool),
                spec_id(),
            )
            &&& spec_create_pda(
                spec_delegated_boost_seeds(staker@, mint@, pool).push(seq![r.1]),
                spec_id(),
            ) == Some(r.0@)
        }),
{
    let pool = managed_proof_pda(miner);
    let seeds: Vec<Vec<u8>> = vec![
        delegated_boost_seed(),
        staker.to_vec(),
        mint.to_vec(),
        pool.0.to_vec(),
    ];
    proof {
        assert(seeds.deep_view() =~~= spec_delegated_boost_seeds(
            staker@,
            mint@,
            spec_find_pda(spec_managed_proof_seeds(miner@), spec_id()).0,
        ));
    }
    find_program_address(&seeds, &id())
}

/// The seeds of a v2 boost ledger's address: the tag, the staker key, the
/// reward mint and the pool record's address.
pub open spec fn spec_delegated_boost_v2_seeds(
    staker: Seq<u8>,
    mint: Seq<u8>,
    managed_proof: Seq<u8>,
) -> Seq<Seq<u8>> {
    seq![spec_delegated_boost_v2_seed(), staker, mint, managed_proof]
}

/// The address and bump of the v2 boost ledger of `staker` for `mint` in
/// the pool of `miner`.
pub fn delegated_boost_v2_pda(miner: Pubkey, staker: Pubkey, mint: Pubkey) -> (r: (Pubkey, u8))
    ensures
        ({
            let pool = spec_find_pda(spec_managed_proof_seeds(miner@), spec_id()).0;
            &&& (r.0@, r.1) == spec_find_pda(
                spec_delegated_boost_v2_seeds(staker@, mint@, pool),
                spec_id(),
            )
            &&& spec_create_pda(
                spec_delegated_boost_v2_seeds(staker@, mint@, pool).push(seq![r.1]),
                spec_id(),
            ) == Some(r.0@)
        }),
{
    let pool = managed_proof_pda(miner);
    let seeds: Vec<Vec<u8>> = vec![
        delegated_boost_v2_seed(),
        staker.to_vec(),
        mint.to_vec(),
        pool.0.to_vec(),
    ];
    proof {
        assert(seeds.deep_view() =~~= spec_delegated_boost_v2_seeds(
            staker@,
            mint@,
            spec_find_pda(spec_managed_proof_seeds(miner@), spec_id()).0,
        ));
    }
    find_program_address(&seeds, &id())
}

/// The associated token account address of a wallet and mint.
pub uninterp spec fn spec_ata(wallet: Seq<u8>, mint: Seq<u8>) -> Seq<u8>;

/// Relies on `spl_associated_token_account::get_associated_token_address`:
/// the derived token-account address depends on the wallet and the mint
/// alone.
#[verifier::external_body]
pub fn associated_token_address(wallet: &Pubkey, mint: &Pubkey) -> (r: Pubkey)
    ensures
        r@ == spec_ata(wallet@, mint@),
{
    let w = solana_program::pubkey::Pubkey::new_from_array(wallet.bytes);
    let m = solana_program::pubkey::Pubkey::new_from_array(mint.bytes);
    let ata = spl_associated_token_account::get_associated_token_address(&w, &m);
    Pubkey { bytes: ata.to_bytes() }
}

/// The seeds of the external ledger's balance record for one authority.
pub open spec fn spec_ore_proof_seeds(authority: Seq<u8>) -> Seq<Seq<u8>> {
    seq![crate::consts::spec_ore_proof_seed(), authority]
}

/// The address and bump of the external ledger's balance record for
/// `authority`, derived under the ore program.
pub fn ore_proof_pda(authority: Pubkey) -> (r: (Pubkey, u8))
    ensures
        (r.0@, r.1) == spec_find_pda(
            spec_ore_proof_seeds(authority@),
            crate::consts::spec_ore_program_id(),
        ),
{
    let seeds: Vec<Vec<u8>> = vec![crate::consts::ore_proof_seed(), authority.to_vec()];
    proof {
        assert(seeds.deep_view() =~~= spec_ore_proof_seeds(authority@));
    }
    find_program_address(&seeds, &crate::consts::ore_program_id())
}

/// The seeds of a boost record for one mint.
pub open spec fn spec_boost_seeds(mint: Seq<u8>) -> Seq<Seq<u8>> {
    seq![crate::consts::spec_boost_seed(), mint]
}

/// The address and bump of the boost program's boost record for `mint`.
pub fn boost_pda(mint: Pubkey) -> (r: (Pubkey, u8))
    ensures
        (r.0@, r.1) == spec_find_pda(
            spec_boost_seeds(mint@),
            crate::consts::spec_ore_boost_program_id(),
        ),
{
    let seeds: Vec<Vec<u8>> = vec![crate::consts::boost_seed(), mint.to_vec()];
    proof {
        assert(seeds.deep_view() =~~= spec_boost_seeds(mint@));
    }
    find_program_address(&seeds, &crate::consts::ore_boost_program_id())
}

/// The seeds of a boost stake record for one authority and boost.
pub open spec fn spec_boost_stake_seeds(authority: Seq<u8>, boost: Seq<u8>) -> Seq<Seq<u8>> {
    seq![crate::consts::spec_boost_stake_seed(), authority, boost]
}

/// The address and bump of the boost program's stake record of `authority`
/// in `boost`.
pub fn boost_stake_pda(authority: Pubkey, boost: Pubkey) -> (r: (Pubkey, u8))
    ensures
        (r.0@, r.1) == spec_find_pda(
            spec_boost_stake_seeds(authority@, boost@),
            crate::consts::spec_ore_boost_program_id(),
        ),
{
    let seeds: Vec<Vec<u8>> = vec![
        crate::consts::boost_stake_seed(),
        authority.to_vec(),
        boost.to_vec(),
    ];
    proof {
        assert(seeds.deep_view() =~~= spec_boost_stake_seeds(authority@, boost@));
    }
    find_program_address(&seeds, &crate::consts::ore_boost_program_id())
}

/// The seeds of the boost program's config record.
pub open spec fn spec_boost_config_seeds() -> Seq<Seq<u8>> {
    seq![crate::consts::spec_boost_config_seed()]
}

/// The address and bump of the boost program's config record.
pub fn boost_config_pda() -> (r: (Pubkey, u8))
    ensures
        (r.0@, r.1) == spec_find_pda(
            spec_boost_config_seeds(),
            crate::consts::spec_ore_boost_program_id(),
        ),
{
    let seeds: Vec<Vec<u8>> = vec![crate::consts::boost_config_seed()];
    proof {
        assert(seeds.deep_view() =~~= spec_boost_config_seeds());
    }
    find_program_address(&seeds, &crate::consts::ore_boost_program_id())
}

/// The seeds of the ore program's config record.
pub open spec fn spec_ore_config_seeds() -> Seq<Seq<u8>> {
    seq![crate::consts::spec_ore_config_seed()]
}

/// The ore program's config address, derived under the ore program.
pub open spec fn spec_ore_config_address() -> Seq<u8> {
    spec_find_pda(spec_ore_config_seeds(), crate::consts::spec_ore_program_id()).0
}

pub fn ore_config_address() -> (r: Pubkey)
    ensures
        r@ == spec_ore_config_address(),
{
    let seeds: Vec<Vec<u8>> = vec![crate::consts::ore_config_seed()];
    proof {
        assert(seeds.deep_view() =~~= spec_ore_config_seeds());
    }
    find_program_address(&seeds, &crate::consts::ore_program_id()).0
}

/// The seeds of the ore token mint: the mint tag and the fixed noise bytes.
pub open spec fn spec_ore_mint_seeds() -> Seq<Seq<u8>> {
    seq![crate::consts::spec_ore_mint_seed(), crate::consts::spec_ore_mint_noise()]
}

/// The ore token mint's address, derived under the ore program.
pub open spec fn spec_ore_mint_address() -> Seq<u8> {
    spec_find_pda(spec_ore_mint_seeds(), crate::consts::spec_ore_program_id()).0
}

pub fn ore_mint_address() -> (r: Pubkey)
    ensures
        r@ == spec_ore_mint_address(),
{
    let seeds: Vec<Vec<u8>> = vec![crate::consts::ore_mint_seed(), crate::consts::ore_mint_noise()];
    proof {
        assert(seeds.deep_view() =~~= spec_ore_mint_seeds());
    }
    find_program_address(&seeds, &crate::consts::ore_program_id()).0
}

/// The seeds of the ore treasury.
pub open spec fn spec_ore_treasury_seeds() -> Seq<Seq<u8>> {
    seq![crate::consts::spec_ore_treasury_seed()]
}

/// The ore treasury's address, derived under the ore program.
pub open spec fn spec_ore_treasury_address() -> Seq<u8> {
    spec_find_pda(spec_ore_treasury_seeds(), crate::consts::spec_ore_program_id()).0
}

pub fn ore_treasury_address() -> (r: Pubkey)
    ensures
        r@ == spec_ore_treasury_address(),
{
    let seeds: Vec<Vec<u8>> = vec![crate::consts::ore_treasury_seed()];
    proof {
        assert(seeds.deep_view() =~~= spec_ore_treasury_seeds());
    }
    find_program_address(&seeds, &crate::consts::ore_program_id()).0
}

} // verus!

