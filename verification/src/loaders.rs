//! Account admission. Before an operation trusts an account's contents it
//! checks, in order: the account is owned by this program, it is
//! initialized, its data parses as the expected record kind, its address
//! equals the canonical re-derivation from the claimed owner keys and the
//! stored bump, and it is writable where the operation will write it.
//! The first failing check decides the error, and nothing is mutated.

use vstd::prelude::*;
use crate::account::Account;
use crate::consts::{
    spec_id, delegated_boost_seed, delegated_boost_v2_seed, delegated_stake_seed,
    managed_proof_seed,
};
use crate::error::ProgramError;
use crate::pda::{
    create_program_address, spec_create_pda, spec_delegated_boost_seeds,
    spec_delegated_boost_v2_seeds, spec_delegated_stake_seeds, spec_managed_proof_seeds,
};
use crate::pubkey::Pubkey;
use crate::state::{DelegatedBoost, DelegatedBoostV2, DelegatedStake, ManagedProof};

verus! {

/// What admitting a pool record for `miner` decides: `Ok` when every check
/// passes, else the first failing check's error. The record must name
/// `miner` as its operator and must itself sit at the address re-derived
/// from `miner` and the stored bump.
pub open spec fn spec_load_managed_proof(info: Account, miner: Seq<u8>, writable: bool) -> Result<
    (),
    ProgramError,
> {
    if info.owner@ != spec_id() {
        Err(ProgramError::InvalidAccountOwner)
    } else if info.data@.len() == 0 {
        Err(ProgramError::UninitializedAccount)
    } else if !ManagedProof::spec_parses(info.data@) {
        Err(ProgramError::InvalidAccountData)
    } else if info.data@.subrange(16, 48) != miner {
        Err(ProgramError::InvalidAccountData)
    } else if spec_create_pda(
        spec_managed_proof_seeds(miner).push(seq![info.data@[8]]),
        spec_id(),
    ) is None {
        Err(ProgramError::InvalidSeeds)
    } else if spec_create_pda(
        spec_managed_proof_seeds(miner).push(seq![info.data@[8]]),
        spec_id(),
    ) != Some(info.key@) {
        Err(ProgramError::InvalidAccountData)
    } else if writable && !info.is_writable {
        Err(ProgramError::InvalidAccountData)
    } else {
        Ok(())
    }
}

/// Admits the pool record of `miner` and returns it.
pub fn load_managed_proof(info: &Account, miner: &Pubkey, is_writable: bool) -> (r: Result<
    ManagedProof,
    ProgramError,
>)
    ensures
        r is Ok <==> spec_load_managed_proof(*info, miner@, is_writable) is Ok,
        r is Err ==> Err::<(), ProgramError>(r->Err_0) == spec_load_managed_proof(
            *info,
            miner@,
            is_writable,
        ),
        r is Ok ==> {
            let p = r->Ok_0;
            &&& p.bump == info.data@[8]
            &&& p.miner_authority@ == miner@
            &&& p.total_shares == vstd::bytes::spec_u64_from_le_bytes(
                info.data@.subrange(48, 56),
            )
            &&& p.commission_rate_bips == vstd::bytes::spec_u16_from_le_bytes(
                info.data@.subrange(56, 58),
            )
        },
{
    if info.owner != crate::consts::id() {
        return Err(ProgramError::InvalidAccountOwner);
    }
    if info.data_is_empty() {
        return Err(ProgramError::UninitializedAccount);
    }
    let managed_proof = match ManagedProof::try_from_bytes(info.data.as_slice()) {
        Ok(p) => p,
        Err(e) => {
            return Err(e);
        },
    };
    if managed_proof.miner_authority != *miner {
        return Err(ProgramError::InvalidAccountData);
    }
    let seeds: Vec<Vec<u8>> = vec![
        crate::consts::managed_proof_seed(),
        miner.to_vec(),
        vec![managed_proof.bump],
    ];
    proof {
        assert(seeds.deep_view() =~~= spec_managed_proof_seeds(miner@).push(
            seq![info.data@[8]],
        ));
    }
    let derived = match create_program_address(&seeds, &crate::consts::id()) {
        Ok(k) => k,
        Err(e) => {
            return Err(e);
        },
    };
    if info.key != derived {
        return Err(ProgramError::InvalidAccountData);
    }
    if is_writable && !info.is_writable {
        return Err(ProgramError::InvalidAccountData);
    }
    Ok(managed_proof)
}

/// What admitting a primary share ledger decides: `Ok` when every check
/// passes, else the first failing check's error. The ledger's address must
/// re-derive from the claimed staker, the pool record's address and the
/// stored bump.
pub open spec fn spec_load_delegated_stake(
    info: Account,
    authority: Seq<u8>,
    managed_proof: Seq<u8>,
    writable: bool,
) -> Result<(), ProgramError> {
    if info.owner@ != spec_id() {
        Err(ProgramError::InvalidAccountOwner)
    } else if info.data@.len() == 0 {
        Err(ProgramError::UninitializedAccount)
    } else if !DelegatedStake::spec_parses(info.data@) {
        Err(ProgramError::InvalidAccountData)
    } else if spec_create_pda(
        spec_delegated_stake_seeds(authority, managed_proof).push(seq![info.data@[8]]),
        spec_id(),
    ) is None {
        Err(ProgramError::InvalidSeeds)
    } else if spec_create_pda(
        spec_delegated_stake_seeds(authority, managed_proof).push(seq![info.data@[8]]),
        spec_id(),
    ) != Some(info.key@) {
        Err(ProgramError::InvalidAccountData)
    } else if writable && !info.is_writable {
        Err(ProgramError::InvalidAccountData)
    } else {
        Ok(())
    }
}

/// Admits the share ledger of `delegate_authority` in the pool at
/// `managed_proof` and returns it.
pub fn load_delegated_stake(
    info: &Account,
    delegate_authority: &Pubkey,
    managed_proof: &Pubkey,
    is_writable: bool,
) -> (r: Result<DelegatedStake, ProgramError>)
    ensures
        r is Ok <==> spec_load_delegated_stake(
            *info,
            delegate_authority@,
            managed_proof@,
            is_writable,
        ) is Ok,
        r is Err ==> Err::<(), ProgramError>(r->Err_0) == spec_load_delegated_stake(
            *info,
            delegate_authority@,
            managed_proof@,
            is_writable,
        ),
        r is Ok ==> {
            let p = r->Ok_0;
            &&& p.bump == info.data@[8]
            &&& p.amount == vstd::bytes::spec_u64_from_le_bytes(info.data@.subrange(16, 24))
        },
{
    if info.owner != crate::consts::id() {
        return Err(ProgramError::InvalidAccountOwner);
    }
    if info.data_is_empty() {
        return Err(ProgramError::UninitializedAccount);
    }
    let delegated_stake = match DelegatedStake::try_from_bytes(info.data.as_slice()) {
        Ok(p) => p,
        Err(e) => {
            return Err(e);
        },
    };
    let seeds: Vec<Vec<u8>> = vec![
        delegated_stake_seed(),
        delegate_authority.to_vec(),
        managed_proof.to_vec(),
        vec![delegated_stake.bump],
    ];
    proof {
        assert(seeds.deep_view() =~~= spec_delegated_stake_seeds(
            delegate_authority@,
            managed_proof@,
        ).push(seq![info.data@[8]]));
    }
    let derived = match create_program_address(&seeds, &crate::consts::id()) {
        Ok(k) => k,
        Err(e) => {
            return Err(e);
        },
    };
    if info.key != derived {
        return Err(ProgramError::InvalidAccountData);
    }
    if is_writable && !info.is_writable {
        return Err(ProgramError::InvalidAccountData);
    }
    Ok(delegated_stake)
}

/// What admitting a v1 boost ledger decides, as for the primary ledger but
/// with the reward mint among the seeds.
pub open spec fn spec_load_delegated_boost(
    info: Account,
    authority: Seq<u8>,
    managed_proof: Seq<u8>,
    mint: Seq<u8>,
    writable: bool,
) -> Result<(), ProgramError> {
    if info.owner@ != spec_id() {
        Err(ProgramError::InvalidAccountOwner)
    } else if info.data@.len() == 0 {
        Err(ProgramError::UninitializedAccount)
    } else if !DelegatedBoost::spec_parses(info.data@) {
        Err(ProgramError::InvalidAccountData)
    } else if spec_create_pda(
        spec_delegated_boost_seeds(authority, mint, managed_proof).push(seq![info.data@[8]]),
        spec_id(),
    ) is None {
        Err(ProgramError::InvalidSeeds)
    } else if spec_create_pda(
        spec_delegated_boost_seeds(authority, mint, managed_proof).push(seq![info.data@[8]]),
        spec_id(),
    ) != Some(info.key@) {
        Err(ProgramError::InvalidAccountData)
    } else if writable && !info.is_writable {
        Err(ProgramError::InvalidAccountData)
    } else {
        Ok(())
    }
}

/// Admits the v1 boost ledger of `delegate_authority` for `mint` in the
/// pool at `managed_proof` and returns it.
pub fn load_delegated_boost(
    info: &Account,
    delegate_authority: &Pubkey,
    managed_proof: &Pubkey,
    mint: &Pubkey,
    is_writable: bool,
) -> (r: Result<DelegatedBoost, ProgramError>)
    ensures
        r is Ok <==> spec_load_delegated_boost(
            *info,
            delegate_authority@,
            managed_proof@,
            mint@,
            is_writable,
        ) is Ok,
        r is Err ==> Err::<(), ProgramError>(r->Err_0) == spec_load_delegated_boost(
            *info,
            delegate_authority@,
            managed_proof@,
            mint@,
            is_writable,
        ),
        r is Ok ==> {
            let p = r->Ok_0;
            &&& p.bump == info.data@[8]
            &&& p.managed_proof_pubkey@ == info.data@.subrange(16, 48)
            &&& p.amount == vstd::bytes::spec_u64_from_le_bytes(info.data@.subrange(48, 56))
        },
{
    if info.owner != crate::consts::id() {
        return Err(ProgramError::InvalidAccountOwner);
    }
    if info.data_is_empty() {
        return Err(ProgramError::UninitializedAccount);
    }
    let delegated_boost = match DelegatedBoost::try_from_bytes(info.data.as_slice()) {
        Ok(p) => p,
        Err(e) => {
            return Err(e);
        },
    };
    let seeds: Vec<Vec<u8>> = vec![
        delegated_boost_seed(),
        delegate_authority.to_vec(),
        mint.to_vec(),
        managed_proof.to_vec(),
        vec![delegated_boost.bump],
    ];
    proof {
        assert(seeds.deep_view() =~~= spec_delegated_boost_seeds(
            delegate_authority@,
            mint@,
            managed_proof@,
        ).push(seq![info.data@[8]]));
    }
    let derived = match create_program_address(&seeds, &crate::consts::id()) {
        Ok(k) => k,
        Err(e) => {
            return Err(e);
        },
    };
    if info.key != derived {
        return Err(ProgramError::InvalidAccountData);
    }
    if is_writable && !info.is_writable {
        return Err(ProgramError::InvalidAccountData);
    }
    Ok(delegated_boost)
}

/// What admitting a v2 boost ledger decides, as for the v1 ledger but under
/// the v2 seed tag.
pub open spec fn spec_load_delegated_boost_v2(
    info: Account,
    authority: Seq<u8>,
    managed_proof: Seq<u8>,
    mint: Seq<u8>,
    writable: bool,
) -> Result<(), ProgramError> {
    if info.owner@ != spec_id() {
        Err(ProgramError::InvalidAccountOwner)
    } else if info.data@.len() == 0 {
        Err(ProgramError::UninitializedAccount)
    } else if !DelegatedBoostV2::spec_parses(info.data@) {
        Err(ProgramError::InvalidAccountData)
    } else if spec_create_pda(
        spec_delegated_boost_v2_seeds(authority, mint, managed_proof).push(seq![info.data@[8]]),
        spec_id(),
    ) is None {
        Err(ProgramError::InvalidSeeds)
    } else if spec_create_pda(
        spec_delegated_boost_v2_seeds(authority, mint, managed_proof).push(seq![info.data@[8]]),
        spec_id(),
    ) != Some(info.key@) {
        Err(ProgramError::InvalidAccountData)
    } else if writable && !info.is_writable {
        Err(ProgramError::InvalidAccountData)
    } else {
        Ok(())
    }
}

/// Admits the v2 boost ledger of `delegate_authority` for `mint` in the
/// pool at `managed_proof` and returns it.
pub fn load_delegated_boost_v2(
    info: &Account,
    delegate_authority: &Pubkey,
    managed_proof: &Pubkey,
    mint: &Pubkey,
    is_writable: bool,
) -> (r: Result<DelegatedBoostV2, ProgramError>)
    ensures
        r is Ok <==> spec_load_delegated_boost_v2(
            *info,
            delegate_authority@,
            managed_proof@,
            mint@,
            is_writable,
        ) is Ok,
        r is Err ==> Err::<(), ProgramError>(r->Err_0) == spec_load_delegated_boost_v2(
            *info,
            delegate_authority@,
            managed_proof@,
            mint@,
            is_writable,
        ),
        r is Ok ==> {
            let p = r->Ok_0;
            &&& p.bump == info.data@[8]
            &&& p.managed_proof_pubkey@ == info.data@.subrange(16, 48)
            &&& p.authority@ == info.data@.subrange(48, 80)
            &&& p.mint@ == info.data@.subrange(80, 112)
            &&& p.fee_payer@ == info.data@.subrange(112, 144)
            &&& p.amount == vstd::bytes::spec_u64_from_le_bytes(info.data@.subrange(144, 152))
        },
{
    if info.owner != crate::consts::id() {
        return Err(ProgramError::InvalidAccountOwner);
    }
    if info.data_is_empty() {
        return Err(ProgramError::UninitializedAccount);
    }
    let delegated_boost = match DelegatedBoostV2::try_from_bytes(info.data.as_slice()) {
        Ok(p) => p,
        Err(e) => {
            return Err(e);
        },
    };
    let seeds: Vec<Vec<u8>> = vec![
        delegated_boost_v2_seed(),
        delegate_authority.to_vec(),
        mint.to_vec(),
        managed_proof.to_vec(),
        vec![delegated_boost.bump],
    ];
    proof {
        assert(seeds.deep_view() =~~= spec_delegated_boost_v2_seeds(
            delegate_authority@,
            mint@,
            managed_proof@,
        ).push(seq![info.data@[8]]));
    }
    let derived = match create_program_address(&seeds, &crate::consts::id()) {
        Ok(k) => k,
        Err(e) => {
            return Err(e);
        },
    };
    if info.key != derived {
        return Err(ProgramError::InvalidAccountData);
    }
    if is_writable && !info.is_writable {
        return Err(ProgramError::InvalidAccountData);
    }
    Ok(delegated_boost)
}

/// Checks that `info` is the executable program at `program_id`.
pub fn load_program(info: &Account, program_id: &Pubkey) -> (r: Result<(), ProgramError>)
    ensures
        r is Ok <==> (info.key@ == program_id@ && info.executable),
        r is Err ==> r->Err_0 == (if info.key@ != program_id@ {
            ProgramError::IncorrectProgramId
        } else {
            ProgramError::InvalidAccountData
        }),
{
    if info.key != *program_id {
        return Err(ProgramError::IncorrectProgramId);
    }
    if !info.executable {
        return Err(ProgramError::InvalidAccountData);
    }
    Ok(())
}

} // verus!
