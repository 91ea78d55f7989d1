//! Initializing a primary share ledger: creates a zeroed ledger for
//! (staker, pool) at its canonical derived address. Fails if the ledger
//! already exists.

use vstd::prelude::*;
use crate::account::Account;
use crate::consts::{spec_id, spec_rent_sysvar_id, spec_system_program_id};
use crate::error::ProgramError;
use crate::loaders::{load_managed_proof, spec_load_managed_proof};
use crate::pda::{spec_delegated_stake_seeds, spec_find_pda};
use crate::state::DelegatedStake;

verus! {

/// What the hosting environment must still do after the checks pass: create
/// the ledger's storage at the derived address, funded by the signer.
#[derive(Debug)]
pub struct InitDelegateStakeAction {
    /// The bump salt of the ledger's derived address, for signing.
    pub bump: u8,
}

/// What initializing a share ledger decides: `Ok` when every check passes,
/// else the first failing check's error.
pub open spec fn spec_init_delegate_stake_checks(
    signer: Account,
    miner: Account,
    managed_proof_account: Account,
    delegate_stake_account: Account,
    rent_sysvar: Account,
    system_program: Account,
) -> Result<(), ProgramError> {
    if spec_load_managed_proof(managed_proof_account, miner.key@, false) is Err {
        spec_load_managed_proof(managed_proof_account, miner.key@, false)
    } else if delegate_stake_account.data@.len() != 0 {
        Err(ProgramError::AccountAlreadyInitialized)
    } else if rent_sysvar.key@ != spec_rent_sysvar_id() {
        Err(ProgramError::UnsupportedSysvar)
    } else if system_program.key@ != spec_system_program_id() {
        Err(ProgramError::IncorrectProgramId)
    } else if delegate_stake_account.key@ != spec_find_pda(
        spec_delegated_stake_seeds(signer.key@, managed_proof_account.key@),
        spec_id(),
    ).0 {
        Err(ProgramError::InvalidAccountData)
    } else {
        Ok(())
    }
}

/// Creates the zeroed share ledger of the signer in the pool of `miner`.
/// On any failure nothing changes.
pub fn process_init_delegate_stake(
    signer: &Account,
    miner: &Account,
    managed_proof_account: &Account,
    delegate_stake_account: &mut Account,
    rent_sysvar: &Account,
    system_program: &Account,
) -> (r: Result<InitDelegateStakeAction, ProgramError>)
    ensures
        r is Ok <==> spec_init_delegate_stake_checks(
            *signer,
            *miner,
            *managed_proof_account,
            *old(delegate_stake_account),
            *rent_sysvar,
            *system_program,
        ) is Ok,
        r is Err ==> Err::<(), ProgramError>(r->Err_0) == spec_init_delegate_stake_checks(
            *signer,
            *miner,
            *managed_proof_account,
            *old(delegate_stake_account),
            *rent_sysvar,
            *system_program,
        ),
        r is Err ==> *final(delegate_stake_account) == *old(delegate_stake_account),
        r is Ok ==> {
            let pda = spec_find_pda(
                spec_delegated_stake_seeds(signer.key@, managed_proof_account.key@),
                spec_id(),
            );
            let record = DelegatedStake { bump: pda.1, amount: 0 };
            &&& r->Ok_0.bump == pda.1
            &&& final(delegate_stake_account).data@ == record.spec_to_bytes()
            &&& final(delegate_stake_account).key == old(delegate_stake_account).key
            &&& final(delegate_stake_account).owner == old(delegate_stake_account).owner
            &&& final(delegate_stake_account).lamports == old(delegate_stake_account).lamports
        },
{
    let _pool = match load_managed_proof(managed_proof_account, &miner.key, false) {
        Ok(p) => p,
        Err(e) => {
            return Err(e);
        },
    };
    if !delegate_stake_account.data_is_empty() {
        return Err(ProgramError::AccountAlreadyInitialized);
    }
    if rent_sysvar.key != crate::consts::rent_sysvar_id() {
        return Err(ProgramError::UnsupportedSysvar);
    }
    if system_program.key != crate::consts::system_program_id() {
        return Err(ProgramError::IncorrectProgramId);
    }
    let pda = delegated_stake_pda_for_pool(&signer.key, &managed_proof_account.key);
    if delegate_stake_account.key != pda.0 {
        return Err(ProgramError::InvalidAccountData);
    }
    let record = DelegatedStake { bump: pda.1, amount: 0 };
    delegate_stake_account.data = record.to_bytes();
    Ok(InitDelegateStakeAction { bump: pda.1 })
}

/// The address and bump of the share ledger of `staker` in the pool record
/// at `managed_proof` (the pool's address itself, not re-derived from the
/// operator).
pub fn delegated_stake_pda_for_pool(staker: &crate::pubkey::Pubkey, managed_proof: &crate::pubkey::Pubkey) -> (r: (
    crate::pubkey::Pubkey,
    u8,
))
    ensures
        (r.0@, r.1) == spec_find_pda(
            spec_delegated_stake_seeds(staker@, managed_proof@),
            spec_id(),
        ),
{
    let seeds: Vec<Vec<u8>> = vec![
        crate::consts::delegated_stake_seed(),
        staker.to_vec(),
        managed_proof.to_vec(),
    ];
    proof {
        assert(seeds.deep_view() =~~= spec_delegated_stake_seeds(staker@, managed_proof@));
    }
    crate::pda::find_program_address(&seeds, &crate::consts::id())
}

} // verus!
