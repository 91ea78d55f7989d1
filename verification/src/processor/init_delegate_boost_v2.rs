//! Initializing a v2 boost ledger: creates a zeroed ledger for (staker,
//! pool, mint) at its canonical derived address, recording the staker and
//! the fee payer that funded the storage. Fails if the ledger exists.

use vstd::prelude::*;
use crate::account::Account;
use crate::consts::{spec_id, spec_rent_sysvar_id, spec_system_program_id};
use crate::error::ProgramError;
use crate::loaders::{load_managed_proof, spec_load_managed_proof};
use crate::pda::{spec_delegated_boost_v2_seeds, spec_find_pda};
use crate::pubkey::Pubkey;
use crate::state::DelegatedBoostV2;

verus! {

/// What the hosting environment must still do after the checks pass: create
/// the ledger's storage at the derived address, funded by the payer.
#[derive(Debug)]
pub struct InitDelegateBoostV2Action {
    /// The bump salt of the ledger's derived address, for signing.
    pub bump: u8,
}

/// What initializing a v2 boost ledger decides: `Ok` when every check
/// passes, else the first failing check's error.
pub open spec fn spec_init_delegate_boost_v2_checks(
    staker: Account,
    miner: Account,
    payer: Account,
    managed_proof_account: Account,
    delegate_boost_account: Account,
    token_mint_account: Account,
    rent_sysvar: Account,
    system_program: Account,
) -> Result<(), ProgramError> {
    if spec_load_managed_proof(managed_proof_account, miner.key@, false) is Err {
        spec_load_managed_proof(managed_proof_account, miner.key@, false)
    } else if !payer.is_signer {
        Err(ProgramError::MissingRequiredSignature)
    } else if delegate_boost_account.data@.len() != 0 {
        Err(ProgramError::AccountAlreadyInitialized)
    } else if rent_sysvar.key@ != spec_rent_sysvar_id() {
        Err(ProgramError::UnsupportedSysvar)
    } else if system_program.key@ != spec_system_program_id() {
        Err(ProgramError::IncorrectProgramId)
    } else if delegate_boost_account.key@ != spec_find_pda(
        spec_delegated_boost_v2_seeds(
            staker.key@,
            token_mint_account.key@,
            managed_proof_account.key@,
        ),
        spec_id(),
    ).0 {
        Err(ProgramError::InvalidAccountData)
    } else {
        Ok(())
    }
}

/// Creates the zeroed v2 boost ledger of `staker` for the mint in the pool
/// of `miner`, recording `payer` as the fee payer entitled to reclaim its
/// storage deposit. On any failure nothing changes.
pub fn process_init_delegate_boost_v2(
    staker: &Account,
    miner: &Account,
    payer: &Account,
    managed_proof_account: &Account,
    delegate_boost_account: &mut Account,
    token_mint_account: &Account,
    rent_sysvar: &Account,
    system_program: &Account,
) -> (r: Result<InitDelegateBoostV2Action, ProgramError>)
    ensures
        r is Ok <==> spec_init_delegate_boost_v2_checks(
            *staker,
            *miner,
            *payer,
            *managed_proof_account,
            *old(delegate_boost_account),
            *token_mint_account,
            *rent_sysvar,
            *system_program,
        ) is Ok,
        r is Err ==> Err::<(), ProgramError>(r->Err_0) == spec_init_delegate_boost_v2_checks(
            *staker,
            *miner,
            *payer,
            *managed_proof_account,
            *old(delegate_boost_account),
            *token_mint_account,
            *rent_sysvar,
            *system_program,
        ),
        r is Err ==> *final(delegate_boost_account) == *old(delegate_boost_account),
        r is Ok ==> {
            let pda = spec_find_pda(
                spec_delegated_boost_v2_seeds(
                    staker.key@,
                    token_mint_account.key@,
                    managed_proof_account.key@,
                ),
                spec_id(),
            );
            let record = DelegatedBoostV2 {
                bump: pda.1,
                managed_proof_pubkey: managed_proof_account.key,
                authority: staker.key,
                mint: token_mint_account.key,
                fee_payer: payer.key,
                amount: 0,
            };
            &&& r->Ok_0.bump == pda.1
            &&& final(delegate_boost_account).data@ == record.spec_to_bytes()
            &&& final(delegate_boost_account).key == old(delegate_boost_account).key
            &&& final(delegate_boost_account).lamports == old(delegate_boost_account).lamports
        },
{
    match load_managed_proof(managed_proof_account, &miner.key, false) {
        Ok(_) => (),
        Err(e) => {
            return Err(e);
        },
    }
    if !payer.is_signer {
        return Err(ProgramError::MissingRequiredSignature);
    }
    if !delegate_boost_account.data_is_empty() {
        return Err(ProgramError::AccountAlreadyInitialized);
    }
    if rent_sysvar.key != crate::consts::rent_sysvar_id() {
        return Err(ProgramError::UnsupportedSysvar);
    }
    if system_program.key != crate::consts::system_program_id() {
        return Err(ProgramError::IncorrectProgramId);
    }
    let pda = delegated_boost_v2_pda_for_pool(
        &staker.key,
        &token_mint_account.key,
        &managed_proof_account.key,
    );
    if delegate_boost_account.key != pda.0 {
        return Err(ProgramError::InvalidAccountData);
    }
    let record = DelegatedBoostV2 {
        bump: pda.1,
        managed_proof_pubkey: managed_proof_account.key,
        authority: staker.key,
        mint: token_mint_account.key,
        fee_payer: payer.key,
        amount: 0,
    };
    delegate_boost_account.data = record.to_bytes();
    Ok(InitDelegateBoostV2Action { bump: pda.1 })
}

/// The address and bump of the v2 boost ledger of `staker` for `mint` in
/// the pool record at `managed_proof` (the pool's address itself).
pub fn delegated_boost_v2_pda_for_pool(
    staker: &Pubkey,
    mint: &Pubkey,
    managed_proof: &Pubkey,
) -> (r: (Pubkey, u8))
    ensures
        (r.0@, r.1) == spec_find_pda(
            spec_delegated_boost_v2_seeds(staker@, mint@, managed_proof@),
            spec_id(),
        ),
{
    let seeds: Vec<Vec<u8>> = vec![
        crate::consts::delegated_boost_v2_seed(),
        staker.to_vec(),
        mint.to_vec(),
        managed_proof.to_vec(),
    ];
    proof {
        assert(seeds.deep_view() =~~= spec_delegated_boost_v2_seeds(
            staker@,
            mint@,
            managed_proof@,
        ));
    }
    crate::pda::find_program_address(&seeds, &crate::consts::id())
}

} // verus!
