//! Repointing the pool's operator-facing identity with the external ledger,
//! signed with the pool's derived authority. The pool's own record and its
//! shares are untouched.

use vstd::prelude::*;
use crate::account::Account;
use crate::consts::spec_ore_program_id;
use crate::error::ProgramError;
use crate::loaders::{load_managed_proof, spec_load_managed_proof};
use crate::pda::{managed_proof_pda, spec_find_pda, spec_managed_proof_seeds};
use crate::consts::spec_id;

verus! {

/// What the hosting environment must still do after the checks pass: ask
/// the external ledger to repoint the pool's reward authority to the new
/// key, signed with the pool's derived authority.
#[derive(Debug)]
pub struct UpdateMinerAuthorityAction {
    /// The bump salt of the pool record's derived address, for signing.
    pub bump: u8,
}

/// What repointing the operator authority decides: `Ok` when every check
/// passes, else the first failing check's error.
pub open spec fn spec_update_miner_authority_checks(
    miner: Account,
    managed_proof_account: Account,
    ore_program: Account,
) -> Result<(), ProgramError> {
    if !miner.is_signer {
        Err(ProgramError::MissingRequiredSignature)
    } else if spec_load_managed_proof(managed_proof_account, miner.key@, true) is Err {
        spec_load_managed_proof(managed_proof_account, miner.key@, true)
    } else if ore_program.key@ != spec_ore_program_id() {
        Err(ProgramError::IncorrectProgramId)
    } else {
        Ok(())
    }
}

/// Validates repointing the pool's reward authority. No record of this
/// program changes.
pub fn process_update_miner_authority(
    miner: &Account,
    managed_proof_account: &Account,
    ore_program: &Account,
) -> (r: Result<UpdateMinerAuthorityAction, ProgramError>)
    ensures
        r is Ok <==> spec_update_miner_authority_checks(
            *miner,
            *managed_proof_account,
            *ore_program,
        ) is Ok,
        r is Err ==> Err::<(), ProgramError>(r->Err_0) == spec_update_miner_authority_checks(
            *miner,
            *managed_proof_account,
            *ore_program,
        ),
        r is Ok ==> r->Ok_0.bump == spec_find_pda(
            spec_managed_proof_seeds(miner.key@),
            spec_id(),
        ).1,
{
    if !miner.is_signer {
        return Err(ProgramError::MissingRequiredSignature);
    }
    match load_managed_proof(managed_proof_account, &miner.key, true) {
        Ok(_) => (),
        Err(e) => {
            return Err(e);
        },
    }
    if ore_program.key != crate::consts::ore_program_id() {
        return Err(ProgramError::IncorrectProgramId);
    }
    let pda = managed_proof_pda(miner.key);
    Ok(UpdateMinerAuthorityAction { bump: pda.1 })
}

} // verus!
