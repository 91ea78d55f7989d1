//! Opening the pool's stake account with the boost program for one reward
//! mint, signed with the pool's derived authority.

use vstd::prelude::*;
use crate::account::Account;
use crate::consts::{spec_id, spec_ore_boost_program_id, spec_system_program_id};
use crate::error::ProgramError;
use crate::pda::{managed_proof_pda, spec_find_pda, spec_managed_proof_seeds};

verus! {

/// What the hosting environment must still do after the checks pass: open
/// the boost program's stake account for the pool and mint, signed with the
/// pool's derived authority.
#[derive(Debug)]
pub struct OpenManagedProofBoostAction {
    /// The bump salt of the pool record's derived address, for signing.
    pub bump: u8,
}

/// What opening a pool's boost stake decides: `Ok` when every check passes,
/// else the first failing check's error.
pub open spec fn spec_open_managed_proof_boost_checks(
    miner: Account,
    managed_proof_account: Account,
    system_program: Account,
    ore_boost_program: Account,
) -> Result<(), ProgramError> {
    if !miner.is_signer {
        Err(ProgramError::MissingRequiredSignature)
    } else if system_program.key@ != spec_system_program_id() {
        Err(ProgramError::IncorrectProgramId)
    } else if ore_boost_program.key@ != spec_ore_boost_program_id() {
        Err(ProgramError::IncorrectProgramId)
    } else if managed_proof_account.key@ != spec_find_pda(
        spec_managed_proof_seeds(miner.key@),
        spec_id(),
    ).0 {
        Err(ProgramError::InvalidAccountData)
    } else {
        Ok(())
    }
}

/// Validates opening the pool's boost stake for one mint. Nothing in the
/// pool's own records changes.
pub fn process_open_managed_proof_boost(
    miner: &Account,
    managed_proof_account: &Account,
    system_program: &Account,
    ore_boost_program: &Account,
) -> (r: Result<OpenManagedProofBoostAction, ProgramError>)
    ensures
        r is Ok <==> spec_open_managed_proof_boost_checks(
            *miner,
            *managed_proof_account,
            *system_program,
            *ore_boost_program,
        ) is Ok,
        r is Err ==> Err::<(), ProgramError>(r->Err_0) == spec_open_managed_proof_boost_checks(
            *miner,
            *managed_proof_account,
            *system_program,
            *ore_boost_program,
        ),
        r is Ok ==> r->Ok_0.bump == spec_find_pda(
            spec_managed_proof_seeds(miner.key@),
            spec_id(),
        ).1,
{
    if !miner.is_signer {
        return Err(ProgramError::MissingRequiredSignature);
    }
    if system_program.key != crate::consts::system_program_id() {
        return Err(ProgramError::IncorrectProgramId);
    }
    if ore_boost_program.key != crate::consts::ore_boost_program_id() {
        return Err(ProgramError::IncorrectProgramId);
    }
    let pda = managed_proof_pda(miner.key);
    if managed_proof_account.key != pda.0 {
        return Err(ProgramError::InvalidAccountData);
    }
    Ok(OpenManagedProofBoostAction { bump: pda.1 })
}

} // verus!
