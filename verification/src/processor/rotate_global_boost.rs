//! Rotating the pool's reservation with the global boost program, signed
//! with the pool's derived authority.

use vstd::prelude::*;
use crate::account::Account;
use crate::consts::{spec_global_boost_id, spec_id};
use crate::error::ProgramError;
use crate::pda::{managed_proof_pda, spec_find_pda, spec_managed_proof_seeds};

verus! {

/// What the hosting environment must still do after the checks pass: send
/// the global boost program its rotate call, signed with the pool's derived
/// authority.
#[derive(Debug)]
pub struct RotateGlobalBoostAction {
    /// The bump salt of the pool record's derived address, for signing.
    pub bump: u8,
}

/// What rotating with the global boost program decides: `Ok` when every
/// check passes, else the first failing check's error.
pub open spec fn spec_rotate_global_boost_checks(
    miner: Account,
    managed_proof: Account,
    ore_global_boost_program: Account,
) -> Result<(), ProgramError> {
    if !miner.is_signer {
        Err(ProgramError::MissingRequiredSignature)
    } else if managed_proof.key@ != spec_find_pda(
        spec_managed_proof_seeds(miner.key@),
        spec_id(),
    ).0 {
        Err(ProgramError::InvalidAccountData)
    } else if ore_global_boost_program.key@ != spec_global_boost_id() {
        Err(ProgramError::IncorrectProgramId)
    } else {
        Ok(())
    }
}

/// Validates the pool's rotation with the global boost program. Nothing in
/// the pool's own records changes.
pub fn process_rotate_global_boost(
    miner: &Account,
    managed_proof: &Account,
    ore_global_boost_program: &Account,
) -> (r: Result<RotateGlobalBoostAction, ProgramError>)
    ensures
        r is Ok <==> spec_rotate_global_boost_checks(
            *miner,
            *managed_proof,
            *ore_global_boost_program,
        ) is Ok,
        r is Err ==> Err::<(), ProgramError>(r->Err_0) == spec_rotate_global_boost_checks(
            *miner,
            *managed_proof,
            *ore_global_boost_program,
        ),
        r is Ok ==> r->Ok_0.bump == spec_find_pda(
            spec_managed_proof_seeds(miner.key@),
            spec_id(),
        ).1,
{
    if !miner.is_signer {
        return Err(ProgramError::MissingRequiredSignature);
    }
    let pda = managed_proof_pda(miner.key);
    if managed_proof.key != pda.0 {
        return Err(ProgramError::InvalidAccountData);
    }
    if ore_global_boost_program.key != crate::consts::global_boost_id() {
        return Err(ProgramError::IncorrectProgramId);
    }
    Ok(RotateGlobalBoostAction { bump: pda.1 })
}

} // verus!
