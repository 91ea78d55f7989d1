//! Opening a pool: the operator creates its pool record at the canonical
//! derived address, with no outstanding shares and the commission rate it
//! chose. Opening fails if the record already exists.

use vstd::prelude::*;
use crate::account::Account;
use crate::consts::{spec_id, spec_ore_program_id, spec_system_program_id};
use crate::error::ProgramError;
use crate::pda::{managed_proof_pda, spec_find_pda, spec_managed_proof_seeds};
use crate::state::ManagedProof;

verus! {

/// What the hosting environment must still do after the checks pass: create
/// the pool record's storage and open the external ledger's balance record,
/// both signed with the pool's derived authority.
#[derive(Debug)]
pub struct OpenManagedProofAction {
    /// The bump salt of the pool record's derived address, for signing.
    pub bump: u8,
}

/// What opening a pool decides: `Ok` when every check passes, else the
/// first failing check's error.
pub open spec fn spec_open_managed_proof_checks(
    miner: Account,
    managed_proof_account: Account,
    ore_program: Account,
    system_program: Account,
    commission_rate_bips: u16,
) -> Result<(), ProgramError> {
    if !miner.is_signer {
        Err(ProgramError::MissingRequiredSignature)
    } else if !managed_proof_account.is_writable {
        Err(ProgramError::InvalidAccountData)
    } else if managed_proof_account.data@.len() != 0 {
        Err(ProgramError::AccountAlreadyInitialized)
    } else if ore_program.key@ != spec_ore_program_id() {
        Err(ProgramError::IncorrectProgramId)
    } else if system_program.key@ != spec_system_program_id() {
        Err(ProgramError::IncorrectProgramId)
    } else if commission_rate_bips > 10000 {
        Err(ProgramError::InvalidInstructionData)
    } else if managed_proof_account.key@ != spec_find_pda(
        spec_managed_proof_seeds(miner.key@),
        spec_id(),
    ).0 {
        Err(ProgramError::InvalidAccountData)
    } else {
        Ok(())
    }
}

/// Creates the pool record of the signing operator, with zero outstanding
/// shares and the given commission rate. On any failure nothing changes.
pub fn process_open_managed_proof(
    miner: &Account,
    managed_proof_account: &mut Account,
    ore_program: &Account,
    system_program: &Account,
    commission_rate_bips: u16,
) -> (r: Result<OpenManagedProofAction, ProgramError>)
    ensures
        r is Ok <==> spec_open_managed_proof_checks(
            *miner,
            *old(managed_proof_account),
            *ore_program,
            *system_program,
            commission_rate_bips,
        ) is Ok,
        r is Err ==> Err::<(), ProgramError>(r->Err_0) == spec_open_managed_proof_checks(
            *miner,
            *old(managed_proof_account),
            *ore_program,
            *system_program,
            commission_rate_bips,
        ),
        r is Err ==> *final(managed_proof_account) == *old(managed_proof_account),
        r is Ok ==> {
            let pda = spec_find_pda(spec_managed_proof_seeds(miner.key@), spec_id());
            let record = ManagedProof {
                bump: pda.1,
                miner_authority: miner.key,
                total_shares: 0,
                commission_rate_bips,
            };
            &&& r->Ok_0.bump == pda.1
            &&& final(managed_proof_account).data@ == record.spec_to_bytes()
            &&& final(managed_proof_account).key == old(managed_proof_account).key
            &&& final(managed_proof_account).owner == old(managed_proof_account).owner
            &&& final(managed_proof_account).lamports == old(managed_proof_account).lamports
            &&& record.wf()
        },
{
    if !miner.is_signer {
        return Err(ProgramError::MissingRequiredSignature);
    }
    if !managed_proof_account.is_writable {
        return Err(ProgramError::InvalidAccountData);
    }
    if !managed_proof_account.data_is_empty() {
        return Err(ProgramError::AccountAlreadyInitialized);
    }
    if ore_program.key != crate::consts::ore_program_id() {
        return Err(ProgramError::IncorrectProgramId);
    }
    if system_program.key != crate::consts::system_program_id() {
        return Err(ProgramError::IncorrectProgramId);
    }
    if commission_rate_bips > 10000 {
        return Err(ProgramError::InvalidInstructionData);
    }
    let pda = managed_proof_pda(miner.key);
    if managed_proof_account.key != pda.0 {
        return Err(ProgramError::InvalidAccountData);
    }
    let record = ManagedProof {
        bump: pda.1,
        miner_authority: miner.key,
        total_shares: 0,
        commission_rate_bips,
    };
    managed_proof_account.data = record.to_bytes();
    Ok(OpenManagedProofAction { bump: pda.1 })
}

} // verus!
