//! Closing an emptied v2 boost ledger: only a ledger with zero shares may
//! be closed, and only the fee payer recorded at initialization gets the
//! storage deposit back. A ledger with any balance is never closed.

use vstd::prelude::*;
use crate::account::Account;
use crate::consts::spec_system_program_id;
use crate::error::{OreDelegationError, ProgramError};
use crate::loaders::{
    load_delegated_boost_v2, load_managed_proof, spec_load_delegated_boost_v2,
    spec_load_managed_proof,
};

verus! {

/// What closing a v2 boost ledger decides, over the accounts: `Ok` with the
/// reclaimed storage deposit when the ledger admits, holds nothing, the
/// payer is the recorded fee payer and the refund stays in range, else the
/// first failure.
pub open spec fn spec_close_delegate_boost_v2(
    staker: Account,
    miner: Account,
    payer: Account,
    managed_proof_account: Account,
    delegate_boost_account: Account,
    token_mint_account: Account,
    system_program: Account,
) -> Result<u64, ProgramError> {
    if spec_load_managed_proof(managed_proof_account, miner.key@, false) is Err {
        Err(spec_load_managed_proof(managed_proof_account, miner.key@, false)->Err_0)
    } else if spec_load_delegated_boost_v2(
        delegate_boost_account,
        staker.key@,
        managed_proof_account.key@,
        token_mint_account.key@,
        true,
    ) is Err {
        Err(
            spec_load_delegated_boost_v2(
                delegate_boost_account,
                staker.key@,
                managed_proof_account.key@,
                token_mint_account.key@,
                true,
            )->Err_0,
        )
    } else if vstd::bytes::spec_u64_from_le_bytes(delegate_boost_account.data@.subrange(144, 152))
        != 0 {
        Err(ProgramError::Custom(OreDelegationError::CannotCloseAccountWithBalance.spec_code()))
    } else if delegate_boost_account.data@.subrange(112, 144) != payer.key@ {
        Err(ProgramError::Custom(OreDelegationError::CloseAccountFeePayerMissmatch.spec_code()))
    } else if system_program.key@ != spec_system_program_id() {
        Err(ProgramError::IncorrectProgramId)
    } else if payer.lamports + delegate_boost_account.lamports > u64::MAX {
        Err(ProgramError::ArithmeticOverflow)
    } else {
        Ok(delegate_boost_account.lamports)
    }
}

/// Closes an emptied v2 boost ledger: wipes its storage and moves its whole
/// storage deposit to the recorded fee payer. A ledger with outstanding
/// balance, or a caller other than that fee payer, is refused with no
/// effect.
pub fn process_close_delegate_boost_v2(
    staker: &Account,
    miner: &Account,
    payer: &mut Account,
    managed_proof_account: &Account,
    delegate_boost_account: &mut Account,
    token_mint_account: &Account,
    system_program: &Account,
) -> (r: Result<u64, ProgramError>)
    ensures
        ({
            let outcome = spec_close_delegate_boost_v2(
                *staker,
                *miner,
                *old(payer),
                *managed_proof_account,
                *old(delegate_boost_account),
                *token_mint_account,
                *system_program,
            );
            r == outcome
        }),
        r is Err ==> *final(payer) == *old(payer),
        r is Err ==> *final(delegate_boost_account) == *old(delegate_boost_account),
        r is Ok ==> {
            &&& r->Ok_0 == old(delegate_boost_account).lamports
            &&& final(payer).lamports == old(payer).lamports + old(
                delegate_boost_account,
            ).lamports
            &&& final(delegate_boost_account).lamports == 0
            &&& final(delegate_boost_account).data@.len() == 0
            &&& final(payer).key == old(payer).key
            &&& final(payer).data == old(payer).data
            &&& final(delegate_boost_account).key == old(delegate_boost_account).key
        },
{
    match load_managed_proof(managed_proof_account, &miner.key, false) {
        Ok(_) => (),
        Err(e) => {
            return Err(e);
        },
    }
    let ledger = match load_delegated_boost_v2(
        delegate_boost_account,
        &staker.key,
        &managed_proof_account.key,
        &token_mint_account.key,
        true,
    ) {
        Ok(p) => p,
        Err(e) => {
            return Err(e);
        },
    };
    if ledger.amount != 0 {
        return Err(ProgramError::Custom(
            OreDelegationError::CannotCloseAccountWithBalance.code(),
        ));
    }
    if ledger.fee_payer != payer.key {
        return Err(ProgramError::Custom(
            OreDelegationError::CloseAccountFeePayerMissmatch.code(),
        ));
    }
    if system_program.key != crate::consts::system_program_id() {
        return Err(ProgramError::IncorrectProgramId);
    }
    let reclaimed = delegate_boost_account.lamports;
    let new_payer_lamports = match payer.lamports.checked_add(reclaimed) {
        Some(v) => v,
        None => {
            return Err(ProgramError::ArithmeticOverflow);
        },
    };
    payer.lamports = new_payer_lamports;
    delegate_boost_account.lamports = 0;
    delegate_boost_account.data = Vec::new();
    Ok(reclaimed)
}

} // verus!
