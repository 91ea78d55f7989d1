//! A staker's withdrawal from a boost ledger: the requested amount is
//! debited from the ledger before the boost program releases it, and an
//! amount beyond the holding is refused with no effect.

use vstd::prelude::*;
use crate::account::Account;
use crate::consts::{spec_ore_boost_program_id, spec_spl_token_id};
use crate::error::ProgramError;
use crate::instruction::{spec_amount_args_parses, UndelegateBoostArgs};
use crate::loaders::{
    load_delegated_boost_v2, load_managed_proof, spec_load_delegated_boost_v2,
    spec_load_managed_proof,
};
use crate::state::DelegatedBoostV2;

verus! {

/// What the hosting environment must still do after a boost withdrawal
/// settles: withdraw `amount` from the boost program and pass it on to the
/// staker's token account, both signed with the pool's derived authority.
/// If either step fails the environment discards the whole operation, debit
/// included.
#[derive(Debug)]
pub struct UndelegateBoostV2Action {
    /// The withdrawal, in tokens.
    pub amount: u64,
    /// The bump salt of the pool record's derived address, for signing.
    pub bump: u8,
}

/// What a boost withdrawal decides, over the accounts and the argument
/// bytes: `Ok` with the amount when every check passes and the ledger holds
/// it, else the first failure.
pub open spec fn spec_undelegate_boost_v2(
    staker: Account,
    miner: Account,
    managed_proof_account: Account,
    delegate_boost_account: Account,
    token_mint_account: Account,
    ore_boost_program: Account,
    token_program: Account,
    instruction_data: Seq<u8>,
) -> Result<u64, ProgramError> {
    if !spec_amount_args_parses(instruction_data) {
        Err(ProgramError::InvalidInstructionData)
    } else if !staker.is_signer {
        Err(ProgramError::MissingRequiredSignature)
    } else if spec_load_managed_proof(managed_proof_account, miner.key@, false) is Err {
        Err(spec_load_managed_proof(managed_proof_account, miner.key@, false)->Err_0)
    } else if spec_load_delegated_boost_v2(
        delegate_boost_account,
        staker.key@,
        managed_proof_account.key@,
        token_mint_account.key@,
        true,
    ) is Err {
        Err(
            spec_load_delegated_boost_v2(
                delegate_boost_account,
                staker.key@,
                managed_proof_account.key@,
                token_mint_account.key@,
                true,
            )->Err_0,
        )
    } else if ore_boost_program.key@ != spec_ore_boost_program_id() {
        Err(ProgramError::IncorrectProgramId)
    } else if token_program.key@ != spec_spl_token_id() {
        Err(ProgramError::IncorrectProgramId)
    } else {
        let amount = vstd::bytes::spec_u64_from_le_bytes(instruction_data);
        let held = vstd::bytes::spec_u64_from_le_bytes(
            delegate_boost_account.data@.subrange(144, 152),
        );
        if amount > held {
            Err(ProgramError::InsufficientFunds)
        } else {
            Ok(amount)
        }
    }
}

/// Settles a boost withdrawal: debits the amount from the staker's boost
/// ledger. On any failure, an oversized request included, nothing changes.
pub fn process_undelegate_boost_v2(
    staker: &Account,
    miner: &Account,
    managed_proof_account: &Account,
    delegate_boost_account: &mut Account,
    token_mint_account: &Account,
    ore_boost_program: &Account,
    token_program: &Account,
    instruction_data: &[u8],
) -> (r: Result<UndelegateBoostV2Action, ProgramError>)
    ensures
        ({
            let outcome = spec_undelegate_boost_v2(
                *staker,
                *miner,
                *managed_proof_account,
                *old(delegate_boost_account),
                *token_mint_account,
                *ore_boost_program,
                *token_program,
                instruction_data@,
            );
            &&& (r is Ok <==> outcome is Ok)
            &&& (r is Err ==> r->Err_0 == outcome->Err_0)
            &&& (r is Ok ==> r->Ok_0.amount == outcome->Ok_0)
        }),
        r is Err ==> *final(delegate_boost_account) == *old(delegate_boost_account),
        r is Ok ==> {
            let d = old(delegate_boost_account).data@;
            let held = vstd::bytes::spec_u64_from_le_bytes(d.subrange(144, 152));
            &&& r->Ok_0.bump == managed_proof_account.data@[8]
            &&& DelegatedBoostV2::spec_parses(final(delegate_boost_account).data@)
            &&& vstd::bytes::spec_u64_from_le_bytes(
                final(delegate_boost_account).data@.subrange(144, 152),
            ) == held - r->Ok_0.amount
            &&& final(delegate_boost_account).data@[8] == d[8]
            &&& final(delegate_boost_account).data@.subrange(16, 48) == d.subrange(16, 48)
            &&& final(delegate_boost_account).data@.subrange(48, 80) == d.subrange(48, 80)
            &&& final(delegate_boost_account).data@.subrange(80, 112) == d.subrange(80, 112)
            &&& final(delegate_boost_account).data@.subrange(112, 144) == d.subrange(112, 144)
            &&& final(delegate_boost_account).key == old(delegate_boost_account).key
            &&& final(delegate_boost_account).lamports == old(delegate_boost_account).lamports
        },
{
    let amount = match UndelegateBoostArgs::try_from_bytes(instruction_data) {
        Ok(a) => a,
        Err(e) => {
            return Err(e);
        },
    };
    if !staker.is_signer {
        return Err(ProgramError::MissingRequiredSignature);
    }
    let pool = match load_managed_proof(managed_proof_account, &miner.key, false) {
        Ok(p) => p,
        Err(e) => {
            return Err(e);
        },
    };
    let ledger = match load_delegated_boost_v2(
        delegate_boost_account,
        &staker.key,
        &managed_proof_account.key,
        &token_mint_account.key,
        true,
    ) {
        Ok(p) => p,
        Err(e) => {
            return Err(e);
        },
    };
    if ore_boost_program.key != crate::consts::ore_boost_program_id() {
        return Err(ProgramError::IncorrectProgramId);
    }
    if token_program.key != crate::consts::spl_token_id() {
        return Err(ProgramError::IncorrectProgramId);
    }
    if amount > ledger.amount {
        return Err(ProgramError::InsufficientFunds);
    }
    let new_ledger = DelegatedBoostV2 {
        bump: ledger.bump,
        managed_proof_pubkey: ledger.managed_proof_pubkey,
        authority: ledger.authority,
        mint: ledger.mint,
        fee_payer: ledger.fee_payer,
        amount: ledger.amount - amount,
    };
    delegate_boost_account.data = new_ledger.to_bytes();
    proof {
        crate::state::lemma_delegated_boost_v2_round_trip(new_ledger);
    }
    Ok(UndelegateBoostV2Action { amount, bump: pool.bump })
}

} // verus!
