//! A staker's deposit into a boost ledger. The deposit is gated by the
//! stake window: outside the opening sub-window of the cycle it is refused,
//! which stops yield front-running around accrual events. Boost holdings
//! are token-denominated, one for one.

use vstd::prelude::*;
use crate::account::Account;
use crate::consts::{spec_ore_boost_program_id, spec_spl_token_id};
use crate::error::{OreDelegationError, ProgramError};
use crate::instruction::{spec_amount_args_parses, DelegateBoostArgs};
use crate::loaders::{
    load_delegated_boost_v2, load_managed_proof, spec_load_delegated_boost_v2,
    spec_load_managed_proof,
};
use crate::state::DelegatedBoostV2;
use crate::window::{spec_stake_window_open, stake_window_open};

verus! {

/// What the hosting environment must still do after a boost deposit
/// settles: move the deposit from the staker into pool custody and forward
/// it into the boost program, signed with the pool's derived authority.
#[derive(Debug)]
pub struct DelegateBoostV2Action {
    /// The deposit, in tokens.
    pub amount: u64,
    /// The bump salt of the pool record's derived address, for signing.
    pub bump: u8,
}

/// What a boost deposit decides, over the accounts, the argument bytes and
/// the wall-clock time: refused outside the stake window, else `Ok` with
/// the deposit when every check passes and the credit stays in range.
pub open spec fn spec_delegate_boost_v2(
    staker: Account,
    miner: Account,
    managed_proof_account: Account,
    delegate_boost_account: Account,
    token_mint_account: Account,
    ore_boost_program: Account,
    token_program: Account,
    instruction_data: Seq<u8>,
    now: i64,
) -> Result<u64, ProgramError> {
    if !spec_stake_window_open(now) {
        Err(ProgramError::Custom(OreDelegationError::StakeWindowClosed.spec_code()))
    } else if !spec_amount_args_parses(instruction_data) {
        Err(ProgramError::InvalidInstructionData)
    } else if !staker.is_signer {
        Err(ProgramError::MissingRequiredSignature)
    } else if spec_load_managed_proof(managed_proof_account, miner.key@, false) is Err {
        Err(spec_load_managed_proof(managed_proof_account, miner.key@, false)->Err_0)
    } else if spec_load_delegated_boost_v2(
        delegate_boost_account,
        staker.key@,
        managed_proof_account.key@,
        token_mint_account.key@,
        true,
    ) is Err {
        Err(
            spec_load_delegated_boost_v2(
                delegate_boost_account,
                staker.key@,
                managed_proof_account.key@,
                token_mint_account.key@,
                true,
            )->Err_0,
        )
    } else if ore_boost_program.key@ != spec_ore_boost_program_id() {
        Err(ProgramError::IncorrectProgramId)
    } else if token_program.key@ != spec_spl_token_id() {
        Err(ProgramError::IncorrectProgramId)
    } else {
        let amount = vstd::bytes::spec_u64_from_le_bytes(instruction_data);
        let held = vstd::bytes::spec_u64_from_le_bytes(
            delegate_boost_account.data@.subrange(144, 152),
        );
        if held + amount > u64::MAX {
            Err(ProgramError::ArithmeticOverflow)
        } else {
            Ok(amount)
        }
    }
}

/// Settles a boost deposit inside the stake window: credits the deposit to
/// the staker's boost ledger, one for one. On any failure nothing changes.
pub fn process_delegate_boost_v2(
    staker: &Account,
    miner: &Account,
    managed_proof_account: &Account,
    delegate_boost_account: &mut Account,
    token_mint_account: &Account,
    ore_boost_program: &Account,
    token_program: &Account,
    instruction_data: &[u8],
    now: i64,
) -> (r: Result<DelegateBoostV2Action, ProgramError>)
    requires
        now >= 0,
    ensures
        ({
            let outcome = spec_delegate_boost_v2(
                *staker,
                *miner,
                *managed_proof_account,
                *old(delegate_boost_account),
                *token_mint_account,
                *ore_boost_program,
                *token_program,
                instruction_data@,
                now,
            );
            &&& (r is Ok <==> outcome is Ok)
            &&& (r is Err ==> r->Err_0 == outcome->Err_0)
            &&& (r is Ok ==> r->Ok_0.amount == outcome->Ok_0)
        }),
        r is Err ==> *final(delegate_boost_account) == *old(delegate_boost_account),
        r is Ok ==> {
            let d = old(delegate_boost_account).data@;
            let held = vstd::bytes::spec_u64_from_le_bytes(d.subrange(144, 152));
            &&& r->Ok_0.bump == managed_proof_account.data@[8]
            &&& DelegatedBoostV2::spec_parses(final(delegate_boost_account).data@)
            &&& vstd::bytes::spec_u64_from_le_bytes(
                final(delegate_boost_account).data@.subrange(144, 152),
            ) == held + r->Ok_0.amount
            &&& final(delegate_boost_account).data@[8] == d[8]
            &&& final(delegate_boost_account).data@.subrange(16, 48) == d.subrange(16, 48)
            &&& final(delegate_boost_account).data@.subrange(48, 80) == d.subrange(48, 80)
            &&& final(delegate_boost_account).data@.subrange(80, 112) == d.subrange(80, 112)
            &&& final(delegate_boost_account).data@.subrange(112, 144) == d.subrange(112, 144)
            &&& final(delegate_boost_account).key == old(delegate_boost_account).key
            &&& final(delegate_boost_account).lamports == old(delegate_boost_account).lamports
        },
{
    if !stake_window_open(now) {
        return Err(ProgramError::Custom(OreDelegationError::StakeWindowClosed.code()));
    }
    let amount = match DelegateBoostArgs::try_from_bytes(instruction_data) {
        Ok(a) => a,
        Err(e) => {
            return Err(e);
        },
    };
    if !staker.is_signer {
        return Err(ProgramError::MissingRequiredSignature);
    }
    let pool = match load_managed_proof(managed_proof_account, &miner.key, false) {
        Ok(p) => p,
        Err(e) => {
            return Err(e);
        },
    };
    let ledger = match load_delegated_boost_v2(
        delegate_boost_account,
        &staker.key,
        &managed_proof_account.key,
        &token_mint_account.key,
        true,
    ) {
        Ok(p) => p,
        Err(e) => {
            return Err(e);
        },
    };
    if ore_boost_program.key != crate::consts::ore_boost_program_id() {
        return Err(ProgramError::IncorrectProgramId);
    }
    if token_program.key != crate::consts::spl_token_id() {
        return Err(ProgramError::IncorrectProgramId);
    }
    let new_amount = match ledger.amount.checked_add(amount) {
        Some(v) => v,
        None => {
            return Err(ProgramError::ArithmeticOverflow);
        },
    };
    let new_ledger = DelegatedBoostV2 {
        bump: ledger.bump,
        managed_proof_pubkey: ledger.managed_proof_pubkey,
        authority: ledger.authority,
        mint: ledger.mint,
        fee_payer: ledger.fee_payer,
        amount: new_amount,
    };
    delegate_boost_account.data = new_ledger.to_bytes();
    proof {
        crate::state::lemma_delegated_boost_v2_round_trip(new_ledger);
    }
    Ok(DelegateBoostV2Action { amount, bump: pool.bump })
}

} // verus!
