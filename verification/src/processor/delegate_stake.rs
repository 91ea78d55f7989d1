//! A staker's deposit into the pool. The deposit buys shares at the pool's
//! current price, sampled before the deposit lands, so a depositor cannot
//! buy at a price diluted by their own deposit.

use vstd::prelude::*;
use crate::account::Account;
use crate::consts::{spec_ore_program_id, spec_spl_token_id};
use crate::error::ProgramError;
use crate::instruction::{spec_amount_args_parses, DelegateStakeArgs};
use crate::loaders::{
    load_delegated_stake, load_managed_proof, spec_load_delegated_stake, spec_load_managed_proof,
};
use crate::shares::{shares_for_amount, spec_shares_for_amount_checked};
use crate::state::{DelegatedStake, ManagedProof};

verus! {

/// What the hosting environment must still do after a deposit settles: move
/// the deposit from the staker into pool custody and forward it to the
/// external ledger, signed with the pool's derived authority.
#[derive(Debug)]
pub struct DelegateStakeAction {
    /// The deposit, in tokens.
    pub amount: u64,
    /// The shares the deposit bought.
    pub minted: u64,
    /// The bump salt of the pool record's derived address, for signing.
    pub bump: u8,
}

/// What a deposit decides, over the accounts, the argument bytes and the
/// backing balance sampled before the deposit lands: `Ok` with the minted
/// shares when every check passes and the sums stay in range, else the
/// first failure.
pub open spec fn spec_delegate_stake(
    staker: Account,
    miner: Account,
    managed_proof_account: Account,
    delegated_stake_account: Account,
    ore_program: Account,
    token_program: Account,
    instruction_data: Seq<u8>,
    balance_before: u64,
) -> Result<u64, ProgramError> {
    if !spec_amount_args_parses(instruction_data) {
        Err(ProgramError::InvalidInstructionData)
    } else if !staker.is_signer {
        Err(ProgramError::MissingRequiredSignature)
    } else if spec_load_managed_proof(managed_proof_account, miner.key@, true) is Err {
        Err(spec_load_managed_proof(managed_proof_account, miner.key@, true)->Err_0)
    } else if spec_load_delegated_stake(
        delegated_stake_account,
        staker.key@,
        managed_proof_account.key@,
        true,
    ) is Err {
        Err(
            spec_load_delegated_stake(
                delegated_stake_account,
                staker.key@,
                managed_proof_account.key@,
                true,
            )->Err_0,
        )
    } else if ore_program.key@ != spec_ore_program_id() {
        Err(ProgramError::IncorrectProgramId)
    } else if token_program.key@ != spec_spl_token_id() {
        Err(ProgramError::IncorrectProgramId)
    } else {
        let amount = vstd::bytes::spec_u64_from_le_bytes(instruction_data);
        let pool_data = managed_proof_account.data@;
        let ledger_data = delegated_stake_account.data@;
        let total_shares = vstd::bytes::spec_u64_from_le_bytes(pool_data.subrange(48, 56));
        let ledger_amount = vstd::bytes::spec_u64_from_le_bytes(ledger_data.subrange(16, 24));
        match spec_shares_for_amount_checked(amount, total_shares, balance_before) {
            Err(e) => Err(e),
            Ok(minted) => if ledger_amount + minted > u64::MAX {
                Err(ProgramError::ArithmeticOverflow)
            } else if total_shares + minted > u64::MAX {
                Err(ProgramError::ArithmeticOverflow)
            } else {
                Ok(minted)
            },
        }
    }
}

/// Settles a staker deposit: after the admission checks pass, the
/// deposit is priced at the pre-deposit balance and total, and the minted
/// shares are credited to the staker's ledger and the pool total together.
/// On any failure nothing changes.
pub fn process_delegate_stake(
    staker: &Account,
    miner: &Account,
    managed_proof_account: &mut Account,
    delegated_stake_account: &mut Account,
    ore_program: &Account,
    token_program: &Account,
    instruction_data: &[u8],
    balance_before: u64,
) -> (r: Result<DelegateStakeAction, ProgramError>)
    ensures
        ({
            let outcome = spec_delegate_stake(
                *staker,
                *miner,
                *old(managed_proof_account),
                *old(delegated_stake_account),
                *ore_program,
                *token_program,
                instruction_data@,
                balance_before,
            );
            &&& (r is Ok <==> outcome is Ok)
            &&& (r is Err ==> r->Err_0 == outcome->Err_0)
            &&& (r is Ok ==> r->Ok_0.minted == outcome->Ok_0)
        }),
        r is Err ==> *final(managed_proof_account) == *old(managed_proof_account),
        r is Err ==> *final(delegated_stake_account) == *old(delegated_stake_account),
        r is Ok ==> {
            let d_pool = old(managed_proof_account).data@;
            let d_ledger = old(delegated_stake_account).data@;
            let total_shares = vstd::bytes::spec_u64_from_le_bytes(d_pool.subrange(48, 56));
            let ledger_amount = vstd::bytes::spec_u64_from_le_bytes(d_ledger.subrange(16, 24));
            let minted = r->Ok_0.minted;
            &&& r->Ok_0.amount == vstd::bytes::spec_u64_from_le_bytes(instruction_data@)
            &&& r->Ok_0.bump == d_pool[8]
            &&& final(delegated_stake_account).data@ == (DelegatedStake {
                bump: d_ledger[8],
                amount: (ledger_amount + minted) as u64,
            }).spec_to_bytes()
            &&& ManagedProof::spec_parses(final(managed_proof_account).data@)
            &&& vstd::bytes::spec_u64_from_le_bytes(
                final(managed_proof_account).data@.subrange(48, 56),
            ) == total_shares + minted
            &&& final(managed_proof_account).data@[8] == d_pool[8]
            &&& final(managed_proof_account).data@.subrange(16, 48) == d_pool.subrange(16, 48)
            &&& final(managed_proof_account).data@.subrange(56, 58) == d_pool.subrange(56, 58)
            &&& final(managed_proof_account).key == old(managed_proof_account).key
            &&& final(delegated_stake_account).key == old(delegated_stake_account).key
            &&& final(managed_proof_account).lamports == old(managed_proof_account).lamports
            &&& final(delegated_stake_account).lamports == old(delegated_stake_account).lamports
        },
{
    let amount = match DelegateStakeArgs::try_from_bytes(instruction_data) {
        Ok(a) => a,
        Err(e) => {
            return Err(e);
        },
    };
    if !staker.is_signer {
        return Err(ProgramError::MissingRequiredSignature);
    }
    let pool = match load_managed_proof(managed_proof_account, &miner.key, true) {
        Ok(p) => p,
        Err(e) => {
            return Err(e);
        },
    };
    let ledger = match load_delegated_stake(
        delegated_stake_account,
        &staker.key,
        &managed_proof_account.key,
        true,
    ) {
        Ok(p) => p,
        Err(e) => {
            return Err(e);
        },
    };
    if ore_program.key != crate::consts::ore_program_id() {
        return Err(ProgramError::IncorrectProgramId);
    }
    if token_program.key != crate::consts::spl_token_id() {
        return Err(ProgramError::IncorrectProgramId);
    }
    let minted = match shares_for_amount(amount, pool.total_shares, balance_before) {
        Ok(m) => m,
        Err(e) => {
            return Err(e);
        },
    };
    let new_ledger_amount = match ledger.amount.checked_add(minted) {
        Some(v) => v,
        None => {
            return Err(ProgramError::ArithmeticOverflow);
        },
    };
    let new_total_shares = match pool.total_shares.checked_add(minted) {
        Some(v) => v,
        None => {
            return Err(ProgramError::ArithmeticOverflow);
        },
    };
    let new_pool = ManagedProof {
        bump: pool.bump,
        miner_authority: pool.miner_authority,
        total_shares: new_total_shares,
        commission_rate_bips: pool.commission_rate_bips,
    };
    let new_ledger = DelegatedStake { bump: ledger.bump, amount: new_ledger_amount };
    managed_proof_account.data = new_pool.to_bytes();
    delegated_stake_account.data = new_ledger.to_bytes();
    proof {
        crate::state::lemma_managed_proof_round_trip(new_pool);
        vstd::bytes::lemma_auto_spec_u16_to_from_le_bytes();
        let d_old = old(managed_proof_account).data@;
        let d_new = new_pool.spec_to_bytes();
        assert(d_new.subrange(56, 58) =~= vstd::bytes::spec_u16_to_le_bytes(
            new_pool.commission_rate_bips,
        ));
        assert(d_old.subrange(56, 58).len() == 2);
        assert(d_new.subrange(56, 58) == d_old.subrange(56, 58));
    }
    Ok(DelegateStakeAction { amount, minted, bump: pool.bump })
}

} // verus!
