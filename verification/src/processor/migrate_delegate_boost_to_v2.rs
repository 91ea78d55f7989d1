//! Schema migration of a boost ledger: reads the whole v1 balance, zeroes
//! the v1 ledger and credits the same amount to the v2 ledger. The total
//! across both ledgers is unchanged: migration is a closed-system transfer.

use vstd::prelude::*;
use crate::account::Account;
use crate::error::ProgramError;
use crate::loaders::{
    load_delegated_boost, load_delegated_boost_v2, load_managed_proof,
    spec_load_delegated_boost, spec_load_delegated_boost_v2, spec_load_managed_proof,
};
use crate::state::{DelegatedBoost, DelegatedBoostV2};

verus! {

/// What migrating a boost ledger decides, over the accounts: `Ok` with the
/// moved amount when every check passes, the v1 ledger holds something, and
/// the v2 credit stays in range, else the first failure.
pub open spec fn spec_migrate_delegate_boost_v2(
    staker: Account,
    miner: Account,
    managed_proof_account: Account,
    delegate_boost_account: Account,
    delegate_boost_v2_account: Account,
    token_mint_account: Account,
) -> Result<u64, ProgramError> {
    if spec_load_managed_proof(managed_proof_account, miner.key@, false) is Err {
        Err(spec_load_managed_proof(managed_proof_account, miner.key@, false)->Err_0)
    } else if spec_load_delegated_boost(
        delegate_boost_account,
        staker.key@,
        managed_proof_account.key@,
        token_mint_account.key@,
        true,
    ) is Err {
        Err(
            spec_load_delegated_boost(
                delegate_boost_account,
                staker.key@,
                managed_proof_account.key@,
                token_mint_account.key@,
                true,
            )->Err_0,
        )
    } else if spec_load_delegated_boost_v2(
        delegate_boost_v2_account,
        staker.key@,
        managed_proof_account.key@,
        token_mint_account.key@,
        true,
    ) is Err {
        Err(
            spec_load_delegated_boost_v2(
                delegate_boost_v2_account,
                staker.key@,
                managed_proof_account.key@,
                token_mint_account.key@,
                true,
            )->Err_0,
        )
    } else {
        let v1 = vstd::bytes::spec_u64_from_le_bytes(
            delegate_boost_account.data@.subrange(48, 56),
        );
        let v2 = vstd::bytes::spec_u64_from_le_bytes(
            delegate_boost_v2_account.data@.subrange(144, 152),
        );
        if v1 == 0 {
            Err(ProgramError::InsufficientFunds)
        } else if v1 + v2 > u64::MAX {
            Err(ProgramError::ArithmeticOverflow)
        } else {
            Ok(v1)
        }
    }
}

/// Moves the whole v1 balance into the v2 ledger: the v1 ledger ends at
/// zero, the v2 ledger grows by exactly what v1 held, and the sum across
/// both is unchanged. On any failure nothing changes.
pub fn process_migrate_delegate_boost_v2(
    staker: &Account,
    miner: &Account,
    managed_proof_account: &Account,
    delegate_boost_account: &mut Account,
    delegate_boost_v2_account: &mut Account,
    token_mint_account: &Account,
) -> (r: Result<u64, ProgramError>)
    ensures
        ({
            let outcome = spec_migrate_delegate_boost_v2(
                *staker,
                *miner,
                *managed_proof_account,
                *old(delegate_boost_account),
                *old(delegate_boost_v2_account),
                *token_mint_account,
            );
            &&& (r is Ok <==> outcome is Ok)
            &&& (r == outcome)
        }),
        r is Err ==> *final(delegate_boost_account) == *old(delegate_boost_account),
        r is Err ==> *final(delegate_boost_v2_account) == *old(delegate_boost_v2_account),
        r is Ok ==> {
            let d1 = old(delegate_boost_account).data@;
            let d2 = old(delegate_boost_v2_account).data@;
            let v1_before = vstd::bytes::spec_u64_from_le_bytes(d1.subrange(48, 56));
            let v2_before = vstd::bytes::spec_u64_from_le_bytes(d2.subrange(144, 152));
            let v1_after = vstd::bytes::spec_u64_from_le_bytes(
                final(delegate_boost_account).data@.subrange(48, 56),
            );
            let v2_after = vstd::bytes::spec_u64_from_le_bytes(
                final(delegate_boost_v2_account).data@.subrange(144, 152),
            );
            &&& v1_after == 0
            &&& v2_after == v2_before + v1_before
            &&& v1_before + v2_before == v1_after + v2_after
            &&& r->Ok_0 == v1_before
            &&& DelegatedBoost::spec_parses(final(delegate_boost_account).data@)
            &&& DelegatedBoostV2::spec_parses(final(delegate_boost_v2_account).data@)
            &&& final(delegate_boost_account).data@[8] == d1[8]
            &&& final(delegate_boost_account).data@.subrange(16, 48) == d1.subrange(16, 48)
            &&& final(delegate_boost_v2_account).data@[8] == d2[8]
            &&& final(delegate_boost_v2_account).data@.subrange(16, 48) == d2.subrange(16, 48)
            &&& final(delegate_boost_v2_account).data@.subrange(48, 80) == d2.subrange(48, 80)
            &&& final(delegate_boost_v2_account).data@.subrange(80, 112) == d2.subrange(80, 112)
            &&& final(delegate_boost_v2_account).data@.subrange(112, 144) == d2.subrange(
                112,
                144,
            )
            &&& final(delegate_boost_account).key == old(delegate_boost_account).key
            &&& final(delegate_boost_v2_account).key == old(delegate_boost_v2_account).key
            &&& final(delegate_boost_account).lamports == old(delegate_boost_account).lamports
            &&& final(delegate_boost_v2_account).lamports == old(
                delegate_boost_v2_account,
            ).lamports
        },
{
    match load_managed_proof(managed_proof_account, &miner.key, false) {
        Ok(_) => (),
        Err(e) => {
            return Err(e);
        },
    }
    let v1_ledger = match load_delegated_boost(
        delegate_boost_account,
        &staker.key,
        &managed_proof_account.key,
        &token_mint_account.key,
        true,
    ) {
        Ok(p) => p,
        Err(e) => {
            return Err(e);
        },
    };
    let v2_ledger = match load_delegated_boost_v2(
        delegate_boost_v2_account,
        &staker.key,
        &managed_proof_account.key,
        &token_mint_account.key,
        true,
    ) {
        Ok(p) => p,
        Err(e) => {
            return Err(e);
        },
    };
    if v1_ledger.amount == 0 {
        return Err(ProgramError::InsufficientFunds);
    }
    let transfer_amount = v1_ledger.amount;
    let new_v2_amount = match v2_ledger.amount.checked_add(transfer_amount) {
        Some(v) => v,
        None => {
            return Err(ProgramError::ArithmeticOverflow);
        },
    };
    let new_v1 = DelegatedBoost {
        bump: v1_ledger.bump,
        managed_proof_pubkey: v1_ledger.managed_proof_pubkey,
        amount: 0,
    };
    let new_v2 = DelegatedBoostV2 {
        bump: v2_ledger.bump,
        managed_proof_pubkey: v2_ledger.managed_proof_pubkey,
        authority: v2_ledger.authority,
        mint: v2_ledger.mint,
        fee_payer: v2_ledger.fee_payer,
        amount: new_v2_amount,
    };
    delegate_boost_account.data = new_v1.to_bytes();
    delegate_boost_v2_account.data = new_v2.to_bytes();
    proof {
        crate::state::lemma_delegated_boost_round_trip(new_v1);
        crate::state::lemma_delegated_boost_v2_round_trip(new_v2);
    }
    Ok(transfer_amount)
}

} // verus!
