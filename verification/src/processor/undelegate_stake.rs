//! A staker's withdrawal from the pool. The requested amount is denominated
//! in shares; the shares are burned from the staker's ledger and the pool
//! total together, and the external ledger releases the token value those
//! shares had at the current price.

use vstd::prelude::*;
use crate::account::Account;
use crate::consts::{spec_ore_program_id, spec_spl_token_id};
use crate::error::ProgramError;
use crate::instruction::{spec_amount_args_parses, UndelegateStakeArgs};
use crate::loaders::{
    load_delegated_stake, load_managed_proof, spec_load_delegated_stake, spec_load_managed_proof,
};
use crate::shares::{spec_tokens_for_shares, tokens_for_shares};
use crate::state::{DelegatedStake, ManagedProof};

verus! {

/// What the hosting environment must still do after a withdrawal settles:
/// have the external ledger release `tokens` to the staker's payout
/// destination, signed with the pool's derived authority. If that release
/// fails the environment discards the whole operation, debit included.
#[derive(Debug)]
pub struct UndelegateStakeAction {
    /// The burned shares.
    pub shares: u64,
    /// The token value of the burned shares at the pre-withdrawal price.
    pub tokens: u64,
    /// The bump salt of the pool record's derived address, for signing.
    pub bump: u8,
}

/// What a withdrawal decides, over the accounts, the argument bytes and the
/// current backing balance: `Ok` when every check passes, the staker holds
/// the shares, and the debits stay in range, else the first failure.
pub open spec fn spec_undelegate_stake(
    staker: Account,
    miner: Account,
    managed_proof_account: Account,
    delegated_stake_account: Account,
    ore_program: Account,
    token_program: Account,
    instruction_data: Seq<u8>,
) -> Result<u64, ProgramError> {
    if !spec_amount_args_parses(instruction_data) {
        Err(ProgramError::InvalidInstructionData)
    } else if !staker.is_signer {
        Err(ProgramError::MissingRequiredSignature)
    } else if spec_load_managed_proof(managed_proof_account, miner.key@, true) is Err {
        Err(spec_load_managed_proof(managed_proof_account, miner.key@, true)->Err_0)
    } else if spec_load_delegated_stake(
        delegated_stake_account,
        staker.key@,
        managed_proof_account.key@,
        true,
    ) is Err {
        Err(
            spec_load_delegated_stake(
                delegated_stake_account,
                staker.key@,
                managed_proof_account.key@,
                true,
            )->Err_0,
        )
    } else if ore_program.key@ != spec_ore_program_id() {
        Err(ProgramError::IncorrectProgramId)
    } else if token_program.key@ != spec_spl_token_id() {
        Err(ProgramError::IncorrectProgramId)
    } else {
        let amount = vstd::bytes::spec_u64_from_le_bytes(instruction_data);
        let total_shares = vstd::bytes::spec_u64_from_le_bytes(
            managed_proof_account.data@.subrange(48, 56),
        );
        let ledger_amount = vstd::bytes::spec_u64_from_le_bytes(
            delegated_stake_account.data@.subrange(16, 24),
        );
        if amount > ledger_amount {
            Err(ProgramError::InsufficientFunds)
        } else if amount > total_shares {
            Err(ProgramError::ArithmeticOverflow)
        } else {
            Ok(amount)
        }
    }
}

/// Settles a staker's withdrawal: burns the requested shares from the
/// staker's ledger and the pool total together, and reports the token value
/// to release at the pre-withdrawal price. A request beyond the ledger's
/// holding is refused with no effect.
pub fn process_undelegate_stake(
    staker: &Account,
    miner: &Account,
    managed_proof_account: &mut Account,
    delegated_stake_account: &mut Account,
    ore_program: &Account,
    token_program: &Account,
    instruction_data: &[u8],
    balance: u64,
) -> (r: Result<UndelegateStakeAction, ProgramError>)
    ensures
        ({
            let outcome = spec_undelegate_stake(
                *staker,
                *miner,
                *old(managed_proof_account),
                *old(delegated_stake_account),
                *ore_program,
                *token_program,
                instruction_data@,
            );
            &&& (r is Ok <==> outcome is Ok)
            &&& (r is Err ==> r->Err_0 == outcome->Err_0)
            &&& (r is Ok ==> r->Ok_0.shares == outcome->Ok_0)
        }),
        r is Err ==> *final(managed_proof_account) == *old(managed_proof_account),
        r is Err ==> *final(delegated_stake_account) == *old(delegated_stake_account),
        r is Ok ==> {
            let d_pool = old(managed_proof_account).data@;
            let d_ledger = old(delegated_stake_account).data@;
            let total_shares = vstd::bytes::spec_u64_from_le_bytes(d_pool.subrange(48, 56));
            let ledger_amount = vstd::bytes::spec_u64_from_le_bytes(d_ledger.subrange(16, 24));
            let shares = r->Ok_0.shares;
            &&& r->Ok_0.tokens == spec_tokens_for_shares(shares, total_shares, balance)
            &&& r->Ok_0.bump == d_pool[8]
            &&& final(delegated_stake_account).data@ == (DelegatedStake {
                bump: d_ledger[8],
                amount: (ledger_amount - shares) as u64,
            }).spec_to_bytes()
            &&& ManagedProof::spec_parses(final(managed_proof_account).data@)
            &&& vstd::bytes::spec_u64_from_le_bytes(
                final(managed_proof_account).data@.subrange(48, 56),
            ) == total_shares - shares
            &&& final(managed_proof_account).data@[8] == d_pool[8]
            &&& final(managed_proof_account).data@.subrange(16, 48) == d_pool.subrange(16, 48)
            &&& final(managed_proof_account).data@.subrange(56, 58) == d_pool.subrange(56, 58)
            &&& final(managed_proof_account).key == old(managed_proof_account).key
            &&& final(delegated_stake_account).key == old(delegated_stake_account).key
            &&& final(managed_proof_account).lamports == old(managed_proof_account).lamports
            &&& final(delegated_stake_account).lamports == old(delegated_stake_account).lamports
        },
{
    let amount = match UndelegateStakeArgs::try_from_bytes(instruction_data) {
        Ok(a) => a,
        Err(e) => {
            return Err(e);
        },
    };
    if !staker.is_signer {
        return Err(ProgramError::MissingRequiredSignature);
    }
    let pool = match load_managed_proof(managed_proof_account, &miner.key, true) {
        Ok(p) => p,
        Err(e) => {
            return Err(e);
        },
    };
    let ledger = match load_delegated_stake(
        delegated_stake_account,
        &staker.key,
        &managed_proof_account.key,
        true,
    ) {
        Ok(p) => p,
        Err(e) => {
            return Err(e);
        },
    };
    if ore_program.key != crate::consts::ore_program_id() {
        return Err(ProgramError::IncorrectProgramId);
    }
    if token_program.key != crate::consts::spl_token_id() {
        return Err(ProgramError::IncorrectProgramId);
    }
    if amount > ledger.amount {
        return Err(ProgramError::InsufficientFunds);
    }
    let new_total_shares = match pool.total_shares.checked_sub(amount) {
        Some(v) => v,
        None => {
            return Err(ProgramError::ArithmeticOverflow);
        },
    };
    let tokens = tokens_for_shares(amount, pool.total_shares, balance);
    let new_ledger = DelegatedStake { bump: ledger.bump, amount: ledger.amount - amount };
    let new_pool = ManagedProof {
        bump: pool.bump,
        miner_authority: pool.miner_authority,
        total_shares: new_total_shares,
        commission_rate_bips: pool.commission_rate_bips,
    };
    managed_proof_account.data = new_pool.to_bytes();
    delegated_stake_account.data = new_ledger.to_bytes();
    proof {
        crate::state::lemma_managed_proof_round_trip(new_pool);
        vstd::bytes::lemma_auto_spec_u16_to_from_le_bytes();
        let d_old = old(managed_proof_account).data@;
        let d_new = new_pool.spec_to_bytes();
        assert(d_new.subrange(56, 58) =~= vstd::bytes::spec_u16_to_le_bytes(
            new_pool.commission_rate_bips,
        ));
        assert(d_old.subrange(56, 58).len() == 2);
        assert(d_new.subrange(56, 58) == d_old.subrange(56, 58));
    }
    Ok(UndelegateStakeAction { shares: amount, tokens, bump: pool.bump })
}

/// A withdrawal naming a staker whose ledger derivation does not give the
/// supplied ledger account's address is refused: the operation errs, and
/// by `process_undelegate_stake`'s contract an erring operation changes
/// nothing, so no partial debit can survive a spoofed staker identity.
pub proof fn lemma_undelegate_stake_rejects_spoofed_staker(
    staker: Account,
    miner: Account,
    managed_proof_account: Account,
    delegated_stake_account: Account,
    ore_program: Account,
    token_program: Account,
    instruction_data: Seq<u8>,
)
    requires
        crate::pda::spec_create_pda(
            crate::pda::spec_delegated_stake_seeds(
                staker.key@,
                managed_proof_account.key@,
            ).push(seq![delegated_stake_account.data@[8]]),
            crate::consts::spec_id(),
        ) != Some(delegated_stake_account.key@),
    ensures
        spec_undelegate_stake(
            staker,
            miner,
            managed_proof_account,
            delegated_stake_account,
            ore_program,
            token_program,
            instruction_data,
        ) is Err,
        spec_load_delegated_stake(
            delegated_stake_account,
            staker.key@,
            managed_proof_account.key@,
            true,
        ) is Err,
{
}

} // verus!
