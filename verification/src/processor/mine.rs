//! The accrual engine. The operator submits proof of work; the external
//! ledger grows the pool's backing balance; the balance delta, less the
//! retained commission, is converted to shares at the pool's current price
//! and credited to the operator's own ledger and the pool total. The
//! retained remainder backs all existing shares without minting, which is
//! what pays passive stakers their yield.

use vstd::prelude::*;
use crate::account::Account;
use crate::consts::{spec_ore_program_id, spec_system_program_id};
use crate::error::ProgramError;
use crate::instruction::MineArgs;
use crate::loaders::{
    load_delegated_stake, load_managed_proof, spec_load_delegated_stake, spec_load_managed_proof,
};
use crate::shares::{
    commission_amount, shares_for_amount, spec_commission, spec_shares_for_amount_checked,
};
use crate::state::{DelegatedStake, ManagedProof};

verus! {

/// What the hosting environment must still do after validation: submit the
/// work proof to the external ledger, signed with the pool's derived
/// authority, and read the backing balance before and after.
#[derive(Debug)]
pub struct MinePlan {
    /// The solution digest to submit.
    pub digest: [u8; 16],
    /// The solution nonce to submit.
    pub nonce: [u8; 8],
    /// The bump salt of the pool record's derived address, for signing.
    pub bump: u8,
}

/// What validating an accrual decides: `Ok` when every check passes, else
/// the first failing check's error.
pub open spec fn spec_mine_checks(
    miner: Account,
    managed_proof_account: Account,
    delegated_stake_account: Account,
    ore_program: Account,
    system_program: Account,
    instruction_data: Seq<u8>,
) -> Result<(), ProgramError> {
    if !MineArgs::spec_parses(instruction_data) {
        Err(ProgramError::InvalidInstructionData)
    } else if !miner.is_signer {
        Err(ProgramError::MissingRequiredSignature)
    } else if spec_load_managed_proof(managed_proof_account, miner.key@, true) is Err {
        spec_load_managed_proof(managed_proof_account, miner.key@, true)
    } else if spec_load_delegated_stake(
        delegated_stake_account,
        miner.key@,
        managed_proof_account.key@,
        true,
    ) is Err {
        spec_load_delegated_stake(
            delegated_stake_account,
            miner.key@,
            managed_proof_account.key@,
            true,
        )
    } else if ore_program.key@ != spec_ore_program_id() {
        Err(ProgramError::IncorrectProgramId)
    } else if system_program.key@ != spec_system_program_id() {
        Err(ProgramError::IncorrectProgramId)
    } else {
        Ok(())
    }
}

/// Validates an accrual: the operator signs, the pool record and the
/// operator's own ledger admit (owner, schema, derived address, writable),
/// and the named programs are the expected ones. Nothing is mutated.
pub fn process_mine(
    miner: &Account,
    managed_proof_account: &Account,
    delegated_stake_account: &Account,
    ore_program: &Account,
    system_program: &Account,
    instruction_data: &[u8],
) -> (r: Result<MinePlan, ProgramError>)
    ensures
        r is Ok <==> spec_mine_checks(
            *miner,
            *managed_proof_account,
            *delegated_stake_account,
            *ore_program,
            *system_program,
            instruction_data@,
        ) is Ok,
        r is Err ==> Err::<(), ProgramError>(r->Err_0) == spec_mine_checks(
            *miner,
            *managed_proof_account,
            *delegated_stake_account,
            *ore_program,
            *system_program,
            instruction_data@,
        ),
        r is Ok ==> {
            let p = r->Ok_0;
            &&& p.digest@ == instruction_data@.subrange(0, 16)
            &&& p.nonce@ == instruction_data@.subrange(16, 24)
            &&& p.bump == managed_proof_account.data@[8]
        },
{
    let args = match MineArgs::try_from_bytes(instruction_data) {
        Ok(a) => a,
        Err(e) => {
            return Err(e);
        },
    };
    if !miner.is_signer {
        return Err(ProgramError::MissingRequiredSignature);
    }
    let managed_proof = match load_managed_proof(managed_proof_account, &miner.key, true) {
        Ok(p) => p,
        Err(e) => {
            return Err(e);
        },
    };
    match load_delegated_stake(
        delegated_stake_account,
        &miner.key,
        &managed_proof_account.key,
        true,
    ) {
        Ok(_) => (),
        Err(e) => {
            return Err(e);
        },
    }
    if ore_program.key != crate::consts::ore_program_id() {
        return Err(ProgramError::IncorrectProgramId);
    }
    if system_program.key != crate::consts::system_program_id() {
        return Err(ProgramError::IncorrectProgramId);
    }
    Ok(MinePlan { digest: args.digest, nonce: args.nonce, bump: managed_proof.bump })
}

/// What settling an accrual decides, over the parsed pool and ledger and
/// the backing balance read before and after the external call: the minted
/// share count, or the first failure. The delta less the retained
/// commission is priced at the pre-accrual balance; a backing of zero under
/// outstanding shares, or any sum leaving `u64`, is fatal.
pub open spec fn spec_mine_settle(
    pool: ManagedProof,
    ledger: DelegatedStake,
    balance_before: u64,
    balance_after: u64,
) -> Result<u64, ProgramError> {
    if !pool.wf() {
        Err(ProgramError::InvalidAccountData)
    } else if balance_after < balance_before {
        Err(ProgramError::ArithmeticOverflow)
    } else {
        let delta = (balance_after - balance_before) as u64;
        let cut = (delta - spec_commission(delta, pool.commission_rate_bips)) as u64;
        match spec_shares_for_amount_checked(cut, pool.total_shares, balance_before) {
            Err(e) => Err(e),
            Ok(minted) => if ledger.amount + minted > u64::MAX {
                Err(ProgramError::ArithmeticOverflow)
            } else if pool.total_shares + minted > u64::MAX {
                Err(ProgramError::ArithmeticOverflow)
            } else {
                Ok(minted)
            },
        }
    }
}

/// Settles an accrual against the pool record and the operator's ledger,
/// both already validated and re-read here from their bytes. On success the
/// minted shares are credited to both the ledger and the pool total, so
/// their difference moves in step; on any failure nothing changes.
pub fn process_mine_settle(
    managed_proof_account: &mut Account,
    delegated_stake_account: &mut Account,
    balance_before: u64,
    balance_after: u64,
) -> (r: Result<u64, ProgramError>)
    ensures
        r is Err ==> *final(managed_proof_account) == *old(managed_proof_account),
        r is Err ==> *final(delegated_stake_account) == *old(delegated_stake_account),
        ({
            let pool_parse = ManagedProof::spec_parses(old(managed_proof_account).data@);
            let ledger_parse = DelegatedStake::spec_parses(old(delegated_stake_account).data@);
            if !pool_parse || !ledger_parse {
                r == Err::<u64, ProgramError>(ProgramError::InvalidAccountData)
            } else {
                true
            }
        }),
        ({
            let d_pool = old(managed_proof_account).data@;
            let d_ledger = old(delegated_stake_account).data@;
            (ManagedProof::spec_parses(d_pool) && DelegatedStake::spec_parses(d_ledger)) ==> {
                let pool = ManagedProof {
                    bump: d_pool[8],
                    miner_authority: old(managed_proof_account).key,
                    total_shares: vstd::bytes::spec_u64_from_le_bytes(d_pool.subrange(48, 56)),
                    commission_rate_bips: vstd::bytes::spec_u16_from_le_bytes(
                        d_pool.subrange(56, 58),
                    ),
                };
                let ledger = DelegatedStake {
                    bump: d_ledger[8],
                    amount: vstd::bytes::spec_u64_from_le_bytes(d_ledger.subrange(16, 24)),
                };
                let outcome = spec_mine_settle(pool, ledger, balance_before, balance_after);
                &&& (r is Ok <==> outcome is Ok)
                &&& (r is Err ==> r->Err_0 == outcome->Err_0)
                &&& (r is Ok ==> {
                    let minted = outcome->Ok_0;
                    &&& r->Ok_0 == minted
                    &&& final(delegated_stake_account).data@ == (DelegatedStake {
                        bump: ledger.bump,
                        amount: (ledger.amount + minted) as u64,
                    }).spec_to_bytes()
                    &&& vstd::bytes::spec_u64_from_le_bytes(
                        final(managed_proof_account).data@.subrange(48, 56),
                    ) == pool.total_shares + minted
                    &&& final(managed_proof_account).data@[8] == pool.bump
                    &&& final(managed_proof_account).data@.subrange(16, 48) == d_pool.subrange(
                        16,
                        48,
                    )
                    &&& final(managed_proof_account).data@.subrange(56, 58) == d_pool.subrange(
                        56,
                        58,
                    )
                    &&& ManagedProof::spec_parses(final(managed_proof_account).data@)
                    &&& final(managed_proof_account).key == old(managed_proof_account).key
                    &&& final(managed_proof_account).lamports == old(
                        managed_proof_account,
                    ).lamports
                    &&& final(delegated_stake_account).key == old(delegated_stake_account).key
                    &&& final(delegated_stake_account).lamports == old(
                        delegated_stake_account,
                    ).lamports
                })
            }
        }),
{
    let pool = match ManagedProof::try_from_bytes(managed_proof_account.data.as_slice()) {
        Ok(p) => p,
        Err(e) => {
            return Err(e);
        },
    };
    let ledger = match DelegatedStake::try_from_bytes(delegated_stake_account.data.as_slice()) {
        Ok(p) => p,
        Err(e) => {
            return Err(e);
        },
    };
    if pool.commission_rate_bips > 10000 {
        return Err(ProgramError::InvalidAccountData);
    }
    if balance_after < balance_before {
        return Err(ProgramError::ArithmeticOverflow);
    }
    let delta = balance_after - balance_before;
    let commission = commission_amount(delta, pool.commission_rate_bips);
    let operator_cut = delta - commission;
    let minted = match shares_for_amount(operator_cut, pool.total_shares, balance_before) {
        Ok(m) => m,
        Err(e) => {
            return Err(e);
        },
    };
    let new_ledger_amount = match ledger.amount.checked_add(minted) {
        Some(v) => v,
        None => {
            return Err(ProgramError::ArithmeticOverflow);
        },
    };
    let new_total_shares = match pool.total_shares.checked_add(minted) {
        Some(v) => v,
        None => {
            return Err(ProgramError::ArithmeticOverflow);
        },
    };
    let new_pool = ManagedProof {
        bump: pool.bump,
        miner_authority: pool.miner_authority,
        total_shares: new_total_shares,
        commission_rate_bips: pool.commission_rate_bips,
    };
    let new_ledger = DelegatedStake { bump: ledger.bump, amount: new_ledger_amount };
    managed_proof_account.data = new_pool.to_bytes();
    delegated_stake_account.data = new_ledger.to_bytes();
    proof {
        crate::state::lemma_managed_proof_round_trip(new_pool);
        vstd::bytes::lemma_auto_spec_u16_to_from_le_bytes();
        let d_old = old(managed_proof_account).data@;
        let d_new = new_pool.spec_to_bytes();
        assert(d_old.subrange(56, 58).len() == 2);
        assert(d_new.subrange(56, 58) =~= vstd::bytes::spec_u16_to_le_bytes(new_pool.commission_rate_bips));
        assert(d_new.subrange(56, 58) == d_old.subrange(56, 58));
    }
    Ok(minted)
}

/// After an accrual that settles with a nonzero retained commission
/// remainder, the token value of one share never decreases: the new backing
/// over the new share total is at least the old backing over the old total,
/// stated multiplied out.
pub proof fn lemma_mine_settle_price_monotonic(
    pool: ManagedProof,
    ledger: DelegatedStake,
    balance_before: u64,
    balance_after: u64,
)
    requires
        pool.total_shares > 0,
        balance_before > 0,
        spec_mine_settle(pool, ledger, balance_before, balance_after) is Ok,
        spec_commission((balance_after - balance_before) as u64, pool.commission_rate_bips) > 0,
    ensures
        ({
            let minted = spec_mine_settle(pool, ledger, balance_before, balance_after)->Ok_0;
            balance_after * pool.total_shares >= balance_before * (pool.total_shares + minted)
        }),
{
    let delta = (balance_after - balance_before) as u64;
    let cut = (delta - spec_commission(delta, pool.commission_rate_bips)) as u64;
    crate::shares::lemma_accrual_price_monotonic(
        pool.total_shares,
        balance_before,
        delta,
        pool.commission_rate_bips,
    );
    assert(spec_mine_settle(pool, ledger, balance_before, balance_after)->Ok_0 as int
        == crate::shares::spec_shares_for_amount(cut, pool.total_shares, balance_before));
}

} // verus!

