// Tests of the identity scheme: the derived addresses agree with the
// hosting environment's own derivation, and a spoofed identity never gets
// past admission.

use ore_miner_delegation::account::Account;
use ore_miner_delegation::consts;
use ore_miner_delegation::error::ProgramError;
use ore_miner_delegation::loaders::{load_delegated_stake, load_managed_proof};
use ore_miner_delegation::pda;
use ore_miner_delegation::processor::undelegate_stake::process_undelegate_stake;
use ore_miner_delegation::pubkey::Pubkey;
use ore_miner_delegation::state::{DelegatedStake, ManagedProof};

fn key(fill: u8) -> Pubkey {
    Pubkey::new([fill; 32])
}

fn account(key: Pubkey, owner: Pubkey, data: Vec<u8>) -> Account {
    Account {
        key,
        owner,
        is_signer: false,
        is_writable: true,
        executable: false,
        lamports: 0,
        data,
    }
}

#[test]
fn derivations_match_the_environment() {
    // The library's pool derivation must agree with the environment's own,
    // seed for seed; a wrapper that handed its argument back unchanged
    // would fail this.
    let miner = key(11);
    let (pool_key, pool_bump) = pda::managed_proof_pda(miner);
    let program = solana_program::pubkey::Pubkey::new_from_array(consts::id().bytes);
    let expected = solana_program::pubkey::Pubkey::find_program_address(
        &[b"managed-proof-account", &miner.bytes],
        &program,
    );
    assert_eq!(pool_key.bytes, expected.0.to_bytes());
    assert_eq!(pool_bump, expected.1);
    assert_ne!(pool_key.bytes, miner.bytes);

    let staker = key(12);
    let (ledger_key, ledger_bump) = pda::delegated_stake_pda(miner, staker);
    let expected_ledger = solana_program::pubkey::Pubkey::find_program_address(
        &[b"delegated-stake", &staker.bytes, &expected.0.to_bytes()],
        &program,
    );
    assert_eq!(ledger_key.bytes, expected_ledger.0.to_bytes());
    assert_eq!(ledger_bump, expected_ledger.1);
}

#[test]
fn ata_derivation_matches_the_environment() {
    let wallet = key(21);
    let mint = key(22);
    let ours = pda::associated_token_address(&wallet, &mint);
    let expected = spl_associated_token_account::get_associated_token_address(
        &solana_program::pubkey::Pubkey::new_from_array(wallet.bytes),
        &solana_program::pubkey::Pubkey::new_from_array(mint.bytes),
    );
    assert_eq!(ours.bytes, expected.to_bytes());
    assert_ne!(ours.bytes, wallet.bytes);
}

#[test]
fn pool_admission_checks_owner_initialization_and_operator() {
    let miner = key(1);
    let (pool_key, pool_bump) = pda::managed_proof_pda(miner);
    let pool = ManagedProof {
        bump: pool_bump,
        miner_authority: miner,
        total_shares: 0,
        commission_rate_bips: 0,
    };

    // Wrong owner.
    let a = account(pool_key, key(9), pool.to_bytes());
    assert_eq!(
        load_managed_proof(&a, &miner, false).unwrap_err(),
        ProgramError::InvalidAccountOwner
    );

    // Uninitialized.
    let a = account(pool_key, consts::id(), Vec::new());
    assert_eq!(
        load_managed_proof(&a, &miner, false).unwrap_err(),
        ProgramError::UninitializedAccount
    );

    // Claimed operator does not match the stored one.
    let a = account(pool_key, consts::id(), pool.to_bytes());
    assert_eq!(
        load_managed_proof(&a, &key(8), false).unwrap_err(),
        ProgramError::InvalidAccountData
    );

    // Writable demanded but not granted.
    let mut a = account(pool_key, consts::id(), pool.to_bytes());
    a.is_writable = false;
    assert_eq!(
        load_managed_proof(&a, &miner, true).unwrap_err(),
        ProgramError::InvalidAccountData
    );

    // All checks pass.
    let a = account(pool_key, consts::id(), pool.to_bytes());
    let parsed = load_managed_proof(&a, &miner, false).expect("admission should pass");
    assert_eq!(parsed.bump, pool_bump);
}

#[test]
fn ledger_admission_rederives_the_address() {
    let miner = key(1);
    let staker = key(2);
    let (pool_key, _) = pda::managed_proof_pda(miner);
    let (ledger_key, ledger_bump) = pda::delegated_stake_pda(miner, staker);
    let ledger = DelegatedStake {
        bump: ledger_bump,
        amount: 3,
    };

    // The canonical account admits.
    let a = account(ledger_key, consts::id(), ledger.to_bytes());
    let parsed = load_delegated_stake(&a, &staker, &pool_key, true).expect("should admit");
    assert_eq!(parsed.amount, 3);

    // An account at another address, contents identical, is refused.
    let a = account(key(33), consts::id(), ledger.to_bytes());
    assert_eq!(
        load_delegated_stake(&a, &staker, &pool_key, true).unwrap_err(),
        ProgramError::InvalidAccountData
    );
}

#[test]
fn spoofed_staker_cannot_withdraw() {
    // A withdrawal naming a staker whose derivation does not match the
    // supplied ledger fails with the address-mismatch error and debits
    // nothing.
    let miner_key = key(1);
    let staker_key = key(2);
    let attacker_key = key(6);
    let (pool_key, pool_bump) = pda::managed_proof_pda(miner_key);
    let pool = ManagedProof {
        bump: pool_bump,
        miner_authority: miner_key,
        total_shares: 100,
        commission_rate_bips: 0,
    };
    let mut pool_account = account(pool_key, consts::id(), pool.to_bytes());
    let (ledger_key, ledger_bump) = pda::delegated_stake_pda(miner_key, staker_key);
    let ledger = DelegatedStake {
        bump: ledger_bump,
        amount: 100,
    };
    let mut ledger_account = account(ledger_key, consts::id(), ledger.to_bytes());
    let mut attacker = account(attacker_key, consts::system_program_id(), Vec::new());
    attacker.is_signer = true;
    let miner = account(miner_key, consts::system_program_id(), Vec::new());
    let ore = account(consts::ore_program_id(), consts::id(), Vec::new());
    let token = account(consts::spl_token_id(), consts::id(), Vec::new());
    let args = 100u64.to_le_bytes();
    let pool_before = pool_account.data.clone();
    let ledger_before = ledger_account.data.clone();

    let r = process_undelegate_stake(
        &attacker,
        &miner,
        &mut pool_account,
        &mut ledger_account,
        &ore,
        &token,
        &args,
        100,
    );
    assert_eq!(r.unwrap_err(), ProgramError::InvalidAccountData);
    assert_eq!(pool_account.data, pool_before);
    assert_eq!(ledger_account.data, ledger_before);
}
