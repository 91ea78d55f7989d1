// Tests of the initialization operations and the thin validation-only
// operations.

use ore_miner_delegation::account::Account;
use ore_miner_delegation::consts;
use ore_miner_delegation::error::ProgramError;
use ore_miner_delegation::pda;
use ore_miner_delegation::processor::init_delegate_stake::process_init_delegate_stake;
use ore_miner_delegation::processor::init_delegate_boost_v2::process_init_delegate_boost_v2;
use ore_miner_delegation::processor::mine::process_mine;
use ore_miner_delegation::processor::open_managed_proof_boost::process_open_managed_proof_boost;
use ore_miner_delegation::processor::register_global_boost::process_register_global_boost;
use ore_miner_delegation::processor::rotate_global_boost::process_rotate_global_boost;
use ore_miner_delegation::processor::update_miner_authority::process_update_miner_authority;
use ore_miner_delegation::pubkey::Pubkey;
use ore_miner_delegation::state::{DelegatedBoostV2, DelegatedStake, ManagedProof};

fn key(fill: u8) -> Pubkey {
    Pubkey::new([fill; 32])
}

fn account(key: Pubkey, owner: Pubkey, data: Vec<u8>) -> Account {
    Account {
        key,
        owner,
        is_signer: false,
        is_writable: true,
        executable: false,
        lamports: 0,
        data,
    }
}

fn pool_account(miner: Pubkey) -> Account {
    let (pool_key, pool_bump) = pda::managed_proof_pda(miner);
    let pool = ManagedProof {
        bump: pool_bump,
        miner_authority: miner,
        total_shares: 0,
        commission_rate_bips: 0,
    };
    account(pool_key, consts::id(), pool.to_bytes())
}

#[test]
fn init_stake_ledger_writes_a_zeroed_record() {
    let miner_key = key(1);
    let staker_key = key(2);
    let pool = pool_account(miner_key);
    let mut signer = account(staker_key, consts::system_program_id(), Vec::new());
    signer.is_signer = true;
    let miner = account(miner_key, consts::system_program_id(), Vec::new());
    let (ledger_key, ledger_bump) = pda::delegated_stake_pda(miner_key, staker_key);
    let mut ledger_account = account(ledger_key, consts::system_program_id(), Vec::new());
    let rent = account(consts::rent_sysvar_id(), consts::id(), Vec::new());
    let system = account(consts::system_program_id(), consts::id(), Vec::new());

    let action = process_init_delegate_stake(
        &signer, &miner, &pool, &mut ledger_account, &rent, &system,
    )
    .expect("initialization should succeed");
    assert_eq!(action.bump, ledger_bump);
    let ledger = DelegatedStake::try_from_bytes(&ledger_account.data).unwrap();
    assert_eq!(ledger.bump, ledger_bump);
    assert_eq!(ledger.amount, 0);

    // Initializing again fails: the ledger already exists.
    let r = process_init_delegate_stake(&signer, &miner, &pool, &mut ledger_account, &rent, &system);
    assert_eq!(r.unwrap_err(), ProgramError::AccountAlreadyInitialized);
}

#[test]
fn init_stake_ledger_rejects_a_wrong_sysvar() {
    let miner_key = key(1);
    let staker_key = key(2);
    let pool = pool_account(miner_key);
    let signer = account(staker_key, consts::system_program_id(), Vec::new());
    let miner = account(miner_key, consts::system_program_id(), Vec::new());
    let (ledger_key, _) = pda::delegated_stake_pda(miner_key, staker_key);
    let mut ledger_account = account(ledger_key, consts::system_program_id(), Vec::new());
    let not_rent = account(key(9), consts::id(), Vec::new());
    let system = account(consts::system_program_id(), consts::id(), Vec::new());

    let r = process_init_delegate_stake(
        &signer, &miner, &pool, &mut ledger_account, &not_rent, &system,
    );
    assert_eq!(r.unwrap_err(), ProgramError::UnsupportedSysvar);
    assert!(ledger_account.data.is_empty());
}

#[test]
fn init_boost_ledger_records_staker_and_fee_payer() {
    let miner_key = key(1);
    let staker_key = key(2);
    let payer_key = key(3);
    let mint_key = key(4);
    let pool = pool_account(miner_key);
    let staker = account(staker_key, consts::system_program_id(), Vec::new());
    let miner = account(miner_key, consts::system_program_id(), Vec::new());
    let mut payer = account(payer_key, consts::system_program_id(), Vec::new());
    payer.is_signer = true;
    let mint = account(mint_key, consts::spl_token_id(), Vec::new());
    let (ledger_key, ledger_bump) = pda::delegated_boost_v2_pda(miner_key, staker_key, mint_key);
    let mut ledger_account = account(ledger_key, consts::system_program_id(), Vec::new());
    let rent = account(consts::rent_sysvar_id(), consts::id(), Vec::new());
    let system = account(consts::system_program_id(), consts::id(), Vec::new());

    let action = process_init_delegate_boost_v2(
        &staker, &miner, &payer, &pool, &mut ledger_account, &mint, &rent, &system,
    )
    .expect("initialization should succeed");
    assert_eq!(action.bump, ledger_bump);
    let ledger = DelegatedBoostV2::try_from_bytes(&ledger_account.data).unwrap();
    assert_eq!(ledger.amount, 0);
    assert_eq!(ledger.authority.bytes, staker_key.bytes);
    assert_eq!(ledger.fee_payer.bytes, payer_key.bytes);
    assert_eq!(ledger.mint.bytes, mint_key.bytes);
    assert_eq!(ledger.managed_proof_pubkey.bytes, pool.key.bytes);
}

#[test]
fn mine_validation_checks_signer_and_programs() {
    let miner_key = key(1);
    let pool = pool_account(miner_key);
    let mut miner = account(miner_key, consts::system_program_id(), Vec::new());
    miner.is_signer = true;
    let (ledger_key, ledger_bump) = pda::delegated_stake_pda(miner_key, miner_key);
    let ledger = DelegatedStake {
        bump: ledger_bump,
        amount: 0,
    };
    let ledger_account = account(ledger_key, consts::id(), ledger.to_bytes());
    let ore = account(consts::ore_program_id(), consts::id(), Vec::new());
    let system = account(consts::system_program_id(), consts::id(), Vec::new());
    let args = [7u8; 24];

    let plan = process_mine(&miner, &pool, &ledger_account, &ore, &system, &args)
        .expect("validation should pass");
    assert_eq!(plan.digest, [7u8; 16]);
    assert_eq!(plan.nonce, [7u8; 8]);
    assert_eq!(plan.bump, pda::managed_proof_pda(miner_key).1);

    // Too-short arguments are refused before anything else.
    let r = process_mine(&miner, &pool, &ledger_account, &ore, &system, &args[..20]);
    assert_eq!(r.unwrap_err(), ProgramError::InvalidInstructionData);

    // The wrong external program account is refused.
    let wrong = account(key(9), consts::id(), Vec::new());
    let r = process_mine(&miner, &pool, &ledger_account, &wrong, &system, &args);
    assert_eq!(r.unwrap_err(), ProgramError::IncorrectProgramId);

    // An unsigned operator is refused.
    let unsigned = account(miner_key, consts::system_program_id(), Vec::new());
    let r = process_mine(&unsigned, &pool, &ledger_account, &ore, &system, &args);
    assert_eq!(r.unwrap_err(), ProgramError::MissingRequiredSignature);
}

#[test]
fn validation_only_operations_check_the_pool_address() {
    let miner_key = key(1);
    let mut miner = account(miner_key, consts::system_program_id(), Vec::new());
    miner.is_signer = true;
    let (pool_key, pool_bump) = pda::managed_proof_pda(miner_key);
    let pool_ref = account(pool_key, consts::id(), Vec::new());
    let system = account(consts::system_program_id(), consts::id(), Vec::new());
    let global = account(consts::global_boost_id(), consts::id(), Vec::new());
    let boost_prog = account(consts::ore_boost_program_id(), consts::id(), Vec::new());

    let r = process_register_global_boost(&miner, &pool_ref, &system, &global)
        .expect("registration should validate");
    assert_eq!(r.bump, pool_bump);
    let r = process_rotate_global_boost(&miner, &pool_ref, &global)
        .expect("rotation should validate");
    assert_eq!(r.bump, pool_bump);
    let r = process_open_managed_proof_boost(&miner, &pool_ref, &system, &boost_prog)
        .expect("boost open should validate");
    assert_eq!(r.bump, pool_bump);

    // A pool reference at any other address is refused.
    let wrong_pool = account(key(9), consts::id(), Vec::new());
    let r = process_register_global_boost(&miner, &wrong_pool, &system, &global);
    assert_eq!(r.unwrap_err(), ProgramError::InvalidAccountData);
    let r = process_rotate_global_boost(&miner, &wrong_pool, &global);
    assert_eq!(r.unwrap_err(), ProgramError::InvalidAccountData);
    let r = process_open_managed_proof_boost(&miner, &wrong_pool, &system, &boost_prog);
    assert_eq!(r.unwrap_err(), ProgramError::InvalidAccountData);
}

#[test]
fn authority_update_admits_only_the_recorded_operator() {
    let miner_key = key(1);
    let pool = pool_account(miner_key);
    let mut miner = account(miner_key, consts::system_program_id(), Vec::new());
    miner.is_signer = true;
    let ore = account(consts::ore_program_id(), consts::id(), Vec::new());

    let r = process_update_miner_authority(&miner, &pool, &ore)
        .expect("the recorded operator may repoint");
    assert_eq!(r.bump, pda::managed_proof_pda(miner_key).1);

    // Someone else, even signing, is refused against the stored operator.
    let mut other = account(key(9), consts::system_program_id(), Vec::new());
    other.is_signer = true;
    let r = process_update_miner_authority(&other, &pool, &ore);
    assert_eq!(r.unwrap_err(), ProgramError::InvalidAccountData);
}
