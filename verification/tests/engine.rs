// Scenario tests for the share-accounting engine: accrual with commission,
// deposits at the current price, withdrawals, migration and close.

use ore_miner_delegation::account::Account;
use ore_miner_delegation::consts;
use ore_miner_delegation::error::{OreDelegationError, ProgramError};
use ore_miner_delegation::pda;
use ore_miner_delegation::processor::close_delegate_boost_v2::process_close_delegate_boost_v2;
use ore_miner_delegation::processor::delegate_boost_v2::process_delegate_boost_v2;
use ore_miner_delegation::processor::delegate_stake::process_delegate_stake;
use ore_miner_delegation::processor::migrate_delegate_boost_to_v2::process_migrate_delegate_boost_v2;
use ore_miner_delegation::processor::mine::process_mine_settle;
use ore_miner_delegation::processor::open_managed_proof::process_open_managed_proof;
use ore_miner_delegation::processor::undelegate_stake::process_undelegate_stake;
use ore_miner_delegation::pubkey::Pubkey;
use ore_miner_delegation::state::{
    DelegatedBoost, DelegatedBoostV2, DelegatedStake, ManagedProof,
};

fn key(fill: u8) -> Pubkey {
    Pubkey::new([fill; 32])
}

fn account(key: Pubkey, owner: Pubkey, data: Vec<u8>) -> Account {
    Account {
        key,
        owner,
        is_signer: false,
        is_writable: true,
        executable: false,
        lamports: 0,
        data,
    }
}

fn pool_accounts(
    miner: Pubkey,
    commission_rate_bips: u16,
    total_shares: u64,
) -> (Account, ManagedProof) {
    let (pool_key, pool_bump) = pda::managed_proof_pda(miner);
    let pool = ManagedProof {
        bump: pool_bump,
        miner_authority: miner,
        total_shares,
        commission_rate_bips,
    };
    (account(pool_key, consts::id(), pool.to_bytes()), pool)
}

fn stake_ledger_account(miner: Pubkey, staker: Pubkey, amount: u64) -> Account {
    let (ledger_key, ledger_bump) = pda::delegated_stake_pda(miner, staker);
    let ledger = DelegatedStake {
        bump: ledger_bump,
        amount,
    };
    account(ledger_key, consts::id(), ledger.to_bytes())
}

fn parse_pool(a: &Account) -> ManagedProof {
    ManagedProof::try_from_bytes(a.data.as_slice()).expect("pool record should parse")
}

fn parse_stake(a: &Account) -> DelegatedStake {
    DelegatedStake::try_from_bytes(a.data.as_slice()).expect("stake ledger should parse")
}

#[test]
fn open_pool_writes_record_and_rejects_reopen() {
    let miner_key = key(7);
    let mut miner = account(miner_key, consts::system_program_id(), Vec::new());
    miner.is_signer = true;
    let (pool_key, pool_bump) = pda::managed_proof_pda(miner_key);
    let mut pool_account = account(pool_key, consts::system_program_id(), Vec::new());
    let ore = account(consts::ore_program_id(), consts::id(), Vec::new());
    let system = account(consts::system_program_id(), consts::id(), Vec::new());

    let action = process_open_managed_proof(&miner, &mut pool_account, &ore, &system, 1000)
        .expect("opening a fresh pool should succeed");
    assert_eq!(action.bump, pool_bump);
    let pool = parse_pool(&pool_account);
    assert_eq!(pool.bump, pool_bump);
    assert_eq!(pool.total_shares, 0);
    assert_eq!(pool.commission_rate_bips, 1000);
    assert_eq!(pool.miner_authority.bytes, miner_key.bytes);

    // A second open of the same pool fails: the record already exists.
    let before = pool_account.data.clone();
    let again = process_open_managed_proof(&miner, &mut pool_account, &ore, &system, 1000);
    assert_eq!(again.unwrap_err(), ProgramError::AccountAlreadyInitialized);
    assert_eq!(pool_account.data, before);
}

#[test]
fn open_pool_requires_signature_and_rate_bound() {
    let miner_key = key(7);
    let miner = account(miner_key, consts::system_program_id(), Vec::new());
    let (pool_key, _) = pda::managed_proof_pda(miner_key);
    let mut pool_account = account(pool_key, consts::system_program_id(), Vec::new());
    let ore = account(consts::ore_program_id(), consts::id(), Vec::new());
    let system = account(consts::system_program_id(), consts::id(), Vec::new());

    let r = process_open_managed_proof(&miner, &mut pool_account, &ore, &system, 1000);
    assert_eq!(r.unwrap_err(), ProgramError::MissingRequiredSignature);

    let mut signer = miner;
    signer.is_signer = true;
    let r = process_open_managed_proof(&signer, &mut pool_account, &ore, &system, 10001);
    assert_eq!(r.unwrap_err(), ProgramError::InvalidInstructionData);
}

#[test]
fn accrual_with_commission_then_deposit_scenario() {
    // The operator opens a pool with a 10% commission and mines once for a
    // delta of 100: the operator ledger is credited 90 shares, the pool
    // total is 90 and the backing is 100. A staker then deposits 100 at
    // that price and gets floor(100 * 90 / 100) = 90 shares, leaving the
    // pool at 180 shares backed by 200.
    let miner_key = key(1);
    let staker_key = key(2);
    let (mut pool_account, _) = pool_accounts(miner_key, 1000, 0);
    let mut miner_ledger = stake_ledger_account(miner_key, miner_key, 0);

    let minted = process_mine_settle(&mut pool_account, &mut miner_ledger, 0, 100)
        .expect("accrual should settle");
    assert_eq!(minted, 90);
    assert_eq!(parse_pool(&pool_account).total_shares, 90);
    assert_eq!(parse_stake(&miner_ledger).amount, 90);

    let mut staker = account(staker_key, consts::system_program_id(), Vec::new());
    staker.is_signer = true;
    let miner = account(miner_key, consts::system_program_id(), Vec::new());
    let mut staker_ledger = stake_ledger_account(miner_key, staker_key, 0);
    let ore = account(consts::ore_program_id(), consts::id(), Vec::new());
    let token = account(consts::spl_token_id(), consts::id(), Vec::new());
    let args = 100u64.to_le_bytes();

    let action = process_delegate_stake(
        &staker,
        &miner,
        &mut pool_account,
        &mut staker_ledger,
        &ore,
        &token,
        &args,
        100,
    )
    .expect("deposit at the sampled price should settle");
    assert_eq!(action.amount, 100);
    assert_eq!(action.minted, 90);
    assert_eq!(parse_pool(&pool_account).total_shares, 180);
    assert_eq!(parse_stake(&staker_ledger).amount, 90);
}

#[test]
fn deposit_at_parity_mints_one_for_one() {
    let miner_key = key(1);
    let staker_key = key(2);
    // 90 shares backed by 90 tokens: parity.
    let (mut pool_account, _) = pool_accounts(miner_key, 0, 90);
    let mut staker = account(staker_key, consts::system_program_id(), Vec::new());
    staker.is_signer = true;
    let miner = account(miner_key, consts::system_program_id(), Vec::new());
    let mut staker_ledger = stake_ledger_account(miner_key, staker_key, 0);
    let ore = account(consts::ore_program_id(), consts::id(), Vec::new());
    let token = account(consts::spl_token_id(), consts::id(), Vec::new());
    let args = 70u64.to_le_bytes();

    let action = process_delegate_stake(
        &staker,
        &miner,
        &mut pool_account,
        &mut staker_ledger,
        &ore,
        &token,
        &args,
        90,
    )
    .expect("deposit at parity should settle");
    assert_eq!(action.minted, 70);
    assert_eq!(parse_pool(&pool_account).total_shares, 160);
}

#[test]
fn deposit_at_half_price_mints_half() {
    // 45 shares backed by 90 tokens: one share is worth two tokens, so a
    // deposit of 70 mints floor(70 / 2) = 35 shares.
    let miner_key = key(1);
    let staker_key = key(2);
    let (mut pool_account, _) = pool_accounts(miner_key, 0, 45);
    let mut staker = account(staker_key, consts::system_program_id(), Vec::new());
    staker.is_signer = true;
    let miner = account(miner_key, consts::system_program_id(), Vec::new());
    let mut staker_ledger = stake_ledger_account(miner_key, staker_key, 0);
    let ore = account(consts::ore_program_id(), consts::id(), Vec::new());
    let token = account(consts::spl_token_id(), consts::id(), Vec::new());
    let args = 70u64.to_le_bytes();

    let action = process_delegate_stake(
        &staker,
        &miner,
        &mut pool_account,
        &mut staker_ledger,
        &ore,
        &token,
        &args,
        90,
    )
    .expect("deposit at half price should settle");
    assert_eq!(action.minted, 35);
}

#[test]
fn accrual_underflow_is_fatal_and_changes_nothing() {
    let miner_key = key(1);
    let (mut pool_account, _) = pool_accounts(miner_key, 0, 0);
    let mut miner_ledger = stake_ledger_account(miner_key, miner_key, 0);
    let pool_before = pool_account.data.clone();
    let ledger_before = miner_ledger.data.clone();

    let r = process_mine_settle(&mut pool_account, &mut miner_ledger, 100, 99);
    assert_eq!(r.unwrap_err(), ProgramError::ArithmeticOverflow);
    assert_eq!(pool_account.data, pool_before);
    assert_eq!(miner_ledger.data, ledger_before);
}

#[test]
fn accrual_with_zero_backing_under_shares_is_fatal() {
    // Outstanding shares with a backing of zero is an invariant violation,
    // never silently priced.
    let miner_key = key(1);
    let (mut pool_account, _) = pool_accounts(miner_key, 0, 50);
    let mut miner_ledger = stake_ledger_account(miner_key, miner_key, 50);

    let r = process_mine_settle(&mut pool_account, &mut miner_ledger, 0, 10);
    assert_eq!(r.unwrap_err(), ProgramError::InvalidAccountData);
}

#[test]
fn accrual_price_never_decreases() {
    // After an accrual with a nonzero retained remainder the token value of
    // one share has not decreased: 90 shares backed by 100 become 171
    // shares backed by 190 (price 1.111... both times).
    let miner_key = key(1);
    let (mut pool_account, _) = pool_accounts(miner_key, 1000, 90);
    let mut miner_ledger = stake_ledger_account(miner_key, miner_key, 90);

    let balance_before: u64 = 100;
    let delta: u64 = 90;
    let minted = process_mine_settle(
        &mut pool_account,
        &mut miner_ledger,
        balance_before,
        balance_before + delta,
    )
    .expect("accrual should settle");
    let total_after = parse_pool(&pool_account).total_shares;
    let balance_after = balance_before + delta;
    // price_after >= price_before, multiplied out to avoid rounding.
    assert!(
        (balance_after as u128) * 90 >= (balance_before as u128) * (total_after as u128),
        "share price decreased"
    );
    assert_eq!(minted, 72); // floor((90 - 9) * 90 / 100)
}

#[test]
fn withdrawal_burns_shares_and_sizes_tokens_at_price() {
    let miner_key = key(1);
    let staker_key = key(2);
    let (mut pool_account, _) = pool_accounts(miner_key, 0, 180);
    let mut staker = account(staker_key, consts::system_program_id(), Vec::new());
    staker.is_signer = true;
    let miner = account(miner_key, consts::system_program_id(), Vec::new());
    let mut staker_ledger = stake_ledger_account(miner_key, staker_key, 90);
    let ore = account(consts::ore_program_id(), consts::id(), Vec::new());
    let token = account(consts::spl_token_id(), consts::id(), Vec::new());
    let args = 90u64.to_le_bytes();

    // 180 shares backed by 200 tokens: 90 shares are worth 100 tokens.
    let action = process_undelegate_stake(
        &staker,
        &miner,
        &mut pool_account,
        &mut staker_ledger,
        &ore,
        &token,
        &args,
        200,
    )
    .expect("withdrawal should settle");
    assert_eq!(action.shares, 90);
    assert_eq!(action.tokens, 100);
    assert_eq!(parse_pool(&pool_account).total_shares, 90);
    assert_eq!(parse_stake(&staker_ledger).amount, 0);
}

#[test]
fn withdrawal_beyond_holding_fails_without_effect() {
    let miner_key = key(1);
    let staker_key = key(2);
    let (mut pool_account, _) = pool_accounts(miner_key, 0, 100);
    let mut staker = account(staker_key, consts::system_program_id(), Vec::new());
    staker.is_signer = true;
    let miner = account(miner_key, consts::system_program_id(), Vec::new());
    let mut staker_ledger = stake_ledger_account(miner_key, staker_key, 50);
    let ore = account(consts::ore_program_id(), consts::id(), Vec::new());
    let token = account(consts::spl_token_id(), consts::id(), Vec::new());
    let args = 51u64.to_le_bytes();
    let pool_before = pool_account.data.clone();
    let ledger_before = staker_ledger.data.clone();

    let r = process_undelegate_stake(
        &staker,
        &miner,
        &mut pool_account,
        &mut staker_ledger,
        &ore,
        &token,
        &args,
        100,
    );
    assert_eq!(r.unwrap_err(), ProgramError::InsufficientFunds);
    assert_eq!(pool_account.data, pool_before);
    assert_eq!(staker_ledger.data, ledger_before);
}

fn boost_v2_ledger_account(
    miner: Pubkey,
    staker: Pubkey,
    mint: Pubkey,
    fee_payer: Pubkey,
    amount: u64,
) -> Account {
    let (pool_key, _) = pda::managed_proof_pda(miner);
    let (ledger_key, ledger_bump) = pda::delegated_boost_v2_pda(miner, staker, mint);
    let ledger = DelegatedBoostV2 {
        bump: ledger_bump,
        managed_proof_pubkey: pool_key,
        authority: staker,
        mint,
        fee_payer,
        amount,
    };
    account(ledger_key, consts::id(), ledger.to_bytes())
}

fn boost_v1_ledger_account(miner: Pubkey, staker: Pubkey, mint: Pubkey, amount: u64) -> Account {
    let (pool_key, _) = pda::managed_proof_pda(miner);
    let (ledger_key, ledger_bump) = pda::delegated_boost_pda(miner, staker, mint);
    let ledger = DelegatedBoost {
        bump: ledger_bump,
        managed_proof_pubkey: pool_key,
        amount,
    };
    account(ledger_key, consts::id(), ledger.to_bytes())
}

#[test]
fn boost_deposit_obeys_the_stake_window() {
    let miner_key = key(1);
    let staker_key = key(2);
    let mint_key = key(3);
    let (pool_account, _) = pool_accounts(miner_key, 0, 0);
    let mut staker = account(staker_key, consts::system_program_id(), Vec::new());
    staker.is_signer = true;
    let miner = account(miner_key, consts::system_program_id(), Vec::new());
    let mint = account(mint_key, consts::spl_token_id(), Vec::new());
    let boost_prog = account(consts::ore_boost_program_id(), consts::id(), Vec::new());
    let token = account(consts::spl_token_id(), consts::id(), Vec::new());
    let args = 40u64.to_le_bytes();

    // One second before the window closes: admitted.
    let mut ledger = boost_v2_ledger_account(miner_key, staker_key, mint_key, staker_key, 0);
    let r = process_delegate_boost_v2(
        &staker, &miner, &pool_account, &mut ledger, &mint, &boost_prog, &token, &args, 299,
    );
    assert_eq!(r.expect("deposit inside the window").amount, 40);

    // Exactly at the closing edge: refused with the window error.
    let mut ledger = boost_v2_ledger_account(miner_key, staker_key, mint_key, staker_key, 0);
    let before = ledger.data.clone();
    let r = process_delegate_boost_v2(
        &staker, &miner, &pool_account, &mut ledger, &mint, &boost_prog, &token, &args, 300,
    );
    assert_eq!(
        r.unwrap_err(),
        ProgramError::Custom(OreDelegationError::StakeWindowClosed.code())
    );
    assert_eq!(ledger.data, before);

    // At the start of a cycle: admitted.
    let mut ledger = boost_v2_ledger_account(miner_key, staker_key, mint_key, staker_key, 0);
    let r = process_delegate_boost_v2(
        &staker, &miner, &pool_account, &mut ledger, &mint, &boost_prog, &token, &args, 0,
    );
    assert_eq!(r.expect("deposit at cycle start").amount, 40);

    // Next cycle, same phase as zero: admitted.
    let mut ledger = boost_v2_ledger_account(miner_key, staker_key, mint_key, staker_key, 0);
    let r = process_delegate_boost_v2(
        &staker, &miner, &pool_account, &mut ledger, &mint, &boost_prog, &token, &args, 600,
    );
    assert_eq!(r.expect("deposit at next cycle start").amount, 40);
}

#[test]
fn migration_conserves_the_boost_total() {
    let miner_key = key(1);
    let staker_key = key(2);
    let mint_key = key(3);
    let (pool_account, _) = pool_accounts(miner_key, 0, 0);
    let staker = account(staker_key, consts::system_program_id(), Vec::new());
    let miner = account(miner_key, consts::system_program_id(), Vec::new());
    let mint = account(mint_key, consts::spl_token_id(), Vec::new());
    let mut v1 = boost_v1_ledger_account(miner_key, staker_key, mint_key, 75);
    let mut v2 = boost_v2_ledger_account(miner_key, staker_key, mint_key, staker_key, 5);

    let moved = process_migrate_delegate_boost_v2(
        &staker, &miner, &pool_account, &mut v1, &mut v2, &mint,
    )
    .expect("migration should settle");
    assert_eq!(moved, 75);
    let v1_after = DelegatedBoost::try_from_bytes(v1.data.as_slice()).unwrap().amount;
    let v2_after = DelegatedBoostV2::try_from_bytes(v2.data.as_slice()).unwrap().amount;
    assert_eq!(v1_after, 0);
    assert_eq!(v2_after, 80);
    assert_eq!(75 + 5, v1_after + v2_after);
}

#[test]
fn migration_of_an_empty_ledger_fails() {
    let miner_key = key(1);
    let staker_key = key(2);
    let mint_key = key(3);
    let (pool_account, _) = pool_accounts(miner_key, 0, 0);
    let staker = account(staker_key, consts::system_program_id(), Vec::new());
    let miner = account(miner_key, consts::system_program_id(), Vec::new());
    let mint = account(mint_key, consts::spl_token_id(), Vec::new());
    let mut v1 = boost_v1_ledger_account(miner_key, staker_key, mint_key, 0);
    let mut v2 = boost_v2_ledger_account(miner_key, staker_key, mint_key, staker_key, 5);

    let r = process_migrate_delegate_boost_v2(
        &staker, &miner, &pool_account, &mut v1, &mut v2, &mint,
    );
    assert_eq!(r.unwrap_err(), ProgramError::InsufficientFunds);
}

#[test]
fn close_refuses_a_ledger_with_balance() {
    let miner_key = key(1);
    let staker_key = key(2);
    let mint_key = key(3);
    let payer_key = key(4);
    let (pool_account, _) = pool_accounts(miner_key, 0, 0);
    let staker = account(staker_key, consts::system_program_id(), Vec::new());
    let miner = account(miner_key, consts::system_program_id(), Vec::new());
    let mint = account(mint_key, consts::spl_token_id(), Vec::new());
    let system = account(consts::system_program_id(), consts::id(), Vec::new());
    let mut payer = account(payer_key, consts::system_program_id(), Vec::new());
    let mut ledger = boost_v2_ledger_account(miner_key, staker_key, mint_key, payer_key, 1);
    ledger.lamports = 890880;
    let before = ledger.data.clone();

    let r = process_close_delegate_boost_v2(
        &staker, &miner, &mut payer, &pool_account, &mut ledger, &mint, &system,
    );
    assert_eq!(
        r.unwrap_err(),
        ProgramError::Custom(OreDelegationError::CannotCloseAccountWithBalance.code())
    );
    assert_eq!(ledger.data, before);
    assert_eq!(ledger.lamports, 890880);
    assert_eq!(payer.lamports, 0);
}

#[test]
fn close_of_an_empty_ledger_pays_the_recorded_fee_payer() {
    let miner_key = key(1);
    let staker_key = key(2);
    let mint_key = key(3);
    let payer_key = key(4);
    let (pool_account, _) = pool_accounts(miner_key, 0, 0);
    let staker = account(staker_key, consts::system_program_id(), Vec::new());
    let miner = account(miner_key, consts::system_program_id(), Vec::new());
    let mint = account(mint_key, consts::spl_token_id(), Vec::new());
    let system = account(consts::system_program_id(), consts::id(), Vec::new());
    let mut payer = account(payer_key, consts::system_program_id(), Vec::new());
    payer.lamports = 10;
    let mut ledger = boost_v2_ledger_account(miner_key, staker_key, mint_key, payer_key, 0);
    ledger.lamports = 890880;

    let reclaimed = process_close_delegate_boost_v2(
        &staker, &miner, &mut payer, &pool_account, &mut ledger, &mint, &system,
    )
    .expect("closing an emptied ledger should succeed");
    assert_eq!(reclaimed, 890880);
    assert_eq!(payer.lamports, 890890);
    assert_eq!(ledger.lamports, 0);
    assert!(ledger.data.is_empty());
}

#[test]
fn close_by_the_wrong_caller_fails() {
    let miner_key = key(1);
    let staker_key = key(2);
    let mint_key = key(3);
    let payer_key = key(4);
    let impostor_key = key(5);
    let (pool_account, _) = pool_accounts(miner_key, 0, 0);
    let staker = account(staker_key, consts::system_program_id(), Vec::new());
    let miner = account(miner_key, consts::system_program_id(), Vec::new());
    let mint = account(mint_key, consts::spl_token_id(), Vec::new());
    let system = account(consts::system_program_id(), consts::id(), Vec::new());
    let mut impostor = account(impostor_key, consts::system_program_id(), Vec::new());
    let mut ledger = boost_v2_ledger_account(miner_key, staker_key, mint_key, payer_key, 0);
    ledger.lamports = 890880;

    let r = process_close_delegate_boost_v2(
        &staker, &miner, &mut impostor, &pool_account, &mut ledger, &mint, &system,
    );
    assert_eq!(
        r.unwrap_err(),
        ProgramError::Custom(OreDelegationError::CloseAccountFeePayerMissmatch.code())
    );
    assert_eq!(ledger.lamports, 890880);
    assert_eq!(impostor.lamports, 0);
}
