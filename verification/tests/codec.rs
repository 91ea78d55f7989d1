// Tests of the stored record layout, the instruction tags and payloads, and
// the top-level decoder.

use ore_miner_delegation::consts;
use ore_miner_delegation::error::{OreDelegationError, ProgramError};
use ore_miner_delegation::instruction::{
    self, Instructions, MineArgs, DelegateStakeArgs, UndelegateBoostArgs,
};
use ore_miner_delegation::process_instruction;
use ore_miner_delegation::pubkey::Pubkey;
use ore_miner_delegation::state::{
    DelegatedBoost, DelegatedBoostV2, DelegatedStake, ManagedProof,
};
use ore_miner_delegation::utils::AccountDiscriminator;

fn key(fill: u8) -> Pubkey {
    Pubkey::new([fill; 32])
}

#[test]
fn managed_proof_round_trips() {
    let p = ManagedProof {
        bump: 254,
        miner_authority: key(5),
        total_shares: 123456789,
        commission_rate_bips: 1000,
    };
    let bytes = p.to_bytes();
    assert_eq!(bytes.len(), 64);
    assert_eq!(bytes[0], AccountDiscriminator::ManagedProof.tag());
    assert_eq!(bytes[0], 100);
    let q = ManagedProof::try_from_bytes(&bytes).expect("round trip should parse");
    assert_eq!(q.bump, 254);
    assert_eq!(q.miner_authority.bytes, [5u8; 32]);
    assert_eq!(q.total_shares, 123456789);
    assert_eq!(q.commission_rate_bips, 1000);
}

#[test]
fn delegated_stake_round_trips_and_rejects_wrong_tag() {
    let p = DelegatedStake {
        bump: 7,
        amount: u64::MAX,
    };
    let mut bytes = p.to_bytes();
    assert_eq!(bytes.len(), 24);
    assert_eq!(bytes[0], 101);
    let q = DelegatedStake::try_from_bytes(&bytes).expect("round trip should parse");
    assert_eq!(q.bump, 7);
    assert_eq!(q.amount, u64::MAX);

    bytes[0] = 100;
    assert_eq!(
        DelegatedStake::try_from_bytes(&bytes).unwrap_err(),
        ProgramError::InvalidAccountData
    );
    assert_eq!(
        DelegatedStake::try_from_bytes(&[]).unwrap_err(),
        ProgramError::InvalidAccountData
    );
}

#[test]
fn boost_ledgers_round_trip() {
    let p = DelegatedBoost {
        bump: 3,
        managed_proof_pubkey: key(9),
        amount: 42,
    };
    let bytes = p.to_bytes();
    assert_eq!(bytes.len(), 56);
    assert_eq!(bytes[0], 102);
    let q = DelegatedBoost::try_from_bytes(&bytes).expect("should parse");
    assert_eq!(q.amount, 42);
    assert_eq!(q.managed_proof_pubkey.bytes, [9u8; 32]);

    let p2 = DelegatedBoostV2 {
        bump: 4,
        managed_proof_pubkey: key(9),
        authority: key(10),
        mint: key(11),
        fee_payer: key(12),
        amount: 43,
    };
    let bytes2 = p2.to_bytes();
    assert_eq!(bytes2.len(), 152);
    assert_eq!(bytes2[0], 103);
    let q2 = DelegatedBoostV2::try_from_bytes(&bytes2).expect("should parse");
    assert_eq!(q2.bump, 4);
    assert_eq!(q2.authority.bytes, [10u8; 32]);
    assert_eq!(q2.mint.bytes, [11u8; 32]);
    assert_eq!(q2.fee_payer.bytes, [12u8; 32]);
    assert_eq!(q2.amount, 43);
}

#[test]
fn instruction_tags_round_trip() {
    let all = [
        Instructions::OpenManagedProof,
        Instructions::InitDelegateStake,
        Instructions::Mine,
        Instructions::DelegateStake,
        Instructions::UndelegateStake,
        Instructions::OpenManagedProofBoost,
        Instructions::DelegateBoost,
        Instructions::UndelegateBoost,
        Instructions::InitDelegateBoost,
        Instructions::DelegateBoostV2,
        Instructions::UndelegateBoostV2,
        Instructions::InitDelegateBoostV2,
        Instructions::MigrateDelegateBoostToV2,
        Instructions::CloseDelegateBoostV2,
        Instructions::RegisterGlobalBoost,
        Instructions::RotateGlobalBoost,
        Instructions::UpdateMiningAuthority,
    ];
    for (i, op) in all.iter().enumerate() {
        assert_eq!(op.tag() as usize, i);
        assert_eq!(Instructions::from_u8(op.tag()), Some(*op));
        assert_eq!(op.to_vec(), vec![op.tag()]);
    }
    assert_eq!(Instructions::from_u8(17), None);
}

#[test]
fn args_round_trip() {
    let m = MineArgs {
        digest: [9u8; 16],
        nonce: [4u8; 8],
    };
    let bytes = m.to_bytes();
    assert_eq!(bytes.len(), 24);
    let back = MineArgs::try_from_bytes(&bytes).expect("should parse");
    assert_eq!(back.digest, [9u8; 16]);
    assert_eq!(back.nonce, [4u8; 8]);
    assert_eq!(
        MineArgs::try_from_bytes(&bytes[..23]).unwrap_err(),
        ProgramError::InvalidInstructionData
    );

    let a = DelegateStakeArgs::new(550000);
    assert_eq!(a.amount, 550000u64.to_le_bytes());
    assert_eq!(DelegateStakeArgs::try_from_bytes(&a.amount).unwrap(), 550000);
    let b = UndelegateBoostArgs::new(7201);
    assert_eq!(UndelegateBoostArgs::try_from_bytes(&b.amount).unwrap(), 7201);
    assert_eq!(
        DelegateStakeArgs::try_from_bytes(&[1, 2, 3]).unwrap_err(),
        ProgramError::InvalidInstructionData
    );
}

#[test]
fn decoder_routes_and_refuses() {
    let own_id = consts::id();
    // A wrong program id is refused.
    assert_eq!(
        process_instruction(&key(1), &[2]).unwrap_err(),
        ProgramError::IncorrectProgramId
    );
    // An empty payload is refused.
    assert_eq!(
        process_instruction(&own_id, &[]).unwrap_err(),
        ProgramError::InvalidInstructionData
    );
    // An unknown tag is refused.
    assert_eq!(
        process_instruction(&own_id, &[99]).unwrap_err(),
        ProgramError::InvalidInstructionData
    );
    // A removed v1 boost operation is refused with its stable code.
    let removed_tag = Instructions::DelegateBoost.tag();
    assert_eq!(
        process_instruction(&own_id, &[removed_tag]).unwrap_err(),
        ProgramError::Custom(OreDelegationError::InstructionRemoved.code())
    );
    // A live operation decodes with its argument bytes.
    let mut payload = vec![Instructions::DelegateStake.tag()];
    payload.extend_from_slice(&550000u64.to_le_bytes());
    let (op, rest) = process_instruction(&own_id, &payload).expect("should decode");
    assert_eq!(op, Instructions::DelegateStake);
    assert_eq!(rest, 550000u64.to_le_bytes().to_vec());
}

#[test]
fn error_codes_are_stable() {
    assert_eq!(OreDelegationError::StakeWindowClosed.code(), 0);
    assert_eq!(OreDelegationError::CannotCloseAccountWithBalance.code(), 1);
    assert_eq!(OreDelegationError::CloseAccountFeePayerMissmatch.code(), 2);
    assert_eq!(OreDelegationError::InstructionRemoved.code(), 3);
    assert_eq!(
        ProgramError::from(OreDelegationError::StakeWindowClosed),
        ProgramError::Custom(0)
    );
    assert_eq!(
        OreDelegationError::StakeWindowClosed.message(),
        "Stake delegation window is currently closed"
    );
}

#[test]
fn builders_assemble_tag_and_arguments() {
    let miner = key(1);
    let staker = key(2);
    let ix = instruction::open_managed_proof(miner);
    assert_eq!(ix.program_id.bytes, consts::id().bytes);
    assert_eq!(ix.data, vec![0u8]);
    assert_eq!(ix.accounts.len(), 7);
    assert!(ix.accounts[0].is_signer);
    assert_eq!(ix.accounts[0].pubkey.bytes, miner.bytes);

    let ix = instruction::delegate_stake(staker, miner, 550000);
    assert_eq!(ix.data[0], Instructions::DelegateStake.tag());
    assert_eq!(&ix.data[1..], &550000u64.to_le_bytes());
    assert_eq!(ix.accounts.len(), 11);
    // The ledger account is the canonical derivation for (staker, pool).
    let (pool_key, _) = ore_miner_delegation::pda::managed_proof_pda(miner);
    let (ledger_key, _) = ore_miner_delegation::pda::delegated_stake_pda(miner, staker);
    assert_eq!(ix.accounts[2].pubkey.bytes, pool_key.bytes);
    assert_eq!(ix.accounts[6].pubkey.bytes, ledger_key.bytes);
}
