//! The program's instruction set: the one-byte operation tags and the
//! fixed-width argument payloads that follow them.

use vstd::prelude::*;
use vstd::bytes::*;
use crate::consts::{
    spec_id, spec_instructions_sysvar_id, spec_ore_program_id,
    spec_ore_boost_program_id, spec_rent_sysvar_id, spec_slot_hashes_sysvar_id,
    spec_system_program_id,
};
use crate::error::ProgramError;
use crate::consts::spec_spl_token_id;
use crate::pda::{
    spec_ata, spec_boost_config_seeds, spec_boost_seeds, spec_boost_stake_seeds,
    spec_delegated_boost_seeds, spec_delegated_boost_v2_seeds, spec_delegated_stake_seeds,
    spec_find_pda, spec_managed_proof_seeds, spec_ore_config_address, spec_ore_mint_address,
    spec_ore_proof_seeds, spec_ore_treasury_address,
};
use crate::pubkey::Pubkey;

verus! {

/// The operations the program exposes, in tag order. The tag of each is its
/// position in this list.
#[derive(Clone, Copy, Debug, PartialEq, Eq, Structural)]
pub enum Instructions {
    OpenManagedProof,
    InitDelegateStake,
    Mine,
    DelegateStake,
    UndelegateStake,
    OpenManagedProofBoost,
    DelegateBoost,
    UndelegateBoost,
    InitDelegateBoost,
    DelegateBoostV2,
    UndelegateBoostV2,
    InitDelegateBoostV2,
    MigrateDelegateBoostToV2,
    CloseDelegateBoostV2,
    RegisterGlobalBoost,
    RotateGlobalBoost,
    UpdateMiningAuthority,
}

impl Instructions {
    /// The wire tag of the operation.
    pub open spec fn spec_tag(self) -> u8 {
        match self {
            Instructions::OpenManagedProof => 0,
            Instructions::InitDelegateStake => 1,
            Instructions::Mine => 2,
            Instructions::DelegateStake => 3,
            Instructions::UndelegateStake => 4,
            Instructions::OpenManagedProofBoost => 5,
            Instructions::DelegateBoost => 6,
            Instructions::UndelegateBoost => 7,
            Instructions::InitDelegateBoost => 8,
            Instructions::DelegateBoostV2 => 9,
            Instructions::UndelegateBoostV2 => 10,
            Instructions::InitDelegateBoostV2 => 11,
            Instructions::MigrateDelegateBoostToV2 => 12,
            Instructions::CloseDelegateBoostV2 => 13,
            Instructions::RegisterGlobalBoost => 14,
            Instructions::RotateGlobalBoost => 15,
            Instructions::UpdateMiningAuthority => 16,
        }
    }

    pub fn tag(self) -> (r: u8)
        ensures
            r == self.spec_tag(),
    {
        match self {
            Instructions::OpenManagedProof => 0,
            Instructions::InitDelegateStake => 1,
            Instructions::Mine => 2,
            Instructions::DelegateStake => 3,
            Instructions::UndelegateStake => 4,
            Instructions::OpenManagedProofBoost => 5,
            Instructions::DelegateBoost => 6,
            Instructions::UndelegateBoost => 7,
            Instructions::InitDelegateBoost => 8,
            Instructions::DelegateBoostV2 => 9,
            Instructions::UndelegateBoostV2 => 10,
            Instructions::InitDelegateBoostV2 => 11,
            Instructions::MigrateDelegateBoostToV2 => 12,
            Instructions::CloseDelegateBoostV2 => 13,
            Instructions::RegisterGlobalBoost => 14,
            Instructions::RotateGlobalBoost => 15,
            Instructions::UpdateMiningAuthority => 16,
        }
    }

    /// The operation with wire tag `b`, if any.
    pub open spec fn spec_from_u8(b: u8) -> Option<Instructions> {
        if b == 0 {
            Some(Instructions::OpenManagedProof)
        } else if b == 1 {
            Some(Instructions::InitDelegateStake)
        } else if b == 2 {
            Some(Instructions::Mine)
        } else if b == 3 {
            Some(Instructions::DelegateStake)
        } else if b == 4 {
            Some(Instructions::UndelegateStake)
        } else if b == 5 {
            Some(Instructions::OpenManagedProofBoost)
        } else if b == 6 {
            Some(Instructions::DelegateBoost)
        } else if b == 7 {
            Some(Instructions::UndelegateBoost)
        } else if b == 8 {
            Some(Instructions::InitDelegateBoost)
        } else if b == 9 {
            Some(Instructions::DelegateBoostV2)
        } else if b == 10 {
            Some(Instructions::UndelegateBoostV2)
        } else if b == 11 {
            Some(Instructions::InitDelegateBoostV2)
        } else if b == 12 {
            Some(Instructions::MigrateDelegateBoostToV2)
        } else if b == 13 {
            Some(Instructions::CloseDelegateBoostV2)
        } else if b == 14 {
            Some(Instructions::RegisterGlobalBoost)
        } else if b == 15 {
            Some(Instructions::RotateGlobalBoost)
        } else if b == 16 {
            Some(Instructions::UpdateMiningAuthority)
        } else {
            None
        }
    }

    pub fn from_u8(b: u8) -> (r: Option<Instructions>)
        ensures
            r == Self::spec_from_u8(b),
    {
        if b == 0 {
            Some(Instructions::OpenManagedProof)
        } else if b == 1 {
            Some(Instructions::InitDelegateStake)
        } else if b == 2 {
            Some(Instructions::Mine)
        } else if b == 3 {
            Some(Instructions::DelegateStake)
        } else if b == 4 {
            Some(Instructions::UndelegateStake)
        } else if b == 5 {
            Some(Instructions::OpenManagedProofBoost)
        } else if b == 6 {
            Some(Instructions::DelegateBoost)
        } else if b == 7 {
            Some(Instructions::UndelegateBoost)
        } else if b == 8 {
            Some(Instructions::InitDelegateBoost)
        } else if b == 9 {
            Some(Instructions::DelegateBoostV2)
        } else if b == 10 {
            Some(Instructions::UndelegateBoostV2)
        } else if b == 11 {
            Some(Instructions::InitDelegateBoostV2)
        } else if b == 12 {
            Some(Instructions::MigrateDelegateBoostToV2)
        } else if b == 13 {
            Some(Instructions::CloseDelegateBoostV2)
        } else if b == 14 {
            Some(Instructions::RegisterGlobalBoost)
        } else if b == 15 {
            Some(Instructions::RotateGlobalBoost)
        } else if b == 16 {
            Some(Instructions::UpdateMiningAuthority)
        } else {
            None
        }
    }

    /// The one-byte wire form of the operation tag.
    pub fn to_vec(&self) -> (r: Vec<u8>)
        ensures
            r@ == seq![self.spec_tag()],
    {
        let v: Vec<u8> = vec![self.tag()];
        proof {
            assert(v@ =~= seq![self.spec_tag()]);
        }
        v
    }
}

/// Arguments of the accrual operation: the solution digest and nonce handed
/// to the external ledger.
#[derive(Clone, Copy, Debug)]
pub struct MineArgs {
    pub digest: [u8; 16],
    pub nonce: [u8; 8],
}

impl MineArgs {
    /// True of byte strings that `try_from_bytes` accepts.
    pub open spec fn spec_parses(d: Seq<u8>) -> bool {
        d.len() == 24
    }

    pub fn try_from_bytes(data: &[u8]) -> (r: Result<MineArgs, ProgramError>)
        ensures
            r is Ok <==> Self::spec_parses(data@),
            r is Ok ==> {
                let a = r->Ok_0;
                &&& a.digest@ == data@.subrange(0, 16)
                &&& a.nonce@ == data@.subrange(16, 24)
            },
            r is Err ==> r->Err_0 == ProgramError::InvalidInstructionData,
    {
        if data.len() != 24 {
            return Err(ProgramError::InvalidInstructionData);
        }
        let mut digest: [u8; 16] = [0u8; 16];
        let mut i: usize = 0;
        while i < 16
            invariant
                i <= 16,
                data@.len() == 24,
                forall|j: int| 0 <= j < i ==> digest@[j] == data@[j],
            decreases 16 - i,
        {
            digest[i] = *vstd::slice::slice_index_get(data, i);
            i += 1;
        }
        let mut nonce: [u8; 8] = [0u8; 8];
        let mut k: usize = 0;
        while k < 8
            invariant
                k <= 8,
                data@.len() == 24,
                forall|j: int| 0 <= j < k ==> nonce@[j] == data@[16 + j],
            decreases 8 - k,
        {
            nonce[k] = *vstd::slice::slice_index_get(data, 16 + k);
            k += 1;
        }
        let a = MineArgs { digest, nonce };
        proof {
            assert(a.digest@ =~= data@.subrange(0, 16));
            assert(a.nonce@ =~= data@.subrange(16, 24));
        }
        Ok(a)
    }

    pub fn to_bytes(&self) -> (r: Vec<u8>)
        ensures
            r@ == self.digest@ + self.nonce@,
            Self::spec_parses(r@),
    {
        let mut v = vstd::slice::slice_to_vec(self.digest.as_slice());
        let mut n = vstd::slice::slice_to_vec(self.nonce.as_slice());
        v.append(&mut n);
        v
    }
}

/// An amount argument: eight little-endian bytes.
pub open spec fn spec_amount_args_parses(d: Seq<u8>) -> bool {
    d.len() == 8
}

/// Arguments of a primary-stake deposit: the amount, little-endian.
#[derive(Clone, Copy, Debug)]
pub struct DelegateStakeArgs {
    pub amount: [u8; 8],
}

/// Arguments of a primary-stake withdrawal: the amount, little-endian.
#[derive(Clone, Copy, Debug)]
pub struct UndelegateStakeArgs {
    pub amount: [u8; 8],
}

/// Arguments of a boost deposit: the amount, little-endian.
#[derive(Clone, Copy, Debug)]
pub struct DelegateBoostArgs {
    pub amount: [u8; 8],
}

/// Arguments of a boost withdrawal: the amount, little-endian.
#[derive(Clone, Copy, Debug)]
pub struct UndelegateBoostArgs {
    pub amount: [u8; 8],
}

/// Reads an eight-byte little-endian amount argument.
pub fn parse_amount_args(data: &[u8]) -> (r: Result<u64, ProgramError>)
    ensures
        r is Ok <==> spec_amount_args_parses(data@),
        r is Ok ==> r->Ok_0 == spec_u64_from_le_bytes(data@),
        r is Err ==> r->Err_0 == ProgramError::InvalidInstructionData,
{
    if data.len() != 8 {
        return Err(ProgramError::InvalidInstructionData);
    }
    Ok(u64_from_le_bytes(data))
}

impl DelegateStakeArgs {
    pub fn new(amount: u64) -> (r: DelegateStakeArgs)
        ensures
            r.amount@ == spec_u64_to_le_bytes(amount),
    {
        DelegateStakeArgs { amount: u64_to_le_array(amount) }
    }

    pub fn try_from_bytes(data: &[u8]) -> (r: Result<u64, ProgramError>)
        ensures
            r is Ok <==> spec_amount_args_parses(data@),
            r is Ok ==> r->Ok_0 == spec_u64_from_le_bytes(data@),
            r is Err ==> r->Err_0 == ProgramError::InvalidInstructionData,
    {
        parse_amount_args(data)
    }
}

impl UndelegateStakeArgs {
    pub fn new(amount: u64) -> (r: UndelegateStakeArgs)
        ensures
            r.amount@ == spec_u64_to_le_bytes(amount),
    {
        UndelegateStakeArgs { amount: u64_to_le_array(amount) }
    }

    pub fn try_from_bytes(data: &[u8]) -> (r: Result<u64, ProgramError>)
        ensures
            r is Ok <==> spec_amount_args_parses(data@),
            r is Ok ==> r->Ok_0 == spec_u64_from_le_bytes(data@),
            r is Err ==> r->Err_0 == ProgramError::InvalidInstructionData,
    {
        parse_amount_args(data)
    }
}

impl DelegateBoostArgs {
    pub fn new(amount: u64) -> (r: DelegateBoostArgs)
        ensures
            r.amount@ == spec_u64_to_le_bytes(amount),
    {
        DelegateBoostArgs { amount: u64_to_le_array(amount) }
    }

    pub fn try_from_bytes(data: &[u8]) -> (r: Result<u64, ProgramError>)
        ensures
            r is Ok <==> spec_amount_args_parses(data@),
            r is Ok ==> r->Ok_0 == spec_u64_from_le_bytes(data@),
            r is Err ==> r->Err_0 == ProgramError::InvalidInstructionData,
    {
        parse_amount_args(data)
    }
}

impl UndelegateBoostArgs {
    pub fn new(amount: u64) -> (r: UndelegateBoostArgs)
        ensures
            r.amount@ == spec_u64_to_le_bytes(amount),
    {
        UndelegateBoostArgs { amount: u64_to_le_array(amount) }
    }

    pub fn try_from_bytes(data: &[u8]) -> (r: Result<u64, ProgramError>)
        ensures
            r is Ok <==> spec_amount_args_parses(data@),
            r is Ok ==> r->Ok_0 == spec_u64_from_le_bytes(data@),
            r is Err ==> r->Err_0 == ProgramError::InvalidInstructionData,
    {
        parse_amount_args(data)
    }
}

/// An amount as its eight little-endian bytes, in a fixed array.
pub fn u64_to_le_array(amount: u64) -> (r: [u8; 8])
    ensures
        r@ == spec_u64_to_le_bytes(amount),
{
    let v = u64_to_le_bytes(amount);
    let mut r: [u8; 8] = [0u8; 8];
    let mut i: usize = 0;
    while i < 8
        invariant
            i <= 8,
            v@ == spec_u64_to_le_bytes(amount),
            v@.len() == 8,
            forall|j: int| 0 <= j < i ==> r@[j] == v@[j],
        decreases 8 - i,
    {
        r[i] = v[i];
        i += 1;
    }
    proof {
        assert(r@ =~= spec_u64_to_le_bytes(amount));
    }
    r
}

/// One account a built operation names: its address and the access the
/// operation asks for.
#[derive(Clone, Copy, Debug)]
pub struct AccountMeta {
    pub pubkey: Pubkey,
    pub is_signer: bool,
    pub is_writable: bool,
}

impl AccountMeta {
    /// A writable account entry.
    pub fn new(pubkey: Pubkey, is_signer: bool) -> (r: AccountMeta)
        ensures
            r.pubkey == pubkey,
            r.is_signer == is_signer,
            r.is_writable,
    {
        AccountMeta { pubkey, is_signer, is_writable: true }
    }

    /// A read-only account entry.
    pub fn new_readonly(pubkey: Pubkey, is_signer: bool) -> (r: AccountMeta)
        ensures
            r.pubkey == pubkey,
            r.is_signer == is_signer,
            !r.is_writable,
    {
        AccountMeta { pubkey, is_signer, is_writable: false }
    }
}

/// Whether `m` names `key` with exactly these access flags.
pub open spec fn is_meta(m: AccountMeta, key: Seq<u8>, signer: bool, writable: bool) -> bool {
    &&& m.pubkey@ == key
    &&& m.is_signer == signer
    &&& m.is_writable == writable
}

/// A fully assembled operation: the program to call, the accounts it names
/// in order, and the payload bytes.
#[derive(Debug)]
pub struct Instruction {
    pub program_id: Pubkey,
    pub accounts: Vec<AccountMeta>,
    pub data: Vec<u8>,
}

/// Builds the open-pool operation for `miner`.
pub fn open_managed_proof(miner: Pubkey) -> (r: Instruction)
    ensures
        r.program_id@ == spec_id(),
        r.data@ == seq![Instructions::OpenManagedProof.spec_tag()],
        r.accounts@.len() == 7,
        is_meta(r.accounts@[0], miner@, true, true),
        is_meta(
            r.accounts@[1],
            spec_find_pda(spec_managed_proof_seeds(miner@), spec_id()).0,
            false,
            true,
        ),
        is_meta(
            r.accounts@[2],
            spec_find_pda(
                spec_ore_proof_seeds(spec_find_pda(spec_managed_proof_seeds(miner@), spec_id()).0),
                spec_ore_program_id(),
            ).0,
            false,
            true,
        ),
        is_meta(r.accounts@[3], spec_slot_hashes_sysvar_id(), false, false),
        is_meta(r.accounts@[4], spec_rent_sysvar_id(), false, false),
        is_meta(r.accounts@[5], spec_ore_program_id(), false, false),
        is_meta(r.accounts@[6], spec_system_program_id(), false, false),
{
    let managed_proof_address = crate::pda::managed_proof_pda(miner);
    let ore_proof_address = crate::pda::ore_proof_pda(managed_proof_address.0);
    let mut accounts: Vec<AccountMeta> = Vec::new();
    accounts.push(AccountMeta::new(miner, true));
    accounts.push(AccountMeta::new(managed_proof_address.0, false));
    accounts.push(AccountMeta::new(ore_proof_address.0, false));
    accounts.push(AccountMeta::new_readonly(crate::consts::slot_hashes_sysvar_id(), false));
    accounts.push(AccountMeta::new_readonly(crate::consts::rent_sysvar_id(), false));
    accounts.push(AccountMeta::new_readonly(crate::consts::ore_program_id(), false));
    accounts.push(AccountMeta::new_readonly(crate::consts::system_program_id(), false));
    Instruction {
        program_id: crate::consts::id(),
        accounts,
        data: Instructions::OpenManagedProof.to_vec(),
    }
}

/// Builds the init-share-ledger operation for `staker` in the pool of
/// `miner`, funded by `payer`.
pub fn init_delegate_stake(staker: Pubkey, miner: Pubkey, payer: Pubkey) -> (r: Instruction)
    ensures
        r.program_id@ == spec_id(),
        r.data@ == seq![Instructions::InitDelegateStake.spec_tag()],
        r.accounts@.len() == 7,
        is_meta(r.accounts@[0], staker@, false, true),
        is_meta(r.accounts@[1], miner@, false, true),
        is_meta(r.accounts@[2], payer@, true, true),
        is_meta(
            r.accounts@[3],
            spec_find_pda(spec_managed_proof_seeds(miner@), spec_id()).0,
            false,
            true,
        ),
        is_meta(
            r.accounts@[4],
            spec_find_pda(
                spec_delegated_stake_seeds(
                    staker@,
                    spec_find_pda(spec_managed_proof_seeds(miner@), spec_id()).0,
                ),
                spec_id(),
            ).0,
            false,
            true,
        ),
        is_meta(r.accounts@[5], spec_rent_sysvar_id(), false, false),
        is_meta(r.accounts@[6], spec_system_program_id(), false, false),
{
    let managed_proof_address = crate::pda::managed_proof_pda(miner);
    let delegated_stake_address = crate::pda::delegated_stake_pda(miner, staker);
    let mut accounts: Vec<AccountMeta> = Vec::new();
    accounts.push(AccountMeta::new(staker, false));
    accounts.push(AccountMeta::new(miner, false));
    accounts.push(AccountMeta::new(payer, true));
    accounts.push(AccountMeta::new(managed_proof_address.0, false));
    accounts.push(AccountMeta::new(delegated_stake_address.0, false));
    accounts.push(AccountMeta::new_readonly(crate::consts::rent_sysvar_id(), false));
    accounts.push(AccountMeta::new_readonly(crate::consts::system_program_id(), false));
    Instruction {
        program_id: crate::consts::id(),
        accounts,
        data: Instructions::InitDelegateStake.to_vec(),
    }
}

/// Builds the accrual operation for `miner`, submitting a solution to the
/// external ledger through `bus`.
pub fn mine_with_boost(miner: Pubkey, bus: Pubkey, digest: [u8; 16], nonce: [u8; 8]) -> (r:
    Instruction)
    ensures
        r.program_id@ == spec_id(),
        r.data@ == seq![Instructions::Mine.spec_tag()] + digest@ + nonce@,
        r.accounts@.len() == 12,
        is_meta(r.accounts@[0], miner@, true, true),
        is_meta(
            r.accounts@[1],
            spec_find_pda(spec_managed_proof_seeds(miner@), spec_id()).0,
            false,
            true,
        ),
        is_meta(r.accounts@[2], bus@, false, true),
        is_meta(r.accounts@[3], spec_ore_config_address(), false, false),
        is_meta(
            r.accounts@[4],
            spec_find_pda(
                spec_ore_proof_seeds(spec_find_pda(spec_managed_proof_seeds(miner@), spec_id()).0),
                spec_ore_program_id(),
            ).0,
            false,
            true,
        ),
        is_meta(
            r.accounts@[5],
            spec_find_pda(
                spec_delegated_stake_seeds(
                    miner@,
                    spec_find_pda(spec_managed_proof_seeds(miner@), spec_id()).0,
                ),
                spec_id(),
            ).0,
            false,
            true,
        ),
        is_meta(r.accounts@[6], spec_slot_hashes_sysvar_id(), false, false),
        is_meta(r.accounts@[7], spec_instructions_sysvar_id(), false, false),
        is_meta(r.accounts@[8], spec_ore_program_id(), false, false),
        is_meta(r.accounts@[9], spec_system_program_id(), false, false),
        is_meta(
            r.accounts@[10],
            spec_find_pda(spec_boost_config_seeds(), spec_ore_boost_program_id()).0,
            false,
            false,
        ),
        is_meta(
            r.accounts@[11],
            spec_find_pda(
                spec_ore_proof_seeds(
                    spec_find_pda(spec_boost_config_seeds(), spec_ore_boost_program_id()).0,
                ),
                spec_ore_program_id(),
            ).0,
            false,
            true,
        ),
{
    let managed_proof_address = crate::pda::managed_proof_pda(miner);
    let ore_proof_address = crate::pda::ore_proof_pda(managed_proof_address.0);
    let delegated_stake_address = crate::pda::delegated_stake_pda(miner, miner);
    let boost_config = crate::pda::boost_config_pda();
    let boost_proof = crate::pda::ore_proof_pda(boost_config.0);
    let mut accounts: Vec<AccountMeta> = Vec::new();
    accounts.push(AccountMeta::new(miner, true));
    accounts.push(AccountMeta::new(managed_proof_address.0, false));
    accounts.push(AccountMeta::new(bus, false));
    accounts.push(AccountMeta::new_readonly(crate::pda::ore_config_address(), false));
    accounts.push(AccountMeta::new(ore_proof_address.0, false));
    accounts.push(AccountMeta::new(delegated_stake_address.0, false));
    accounts.push(AccountMeta::new_readonly(crate::consts::slot_hashes_sysvar_id(), false));
    accounts.push(AccountMeta::new_readonly(crate::consts::instructions_sysvar_id(), false));
    accounts.push(AccountMeta::new_readonly(crate::consts::ore_program_id(), false));
    accounts.push(AccountMeta::new_readonly(crate::consts::system_program_id(), false));
    accounts.push(AccountMeta::new_readonly(boost_config.0, false));
    accounts.push(AccountMeta::new(boost_proof.0, false));
    let mut data = Instructions::Mine.to_vec();
    let args = MineArgs { digest, nonce };
    let mut arg_bytes = args.to_bytes();
    data.append(&mut arg_bytes);
    proof {
        assert(data@ =~= seq![Instructions::Mine.spec_tag()] + digest@ + nonce@);
    }
    Instruction { program_id: crate::consts::id(), accounts, data }
}

/// Builds the deposit operation: `staker` stakes `amount` into the pool of
/// `miner`.
pub fn delegate_stake(staker: Pubkey, miner: Pubkey, amount: u64) -> (r: Instruction)
    ensures
        r.program_id@ == spec_id(),
        r.data@ == seq![Instructions::DelegateStake.spec_tag()] + spec_u64_to_le_bytes(amount),
        r.accounts@.len() == 11,
        is_meta(r.accounts@[0], staker@, true, true),
        is_meta(r.accounts@[1], miner@, false, false),
        is_meta(
            r.accounts@[2],
            spec_find_pda(spec_managed_proof_seeds(miner@), spec_id()).0,
            false,
            true,
        ),
        is_meta(
            r.accounts@[3],
            spec_find_pda(
                spec_ore_proof_seeds(spec_find_pda(spec_managed_proof_seeds(miner@), spec_id()).0),
                spec_ore_program_id(),
            ).0,
            false,
            true,
        ),
        is_meta(
            r.accounts@[4],
            spec_ata(
                spec_find_pda(spec_managed_proof_seeds(miner@), spec_id()).0,
                spec_ore_mint_address(),
            ),
            false,
            true,
        ),
        is_meta(r.accounts@[5], spec_ata(staker@, spec_ore_mint_address()), false, true),
        is_meta(
            r.accounts@[6],
            spec_find_pda(
                spec_delegated_stake_seeds(
                    staker@,
                    spec_find_pda(spec_managed_proof_seeds(miner@), spec_id()).0,
                ),
                spec_id(),
            ).0,
            false,
            true,
        ),
        is_meta(r.accounts@[7], spec_ore_treasury_address(), false, true),
        is_meta(
            r.accounts@[8],
            spec_ata(spec_ore_treasury_address(), spec_ore_mint_address()),
            false,
            true,
        ),
        is_meta(r.accounts@[9], spec_ore_program_id(), false, false),
        is_meta(r.accounts@[10], spec_spl_token_id(), false, false),
{
    let managed_proof_address = crate::pda::managed_proof_pda(miner);
    let ore_proof_address = crate::pda::ore_proof_pda(managed_proof_address.0);
    let delegated_stake_address = crate::pda::delegated_stake_pda(miner, staker);
    let mint = crate::pda::ore_mint_address();
    let treasury = crate::pda::ore_treasury_address();
    let staker_token_account = crate::pda::associated_token_address(&staker, &mint);
    let managed_proof_token_account = crate::pda::associated_token_address(
        &managed_proof_address.0,
        &mint,
    );
    let treasury_tokens = crate::pda::associated_token_address(&treasury, &mint);
    let mut accounts: Vec<AccountMeta> = Vec::new();
    accounts.push(AccountMeta::new(staker, true));
    accounts.push(AccountMeta::new_readonly(miner, false));
    accounts.push(AccountMeta::new(managed_proof_address.0, false));
    accounts.push(AccountMeta::new(ore_proof_address.0, false));
    accounts.push(AccountMeta::new(managed_proof_token_account, false));
    accounts.push(AccountMeta::new(staker_token_account, false));
    accounts.push(AccountMeta::new(delegated_stake_address.0, false));
    accounts.push(AccountMeta::new(treasury, false));
    accounts.push(AccountMeta::new(treasury_tokens, false));
    accounts.push(AccountMeta::new_readonly(crate::consts::ore_program_id(), false));
    accounts.push(AccountMeta::new_readonly(crate::consts::spl_token_id(), false));
    let mut data = Instructions::DelegateStake.to_vec();
    let mut arg_bytes = u64_to_le_bytes(amount);
    data.append(&mut arg_bytes);
    proof {
        assert(data@ =~= seq![Instructions::DelegateStake.spec_tag()] + spec_u64_to_le_bytes(
            amount,
        ));
    }
    Instruction { program_id: crate::consts::id(), accounts, data }
}

/// Builds the withdrawal operation: `staker` withdraws `amount` shares from
/// the pool of `miner`, paid out to `beneficiary_token_account`.
pub fn undelegate_stake(
    staker: Pubkey,
    miner: Pubkey,
    beneficiary_token_account: Pubkey,
    amount: u64,
) -> (r: Instruction)
    ensures
        r.program_id@ == spec_id(),
        r.data@ == seq![Instructions::UndelegateStake.spec_tag()] + spec_u64_to_le_bytes(amount),
        r.accounts@.len() == 10,
        is_meta(r.accounts@[0], staker@, true, true),
        is_meta(r.accounts@[1], miner@, false, false),
        is_meta(
            r.accounts@[2],
            spec_find_pda(spec_managed_proof_seeds(miner@), spec_id()).0,
            false,
            true,
        ),
        is_meta(
            r.accounts@[3],
            spec_find_pda(
                spec_ore_proof_seeds(spec_find_pda(spec_managed_proof_seeds(miner@), spec_id()).0),
                spec_ore_program_id(),
            ).0,
            false,
            true,
        ),
        is_meta(r.accounts@[4], beneficiary_token_account@, false, true),
        is_meta(
            r.accounts@[5],
            spec_find_pda(
                spec_delegated_stake_seeds(
                    staker@,
                    spec_find_pda(spec_managed_proof_seeds(miner@), spec_id()).0,
                ),
                spec_id(),
            ).0,
            false,
            true,
        ),
        is_meta(r.accounts@[6], spec_ore_treasury_address(), false, true),
        is_meta(
            r.accounts@[7],
            spec_ata(spec_ore_treasury_address(), spec_ore_mint_address()),
            false,
            true,
        ),
        is_meta(r.accounts@[8], spec_ore_program_id(), false, false),
        is_meta(r.accounts@[9], spec_spl_token_id(), false, false),
{
    let managed_proof_address = crate::pda::managed_proof_pda(miner);
    let ore_proof_address = crate::pda::ore_proof_pda(managed_proof_address.0);
    let delegated_stake_address = crate::pda::delegated_stake_pda(miner, staker);
    let mint = crate::pda::ore_mint_address();
    let treasury = crate::pda::ore_treasury_address();
    let treasury_tokens = crate::pda::associated_token_address(&treasury, &mint);
    let mut accounts: Vec<AccountMeta> = Vec::new();
    accounts.push(AccountMeta::new(staker, true));
    accounts.push(AccountMeta::new_readonly(miner, false));
    accounts.push(AccountMeta::new(managed_proof_address.0, false));
    accounts.push(AccountMeta::new(ore_proof_address.0, false));
    accounts.push(AccountMeta::new(beneficiary_token_account, false));
    accounts.push(AccountMeta::new(delegated_stake_address.0, false));
    accounts.push(AccountMeta::new(treasury, false));
    accounts.push(AccountMeta::new(treasury_tokens, false));
    accounts.push(AccountMeta::new_readonly(crate::consts::ore_program_id(), false));
    accounts.push(AccountMeta::new_readonly(crate::consts::spl_token_id(), false));
    let mut data = Instructions::UndelegateStake.to_vec();
    let mut arg_bytes = u64_to_le_bytes(amount);
    data.append(&mut arg_bytes);
    proof {
        assert(data@ =~= seq![Instructions::UndelegateStake.spec_tag()] + spec_u64_to_le_bytes(
            amount,
        ));
    }
    Instruction { program_id: crate::consts::id(), accounts, data }
}

/// The account list shared by the boost deposit and withdrawal operations,
/// with the boost ledger at `ledger_address`.
fn boost_transfer_accounts(staker: Pubkey, miner: Pubkey, mint: Pubkey, ledger_address: Pubkey) -> (r:
    Vec<AccountMeta>)
    ensures
        r@.len() == 12,
        is_meta(r@[0], staker@, true, true),
        is_meta(r@[1], miner@, false, false),
        is_meta(r@[2], spec_find_pda(spec_managed_proof_seeds(miner@), spec_id()).0, false, true),
        is_meta(
            r@[3],
            spec_ata(spec_find_pda(spec_managed_proof_seeds(miner@), spec_id()).0, mint@),
            false,
            true,
        ),
        is_meta(r@[4], ledger_address@, false, true),
        is_meta(
            r@[5],
            spec_find_pda(spec_boost_seeds(mint@), spec_ore_boost_program_id()).0,
            false,
            true,
        ),
        is_meta(r@[6], mint@, false, false),
        is_meta(r@[7], spec_ata(staker@, mint@), false, true),
        is_meta(
            r@[8],
            spec_ata(
                spec_find_pda(spec_boost_seeds(mint@), spec_ore_boost_program_id()).0,
                mint@,
            ),
            false,
            true,
        ),
        is_meta(
            r@[9],
            spec_find_pda(
                spec_boost_stake_seeds(
                    spec_find_pda(spec_managed_proof_seeds(miner@), spec_id()).0,
                    spec_find_pda(spec_boost_seeds(mint@), spec_ore_boost_program_id()).0,
                ),
                spec_ore_boost_program_id(),
            ).0,
            false,
            true,
        ),
        is_meta(r@[10], spec_ore_boost_program_id(), false, false),
        is_meta(r@[11], spec_spl_token_id(), false, false),
{
    let managed_proof_address = crate::pda::managed_proof_pda(miner);
    let staker_token_account = crate::pda::associated_token_address(&staker, &mint);
    let managed_proof_token_account = crate::pda::associated_token_address(
        &managed_proof_address.0,
        &mint,
    );
    let boost_address = crate::pda::boost_pda(mint);
    let boost_tokens_address = crate::pda::associated_token_address(&boost_address.0, &mint);
    let stake_address = crate::pda::boost_stake_pda(managed_proof_address.0, boost_address.0);
    let mut accounts: Vec<AccountMeta> = Vec::new();
    accounts.push(AccountMeta::new(staker, true));
    accounts.push(AccountMeta::new_readonly(miner, false));
    accounts.push(AccountMeta::new(managed_proof_address.0, false));
    accounts.push(AccountMeta::new(managed_proof_token_account, false));
    accounts.push(AccountMeta::new(ledger_address, false));
    accounts.push(AccountMeta::new(boost_address.0, false));
    accounts.push(AccountMeta::new_readonly(mint, false));
    accounts.push(AccountMeta::new(staker_token_account, false));
    accounts.push(AccountMeta::new(boost_tokens_address, false));
    accounts.push(AccountMeta::new(stake_address.0, false));
    accounts.push(AccountMeta::new_readonly(crate::consts::ore_boost_program_id(), false));
    accounts.push(AccountMeta::new_readonly(crate::consts::spl_token_id(), false));
    accounts
}

/// Builds the v1 boost deposit operation (kept for clients of the old
/// schema; the program refuses its tag as removed).
pub fn delegate_boost(staker: Pubkey, miner: Pubkey, mint: Pubkey, amount: u64) -> (r: Instruction)
    ensures
        r.program_id@ == spec_id(),
        r.data@ == seq![Instructions::DelegateBoost.spec_tag()] + spec_u64_to_le_bytes(amount),
        r.accounts@.len() == 12,
        is_meta(
            r.accounts@[4],
            spec_find_pda(
                spec_delegated_boost_seeds(
                    staker@,
                    mint@,
                    spec_find_pda(spec_managed_proof_seeds(miner@), spec_id()).0,
                ),
                spec_id(),
            ).0,
            false,
            true,
        ),
{
    let ledger = crate::pda::delegated_boost_pda(miner, staker, mint);
    let accounts = boost_transfer_accounts(staker, miner, mint, ledger.0);
    let mut data = Instructions::DelegateBoost.to_vec();
    let mut arg_bytes = u64_to_le_bytes(amount);
    data.append(&mut arg_bytes);
    proof {
        assert(data@ =~= seq![Instructions::DelegateBoost.spec_tag()] + spec_u64_to_le_bytes(
            amount,
        ));
    }
    Instruction { program_id: crate::consts::id(), accounts, data }
}

/// Builds the v1 boost withdrawal operation (kept for clients of the old
/// schema; the program refuses its tag as removed).
pub fn undelegate_boost(staker: Pubkey, miner: Pubkey, mint: Pubkey, amount: u64) -> (r:
    Instruction)
    ensures
        r.program_id@ == spec_id(),
        r.data@ == seq![Instructions::UndelegateBoost.spec_tag()] + spec_u64_to_le_bytes(amount),
        r.accounts@.len() == 12,
        is_meta(
            r.accounts@[4],
            spec_find_pda(
                spec_delegated_boost_seeds(
                    staker@,
                    mint@,
                    spec_find_pda(spec_managed_proof_seeds(miner@), spec_id()).0,
                ),
                spec_id(),
            ).0,
            false,
            true,
        ),
{
    let ledger = crate::pda::delegated_boost_pda(miner, staker, mint);
    let accounts = boost_transfer_accounts(staker, miner, mint, ledger.0);
    let mut data = Instructions::UndelegateBoost.to_vec();
    let mut arg_bytes = u64_to_le_bytes(amount);
    data.append(&mut arg_bytes);
    proof {
        assert(data@ =~= seq![Instructions::UndelegateBoost.spec_tag()] + spec_u64_to_le_bytes(
            amount,
        ));
    }
    Instruction { program_id: crate::consts::id(), accounts, data }
}

/// Builds the v2 boost deposit operation: `staker` deposits `amount` of
/// `mint` into the pool's boost stake.
pub fn delegate_boost_v2(staker: Pubkey, miner: Pubkey, mint: Pubkey, amount: u64) -> (r:
    Instruction)
    ensures
        r.program_id@ == spec_id(),
        r.data@ == seq![Instructions::DelegateBoostV2.spec_tag()] + spec_u64_to_le_bytes(amount),
        r.accounts@.len() == 12,
        is_meta(
            r.accounts@[4],
            spec_find_pda(
                spec_delegated_boost_v2_seeds(
                    staker@,
                    mint@,
                    spec_find_pda(spec_managed_proof_seeds(miner@), spec_id()).0,
                ),
                spec_id(),
            ).0,
            false,
            true,
        ),
{
    let ledger = crate::pda::delegated_boost_v2_pda(miner, staker, mint);
    let accounts = boost_transfer_accounts(staker, miner, mint, ledger.0);
    let mut data = Instructions::DelegateBoostV2.to_vec();
    let mut arg_bytes = u64_to_le_bytes(amount);
    data.append(&mut arg_bytes);
    proof {
        assert(data@ =~= seq![Instructions::DelegateBoostV2.spec_tag()] + spec_u64_to_le_bytes(
            amount,
        ));
    }
    Instruction { program_id: crate::consts::id(), accounts, data }
}

/// Builds the v2 boost withdrawal operation: `staker` withdraws `amount` of
/// `mint` from the pool's boost stake.
pub fn undelegate_boost_v2(staker: Pubkey, miner: Pubkey, mint: Pubkey, amount: u64) -> (r:
    Instruction)
    ensures
        r.program_id@ == spec_id(),
        r.data@ == seq![Instructions::UndelegateBoostV2.spec_tag()] + spec_u64_to_le_bytes(amount),
        r.accounts@.len() == 12,
        is_meta(
            r.accounts@[4],
            spec_find_pda(
                spec_delegated_boost_v2_seeds(
                    staker@,
                    mint@,
                    spec_find_pda(spec_managed_proof_seeds(miner@), spec_id()).0,
                ),
                spec_id(),
            ).0,
            false,
            true,
        ),
{
    let ledger = crate::pda::delegated_boost_v2_pda(miner, staker, mint);
    let accounts = boost_transfer_accounts(staker, miner, mint, ledger.0);
    let mut data = Instructions::UndelegateBoostV2.to_vec();
    let mut arg_bytes = u64_to_le_bytes(amount);
    data.append(&mut arg_bytes);
    proof {
        assert(data@ =~= seq![Instructions::UndelegateBoostV2.spec_tag()] + spec_u64_to_le_bytes(
            amount,
        ));
    }
    Instruction { program_id: crate::consts::id(), accounts, data }
}

/// Builds the open-boost-stake operation: the pool of `miner` opens its
/// stake with the boost program for `mint`.
pub fn open_managed_proof_boost(miner: Pubkey, mint: Pubkey) -> (r: Instruction)
    ensures
        r.program_id@ == spec_id(),
        r.data@ == seq![Instructions::OpenManagedProofBoost.spec_tag()],
        r.accounts@.len() == 7,
        is_meta(r.accounts@[0], miner@, true, true),
        is_meta(
            r.accounts@[1],
            spec_find_pda(spec_managed_proof_seeds(miner@), spec_id()).0,
            false,
            true,
        ),
        is_meta(
            r.accounts@[2],
            spec_find_pda(spec_boost_seeds(mint@), spec_ore_boost_program_id()).0,
            false,
            false,
        ),
        is_meta(r.accounts@[3], mint@, false, false),
        is_meta(
            r.accounts@[4],
            spec_find_pda(
                spec_boost_stake_seeds(
                    spec_find_pda(spec_managed_proof_seeds(miner@), spec_id()).0,
                    spec_find_pda(spec_boost_seeds(mint@), spec_ore_boost_program_id()).0,
                ),
                spec_ore_boost_program_id(),
            ).0,
            false,
            true,
        ),
        is_meta(r.accounts@[5], spec_system_program_id(), false, false),
        is_meta(r.accounts@[6], spec_ore_boost_program_id(), false, false),
{
    let managed_proof_address = crate::pda::managed_proof_pda(miner);
    let boost_address = crate::pda::boost_pda(mint);
    let stake_address = crate::pda::boost_stake_pda(managed_proof_address.0, boost_address.0);
    let mut accounts: Vec<AccountMeta> = Vec::new();
    accounts.push(AccountMeta::new(miner, true));
    accounts.push(AccountMeta::new(managed_proof_address.0, false));
    accounts.push(AccountMeta::new_readonly(boost_address.0, false));
    accounts.push(AccountMeta::new_readonly(mint, false));
    accounts.push(AccountMeta::new(stake_address.0, false));
    accounts.push(AccountMeta::new_readonly(crate::consts::system_program_id(), false));
    accounts.push(AccountMeta::new_readonly(crate::consts::ore_boost_program_id(), false));
    Instruction {
        program_id: crate::consts::id(),
        accounts,
        data: Instructions::OpenManagedProofBoost.to_vec(),
    }
}

/// The account list shared by the boost ledger initialization operations,
/// with the ledger at `ledger_address`.
fn init_boost_accounts(
    staker: Pubkey,
    miner: Pubkey,
    payer: Pubkey,
    mint: Pubkey,
    ledger_address: Pubkey,
) -> (r: Vec<AccountMeta>)
    ensures
        r@.len() == 8,
        is_meta(r@[0], staker@, false, true),
        is_meta(r@[1], miner@, false, true),
        is_meta(r@[2], payer@, true, true),
        is_meta(r@[3], spec_find_pda(spec_managed_proof_seeds(miner@), spec_id()).0, false, true),
        is_meta(r@[4], ledger_address@, false, true),
        is_meta(r@[5], mint@, false, false),
        is_meta(r@[6], spec_rent_sysvar_id(), false, false),
        is_meta(r@[7], spec_system_program_id(), false, false),
{
    let managed_proof_address = crate::pda::managed_proof_pda(miner);
    let mut accounts: Vec<AccountMeta> = Vec::new();
    accounts.push(AccountMeta::new(staker, false));
    accounts.push(AccountMeta::new(miner, false));
    accounts.push(AccountMeta::new(payer, true));
    accounts.push(AccountMeta::new(managed_proof_address.0, false));
    accounts.push(AccountMeta::new(ledger_address, false));
    accounts.push(AccountMeta::new_readonly(mint, false));
    accounts.push(AccountMeta::new_readonly(crate::consts::rent_sysvar_id(), false));
    accounts.push(AccountMeta::new_readonly(crate::consts::system_program_id(), false));
    accounts
}

/// Builds the v1 boost ledger initialization (kept for clients of the old
/// schema; the program refuses its tag as removed).
pub fn init_delegate_boost(staker: Pubkey, miner: Pubkey, payer: Pubkey, mint: Pubkey) -> (r:
    Instruction)
    ensures
        r.program_id@ == spec_id(),
        r.data@ == seq![Instructions::InitDelegateBoost.spec_tag()],
        r.accounts@.len() == 8,
        is_meta(
            r.accounts@[4],
            spec_find_pda(
                spec_delegated_boost_seeds(
                    staker@,
                    mint@,
                    spec_find_pda(spec_managed_proof_seeds(miner@), spec_id()).0,
                ),
                spec_id(),
            ).0,
            false,
            true,
        ),
{
    let ledger = crate::pda::delegated_boost_pda(miner, staker, mint);
    let accounts = init_boost_accounts(staker, miner, payer, mint, ledger.0);
    Instruction {
        program_id: crate::consts::id(),
        accounts,
        data: Instructions::InitDelegateBoost.to_vec(),
    }
}

/// Builds the v2 boost ledger initialization for `staker` and `mint` in the
/// pool of `miner`, funded by `payer`.
pub fn init_delegate_boost_v2(staker: Pubkey, miner: Pubkey, payer: Pubkey, mint: Pubkey) -> (r:
    Instruction)
    ensures
        r.program_id@ == spec_id(),
        r.data@ == seq![Instructions::InitDelegateBoostV2.spec_tag()],
        r.accounts@.len() == 8,
        is_meta(
            r.accounts@[4],
            spec_find_pda(
                spec_delegated_boost_v2_seeds(
                    staker@,
                    mint@,
                    spec_find_pda(spec_managed_proof_seeds(miner@), spec_id()).0,
                ),
                spec_id(),
            ).0,
            false,
            true,
        ),
{
    let ledger = crate::pda::delegated_boost_v2_pda(miner, staker, mint);
    let accounts = init_boost_accounts(staker, miner, payer, mint, ledger.0);
    Instruction {
        program_id: crate::consts::id(),
        accounts,
        data: Instructions::InitDelegateBoostV2.to_vec(),
    }
}

/// Builds the migration operation: moves the whole v1 boost holding of
/// `staker` for `mint` in the pool of `miner` into the v2 ledger.
pub fn migrate_boost_to_v2(staker: Pubkey, miner: Pubkey, mint: Pubkey) -> (r: Instruction)
    ensures
        r.program_id@ == spec_id(),
        r.data@ == seq![Instructions::MigrateDelegateBoostToV2.spec_tag()],
        r.accounts@.len() == 6,
        is_meta(r.accounts@[0], staker@, true, true),
        is_meta(r.accounts@[1], miner@, false, false),
        is_meta(
            r.accounts@[2],
            spec_find_pda(spec_managed_proof_seeds(miner@), spec_id()).0,
            false,
            true,
        ),
        is_meta(
            r.accounts@[3],
            spec_find_pda(
                spec_delegated_boost_seeds(
                    staker@,
                    mint@,
                    spec_find_pda(spec_managed_proof_seeds(miner@), spec_id()).0,
                ),
                spec_id(),
            ).0,
            false,
            true,
        ),
        is_meta(
            r.accounts@[4],
            spec_find_pda(
                spec_delegated_boost_v2_seeds(
                    staker@,
                    mint@,
                    spec_find_pda(spec_managed_proof_seeds(miner@), spec_id()).0,
                ),
                spec_id(),
            ).0,
            false,
            true,
        ),
        is_meta(r.accounts@[5], mint@, false, false),
{
    let managed_proof_address = crate::pda::managed_proof_pda(miner);
    let v1_ledger = crate::pda::delegated_boost_pda(miner, staker, mint);
    let v2_ledger = crate::pda::delegated_boost_v2_pda(miner, staker, mint);
    let mut accounts: Vec<AccountMeta> = Vec::new();
    accounts.push(AccountMeta::new(staker, true));
    accounts.push(AccountMeta::new_readonly(miner, false));
    accounts.push(AccountMeta::new(managed_proof_address.0, false));
    accounts.push(AccountMeta::new(v1_ledger.0, false));
    accounts.push(AccountMeta::new(v2_ledger.0, false));
    accounts.push(AccountMeta::new_readonly(mint, false));
    Instruction {
        program_id: crate::consts::id(),
        accounts,
        data: Instructions::MigrateDelegateBoostToV2.to_vec(),
    }
}

/// Builds the close operation for an emptied v2 boost ledger.
pub fn close_delegate_boost_v2(staker: Pubkey, miner: Pubkey, payer: Pubkey, mint: Pubkey) -> (r:
    Instruction)
    ensures
        r.program_id@ == spec_id(),
        r.data@ == seq![Instructions::CloseDelegateBoostV2.spec_tag()],
        r.accounts@.len() == 7,
        is_meta(r.accounts@[0], staker@, false, true),
        is_meta(r.accounts@[1], miner@, false, true),
        is_meta(r.accounts@[2], payer@, false, true),
        is_meta(
            r.accounts@[3],
            spec_find_pda(spec_managed_proof_seeds(miner@), spec_id()).0,
            false,
            true,
        ),
        is_meta(
            r.accounts@[4],
            spec_find_pda(
                spec_delegated_boost_v2_seeds(
                    staker@,
                    mint@,
                    spec_find_pda(spec_managed_proof_seeds(miner@), spec_id()).0,
                ),
                spec_id(),
            ).0,
            false,
            true,
        ),
        is_meta(r.accounts@[5], mint@, false, false),
        is_meta(r.accounts@[6], spec_system_program_id(), false, false),
{
    let managed_proof_address = crate::pda::managed_proof_pda(miner);
    let ledger = crate::pda::delegated_boost_v2_pda(miner, staker, mint);
    let mut accounts: Vec<AccountMeta> = Vec::new();
    accounts.push(AccountMeta::new(staker, false));
    accounts.push(AccountMeta::new(miner, false));
    accounts.push(AccountMeta::new(payer, false));
    accounts.push(AccountMeta::new(managed_proof_address.0, false));
    accounts.push(AccountMeta::new(ledger.0, false));
    accounts.push(AccountMeta::new_readonly(mint, false));
    accounts.push(AccountMeta::new_readonly(crate::consts::system_program_id(), false));
    Instruction {
        program_id: crate::consts::id(),
        accounts,
        data: Instructions::CloseDelegateBoostV2.to_vec(),
    }
}

/// Builds the global boost registration operation for the pool of `miner`.
pub fn register_global_boost(miner: Pubkey) -> (r: Instruction)
    ensures
        r.program_id@ == spec_id(),
        r.data@ == seq![Instructions::RegisterGlobalBoost.spec_tag()],
        r.accounts@.len() == 6,
        is_meta(r.accounts@[0], miner@, true, true),
        is_meta(
            r.accounts@[1],
            spec_find_pda(
                spec_ore_proof_seeds(spec_find_pda(spec_managed_proof_seeds(miner@), spec_id()).0),
                spec_ore_program_id(),
            ).0,
            false,
            false,
        ),
        is_meta(
            r.accounts@[2],
            spec_find_pda(spec_managed_proof_seeds(miner@), spec_id()).0,
            false,
            true,
        ),
        is_meta(
            r.accounts@[3],
            spec_find_pda(
                crate::global_boost::spec_reservation_seeds(
                    spec_find_pda(
                        spec_ore_proof_seeds(
                            spec_find_pda(spec_managed_proof_seeds(miner@), spec_id()).0,
                        ),
                        spec_ore_program_id(),
                    ).0,
                ),
                crate::consts::spec_global_boost_id(),
            ).0,
            false,
            true,
        ),
        is_meta(r.accounts@[4], spec_system_program_id(), false, false),
        is_meta(r.accounts@[5], crate::consts::spec_global_boost_id(), false, false),
{
    let managed_proof_address = crate::pda::managed_proof_pda(miner);
    let ore_proof_address = crate::pda::ore_proof_pda(managed_proof_address.0);
    let reservation = crate::global_boost::reservation_pda(ore_proof_address.0);
    let mut accounts: Vec<AccountMeta> = Vec::new();
    accounts.push(AccountMeta::new(miner, true));
    accounts.push(AccountMeta::new_readonly(ore_proof_address.0, false));
    accounts.push(AccountMeta::new(managed_proof_address.0, false));
    accounts.push(AccountMeta::new(reservation.0, false));
    accounts.push(AccountMeta::new_readonly(crate::consts::system_program_id(), false));
    accounts.push(AccountMeta::new_readonly(crate::consts::global_boost_id(), false));
    Instruction {
        program_id: crate::consts::id(),
        accounts,
        data: Instructions::RegisterGlobalBoost.to_vec(),
    }
}

/// Builds the global boost rotation operation for the pool of `miner`.
pub fn rotate_global_boost(miner: Pubkey) -> (r: Instruction)
    ensures
        r.program_id@ == spec_id(),
        r.data@ == seq![Instructions::RotateGlobalBoost.spec_tag()],
        r.accounts@.len() == 7,
        is_meta(r.accounts@[0], miner@, true, true),
        is_meta(
            r.accounts@[1],
            spec_find_pda(
                spec_ore_proof_seeds(spec_find_pda(spec_managed_proof_seeds(miner@), spec_id()).0),
                spec_ore_program_id(),
            ).0,
            false,
            false,
        ),
        is_meta(
            r.accounts@[2],
            spec_find_pda(spec_managed_proof_seeds(miner@), spec_id()).0,
            false,
            true,
        ),
        is_meta(
            r.accounts@[3],
            spec_find_pda(
                crate::global_boost::spec_directory_seeds(),
                crate::consts::spec_global_boost_id(),
            ).0,
            false,
            false,
        ),
        is_meta(
            r.accounts@[4],
            spec_find_pda(
                crate::global_boost::spec_reservation_seeds(
                    spec_find_pda(
                        spec_ore_proof_seeds(
                            spec_find_pda(spec_managed_proof_seeds(miner@), spec_id()).0,
                        ),
                        spec_ore_program_id(),
                    ).0,
                ),
                crate::consts::spec_global_boost_id(),
            ).0,
            false,
            true,
        ),
        is_meta(
            r.accounts@[5],
            spec_ata(spec_ore_treasury_address(), spec_ore_mint_address()),
            false,
            false,
        ),
        is_meta(r.accounts@[6], crate::consts::spec_global_boost_id(), false, false),
{
    let managed_proof_address = crate::pda::managed_proof_pda(miner);
    let ore_proof_address = crate::pda::ore_proof_pda(managed_proof_address.0);
    let directory = crate::global_boost::directory_pda();
    let reservation = crate::global_boost::reservation_pda(ore_proof_address.0);
    let treasury = crate::pda::ore_treasury_address();
    let mint = crate::pda::ore_mint_address();
    let treasury_tokens = crate::pda::associated_token_address(&treasury, &mint);
    let mut accounts: Vec<AccountMeta> = Vec::new();
    accounts.push(AccountMeta::new(miner, true));
    accounts.push(AccountMeta::new_readonly(ore_proof_address.0, false));
    accounts.push(AccountMeta::new(managed_proof_address.0, false));
    accounts.push(AccountMeta::new_readonly(directory.0, false));
    accounts.push(AccountMeta::new(reservation.0, false));
    accounts.push(AccountMeta::new_readonly(treasury_tokens, false));
    accounts.push(AccountMeta::new_readonly(crate::consts::global_boost_id(), false));
    Instruction {
        program_id: crate::consts::id(),
        accounts,
        data: Instructions::RotateGlobalBoost.to_vec(),
    }
}

/// Builds the operation repointing the pool's reward authority to
/// `new_miner_auth`.
pub fn update_miner_authority(miner: Pubkey, new_miner_auth: Pubkey) -> (r: Instruction)
    ensures
        r.program_id@ == spec_id(),
        r.data@ == seq![Instructions::UpdateMiningAuthority.spec_tag()],
        r.accounts@.len() == 5,
        is_meta(r.accounts@[0], miner@, true, true),
        is_meta(
            r.accounts@[1],
            spec_find_pda(spec_managed_proof_seeds(miner@), spec_id()).0,
            false,
            true,
        ),
        is_meta(r.accounts@[2], new_miner_auth@, false, true),
        is_meta(
            r.accounts@[3],
            spec_find_pda(
                spec_ore_proof_seeds(spec_find_pda(spec_managed_proof_seeds(miner@), spec_id()).0),
                spec_ore_program_id(),
            ).0,
            false,
            true,
        ),
        is_meta(r.accounts@[4], spec_ore_program_id(), false, false),
{
    let managed_proof_address = crate::pda::managed_proof_pda(miner);
    let ore_proof_address = crate::pda::ore_proof_pda(managed_proof_address.0);
    let mut accounts: Vec<AccountMeta> = Vec::new();
    accounts.push(AccountMeta::new(miner, true));
    accounts.push(AccountMeta::new(managed_proof_address.0, false));
    accounts.push(AccountMeta::new(new_miner_auth, false));
    accounts.push(AccountMeta::new(ore_proof_address.0, false));
    accounts.push(AccountMeta::new_readonly(crate::consts::ore_program_id(), false));
    Instruction {
        program_id: crate::consts::id(),
        accounts,
        data: Instructions::UpdateMiningAuthority.to_vec(),
    }
}

} // verus!

