//! The global boost program's side: its derived addresses and the
//! operations the pool sends it when registering and rotating its
//! reservation.

use vstd::prelude::*;
use crate::consts::{
    global_boost_id, spec_global_boost_id, spec_system_program_id, boost_checkpoint_seed,
    boost_config_seed, boost_directory_seed, boost_reservation_seed, boost_seed, boost_stake_seed,
    spec_boost_checkpoint_seed, spec_boost_config_seed, spec_boost_directory_seed,
    spec_boost_reservation_seed, spec_boost_seed, spec_boost_stake_seed,
};
use crate::instruction::{is_meta, AccountMeta, Instruction};
use crate::pda::{find_program_address, spec_find_pda};
use crate::pubkey::Pubkey;

verus! {

/// The operations the global boost program accepts, with their wire tags.
#[derive(Clone, Copy, Debug, PartialEq, Eq, Structural)]
pub enum BoostInstruction {
    Claim,
    Deposit,
    Open,
    Rebase,
    Register,
    Rotate,
    Withdraw,
    Activate,
    Deactivate,
    Initialize,
    New,
    UpdateAdmin,
    UpdateBoost,
}

impl BoostInstruction {
    /// The wire tag of the operation: user operations count from zero,
    /// administrative ones from one hundred.
    pub open spec fn spec_tag(self) -> u8 {
        match self {
            BoostInstruction::Claim => 0,
            BoostInstruction::Deposit => 1,
            BoostInstruction::Open => 2,
            BoostInstruction::Rebase => 3,
            BoostInstruction::Register => 4,
            BoostInstruction::Rotate => 5,
            BoostInstruction::Withdraw => 6,
            BoostInstruction::Activate => 100,
            BoostInstruction::Deactivate => 101,
            BoostInstruction::Initialize => 102,
            BoostInstruction::New => 103,
            BoostInstruction::UpdateAdmin => 104,
            BoostInstruction::UpdateBoost => 105,
        }
    }

    pub fn tag(self) -> (r: u8)
        ensures
            r == self.spec_tag(),
    {
        match self {
            BoostInstruction::Claim => 0,
            BoostInstruction::Deposit => 1,
            BoostInstruction::Open => 2,
            BoostInstruction::Rebase => 3,
            BoostInstruction::Register => 4,
            BoostInstruction::Rotate => 5,
            BoostInstruction::Withdraw => 6,
            BoostInstruction::Activate => 100,
            BoostInstruction::Deactivate => 101,
            BoostInstruction::Initialize => 102,
            BoostInstruction::New => 103,
            BoostInstruction::UpdateAdmin => 104,
            BoostInstruction::UpdateBoost => 105,
        }
    }

    /// The one-byte wire form of the operation tag.
    pub fn to_vec(&self) -> (r: Vec<u8>)
        ensures
            r@ == seq![self.spec_tag()],
    {
        let v: Vec<u8> = vec![self.tag()];
        proof {
            assert(v@ =~= seq![self.spec_tag()]);
        }
        v
    }
}

/// The seeds of the global boost record for one mint.
pub open spec fn spec_boost_seeds(mint: Seq<u8>) -> Seq<Seq<u8>> {
    seq![spec_boost_seed(), mint]
}

/// The address and bump of the global boost record for `mint`.
pub fn boost_pda(mint: Pubkey) -> (r: (Pubkey, u8))
    ensures
        (r.0@, r.1) == spec_find_pda(spec_boost_seeds(mint@), spec_global_boost_id()),
{
    let seeds: Vec<Vec<u8>> = vec![boost_seed(), mint.to_vec()];
    proof {
        assert(seeds.deep_view() =~~= spec_boost_seeds(mint@));
    }
    find_program_address(&seeds, &global_boost_id())
}

/// The seeds of the global boost checkpoint record for one boost.
pub open spec fn spec_checkpoint_seeds(boost: Seq<u8>) -> Seq<Seq<u8>> {
    seq![spec_boost_checkpoint_seed(), boost]
}

/// The address and bump of the checkpoint record for `boost`.
pub fn checkpoint_pda(boost: Pubkey) -> (r: (Pubkey, u8))
    ensures
        (r.0@, r.1) == spec_find_pda(spec_checkpoint_seeds(boost@), spec_global_boost_id()),
{
    let seeds: Vec<Vec<u8>> = vec![boost_checkpoint_seed(), boost.to_vec()];
    proof {
        assert(seeds.deep_view() =~~= spec_checkpoint_seeds(boost@));
    }
    find_program_address(&seeds, &global_boost_id())
}

/// The seeds of the global boost config record.
pub open spec fn spec_config_seeds() -> Seq<Seq<u8>> {
    seq![spec_boost_config_seed()]
}

/// The address and bump of the global boost config record.
pub fn config_pda() -> (r: (Pubkey, u8))
    ensures
        (r.0@, r.1) == spec_find_pda(spec_config_seeds(), spec_global_boost_id()),
{
    let seeds: Vec<Vec<u8>> = vec![boost_config_seed()];
    proof {
        assert(seeds.deep_view() =~~= spec_config_seeds());
    }
    find_program_address(&seeds, &global_boost_id())
}

/// The seeds of the global boost directory record.
pub open spec fn spec_directory_seeds() -> Seq<Seq<u8>> {
    seq![spec_boost_directory_seed()]
}

/// The address and bump of the global boost directory record.
pub fn directory_pda() -> (r: (Pubkey, u8))
    ensures
        (r.0@, r.1) == spec_find_pda(spec_directory_seeds(), spec_global_boost_id()),
{
    let seeds: Vec<Vec<u8>> = vec![boost_directory_seed()];
    proof {
        assert(seeds.deep_view() =~~= spec_directory_seeds());
    }
    find_program_address(&seeds, &global_boost_id())
}

/// The seeds of the global boost reservation record for one proof.
pub open spec fn spec_reservation_seeds(proof: Seq<u8>) -> Seq<Seq<u8>> {
    seq![spec_boost_reservation_seed(), proof]
}

/// The address and bump of the reservation record for `proof`.
pub fn reservation_pda(proof: Pubkey) -> (r: (Pubkey, u8))
    ensures
        (r.0@, r.1) == spec_find_pda(spec_reservation_seeds(proof@), spec_global_boost_id()),
{
    let seeds: Vec<Vec<u8>> = vec![boost_reservation_seed(), proof.to_vec()];
    proof {
        assert(seeds.deep_view() =~~= spec_reservation_seeds(proof@));
    }
    find_program_address(&seeds, &global_boost_id())
}

/// The seeds of the global boost stake record for one authority and boost.
pub open spec fn spec_stake_seeds(authority: Seq<u8>, boost: Seq<u8>) -> Seq<Seq<u8>> {
    seq![spec_boost_stake_seed(), authority, boost]
}

/// The address and bump of the stake record of `authority` in `boost`.
pub fn stake_pda(authority: Pubkey, boost: Pubkey) -> (r: (Pubkey, u8))
    ensures
        (r.0@, r.1) == spec_find_pda(spec_stake_seeds(authority@, boost@), spec_global_boost_id()),
{
    let seeds: Vec<Vec<u8>> = vec![boost_stake_seed(), authority.to_vec(), boost.to_vec()];
    proof {
        assert(seeds.deep_view() =~~= spec_stake_seeds(authority@, boost@));
    }
    find_program_address(&seeds, &global_boost_id())
}

/// Builds the global boost initialize operation for `signer`.
pub fn initialize(signer: Pubkey) -> (r: Instruction)
    ensures
        r.program_id@ == spec_global_boost_id(),
        r.data@ == seq![BoostInstruction::Initialize.spec_tag()],
        r.accounts@.len() == 4,
        is_meta(r.accounts@[0], signer@, true, true),
        is_meta(
            r.accounts@[1],
            spec_find_pda(spec_config_seeds(), spec_global_boost_id()).0,
            false,
            true,
        ),
        is_meta(
            r.accounts@[2],
            spec_find_pda(spec_directory_seeds(), spec_global_boost_id()).0,
            false,
            true,
        ),
        is_meta(r.accounts@[3], spec_system_program_id(), false, false),
{
    let config_address = config_pda();
    let directory_address = directory_pda();
    let mut accounts: Vec<AccountMeta> = Vec::new();
    accounts.push(AccountMeta::new(signer, true));
    accounts.push(AccountMeta::new(config_address.0, false));
    accounts.push(AccountMeta::new(directory_address.0, false));
    accounts.push(AccountMeta::new_readonly(crate::consts::system_program_id(), false));
    Instruction {
        program_id: global_boost_id(),
        accounts,
        data: BoostInstruction::Initialize.to_vec(),
    }
}

/// Builds the global boost register operation for `signer`, funding the
/// reservation of `proof` from `payer`.
pub fn register(signer: Pubkey, payer: Pubkey, proof: Pubkey) -> (r: Instruction)
    ensures
        r.program_id@ == spec_global_boost_id(),
        r.data@ == seq![BoostInstruction::Register.spec_tag()],
        r.accounts@.len() == 5,
        is_meta(r.accounts@[0], signer@, true, true),
        is_meta(r.accounts@[1], payer@, true, true),
        is_meta(r.accounts@[2], proof@, false, false),
        is_meta(
            r.accounts@[3],
            spec_find_pda(spec_reservation_seeds(proof@), spec_global_boost_id()).0,
            false,
            true,
        ),
        is_meta(r.accounts@[4], spec_system_program_id(), false, false),
{
    let reservation_address = reservation_pda(proof);
    let mut accounts: Vec<AccountMeta> = Vec::new();
    accounts.push(AccountMeta::new(signer, true));
    accounts.push(AccountMeta::new(payer, true));
    accounts.push(AccountMeta::new_readonly(proof, false));
    accounts.push(AccountMeta::new(reservation_address.0, false));
    accounts.push(AccountMeta::new_readonly(crate::consts::system_program_id(), false));
    Instruction {
        program_id: global_boost_id(),
        accounts,
        data: BoostInstruction::Register.to_vec(),
    }
}

/// Builds the global boost rotate operation for `signer` over the
/// reservation of `proof`.
pub fn rotate(signer: Pubkey, proof: Pubkey) -> (r: Instruction)
    ensures
        r.program_id@ == spec_global_boost_id(),
        r.data@ == seq![BoostInstruction::Rotate.spec_tag()],
        r.accounts@.len() == 5,
        is_meta(r.accounts@[0], signer@, true, true),
        is_meta(
            r.accounts@[1],
            spec_find_pda(spec_directory_seeds(), spec_global_boost_id()).0,
            false,
            false,
        ),
        is_meta(r.accounts@[2], proof@, false, false),
        is_meta(
            r.accounts@[3],
            spec_find_pda(spec_reservation_seeds(proof@), spec_global_boost_id()).0,
            false,
            true,
        ),
        is_meta(
            r.accounts@[4],
            crate::pda::spec_ata(
                crate::pda::spec_ore_treasury_address(),
                crate::pda::spec_ore_mint_address(),
            ),
            false,
            false,
        ),
{
    let directory_address = directory_pda();
    let reservation_address = reservation_pda(proof);
    let treasury = crate::pda::ore_treasury_address();
    let mint = crate::pda::ore_mint_address();
    let treasury_tokens = crate::pda::associated_token_address(&treasury, &mint);
    let mut accounts: Vec<AccountMeta> = Vec::new();
    accounts.push(AccountMeta::new(signer, true));
    accounts.push(AccountMeta::new_readonly(directory_address.0, false));
    accounts.push(AccountMeta::new_readonly(proof, false));
    accounts.push(AccountMeta::new(reservation_address.0, false));
    accounts.push(AccountMeta::new_readonly(treasury_tokens, false));
    Instruction {
        program_id: global_boost_id(),
        accounts,
        data: BoostInstruction::Rotate.to_vec(),
    }
}

} // verus!
