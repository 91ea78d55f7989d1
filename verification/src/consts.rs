//! The fixed addresses and seed tags that the program derives and checks
//! accounts against. Each address is written out as its 32 raw bytes; the
//! doc comment gives the usual base58 spelling.

use vstd::prelude::*;
use crate::pubkey::Pubkey;

verus! {

/// This delegation program's own declared address (`J6XAzG8S5KmoBM8GcCFfF8NmtzD7U3QPnbhNiYwsu9we`).
pub open spec fn spec_id() -> Seq<u8> {
    seq![
        254u8, 0u8, 178u8, 150u8, 10u8, 180u8, 8u8, 8u8, 189u8, 151u8, 162u8, 33u8,
        132u8, 15u8, 199u8, 113u8, 28u8, 169u8, 249u8, 57u8, 120u8, 147u8, 200u8, 178u8,
        177u8, 142u8, 228u8, 105u8, 174u8, 111u8, 39u8, 193u8,
    ]
}

pub fn id() -> (r: Pubkey)
    ensures
        r@ == spec_id(),
{
    let k = Pubkey::new([254, 0, 178, 150, 10, 180, 8, 8, 189, 151, 162, 33, 132, 15, 199, 113, 28, 169, 249, 57, 120, 147, 200, 178, 177, 142, 228, 105, 174, 111, 39, 193]);
    proof {
        assert(k@ =~= spec_id());
    }
    k
}

/// The ore mining program's declared address (`oreV2ZymfyeXgNgBdqMkumTqqAprVqgBWQfoYkrtKWQ`).
pub open spec fn spec_ore_program_id() -> Seq<u8> {
    seq![
        12u8, 0u8, 218u8, 56u8, 141u8, 104u8, 231u8, 117u8, 177u8, 181u8, 197u8, 109u8,
        1u8, 141u8, 62u8, 76u8, 214u8, 134u8, 116u8, 12u8, 241u8, 199u8, 17u8, 129u8,
        167u8, 81u8, 49u8, 80u8, 203u8, 81u8, 31u8, 217u8,
    ]
}

pub fn ore_program_id() -> (r: Pubkey)
    ensures
        r@ == spec_ore_program_id(),
{
    let k = Pubkey::new([12, 0, 218, 56, 141, 104, 231, 117, 177, 181, 197, 109, 1, 141, 62, 76, 214, 134, 116, 12, 241, 199, 17, 129, 167, 81, 49, 80, 203, 81, 31, 217]);
    proof {
        assert(k@ =~= spec_ore_program_id());
    }
    k
}

/// The ore boost program's declared address (`BoostzzkNfCA9D1qNuN5xZxB5ErbK4zQuBeTHGDpXT1`).
pub open spec fn spec_ore_boost_program_id() -> Seq<u8> {
    seq![
        2u8, 196u8, 187u8, 252u8, 248u8, 156u8, 220u8, 145u8, 18u8, 64u8, 180u8, 77u8,
        110u8, 123u8, 210u8, 253u8, 65u8, 15u8, 40u8, 116u8, 141u8, 187u8, 34u8, 85u8,
        232u8, 1u8, 236u8, 212u8, 48u8, 69u8, 84u8, 148u8,
    ]
}

pub fn ore_boost_program_id() -> (r: Pubkey)
    ensures
        r@ == spec_ore_boost_program_id(),
{
    let k = Pubkey::new([2, 196, 187, 252, 248, 156, 220, 145, 18, 64, 180, 77, 110, 123, 210, 253, 65, 15, 40, 116, 141, 187, 34, 85, 232, 1, 236, 212, 48, 69, 84, 148]);
    proof {
        assert(k@ =~= spec_ore_boost_program_id());
    }
    k
}

/// The global boost program's declared address (`BoosTyJFPPtrqJTdi49nnztoEWDJXfDRhyb2fha6PPy`).
pub open spec fn spec_global_boost_id() -> Seq<u8> {
    seq![
        2u8, 196u8, 187u8, 243u8, 119u8, 26u8, 105u8, 115u8, 162u8, 106u8, 23u8, 135u8,
        162u8, 180u8, 170u8, 158u8, 190u8, 135u8, 207u8, 60u8, 9u8, 219u8, 148u8, 63u8,
        84u8, 244u8, 142u8, 212u8, 195u8, 237u8, 3u8, 36u8,
    ]
}

pub fn global_boost_id() -> (r: Pubkey)
    ensures
        r@ == spec_global_boost_id(),
{
    let k = Pubkey::new([2, 196, 187, 243, 119, 26, 105, 115, 162, 106, 23, 135, 162, 180, 170, 158, 190, 135, 207, 60, 9, 219, 148, 63, 84, 244, 142, 212, 195, 237, 3, 36]);
    proof {
        assert(k@ =~= spec_global_boost_id());
    }
    k
}

/// The token program's declared address (`TokenkegQfeZyiNwAJbNbGKPFXCWuBvf9Ss623VQ5DA`).
pub open spec fn spec_spl_token_id() -> Seq<u8> {
    seq![
        6u8, 221u8, 246u8, 225u8, 215u8, 101u8, 161u8, 147u8, 217u8, 203u8, 225u8, 70u8,
        206u8, 235u8, 121u8, 172u8, 28u8, 180u8, 133u8, 237u8, 95u8, 91u8, 55u8, 145u8,
        58u8, 140u8, 245u8, 133u8, 126u8, 255u8, 0u8, 169u8,
    ]
}

pub fn spl_token_id() -> (r: Pubkey)
    ensures
        r@ == spec_spl_token_id(),
{
    let k = Pubkey::new([6, 221, 246, 225, 215, 101, 161, 147, 217, 203, 225, 70, 206, 235, 121, 172, 28, 180, 133, 237, 95, 91, 55, 145, 58, 140, 245, 133, 126, 255, 0, 169]);
    proof {
        assert(k@ =~= spec_spl_token_id());
    }
    k
}

/// The system program's declared address (`11111111111111111111111111111111`).
pub open spec fn spec_system_program_id() -> Seq<u8> {
    seq![
        0u8, 0u8, 0u8, 0u8, 0u8, 0u8, 0u8, 0u8, 0u8, 0u8, 0u8, 0u8,
        0u8, 0u8, 0u8, 0u8, 0u8, 0u8, 0u8, 0u8, 0u8, 0u8, 0u8, 0u8,
        0u8, 0u8, 0u8, 0u8, 0u8, 0u8, 0u8, 0u8,
    ]
}

pub fn system_program_id() -> (r: Pubkey)
    ensures
        r@ == spec_system_program_id(),
{
    let k = Pubkey::new([0, 0, 0, 0, 0, 0, 0, 0, 0, 0, 0, 0, 0, 0, 0, 0, 0, 0, 0, 0, 0, 0, 0, 0, 0, 0, 0, 0, 0, 0, 0, 0]);
    proof {
        assert(k@ =~= spec_system_program_id());
    }
    k
}

/// The rent sysvar's address (`SysvarRent111111111111111111111111111111111`).
pub open spec fn spec_rent_sysvar_id() -> Seq<u8> {
    seq![
        6u8, 167u8, 213u8, 23u8, 25u8, 44u8, 92u8, 81u8, 33u8, 140u8, 201u8, 76u8,
        61u8, 74u8, 241u8, 127u8, 88u8, 218u8, 238u8, 8u8, 155u8, 161u8, 253u8, 68u8,
        227u8, 219u8, 217u8, 138u8, 0u8, 0u8, 0u8, 0u8,
    ]
}

pub fn rent_sysvar_id() -> (r: Pubkey)
    ensures
        r@ == spec_rent_sysvar_id(),
{
    let k = Pubkey::new([6, 167, 213, 23, 25, 44, 92, 81, 33, 140, 201, 76, 61, 74, 241, 127, 88, 218, 238, 8, 155, 161, 253, 68, 227, 219, 217, 138, 0, 0, 0, 0]);
    proof {
        assert(k@ =~= spec_rent_sysvar_id());
    }
    k
}

/// The slot-hashes sysvar's address (`SysvarS1otHashes111111111111111111111111111`).
pub open spec fn spec_slot_hashes_sysvar_id() -> Seq<u8> {
    seq![
        6u8, 167u8, 213u8, 23u8, 25u8, 47u8, 10u8, 175u8, 198u8, 242u8, 101u8, 227u8,
        251u8, 119u8, 204u8, 122u8, 218u8, 130u8, 197u8, 41u8, 208u8, 190u8, 59u8, 19u8,
        110u8, 45u8, 0u8, 85u8, 32u8, 0u8, 0u8, 0u8,
    ]
}

pub fn slot_hashes_sysvar_id() -> (r: Pubkey)
    ensures
        r@ == spec_slot_hashes_sysvar_id(),
{
    let k = Pubkey::new([6, 167, 213, 23, 25, 47, 10, 175, 198, 242, 101, 227, 251, 119, 204, 122, 218, 130, 197, 41, 208, 190, 59, 19, 110, 45, 0, 85, 32, 0, 0, 0]);
    proof {
        assert(k@ =~= spec_slot_hashes_sysvar_id());
    }
    k
}

/// The instructions sysvar's address (`Sysvar1nstructions1111111111111111111111111`).
pub open spec fn spec_instructions_sysvar_id() -> Seq<u8> {
    seq![
        6u8, 167u8, 213u8, 23u8, 24u8, 123u8, 209u8, 102u8, 53u8, 218u8, 212u8, 4u8,
        85u8, 253u8, 194u8, 192u8, 193u8, 36u8, 198u8, 143u8, 33u8, 86u8, 117u8, 165u8,
        219u8, 186u8, 203u8, 95u8, 8u8, 0u8, 0u8, 0u8,
    ]
}

pub fn instructions_sysvar_id() -> (r: Pubkey)
    ensures
        r@ == spec_instructions_sysvar_id(),
{
    let k = Pubkey::new([6, 167, 213, 23, 24, 123, 209, 102, 53, 218, 212, 4, 85, 253, 194, 192, 193, 36, 198, 143, 33, 86, 117, 165, 219, 186, 203, 95, 8, 0, 0, 0]);
    proof {
        assert(k@ =~= spec_instructions_sysvar_id());
    }
    k
}




/// Seed tag of pool records: the bytes of `"managed-proof-account"`.
pub open spec fn spec_managed_proof_seed() -> Seq<u8> {
    seq![
        109u8, 97u8, 110u8, 97u8, 103u8, 101u8, 100u8, 45u8, 112u8, 114u8, 111u8, 111u8,
        102u8, 45u8, 97u8, 99u8, 99u8, 111u8, 117u8, 110u8, 116u8,
    ]
}

pub fn managed_proof_seed() -> (r: Vec<u8>)
    ensures
        r@ == spec_managed_proof_seed(),
{
    let v: Vec<u8> = vec![109u8, 97u8, 110u8, 97u8, 103u8, 101u8, 100u8, 45u8, 112u8, 114u8, 111u8, 111u8, 102u8, 45u8, 97u8, 99u8, 99u8, 111u8, 117u8, 110u8, 116u8];
    proof {
        assert(v@ =~= spec_managed_proof_seed());
    }
    v
}

/// Seed tag of primary share ledgers: the bytes of `"delegated-stake"`.
pub open spec fn spec_delegated_stake_seed() -> Seq<u8> {
    seq![
        100u8, 101u8, 108u8, 101u8, 103u8, 97u8, 116u8, 101u8, 100u8, 45u8, 115u8, 116u8,
        97u8, 107u8, 101u8,
    ]
}

pub fn delegated_stake_seed() -> (r: Vec<u8>)
    ensures
        r@ == spec_delegated_stake_seed(),
{
    let v: Vec<u8> = vec![100u8, 101u8, 108u8, 101u8, 103u8, 97u8, 116u8, 101u8, 100u8, 45u8, 115u8, 116u8, 97u8, 107u8, 101u8];
    proof {
        assert(v@ =~= spec_delegated_stake_seed());
    }
    v
}

/// Seed tag of v1 boost share ledgers: the bytes of `"delegated-boost"`.
pub open spec fn spec_delegated_boost_seed() -> Seq<u8> {
    seq![
        100u8, 101u8, 108u8, 101u8, 103u8, 97u8, 116u8, 101u8, 100u8, 45u8, 98u8, 111u8,
        111u8, 115u8, 116u8,
    ]
}

pub fn delegated_boost_seed() -> (r: Vec<u8>)
    ensures
        r@ == spec_delegated_boost_seed(),
{
    let v: Vec<u8> = vec![100u8, 101u8, 108u8, 101u8, 103u8, 97u8, 116u8, 101u8, 100u8, 45u8, 98u8, 111u8, 111u8, 115u8, 116u8];
    proof {
        assert(v@ =~= spec_delegated_boost_seed());
    }
    v
}

/// Seed tag of v2 boost share ledgers: the bytes of `"delegated-boost-v2"`.
pub open spec fn spec_delegated_boost_v2_seed() -> Seq<u8> {
    seq![
        100u8, 101u8, 108u8, 101u8, 103u8, 97u8, 116u8, 101u8, 100u8, 45u8, 98u8, 111u8,
        111u8, 115u8, 116u8, 45u8, 118u8, 50u8,
    ]
}

pub fn delegated_boost_v2_seed() -> (r: Vec<u8>)
    ensures
        r@ == spec_delegated_boost_v2_seed(),
{
    let v: Vec<u8> = vec![100u8, 101u8, 108u8, 101u8, 103u8, 97u8, 116u8, 101u8, 100u8, 45u8, 98u8, 111u8, 111u8, 115u8, 116u8, 45u8, 118u8, 50u8];
    proof {
        assert(v@ =~= spec_delegated_boost_v2_seed());
    }
    v
}

/// Seed tag of the ore program's proof records: the bytes of `"proof"`.
pub open spec fn spec_ore_proof_seed() -> Seq<u8> {
    seq![
        112u8, 114u8, 111u8, 111u8, 102u8,
    ]
}

pub fn ore_proof_seed() -> (r: Vec<u8>)
    ensures
        r@ == spec_ore_proof_seed(),
{
    let v: Vec<u8> = vec![112u8, 114u8, 111u8, 111u8, 102u8];
    proof {
        assert(v@ =~= spec_ore_proof_seed());
    }
    v
}

/// Seed tag of the boost program's boost records: the bytes of `"boost"`.
pub open spec fn spec_boost_seed() -> Seq<u8> {
    seq![
        98u8, 111u8, 111u8, 115u8, 116u8,
    ]
}

pub fn boost_seed() -> (r: Vec<u8>)
    ensures
        r@ == spec_boost_seed(),
{
    let v: Vec<u8> = vec![98u8, 111u8, 111u8, 115u8, 116u8];
    proof {
        assert(v@ =~= spec_boost_seed());
    }
    v
}

/// Seed tag of the boost program's config record: the bytes of `"config"`.
pub open spec fn spec_boost_config_seed() -> Seq<u8> {
    seq![
        99u8, 111u8, 110u8, 102u8, 105u8, 103u8,
    ]
}

pub fn boost_config_seed() -> (r: Vec<u8>)
    ensures
        r@ == spec_boost_config_seed(),
{
    let v: Vec<u8> = vec![99u8, 111u8, 110u8, 102u8, 105u8, 103u8];
    proof {
        assert(v@ =~= spec_boost_config_seed());
    }
    v
}

/// Seed tag of the boost program's stake records: the bytes of `"stake"`.
pub open spec fn spec_boost_stake_seed() -> Seq<u8> {
    seq![
        115u8, 116u8, 97u8, 107u8, 101u8,
    ]
}

pub fn boost_stake_seed() -> (r: Vec<u8>)
    ensures
        r@ == spec_boost_stake_seed(),
{
    let v: Vec<u8> = vec![115u8, 116u8, 97u8, 107u8, 101u8];
    proof {
        assert(v@ =~= spec_boost_stake_seed());
    }
    v
}

/// Seed tag of the global boost directory record: the bytes of `"directory"`.
pub open spec fn spec_boost_directory_seed() -> Seq<u8> {
    seq![
        100u8, 105u8, 114u8, 101u8, 99u8, 116u8, 111u8, 114u8, 121u8,
    ]
}

pub fn boost_directory_seed() -> (r: Vec<u8>)
    ensures
        r@ == spec_boost_directory_seed(),
{
    let v: Vec<u8> = vec![100u8, 105u8, 114u8, 101u8, 99u8, 116u8, 111u8, 114u8, 121u8];
    proof {
        assert(v@ =~= spec_boost_directory_seed());
    }
    v
}

/// Seed tag of the global boost checkpoint records: the bytes of `"checkpoint"`.
pub open spec fn spec_boost_checkpoint_seed() -> Seq<u8> {
    seq![
        99u8, 104u8, 101u8, 99u8, 107u8, 112u8, 111u8, 105u8, 110u8, 116u8,
    ]
}

pub fn boost_checkpoint_seed() -> (r: Vec<u8>)
    ensures
        r@ == spec_boost_checkpoint_seed(),
{
    let v: Vec<u8> = vec![99u8, 104u8, 101u8, 99u8, 107u8, 112u8, 111u8, 105u8, 110u8, 116u8];
    proof {
        assert(v@ =~= spec_boost_checkpoint_seed());
    }
    v
}

/// Seed tag of the global boost reservation records: the bytes of `"reservation"`.
pub open spec fn spec_boost_reservation_seed() -> Seq<u8> {
    seq![
        114u8, 101u8, 115u8, 101u8, 114u8, 118u8, 97u8, 116u8, 105u8, 111u8, 110u8,
    ]
}

pub fn boost_reservation_seed() -> (r: Vec<u8>)
    ensures
        r@ == spec_boost_reservation_seed(),
{
    let v: Vec<u8> = vec![114u8, 101u8, 115u8, 101u8, 114u8, 118u8, 97u8, 116u8, 105u8, 111u8, 110u8];
    proof {
        assert(v@ =~= spec_boost_reservation_seed());
    }
    v
}

/// Seed tag of the ore program's config record: the bytes of `"config"`.
pub open spec fn spec_ore_config_seed() -> Seq<u8> {
    seq![99u8, 111u8, 110u8, 102u8, 105u8, 103u8]
}

pub fn ore_config_seed() -> (r: Vec<u8>)
    ensures
        r@ == spec_ore_config_seed(),
{
    let v: Vec<u8> = vec![99u8, 111u8, 110u8, 102u8, 105u8, 103u8];
    proof {
        assert(v@ =~= spec_ore_config_seed());
    }
    v
}

/// Seed tag of the ore token mint: the bytes of `"mint"`.
pub open spec fn spec_ore_mint_seed() -> Seq<u8> {
    seq![109u8, 105u8, 110u8, 116u8]
}

pub fn ore_mint_seed() -> (r: Vec<u8>)
    ensures
        r@ == spec_ore_mint_seed(),
{
    let v: Vec<u8> = vec![109u8, 105u8, 110u8, 116u8];
    proof {
        assert(v@ =~= spec_ore_mint_seed());
    }
    v
}

/// The fixed noise bytes salted into the ore mint derivation.
pub open spec fn spec_ore_mint_noise() -> Seq<u8> {
    seq![
        89u8, 157u8, 88u8, 232u8, 243u8, 249u8, 197u8, 132u8, 199u8, 49u8, 19u8, 234u8,
        91u8, 94u8, 150u8, 41u8,
    ]
}

pub fn ore_mint_noise() -> (r: Vec<u8>)
    ensures
        r@ == spec_ore_mint_noise(),
{
    let v: Vec<u8> = vec![
        89u8, 157u8, 88u8, 232u8, 243u8, 249u8, 197u8, 132u8, 199u8, 49u8, 19u8, 234u8,
        91u8, 94u8, 150u8, 41u8,
    ];
    proof {
        assert(v@ =~= spec_ore_mint_noise());
    }
    v
}

/// Seed tag of the ore treasury: the bytes of `"treasury"`.
pub open spec fn spec_ore_treasury_seed() -> Seq<u8> {
    seq![116u8, 114u8, 101u8, 97u8, 115u8, 117u8, 114u8, 121u8]
}

pub fn ore_treasury_seed() -> (r: Vec<u8>)
    ensures
        r@ == spec_ore_treasury_seed(),
{
    let v: Vec<u8> = vec![116u8, 114u8, 101u8, 97u8, 115u8, 117u8, 114u8, 121u8]; 
    proof {
        assert(v@ =~= spec_ore_treasury_seed());
    }
    v
}

} // verus!