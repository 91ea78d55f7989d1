//! Delegated mining-pool accounting: a single operator identity accrues
//! rewards into a pool, and stakers hold proportional shares of the pool's
//! backing balance through per-staker ledgers. Every mutating operation
//! re-derives and checks the canonical address of each account it touches
//! before trusting it, and any failure aborts the whole operation with no
//! partial effect.

use vstd::prelude::*;

pub mod pubkey;
pub mod error;
pub mod consts;
pub mod utils;
pub mod state;
pub mod pda;
pub mod account;
pub mod loaders;
pub mod shares;
pub mod instruction;
pub mod window;
pub mod global_boost;
pub mod processor;

use crate::error::{OreDelegationError, ProgramError};
use crate::instruction::Instructions;
use crate::pubkey::Pubkey;

verus! {

/// What decoding an instruction decides: the program addressed must be this
/// one, the payload must start with a known operation tag, and the v1 boost
/// operations, which only survive as migration sources, are refused as
/// removed.
pub open spec fn spec_process_instruction(program_id: Seq<u8>, instruction_data: Seq<u8>) -> Result<
    Instructions,
    ProgramError,
> {
    if program_id != consts::spec_id() {
        Err(ProgramError::IncorrectProgramId)
    } else if instruction_data.len() == 0 {
        Err(ProgramError::InvalidInstructionData)
    } else {
        match Instructions::spec_from_u8(instruction_data[0]) {
            None => Err(ProgramError::InvalidInstructionData),
            Some(instruction) => if instruction == Instructions::DelegateBoost || instruction
                == Instructions::UndelegateBoost || instruction
                == Instructions::InitDelegateBoost {
                Err(ProgramError::Custom(OreDelegationError::InstructionRemoved.spec_code()))
            } else {
                Ok(instruction)
            },
        }
    }
}

/// Decodes one submitted operation: checks the addressed program is this
/// one, reads the leading tag, and hands back the operation together with
/// the argument bytes that follow the tag. The removed v1 boost operations
/// are refused.
pub fn process_instruction(program_id: &Pubkey, instruction_data: &[u8]) -> (r: Result<
    (Instructions, Vec<u8>),
    ProgramError,
>)
    ensures
        ({
            let outcome = spec_process_instruction(program_id@, instruction_data@);
            &&& (r is Ok <==> outcome is Ok)
            &&& (r is Err ==> r->Err_0 == outcome->Err_0)
            &&& (r is Ok ==> {
                &&& r->Ok_0.0 == outcome->Ok_0
                &&& r->Ok_0.1@ == instruction_data@.skip(1)
            })
        }),
{
    if program_id != &consts::id() {
        return Err(ProgramError::IncorrectProgramId);
    }
    if instruction_data.len() == 0 {
        return Err(ProgramError::InvalidInstructionData);
    }
    let tag = *vstd::slice::slice_index_get(instruction_data, 0);
    let instruction = match Instructions::from_u8(tag) {
        Some(i) => i,
        None => {
            return Err(ProgramError::InvalidInstructionData);
        },
    };
    if instruction == Instructions::DelegateBoost || instruction == Instructions::UndelegateBoost
        || instruction == Instructions::InitDelegateBoost {
        return Err(ProgramError::Custom(OreDelegationError::InstructionRemoved.code()));
    }
    let rest = vstd::slice::slice_to_vec(
        vstd::slice::slice_subrange(instruction_data, 1, instruction_data.len()),
    );
    proof {
        assert(rest@ =~= instruction_data@.skip(1));
    }
    Ok((instruction, rest))
}

} // verus!
