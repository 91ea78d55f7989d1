//! Error taxonomy. `ProgramError` mirrors the failure classes the hosting
//! environment understands; `OreDelegationError` carries this program's own
//! business-rule failures, surfaced as `ProgramError::Custom` codes.

use vstd::prelude::*;

verus! {

/// Failure of one logical operation. Any error aborts the whole operation
/// with no partial effect.
#[derive(Clone, Copy, Debug, PartialEq, Eq, Structural)]
pub enum ProgramError {
    /// A program-specific error code (see `OreDelegationError`).
    Custom(u32),
    /// Fewer accounts were supplied than the operation names.
    NotEnoughAccountKeys,
    /// A financially sensitive operation was attempted without the required
    /// signature.
    MissingRequiredSignature,
    /// An account's contents or address do not match what the operation
    /// re-derived for it.
    InvalidAccountData,
    /// An account is not owned by this program.
    InvalidAccountOwner,
    /// An account that must already exist has no data.
    UninitializedAccount,
    /// An account that must not exist yet already holds data.
    AccountAlreadyInitialized,
    /// A supplied program account is not the expected program.
    IncorrectProgramId,
    /// A supplied sysvar account is not the expected sysvar.
    UnsupportedSysvar,
    /// The instruction payload could not be decoded.
    InvalidInstructionData,
    /// A derived-address computation rejected the given seeds.
    InvalidSeeds,
    /// A checked add, subtract, multiply or divide left its range.
    ArithmeticOverflow,
    /// A debit asked for more than the ledger holds.
    InsufficientFunds,
}

/// Business-rule failures of the delegation program, stable codes `0..=3`.
#[derive(Clone, Copy, Debug, PartialEq, Eq, Structural)]
pub enum OreDelegationError {
    /// A boost deposit arrived outside the open stake window.
    StakeWindowClosed,
    /// A ledger with outstanding shares cannot be closed.
    CannotCloseAccountWithBalance,
    /// Only the fee payer recorded at initialization may reclaim the
    /// ledger's storage deposit.
    CloseAccountFeePayerMissmatch,
    /// The requested instruction has been removed from the program.
    InstructionRemoved,
}

impl OreDelegationError {
    /// The stable numeric code carried in `ProgramError::Custom`.
    pub open spec fn spec_code(self) -> u32 {
        match self {
            OreDelegationError::StakeWindowClosed => 0,
            OreDelegationError::CannotCloseAccountWithBalance => 1,
            OreDelegationError::CloseAccountFeePayerMissmatch => 2,
            OreDelegationError::InstructionRemoved => 3,
        }
    }

    pub fn code(self) -> (r: u32)
        ensures
            r == self.spec_code(),
    {
        match self {
            OreDelegationError::StakeWindowClosed => 0,
            OreDelegationError::CannotCloseAccountWithBalance => 1,
            OreDelegationError::CloseAccountFeePayerMissmatch => 2,
            OreDelegationError::InstructionRemoved => 3,
        }
    }

    /// A short description of the failure.
    pub fn message(self) -> (r: &'static str)
    {
        match self {
            OreDelegationError::StakeWindowClosed => "Stake delegation window is currently closed",
            OreDelegationError::CannotCloseAccountWithBalance => "Cannot close account with balance",
            OreDelegationError::CloseAccountFeePayerMissmatch => "Init account fee payer must match provided payer",
            OreDelegationError::InstructionRemoved => "Instruction has been removed",
        }
    }
}

impl From<OreDelegationError> for ProgramError {
    fn from(e: OreDelegationError) -> (r: ProgramError)
    {
        ProgramError::Custom(e.code())
    }
}

impl vstd::std_specs::convert::FromSpecImpl<OreDelegationError> for ProgramError {
    open spec fn obeys_from_spec() -> bool {
        true
    }

    open spec fn from_spec(e: OreDelegationError) -> ProgramError {
        ProgramError::Custom(e.spec_code())
    }
}

} // verus!
