//! Record-type tags. Every persisted record starts with a one-byte tag that
//! names its schema; a reader rejects data whose tag is not the one it
//! expects.

use vstd::prelude::*;
use crate::error::ProgramError;

verus! {

/// The schema tag written in the first byte of each record kind.
#[derive(Clone, Copy, Debug, PartialEq, Eq, Structural)]
pub enum AccountDiscriminator {
    ManagedProof,
    DelegatedStake,
    DelegatedBoost,
    DelegatedBoostV2,
}

impl AccountDiscriminator {
    /// The stable byte value of the tag.
    pub open spec fn spec_tag(self) -> u8 {
        match self {
            AccountDiscriminator::ManagedProof => 100,
            AccountDiscriminator::DelegatedStake => 101,
            AccountDiscriminator::DelegatedBoost => 102,
            AccountDiscriminator::DelegatedBoostV2 => 103,
        }
    }

    pub fn tag(self) -> (r: u8)
        ensures
            r == self.spec_tag(),
    {
        match self {
            AccountDiscriminator::ManagedProof => 100,
            AccountDiscriminator::DelegatedStake => 101,
            AccountDiscriminator::DelegatedBoost => 102,
            AccountDiscriminator::DelegatedBoostV2 => 103,
        }
    }
}

/// A record kind that knows its schema tag.
pub trait Discriminator {
    fn discriminator() -> AccountDiscriminator;
}

/// A record kind that can be read back out of persisted bytes.
pub trait AccountDeserialize where Self: core::marker::Sized {
    fn try_from_bytes(data: &[u8]) -> Result<Self, ProgramError>;
}

} // verus!
