//! The engine's view of one account handed to an operation: its address,
//! its owner, the signer/writable flags the environment attests, its
//! storage-deposit balance and its raw data.

use vstd::prelude::*;
use crate::pubkey::Pubkey;

verus! {

/// One account as an operation sees it. The hosting environment guarantees
/// exclusive access to every account an operation names for the whole
/// operation.
#[derive(Debug)]
pub struct Account {
    /// The account's address.
    pub key: Pubkey,
    /// The program that owns (may mutate) the account.
    pub owner: Pubkey,
    /// Whether the holder of `key` signed this operation.
    pub is_signer: bool,
    /// Whether the environment lets this operation write the account.
    pub is_writable: bool,
    /// Whether the account is an executable program.
    pub executable: bool,
    /// The account's storage-deposit balance.
    pub lamports: u64,
    /// The account's stored bytes.
    pub data: Vec<u8>,
}

impl Account {
    /// An uninitialized account holds no data.
    pub open spec fn spec_data_is_empty(self) -> bool {
        self.data@.len() == 0
    }

    pub fn data_is_empty(&self) -> (r: bool)
        ensures
            r == self.spec_data_is_empty(),
    {
        self.data.len() == 0
    }
}

} // verus!
