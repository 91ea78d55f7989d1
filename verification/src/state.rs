//! The persisted record kinds and their byte layout. Each record is stored
//! as a one-byte schema tag, padding up to an 8-byte header, then its
//! fixed-width fields in little-endian order.

use vstd::prelude::*;
use vstd::bytes::*;
use crate::error::ProgramError;
use crate::pubkey::Pubkey;
use crate::utils::{AccountDeserialize, AccountDiscriminator, Discriminator};

verus! {

/// `n` zero bytes.
pub open spec fn zero_bytes(n: nat) -> Seq<u8> {
    Seq::new(n, |i: int| 0u8)
}

/// Pushes `n` zero bytes onto `v`.
fn push_zero_bytes(v: &mut Vec<u8>, n: usize)
    ensures
        final(v)@ == old(v)@ + zero_bytes(n as nat),
{
    let mut i: usize = 0;
    while i < n
        invariant
            i <= n,
            v@ == old(v)@ + zero_bytes(i as nat),
        decreases n - i,
    {
        v.push(0u8);
        proof {
            assert(v@ =~= old(v)@ + zero_bytes((i + 1) as nat));
        }
        i += 1;
    }
}

/// The pool record, one per operator. `total_shares` is the sum of the
/// outstanding shares of every ledger that references this pool;
/// `commission_rate_bips` is the fraction of each accrual, in basis points,
/// that is retained as backing instead of being minted to the operator.
#[derive(Clone, Copy, Debug)]
pub struct ManagedProof {
    pub bump: u8,
    pub miner_authority: Pubkey,
    pub total_shares: u64,
    pub commission_rate_bips: u16,
}

impl Discriminator for ManagedProof {
    fn discriminator() -> AccountDiscriminator {
        AccountDiscriminator::ManagedProof
    }
}

impl ManagedProof {
    /// Size of the stored record in bytes.
    pub open spec fn spec_size() -> nat {
        64
    }

    /// The commission rate never exceeds the whole (10000 basis points).
    pub open spec fn wf(self) -> bool {
        self.commission_rate_bips <= 10000
    }

    /// The stored form: tag byte, header padding, then the fields.
    pub open spec fn spec_to_bytes(self) -> Seq<u8> {
        seq![AccountDiscriminator::ManagedProof.spec_tag()] + zero_bytes(7) + seq![self.bump]
            + zero_bytes(7) + self.miner_authority@ + spec_u64_to_le_bytes(self.total_shares)
            + spec_u16_to_le_bytes(self.commission_rate_bips) + zero_bytes(6)
    }

    /// True of byte strings that `try_from_bytes` accepts.
    pub open spec fn spec_parses(d: Seq<u8>) -> bool {
        d.len() == Self::spec_size() && d[0] == AccountDiscriminator::ManagedProof.spec_tag()
    }

    pub fn to_bytes(&self) -> (r: Vec<u8>)
        ensures
            r@ == self.spec_to_bytes(),
            r@.len() == Self::spec_size(),
            Self::spec_parses(r@),
    {
        proof {
            lemma_auto_spec_u64_to_from_le_bytes();
            lemma_auto_spec_u16_to_from_le_bytes();
        }
        let mut v: Vec<u8> = Vec::new();
        v.push(AccountDiscriminator::ManagedProof.tag());
        push_zero_bytes(&mut v, 7);
        v.push(self.bump);
        push_zero_bytes(&mut v, 7);
        let mut authority = self.miner_authority.to_vec();
        v.append(&mut authority);
        let mut shares = u64_to_le_bytes(self.total_shares);
        v.append(&mut shares);
        let mut rate = u16_to_le_bytes(self.commission_rate_bips);
        v.append(&mut rate);
        push_zero_bytes(&mut v, 6);
        proof {
            assert(v@ =~= self.spec_to_bytes());
        }
        v
    }

    pub fn try_from_bytes(data: &[u8]) -> (r: Result<ManagedProof, ProgramError>)
        ensures
            r is Ok <==> Self::spec_parses(data@),
            r is Ok ==> {
                let p = r->Ok_0;
                &&& p.bump == data@[8]
                &&& p.miner_authority@ == data@.subrange(16, 48)
                &&& p.total_shares == spec_u64_from_le_bytes(data@.subrange(48, 56))
                &&& p.commission_rate_bips == spec_u16_from_le_bytes(data@.subrange(56, 58))
            },
            r is Err ==> r->Err_0 == ProgramError::InvalidAccountData,
    {
        if data.len() != 64 {
            return Err(ProgramError::InvalidAccountData);
        }
        if *vstd::slice::slice_index_get(data, 0) != AccountDiscriminator::ManagedProof.tag() {
            return Err(ProgramError::InvalidAccountData);
        }
        let bump = *vstd::slice::slice_index_get(data, 8);
        let miner_authority = Pubkey::from_slice(data, 16);
        let total_shares = u64_from_le_bytes(vstd::slice::slice_subrange(data, 48, 56));
        let commission_rate_bips = u16_from_le_bytes(vstd::slice::slice_subrange(data, 56, 58));
        Ok(ManagedProof { bump, miner_authority, total_shares, commission_rate_bips })
    }
}

impl AccountDeserialize for ManagedProof {
    fn try_from_bytes(data: &[u8]) -> Result<ManagedProof, ProgramError> {
        ManagedProof::try_from_bytes(data)
    }
}

/// The primary share ledger, one per staker and pool. `amount` is the
/// staker's outstanding shares of the pool, in pool-share units.
#[derive(Clone, Copy, Debug)]
pub struct DelegatedStake {
    pub bump: u8,
    pub amount: u64,
}

impl Discriminator for DelegatedStake {
    fn discriminator() -> AccountDiscriminator {
        AccountDiscriminator::DelegatedStake
    }
}

impl DelegatedStake {
    /// Size of the stored record in bytes.
    pub open spec fn spec_size() -> nat {
        24
    }

    /// The stored form: tag byte, header padding, then the fields.
    pub open spec fn spec_to_bytes(self) -> Seq<u8> {
        seq![AccountDiscriminator::DelegatedStake.spec_tag()] + zero_bytes(7) + seq![self.bump]
            + zero_bytes(7) + spec_u64_to_le_bytes(self.amount)
    }

    /// True of byte strings that `try_from_bytes` accepts.
    pub open spec fn spec_parses(d: Seq<u8>) -> bool {
        d.len() == Self::spec_size() && d[0] == AccountDiscriminator::DelegatedStake.spec_tag()
    }

    pub fn to_bytes(&self) -> (r: Vec<u8>)
        ensures
            r@ == self.spec_to_bytes(),
            r@.len() == Self::spec_size(),
            Self::spec_parses(r@),
    {
        proof {
            lemma_auto_spec_u64_to_from_le_bytes();
        }
        let mut v: Vec<u8> = Vec::new();
        v.push(AccountDiscriminator::DelegatedStake.tag());
        push_zero_bytes(&mut v, 7);
        v.push(self.bump);
        push_zero_bytes(&mut v, 7);
        let mut amount = u64_to_le_bytes(self.amount);
        v.append(&mut amount);
        proof {
            assert(v@ =~= self.spec_to_bytes());
        }
        v
    }

    pub fn try_from_bytes(data: &[u8]) -> (r: Result<DelegatedStake, ProgramError>)
        ensures
            r is Ok <==> Self::spec_parses(data@),
            r is Ok ==> {
                let p = r->Ok_0;
                &&& p.bump == data@[8]
                &&& p.amount == spec_u64_from_le_bytes(data@.subrange(16, 24))
            },
            r is Err ==> r->Err_0 == ProgramError::InvalidAccountData,
    {
        if data.len() != 24 {
            return Err(ProgramError::InvalidAccountData);
        }
        if *vstd::slice::slice_index_get(data, 0) != AccountDiscriminator::DelegatedStake.tag() {
            return Err(ProgramError::InvalidAccountData);
        }
        let bump = *vstd::slice::slice_index_get(data, 8);
        let amount = u64_from_le_bytes(vstd::slice::slice_subrange(data, 16, 24));
        Ok(DelegatedStake { bump, amount })
    }
}

impl AccountDeserialize for DelegatedStake {
    fn try_from_bytes(data: &[u8]) -> Result<DelegatedStake, ProgramError> {
        DelegatedStake::try_from_bytes(data)
    }
}

/// The v1 boost share ledger, one per staker, pool and reward mint.
#[derive(Clone, Copy, Debug)]
pub struct DelegatedBoost {
    pub bump: u8,
    pub managed_proof_pubkey: Pubkey,
    pub amount: u64,
}

impl Discriminator for DelegatedBoost {
    fn discriminator() -> AccountDiscriminator {
        AccountDiscriminator::DelegatedBoost
    }
}

impl DelegatedBoost {
    /// Size of the stored record in bytes.
    pub open spec fn spec_size() -> nat {
        56
    }

    /// The stored form: tag byte, header padding, then the fields.
    pub open spec fn spec_to_bytes(self) -> Seq<u8> {
        seq![AccountDiscriminator::DelegatedBoost.spec_tag()] + zero_bytes(7) + seq![self.bump]
            + zero_bytes(7) + self.managed_proof_pubkey@ + spec_u64_to_le_bytes(self.amount)
    }

    /// True of byte strings that `try_from_bytes` accepts.
    pub open spec fn spec_parses(d: Seq<u8>) -> bool {
        d.len() == Self::spec_size() && d[0] == AccountDiscriminator::DelegatedBoost.spec_tag()
    }

    pub fn to_bytes(&self) -> (r: Vec<u8>)
        ensures
            r@ == self.spec_to_bytes(),
            r@.len() == Self::spec_size(),
            Self::spec_parses(r@),
    {
        proof {
            lemma_auto_spec_u64_to_from_le_bytes();
        }
        let mut v: Vec<u8> = Vec::new();
        v.push(AccountDiscriminator::DelegatedBoost.tag());
        push_zero_bytes(&mut v, 7);
        v.push(self.bump);
        push_zero_bytes(&mut v, 7);
        let mut pool = self.managed_proof_pubkey.to_vec();
        v.append(&mut pool);
        let mut amount = u64_to_le_bytes(self.amount);
        v.append(&mut amount);
        proof {
            assert(v@ =~= self.spec_to_bytes());
        }
        v
    }

    pub fn try_from_bytes(data: &[u8]) -> (r: Result<DelegatedBoost, ProgramError>)
        ensures
            r is Ok <==> Self::spec_parses(data@),
            r is Ok ==> {
                let p = r->Ok_0;
                &&& p.bump == data@[8]
                &&& p.managed_proof_pubkey@ == data@.subrange(16, 48)
                &&& p.amount == spec_u64_from_le_bytes(data@.subrange(48, 56))
            },
            r is Err ==> r->Err_0 == ProgramError::InvalidAccountData,
    {
        if data.len() != 56 {
            return Err(ProgramError::InvalidAccountData);
        }
        if *vstd::slice::slice_index_get(data, 0) != AccountDiscriminator::DelegatedBoost.tag() {
            return Err(ProgramError::InvalidAccountData);
        }
        let bump = *vstd::slice::slice_index_get(data, 8);
        let managed_proof_pubkey = Pubkey::from_slice(data, 16);
        let amount = u64_from_le_bytes(vstd::slice::slice_subrange(data, 48, 56));
        Ok(DelegatedBoost { bump, managed_proof_pubkey, amount })
    }
}

impl AccountDeserialize for DelegatedBoost {
    fn try_from_bytes(data: &[u8]) -> Result<DelegatedBoost, ProgramError> {
        DelegatedBoost::try_from_bytes(data)
    }
}

/// The v2 boost share ledger. Besides the v1 fields it records the staker
/// (`authority`) and the fee payer that funded its storage, which makes a
/// later balance-preserving close possible.
#[derive(Clone, Copy, Debug)]
pub struct DelegatedBoostV2 {
    pub bump: u8,
    pub managed_proof_pubkey: Pubkey,
    pub authority: Pubkey,
    pub mint: Pubkey,
    pub fee_payer: Pubkey,
    pub amount: u64,
}

impl Discriminator for DelegatedBoostV2 {
    fn discriminator() -> AccountDiscriminator {
        AccountDiscriminator::DelegatedBoostV2
    }
}

impl DelegatedBoostV2 {
    /// Size of the stored record in bytes.
    pub open spec fn spec_size() -> nat {
        152
    }

    /// The stored form: tag byte, header padding, then the fields.
    pub open spec fn spec_to_bytes(self) -> Seq<u8> {
        seq![AccountDiscriminator::DelegatedBoostV2.spec_tag()] + zero_bytes(7) + seq![self.bump]
            + zero_bytes(7) + self.managed_proof_pubkey@ + self.authority@ + self.mint@
            + self.fee_payer@ + spec_u64_to_le_bytes(self.amount)
    }

    /// True of byte strings that `try_from_bytes` accepts.
    pub open spec fn spec_parses(d: Seq<u8>) -> bool {
        d.len() == Self::spec_size() && d[0] == AccountDiscriminator::DelegatedBoostV2.spec_tag()
    }

    pub fn to_bytes(&self) -> (r: Vec<u8>)
        ensures
            r@ == self.spec_to_bytes(),
            r@.len() == Self::spec_size(),
            Self::spec_parses(r@),
    {
        proof {
            lemma_auto_spec_u64_to_from_le_bytes();
        }
        let mut v: Vec<u8> = Vec::new();
        v.push(AccountDiscriminator::DelegatedBoostV2.tag());
        push_zero_bytes(&mut v, 7);
        v.push(self.bump);
        push_zero_bytes(&mut v, 7);
        let mut pool = self.managed_proof_pubkey.to_vec();
        v.append(&mut pool);
        let mut authority = self.authority.to_vec();
        v.append(&mut authority);
        let mut mint = self.mint.to_vec();
        v.append(&mut mint);
        let mut fee_payer = self.fee_payer.to_vec();
        v.append(&mut fee_payer);
        let mut amount = u64_to_le_bytes(self.amount);
        v.append(&mut amount);
        proof {
            assert(v@ =~= self.spec_to_bytes());
        }
        v
    }

    pub fn try_from_bytes(data: &[u8]) -> (r: Result<DelegatedBoostV2, ProgramError>)
        ensures
            r is Ok <==> Self::spec_parses(data@),
            r is Ok ==> {
                let p = r->Ok_0;
                &&& p.bump == data@[8]
                &&& p.managed_proof_pubkey@ == data@.subrange(16, 48)
                &&& p.authority@ == data@.subrange(48, 80)
                &&& p.mint@ == data@.subrange(80, 112)
                &&& p.fee_payer@ == data@.subrange(112, 144)
                &&& p.amount == spec_u64_from_le_bytes(data@.subrange(144, 152))
            },
            r is Err ==> r->Err_0 == ProgramError::InvalidAccountData,
    {
        if data.len() != 152 {
            return Err(ProgramError::InvalidAccountData);
        }
        if *vstd::slice::slice_index_get(data, 0) != AccountDiscriminator::DelegatedBoostV2.tag() {
            return Err(ProgramError::InvalidAccountData);
        }
        let bump = *vstd::slice::slice_index_get(data, 8);
        let managed_proof_pubkey = Pubkey::from_slice(data, 16);
        let authority = Pubkey::from_slice(data, 48);
        let mint = Pubkey::from_slice(data, 80);
        let fee_payer = Pubkey::from_slice(data, 112);
        let amount = u64_from_le_bytes(vstd::slice::slice_subrange(data, 144, 152));
        Ok(DelegatedBoostV2 { bump, managed_proof_pubkey, authority, mint, fee_payer, amount })
    }
}

impl AccountDeserialize for DelegatedBoostV2 {
    fn try_from_bytes(data: &[u8]) -> Result<DelegatedBoostV2, ProgramError> {
        DelegatedBoostV2::try_from_bytes(data)
    }
}

/// Reading a pool record back from its stored form returns the record.
pub proof fn lemma_managed_proof_round_trip(p: ManagedProof)
    ensures
        ManagedProof::spec_parses(p.spec_to_bytes()),
        p.spec_to_bytes()[8] == p.bump,
        p.spec_to_bytes().subrange(16, 48) == p.miner_authority@,
        spec_u64_from_le_bytes(p.spec_to_bytes().subrange(48, 56)) == p.total_shares,
        spec_u16_from_le_bytes(p.spec_to_bytes().subrange(56, 58)) == p.commission_rate_bips,
{
    lemma_auto_spec_u64_to_from_le_bytes();
    lemma_auto_spec_u16_to_from_le_bytes();
    let d = p.spec_to_bytes();
    assert(d.subrange(16, 48) =~= p.miner_authority@);
    assert(d.subrange(48, 56) =~= spec_u64_to_le_bytes(p.total_shares));
    assert(d.subrange(56, 58) =~= spec_u16_to_le_bytes(p.commission_rate_bips));
}

/// Reading a primary share ledger back from its stored form returns the
/// ledger.
pub proof fn lemma_delegated_stake_round_trip(p: DelegatedStake)
    ensures
        DelegatedStake::spec_parses(p.spec_to_bytes()),
        p.spec_to_bytes()[8] == p.bump,
        spec_u64_from_le_bytes(p.spec_to_bytes().subrange(16, 24)) == p.amount,
{
    lemma_auto_spec_u64_to_from_le_bytes();
    let d = p.spec_to_bytes();
    assert(d.subrange(16, 24) =~= spec_u64_to_le_bytes(p.amount));
}

/// Reading a v1 boost ledger back from its stored form returns the ledger.
pub proof fn lemma_delegated_boost_round_trip(p: DelegatedBoost)
    ensures
        DelegatedBoost::spec_parses(p.spec_to_bytes()),
        p.spec_to_bytes()[8] == p.bump,
        p.spec_to_bytes().subrange(16, 48) == p.managed_proof_pubkey@,
        spec_u64_from_le_bytes(p.spec_to_bytes().subrange(48, 56)) == p.amount,
{
    lemma_auto_spec_u64_to_from_le_bytes();
    let d = p.spec_to_bytes();
    assert(d.subrange(16, 48) =~= p.managed_proof_pubkey@);
    assert(d.subrange(48, 56) =~= spec_u64_to_le_bytes(p.amount));
}

/// Reading a v2 boost ledger back from its stored form returns the ledger.
pub proof fn lemma_delegated_boost_v2_round_trip(p: DelegatedBoostV2)
    ensures
        DelegatedBoostV2::spec_parses(p.spec_to_bytes()),
        p.spec_to_bytes()[8] == p.bump,
        p.spec_to_bytes().subrange(16, 48) == p.managed_proof_pubkey@,
        p.spec_to_bytes().subrange(48, 80) == p.authority@,
        p.spec_to_bytes().subrange(80, 112) == p.mint@,
        p.spec_to_bytes().subrange(112, 144) == p.fee_payer@,
        spec_u64_from_le_bytes(p.spec_to_bytes().subrange(144, 152)) == p.amount,
{
    lemma_auto_spec_u64_to_from_le_bytes();
    let d = p.spec_to_bytes();
    assert(d.subrange(16, 48) =~= p.managed_proof_pubkey@);
    assert(d.subrange(48, 80) =~= p.authority@);
    assert(d.subrange(80, 112) =~= p.mint@);
    assert(d.subrange(112, 144) =~= p.fee_payer@);
    assert(d.subrange(144, 152) =~= spec_u64_to_le_bytes(p.amount));
}

} // verus!
