//! A 32-byte account address, the unit of identity for every account,
//! program and mint that the engine touches.

use vstd::prelude::*;

verus! {

/// A 32-byte address. Every account the program reads or writes is named by
/// one, and every derived (program-owned) address is one.
#[derive(Clone, Copy, Debug)]
pub struct Pubkey {
    pub bytes: [u8; 32],
}

impl View for Pubkey {
    type V = Seq<u8>;

    open spec fn view(&self) -> Seq<u8> {
        self.bytes@
    }
}

impl Pubkey {
    pub fn new(bytes: [u8; 32]) -> (r: Pubkey)
        ensures
            r@ == bytes@,
    {
        Pubkey { bytes }
    }

    pub open spec fn wf(self) -> bool {
        self@.len() == 32
    }

    /// The 32 bytes of the address as a fresh vector.
    pub fn to_vec(&self) -> (r: Vec<u8>)
        ensures
            r@ == self@,
    {
        vstd::slice::slice_to_vec(self.bytes.as_slice())
    }

    /// Reads an address out of `d` at `offset`.
    pub fn from_slice(d: &[u8], offset: usize) -> (r: Pubkey)
        requires
            offset + 32 <= d@.len(),
        ensures
            r@ == d@.subrange(offset as int, offset as int + 32),
    {
        let dlen: usize = d.len();
        let mut bytes: [u8; 32] = [0u8; 32];
        let mut i: usize = 0;
        while i < 32
            invariant
                i <= 32,
                offset + 32 <= d@.len(),
                d@.len() == dlen,
                forall|j: int| 0 <= j < i ==> bytes@[j] == d@[offset + j],
            decreases 32 - i,
        {
            bytes[i] = *vstd::slice::slice_index_get(d, offset + i);
            i += 1;
        }
        let r = Pubkey { bytes };
        proof {
            assert(r@ =~= d@.subrange(offset as int, offset as int + 32));
        }
        r
    }
}

/// Two addresses with the same bytes are the same address.
pub proof fn lemma_pubkey_view_injective(a: Pubkey, b: Pubkey)
    requires
        a@ == b@,
    ensures
        a == b,
{
    assert(a.bytes =~= b.bytes);
}

impl PartialEq for Pubkey {
    fn eq(&self, other: &Pubkey) -> (r: bool)
    {
        let mut i: usize = 0;
        while i < 32
            invariant
                i <= 32,
                forall|j: int| 0 <= j < i ==> self.bytes@[j] == other.bytes@[j],
            decreases 32 - i,
        {
            if self.bytes[i] != other.bytes[i] {
                return false;
            }
            i += 1;
        }
        proof {
            assert(self.bytes@ =~= other.bytes@);
        }
        true
    }
}

impl vstd::std_specs::cmp::PartialEqSpecImpl for Pubkey {
    open spec fn obeys_eq_spec() -> bool {
        true
    }

    open spec fn eq_spec(&self, other: &Pubkey) -> bool {
        self.bytes@ == other.bytes@
    }
}

impl Eq for Pubkey {

}

} // verus!
