//! Identities: 32-byte addresses for parties, accounts and asset types.

use vstd::prelude::*;
use vstd::bytes::*;

verus! {

/// A 32-byte identity, stored as four 64-bit little-endian words.
///
/// Identities name everything the escrow core speaks of: parties (the seller,
/// the buyer), asset types, custodial accounts, and the derived vault
/// authority.
#[derive(Clone, Copy, PartialEq, Eq, Structural, Hash, Debug)]
pub struct Identity {
    pub w0: u64,
    pub w1: u64,
    pub w2: u64,
    pub w3: u64,
}

impl Identity {
    /// The 32-byte little-endian encoding of this identity.
    pub open spec fn spec_bytes(self) -> Seq<u8> {
        spec_u64_to_le_bytes(self.w0) + spec_u64_to_le_bytes(self.w1)
            + spec_u64_to_le_bytes(self.w2) + spec_u64_to_le_bytes(self.w3)
    }

    /// The identity whose encoding is the 32-byte sequence `s`.
    pub open spec fn spec_from_bytes(s: Seq<u8>) -> Identity {
        Identity {
            w0: spec_u64_from_le_bytes(s.subrange(0, 8)),
            w1: spec_u64_from_le_bytes(s.subrange(8, 16)),
            w2: spec_u64_from_le_bytes(s.subrange(16, 24)),
            w3: spec_u64_from_le_bytes(s.subrange(24, 32)),
        }
    }

    /// Encode this identity as its 32 little-endian bytes.
    pub fn to_le_vec(&self) -> (r: Vec<u8>)
        ensures
            r@ == self.spec_bytes(),
            r@.len() == 32,
    {
        proof {
            lemma_auto_spec_u64_to_from_le_bytes();
        }
        let mut r = u64_to_le_bytes(self.w0);
        let mut b1 = u64_to_le_bytes(self.w1);
        let mut b2 = u64_to_le_bytes(self.w2);
        let mut b3 = u64_to_le_bytes(self.w3);
        r.append(&mut b1);
        r.append(&mut b2);
        r.append(&mut b3);
        r
    }

    /// Decode an identity from its 32 little-endian bytes.
    pub fn from_le_slice(s: &[u8]) -> (r: Identity)
        requires
            s@.len() == 32,
        ensures
            r == Identity::spec_from_bytes(s@),
            r.spec_bytes() == s@,
    {
        let w0 = u64_from_le_bytes(vstd::slice::slice_subrange(s, 0, 8));
        let w1 = u64_from_le_bytes(vstd::slice::slice_subrange(s, 8, 16));
        let w2 = u64_from_le_bytes(vstd::slice::slice_subrange(s, 16, 24));
        let w3 = u64_from_le_bytes(vstd::slice::slice_subrange(s, 24, 32));
        let r = Identity { w0, w1, w2, w3 };
        proof {
            lemma_auto_spec_u64_to_from_le_bytes();
            assert(r.spec_bytes() =~= s@);
        }
        r
    }
}

/// Encoding and decoding of identities invert each other: decoding the
/// 32-byte encoding of any identity yields that identity back.
pub proof fn lemma_identity_bytes_round_trip(id: Identity)
    ensures
        id.spec_bytes().len() == 32,
        Identity::spec_from_bytes(id.spec_bytes()) == id,
{
    lemma_auto_spec_u64_to_from_le_bytes();
    assert(id.spec_bytes().subrange(0, 8) =~= spec_u64_to_le_bytes(id.w0));
    assert(id.spec_bytes().subrange(8, 16) =~= spec_u64_to_le_bytes(id.w1));
    assert(id.spec_bytes().subrange(16, 24) =~= spec_u64_to_le_bytes(id.w2));
    assert(id.spec_bytes().subrange(24, 32) =~= spec_u64_to_le_bytes(id.w3));
}

} // verus!
