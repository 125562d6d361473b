//! The persisted escrow ledger entry and its fixed-size record encoding.

use vstd::prelude::*;
use vstd::bytes::*;
use crate::ident::Identity;

verus! {

/// Length in bytes of the persisted ledger entry record: an 8-byte
/// record-type discriminator, the 32-byte authority, the 1-byte derivation
/// nonce, the 32-byte vault reference, the 32-byte wanted asset type and the
/// 8-byte wanted amount.
pub const ESCROW_RECORD_LEN: usize = 113;

/// The record-type discriminator that opens every persisted entry.
pub open spec fn spec_discriminator() -> Seq<u8> {
    seq![31u8, 213u8, 123u8, 187u8, 186u8, 22u8, 218u8, 155u8]
}

/// The record-type discriminator that opens every persisted entry.
pub fn discriminator() -> (r: Vec<u8>)
    ensures
        r@ == spec_discriminator(),
{
    let mut r: Vec<u8> = Vec::new();
    r.push(31);
    r.push(213);
    r.push(123);
    r.push(187);
    r.push(186);
    r.push(22);
    r.push(218);
    r.push(155);
    proof {
        assert(r@ =~= spec_discriminator());
    }
    r
}

/// One escrow ledger entry: the persisted record of one active escrow.
///
/// Every field is immutable once set; the swap is fixed-price. The entry is
/// created by Initialize, consulted (not mutated) by Accept, and destroyed by
/// Cancel.
#[derive(Clone, Copy, PartialEq, Eq, Structural, Debug)]
pub struct Escrow {
    /// The seller who created the entry.
    pub authority: Identity,
    /// The disambiguation value produced alongside the derived vault
    /// authority; stored so the authority can be re-derived for signing.
    pub derivation_nonce: u8,
    /// The address of the custodial account holding the deposited asset.
    pub vault_reference: Identity,
    /// The asset type the seller will accept in exchange.
    pub wanted_asset_type: Identity,
    /// The quantity of the wanted asset required to complete the swap.
    pub wanted_amount: u64,
}

impl Escrow {
    /// The 113-byte record encoding of this entry.
    pub open spec fn spec_record(self) -> Seq<u8> {
        spec_discriminator() + self.authority.spec_bytes() + seq![self.derivation_nonce]
            + self.vault_reference.spec_bytes() + self.wanted_asset_type.spec_bytes()
            + spec_u64_to_le_bytes(self.wanted_amount)
    }

    /// Encode this entry as its persisted 113-byte record.
    pub fn to_record(&self) -> (r: Vec<u8>)
        ensures
            r@ == self.spec_record(),
            r@.len() == ESCROW_RECORD_LEN,
    {
        proof {
            lemma_auto_spec_u64_to_from_le_bytes();
        }
        let mut r = discriminator();
        let mut authority = self.authority.to_le_vec();
        r.append(&mut authority);
        r.push(self.derivation_nonce);
        let mut vault_reference = self.vault_reference.to_le_vec();
        r.append(&mut vault_reference);
        let mut wanted_asset_type = self.wanted_asset_type.to_le_vec();
        r.append(&mut wanted_asset_type);
        let mut wanted_amount = u64_to_le_bytes(self.wanted_amount);
        r.append(&mut wanted_amount);
        proof {
            assert(r@ =~= self.spec_record());
        }
        r
    }

    /// Decode an entry from a persisted record.
    ///
    /// Returns the entry exactly when the record has the right length and
    /// opens with the record-type discriminator; the decoded entry re-encodes
    /// to the given bytes.
    pub fn from_record(s: &Vec<u8>) -> (r: Option<Escrow>)
        ensures
            r is Some <==> s@.len() == ESCROW_RECORD_LEN
                && s@.subrange(0, 8) == spec_discriminator(),
            r matches Some(e) ==> e.spec_record() == s@,
    {
        if s.len() != ESCROW_RECORD_LEN {
            return None;
        }
        if !has_discriminator(s) {
            return None;
        }
        let authority = Identity::from_le_slice(vstd::slice::slice_subrange(s.as_slice(), 8, 40));
        let derivation_nonce = s[40];
        let vault_reference = Identity::from_le_slice(
            vstd::slice::slice_subrange(s.as_slice(), 41, 73),
        );
        let wanted_asset_type = Identity::from_le_slice(
            vstd::slice::slice_subrange(s.as_slice(), 73, 105),
        );
        let wanted_amount = u64_from_le_bytes(vstd::slice::slice_subrange(s.as_slice(), 105, 113));
        let e = Escrow { authority, derivation_nonce, vault_reference, wanted_asset_type, wanted_amount };
        proof {
            lemma_auto_spec_u64_to_from_le_bytes();
            assert(e.spec_record() =~= s@);
        }
        Some(e)
    }
}

/// Whether `s` opens with the record-type discriminator.
fn has_discriminator(s: &Vec<u8>) -> (r: bool)
    requires
        s@.len() >= 8,
    ensures
        r <==> s@.subrange(0, 8) == spec_discriminator(),
{
    let d = discriminator();
    let mut i: usize = 0;
    while i < 8
        invariant
            0 <= i <= 8,
            s@.len() >= 8,
            d@ == spec_discriminator(),
            forall|k: int| 0 <= k < i ==> s@[k] == spec_discriminator()[k],
        decreases 8 - i,
    {
        if s[i] != d[i] {
            proof {
                assert(s@.subrange(0, 8)[i as int] != spec_discriminator()[i as int]);
            }
            return false;
        }
        i += 1;
    }
    proof {
        assert(s@.subrange(0, 8) =~= spec_discriminator());
    }
    true
}

/// Decoding inverts encoding: the 113-byte record of any entry decodes to
/// that entry.
pub proof fn lemma_record_round_trip(e: Escrow)
    ensures
        e.spec_record().len() == ESCROW_RECORD_LEN,
        e.spec_record().subrange(0, 8) == spec_discriminator(),
{
    lemma_auto_spec_u64_to_from_le_bytes();
    assert(e.spec_record().subrange(0, 8) =~= spec_discriminator());
}

/// The record encoding is injective: two entries with the same record are
/// the same entry, so a record names one escrow.
pub proof fn lemma_record_injective(a: Escrow, b: Escrow)
    requires
        a.spec_record() == b.spec_record(),
    ensures
        a == b,
{
    lemma_auto_spec_u64_to_from_le_bytes();
    crate::ident::lemma_identity_bytes_round_trip(a.authority);
    crate::ident::lemma_identity_bytes_round_trip(b.authority);
    crate::ident::lemma_identity_bytes_round_trip(a.vault_reference);
    crate::ident::lemma_identity_bytes_round_trip(b.vault_reference);
    crate::ident::lemma_identity_bytes_round_trip(a.wanted_asset_type);
    crate::ident::lemma_identity_bytes_round_trip(b.wanted_asset_type);
    assert(a.spec_record().subrange(8, 40) =~= a.authority.spec_bytes());
    assert(b.spec_record().subrange(8, 40) =~= b.authority.spec_bytes());
    assert(a.spec_record()[40] == a.derivation_nonce);
    assert(b.spec_record()[40] == b.derivation_nonce);
    assert(a.spec_record().subrange(41, 73) =~= a.vault_reference.spec_bytes());
    assert(b.spec_record().subrange(41, 73) =~= b.vault_reference.spec_bytes());
    assert(a.spec_record().subrange(73, 105) =~= a.wanted_asset_type.spec_bytes());
    assert(b.spec_record().subrange(73, 105) =~= b.wanted_asset_type.spec_bytes());
    assert(a.spec_record().subrange(105, 113) =~= spec_u64_to_le_bytes(a.wanted_amount));
    assert(b.spec_record().subrange(105, 113) =~= spec_u64_to_le_bytes(b.wanted_amount));
}

} // verus!
