//! The derived-authority scheme.
//!
//! The vault is never owned by a wallet-held key. Its movement authority is
//! an identity the host derives deterministically from a domain tag, the
//! escrow program's identity and the seller's identity, together with a
//! disambiguating nonce. Storing the nonce lets the sanctioned operations
//! re-derive the very same authority later and present it to the custody
//! service, without any private key existing at all.

use vstd::prelude::*;
use crate::ident::Identity;
use anchor_lang::solana_program::pubkey::Pubkey;

verus! {

/// The authority-and-nonce pair the host's derivation scheme assigns to a
/// domain tag, a program and a seller, when it assigns one.
pub uninterp spec fn derived_authority_of(tag: Seq<u8>, program: Identity, seller: Identity) -> Option<(Identity, u8)>;

/// The authority that re-derivation from a stored nonce yields for a domain
/// tag, a program and a seller, when it yields one.
pub uninterp spec fn rederived_authority_of(tag: Seq<u8>, program: Identity, seller: Identity, nonce: u8) -> Option<Identity>;

/// Relies on Pubkey::try_find_program_address: its result is a deterministic
/// function of the seed slices and the program id alone, and on success the
/// returned nonce re-derives the returned address through
/// Pubkey::create_program_address on the same seeds plus that nonce.
#[verifier::external_body]
pub(crate) fn find_derived_authority(tag: &Vec<u8>, program: &Identity, seller: &Identity) -> (r: Option<(Identity, u8)>)
    ensures
        r == derived_authority_of(tag@, *program, *seller),
        (r matches Some(p) ==> rederived_authority_of(tag@, *program, *seller, p.1) == Some(
            p.0,
        )),
{
    let pid = Pubkey::new_from_array(program.to_le_vec().try_into().unwrap());
    let seed = seller.to_le_vec();
    Pubkey::try_find_program_address(&[tag.as_slice(), seed.as_slice()], &pid)
        .map(|(pk, nonce)| (Identity::from_le_slice(&pk.to_bytes()), nonce))
}

/// Relies on Pubkey::create_program_address: its result is a deterministic
/// function of the seed slices and the program id alone.
#[verifier::external_body]
pub(crate) fn rederive_authority(
    tag: &Vec<u8>,
    program: &Identity,
    seller: &Identity,
    nonce: u8,
) -> (r: Option<Identity>)
    ensures
        r == rederived_authority_of(tag@, *program, *seller, nonce),
{
    let pid = Pubkey::new_from_array(program.to_le_vec().try_into().unwrap());
    let seed = seller.to_le_vec();
    match Pubkey::create_program_address(&[tag.as_slice(), seed.as_slice(), &[nonce]], &pid) {
        Ok(pk) => Some(Identity::from_le_slice(&pk.to_bytes())),
        Err(_) => None,
    }
}

/// The domain tag under which vault authorities are derived: the ASCII bytes
/// of "escrow".
pub open spec fn spec_escrow_tag() -> Seq<u8> {
    seq![101u8, 115u8, 99u8, 114u8, 111u8, 119u8]
}

/// The domain tag under which vault authorities are derived.
pub fn escrow_tag() -> (r: Vec<u8>)
    ensures
        r@ == spec_escrow_tag(),
{
    let mut r: Vec<u8> = Vec::new();
    r.push(101);
    r.push(115);
    r.push(99);
    r.push(114);
    r.push(111);
    r.push(119);
    proof {
        assert(r@ =~= spec_escrow_tag());
    }
    r
}

/// The escrow program's own identity.
pub open spec fn spec_program_id() -> Identity {
    Identity {
        w0: 9741175145660635451u64,
        w1: 1683635301084397901u64,
        w2: 15300221082941572845u64,
        w3: 16917803440043917851u64,
    }
}

/// The escrow program's own identity.
pub fn program_id() -> (r: Identity)
    ensures
        r == spec_program_id(),
{
    Identity {
        w0: 9741175145660635451,
        w1: 1683635301084397901,
        w2: 15300221082941572845,
        w3: 16917803440043917851,
    }
}

} // verus!
