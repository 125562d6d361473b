//! Core of a trustless, non-custodial escrow for swapping one fungible asset
//! for another between two parties.
//!
//! A seller deposits asset X into a vault whose only movement authority is an
//! identity derived deterministically from a domain tag and the seller's own
//! identity — no private key can move it. A buyer later settles the swap in
//! one atomic step (vault to buyer, buyer's counter-asset to seller), or the
//! seller reclaims the deposit before that happens.
//!
//! Asset custody itself (balance bookkeeping, account closure) is modelled on
//! plain account records; the derivation of the vault authority is delegated
//! to the host's program-address scheme.

pub mod account;
pub mod authority;
pub mod entry;
pub mod error;
pub mod ident;
pub mod laws;
pub mod registry;
pub mod session;
pub mod validate;
