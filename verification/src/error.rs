//! The failure taxonomy of the escrow operations.

use vstd::prelude::*;

verus! {

/// The three classes of failure an operation can report.
///
/// A caller can tell "you were not allowed to do this" (`Validation`,
/// `Authorization`) apart from "the requested movement could not be executed"
/// (`Transfer`).
#[derive(Clone, Copy, PartialEq, Eq, Structural, Debug)]
pub enum ErrorKind {
    /// A precondition on the caller-supplied accounts failed; nothing changed.
    Validation,
    /// The caller is not the signer the operation requires; rejected before
    /// any other check runs.
    Authorization,
    /// The asset-custody service rejected a movement or a closure; nothing
    /// changed.
    Transfer,
}

/// One reason code per check an operation performs.
#[derive(Clone, Copy, PartialEq, Eq, Structural, Debug)]
pub enum EscrowError {
    /// Initialize: the seller's source account holds a different asset type
    /// than the one being deposited.
    SourceAssetTypeMismatch,
    /// Initialize: the seller's source account is not owned by the seller.
    SourceOwnerMismatch,
    /// Initialize: the host could not assign a derived authority for this
    /// seller.
    DerivationFailure,
    /// Accept or Cancel: the vault account supplied is not the one the ledger
    /// entry references.
    VaultReferenceMismatch,
    /// Accept: the seller's receiving account does not hold the wanted asset
    /// type.
    SellerReceiveAssetTypeMismatch,
    /// Accept: the buyer's paying account does not hold the wanted asset
    /// type.
    BuyerPayAssetTypeMismatch,
    /// Accept: the buyer's receiving account does not hold the vault's asset
    /// type.
    BuyerReceiveAssetTypeMismatch,
    /// Accept: the buyer's paying account is not owned by the calling buyer.
    BuyerPayOwnerMismatch,
    /// Accept: the escrow has already been settled; the swap is not
    /// replayable.
    AlreadySettled,
    /// Cancel: the caller is not the authority recorded in the ledger entry.
    AuthorizationFailure,
    /// Cancel: the seller's refund account does not hold the vault's asset
    /// type.
    RefundAssetTypeMismatch,
    /// Cancel: the seller's refund account is not owned by the caller.
    RefundOwnerMismatch,
    /// A registry insert found an open escrow for the same seller already.
    EntryAlreadyExists,
    /// The asset-custody service rejected a transfer: bad authority, asset
    /// type mismatch, insufficient balance, or an overflowing destination.
    TransferFailure,
    /// The asset-custody service rejected an account closure.
    CloseFailure,
}

impl EscrowError {
    /// The taxonomy class this reason code belongs to.
    pub open spec fn spec_kind(self) -> ErrorKind {
        match self {
            EscrowError::AuthorizationFailure => ErrorKind::Authorization,
            EscrowError::TransferFailure => ErrorKind::Transfer,
            EscrowError::CloseFailure => ErrorKind::Transfer,
            _ => ErrorKind::Validation,
        }
    }

    /// The taxonomy class this reason code belongs to.
    pub fn kind(&self) -> (r: ErrorKind)
        ensures
            r == self.spec_kind(),
    {
        match self {
            EscrowError::AuthorizationFailure => ErrorKind::Authorization,
            EscrowError::TransferFailure => ErrorKind::Transfer,
            EscrowError::CloseFailure => ErrorKind::Transfer,
            _ => ErrorKind::Validation,
        }
    }
}

} // verus!
