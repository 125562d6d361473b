//! The constraint validator.
//!
//! Each operation's preconditions are checked against the ledger entry and
//! the caller-supplied accounts before any transfer is attempted; the first
//! failed check aborts the whole operation with its reason code and no state
//! change.

use vstd::prelude::*;
use crate::account::TokenAccount;
use crate::entry::Escrow;
use crate::error::EscrowError;
use crate::ident::Identity;

verus! {

/// The caller-supplied accounts of one Initialize call.
#[derive(Clone, Copy, PartialEq, Eq, Structural, Debug)]
pub struct Initialize {
    /// The seller: the authenticated caller.
    pub seller: Identity,
    /// The asset type being deposited.
    pub x_mint: Identity,
    /// The asset type wanted in exchange.
    pub y_mint: Identity,
    /// The seller's source account for the deposited asset.
    pub seller_x_token: TokenAccount,
}

/// The first Initialize check that fails, if any: the seller's source
/// account must hold the deposited asset type and be owned by the seller.
pub open spec fn spec_validate_initialize(a: Initialize) -> Option<EscrowError> {
    if a.seller_x_token.asset_type != a.x_mint {
        Some(EscrowError::SourceAssetTypeMismatch)
    } else if a.seller_x_token.owner != a.seller {
        Some(EscrowError::SourceOwnerMismatch)
    } else {
        None
    }
}

/// Check the Initialize preconditions, reporting the first failure.
pub fn validate_initialize(a: &Initialize) -> (r: Result<(), EscrowError>)
    ensures
        r == (match spec_validate_initialize(*a) {
            Some(e) => Err::<(), EscrowError>(e),
            None => Ok::<(), EscrowError>(()),
        }),
{
    if a.seller_x_token.asset_type != a.x_mint {
        return Err(EscrowError::SourceAssetTypeMismatch);
    }
    if a.seller_x_token.owner != a.seller {
        return Err(EscrowError::SourceOwnerMismatch);
    }
    Ok(())
}

/// The caller-supplied accounts of one Accept call.
#[derive(Clone, Copy, PartialEq, Eq, Structural, Debug)]
pub struct Accept {
    /// The buyer: the authenticated caller.
    pub buyer: Identity,
    /// The seller's receiving account for the wanted asset.
    pub sellers_y_tokens: TokenAccount,
    /// The buyer's receiving account for the escrowed asset.
    pub buyer_x_tokens: TokenAccount,
    /// The buyer's paying account for the wanted asset.
    pub buyer_y_tokens: TokenAccount,
}

/// The first Accept check that fails, if any: the vault must be the one the
/// entry references, seller and buyer must pay and receive in the asset
/// types the entry fixed, and the buyer must own the paying account.
pub open spec fn spec_validate_accept(entry: Escrow, vault: TokenAccount, a: Accept) -> Option<
    EscrowError,
> {
    if vault.id != entry.vault_reference {
        Some(EscrowError::VaultReferenceMismatch)
    } else if a.sellers_y_tokens.asset_type != entry.wanted_asset_type {
        Some(EscrowError::SellerReceiveAssetTypeMismatch)
    } else if a.buyer_y_tokens.asset_type != entry.wanted_asset_type {
        Some(EscrowError::BuyerPayAssetTypeMismatch)
    } else if a.buyer_x_tokens.asset_type != vault.asset_type {
        Some(EscrowError::BuyerReceiveAssetTypeMismatch)
    } else if a.buyer_y_tokens.owner != a.buyer {
        Some(EscrowError::BuyerPayOwnerMismatch)
    } else {
        None
    }
}

/// Check the Accept preconditions, reporting the first failure.
pub fn validate_accept(entry: &Escrow, vault: &TokenAccount, a: &Accept) -> (r: Result<
    (),
    EscrowError,
>)
    ensures
        r == (match spec_validate_accept(*entry, *vault, *a) {
            Some(e) => Err::<(), EscrowError>(e),
            None => Ok::<(), EscrowError>(()),
        }),
{
    if vault.id != entry.vault_reference {
        return Err(EscrowError::VaultReferenceMismatch);
    }
    if a.sellers_y_tokens.asset_type != entry.wanted_asset_type {
        return Err(EscrowError::SellerReceiveAssetTypeMismatch);
    }
    if a.buyer_y_tokens.asset_type != entry.wanted_asset_type {
        return Err(EscrowError::BuyerPayAssetTypeMismatch);
    }
    if a.buyer_x_tokens.asset_type != vault.asset_type {
        return Err(EscrowError::BuyerReceiveAssetTypeMismatch);
    }
    if a.buyer_y_tokens.owner != a.buyer {
        return Err(EscrowError::BuyerPayOwnerMismatch);
    }
    Ok(())
}

/// The caller-supplied accounts of one Cancel call.
#[derive(Clone, Copy, PartialEq, Eq, Structural, Debug)]
pub struct Cancel {
    /// The caller claiming to be the seller.
    pub seller: Identity,
    /// The seller's refund-receiving account for the escrowed asset.
    pub seller_x_token: TokenAccount,
}

/// The first Cancel check that fails, if any. The caller must be the entry's
/// authority — that is rejected before any other check runs — the vault must
/// be the one the entry references, and the refund account must hold the
/// vault's asset type and be owned by the caller.
pub open spec fn spec_validate_cancel(entry: Escrow, vault: TokenAccount, a: Cancel) -> Option<
    EscrowError,
> {
    if a.seller != entry.authority {
        Some(EscrowError::AuthorizationFailure)
    } else if vault.id != entry.vault_reference {
        Some(EscrowError::VaultReferenceMismatch)
    } else if a.seller_x_token.asset_type != vault.asset_type {
        Some(EscrowError::RefundAssetTypeMismatch)
    } else if a.seller_x_token.owner != a.seller {
        Some(EscrowError::RefundOwnerMismatch)
    } else {
        None
    }
}

/// Check the Cancel preconditions, reporting the first failure.
pub fn validate_cancel(entry: &Escrow, vault: &TokenAccount, a: &Cancel) -> (r: Result<
    (),
    EscrowError,
>)
    ensures
        r == (match spec_validate_cancel(*entry, *vault, *a) {
            Some(e) => Err::<(), EscrowError>(e),
            None => Ok::<(), EscrowError>(()),
        }),
{
    if a.seller != entry.authority {
        return Err(EscrowError::AuthorizationFailure);
    }
    if vault.id != entry.vault_reference {
        return Err(EscrowError::VaultReferenceMismatch);
    }
    if a.seller_x_token.asset_type != vault.asset_type {
        return Err(EscrowError::RefundAssetTypeMismatch);
    }
    if a.seller_x_token.owner != a.seller {
        return Err(EscrowError::RefundOwnerMismatch);
    }
    Ok(())
}

} // verus!
