//! Custodial asset accounts and the movements the custody service performs
//! on them.

use vstd::prelude::*;
use crate::error::EscrowError;
use crate::ident::Identity;

verus! {

/// One fungible-asset holding account, as the escrow core sees it.
#[derive(Clone, Copy, PartialEq, Eq, Structural, Debug)]
pub struct TokenAccount {
    /// The account's own address.
    pub id: Identity,
    /// The asset type this account holds.
    pub asset_type: Identity,
    /// The identity allowed to move funds out of this account.
    pub owner: Identity,
    /// The current balance.
    pub balance: u64,
}

impl TokenAccount {
    /// This account with its balance replaced and every other field kept.
    pub open spec fn with_balance(self, b: u64) -> TokenAccount {
        TokenAccount { balance: b, ..self }
    }
}

/// When the custody service lets `amount` move from `from` to `to` on
/// `authorizer`'s say-so: the authorizer owns the source, both accounts hold
/// the same asset type, the source covers the amount, and the destination
/// does not overflow.
pub open spec fn transfer_allowed(
    from: TokenAccount,
    to: TokenAccount,
    authorizer: Identity,
    amount: u64,
) -> bool {
    &&& authorizer == from.owner
    &&& from.asset_type == to.asset_type
    &&& amount <= from.balance
    &&& to.balance + amount <= u64::MAX
}

/// Move `amount` from `from` to `to`, authorized by `authorizer`.
///
/// This is the `transfer` capability of the asset-custody service: it either
/// applies in full — debit the source, credit the destination, touch nothing
/// else — or fails with `TransferFailure` and changes nothing.
pub fn transfer(
    from: &mut TokenAccount,
    to: &mut TokenAccount,
    authorizer: Identity,
    amount: u64,
) -> (r: Result<(), EscrowError>)
    ensures
        r is Ok <==> transfer_allowed(*old(from), *old(to), authorizer, amount),
        r is Ok ==> *final(from) == old(from).with_balance((old(from).balance - amount) as u64)
            && *final(to) == old(to).with_balance((old(to).balance + amount) as u64),
        r is Err ==> *final(from) == *old(from) && *final(to) == *old(to)
            && r == Err::<(), EscrowError>(EscrowError::TransferFailure),
{
    if authorizer != from.owner {
        return Err(EscrowError::TransferFailure);
    }
    if from.asset_type != to.asset_type {
        return Err(EscrowError::TransferFailure);
    }
    if amount > from.balance {
        return Err(EscrowError::TransferFailure);
    }
    if amount > u64::MAX - to.balance {
        return Err(EscrowError::TransferFailure);
    }
    from.balance = from.balance - amount;
    to.balance = to.balance + amount;
    Ok(())
}

/// When the custody service lets `authority` close `account`: the account is
/// empty and the authority owns it.
pub open spec fn close_allowed(account: TokenAccount, authority: Identity) -> bool {
    account.balance == 0 && authority == account.owner
}

/// Check that `account` may be closed by `authority`, reclaiming its storage.
///
/// This is the `close` capability of the asset-custody service. The caller
/// destroys the account record on `Ok`; on `Err` nothing may be destroyed.
pub fn close_account(account: &TokenAccount, authority: Identity) -> (r: Result<(), EscrowError>)
    ensures
        r is Ok <==> close_allowed(*account, authority),
        r is Err ==> r == Err::<(), EscrowError>(EscrowError::CloseFailure),
{
    if account.balance != 0 {
        return Err(EscrowError::CloseFailure);
    }
    if authority != account.owner {
        return Err(EscrowError::CloseFailure);
    }
    Ok(())
}

} // verus!
