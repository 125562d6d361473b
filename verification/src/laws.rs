//! Laws the escrow operations obey, stated over the same spec functions
//! their contracts use.

use vstd::prelude::*;
use crate::account::TokenAccount;
use crate::error::ErrorKind;
use crate::error::EscrowError;
use crate::session::spec_accept_error;
use crate::session::spec_cancel_error;
use crate::session::EscrowSession;
use crate::validate::Accept;
use crate::validate::Cancel;

verus! {

/// A Cancel that follows a successful Accept moves nothing a second time:
/// Accept leaves the session settled, a settled session's vault is empty,
/// and Cancel refunds exactly the vault balance — here zero, so the refund
/// account comes out unchanged.
pub proof fn lemma_cancel_after_accept_refunds_nothing(s: EscrowSession, refund: TokenAccount)
    requires
        s.wf(),
        s.phase is Settled,
    ensures
        s.vault.balance == 0,
        refund.with_balance((refund.balance + s.vault.balance) as u64) == refund,
{
}

/// An Accept whose buyer-paying account does not hold the wanted asset type
/// always fails, with a validation-class reason; by Accept's contract such a
/// failure leaves every balance and the session unchanged.
pub proof fn lemma_accept_wrong_paying_asset_fails(s: EscrowSession, a: Accept)
    requires
        a.buyer_y_tokens.asset_type != s.entry.wanted_asset_type,
    ensures
        spec_accept_error(s, a) matches Some(e) && e.spec_kind() == ErrorKind::Validation,
{
}

/// Settlement happens exactly once: against a settled escrow every further
/// Accept fails as already settled, whatever accounts the caller supplies —
/// the swap is not replayable.
pub proof fn lemma_accept_not_replayable(s: EscrowSession, a: Accept)
    requires
        s.phase is Settled,
    ensures
        spec_accept_error(s, a) == Some(EscrowError::AlreadySettled),
{
}

/// A Cancel by any identity other than the entry's authority fails with
/// AuthorizationFailure, before any other check runs; by Cancel's contract
/// such a failure hands the session back intact and moves nothing.
pub proof fn lemma_cancel_unauthorized_fails(s: EscrowSession, a: Cancel)
    requires
        a.seller != s.entry.authority,
    ensures
        spec_cancel_error(s, a) == Some(EscrowError::AuthorizationFailure),
{
}

} // verus!
