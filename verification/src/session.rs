//! The escrow operations — Initialize, Accept and Cancel — as one state
//! machine per ledger entry.
//!
//! Each operation validates every precondition before it moves anything, so
//! it either applies in full or reports one reason code and changes nothing:
//! the all-or-nothing behaviour the host's transaction model demands.

use vstd::prelude::*;
use vstd::pervasive::unreached;
use crate::account::transfer;
use crate::account::close_account;
use crate::account::TokenAccount;
use crate::authority::derived_authority_of;
use crate::authority::find_derived_authority;
use crate::authority::rederive_authority;
use crate::authority::rederived_authority_of;
use crate::entry::Escrow;
use crate::error::EscrowError;
use crate::ident::Identity;
use crate::validate::spec_validate_accept;
use crate::validate::spec_validate_cancel;
use crate::validate::spec_validate_initialize;
use crate::validate::validate_accept;
use crate::validate::validate_cancel;
use crate::validate::validate_initialize;
use crate::validate::Accept;
use crate::validate::Cancel;
use crate::validate::Initialize;

verus! {

/// Where one escrow stands in its lifecycle.
#[derive(Clone, Copy, PartialEq, Eq, Structural, Debug)]
pub enum Phase {
    /// Funded and waiting: Accept and Cancel are both available.
    Open,
    /// A successful Accept drained the vault. The entry remains; the swap is
    /// not replayable, and Cancel is reduced to a zero-amount teardown.
    Settled,
}

/// One live escrow: its ledger entry, its vault, and where it stands.
///
/// A session exists exactly while entry and vault exist: Initialize returns
/// a fresh session, and Cancel consumes one, destroying both.
#[derive(Debug)]
pub struct EscrowSession {
    /// The domain tag the vault authority was derived under.
    pub domain_tag: Vec<u8>,
    /// The program identity the vault authority was derived for.
    pub program: Identity,
    /// The persisted ledger entry.
    pub entry: Escrow,
    /// The custodial account holding the deposited asset.
    pub vault: TokenAccount,
    /// Where the escrow stands.
    pub phase: Phase,
}

/// The failure an Initialize call reports, if any: the first failed
/// validator check, a seller the host assigns no derived authority, or a
/// source account that cannot cover the deposit.
pub open spec fn spec_initialize_error(
    a: Initialize,
    derived: Option<(Identity, u8)>,
    x_amount: u64,
) -> Option<EscrowError> {
    if spec_validate_initialize(a) is Some {
        spec_validate_initialize(a)
    } else if derived is None {
        Some(EscrowError::DerivationFailure)
    } else if a.seller_x_token.balance < x_amount {
        Some(EscrowError::TransferFailure)
    } else {
        None
    }
}

/// The failure an Accept call reports, if any: a replay against a settled
/// escrow, the first failed validator check, or a leg the custody service
/// cannot execute — an overflowing receiving account, or a paying account
/// that cannot cover the wanted amount.
pub open spec fn spec_accept_error(s: EscrowSession, a: Accept) -> Option<EscrowError> {
    if s.phase is Settled {
        Some(EscrowError::AlreadySettled)
    } else if spec_validate_accept(s.entry, s.vault, a) is Some {
        spec_validate_accept(s.entry, s.vault, a)
    } else if a.buyer_x_tokens.balance + s.vault.balance > u64::MAX {
        Some(EscrowError::TransferFailure)
    } else if a.buyer_y_tokens.balance < s.entry.wanted_amount {
        Some(EscrowError::TransferFailure)
    } else if a.sellers_y_tokens.balance + s.entry.wanted_amount > u64::MAX {
        Some(EscrowError::TransferFailure)
    } else {
        None
    }
}

/// The failure a Cancel call reports, if any: a caller other than the
/// entry's authority — rejected before any other check — another failed
/// validator check, or a refund account the custody service cannot credit.
pub open spec fn spec_cancel_error(s: EscrowSession, a: Cancel) -> Option<EscrowError> {
    if spec_validate_cancel(s.entry, s.vault, a) is Some {
        spec_validate_cancel(s.entry, s.vault, a)
    } else if a.seller_x_token.balance + s.vault.balance > u64::MAX {
        Some(EscrowError::TransferFailure)
    } else {
        None
    }
}

impl EscrowSession {
    /// The session's internal invariant: the vault is the very account the
    /// entry references; its movement authority is exactly what
    /// re-derivation from the stored nonce yields, so only the sanctioned
    /// operations can move it; and a settled vault is empty.
    pub open spec fn wf(self) -> bool {
        &&& self.vault.id == self.entry.vault_reference
        &&& rederived_authority_of(
            self.domain_tag@,
            self.program,
            self.entry.authority,
            self.entry.derivation_nonce,
        ) == Some(self.vault.owner)
        &&& (self.phase is Settled ==> self.vault.balance == 0)
    }

    /// Open a new escrow: derive the vault authority for this seller, create
    /// the vault and the ledger entry, and move the deposit from the
    /// seller's own account into the vault, authorized by the seller's own
    /// signature.
    ///
    /// On success the vault holds exactly `x_amount` under the derived
    /// authority and the entry mirrors the inputs; on failure nothing
    /// changes and no entry or vault comes to exist.
    pub fn initialize(
        domain_tag: Vec<u8>,
        program: Identity,
        seller: Identity,
        x_mint: Identity,
        y_mint: Identity,
        seller_x_token: &mut TokenAccount,
        vault_id: Identity,
        x_amount: u64,
        y_amount: u64,
    ) -> (r: Result<EscrowSession, EscrowError>)
        ensures
            ({
                let a = (Initialize {
                    seller,
                    x_mint,
                    y_mint,
                    seller_x_token: *old(seller_x_token),
                });
                let derived = derived_authority_of(domain_tag@, program, seller);
                match r {
                    Ok(s) => {
                        &&& spec_initialize_error(a, derived, x_amount) is None
                        &&& s.wf()
                        &&& s.phase is Open
                        &&& s.domain_tag@ == domain_tag@
                        &&& s.program == program
                        &&& s.entry.authority == seller
                        &&& s.entry.vault_reference == vault_id
                        &&& s.entry.wanted_asset_type == y_mint
                        &&& s.entry.wanted_amount == y_amount
                        &&& derived == Some((s.vault.owner, s.entry.derivation_nonce))
                        &&& s.vault == (TokenAccount {
                            id: vault_id,
                            asset_type: x_mint,
                            owner: s.vault.owner,
                            balance: x_amount,
                        })
                        &&& *final(seller_x_token) == old(seller_x_token).with_balance(
                            (old(seller_x_token).balance - x_amount) as u64,
                        )
                    },
                    Err(e) => {
                        &&& Some(e) == spec_initialize_error(a, derived, x_amount)
                        &&& *final(seller_x_token) == *old(seller_x_token)
                    },
                }
            }),
    {
        let a = Initialize { seller, x_mint, y_mint, seller_x_token: *seller_x_token };
        match validate_initialize(&a) {
            Err(e) => return Err(e),
            Ok(()) => (),
        }
        let derived = match find_derived_authority(&domain_tag, &program, &seller) {
            Some(p) => p,
            None => return Err(EscrowError::DerivationFailure),
        };
        let mut vault = TokenAccount { id: vault_id, asset_type: x_mint, owner: derived.0, balance: 0 };
        match transfer(seller_x_token, &mut vault, seller, x_amount) {
            Err(e) => return Err(e),
            Ok(()) => (),
        }
        let entry = Escrow {
            authority: seller,
            derivation_nonce: derived.1,
            vault_reference: vault_id,
            wanted_asset_type: y_mint,
            wanted_amount: y_amount,
        };
        Ok(EscrowSession { domain_tag, program, entry, vault, phase: Phase::Open })
    }

    /// Settle the swap in one indivisible unit: the vault's whole balance to
    /// the buyer, authorized by the re-derived vault authority, and the
    /// wanted amount from the buyer's paying account to the seller,
    /// authorized by the buyer's own signature. Both legs apply or neither
    /// does.
    ///
    /// On success the buyer holds the escrowed asset, the seller holds
    /// exactly the wanted amount more, the vault is empty and the escrow is
    /// settled; the entry is not destroyed. On failure nothing changes.
    pub fn accept(
        &mut self,
        buyer: Identity,
        sellers_y_tokens: &mut TokenAccount,
        buyer_x_tokens: &mut TokenAccount,
        buyer_y_tokens: &mut TokenAccount,
    ) -> (r: Result<(), EscrowError>)
        requires
            old(self).wf(),
        ensures
            final(self).wf(),
            ({
                let a = (Accept {
                    buyer,
                    sellers_y_tokens: *old(sellers_y_tokens),
                    buyer_x_tokens: *old(buyer_x_tokens),
                    buyer_y_tokens: *old(buyer_y_tokens),
                });
                match r {
                    Ok(()) => {
                        &&& spec_accept_error(*old(self), a) is None
                        &&& final(self).entry == old(self).entry
                        &&& final(self).domain_tag@ == old(self).domain_tag@
                        &&& final(self).program == old(self).program
                        &&& final(self).phase is Settled
                        &&& final(self).vault == old(self).vault.with_balance(0)
                        &&& *final(buyer_x_tokens) == old(buyer_x_tokens).with_balance(
                            (old(buyer_x_tokens).balance + old(self).vault.balance) as u64,
                        )
                        &&& *final(buyer_y_tokens) == old(buyer_y_tokens).with_balance(
                            (old(buyer_y_tokens).balance - old(self).entry.wanted_amount) as u64,
                        )
                        &&& *final(sellers_y_tokens) == old(sellers_y_tokens).with_balance(
                            (old(sellers_y_tokens).balance + old(self).entry.wanted_amount) as u64,
                        )
                    },
                    Err(e) => {
                        &&& Some(e) == spec_accept_error(*old(self), a)
                        &&& *final(self) == *old(self)
                        &&& *final(sellers_y_tokens) == *old(sellers_y_tokens)
                        &&& *final(buyer_x_tokens) == *old(buyer_x_tokens)
                        &&& *final(buyer_y_tokens) == *old(buyer_y_tokens)
                    },
                }
            }),
    {
        let a = Accept {
            buyer,
            sellers_y_tokens: *sellers_y_tokens,
            buyer_x_tokens: *buyer_x_tokens,
            buyer_y_tokens: *buyer_y_tokens,
        };
        if self.phase == Phase::Settled {
            return Err(EscrowError::AlreadySettled);
        }
        match validate_accept(&self.entry, &self.vault, &a) {
            Err(e) => return Err(e),
            Ok(()) => (),
        }
        // Both legs are checked before either applies: all-or-nothing.
        if self.vault.balance > u64::MAX - buyer_x_tokens.balance {
            return Err(EscrowError::TransferFailure);
        }
        if buyer_y_tokens.balance < self.entry.wanted_amount {
            return Err(EscrowError::TransferFailure);
        }
        if self.entry.wanted_amount > u64::MAX - sellers_y_tokens.balance {
            return Err(EscrowError::TransferFailure);
        }
        let authority = match rederive_authority(
            &self.domain_tag,
            &self.program,
            &self.entry.authority,
            self.entry.derivation_nonce,
        ) {
            Some(id) => id,
            None => unreached(),  // wf pins re-derivation to the vault's owner
        };
        let amount = self.vault.balance;
        match transfer(&mut self.vault, buyer_x_tokens, authority, amount) {
            Ok(()) => (),
            Err(_) => unreached(),
        }
        match transfer(buyer_y_tokens, sellers_y_tokens, buyer, self.entry.wanted_amount) {
            Ok(()) => (),
            Err(_) => unreached(),
        }
        self.phase = Phase::Settled;
        Ok(())
    }

    /// Cancel this escrow: move the vault's whole balance back to the
    /// seller, authorized by the re-derived vault authority, then destroy
    /// the vault and the ledger entry.
    ///
    /// Consumes the session on success — afterwards neither vault nor entry
    /// exists. On failure the untouched session is handed back along with
    /// the reason, and nothing moves.
    pub fn cancel(self, caller: Identity, seller_x_token: &mut TokenAccount) -> (r: Result<
        (),
        (EscrowError, EscrowSession),
    >)
        requires
            self.wf(),
        ensures
            ({
                let a = (Cancel { seller: caller, seller_x_token: *old(seller_x_token) });
                match r {
                    Ok(()) => {
                        &&& spec_cancel_error(self, a) is None
                        &&& *final(seller_x_token) == old(seller_x_token).with_balance(
                            (old(seller_x_token).balance + self.vault.balance) as u64,
                        )
                    },
                    Err(p) => {
                        &&& Some(p.0) == spec_cancel_error(self, a)
                        &&& p.1 == self
                        &&& *final(seller_x_token) == *old(seller_x_token)
                    },
                }
            }),
    {
        let a = Cancel { seller: caller, seller_x_token: *seller_x_token };
        match validate_cancel(&self.entry, &self.vault, &a) {
            Err(e) => return Err((e, self)),
            Ok(()) => (),
        }
        if self.vault.balance > u64::MAX - seller_x_token.balance {
            return Err((EscrowError::TransferFailure, self));
        }
        let authority = match rederive_authority(
            &self.domain_tag,
            &self.program,
            &self.entry.authority,
            self.entry.derivation_nonce,
        ) {
            Some(id) => id,
            None => unreached(),  // wf pins re-derivation to the vault's owner
        };
        let mut session = self;
        let amount = session.vault.balance;
        match transfer(&mut session.vault, seller_x_token, authority, amount) {
            Ok(()) => (),
            Err(_) => unreached(),
        }
        // The drained vault may now be closed by its own authority; its
        // storage, like the entry's, goes back to the seller.
        match close_account(&session.vault, authority) {
            Ok(()) => (),
            Err(_) => unreached(),
        }
        Ok(())
    }
}

} // verus!
