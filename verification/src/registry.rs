//! The ledger: the host's keyed account store, modelled as an explicit map
//! from seller identity to open ledger entry.

use vstd::prelude::*;
use crate::entry::Escrow;
use crate::error::EscrowError;
use crate::ident::Identity;

verus! {

/// The open ledger entries, at most one per seller.
pub struct Registry {
    /// The open entries, in creation order.
    pub entries: Vec<Escrow>,
}

impl Registry {
    /// At most one open entry per seller identity: the derivation scheme
    /// binds one vault authority to one seller, so one seller cannot hold
    /// two open escrows.
    pub open spec fn wf(self) -> bool {
        forall|i: int, j: int|
            0 <= i < j < self.entries@.len() ==> self.entries@[i].authority
                != self.entries@[j].authority
    }

    /// Whether an open entry exists for `seller`.
    pub open spec fn spec_contains(self, seller: Identity) -> bool {
        exists|i: int|
            0 <= i < self.entries@.len() && self.entries@[i].authority == seller
    }

    /// An empty ledger.
    pub fn new() -> (r: Registry)
        ensures
            r.wf(),
            r.entries@.len() == 0,
    {
        Registry { entries: Vec::new() }
    }

    /// The position of the open entry for `seller`, if any.
    pub fn find(&self, seller: Identity) -> (r: Option<usize>)
        ensures
            (r matches Some(i) ==> i < self.entries@.len() && self.entries@[i as int].authority
                == seller),
            r is None <==> !self.spec_contains(seller),
    {
        let mut i: usize = 0;
        while i < self.entries.len()
            invariant
                0 <= i <= self.entries@.len(),
                forall|k: int| 0 <= k < i ==> self.entries@[k].authority != seller,
            decreases self.entries@.len() - i,
        {
            if self.entries[i].authority == seller {
                return Some(i);
            }
            i += 1;
        }
        None
    }

    /// Record a newly created entry; refused when the seller already has an
    /// open one.
    pub fn insert(&mut self, e: Escrow) -> (r: Result<(), EscrowError>)
        requires
            old(self).wf(),
        ensures
            final(self).wf(),
            r is Ok <==> !old(self).spec_contains(e.authority),
            r is Ok ==> final(self).entries@ == old(self).entries@.push(e),
            r is Err ==> *final(self) == *old(self) && r == Err::<(), EscrowError>(
                EscrowError::EntryAlreadyExists,
            ),
    {
        match self.find(e.authority) {
            Some(_) => Err(EscrowError::EntryAlreadyExists),
            None => {
                self.entries.push(e);
                Ok(())
            },
        }
    }

    /// Remove and return the open entry for `seller`, if any; every other
    /// entry stays, in order.
    pub fn remove(&mut self, seller: Identity) -> (r: Option<Escrow>)
        requires
            old(self).wf(),
        ensures
            final(self).wf(),
            r is None <==> !old(self).spec_contains(seller),
            r is None ==> *final(self) == *old(self),
            (r matches Some(e) ==> e.authority == seller && !final(self).spec_contains(seller)
                && (exists|i: int|
                    0 <= i < old(self).entries@.len() && old(self).entries@[i] == e
                        && final(self).entries@ == old(self).entries@.remove(i))),
    {
        match self.find(seller) {
            None => None,
            Some(i) => {
                let e = self.entries.remove(i);
                proof {
                    let olds = old(self).entries@;
                    let news = self.entries@;
                    assert(news == olds.remove(i as int));
                    assert forall|a: int, b: int|
                        0 <= a < b < news.len() implies news[a].authority
                        != news[b].authority by {
                        assert(news[a] == (if a < i { olds[a] } else { olds[a + 1] }));
                        assert(news[b] == (if b < i { olds[b] } else { olds[b + 1] }));
                    }
                    assert forall|k: int| 0 <= k < news.len() implies news[k].authority
                        != seller by {
                        assert(news[k] == (if k < i { olds[k] } else { olds[k + 1] }));
                    }
                    assert(olds[i as int] == e);
                }
                Some(e)
            },
        }
    }
}

} // verus!
