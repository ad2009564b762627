//! Clearing a sale.
//!
//! A sale of items whose royalties are enforced opens the collection's
//! transfers so that the buyer can carry the items to the declared recipient.
//! The sale stays open until the buyer comes back with the account's
//! transient token.  Clearing verifies that the recipient holds every item of
//! the sale, takes the token back, closes the collection's transfers again and
//! forgets the sale.
//!
//! Nothing forces the buyer to come back.  Until then the account can start no
//! other sale of this kind, and the collection's transfers stay open.

use crate::account::Account;
use crate::address::ComponentAddress;
use crate::address::Key;
use crate::address::NonFungibleGlobalId;
use crate::amount::unit;
use crate::amount::Amount;
use crate::error::Error;
use crate::outpost_account::OpenTrader;
use crate::resource::FungibleBucket;
use crate::royalty::RoyalNFTs;
use vstd::prelude::*;

verus! {

impl RoyalNFTs {
    /// The state after a sale was cleared: the deposit rule is the one that
    /// holds outside a settlement; all else is as it was.
    pub open spec fn relocked(&self, next: &RoyalNFTs) -> bool {
        next.transfers_restored() && *next == (RoyalNFTs {
            depositable: next.depositable,
            ..*self
        })
    }
}

impl OpenTrader {
    /// Whether `recipient` is the account `destination` and holds every one
    /// of `items`.
    pub open spec fn observed(
        recipient: &Account,
        destination: ComponentAddress,
        items: Seq<NonFungibleGlobalId>,
    ) -> bool {
        recipient.spec_address() == destination && forall|i: int|
            0 <= i < items.len() ==> recipient.holdings().contains(#[trigger] items[i])
    }

    /// What stands in the way of clearing a single sale: the token is not one
    /// token of the account's transient class; no single sale awaits
    /// clearing; `recipient` is not the declared recipient or does not hold
    /// the item; `royalty` is not the policy of the item's collection; or the
    /// account's badge may not change the collection's deposit rule.
    pub open spec fn cleared_check(
        &self,
        transient_token: FungibleBucket,
        recipient: &Account,
        royalty: &RoyalNFTs,
    ) -> Result<(), Error> {
        if !self.is_transient_token(transient_token) {
            Err(Error::WrongToken)
        } else if self.latest_transaction is None {
            Err(Error::NoPendingTransfer)
        } else {
            let pending = self.latest_transaction->Some_0;
            let item = NonFungibleGlobalId { resource_address: pending.0, local_id: pending.1 };
            if !Self::observed(recipient, pending.2, seq![item]) {
                Err(Error::TransferNotObserved)
            } else if royalty.nft_manager != pending.0 {
                Err(Error::PolicyMismatch)
            } else if !royalty.may_update_depositable(Some(self.royal_admin)) {
                Err(Error::NotAuthorized)
            } else {
                Ok(())
            }
        }
    }

    /// As [`OpenTrader::cleared_check`], for a bulk sale: `recipient` must
    /// hold every item of the sale.
    pub open spec fn multi_cleared_check(
        &self,
        transient_token: FungibleBucket,
        recipient: &Account,
        royalty: &RoyalNFTs,
    ) -> Result<(), Error> {
        if !self.is_transient_token(transient_token) {
            Err(Error::WrongToken)
        } else if self.latest_bulk_transaction is None {
            Err(Error::NoPendingTransfer)
        } else {
            let pending = self.latest_bulk_transaction->Some_0;
            if !Self::observed(recipient, pending.0, pending.1@) {
                Err(Error::TransferNotObserved)
            } else if royalty.nft_manager != pending.1@[0].resource_address {
                Err(Error::PolicyMismatch)
            } else if !royalty.may_update_depositable(Some(self.royal_admin)) {
                Err(Error::NotAuthorized)
            } else {
                Ok(())
            }
        }
    }

    /// The state after the sale was cleared: the transient token is back in
    /// the vault and no sale awaits clearing; all else is as it was.
    pub open spec fn settled(&self, next: &OpenTrader) -> bool {
        *next == (OpenTrader {
            latest_transaction: None,
            latest_bulk_transaction: None,
            transient_tokens: Amount { attos: unit() as u128 },
            ..*self
        })
    }

    fn check_token(&self, transient_token: &FungibleBucket) -> (r: bool)
        ensures
            r == self.is_transient_token(*transient_token),
    {
        transient_token.resource_address.same(&self.transient_token_address)
            && transient_token.amount.attos == 1_000_000_000_000_000_000
    }

    /// Clears the single sale that awaits clearing.
    ///
    /// `transient_token` is the token the purchase handed out; `recipient` is
    /// the account the buyer declared; `royalty` is the policy of the item's
    /// collection.
    pub fn cleared(&mut self, transient_token: FungibleBucket, recipient: &Account, royalty: &mut RoyalNFTs) -> (r:
        Result<(), Error>)
        requires
            old(self).wf(),
            recipient.wf(),
            old(royalty).wf(),
        ensures
            final(self).wf(),
            final(royalty).wf(),
            r == old(self).cleared_check(transient_token, recipient, old(royalty)),
            r is Err ==> *final(self) == *old(self) && *final(royalty) == *old(royalty),
            r is Ok ==> old(self).settled(final(self)) && old(royalty).relocked(final(royalty)),
    {
        if !self.check_token(&transient_token) {
            return Err(Error::WrongToken);
        }
        let (nft_resource, nft_local, account_recipient) = match self.latest_transaction {
            Some(pending) => pending,
            None => {
                return Err(Error::NoPendingTransfer);
            },
        };
        proof {
            let item = NonFungibleGlobalId { resource_address: nft_resource, local_id: nft_local };
            assert(seq![item][0] == item);
        }
        if !recipient.address().same(&account_recipient) || !recipient.has_non_fungible(
            nft_resource,
            nft_local,
        ) {
            return Err(Error::TransferNotObserved);
        }
        if !royalty.nft_manager.same(&nft_resource) {
            return Err(Error::PolicyMismatch);
        }
        match royalty.restore_transfers(Some(self.royal_admin)) {
            Ok(()) => {},
            Err(e) => {
                return Err(e);
            },
        }
        self.transient_tokens = transient_token.amount;
        self.latest_transaction = None;
        Ok(())
    }

    /// Whether `recipient` holds every one of `items`.
    fn holds_all(recipient: &Account, items: &Vec<NonFungibleGlobalId>) -> (r: bool)
        requires
            recipient.wf(),
        ensures
            r == forall|i: int|
                0 <= i < items@.len() ==> recipient.holdings().contains(#[trigger] items@[i]),
    {
        let mut i: usize = 0;
        while i < items.len()
            invariant
                i <= items.len(),
                recipient.wf(),
                forall|q: int| 0 <= q < i ==> recipient.holdings().contains(#[trigger] items@[q]),
            decreases items.len() - i,
        {
            if !recipient.has_non_fungible(items[i].resource_address, items[i].local_id) {
                return false;
            }
            i += 1;
        }
        true
    }

    /// Clears the bulk sale that awaits clearing.
    ///
    /// `transient_token` is the token the purchase handed out; `recipient` is
    /// the account the buyer declared; `royalty` is the policy of the items'
    /// collection.
    pub fn multi_cleared(
        &mut self,
        transient_token: FungibleBucket,
        recipient: &Account,
        royalty: &mut RoyalNFTs,
    ) -> (r: Result<(), Error>)
        requires
            old(self).wf(),
            recipient.wf(),
            old(royalty).wf(),
        ensures
            final(self).wf(),
            final(royalty).wf(),
            r == old(self).multi_cleared_check(transient_token, recipient, old(royalty)),
            r is Err ==> *final(self) == *old(self) && *final(royalty) == *old(royalty),
            r is Ok ==> old(self).settled(final(self)) && old(royalty).relocked(final(royalty)),
    {
        if !self.check_token(&transient_token) {
            return Err(Error::WrongToken);
        }
        match &self.latest_bulk_transaction {
            Some(pending) => {
                if !recipient.address().same(&pending.0) || !Self::holds_all(recipient, &pending.1) {
                    return Err(Error::TransferNotObserved);
                }
                if !royalty.nft_manager.same(&pending.1[0].resource_address) {
                    return Err(Error::PolicyMismatch);
                }
            },
            None => {
                return Err(Error::NoPendingTransfer);
            },
        }
        match royalty.restore_transfers(Some(self.royal_admin)) {
            Ok(()) => {},
            Err(e) => {
                return Err(e);
            },
        }
        self.transient_tokens = transient_token.amount;
        self.latest_bulk_transaction = None;
        Ok(())
    }
}

} // verus!
