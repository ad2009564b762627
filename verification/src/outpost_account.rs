//! A seller's escrow account.
//!
//! An [`OpenTrader`] keeps the items its owner has put up for sale, one
//! [`Listing`] for each, and hands an item out only against the listed price
//! in the listed currency, to a buyer whose credential the listing admits.
//!
//! An item sits in the escrow vault exactly as long as it is listed.
//!
//! This file holds the account's state and what the seller does with it:
//! listing, changing and cancelling.  Purchases are in `purchase`, the
//! clearing of a sale in `settlement`.

use crate::account::items_of;
use crate::account::Account;
use crate::address::ComponentAddress;
use crate::address::TransactionHash;
use crate::address::Key;
use crate::address::NonFungibleGlobalId;
use crate::address::ResourceAddress;
use crate::amount::unit;
use crate::amount::Amount;
use crate::error::Error;
use crate::resource::FungibleBucket;
use crate::resource::NonFungibleBucket;
use crate::royalty::RoyalNFTs;
use crate::table::Table;
use vstd::prelude::*;

verus! {

/// An item put up for sale.
#[derive(Debug)]
pub struct Listing {
    /// The credentials that may buy the item: the badges of the marketplaces
    /// or private buyers the seller has chosen.
    pub secondary_seller_permissions: Vec<ResourceAddress>,
    /// The currency the seller wants to be paid in.
    pub currency: ResourceAddress,
    /// The price; marketplace fee and royalty are taken out of it.
    pub price: Amount,
    /// The item.
    pub nfgid: NonFungibleGlobalId,
    /// The address of the seller's escrow account.
    pub outpost_account: ComponentAddress,
}

/// A seller's escrow account.
pub struct OpenTrader {
    /// The listings, by item.
    pub listings: Table<NonFungibleGlobalId, Listing>,
    /// The items held in escrow.
    pub nft_vaults: Table<NonFungibleGlobalId, ()>,
    /// The badge that lets the account receive and pass on items whose
    /// movement is restricted.
    pub royal_admin: ResourceAddress,
    /// The class of the owner's key.
    pub auth_key_resource: ResourceAddress,
    /// The identifier of the owner's key within its class.
    pub auth_key_local: u64,
    /// The owner's own account.
    pub my_account: ComponentAddress,
    /// The address of this escrow account.
    pub trader_account_component_address: ComponentAddress,
    /// The transactions in which a royalty-enforced item was listed here.
    pub transactions: Table<TransactionHash, ()>,
    /// The single sale that awaits clearing: collection, item, recipient.
    pub latest_transaction: Option<(ResourceAddress, u64, ComponentAddress)>,
    /// The bulk sale that awaits clearing: recipient and items.
    pub latest_bulk_transaction: Option<(ComponentAddress, Vec<NonFungibleGlobalId>)>,
    /// How many transient tokens are in the account's vault: one, or none
    /// while a sale awaits clearing.
    pub transient_tokens: Amount,
    /// The class of the account's transient token.
    pub transient_token_address: ResourceAddress,
}

impl OpenTrader {
    /// Whether the item is held in escrow.
    pub open spec fn in_escrow(&self, nfgid: NonFungibleGlobalId) -> bool {
        self.nft_vaults@.contains_key(nfgid)
    }

    /// Whether the item is listed.
    pub open spec fn has_listing(&self, nfgid: NonFungibleGlobalId) -> bool {
        self.listings@.contains_key(nfgid)
    }

    /// Whether a sale awaits clearing.
    pub open spec fn settlement_pending(&self) -> bool {
        self.latest_transaction is Some || self.latest_bulk_transaction is Some
    }

    /// The account's invariant: the items in escrow are the listed items;
    /// every listing is filed under its own item, has a price above zero and
    /// names this account; the transient token is in the vault exactly when no
    /// sale awaits clearing, at most one sale does, and a bulk sale covers at
    /// least one item.
    pub open spec fn wf(&self) -> bool {
        &&& self.listings.wf()
        &&& self.nft_vaults.wf()
        &&& self.transactions.wf()
        &&& self.nft_vaults@.dom() =~= self.listings@.dom()
        &&& forall|k: NonFungibleGlobalId| #[trigger]
            self.listings@.contains_key(k) ==> {
                &&& self.listings@[k].nfgid == k
                &&& self.listings@[k].price@ > 0
                &&& self.listings@[k].outpost_account == self.trader_account_component_address
            }
        &&& (self.transient_tokens@ == unit() || self.transient_tokens@ == 0)
        &&& (self.transient_tokens@ == 0 <==> self.settlement_pending())
        &&& !(self.latest_transaction is Some && self.latest_bulk_transaction is Some)
        &&& self.latest_bulk_transaction is Some ==> self.latest_bulk_transaction->Some_0.1@.len()
            > 0
    }

    /// The transient token as it travels: one token of the account's class.
    pub open spec fn transient_token(&self) -> FungibleBucket {
        FungibleBucket {
            resource_address: self.transient_token_address,
            divisibility: 0,
            amount: Amount { attos: unit() as u128 },
        }
    }

    /// Whether `token` is one token of the account's transient class.
    pub open spec fn is_transient_token(&self, token: FungibleBucket) -> bool {
        token.resource_address == self.transient_token_address && token.amount@ == unit()
    }

    /// The state after `listing` was filed and its item taken into escrow;
    /// nothing else has changed but, possibly, the record of transactions.
    pub open spec fn listed(&self, next: &OpenTrader, listing: Listing) -> bool {
        &&& next.listings@ == self.listings@.insert(listing.nfgid, listing)
        &&& next.nft_vaults@ == self.nft_vaults@.insert(listing.nfgid, ())
        &&& *next == (OpenTrader {
            listings: next.listings,
            nft_vaults: next.nft_vaults,
            transactions: next.transactions,
            ..*self
        })
    }

    /// The state after the listing of `nfgid` was struck and its item taken
    /// out of escrow; nothing else has changed.
    pub open spec fn unlisted(&self, next: &OpenTrader, nfgid: NonFungibleGlobalId) -> bool {
        &&& next.listings@ == self.listings@.remove(nfgid)
        &&& next.nft_vaults@ == self.nft_vaults@.remove(nfgid)
        &&& *next == (OpenTrader {
            listings: next.listings,
            nft_vaults: next.nft_vaults,
            ..*self
        })
    }

    /// The state after the listing of `nfgid` was replaced by `listing`;
    /// nothing else has changed.
    pub open spec fn relisted(&self, next: &OpenTrader, listing: Listing) -> bool {
        &&& next.listings@ == self.listings@.insert(listing.nfgid, listing)
        &&& *next == (OpenTrader { listings: next.listings, ..*self })
    }

    /// Whether one item can be listed at `price`, and which: the bucket must
    /// hold exactly one item, not yet in escrow here, and the price must be
    /// above zero.
    pub open spec fn list_check(&self, bucket: &NonFungibleBucket, price: Amount) -> Result<
        NonFungibleGlobalId,
        Error,
    > {
        let nfgid = NonFungibleGlobalId {
            resource_address: bucket.resource(),
            local_id: bucket.local_ids()[0],
        };
        if bucket.local_ids().len() == 0 {
            Err(Error::NothingToTrade)
        } else if price@ == 0 {
            Err(Error::InvalidPrice)
        } else if bucket.local_ids().len() != 1 {
            Err(Error::ItemMismatch)
        } else if self.in_escrow(nfgid) {
            Err(Error::AlreadyListed)
        } else {
            Ok(nfgid)
        }
    }

    /// As [`OpenTrader::list_check`], for an item whose royalties are
    /// enforced: the price is looked at first.
    pub open spec fn royal_list_check(&self, bucket: &NonFungibleBucket, price: Amount) -> Result<
        NonFungibleGlobalId,
        Error,
    > {
        let nfgid = NonFungibleGlobalId {
            resource_address: bucket.resource(),
            local_id: bucket.local_ids()[0],
        };
        if price@ == 0 {
            Err(Error::InvalidPrice)
        } else if bucket.local_ids().len() != 1 {
            Err(Error::ItemMismatch)
        } else if self.in_escrow(nfgid) {
            Err(Error::AlreadyListed)
        } else {
            Ok(nfgid)
        }
    }

    /// Opens an escrow account.
    ///
    /// `auth_key` is the owner's key, `my_account` the owner's account,
    /// `depositer_admin` the badge that lets the account handle items whose
    /// movement is restricted, `trader_component_address` the address the
    /// account lives at.  `transient_token` must be exactly one token; it goes
    /// into the account's vault.
    pub fn create_trader(
        auth_key: NonFungibleGlobalId,
        my_account: ComponentAddress,
        depositer_admin: ResourceAddress,
        transient_token: FungibleBucket,
        trader_component_address: ComponentAddress,
    ) -> (r: Result<OpenTrader, Error>)
        ensures
            transient_token.amount@ != unit() ==> r is Err && r->Err_0 == Error::WrongToken,
            transient_token.amount@ == unit() ==> r is Ok,
            r is Ok ==> ({
                let t = r->Ok_0;
                &&& t.wf()
                &&& t.listings@ == Map::<NonFungibleGlobalId, Listing>::empty()
                &&& t.nft_vaults@ == Map::<NonFungibleGlobalId, ()>::empty()
                &&& t.transactions@ == Map::<TransactionHash, ()>::empty()
                &&& t.royal_admin == depositer_admin
                &&& t.auth_key_resource == auth_key.resource_address
                &&& t.auth_key_local == auth_key.local_id
                &&& t.my_account == my_account
                &&& t.trader_account_component_address == trader_component_address
                &&& t.latest_transaction is None
                &&& t.latest_bulk_transaction is None
                &&& t.transient_tokens == transient_token.amount
                &&& t.transient_token_address == transient_token.resource_address
            }),
    {
        if transient_token.amount.attos != 1_000_000_000_000_000_000 {
            return Err(Error::WrongToken);
        }
        let t = OpenTrader {
            listings: Table::new(),
            nft_vaults: Table::new(),
            royal_admin: depositer_admin,
            auth_key_resource: auth_key.resource_address,
            auth_key_local: auth_key.local_id,
            my_account,
            trader_account_component_address: trader_component_address,
            transactions: Table::new(),
            latest_transaction: None,
            latest_bulk_transaction: None,
            transient_tokens: transient_token.amount,
            transient_token_address: transient_token.resource_address,
        };
        Ok(t)
    }

    /// The owner's key: its class and its identifier.
    pub fn fetch_auth_key(&self) -> (r: (ResourceAddress, u64))
        ensures
            r == (self.auth_key_resource, self.auth_key_local),
    {
        (self.auth_key_resource, self.auth_key_local)
    }

    /// The class of the account's transient token.
    pub fn transient_token_address(&self) -> (r: ResourceAddress)
        ensures
            r == self.transient_token_address,
    {
        self.transient_token_address
    }

    /// The listing of an item, if it is listed.
    pub fn listing(&self, nfgid: &NonFungibleGlobalId) -> (r: Option<&Listing>)
        requires
            self.wf(),
        ensures
            match r {
                Some(l) => self.has_listing(*nfgid) && *l == self.listings@[*nfgid],
                None => !self.has_listing(*nfgid),
            },
    {
        self.listings.get(nfgid)
    }

    /// How many items are listed.
    pub fn listing_count(&self) -> (r: usize)
        ensures
            r == self.listings.spec_len(),
    {
        self.listings.len()
    }

    /// Whether a sale awaits clearing.
    pub fn is_settlement_pending(&self) -> (r: bool)
        ensures
            r == self.settlement_pending(),
    {
        self.latest_transaction.is_some() || self.latest_bulk_transaction.is_some()
    }

    fn store_listing(&mut self, listing: Listing)
        requires
            old(self).wf(),
            !old(self).in_escrow(listing.nfgid),
            listing.price@ > 0,
            listing.outpost_account == old(self).trader_account_component_address,
        ensures
            final(self).wf(),
            old(self).listed(final(self), listing),
            final(self).transactions == old(self).transactions,
    {
        let nfgid = listing.nfgid;
        self.listings.insert(nfgid, listing);
        self.nft_vaults.insert(nfgid, ());
    }

    /// Takes one item into escrow and lists it at `price` in `currency`, for
    /// buyers who show one of `permissions`.
    pub fn list(
        &mut self,
        nft_bucket: NonFungibleBucket,
        currency: ResourceAddress,
        price: Amount,
        permissions: Vec<ResourceAddress>,
    ) -> (r: Result<(), Error>)
        requires
            old(self).wf(),
        ensures
            final(self).wf(),
            match r {
                Ok(()) => {
                    &&& old(self).list_check(&nft_bucket, price) is Ok
                    &&& old(self).listed(
                        final(self),
                        Listing {
                            secondary_seller_permissions: permissions,
                            currency,
                            price,
                            nfgid: old(self).list_check(&nft_bucket, price)->Ok_0,
                            outpost_account: old(self).trader_account_component_address,
                        },
                    )
                    &&& final(self).transactions == old(self).transactions
                },
                Err(e) => old(self).list_check(&nft_bucket, price) == Err::<
                    NonFungibleGlobalId,
                    Error,
                >(e) && *final(self) == *old(self),
            },
    {
        if nft_bucket.is_empty() {
            return Err(Error::NothingToTrade);
        }
        if price.is_zero() {
            return Err(Error::InvalidPrice);
        }
        let local_id = match nft_bucket.non_fungible_local_id() {
            Some(local_id) => local_id,
            None => {
                return Err(Error::ItemMismatch);
            },
        };
        let nfgid = NonFungibleGlobalId {
            resource_address: nft_bucket.resource_address(),
            local_id,
        };
        if self.nft_vaults.contains_key(&nfgid) {
            return Err(Error::AlreadyListed);
        }
        let new_listing = Listing {
            secondary_seller_permissions: permissions,
            currency,
            price,
            nfgid,
            outpost_account: self.trader_account_component_address,
        };
        self.store_listing(new_listing);
        Ok(())
    }

    /// Takes one item whose royalties are enforced into escrow and lists it.
    /// The transaction `transaction_hash` is recorded, so that the item cannot
    /// be bought in the transaction that lists it.
    pub fn royal_list(
        &mut self,
        nft_to_list: NonFungibleBucket,
        price: Amount,
        currency: ResourceAddress,
        permissions: Vec<ResourceAddress>,
        transaction_hash: TransactionHash,
    ) -> (r: Result<(), Error>)
        requires
            old(self).wf(),
        ensures
            final(self).wf(),
            match r {
                Ok(()) => {
                    &&& old(self).royal_list_check(&nft_to_list, price) is Ok
                    &&& old(self).listed(
                        final(self),
                        Listing {
                            secondary_seller_permissions: permissions,
                            currency,
                            price,
                            nfgid: old(self).royal_list_check(&nft_to_list, price)->Ok_0,
                            outpost_account: old(self).trader_account_component_address,
                        },
                    )
                    &&& final(self).transactions@ == old(self).transactions@.insert(
                        transaction_hash,
                        (),
                    )
                },
                Err(e) => old(self).royal_list_check(&nft_to_list, price) == Err::<
                    NonFungibleGlobalId,
                    Error,
                >(e) && *final(self) == *old(self),
            },
    {
        if price.is_zero() {
            return Err(Error::InvalidPrice);
        }
        let local_id = match nft_to_list.non_fungible_local_id() {
            Some(local_id) => local_id,
            None => {
                return Err(Error::ItemMismatch);
            },
        };
        let nfgid = NonFungibleGlobalId {
            resource_address: nft_to_list.resource_address(),
            local_id,
        };
        if self.nft_vaults.contains_key(&nfgid) {
            return Err(Error::AlreadyListed);
        }
        self.transactions.insert(transaction_hash, ());
        let new_listing = Listing {
            secondary_seller_permissions: permissions,
            currency,
            price,
            nfgid,
            outpost_account: self.trader_account_component_address,
        };
        self.store_listing(new_listing);
        Ok(())
    }

    /// Strikes the listing of `nfgid` and takes the item out of escrow.
    fn take_listing(&mut self, nfgid: &NonFungibleGlobalId) -> (r: Option<Listing>)
        requires
            old(self).wf(),
        ensures
            final(self).wf(),
            match r {
                Some(listing) => old(self).has_listing(*nfgid) && listing == old(self).listings@[*nfgid]
                    && old(self).unlisted(final(self), *nfgid),
                None => !old(self).has_listing(*nfgid) && *final(self) == *old(self),
            },
    {
        if !self.listings.contains_key(nfgid) {
            return None;
        }
        let listing = self.listings.remove(nfgid);
        self.nft_vaults.remove(nfgid);
        listing
    }

    /// Cancels the listing of an item and hands the item back.
    pub fn cancel_listing(&mut self, nft_id: NonFungibleGlobalId) -> (r: Result<
        NonFungibleBucket,
        Error,
    >)
        requires
            old(self).wf(),
        ensures
            final(self).wf(),
            match r {
                Ok(bucket) => {
                    &&& old(self).has_listing(nft_id)
                    &&& old(self).unlisted(final(self), nft_id)
                    &&& bucket.wf()
                    &&& bucket.resource() == nft_id.resource_address
                    &&& bucket.local_ids() == seq![nft_id.local_id]
                },
                Err(e) => e == Error::ListingNotFound && !old(self).has_listing(nft_id)
                    && *final(self) == *old(self),
            },
    {
        match self.take_listing(&nft_id) {
            Some(_) => Ok(NonFungibleBucket::single(nft_id)),
            None => Err(Error::ListingNotFound),
        }
    }

    /// What stands in the way of cancelling the listing of `nfgid` and
    /// returning the item to `my_account` under the collection's policy
    /// `royalty`.
    pub open spec fn cancel_royal_check(
        &self,
        nfgid: NonFungibleGlobalId,
        my_account: &Account,
        royalty: &RoyalNFTs,
    ) -> Result<(), Error> {
        if !self.has_listing(nfgid) {
            Err(Error::ListingNotFound)
        } else if royalty.nft_manager != nfgid.resource_address {
            Err(Error::PolicyMismatch)
        } else if my_account.spec_address() != self.my_account || !royalty.depositable.permits(
            Some(self.royal_admin),
        ) {
            Err(Error::NotAuthorized)
        } else {
            Ok(())
        }
    }

    /// Cancels the listing of an item whose royalties are enforced and
    /// deposits the item into the owner's account, on the authority of the
    /// escrow account's badge.
    pub fn cancel_royal_listing(
        &mut self,
        nfgid: NonFungibleGlobalId,
        my_account: &mut Account,
        royalty: &RoyalNFTs,
    ) -> (r: Result<(), Error>)
        requires
            old(self).wf(),
            old(my_account).wf(),
        ensures
            final(self).wf(),
            final(my_account).wf(),
            final(my_account).spec_address() == old(my_account).spec_address(),
            r == old(self).cancel_royal_check(nfgid, old(my_account), royalty),
            r is Err ==> *final(self) == *old(self) && *final(my_account) == *old(my_account),
            r is Ok ==> old(self).unlisted(final(self), nfgid) && final(my_account).holdings()
                == old(my_account).holdings().insert(nfgid),
    {
        if !self.listings.contains_key(&nfgid) {
            return Err(Error::ListingNotFound);
        }
        if !royalty.nft_manager.same(&nfgid.resource_address) {
            return Err(Error::PolicyMismatch);
        }
        if !my_account.address().same(&self.my_account) {
            return Err(Error::NotAuthorized);
        }
        let bucket = NonFungibleBucket::single(nfgid);
        match my_account.try_deposit_or_abort(bucket, &royalty.depositable, Some(self.royal_admin)) {
            Ok(()) => {},
            Err(e) => {
                return Err(e);
            },
        }
        proof {
            let added = items_of(nfgid.resource_address, seq![nfgid.local_id], 1);
            assert(added =~= Set::<NonFungibleGlobalId>::empty().insert(nfgid)) by {
                assert forall|k: NonFungibleGlobalId| added.contains(k) <==> k == nfgid by {
                    if k == nfgid {
                        assert(seq![nfgid.local_id][0] == k.local_id);
                    }
                }
            }
            assert(old(my_account).holdings().union(added) =~= old(my_account).holdings().insert(
                nfgid,
            ));
        }
        self.take_listing(&nfgid);
        Ok(())
    }
}

} // verus!
