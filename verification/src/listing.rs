//! Changing a listing, and listing many items at once.

use crate::address::Key;
use crate::address::NonFungibleGlobalId;
use crate::address::ResourceAddress;
use crate::address::TransactionHash;
use crate::amount::Amount;
use crate::error::Error;
use crate::id_set::distinct_ids;
use crate::id_set::id_set_insert;
use crate::id_set::id_set_is_superset;
use crate::id_set::id_set_new;
use crate::id_set::ids;
use crate::id_set::ids_within;
use crate::id_set::lemma_distinct_ids;
use crate::id_set::lemma_insert_id;
use crate::outpost_account::Listing;
use crate::outpost_account::OpenTrader;
use crate::resource::copy_addresses;
use crate::resource::NonFungibleBucket;
use vstd::prelude::*;

verus! {

/// `list` without every occurrence of `address`.
pub open spec fn without_address(list: Seq<ResourceAddress>, address: ResourceAddress) -> Seq<
    ResourceAddress,
>
    decreases list.len(),
{
    if list.len() == 0 {
        Seq::empty()
    } else if list.last() == address {
        without_address(list.drop_last(), address)
    } else {
        without_address(list.drop_last(), address).push(list.last())
    }
}

/// What is left of a list without an address holds every other member of the
/// list and nothing else.
pub proof fn lemma_without_address(list: Seq<ResourceAddress>, address: ResourceAddress)
    ensures
        !without_address(list, address).contains(address),
        forall|a: ResourceAddress|
            a != address ==> (without_address(list, address).contains(a) <==> list.contains(a)),
    decreases list.len(),
{
    if list.len() > 0 {
        let init = list.drop_last();
        lemma_without_address(init, address);
        let w = without_address(init, address);
        let out = without_address(list, address);
        assert forall|a: ResourceAddress| a != address implies (out.contains(a) <==> list.contains(
            a,
        )) by {
            if list.contains(a) {
                let i = choose|i: int| 0 <= i < list.len() && list[i] == a;
                if i < list.len() - 1 {
                    assert(init[i] == a);
                    assert(init.contains(a));
                    assert(w.contains(a));
                    let j = choose|j: int| 0 <= j < w.len() && w[j] == a;
                    assert(out[j] == a);
                } else {
                    assert(out[out.len() - 1] == a);
                }
            }
            if out.contains(a) {
                let j = choose|j: int| 0 <= j < out.len() && out[j] == a;
                if j < w.len() {
                    assert(w[j] == a);
                    assert(init.contains(a));
                    let i = choose|i: int| 0 <= i < init.len() && init[i] == a;
                    assert(list[i] == a);
                } else {
                    assert(list[list.len() - 1] == a);
                }
            }
        }
        if out.contains(address) {
            let j = choose|j: int| 0 <= j < out.len() && out[j] == address;
            if j < w.len() {
                assert(w[j] == address);
            }
        }
    }
}

/// A copy of `list` without every occurrence of `address`.
pub fn remove_address(list: &Vec<ResourceAddress>, address: &ResourceAddress) -> (r: Vec<
    ResourceAddress,
>)
    ensures
        r@ == without_address(list@, *address),
{
    let mut out: Vec<ResourceAddress> = Vec::new();
    let mut i: usize = 0;
    while i < list.len()
        invariant
            i <= list.len(),
            out@ == without_address(list@.take(i as int), *address),
        decreases list.len() - i,
    {
        proof {
            assert(list@.take(i as int + 1).drop_last() =~= list@.take(i as int));
        }
        if !list[i].same(address) {
            out.push(list[i]);
        }
        i += 1;
    }
    proof {
        assert(list@.take(list@.len() as int) =~= list@);
    }
    out
}

/// What is wrong with one entry of a batch for collection `resource`: the
/// item is of another collection, or the price is zero.
pub open spec fn entry_fault(resource: ResourceAddress, entry: (NonFungibleGlobalId, Amount)) -> Option<
    Error,
> {
    if entry.0.resource_address != resource {
        Some(Error::ItemMismatch)
    } else if entry.1@ == 0 {
        Some(Error::InvalidPrice)
    } else {
        None
    }
}

/// The fault of the first faulty entry of a batch, if any entry is faulty.
pub open spec fn entries_fault(resource: ResourceAddress, batch: Seq<(NonFungibleGlobalId, Amount)>) -> Option<
    Error,
>
    decreases batch.len(),
{
    if batch.len() == 0 {
        None
    } else {
        match entries_fault(resource, batch.drop_last()) {
            Some(e) => Some(e),
            None => entry_fault(resource, batch.last()),
        }
    }
}

/// The identifiers of the items of a batch, in order.
pub open spec fn entry_ids(batch: Seq<(NonFungibleGlobalId, Amount)>) -> Seq<u64> {
    Seq::new(batch.len(), |i: int| batch[i].0.local_id)
}

/// A batch without faults has only items of the collection, at prices above
/// zero.
pub proof fn lemma_entries_fault(resource: ResourceAddress, batch: Seq<(NonFungibleGlobalId, Amount)>)
    ensures
        entries_fault(resource, batch) is None <==> forall|i: int|
            0 <= i < batch.len() ==> entry_fault(resource, #[trigger] batch[i]) is None,
    decreases batch.len(),
{
    if batch.len() > 0 {
        let init = batch.drop_last();
        lemma_entries_fault(resource, init);
        if entries_fault(resource, batch) is None {
            assert forall|i: int| 0 <= i < batch.len() implies entry_fault(
                resource,
                #[trigger] batch[i],
            ) is None by {
                if i < batch.len() - 1 {
                    assert(init[i] == batch[i]);
                }
            }
        } else if entries_fault(resource, init) is None {
            assert(entry_fault(resource, batch[batch.len() - 1]) is Some);
        } else {
            let i = choose|i: int|
                0 <= i < init.len() && !(entry_fault(resource, #[trigger] init[i]) is None);
            assert(init[i] == batch[i]);
        }
    }
}

impl OpenTrader {
    /// Whether the batch `listings` can be listed out of the bucket `items`:
    /// the bucket is not empty; every entry names an item of the bucket's
    /// collection at a price above zero; the entries name exactly the items of
    /// the bucket; and none of them is in escrow already.
    pub open spec fn multi_list_check(
        &self,
        listings: Seq<(NonFungibleGlobalId, Amount)>,
        items: &NonFungibleBucket,
    ) -> Result<(), Error> {
        if items.local_ids().len() == 0 {
            Err(Error::NothingToTrade)
        } else if entries_fault(items.resource(), listings) is Some {
            Err(entries_fault(items.resource(), listings)->Some_0)
        } else if !ids_within(entry_ids(listings), items.local_ids()) || !ids_within(
            items.local_ids(),
            entry_ids(listings),
        ) {
            Err(Error::ItemMismatch)
        } else if exists|i: int| 0 <= i < listings.len() && self.in_escrow(#[trigger] listings[i].0) {
            Err(Error::AlreadyListed)
        } else {
            Ok(())
        }
    }

    /// The state after the first `n` entries of the batch `listings` were
    /// listed in `currency` for the buyers `permissions`: each of their items
    /// is in escrow and listed, at the price of the last entry that names it;
    /// every other listing is as it was.
    pub open spec fn batch_listed(
        &self,
        next: &OpenTrader,
        listings: Seq<(NonFungibleGlobalId, Amount)>,
        n: int,
        currency: ResourceAddress,
        permissions: Seq<ResourceAddress>,
    ) -> bool {
        &&& forall|k: NonFungibleGlobalId| #[trigger]
            next.listings@.contains_key(k) <==> (self.listings@.contains_key(k) || exists|i: int|
                0 <= i < n && listings[i].0 == k)
        &&& forall|k: NonFungibleGlobalId|
            self.listings@.contains_key(k) && !(exists|i: int| 0 <= i < n && listings[i].0 == k)
                ==> #[trigger] next.listings@[k] == self.listings@[k]
        &&& forall|i: int|
            0 <= i < n ==> {
                let l = next.listings@[(#[trigger] listings[i]).0];
                &&& l.nfgid == listings[i].0
                &&& l.currency == currency
                &&& l.secondary_seller_permissions@ == permissions
                &&& l.outpost_account == self.trader_account_component_address
                &&& (forall|j: int| i < j < n ==> listings[j].0 != listings[i].0) ==> l.price
                    == listings[i].1
            }
        &&& next.nft_vaults@.dom() =~= next.listings@.dom()
        &&& *next == (OpenTrader {
            listings: next.listings,
            nft_vaults: next.nft_vaults,
            transactions: next.transactions,
            ..*self
        })
    }

    /// Checks a batch against the bucket it is to be listed from.
    fn check_batch(&self, listings: &Vec<(NonFungibleGlobalId, Amount)>, items: &NonFungibleBucket) -> (r:
        Result<(), Error>)
        requires
            self.wf(),
            items.wf(),
        ensures
            r == self.multi_list_check(listings@, items),
    {
        if items.is_empty() {
            return Err(Error::NothingToTrade);
        }
        let bucket_resource_address = items.resource_address();
        let mut listing_local_ids = id_set_new();
        let mut i: usize = 0;
        while i < listings.len()
            invariant
                i <= listings.len(),
                items.local_ids().len() != 0,
                bucket_resource_address == items.resource(),
                entries_fault(items.resource(), listings@.take(i as int)) is None,
                ids(listing_local_ids) == distinct_ids(entry_ids(listings@.take(i as int))),
                ids(listing_local_ids).no_duplicates(),
            decreases listings.len() - i,
        {
            let nfgid = listings[i].0;
            let price = listings[i].1;
            proof {
                assert(listings@.take(i as int + 1).drop_last() =~= listings@.take(i as int));
                assert(entry_ids(listings@.take(i as int + 1)).drop_last() =~= entry_ids(
                    listings@.take(i as int),
                ));
                lemma_insert_id(ids(listing_local_ids), nfgid.local_id);
                assert(listings@ =~= listings@.take(i as int + 1) + listings@.skip(i as int + 1));
            }
            proof {
                assert(listings@.take(i as int + 1).last() == listings@[i as int]);
                assert(entries_fault(items.resource(), listings@.take(i as int + 1)) == entry_fault(
                    items.resource(),
                    listings@[i as int],
                ));
            }
            if !nfgid.resource_address.same(&bucket_resource_address) {
                proof {
                    lemma_fault_extends(items.resource(), listings@, i as int + 1);
                }
                return Err(Error::ItemMismatch);
            }
            if price.is_zero() {
                proof {
                    lemma_fault_extends(items.resource(), listings@, i as int + 1);
                }
                return Err(Error::InvalidPrice);
            }
            id_set_insert(&mut listing_local_ids, nfgid.local_id);
            i += 1;
        }
        proof {
            assert(listings@.take(listings@.len() as int) =~= listings@);
            lemma_distinct_ids(entry_ids(listings@));
        }
        if !id_set_is_superset(items.id_set(), &listing_local_ids) {
            return Err(Error::ItemMismatch);
        }
        if !id_set_is_superset(&listing_local_ids, items.id_set()) {
            return Err(Error::ItemMismatch);
        }
        let mut j: usize = 0;
        while j < listings.len()
            invariant
                j <= listings.len(),
                self.wf(),
                items.local_ids().len() != 0,
                entries_fault(items.resource(), listings@) is None,
                ids_within(entry_ids(listings@), items.local_ids()),
                ids_within(items.local_ids(), entry_ids(listings@)),
                forall|q: int| 0 <= q < j ==> !self.in_escrow(#[trigger] listings@[q].0),
            decreases listings.len() - j,
        {
            if self.nft_vaults.contains_key(&listings[j].0) {
                proof {
                    assert(0 <= j < listings@.len() && self.in_escrow(listings@[j as int].0));
                }
                return Err(Error::AlreadyListed);
            }
            j += 1;
        }
        Ok(())
    }

    /// Files the entries of a checked batch, one after the other.
    fn store_batch(
        &mut self,
        listings: &Vec<(NonFungibleGlobalId, Amount)>,
        currency: ResourceAddress,
        permissions: &Vec<ResourceAddress>,
    )
        requires
            old(self).wf(),
            forall|i: int| 0 <= i < listings@.len() ==> (#[trigger] listings@[i]).1@ > 0,
        ensures
            final(self).wf(),
            old(self).batch_listed(
                final(self),
                listings@,
                listings@.len() as int,
                currency,
                permissions@,
            ),
            final(self).transactions == old(self).transactions,
    {
        let mut i: usize = 0;
        while i < listings.len()
            invariant
                i <= listings.len(),
                self.wf(),
                forall|q: int| 0 <= q < listings@.len() ==> (#[trigger] listings@[q]).1@ > 0,
                old(self).batch_listed(self, listings@, i as int, currency, permissions@),
                self.transactions == old(self).transactions,
            decreases listings.len() - i,
        {
            let nfgid = listings[i].0;
            let price = listings[i].1;
            let ghost before = *self;
            let new_listing = Listing {
                secondary_seller_permissions: copy_addresses(permissions),
                currency,
                price,
                nfgid,
                outpost_account: self.trader_account_component_address,
            };
            self.listings.insert(nfgid, new_listing);
            self.nft_vaults.insert(nfgid, ());
            proof {
                let n = i as int + 1;
                assert(listings@[i as int].0 == nfgid);
                assert forall|k: NonFungibleGlobalId| #[trigger]
                    self.listings@.contains_key(k) <==> (old(self).listings@.contains_key(k)
                        || exists|q: int| 0 <= q < n && listings@[q].0 == k) by {
                    if before.listings@.contains_key(k) && !old(self).listings@.contains_key(k) {
                        let q = choose|q: int| 0 <= q < i && listings@[q].0 == k;
                        assert(0 <= q < n && listings@[q].0 == k);
                    }
                    if exists|q: int| 0 <= q < n && listings@[q].0 == k {
                        let q = choose|q: int| 0 <= q < n && listings@[q].0 == k;
                        if q < i {
                            assert(0 <= q < i && listings@[q].0 == k);
                        }
                    }
                }
                assert forall|k: NonFungibleGlobalId|
                    old(self).listings@.contains_key(k) && !(exists|q: int|
                        0 <= q < n && listings@[q].0 == k) implies #[trigger] self.listings@[k]
                    == old(self).listings@[k] by {
                    assert(k != nfgid);
                    if exists|q: int| 0 <= q < i && listings@[q].0 == k {
                        let q = choose|q: int| 0 <= q < i && listings@[q].0 == k;
                        assert(0 <= q < n && listings@[q].0 == k);
                    }
                }
                assert forall|q: int| 0 <= q < n implies ({
                    let l = self.listings@[(#[trigger] listings@[q]).0];
                    &&& l.nfgid == listings@[q].0
                    &&& l.currency == currency
                    &&& l.secondary_seller_permissions@ == permissions@
                    &&& l.outpost_account == old(self).trader_account_component_address
                    &&& (forall|j: int| q < j < n ==> listings@[j].0 != listings@[q].0) ==> l.price
                        == listings@[q].1
                }) by {
                    if q < i && listings@[q].0 != nfgid {
                        assert(self.listings@[listings@[q].0] == before.listings@[listings@[q].0]);
                        if forall|j: int| q < j < n ==> listings@[j].0 != listings@[q].0 {
                            assert(forall|j: int| q < j < i ==> listings@[j].0 != listings@[q].0);
                        }
                    } else if q < i {
                        assert(listings@[i as int].0 == listings@[q].0);
                    }
                }
                assert(self.nft_vaults@.dom() =~= self.listings@.dom());
                assert forall|k: NonFungibleGlobalId| #[trigger]
                    self.listings@.contains_key(k) implies ({
                    &&& self.listings@[k].nfgid == k
                    &&& self.listings@[k].price@ > 0
                    &&& self.listings@[k].outpost_account == self.trader_account_component_address
                }) by {
                    if k != nfgid {
                        assert(before.listings@.contains_key(k));
                    }
                }
            }
            i += 1;
        }
    }

    /// Takes the items of a bucket into escrow and lists each at its own
    /// price, all in `currency` and for the buyers `permissions`.
    ///
    /// The entries must name exactly the items of the bucket.  Where two
    /// entries name one item, the later price holds.
    pub fn multi_list(
        &mut self,
        listings: Vec<(NonFungibleGlobalId, Amount)>,
        currency: ResourceAddress,
        permissions: Vec<ResourceAddress>,
        items: NonFungibleBucket,
    ) -> (r: Result<(), Error>)
        requires
            old(self).wf(),
            items.wf(),
        ensures
            final(self).wf(),
            r == old(self).multi_list_check(listings@, &items),
            r is Err ==> *final(self) == *old(self),
            r is Ok ==> old(self).batch_listed(
                final(self),
                listings@,
                listings@.len() as int,
                currency,
                permissions@,
            ) && final(self).transactions == old(self).transactions,
    {
        match self.check_batch(&listings, &items) {
            Ok(()) => {},
            Err(e) => {
                return Err(e);
            },
        }
        proof {
            lemma_entries_fault(items.resource(), listings@);
        }
        self.store_batch(&listings, currency, &permissions);
        Ok(())
    }

    /// As [`OpenTrader::multi_list`], for items whose royalties are enforced:
    /// the transaction `transaction_hash` is recorded, so that none of the
    /// items can be bought in the transaction that lists them.
    pub fn royal_multi_list(
        &mut self,
        listings: Vec<(NonFungibleGlobalId, Amount)>,
        currency: ResourceAddress,
        permissions: Vec<ResourceAddress>,
        items: NonFungibleBucket,
        transaction_hash: TransactionHash,
    ) -> (r: Result<(), Error>)
        requires
            old(self).wf(),
            items.wf(),
        ensures
            final(self).wf(),
            r == old(self).multi_list_check(listings@, &items),
            r is Err ==> *final(self) == *old(self),
            r is Ok ==> old(self).batch_listed(
                final(self),
                listings@,
                listings@.len() as int,
                currency,
                permissions@,
            ) && final(self).transactions@ == old(self).transactions@.insert(transaction_hash, ()),
    {
        match self.check_batch(&listings, &items) {
            Ok(()) => {},
            Err(e) => {
                return Err(e);
            },
        }
        proof {
            lemma_entries_fault(items.resource(), listings@);
        }
        self.transactions.insert(transaction_hash, ());
        self.store_batch(&listings, currency, &permissions);
        Ok(())
    }

    /// Withdraws a credential from the buyers a listing admits.
    pub fn revoke_market_permission(&mut self, nft_id: NonFungibleGlobalId, permission_id: ResourceAddress) -> (r:
        Result<(), Error>)
        requires
            old(self).wf(),
        ensures
            final(self).wf(),
            r == (if old(self).has_listing(nft_id) {
                Ok::<(), Error>(())
            } else {
                Err(Error::ListingNotFound)
            }),
            r is Err ==> *final(self) == *old(self),
            r is Ok ==> old(self).relisted(final(self), final(self).listings@[nft_id]) && ({
                let before = old(self).listings@[nft_id];
                let after = final(self).listings@[nft_id];
                &&& after.secondary_seller_permissions@ == without_address(
                    before.secondary_seller_permissions@,
                    permission_id,
                )
                &&& after.currency == before.currency
                &&& after.price == before.price
                &&& after.nfgid == nft_id
                &&& after.outpost_account == before.outpost_account
            }),
    {
        if !self.listings.contains_key(&nft_id) {
            return Err(Error::ListingNotFound);
        }
        let listing = match self.listings.remove(&nft_id) {
            Some(listing) => listing,
            None => {
                return Err(Error::ListingNotFound);
            },
        };
        let updated = Listing {
            secondary_seller_permissions: remove_address(
                &listing.secondary_seller_permissions,
                &permission_id,
            ),
            currency: listing.currency,
            price: listing.price,
            nfgid: listing.nfgid,
            outpost_account: listing.outpost_account,
        };
        self.listings.insert(nft_id, updated);
        proof {
            assert(self.listings@ =~= old(self).listings@.insert(nft_id, updated));
            assert(self.nft_vaults@.dom() =~= self.listings@.dom());
        }
        Ok(())
    }

    /// Adds a credential to the buyers a listing admits.
    pub fn add_buyer_permission(&mut self, nft_id: NonFungibleGlobalId, permission_id: ResourceAddress) -> (r:
        Result<(), Error>)
        requires
            old(self).wf(),
        ensures
            final(self).wf(),
            r == (if old(self).has_listing(nft_id) {
                Ok::<(), Error>(())
            } else {
                Err(Error::ListingNotFound)
            }),
            r is Err ==> *final(self) == *old(self),
            r is Ok ==> old(self).relisted(final(self), final(self).listings@[nft_id]) && ({
                let before = old(self).listings@[nft_id];
                let after = final(self).listings@[nft_id];
                &&& after.secondary_seller_permissions@
                    == before.secondary_seller_permissions@.push(permission_id)
                &&& after.currency == before.currency
                &&& after.price == before.price
                &&& after.nfgid == nft_id
                &&& after.outpost_account == before.outpost_account
            }),
    {
        if !self.listings.contains_key(&nft_id) {
            return Err(Error::ListingNotFound);
        }
        let listing = match self.listings.remove(&nft_id) {
            Some(listing) => listing,
            None => {
                return Err(Error::ListingNotFound);
            },
        };
        let mut permissions = listing.secondary_seller_permissions;
        permissions.push(permission_id);
        let updated = Listing {
            secondary_seller_permissions: permissions,
            currency: listing.currency,
            price: listing.price,
            nfgid: listing.nfgid,
            outpost_account: listing.outpost_account,
        };
        self.listings.insert(nft_id, updated);
        proof {
            assert(self.listings@ =~= old(self).listings@.insert(nft_id, updated));
            assert(self.nft_vaults@.dom() =~= self.listings@.dom());
        }
        Ok(())
    }

    /// Changes the price of a listing.  The new price must be above zero.
    pub fn change_price(&mut self, nft_id: NonFungibleGlobalId, new_price: Amount) -> (r: Result<
        (),
        Error,
    >)
        requires
            old(self).wf(),
        ensures
            final(self).wf(),
            r == (if !old(self).has_listing(nft_id) {
                Err::<(), Error>(Error::ListingNotFound)
            } else if new_price@ == 0 {
                Err(Error::InvalidPrice)
            } else {
                Ok(())
            }),
            r is Err ==> *final(self) == *old(self),
            r is Ok ==> old(self).relisted(final(self), final(self).listings@[nft_id]) && ({
                let before = old(self).listings@[nft_id];
                let after = final(self).listings@[nft_id];
                &&& after.secondary_seller_permissions == before.secondary_seller_permissions
                &&& after.currency == before.currency
                &&& after.price == new_price
                &&& after.nfgid == nft_id
                &&& after.outpost_account == before.outpost_account
            }),
    {
        if !self.listings.contains_key(&nft_id) {
            return Err(Error::ListingNotFound);
        }
        if new_price.is_zero() {
            return Err(Error::InvalidPrice);
        }
        let listing = match self.listings.remove(&nft_id) {
            Some(listing) => listing,
            None => {
                return Err(Error::ListingNotFound);
            },
        };
        let updated = Listing {
            secondary_seller_permissions: listing.secondary_seller_permissions,
            currency: listing.currency,
            price: new_price,
            nfgid: listing.nfgid,
            outpost_account: listing.outpost_account,
        };
        self.listings.insert(nft_id, updated);
        proof {
            assert(self.listings@ =~= old(self).listings@.insert(nft_id, updated));
            assert(self.nft_vaults@.dom() =~= self.listings@.dom());
        }
        Ok(())
    }
}

/// A fault among the first `n` entries of a batch is a fault of the batch.
pub proof fn lemma_fault_extends(
    resource: ResourceAddress,
    batch: Seq<(NonFungibleGlobalId, Amount)>,
    n: int,
)
    requires
        0 <= n <= batch.len(),
        entries_fault(resource, batch.take(n)) is Some,
    ensures
        entries_fault(resource, batch) == entries_fault(resource, batch.take(n)),
    decreases batch.len() - n,
{
    if n < batch.len() {
        assert(batch.take(n + 1).drop_last() =~= batch.take(n));
        lemma_fault_extends(resource, batch, n + 1);
    } else {
        assert(batch.take(n) =~= batch);
    }
}

} // verus!
