//! Buying several listed items of one seller with one payment.
//!
//! The order names the items; the payment must be the sum of their listed
//! prices, an item named twice counting twice, in the one currency all of
//! them are listed in.  Like a single purchase, a bulk purchase is all or
//! nothing.

use crate::address::ComponentAddress;
use crate::address::Key;
use crate::address::NonFungibleGlobalId;
use crate::address::ResourceAddress;
use crate::address::TransactionHash;
use crate::amount::Amount;
use crate::error::Error;
use crate::id_set::distinct_ids;
use crate::outpost_account::OpenTrader;
use crate::purchase::fee_due;
use crate::purchase::fee_rate_valid;
use crate::purchase::marketplace_fee;
use crate::purchase::part_of;
use crate::purchase::RoyalPurchase;
use crate::purchase::Settlement;
use crate::resource::contains_address;
use crate::resource::FungibleBucket;
use crate::resource::NonFungibleBucket;
use crate::resource::Proof;
use crate::royalty::RoyalNFTs;
use vstd::prelude::*;

verus! {

/// What comes out of the purchase of several items without enforced
/// royalties.
pub struct MultiPurchase {
    /// The items bought, one bucket for each, in the order of the order.
    pub nfts: Vec<NonFungibleBucket>,
    /// The marketplace's fee, when it is above zero.
    pub marketplace_fee: Option<FungibleBucket>,
    /// The seller's proceeds, to be stored for the seller's account.
    pub seller_revenue: FungibleBucket,
}

/// The identifiers of the items of an order, in order.
pub open spec fn order_ids(nfgids: Seq<NonFungibleGlobalId>) -> Seq<u64> {
    Seq::new(nfgids.len(), |i: int| nfgids[i].local_id)
}

/// Whether all items of an order belong to the collection of the first.
pub open spec fn one_collection(nfgids: Seq<NonFungibleGlobalId>) -> bool {
    forall|i: int|
        0 <= i < nfgids.len() ==> (#[trigger] nfgids[i]).resource_address
            == nfgids[0].resource_address
}

/// Whether some item occurs twice in `nfgids`.
pub fn has_duplicates(nfgids: &Vec<NonFungibleGlobalId>) -> (r: bool)
    ensures
        r == !nfgids@.no_duplicates(),
{
    let mut i: usize = 0;
    while i < nfgids.len()
        invariant
            i <= nfgids.len(),
            forall|a: int, b: int| 0 <= a < i && 0 <= b < nfgids@.len() && a != b ==> nfgids@[a]
                != nfgids@[b],
        decreases nfgids.len() - i,
    {
        let mut j: usize = 0;
        while j < nfgids.len()
            invariant
                j <= nfgids.len(),
                i < nfgids.len(),
                forall|b: int| 0 <= b < j && b != i ==> nfgids@[i as int] != nfgids@[b],
            decreases nfgids.len() - j,
        {
            if j != i && nfgids[j].same(&nfgids[i]) {
                proof {
                    assert(nfgids@[i as int] == nfgids@[j as int] && i != j);
                }
                return true;
            }
            j += 1;
        }
        i += 1;
    }
    false
}

/// The identifiers of the items of an order, in order.
pub fn local_ids_of(nfgids: &Vec<NonFungibleGlobalId>) -> (r: Vec<u64>)
    ensures
        r@ == order_ids(nfgids@),
{
    let mut out: Vec<u64> = Vec::new();
    let mut i: usize = 0;
    while i < nfgids.len()
        invariant
            i <= nfgids.len(),
            out@.len() == i,
            forall|j: int| 0 <= j < i ==> out@[j] == nfgids@[j].local_id,
        decreases nfgids.len() - i,
    {
        out.push(nfgids[i].local_id);
        i += 1;
    }
    proof {
        assert(out@ =~= order_ids(nfgids@));
    }
    out
}

impl OpenTrader {
    /// What is wrong with one item of an order placed under `credential`: it
    /// is not listed, or its listing does not admit the credential.
    pub open spec fn item_fault(&self, nfgid: NonFungibleGlobalId, credential: ResourceAddress) -> Option<
        Error,
    > {
        if !self.has_listing(nfgid) {
            Some(Error::ListingNotFound)
        } else if !self.listings@[nfgid].secondary_seller_permissions@.contains(credential) {
            Some(Error::PermissionDenied)
        } else {
            None
        }
    }

    /// The fault of the first faulty item of an order, if any is faulty.
    pub open spec fn order_fault(&self, nfgids: Seq<NonFungibleGlobalId>, credential: ResourceAddress) -> Option<
        Error,
    >
        decreases nfgids.len(),
    {
        if nfgids.len() == 0 {
            None
        } else {
            match self.order_fault(nfgids.drop_last(), credential) {
                Some(e) => Some(e),
                None => self.item_fault(nfgids.last(), credential),
            }
        }
    }

    /// The sum of the listed prices of the items of an order.
    pub open spec fn order_total(&self, nfgids: Seq<NonFungibleGlobalId>) -> nat
        decreases nfgids.len(),
    {
        if nfgids.len() == 0 {
            0
        } else {
            self.order_total(nfgids.drop_last()) + self.listings@[nfgids.last()].price@
        }
    }

    /// Whether all items of an order are listed in the currency of the first.
    pub open spec fn one_currency(&self, nfgids: Seq<NonFungibleGlobalId>) -> bool {
        forall|i: int|
            0 <= i < nfgids.len() ==> self.listings@[#[trigger] nfgids[i]].currency
                == self.listings@[nfgids[0]].currency
    }

    /// Whether an order can be served against `payment`: it names at least
    /// one item; every item is listed and admits the buyer's credential; all
    /// are listed in one currency; and the payment is the sum of their prices
    /// in that currency.
    pub open spec fn order_check(
        &self,
        nfgids: Seq<NonFungibleGlobalId>,
        payment: FungibleBucket,
        permission: Proof,
    ) -> Result<(), Error> {
        if nfgids.len() == 0 {
            Err(Error::NothingToTrade)
        } else if self.order_fault(nfgids, permission.resource_address) is Some {
            Err(self.order_fault(nfgids, permission.resource_address)->Some_0)
        } else if !self.one_currency(nfgids) {
            Err(Error::MixedCurrencies)
        } else if self.order_total(nfgids) > u128::MAX {
            Err(Error::Overflow)
        } else if payment.resource_address != self.listings@[nfgids[0]].currency
            || payment.amount@ != self.order_total(nfgids) {
            Err(Error::PaymentMismatch)
        } else {
            Ok(())
        }
    }

    /// Whether the bulk purchase of items whose royalties are enforced goes
    /// through, and how the payment is then split.  Beyond
    /// [`OpenTrader::order_check`], the items must be of one collection, and
    /// the settlement must go through as for a single item.
    pub open spec fn royal_multi_purchase_check(
        &self,
        royalty: &RoyalNFTs,
        nfgids: Seq<NonFungibleGlobalId>,
        payment: FungibleBucket,
        permission: Proof,
        tx: TransactionHash,
    ) -> Result<Settlement, Error> {
        match self.order_check(nfgids, payment, permission) {
            Err(e) => Err(e),
            Ok(()) => if !one_collection(nfgids) {
                Err(Error::ItemMismatch)
            } else {
                self.settle_check(royalty, nfgids[0].resource_address, payment, permission, tx)
            },
        }
    }

    /// Whether the bulk purchase of items without enforced royalties goes
    /// through, and how the payment is then split.  Beyond
    /// [`OpenTrader::order_check`], no item may be named twice.
    pub open spec fn multi_purchase_check(
        &self,
        nfgids: Seq<NonFungibleGlobalId>,
        payment: FungibleBucket,
        permission: Proof,
    ) -> Result<Settlement, Error> {
        match self.order_check(nfgids, payment, permission) {
            Err(e) => Err(e),
            Ok(()) => if !nfgids.no_duplicates() {
                Err(Error::ItemMismatch)
            } else if !fee_rate_valid(permission) {
                Err(Error::FeeRateOutOfRange)
            } else {
                Ok(
                    Settlement {
                        royalty: Amount { attos: 0 },
                        marketplace_fee: Amount { attos: fee_due(payment, permission) as u128 },
                        seller_revenue: Amount {
                            attos: (payment.amount@ - fee_due(payment, permission)) as u128,
                        },
                    },
                )
            },
        }
    }

    /// The state after the listings of the items `nfgids` were struck and the
    /// items taken out of escrow; nothing else has changed.
    pub open spec fn unlisted_many(&self, next: &OpenTrader, nfgids: Seq<NonFungibleGlobalId>) -> bool {
        &&& next.listings@ == self.listings@.remove_keys(nfgids.to_set())
        &&& next.nft_vaults@ == self.nft_vaults@.remove_keys(nfgids.to_set())
        &&& *next == (OpenTrader {
            listings: next.listings,
            nft_vaults: next.nft_vaults,
            ..*self
        })
    }

    /// The state after the items `nfgids` were sold to `recipient`: their
    /// listings are struck, they have left escrow, the transient token has
    /// left the vault and the sale awaits clearing.
    pub open spec fn sold_many(
        &self,
        next: &OpenTrader,
        nfgids: Seq<NonFungibleGlobalId>,
        recipient: ComponentAddress,
    ) -> bool {
        &&& next.listings@ == self.listings@.remove_keys(nfgids.to_set())
        &&& next.nft_vaults@ == self.nft_vaults@.remove_keys(nfgids.to_set())
        &&& next.latest_bulk_transaction is Some
        &&& next.latest_bulk_transaction->Some_0.0 == recipient
        &&& next.latest_bulk_transaction->Some_0.1@ == nfgids
        &&& *next == (OpenTrader {
            listings: next.listings,
            nft_vaults: next.nft_vaults,
            latest_bulk_transaction: next.latest_bulk_transaction,
            transient_tokens: Amount { attos: 0 },
            ..*self
        })
    }

    /// The total of an order grows with every item added to it.
    pub proof fn lemma_order_total_grows(&self, nfgids: Seq<NonFungibleGlobalId>, n: int)
        requires
            0 <= n <= nfgids.len(),
        ensures
            self.order_total(nfgids.take(n)) <= self.order_total(nfgids),
        decreases nfgids.len() - n,
    {
        if n < nfgids.len() {
            assert(nfgids.take(n + 1).drop_last() =~= nfgids.take(n));
            self.lemma_order_total_grows(nfgids, n + 1);
        } else {
            assert(nfgids.take(n) =~= nfgids);
        }
    }

    /// A fault among the first `n` items of an order is a fault of the order.
    pub proof fn lemma_order_fault_extends(
        &self,
        nfgids: Seq<NonFungibleGlobalId>,
        credential: ResourceAddress,
        n: int,
    )
        requires
            0 <= n <= nfgids.len(),
            self.order_fault(nfgids.take(n), credential) is Some,
        ensures
            self.order_fault(nfgids, credential) == self.order_fault(nfgids.take(n), credential),
        decreases nfgids.len() - n,
    {
        if n < nfgids.len() {
            assert(nfgids.take(n + 1).drop_last() =~= nfgids.take(n));
            self.lemma_order_fault_extends(nfgids, credential, n + 1);
        } else {
            assert(nfgids.take(n) =~= nfgids);
        }
    }

    /// In an order without fault every item is listed and admits the
    /// credential.
    pub proof fn lemma_order_fault_none(&self, nfgids: Seq<NonFungibleGlobalId>, credential: ResourceAddress)
        requires
            self.order_fault(nfgids, credential) is None,
        ensures
            forall|i: int|
                0 <= i < nfgids.len() ==> self.item_fault(#[trigger] nfgids[i], credential) is None,
        decreases nfgids.len(),
    {
        if nfgids.len() > 0 {
            let init = nfgids.drop_last();
            self.lemma_order_fault_none(init, credential);
            assert forall|i: int| 0 <= i < nfgids.len() implies self.item_fault(
                #[trigger] nfgids[i],
                credential,
            ) is None by {
                if i < nfgids.len() - 1 {
                    assert(init[i] == nfgids[i]);
                }
            }
        }
    }

    /// Evaluates [`OpenTrader::order_check`].
    fn check_order(&self, nfgids: &Vec<NonFungibleGlobalId>, payment: &FungibleBucket, permission: &Proof) -> (r:
        Result<(), Error>)
        requires
            self.wf(),
        ensures
            r == self.order_check(nfgids@, *payment, *permission),
    {
        if nfgids.len() == 0 {
            return Err(Error::NothingToTrade);
        }
        let credential = permission.resource_address;
        let mut i: usize = 0;
        while i < nfgids.len()
            invariant
                i <= nfgids.len(),
                nfgids@.len() > 0,
                self.wf(),
                credential == permission.resource_address,
                self.order_fault(nfgids@.take(i as int), credential) is None,
            decreases nfgids.len() - i,
        {
            proof {
                assert(nfgids@.take(i as int + 1).drop_last() =~= nfgids@.take(i as int));
                assert(nfgids@.take(i as int + 1).last() == nfgids@[i as int]);
                assert(self.order_fault(nfgids@.take(i as int + 1), credential) == self.item_fault(
                    nfgids@[i as int],
                    credential,
                ));
            }
            match self.listings.get(&nfgids[i]) {
                Some(listing) => {
                    if !contains_address(&listing.secondary_seller_permissions, &credential) {
                        proof {
                            self.lemma_order_fault_extends(nfgids@, credential, i as int + 1);
                        }
                        return Err(Error::PermissionDenied);
                    }
                },
                None => {
                    proof {
                        self.lemma_order_fault_extends(nfgids@, credential, i as int + 1);
                    }
                    return Err(Error::ListingNotFound);
                },
            }
            i += 1;
        }
        proof {
            assert(nfgids@.take(nfgids@.len() as int) =~= nfgids@);
            self.lemma_order_fault_none(nfgids@, credential);
        }
        let first_currency = match self.listings.get(&nfgids[0]) {
            Some(listing) => listing.currency,
            None => {
                return Err(Error::ListingNotFound);
            },
        };
        let mut j: usize = 0;
        while j < nfgids.len()
            invariant
                j <= nfgids.len(),
                nfgids@.len() > 0,
                self.wf(),
                credential == permission.resource_address,
                self.order_fault(nfgids@, credential) is None,
                forall|q: int|
                    0 <= q < nfgids@.len() ==> self.item_fault(#[trigger] nfgids@[q], credential)
                        is None,
                first_currency == self.listings@[nfgids@[0]].currency,
                forall|q: int|
                    0 <= q < j ==> self.listings@[#[trigger] nfgids@[q]].currency == first_currency,
            decreases nfgids.len() - j,
        {
            match self.listings.get(&nfgids[j]) {
                Some(listing) => {
                    if !listing.currency.same(&first_currency) {
                        return Err(Error::MixedCurrencies);
                    }
                },
                None => {},
            }
            j += 1;
        }
        let mut total = Amount::zero();
        let mut k: usize = 0;
        while k < nfgids.len()
            invariant
                k <= nfgids.len(),
                nfgids@.len() > 0,
                self.wf(),
                credential == permission.resource_address,
                self.order_fault(nfgids@, credential) is None,
                forall|q: int|
                    0 <= q < nfgids@.len() ==> self.item_fault(#[trigger] nfgids@[q], credential)
                        is None,
                self.one_currency(nfgids@),
                first_currency == self.listings@[nfgids@[0]].currency,
                total@ == self.order_total(nfgids@.take(k as int)),
            decreases nfgids.len() - k,
        {
            proof {
                assert(nfgids@.take(k as int + 1).drop_last() =~= nfgids@.take(k as int));
                assert(nfgids@.take(k as int + 1).last() == nfgids@[k as int]);
                self.lemma_order_total_grows(nfgids@, k as int + 1);
            }
            match self.listings.get(&nfgids[k]) {
                Some(listing) => {
                    match total.checked_add(listing.price) {
                        Some(sum) => {
                            total = sum;
                        },
                        None => {
                            return Err(Error::Overflow);
                        },
                    }
                },
                None => {},
            }
            k += 1;
        }
        proof {
            assert(nfgids@.take(nfgids@.len() as int) =~= nfgids@);
        }
        if !payment.resource_address.same(&first_currency) || payment.amount.attos != total.attos {
            return Err(Error::PaymentMismatch);
        }
        Ok(())
    }

    /// Whether the bulk purchase of items whose royalties are enforced would
    /// go through now, and how the payment would be split.  Nothing changes.
    pub fn quote_royal_multi_purchase(
        &self,
        royalty: &RoyalNFTs,
        nfgids: &Vec<NonFungibleGlobalId>,
        payment: &FungibleBucket,
        permission: &Proof,
        transaction_hash: &TransactionHash,
    ) -> (r: Result<Settlement, Error>)
        requires
            self.wf(),
            royalty.wf(),
        ensures
            r == self.royal_multi_purchase_check(
                royalty,
                nfgids@,
                *payment,
                *permission,
                *transaction_hash,
            ),
            r is Ok ==> r->Ok_0.royalty@ + r->Ok_0.marketplace_fee@ + r->Ok_0.seller_revenue@
                == payment.amount@,
    {
        match self.check_order(nfgids, payment, permission) {
            Ok(()) => {},
            Err(e) => {
                return Err(e);
            },
        }
        if !Self::check_one_collection(nfgids) {
            return Err(Error::ItemMismatch);
        }
        self.check_settlement(
            royalty,
            nfgids[0].resource_address,
            payment,
            permission,
            transaction_hash,
        )
    }

    /// Whether the bulk purchase of items without enforced royalties would go
    /// through now, and how the payment would be split.  Nothing changes.
    pub fn quote_multi_purchase(
        &self,
        nfgids: &Vec<NonFungibleGlobalId>,
        payment: &FungibleBucket,
        permission: &Proof,
    ) -> (r: Result<Settlement, Error>)
        requires
            self.wf(),
        ensures
            r == self.multi_purchase_check(nfgids@, *payment, *permission),
            r is Ok ==> r->Ok_0.marketplace_fee@ + r->Ok_0.seller_revenue@ == payment.amount@,
    {
        match self.check_order(nfgids, payment, permission) {
            Ok(()) => {},
            Err(e) => {
                return Err(e);
            },
        }
        if has_duplicates(nfgids) {
            return Err(Error::ItemMismatch);
        }
        let fee = match marketplace_fee(payment, permission) {
            Ok(fee) => fee,
            Err(e) => {
                return Err(e);
            },
        };
        Ok(
            Settlement {
                royalty: Amount::zero(),
                marketplace_fee: fee,
                seller_revenue: Amount { attos: payment.amount.attos - fee.attos },
            },
        )
    }

    /// Strikes the listings of the items of an order and takes the items out
    /// of escrow.
    fn take_listings(&mut self, nfgids: &Vec<NonFungibleGlobalId>)
        requires
            old(self).wf(),
        ensures
            final(self).wf(),
            old(self).unlisted_many(final(self), nfgids@),
    {
        let mut i: usize = 0;
        proof {
            assert(nfgids@.take(0).to_set() =~= Set::<NonFungibleGlobalId>::empty());
            assert(self.listings@.remove_keys(nfgids@.take(0).to_set()) =~= self.listings@);
            assert(self.nft_vaults@.remove_keys(nfgids@.take(0).to_set()) =~= self.nft_vaults@);
        }
        while i < nfgids.len()
            invariant
                i <= nfgids.len(),
                self.wf(),
                old(self).unlisted_many(self, nfgids@.take(i as int)),
            decreases nfgids.len() - i,
        {
            let ghost before = *self;
            self.listings.remove(&nfgids[i]);
            self.nft_vaults.remove(&nfgids[i]);
            proof {
                let shorter = nfgids@.take(i as int);
                let longer = nfgids@.take(i as int + 1);
                let done = shorter.to_set();
                let next = longer.to_set();
                assert(next =~= done.insert(nfgids@[i as int])) by {
                    assert forall|x: NonFungibleGlobalId| next.contains(x) <==> done.insert(
                        nfgids@[i as int],
                    ).contains(x) by {
                        if longer.contains(x) {
                            let q = choose|q: int| 0 <= q < longer.len() && longer[q] == x;
                            if q < i {
                                assert(shorter[q] == x);
                            }
                        }
                        if shorter.contains(x) {
                            let q = choose|q: int| 0 <= q < shorter.len() && shorter[q] == x;
                            assert(longer[q] == x);
                        }
                        if x == nfgids@[i as int] {
                            assert(longer[i as int] == x);
                        }
                    }
                }
                assert(self.listings@ =~= old(self).listings@.remove_keys(next));
                assert(self.nft_vaults@ =~= old(self).nft_vaults@.remove_keys(next));
                assert(self.nft_vaults@.dom() =~= self.listings@.dom());
                assert forall|k: NonFungibleGlobalId| #[trigger]
                    self.listings@.contains_key(k) implies ({
                    &&& self.listings@[k].nfgid == k
                    &&& self.listings@[k].price@ > 0
                    &&& self.listings@[k].outpost_account == self.trader_account_component_address
                }) by {
                    assert(before.listings@.contains_key(k));
                }
            }
            i += 1;
        }
        proof {
            assert(nfgids@.take(nfgids@.len() as int) =~= nfgids@);
        }
    }

    /// Whether all items of an order belong to the collection of the first.
    fn check_one_collection(nfgids: &Vec<NonFungibleGlobalId>) -> (r: bool)
        requires
            nfgids@.len() > 0,
        ensures
            r == one_collection(nfgids@),
    {
        let first = nfgids[0].resource_address;
        let mut i: usize = 0;
        while i < nfgids.len()
            invariant
                i <= nfgids.len(),
                nfgids@.len() > 0,
                first == nfgids@[0].resource_address,
                forall|q: int| 0 <= q < i ==> (#[trigger] nfgids@[q]).resource_address == first,
            decreases nfgids.len() - i,
        {
            if !nfgids[i].resource_address.same(&first) {
                return false;
            }
            i += 1;
        }
        true
    }

    /// Sells the listed items `nfgids`, whose royalties are enforced, to the
    /// bearer of `permission`, for delivery to `account_recipient`.
    ///
    /// On success the listings are struck and the items leave escrow; the
    /// royalty on the whole payment goes to the vault of `royalty`; the
    /// collection's transfers are opened; one sale covering all the items is
    /// recorded as awaiting clearing; and the buyer gets the items, each once,
    /// the account's transient token, the marketplace fee and the seller's
    /// proceeds, split as [`OpenTrader::royal_multi_purchase_check`] says.
    pub fn purchase_multi_royal_listings(
        &mut self,
        nfgids: Vec<NonFungibleGlobalId>,
        payment: FungibleBucket,
        account_recipient: ComponentAddress,
        permission: &Proof,
        royalty: &mut RoyalNFTs,
        transaction_hash: TransactionHash,
    ) -> (r: Result<RoyalPurchase, Error>)
        requires
            old(self).wf(),
            old(royalty).wf(),
        ensures
            final(self).wf(),
            final(royalty).wf(),
            match r {
                Ok(out) => {
                    let check = old(self).royal_multi_purchase_check(
                        old(royalty),
                        nfgids@,
                        payment,
                        *permission,
                        transaction_hash,
                    );
                    &&& check is Ok
                    &&& old(self).sold_many(final(self), nfgids@, account_recipient)
                    &&& old(royalty).sold(
                        final(royalty),
                        payment.resource_address,
                        payment.divisibility,
                        check->Ok_0.royalty,
                    )
                    &&& out.nft.wf()
                    &&& out.nft.resource() == nfgids@[0].resource_address
                    &&& out.nft.local_ids() == distinct_ids(order_ids(nfgids@))
                    &&& out.transient_token == old(self).transient_token()
                    &&& out.marketplace_fee == (match permission.marketplace_fee {
                        Some(_) => Some(part_of(payment, check->Ok_0.marketplace_fee)),
                        None => None,
                    })
                    &&& out.seller_revenue == part_of(payment, check->Ok_0.seller_revenue)
                    &&& check->Ok_0.royalty@ + check->Ok_0.marketplace_fee@
                        + check->Ok_0.seller_revenue@ == payment.amount@
                },
                Err(e) => {
                    &&& old(self).royal_multi_purchase_check(
                        old(royalty),
                        nfgids@,
                        payment,
                        *permission,
                        transaction_hash,
                    ) == Err::<Settlement, Error>(e)
                    &&& *final(self) == *old(self)
                    &&& *final(royalty) == *old(royalty)
                },
            },
    {
        let split = match self.quote_royal_multi_purchase(
            royalty,
            &nfgids,
            &payment,
            permission,
            &transaction_hash,
        ) {
            Ok(split) => split,
            Err(e) => {
                return Err(e);
            },
        };
        let nft_address = nfgids[0].resource_address;
        let local_ids = local_ids_of(&nfgids);
        let nft_bucket = NonFungibleBucket::new(nft_address, &local_ids);
        self.take_listings(&nfgids);
        let parts = self.settle(royalty, nft_address, payment, permission, &transaction_hash, split);
        self.latest_bulk_transaction = Some((account_recipient, nfgids));
        Ok(
            RoyalPurchase {
                nft: nft_bucket,
                transient_token: parts.0,
                marketplace_fee: parts.1,
                seller_revenue: parts.2,
            },
        )
    }

    /// Sells the listed items `nfgids`, which have no enforced royalties, to
    /// the bearer of `permission`.
    ///
    /// On success the listings are struck and the items leave escrow; the
    /// buyer gets the items; the marketplace fee, when above zero, and the
    /// seller's proceeds are split off the payment as
    /// [`OpenTrader::multi_purchase_check`] says.
    pub fn multi_purchase_listing(
        &mut self,
        nfgids: Vec<NonFungibleGlobalId>,
        payment: FungibleBucket,
        permission: &Proof,
    ) -> (r: Result<MultiPurchase, Error>)
        requires
            old(self).wf(),
        ensures
            final(self).wf(),
            match r {
                Ok(out) => {
                    let check = old(self).multi_purchase_check(nfgids@, payment, *permission);
                    &&& check is Ok
                    &&& old(self).unlisted_many(final(self), nfgids@)
                    &&& out.nfts@.len() == nfgids@.len()
                    &&& forall|i: int|
                        0 <= i < nfgids@.len() ==> {
                            &&& (#[trigger] out.nfts@[i]).wf()
                            &&& out.nfts@[i].resource() == nfgids@[i].resource_address
                            &&& out.nfts@[i].local_ids() == seq![nfgids@[i].local_id]
                        }
                    &&& out.marketplace_fee == (if check->Ok_0.marketplace_fee@ > 0 {
                        Some(part_of(payment, check->Ok_0.marketplace_fee))
                    } else {
                        None
                    })
                    &&& out.seller_revenue == part_of(payment, check->Ok_0.seller_revenue)
                    &&& check->Ok_0.marketplace_fee@ + check->Ok_0.seller_revenue@
                        == payment.amount@
                },
                Err(e) => old(self).multi_purchase_check(nfgids@, payment, *permission) == Err::<
                    Settlement,
                    Error,
                >(e) && *final(self) == *old(self),
            },
    {
        let split = match self.quote_multi_purchase(&nfgids, &payment, permission) {
            Ok(split) => split,
            Err(e) => {
                return Err(e);
            },
        };
        let fee = split.marketplace_fee;
        let revenue = split.seller_revenue;
        let mut nft_buckets: Vec<NonFungibleBucket> = Vec::new();
        let mut i: usize = 0;
        while i < nfgids.len()
            invariant
                i <= nfgids.len(),
                nft_buckets@.len() == i,
                forall|q: int|
                    0 <= q < i ==> {
                        &&& (#[trigger] nft_buckets@[q]).wf()
                        &&& nft_buckets@[q].resource() == nfgids@[q].resource_address
                        &&& nft_buckets@[q].local_ids() == seq![nfgids@[q].local_id]
                    },
            decreases nfgids.len() - i,
        {
            nft_buckets.push(NonFungibleBucket::single(nfgids[i]));
            i += 1;
        }
        self.take_listings(&nfgids);
        let marketplace_fee_bucket = if fee.is_positive() {
            Some(
                FungibleBucket {
                    resource_address: payment.resource_address,
                    divisibility: payment.divisibility,
                    amount: fee,
                },
            )
        } else {
            None
        };
        Ok(
            MultiPurchase {
                nfts: nft_buckets,
                marketplace_fee: marketplace_fee_bucket,
                seller_revenue: FungibleBucket {
                    resource_address: payment.resource_address,
                    divisibility: payment.divisibility,
                    amount: revenue,
                },
            },
        )
    }
}

} // verus!
