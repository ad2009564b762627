//! Buying one listed item.
//!
//! A purchase is all or nothing: when any condition fails the call reports
//! why and leaves the escrow account and the royalty component as they were.
//!
//! The conditions are looked at in this order.  The item must be listed; the
//! buyer's credential must be one the listing admits; the payment must be the
//! listed price in the listed currency.  For an item whose royalties are
//! enforced, moreover: the item was not listed in the current transaction; no
//! earlier sale of the account awaits clearing; the account's badge may open
//! the collection's transfers; the royalty component accepts the payment; the
//! fee rate that the buyer's credential declares is at most one; and the fee
//! fits into what the royalty leaves.
//!
//! The marketplace fee is computed on the full payment, not on what the
//! royalty leaves, and is taken from what the royalty leaves.

use crate::address::ComponentAddress;
use crate::address::Key;
use crate::address::NonFungibleGlobalId;
use crate::address::ResourceAddress;
use crate::address::TransactionHash;
use crate::amount::share;
use crate::amount::unit;
use crate::amount::Amount;
use crate::error::Error;
use crate::outpost_account::OpenTrader;
use crate::resource::contains_address;
use crate::resource::FungibleBucket;
use crate::resource::NonFungibleBucket;
use crate::resource::Proof;
use crate::royalty::RoyalNFTs;
use crate::royalty::Vault;
use vstd::prelude::*;

verus! {

/// How a payment is split between the creator, the marketplace and the
/// seller.  The three parts add up to the payment.
#[derive(Clone, Copy, Debug, PartialEq, Eq, Structural)]
pub struct Settlement {
    pub royalty: Amount,
    pub marketplace_fee: Amount,
    pub seller_revenue: Amount,
}

/// What comes out of the purchase of items whose royalties are enforced.
pub struct RoyalPurchase {
    /// The items bought.
    pub nft: NonFungibleBucket,
    /// The account's transient token; it must come back with the call that
    /// clears the sale.
    pub transient_token: FungibleBucket,
    /// The marketplace's fee, when the buyer's credential declares a rate.
    pub marketplace_fee: Option<FungibleBucket>,
    /// The seller's proceeds, to be stored for the seller's account.
    pub seller_revenue: FungibleBucket,
}

/// What comes out of the purchase of one item without enforced royalties.
pub struct Purchase {
    /// The item bought.
    pub nft: NonFungibleBucket,
    /// The marketplace's fee, when it is above zero.
    pub marketplace_fee: Option<FungibleBucket>,
    /// The seller's proceeds, to be stored for the seller's account.
    pub seller_revenue: FungibleBucket,
}

/// Whether the fee rate that a credential declares, if any, is at most one.
pub open spec fn fee_rate_valid(permission: Proof) -> bool {
    permission.marketplace_fee is Some ==> permission.marketplace_fee->Some_0@ <= unit()
}

/// The marketplace fee on `payment` under the buyer's credential: the payment
/// times the declared rate, rounded toward zero to the precision of the
/// currency; zero when the credential declares no rate.
pub open spec fn fee_due(payment: FungibleBucket, permission: Proof) -> nat {
    match permission.marketplace_fee {
        Some(rate) => share(payment.amount@, rate@, payment.divisibility as nat),
        None => 0,
    }
}

/// A bucket of `amount` in the currency of `payment`.
pub open spec fn part_of(payment: FungibleBucket, amount: Amount) -> FungibleBucket {
    FungibleBucket {
        resource_address: payment.resource_address,
        divisibility: payment.divisibility,
        amount,
    }
}

/// The fee on `payment`, or the reason there is none to be had.
pub fn marketplace_fee(payment: &FungibleBucket, permission: &Proof) -> (r: Result<Amount, Error>)
    ensures
        r == (if fee_rate_valid(*permission) {
            Ok::<Amount, Error>(Amount { attos: fee_due(*payment, *permission) as u128 })
        } else {
            Err(Error::FeeRateOutOfRange)
        }),
        r is Ok ==> r->Ok_0@ == fee_due(*payment, *permission) && r->Ok_0@ <= payment.amount@,
{
    match permission.marketplace_fee {
        Some(rate) => {
            if rate.attos > 1_000_000_000_000_000_000 {
                return Err(Error::FeeRateOutOfRange);
            }
            match payment.amount.share(rate, payment.divisibility) {
                Some(fee) => Ok(fee),
                None => Err(Error::FeeRateOutOfRange),
            }
        },
        None => Ok(Amount::zero()),
    }
}

impl RoyalNFTs {
    /// The state after a sale: the royalty was collected and transfers of the
    /// collection are open to every recipient; all else is as it was.
    pub open spec fn sold(
        &self,
        next: &RoyalNFTs,
        currency: ResourceAddress,
        divisibility: u8,
        royalty: Amount,
    ) -> bool {
        &&& next.royalty_vaults@ == self.royalty_vaults@.insert(
            currency,
            Vault {
                divisibility,
                amount: Amount { attos: (self.balance(currency) + royalty@) as u128 },
            },
        )
        &&& next.transfers_open()
        &&& *next == (RoyalNFTs {
            royalty_vaults: next.royalty_vaults,
            depositable: next.depositable,
            ..*self
        })
    }
}

impl OpenTrader {
    /// Whether the listing of `nfgid` exists, admits `permission` and is met
    /// by `payment`.
    pub open spec fn listing_check(
        &self,
        nfgid: NonFungibleGlobalId,
        payment: FungibleBucket,
        permission: Proof,
    ) -> Result<(), Error> {
        if !self.has_listing(nfgid) {
            Err(Error::ListingNotFound)
        } else if !self.listings@[nfgid].secondary_seller_permissions@.contains(
            permission.resource_address,
        ) {
            Err(Error::PermissionDenied)
        } else if payment.amount != self.listings@[nfgid].price || payment.resource_address
            != self.listings@[nfgid].currency {
            Err(Error::PaymentMismatch)
        } else {
            Ok(())
        }
    }

    /// How `payment` for items of collection `nft` is split when the sale
    /// goes through, or the reason it does not: the items were listed in the
    /// transaction `tx`; a sale awaits clearing; the account's badge may not
    /// open the collection's transfers; the royalty component refuses the
    /// payment; the fee rate is above one; or the fee is more than the royalty
    /// leaves.
    pub open spec fn settle_check(
        &self,
        royalty: &RoyalNFTs,
        nft: ResourceAddress,
        payment: FungibleBucket,
        permission: Proof,
        tx: TransactionHash,
    ) -> Result<Settlement, Error> {
        if self.transactions@.contains_key(tx) {
            Err(Error::SameTransactionReplay)
        } else if self.transient_tokens@ == 0 {
            Err(Error::SettlementPending)
        } else if !royalty.may_update_depositable(Some(self.royal_admin)) {
            Err(Error::NotAuthorized)
        } else {
            match royalty.quote(nft, payment, permission.resource_address) {
                Err(e) => Err(e),
                Ok(due) => if !fee_rate_valid(permission) {
                    Err(Error::FeeRateOutOfRange)
                } else if fee_due(payment, permission) > payment.amount@ - due@ {
                    Err(Error::FeeExceedsRemainder)
                } else {
                    Ok(
                        Settlement {
                            royalty: due,
                            marketplace_fee: Amount { attos: fee_due(payment, permission) as u128 },
                            seller_revenue: Amount {
                                attos: (payment.amount@ - due@ - fee_due(
                                    payment,
                                    permission,
                                )) as u128,
                            },
                        },
                    )
                },
            }
        }
    }

    /// Whether the purchase of `nfgid`, an item whose royalties are enforced,
    /// goes through, and how the payment is then split.
    pub open spec fn royal_purchase_check(
        &self,
        royalty: &RoyalNFTs,
        nfgid: NonFungibleGlobalId,
        payment: FungibleBucket,
        permission: Proof,
        tx: TransactionHash,
    ) -> Result<Settlement, Error> {
        match self.listing_check(nfgid, payment, permission) {
            Err(e) => Err(e),
            Ok(()) => self.settle_check(royalty, nfgid.resource_address, payment, permission, tx),
        }
    }

    /// Whether the purchase of `nfgid`, an item without enforced royalties,
    /// goes through, and how the payment is then split.
    pub open spec fn purchase_check(
        &self,
        nfgid: NonFungibleGlobalId,
        payment: FungibleBucket,
        permission: Proof,
    ) -> Result<Settlement, Error> {
        match self.listing_check(nfgid, payment, permission) {
            Err(e) => Err(e),
            Ok(()) => if !fee_rate_valid(permission) {
                Err(Error::FeeRateOutOfRange)
            } else {
                Ok(
                    Settlement {
                        royalty: Amount { attos: 0 },
                        marketplace_fee: Amount { attos: fee_due(payment, permission) as u128 },
                        seller_revenue: Amount {
                            attos: (payment.amount@ - fee_due(payment, permission)) as u128,
                        },
                    },
                )
            },
        }
    }

    /// The state after the single item `nfgid` was sold to `recipient`: its
    /// listing is struck, it has left escrow, the transient token has left
    /// the vault and the sale awaits clearing.
    pub open spec fn sold_one(
        &self,
        next: &OpenTrader,
        nfgid: NonFungibleGlobalId,
        recipient: ComponentAddress,
    ) -> bool {
        &&& next.listings@ == self.listings@.remove(nfgid)
        &&& next.nft_vaults@ == self.nft_vaults@.remove(nfgid)
        &&& *next == (OpenTrader {
            listings: next.listings,
            nft_vaults: next.nft_vaults,
            latest_transaction: Some((nfgid.resource_address, nfgid.local_id, recipient)),
            transient_tokens: Amount { attos: 0 },
            ..*self
        })
    }

    fn check_listing(&self, nfgid: &NonFungibleGlobalId, payment: &FungibleBucket, permission: &Proof) -> (r:
        Result<(), Error>)
        requires
            self.wf(),
        ensures
            r == self.listing_check(*nfgid, *payment, *permission),
    {
        let listing = match self.listings.get(nfgid) {
            Some(listing) => listing,
            None => {
                return Err(Error::ListingNotFound);
            },
        };
        if !contains_address(&listing.secondary_seller_permissions, &permission.resource_address) {
            return Err(Error::PermissionDenied);
        }
        if payment.amount.attos != listing.price.attos || !payment.resource_address.same(
            &listing.currency,
        ) {
            return Err(Error::PaymentMismatch);
        }
        Ok(())
    }

    /// Evaluates [`OpenTrader::settle_check`].
    pub(crate) fn check_settlement(
        &self,
        royalty: &RoyalNFTs,
        nft: ResourceAddress,
        payment: &FungibleBucket,
        permission: &Proof,
        tx: &TransactionHash,
    ) -> (r: Result<Settlement, Error>)
        requires
            self.wf(),
            royalty.wf(),
        ensures
            r == self.settle_check(royalty, nft, *payment, *permission, *tx),
            r is Ok ==> r->Ok_0.royalty@ + r->Ok_0.marketplace_fee@ + r->Ok_0.seller_revenue@
                == payment.amount@,
    {
        if self.transactions.contains_key(tx) {
            return Err(Error::SameTransactionReplay);
        }
        if self.transient_tokens.is_zero() {
            return Err(Error::SettlementPending);
        }
        if !royalty.depositable_updater.check(Some(self.royal_admin)) {
            return Err(Error::NotAuthorized);
        }
        let due = match royalty.royalty_due(nft, payment, permission.resource_address) {
            Ok(due) => due,
            Err(e) => {
                return Err(e);
            },
        };
        let fee = match marketplace_fee(payment, permission) {
            Ok(fee) => fee,
            Err(e) => {
                return Err(e);
            },
        };
        let remainder = Amount { attos: payment.amount.attos - due.attos };
        if fee.attos > remainder.attos {
            return Err(Error::FeeExceedsRemainder);
        }
        Ok(
            Settlement {
                royalty: due,
                marketplace_fee: fee,
                seller_revenue: Amount { attos: remainder.attos - fee.attos },
            },
        )
    }

    /// Whether the purchase of `nfgid`, an item whose royalties are enforced,
    /// would go through now, and how the payment would be split.  Nothing
    /// changes.
    pub fn quote_royal_purchase(
        &self,
        royalty: &RoyalNFTs,
        nfgid: &NonFungibleGlobalId,
        payment: &FungibleBucket,
        permission: &Proof,
        transaction_hash: &TransactionHash,
    ) -> (r: Result<Settlement, Error>)
        requires
            self.wf(),
            royalty.wf(),
        ensures
            r == self.royal_purchase_check(
                royalty,
                *nfgid,
                *payment,
                *permission,
                *transaction_hash,
            ),
            r is Ok ==> r->Ok_0.royalty@ + r->Ok_0.marketplace_fee@ + r->Ok_0.seller_revenue@
                == payment.amount@,
    {
        match self.check_listing(nfgid, payment, permission) {
            Ok(()) => {},
            Err(e) => {
                return Err(e);
            },
        }
        self.check_settlement(
            royalty,
            nfgid.resource_address,
            payment,
            permission,
            transaction_hash,
        )
    }

    /// Whether the purchase of `nfgid`, an item without enforced royalties,
    /// would go through now, and how the payment would be split.  Nothing
    /// changes.
    pub fn quote_purchase(&self, nfgid: &NonFungibleGlobalId, payment: &FungibleBucket, permission: &Proof) -> (r:
        Result<Settlement, Error>)
        requires
            self.wf(),
        ensures
            r == self.purchase_check(*nfgid, *payment, *permission),
            r is Ok ==> r->Ok_0.marketplace_fee@ + r->Ok_0.seller_revenue@ == payment.amount@,
    {
        match self.check_listing(nfgid, payment, permission) {
            Ok(()) => {},
            Err(e) => {
                return Err(e);
            },
        }
        let fee = match marketplace_fee(payment, permission) {
            Ok(fee) => fee,
            Err(e) => {
                return Err(e);
            },
        };
        Ok(
            Settlement {
                royalty: Amount::zero(),
                marketplace_fee: fee,
                seller_revenue: Amount { attos: payment.amount.attos - fee.attos },
            },
        )
    }

    /// Carries out a checked settlement: pays the royalty, opens the
    /// collection's transfers, and takes the transient token out of the vault.
    pub(crate) fn settle(
        &mut self,
        royalty: &mut RoyalNFTs,
        nft: ResourceAddress,
        payment: FungibleBucket,
        permission: &Proof,
        tx: &TransactionHash,
        split: Settlement,
    ) -> (r: (FungibleBucket, Option<FungibleBucket>, FungibleBucket))
        requires
            old(self).wf(),
            old(royalty).wf(),
            old(self).settle_check(old(royalty), nft, payment, *permission, *tx) == Ok::<
                Settlement,
                Error,
            >(split),
        ensures
            final(royalty).wf(),
            old(royalty).sold(
                final(royalty),
                payment.resource_address,
                payment.divisibility,
                split.royalty,
            ),
            *final(self) == (OpenTrader { transient_tokens: Amount { attos: 0 }, ..*old(self) }),
            r.0 == old(self).transient_token(),
            r.1 == (match permission.marketplace_fee {
                Some(_) => Some(part_of(payment, split.marketplace_fee)),
                None => None,
            }),
            r.2 == part_of(payment, split.seller_revenue),
    {
        let currency = payment.resource_address;
        let divisibility = payment.divisibility;
        // The settlement was checked, so neither call below can be refused.
        let mut remainder = match royalty.pay_royalty_basic(
            nft,
            payment,
            permission.resource_address,
        ) {
            Ok(remainder) => remainder,
            Err(_) => FungibleBucket {
                resource_address: currency,
                divisibility,
                amount: split.seller_revenue,
            },
        };
        match royalty.open_transfers(Some(self.royal_admin)) {
            Ok(()) => {},
            Err(_) => {},
        }
        let marketplace_fee_bucket = match permission.marketplace_fee {
            Some(_) => remainder.take(split.marketplace_fee),
            None => None,
        };
        let token = FungibleBucket {
            resource_address: self.transient_token_address,
            divisibility: 0,
            amount: Amount::one(),
        };
        self.transient_tokens = Amount::zero();
        (token, marketplace_fee_bucket, remainder)
    }

    /// Sells the listed item `nfgid`, whose royalties are enforced, to the
    /// bearer of `permission`, for delivery to `account_recipient`.
    ///
    /// On success the listing is struck and the item leaves escrow; the
    /// royalty goes to the vault of `royalty`; the collection's transfers are
    /// opened; the sale is recorded as awaiting clearing; and the buyer gets
    /// the item, the account's transient token, the marketplace fee and the
    /// seller's proceeds, split as [`OpenTrader::royal_purchase_check`] says.
    /// `transaction_hash` identifies the current transaction.
    pub fn purchase_royal_listing(
        &mut self,
        nfgid: NonFungibleGlobalId,
        payment: FungibleBucket,
        permission: &Proof,
        account_recipient: ComponentAddress,
        royalty: &mut RoyalNFTs,
        transaction_hash: TransactionHash,
    ) -> (r: Result<RoyalPurchase, Error>)
        requires
            old(self).wf(),
            old(royalty).wf(),
        ensures
            final(self).wf(),
            final(royalty).wf(),
            match r {
                Ok(out) => {
                    let check = old(self).royal_purchase_check(
                        old(royalty),
                        nfgid,
                        payment,
                        *permission,
                        transaction_hash,
                    );
                    &&& check is Ok
                    &&& old(self).sold_one(final(self), nfgid, account_recipient)
                    &&& old(royalty).sold(
                        final(royalty),
                        payment.resource_address,
                        payment.divisibility,
                        check->Ok_0.royalty,
                    )
                    &&& out.nft.wf()
                    &&& out.nft.resource() == nfgid.resource_address
                    &&& out.nft.local_ids() == seq![nfgid.local_id]
                    &&& out.transient_token == old(self).transient_token()
                    &&& out.marketplace_fee == (match permission.marketplace_fee {
                        Some(_) => Some(part_of(payment, check->Ok_0.marketplace_fee)),
                        None => None,
                    })
                    &&& out.seller_revenue == part_of(payment, check->Ok_0.seller_revenue)
                    &&& check->Ok_0.royalty@ + check->Ok_0.marketplace_fee@
                        + check->Ok_0.seller_revenue@ == payment.amount@
                },
                Err(e) => {
                    &&& old(self).royal_purchase_check(
                        old(royalty),
                        nfgid,
                        payment,
                        *permission,
                        transaction_hash,
                    ) == Err::<Settlement, Error>(e)
                    &&& *final(self) == *old(self)
                    &&& *final(royalty) == *old(royalty)
                },
            },
    {
        let split = match self.quote_royal_purchase(
            royalty,
            &nfgid,
            &payment,
            permission,
            &transaction_hash,
        ) {
            Ok(split) => split,
            Err(e) => {
                return Err(e);
            },
        };
        let parts = self.settle(
            royalty,
            nfgid.resource_address,
            payment,
            permission,
            &transaction_hash,
            split,
        );
        self.listings.remove(&nfgid);
        self.nft_vaults.remove(&nfgid);
        self.latest_transaction = Some(
            (nfgid.resource_address, nfgid.local_id, account_recipient),
        );
        Ok(
            RoyalPurchase {
                nft: NonFungibleBucket::single(nfgid),
                transient_token: parts.0,
                marketplace_fee: parts.1,
                seller_revenue: parts.2,
            },
        )
    }

    /// Sells the listed item `nfgid`, which has no enforced royalties, to the
    /// bearer of `permission`.
    ///
    /// On success the listing is struck and the item leaves escrow; the buyer
    /// gets the item; the marketplace fee, when above zero, and the seller's
    /// proceeds are split off the payment as [`OpenTrader::purchase_check`]
    /// says.
    pub fn purchase_listing(&mut self, nfgid: NonFungibleGlobalId, payment: FungibleBucket, permission: &Proof) -> (r:
        Result<Purchase, Error>)
        requires
            old(self).wf(),
        ensures
            final(self).wf(),
            match r {
                Ok(out) => {
                    let check = old(self).purchase_check(nfgid, payment, *permission);
                    &&& check is Ok
                    &&& old(self).unlisted(final(self), nfgid)
                    &&& out.nft.wf()
                    &&& out.nft.resource() == nfgid.resource_address
                    &&& out.nft.local_ids() == seq![nfgid.local_id]
                    &&& out.marketplace_fee == (if check->Ok_0.marketplace_fee@ > 0 {
                        Some(part_of(payment, check->Ok_0.marketplace_fee))
                    } else {
                        None
                    })
                    &&& out.seller_revenue == part_of(payment, check->Ok_0.seller_revenue)
                    &&& check->Ok_0.marketplace_fee@ + check->Ok_0.seller_revenue@
                        == payment.amount@
                },
                Err(e) => old(self).purchase_check(nfgid, payment, *permission) == Err::<
                    Settlement,
                    Error,
                >(e) && *final(self) == *old(self),
            },
    {
        let split = match self.quote_purchase(&nfgid, &payment, permission) {
            Ok(split) => split,
            Err(e) => {
                return Err(e);
            },
        };
        let fee = split.marketplace_fee;
        let revenue = split.seller_revenue;
        self.listings.remove(&nfgid);
        self.nft_vaults.remove(&nfgid);
        let marketplace_fee_bucket = if fee.is_positive() {
            Some(
                FungibleBucket {
                    resource_address: payment.resource_address,
                    divisibility: payment.divisibility,
                    amount: fee,
                },
            )
        } else {
            None
        };
        Ok(
            Purchase {
                nft: NonFungibleBucket::single(nfgid),
                marketplace_fee: marketplace_fee_bucket,
                seller_revenue: FungibleBucket {
                    resource_address: payment.resource_address,
                    divisibility: payment.divisibility,
                    amount: revenue,
                },
            },
        )
    }
}

} // verus!
