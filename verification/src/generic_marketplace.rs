//! A marketplace that buys on behalf of its users and keeps its fees.
//!
//! The marketplace holds a key, the credential sellers admit when they list
//! an item for this marketplace.  The key's metadata declares the
//! marketplace's fee rate, so every escrow account it buys from splits the
//! fee off and hands it back with the item.  The fees pile up per currency
//! until the marketplace's admin withdraws them.

use crate::address::ComponentAddress;
use crate::address::Key;
use crate::address::NonFungibleGlobalId;
use crate::address::ResourceAddress;
use crate::address::TransactionHash;
use crate::amount::unit;
use crate::amount::Amount;
use crate::error::Error;
use crate::outpost_account::OpenTrader;
use crate::purchase::fee_due;
use crate::purchase::marketplace_fee;
use crate::purchase::part_of;
use crate::purchase::Purchase;
use crate::purchase::RoyalPurchase;
use crate::purchase::Settlement;
use crate::resource::FungibleBucket;
use crate::resource::NonFungibleBucket;
use crate::resource::Proof;
use crate::royalty::RoyalNFTs;
use crate::royalty::Vault;
use crate::table::Table;
use vstd::prelude::*;

verus! {

/// The identifier of the marketplace's key within its class.
pub const MARKETPLACE_KEY_LOCAL_ID: u64 = 1;

/// Something handed to a buyer: an amount of a currency, or items.
pub enum Bucket {
    Fungible(FungibleBucket),
    NonFungible(NonFungibleBucket),
}

/// A marketplace.
pub struct GenericMarketplace {
    /// The class of the marketplace's key.
    pub marketplace_listing_key: ResourceAddress,
    /// Whether the key is still in the marketplace's vault.
    pub marketplace_listing_key_held: bool,
    /// The admin's badge.
    pub marketplace_admin: ResourceAddress,
    /// The fee rate on purchases; one is 100%.
    pub marketplace_fee: Amount,
    /// The fees collected and not yet withdrawn, by currency.
    pub fee_vaults: Table<ResourceAddress, Vault>,
    /// The fee rate on mints; one is 100%.
    pub mint_fee: Amount,
}

impl GenericMarketplace {
    pub open spec fn wf(&self) -> bool {
        &&& self.fee_vaults.wf()
        &&& self.marketplace_fee@ <= unit()
        &&& self.mint_fee@ <= unit()
    }

    /// The credential the marketplace shows when it buys.
    pub open spec fn key(&self) -> Proof {
        Proof {
            resource_address: self.marketplace_listing_key,
            marketplace_fee: Some(self.marketplace_fee),
        }
    }

    /// The fees held in `currency`; zero when none was ever collected.
    pub open spec fn balance(&self, currency: ResourceAddress) -> nat {
        if self.fee_vaults@.contains_key(currency) {
            self.fee_vaults@[currency].amount@
        } else {
            0
        }
    }

    /// The state after `fee` was collected: the vault of its currency has
    /// grown by it; all else is as it was.
    pub open spec fn collected(&self, next: &GenericMarketplace, fee: FungibleBucket) -> bool {
        &&& next.fee_vaults@ == self.fee_vaults@.insert(
            fee.resource_address,
            Vault {
                divisibility: fee.divisibility,
                amount: Amount { attos: (self.balance(fee.resource_address) + fee.amount@) as u128 },
            },
        )
        &&& *next == (GenericMarketplace { fee_vaults: next.fee_vaults, ..*self })
    }

    /// The state after the fee of a purchase, if there was one, was
    /// collected.
    pub open spec fn collected_any(&self, next: &GenericMarketplace, fee: Option<FungibleBucket>) -> bool {
        match fee {
            Some(fee) => self.collected(next, fee),
            None => *next == *self,
        }
    }

    /// Opens a marketplace with the given fee rates, neither above one.
    /// `admin_key` is the admin's badge, `marketplace_key` the class of the
    /// key the marketplace will buy with.
    pub fn start_marketplace(
        marketplace_fee: Amount,
        mint_fee: Amount,
        admin_key: ResourceAddress,
        marketplace_key: ResourceAddress,
    ) -> (r: Result<GenericMarketplace, Error>)
        ensures
            r is Ok <==> marketplace_fee@ <= unit() && mint_fee@ <= unit(),
            r is Err ==> r->Err_0 == Error::FeeRateOutOfRange,
            r is Ok ==> ({
                let m = r->Ok_0;
                &&& m.wf()
                &&& m.marketplace_listing_key == marketplace_key
                &&& m.marketplace_listing_key_held
                &&& m.marketplace_admin == admin_key
                &&& m.marketplace_fee == marketplace_fee
                &&& m.mint_fee == mint_fee
                &&& m.fee_vaults@ == Map::<ResourceAddress, Vault>::empty()
            }),
    {
        if marketplace_fee.attos > 1_000_000_000_000_000_000 || mint_fee.attos
            > 1_000_000_000_000_000_000 {
            return Err(Error::FeeRateOutOfRange);
        }
        Ok(
            GenericMarketplace {
                marketplace_listing_key: marketplace_key,
                marketplace_listing_key_held: true,
                marketplace_admin: admin_key,
                marketplace_fee,
                fee_vaults: Table::new(),
                mint_fee,
            },
        )
    }

    /// The class of the marketplace's key.
    pub fn get_marketplace_key_address(&self) -> (r: ResourceAddress)
        ensures
            r == self.marketplace_listing_key,
    {
        self.marketplace_listing_key
    }

    /// The credential the marketplace shows when it buys, while it holds its
    /// key.
    pub fn permission(&self) -> (r: Option<Proof>)
        ensures
            r == (if self.marketplace_listing_key_held {
                Some(self.key())
            } else {
                None
            }),
    {
        if self.marketplace_listing_key_held {
            Some(
                Proof {
                    resource_address: self.marketplace_listing_key,
                    marketplace_fee: Some(self.marketplace_fee),
                },
            )
        } else {
            None
        }
    }

    /// The fees held in `currency`.
    pub fn fee_balance(&self, currency: ResourceAddress) -> (r: Amount)
        requires
            self.wf(),
        ensures
            r@ == self.balance(currency),
    {
        match self.fee_vaults.get(&currency) {
            Some(vault) => vault.amount,
            None => Amount::zero(),
        }
    }

    /// Hands the marketplace's key to the admin.  From then on the
    /// marketplace cannot buy.
    pub fn retrieve_internal_market_key(&mut self, proof: &Proof) -> (r: Result<NonFungibleBucket, Error>)
        ensures
            r is Ok <==> proof.resource_address == old(self).marketplace_admin,
            r is Err ==> r->Err_0 == Error::NotAuthorized && *final(self) == *old(self),
            r is Ok ==> {
                &&& *final(self) == (GenericMarketplace {
                    marketplace_listing_key_held: false,
                    ..*old(self)
                })
                &&& r->Ok_0.wf()
                &&& r->Ok_0.resource() == old(self).marketplace_listing_key
                &&& r->Ok_0.local_ids() == (if old(self).marketplace_listing_key_held {
                    seq![MARKETPLACE_KEY_LOCAL_ID]
                } else {
                    Seq::<u64>::empty()
                })
            },
    {
        if !proof.resource_address.same(&self.marketplace_admin) {
            return Err(Error::NotAuthorized);
        }
        let mut local_ids: Vec<u64> = Vec::new();
        if self.marketplace_listing_key_held {
            local_ids.push(MARKETPLACE_KEY_LOCAL_ID);
        }
        let key = NonFungibleBucket::new(self.marketplace_listing_key, &local_ids);
        proof {
            reveal_with_fuel(crate::id_set::distinct_ids, 3);
            if old(self).marketplace_listing_key_held {
                assert(local_ids@ =~= seq![MARKETPLACE_KEY_LOCAL_ID]);
                assert(local_ids@.drop_last() =~= Seq::<u64>::empty());
                assert(key.local_ids() =~= seq![MARKETPLACE_KEY_LOCAL_ID]);
            } else {
                assert(key.local_ids() =~= Seq::<u64>::empty());
            }
        }
        self.marketplace_listing_key_held = false;
        Ok(key)
    }

    /// Hands the admin every fee collected in `resource_address`.  The vault
    /// stays, empty.
    pub fn withdraw_fees(&mut self, resource_address: ResourceAddress, proof: &Proof) -> (r: Result<
        FungibleBucket,
        Error,
    >)
        requires
            old(self).wf(),
        ensures
            final(self).wf(),
            r == (if proof.resource_address != old(self).marketplace_admin {
                Err::<FungibleBucket, Error>(Error::NotAuthorized)
            } else if !old(self).fee_vaults@.contains_key(resource_address) {
                Err(Error::VaultNotFound)
            } else {
                Ok(
                    FungibleBucket {
                        resource_address,
                        divisibility: old(self).fee_vaults@[resource_address].divisibility,
                        amount: old(self).fee_vaults@[resource_address].amount,
                    },
                )
            }),
            r is Err ==> *final(self) == *old(self),
            r is Ok ==> final(self).fee_vaults@ == old(self).fee_vaults@.insert(
                resource_address,
                Vault {
                    divisibility: old(self).fee_vaults@[resource_address].divisibility,
                    amount: Amount { attos: 0 },
                },
            ) && *final(self) == (GenericMarketplace {
                fee_vaults: final(self).fee_vaults,
                ..*old(self)
            }),
    {
        if !proof.resource_address.same(&self.marketplace_admin) {
            return Err(Error::NotAuthorized);
        }
        let vault = match self.fee_vaults.get(&resource_address) {
            Some(vault) => *vault,
            None => {
                return Err(Error::VaultNotFound);
            },
        };
        self.fee_vaults.insert(
            resource_address,
            Vault { divisibility: vault.divisibility, amount: Amount::zero() },
        );
        Ok(FungibleBucket { resource_address, divisibility: vault.divisibility, amount: vault.amount })
    }

    /// Puts a fee into the vault of its currency.  Fails with `Overflow`, and
    /// changes nothing, when the vault cannot hold it.
    pub fn collect_fee(&mut self, fee: FungibleBucket) -> (r: Result<(), Error>)
        requires
            old(self).wf(),
        ensures
            final(self).wf(),
            r == (if old(self).balance(fee.resource_address) + fee.amount@ > u128::MAX {
                Err::<(), Error>(Error::Overflow)
            } else {
                Ok(())
            }),
            r is Err ==> *final(self) == *old(self),
            r is Ok ==> old(self).collected(final(self), fee),
    {
        let held = self.fee_balance(fee.resource_address);
        let total = match held.checked_add(fee.amount) {
            Some(total) => total,
            None => {
                return Err(Error::Overflow);
            },
        };
        self.fee_vaults.insert(
            fee.resource_address,
            Vault { divisibility: fee.divisibility, amount: total },
        );
        Ok(())
    }

    /// What stands in the way of a purchase for `payment` before any seller
    /// is asked: the marketplace has given its key away, or its vault cannot
    /// hold the fee.
    pub open spec fn buying_check(&self, payment: FungibleBucket) -> Result<(), Error> {
        if !self.marketplace_listing_key_held {
            Err(Error::NotAuthorized)
        } else if self.balance(payment.resource_address) + fee_due(payment, self.key())
            > u128::MAX {
            Err(Error::Overflow)
        } else {
            Ok(())
        }
    }

    fn check_buying(&self, payment: &FungibleBucket) -> (r: Result<Proof, Error>)
        requires
            self.wf(),
        ensures
            match r {
                Ok(proof) => self.buying_check(*payment) is Ok && proof == self.key(),
                Err(e) => self.buying_check(*payment) == Err::<(), Error>(e),
            },
    {
        let proof = match self.permission() {
            Some(proof) => proof,
            None => {
                return Err(Error::NotAuthorized);
            },
        };
        let fee = match marketplace_fee(payment, &proof) {
            Ok(fee) => fee,
            Err(e) => {
                return Err(e);
            },
        };
        match self.fee_balance(payment.resource_address).checked_add(fee) {
            Some(_) => Ok(proof),
            None => Err(Error::Overflow),
        }
    }

    /// Buys the listed item `nfgid`, whose royalties are enforced, from the
    /// escrow account `trader` with the marketplace's key, for delivery to
    /// `account_recipient`, and keeps the marketplace's fee.
    ///
    /// The purchase is refused when the marketplace has given its key away or
    /// its vault cannot hold the fee, and whenever `trader` refuses it; a
    /// refusal changes nothing.  Otherwise the outcome is the outcome of the
    /// purchase at `trader`, less the fee, which is in the marketplace's
    /// vault.
    pub fn purchase_royal_listing(
        &mut self,
        nfgid: NonFungibleGlobalId,
        payment: FungibleBucket,
        trader: &mut OpenTrader,
        account_recipient: ComponentAddress,
        royalty: &mut RoyalNFTs,
        transaction_hash: TransactionHash,
    ) -> (r: Result<RoyalPurchase, Error>)
        requires
            old(self).wf(),
            old(trader).wf(),
            old(royalty).wf(),
        ensures
            final(self).wf(),
            final(trader).wf(),
            final(royalty).wf(),
            match r {
                Ok(out) => {
                    let check = old(trader).royal_purchase_check(
                        old(royalty),
                        nfgid,
                        payment,
                        old(self).key(),
                        transaction_hash,
                    );
                    &&& old(self).buying_check(payment) is Ok
                    &&& check is Ok
                    &&& old(trader).sold_one(final(trader), nfgid, account_recipient)
                    &&& old(royalty).sold(
                        final(royalty),
                        payment.resource_address,
                        payment.divisibility,
                        check->Ok_0.royalty,
                    )
                    &&& old(self).collected(
                        final(self),
                        part_of(payment, check->Ok_0.marketplace_fee),
                    )
                    &&& out.nft.wf()
                    &&& out.nft.resource() == nfgid.resource_address
                    &&& out.nft.local_ids() == seq![nfgid.local_id]
                    &&& out.transient_token == old(trader).transient_token()
                    &&& out.marketplace_fee is None
                    &&& out.seller_revenue == part_of(payment, check->Ok_0.seller_revenue)
                },
                Err(e) => {
                    &&& *final(self) == *old(self)
                    &&& *final(trader) == *old(trader)
                    &&& *final(royalty) == *old(royalty)
                    &&& match old(self).buying_check(payment) {
                        Err(refusal) => e == refusal,
                        Ok(()) => old(trader).royal_purchase_check(
                            old(royalty),
                            nfgid,
                            payment,
                            old(self).key(),
                            transaction_hash,
                        ) == Err::<Settlement, Error>(e),
                    }
                },
            },
    {
        let proof = match self.check_buying(&payment) {
            Ok(proof) => proof,
            Err(e) => {
                return Err(e);
            },
        };
        let bought = match trader.purchase_royal_listing(
            nfgid,
            payment,
            &proof,
            account_recipient,
            royalty,
            transaction_hash,
        ) {
            Ok(bought) => bought,
            Err(e) => {
                return Err(e);
            },
        };
        match bought.marketplace_fee {
            Some(fee) => {
                match self.collect_fee(fee) {
                    Ok(()) => {},
                    Err(_) => {},
                }
            },
            None => {},
        }
        Ok(
            RoyalPurchase {
                nft: bought.nft,
                transient_token: bought.transient_token,
                marketplace_fee: None,
                seller_revenue: bought.seller_revenue,
            },
        )
    }

    /// Buys the listed item `nfgid`, which has no enforced royalties, from
    /// the escrow account `trader` with the marketplace's key, and keeps the
    /// marketplace's fee, if there is one.
    pub fn purchase_listing(&mut self, nfgid: NonFungibleGlobalId, payment: FungibleBucket, trader: &mut OpenTrader) -> (r:
        Result<Purchase, Error>)
        requires
            old(self).wf(),
            old(trader).wf(),
        ensures
            final(self).wf(),
            final(trader).wf(),
            match r {
                Ok(out) => {
                    let check = old(trader).purchase_check(nfgid, payment, old(self).key());
                    &&& old(self).buying_check(payment) is Ok
                    &&& check is Ok
                    &&& old(trader).unlisted(final(trader), nfgid)
                    &&& old(self).collected_any(
                        final(self),
                        if check->Ok_0.marketplace_fee@ > 0 {
                            Some(part_of(payment, check->Ok_0.marketplace_fee))
                        } else {
                            None
                        },
                    )
                    &&& out.nft.wf()
                    &&& out.nft.resource() == nfgid.resource_address
                    &&& out.nft.local_ids() == seq![nfgid.local_id]
                    &&& out.marketplace_fee is None
                    &&& out.seller_revenue == part_of(payment, check->Ok_0.seller_revenue)
                },
                Err(e) => {
                    &&& *final(self) == *old(self)
                    &&& *final(trader) == *old(trader)
                    &&& match old(self).buying_check(payment) {
                        Err(refusal) => e == refusal,
                        Ok(()) => old(trader).purchase_check(nfgid, payment, old(self).key()) == Err::<
                            Settlement,
                            Error,
                        >(e),
                    }
                },
            },
    {
        let proof = match self.check_buying(&payment) {
            Ok(proof) => proof,
            Err(e) => {
                return Err(e);
            },
        };
        let bought = match trader.purchase_listing(nfgid, payment, &proof) {
            Ok(bought) => bought,
            Err(e) => {
                return Err(e);
            },
        };
        match bought.marketplace_fee {
            Some(fee) => {
                match self.collect_fee(fee) {
                    Ok(()) => {},
                    Err(_) => {},
                }
            },
            None => {},
        }
        Ok(Purchase { nft: bought.nft, marketplace_fee: None, seller_revenue: bought.seller_revenue })
    }
}

} // verus!
