//! Buying editions of a primary sale through the marketplace.
//!
//! The marketplace charges its mint fee on top of what the sale is owed: the
//! buyer's payment must cover the cost of the editions plus the fee on that
//! cost.  Both parts must be amounts the currency can represent.

use crate::address::ComponentAddress;
use crate::amount::lemma_mul_floor_bounded;
use crate::amount::mul_floor;
use crate::amount::round_down;
use crate::amount::unit;
use crate::amount::Amount;
use crate::error::Error;
use crate::generic_marketplace::GenericMarketplace;
use crate::minter::edition_ids;
use crate::minter::Minted;
use crate::minter::MintingSettings;
use crate::purchase::part_of;
use crate::resource::FungibleBucket;
use crate::royalty::RoyalNFTs;
use vstd::prelude::*;

verus! {

/// How the payment for a mint through the marketplace is split.
#[derive(Clone, Copy, Debug, PartialEq, Eq, Structural)]
pub struct MintQuote {
    /// What the sale is owed: the cost of one edition times their number.
    pub payment_due_to_minter: Amount,
    /// The marketplace's fee on it.
    pub marketplace_fee: Amount,
    /// What the sale itself charges for the editions.
    pub price: Amount,
}

impl GenericMarketplace {
    /// How `total_payment` for `quantity_to_mint` editions at
    /// `cost_per_item_from_minter` each is split, or the reason the editions
    /// cannot be bought.
    pub open spec fn preview_mint_check(
        &self,
        total_payment: FungibleBucket,
        cost_per_item_from_minter: Amount,
        quantity_to_mint: u64,
        user_account_recipient: Option<ComponentAddress>,
        minter: &MintingSettings,
        royalty: &RoyalNFTs,
        now: i64,
    ) -> Result<MintQuote, Error> {
        let due = (quantity_to_mint * cost_per_item_from_minter@) as nat;
        let fee = mul_floor(due, self.mint_fee@);
        let places = total_payment.divisibility as nat;
        if !self.marketplace_listing_key_held {
            Err(Error::NotAuthorized)
        } else if quantity_to_mint == 0 {
            Err(Error::NothingToTrade)
        } else if due + fee > u128::MAX {
            Err(Error::Overflow)
        } else if total_payment.amount@ < due + fee {
            Err(Error::InsufficientPayment)
        } else if round_down(due, places) != due || round_down(fee, places) != fee {
            Err(Error::PaymentMismatch)
        } else if fee > 0 && self.balance(total_payment.resource_address) + fee > u128::MAX {
            Err(Error::Overflow)
        } else {
            match minter.mint_preview_check(
                royalty,
                part_of(total_payment, Amount { attos: due as u128 }),
                quantity_to_mint,
                user_account_recipient,
                self.key(),
                now,
            ) {
                Err(e) => Err(e),
                Ok(price) => Ok(
                    MintQuote {
                        payment_due_to_minter: Amount { attos: due as u128 },
                        marketplace_fee: Amount { attos: fee as u128 },
                        price,
                    },
                ),
            }
        }
    }

    /// Evaluates [`GenericMarketplace::preview_mint_check`].
    pub fn quote_preview_mint(
        &self,
        total_payment: &FungibleBucket,
        cost_per_item_from_minter: Amount,
        quantity_to_mint: u64,
        user_account_recipient: Option<ComponentAddress>,
        minter: &MintingSettings,
        royalty: &RoyalNFTs,
        now: i64,
    ) -> (r: Result<MintQuote, Error>)
        requires
            self.wf(),
            minter.wf(),
        ensures
            r == self.preview_mint_check(
                *total_payment,
                cost_per_item_from_minter,
                quantity_to_mint,
                user_account_recipient,
                minter,
                royalty,
                now,
            ),
            r is Ok ==> r->Ok_0.price@ <= r->Ok_0.payment_due_to_minter@
                && r->Ok_0.payment_due_to_minter@ + r->Ok_0.marketplace_fee@
                <= total_payment.amount@,
    {
        let key = match self.permission() {
            Some(key) => key,
            None => {
                return Err(Error::NotAuthorized);
            },
        };
        if quantity_to_mint == 0 {
            return Err(Error::NothingToTrade);
        }
        let count = Amount::from_units(quantity_to_mint);
        proof {
            let n = quantity_to_mint as nat;
            let c = cost_per_item_from_minter@;
            let u = unit();
            assert((n * u * c) / u == n * c) by (nonlinear_arith)
                requires
                    u > 0,
            ;
            assert(mul_floor(count@, c) == n * c);
            lemma_mul_floor_bounded(n * c, self.mint_fee@);
        }
        let due = match count.checked_mul(cost_per_item_from_minter) {
            Some(due) => due,
            None => {
                return Err(Error::Overflow);
            },
        };
        let fee = match due.checked_mul(self.mint_fee) {
            Some(fee) => fee,
            None => {
                return Err(Error::Overflow);
            },
        };
        let total = match due.checked_add(fee) {
            Some(total) => total,
            None => {
                return Err(Error::Overflow);
            },
        };
        if total_payment.amount.attos < total.attos {
            return Err(Error::InsufficientPayment);
        }
        if due.round_down(total_payment.divisibility).attos != due.attos || fee.round_down(
            total_payment.divisibility,
        ).attos != fee.attos {
            return Err(Error::PaymentMismatch);
        }
        if fee.is_positive() {
            if self.fee_balance(total_payment.resource_address).checked_add(fee).is_none() {
                return Err(Error::Overflow);
            }
        }
        let for_minter = FungibleBucket {
            resource_address: total_payment.resource_address,
            divisibility: total_payment.divisibility,
            amount: due,
        };
        match minter.quote_mint_preview(
            royalty,
            &for_minter,
            quantity_to_mint,
            user_account_recipient,
            &key,
            now,
        ) {
            Ok(price) => Ok(MintQuote { payment_due_to_minter: due, marketplace_fee: fee, price }),
            Err(e) => Err(e),
        }
    }

    /// Buys `quantity_to_mint` editions of the sale `minter` at
    /// `cost_per_item_from_minter` each, on top of which the marketplace
    /// keeps its mint fee.
    ///
    /// The buyer gets the editions, everything the payment held beyond the
    /// price and the fee, and, having named an account, the royalty
    /// component's transient token.  A refusal changes nothing.
    pub fn purchase_preview_mint(
        &mut self,
        total_payment: FungibleBucket,
        cost_per_item_from_minter: Amount,
        quantity_to_mint: u64,
        user_account_recipient: Option<ComponentAddress>,
        minter: &mut MintingSettings,
        royalty: &mut RoyalNFTs,
        now: i64,
    ) -> (r: Result<Minted, Error>)
        requires
            old(self).wf(),
            old(minter).wf(),
            old(royalty).wf(),
        ensures
            final(self).wf(),
            final(minter).wf(),
            final(royalty).wf(),
            match r {
                Ok(out) => {
                    let check = old(self).preview_mint_check(
                        total_payment,
                        cost_per_item_from_minter,
                        quantity_to_mint,
                        user_account_recipient,
                        old(minter),
                        old(royalty),
                        now,
                    );
                    &&& check is Ok
                    &&& old(minter).minted(
                        final(minter),
                        quantity_to_mint,
                        user_account_recipient,
                        check->Ok_0.price,
                    )
                    &&& if check->Ok_0.marketplace_fee@ > 0 {
                        old(self).collected(
                            final(self),
                            part_of(total_payment, check->Ok_0.marketplace_fee),
                        )
                    } else {
                        *final(self) == *old(self)
                    }
                    &&& out.change == part_of(
                        total_payment,
                        Amount {
                            attos: (total_payment.amount@ - check->Ok_0.marketplace_fee@
                                - check->Ok_0.price@) as u128,
                        },
                    )
                    &&& out.nfts.wf()
                    &&& out.nfts.resource() == old(royalty).nft_manager
                    &&& out.nfts.local_ids() == edition_ids(old(minter).mint_id, quantity_to_mint)
                    &&& match user_account_recipient {
                        Some(recipient) => out.transient_token == Some(
                            old(royalty).transient_token(),
                        ) && old(royalty).delivering(
                            final(royalty),
                            edition_ids(old(minter).mint_id, quantity_to_mint),
                            recipient,
                        ),
                        None => out.transient_token is None && *final(royalty) == *old(royalty),
                    }
                },
                Err(e) => {
                    &&& old(self).preview_mint_check(
                        total_payment,
                        cost_per_item_from_minter,
                        quantity_to_mint,
                        user_account_recipient,
                        old(minter),
                        old(royalty),
                        now,
                    ) == Err::<MintQuote, Error>(e)
                    &&& *final(self) == *old(self)
                    &&& *final(minter) == *old(minter)
                    &&& *final(royalty) == *old(royalty)
                },
            },
    {
        let quote = match self.quote_preview_mint(
            &total_payment,
            cost_per_item_from_minter,
            quantity_to_mint,
            user_account_recipient,
            minter,
            royalty,
            now,
        ) {
            Ok(quote) => quote,
            Err(e) => {
                return Err(e);
            },
        };
        let key = match self.permission() {
            Some(key) => key,
            None => {
                return Err(Error::NotAuthorized);
            },
        };
        let currency = total_payment.resource_address;
        let divisibility = total_payment.divisibility;
        let for_minter = FungibleBucket {
            resource_address: currency,
            divisibility,
            amount: quote.payment_due_to_minter,
        };
        let minted = match minter.mint_preview_nft(
            royalty,
            for_minter,
            quantity_to_mint,
            user_account_recipient,
            &key,
            now,
        ) {
            Ok(minted) => minted,
            Err(e) => {
                return Err(e);
            },
        };
        if quote.marketplace_fee.is_positive() {
            match self.collect_fee(
                FungibleBucket { resource_address: currency, divisibility, amount: quote.marketplace_fee },
            ) {
                Ok(()) => {},
                Err(e) => {
                    return Err(e);
                },
            }
        }
        let rest = total_payment.amount.attos - quote.payment_due_to_minter.attos
            - quote.marketplace_fee.attos;
        Ok(
            Minted {
                change: FungibleBucket {
                    resource_address: currency,
                    divisibility,
                    amount: Amount { attos: rest + minted.change.amount.attos },
                },
                nfts: minted.nfts,
                transient_token: minted.transient_token,
            },
        )
    }
}

} // verus!
