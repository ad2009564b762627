//! The royalty policy of one collection.
//!
//! A [`RoyalNFTs`] component is bound to one collection of items.  It holds
//! the creator's royalty rate with its limits and permission lists, takes the
//! creator's share out of every payment for an item of the collection, keeps
//! the shares until the creator withdraws them, and owns the deposit rule that
//! says who may receive an item of the collection.
//!
//! The creator can change the configuration freely until it is locked.  Once
//! locked, it can only be loosened: see
//! [`RoyaltyConfig::loosened_to`].

use crate::address::ComponentAddress;
use crate::address::Key;
use crate::address::ResourceAddress;
use crate::amount::lemma_mul_floor_bounded;
use crate::amount::lemma_round_down_bounds;
use crate::amount::mul_floor;
use crate::amount::share;
use crate::amount::unit;
use crate::amount::Amount;
use crate::error::Error;
use crate::resource::AccessRule;
use crate::resource::FungibleBucket;
use crate::resource::Proof;
use crate::table::Table;
use indexmap::IndexSet;
use vstd::prelude::*;

verus! {

/// The balance the component keeps in one currency.
#[derive(Clone, Copy, Debug, PartialEq, Eq, Structural)]
pub struct Vault {
    /// How many digits after the point the currency keeps.
    pub divisibility: u8,
    /// The balance.
    pub amount: Amount,
}

/// Everything a creator can set about the royalties of a collection.
pub struct RoyaltyConfig {
    /// Whether the movement of items is restricted at all.
    pub restricted_movement: bool,
    /// The rate taken from every payment; one is 100%.
    pub royalty_percent: Amount,
    /// The highest rate that can be set; it can be lowered, never raised.
    pub maximum_royalty_percent: Amount,
    /// Whether payments are accepted in the permitted currencies only.
    pub limit_currencies: bool,
    /// The currencies accepted when currencies are limited.
    pub permitted_currencies: Table<ResourceAddress, ()>,
    /// Whether a minimum royalty per currency is enforced.
    pub minimum_royalties: bool,
    /// The minimum royalty of each currency that has one.
    pub minimum_royalty_amounts: Table<ResourceAddress, Amount>,
    /// Whether items may be sent to the permissioned destinations only.
    pub limit_dapps: bool,
    /// The destinations items may be sent to, each with the badge it must show
    /// to hand an item back to a user.
    pub permissioned_dapps: Table<ComponentAddress, ResourceAddress>,
    /// Whether only the permissioned buyers may buy.
    pub limit_buyers: bool,
    /// The credentials that may buy when buyers are limited.
    pub permissioned_buyers: Table<ResourceAddress, ()>,
    /// Whether only permissioned destinations may pass items on to accounts
    /// outside a sale.
    pub limit_private_trade: bool,
    /// Once set, the configuration can only be loosened.  Never unset.
    pub royalty_configuration_locked: bool,
    /// Whether royalties are left to the buyer's goodwill instead of being
    /// enforced on transfer.
    pub honoured: bool,
}

/// The restrictions that are switched on.
#[derive(Clone, Copy, Debug, PartialEq, Eq, Structural)]
pub struct RoyaltyLimits {
    pub limit_buyers: bool,
    pub limit_currencies: bool,
    pub limit_dapps: bool,
    pub limit_private_trade: bool,
    pub minimum_royalties: bool,
}

/// What a creator states when setting up the royalties of a collection.
#[derive(Clone, Copy, Debug, PartialEq, Eq, Structural)]
pub struct RoyaltyConfigInput {
    /// The badge seller accounts hold to receive and pass on items.
    pub depositer_admin: ResourceAddress,
    pub royalties_enabled: bool,
    pub royalty_percent: Amount,
    pub maximum_royalty_percent: Amount,
    pub honoured: bool,
}

/// The credentials the component knows.
pub struct AdminConfig {
    /// The creator's badge; it authorises every change of the configuration.
    pub nft_creator_admin: ResourceAddress,
    /// The badge seller accounts hold.
    pub depositer_admin: ResourceAddress,
    /// The deposit rule of the collection outside a settlement.
    pub depositer_rule: AccessRule,
    pub temp_admin: bool,
    /// The badge the component holds for itself.
    pub internal_creator_admin: ResourceAddress,
}

/// What the component remembers of a delivery it has started itself.
pub struct TransactionTracking {
    /// The delivery that awaits clearing: collection, items, recipient.
    pub latest_transaction: Option<(ResourceAddress, Vec<u64>, ComponentAddress)>,
    /// How many transient tokens are in the component's vault: one, or none
    /// while a delivery awaits clearing.
    pub transient_tokens: Amount,
    /// The class of the component's transient token.
    pub transient_token_address: ResourceAddress,
}

/// The royalty component of one collection.
pub struct RoyalNFTs {
    pub admin_config: AdminConfig,
    pub royalty_config: RoyaltyConfig,
    /// The royalties collected and not yet withdrawn, by currency.
    pub royalty_vaults: Table<ResourceAddress, Vault>,
    /// The component's own address.
    pub royalty_component: ComponentAddress,
    /// The collection the component is bound to.
    pub nft_manager: ResourceAddress,
    /// The deposit rule of the collection as it stands: who may receive an
    /// item now.
    pub depositable: AccessRule,
    /// Who may change the deposit rule.
    pub depositable_updater: AccessRule,
    /// The delivery the component has started itself, if one is under way.
    pub transaction_tracking: TransactionTracking,
}

impl TransactionTracking {
    /// The transient token is in the vault exactly when no delivery awaits
    /// clearing.
    pub open spec fn wf(&self) -> bool {
        &&& (self.transient_tokens@ == unit() || self.transient_tokens@ == 0)
        &&& (self.transient_tokens@ == 0 <==> self.latest_transaction is Some)
    }
}

impl RoyaltyConfig {
    pub open spec fn wf(&self) -> bool {
        &&& self.permitted_currencies.wf()
        &&& self.minimum_royalty_amounts.wf()
        &&& self.permissioned_dapps.wf()
        &&& self.permissioned_buyers.wf()
        &&& self.royalty_percent@ <= self.maximum_royalty_percent@
        &&& self.maximum_royalty_percent@ <= unit()
    }

    /// Whether `next` is this configuration or a looser one: it is locked,
    /// no rate has risen, no restriction has been switched on, no list of
    /// permitted currencies, buyers or destinations has lost a member, and no
    /// minimum royalty has been added or changed.
    pub open spec fn loosened_to(&self, next: &RoyaltyConfig) -> bool {
        &&& next.royalty_configuration_locked
        &&& next.royalty_percent@ <= self.royalty_percent@
        &&& next.maximum_royalty_percent@ <= self.maximum_royalty_percent@
        &&& next.limit_currencies ==> self.limit_currencies
        &&& next.limit_buyers ==> self.limit_buyers
        &&& next.limit_dapps ==> self.limit_dapps
        &&& next.limit_private_trade ==> self.limit_private_trade
        &&& next.minimum_royalties ==> self.minimum_royalties
        &&& self.permitted_currencies@.dom().subset_of(next.permitted_currencies@.dom())
        &&& self.permissioned_buyers@.dom().subset_of(next.permissioned_buyers@.dom())
        &&& self.permissioned_dapps@.dom().subset_of(next.permissioned_dapps@.dom())
        &&& next.minimum_royalty_amounts@.submap_of(self.minimum_royalty_amounts@)
    }
}

impl RoyalNFTs {
    pub open spec fn wf(&self) -> bool {
        &&& self.royalty_config.wf()
        &&& self.royalty_vaults.wf()
        &&& self.transaction_tracking.wf()
    }

    /// Whether `auth` is the creator's badge.
    pub open spec fn is_admin(&self, auth: Proof) -> bool {
        auth.resource_address == self.admin_config.nft_creator_admin
    }

    /// The balance held in `currency`; zero when none was ever paid in.
    pub open spec fn balance(&self, currency: ResourceAddress) -> nat {
        if self.royalty_vaults@.contains_key(currency) {
            self.royalty_vaults@[currency].amount@
        } else {
            0
        }
    }

    /// Whether transfers of the collection are open to every recipient.
    pub open spec fn transfers_open(&self) -> bool {
        self.depositable.allow_all
    }

    /// Whether the deposit rule is the one that holds outside a settlement.
    pub open spec fn transfers_restored(&self) -> bool {
        self.depositable.same_as(&self.admin_config.depositer_rule)
    }

    /// The royalty that `payment`, made under `buyer`'s credential for items
    /// of collection `nft`, owes, or the reason the payment is refused.
    ///
    /// The royalty is the payment times the rate, rounded toward zero to the
    /// precision of the currency.
    pub open spec fn quote(
        &self,
        nft: ResourceAddress,
        payment: FungibleBucket,
        buyer: ResourceAddress,
    ) -> Result<Amount, Error> {
        let config = self.royalty_config;
        let currency = payment.resource_address;
        let royalty = share(
            payment.amount@,
            config.royalty_percent@,
            payment.divisibility as nat,
        );
        if nft != self.nft_manager {
            Err(Error::PolicyMismatch)
        } else if config.limit_buyers && !config.permissioned_buyers@.contains_key(buyer) {
            Err(Error::BuyerNotPermitted)
        } else if config.limit_currencies && !config.permitted_currencies@.contains_key(currency) {
            Err(Error::CurrencyNotPermitted)
        } else if config.limit_currencies && config.minimum_royalties
            && config.minimum_royalty_amounts@.contains_key(currency) && royalty
            < config.minimum_royalty_amounts@[currency]@ {
            Err(Error::BelowMinimumRoyalty)
        } else if self.balance(currency) + royalty > u128::MAX {
            Err(Error::Overflow)
        } else {
            Ok(Amount { attos: royalty as u128 })
        }
    }

    /// The state after a royalty of `royalty` was collected from a payment in
    /// `currency`: the vault of the currency has grown by it, all else is as
    /// it was.
    pub open spec fn collected(
        &self,
        next: &RoyalNFTs,
        currency: ResourceAddress,
        divisibility: u8,
        royalty: Amount,
    ) -> bool {
        &&& next.royalty_vaults@ == self.royalty_vaults@.insert(
            currency,
            Vault {
                divisibility,
                amount: Amount { attos: (self.balance(currency) + royalty@) as u128 },
            },
        )
        &&& next.admin_config == self.admin_config
        &&& next.royalty_config == self.royalty_config
        &&& next.royalty_component == self.royalty_component
        &&& next.nft_manager == self.nft_manager
        &&& next.depositable == self.depositable
        &&& next.depositable_updater == self.depositable_updater
        &&& next.transaction_tracking == self.transaction_tracking
    }

    /// Sets up the royalty component of collection `resource_address`.
    ///
    /// `royalty_component` is the address the component will live at;
    /// `nft_creator_admin` is the creator's badge, `internal_creator_admin`
    /// the badge the component keeps for itself, and
    /// `transient_token_address` the class of its transient token, of which
    /// one is put into its vault.  The rates must satisfy
    /// `rate <= maximum <= 1`.
    ///
    /// With royalties enabled and not merely honoured, an item can be received
    /// only by a holder of the sellers' badge, of the component's own badge or
    /// of the creator's badge, and the same three may change that rule.
    /// Otherwise everyone can receive items and only the creator may change
    /// the rule.
    pub fn start_royalty_nft(
        resource_address: ResourceAddress,
        royalty_config_input: RoyaltyConfigInput,
        royalty_component: ComponentAddress,
        nft_creator_admin: ResourceAddress,
        internal_creator_admin: ResourceAddress,
        transient_token_address: ResourceAddress,
    ) -> (r: Result<RoyalNFTs, Error>)
        ensures
            royalty_config_input.royalty_percent@ > unit() ==> r is Err && r->Err_0
                == Error::RateAboveOne,
            royalty_config_input.royalty_percent@ <= unit() && royalty_config_input.royalty_percent@
                > royalty_config_input.maximum_royalty_percent@ ==> r is Err && r->Err_0
                == Error::RateAboveMaximum,
            royalty_config_input.royalty_percent@ <= royalty_config_input.maximum_royalty_percent@
                && royalty_config_input.maximum_royalty_percent@ > unit() ==> r is Err && r->Err_0
                == Error::RateAboveOne,
            royalty_config_input.royalty_percent@ <= royalty_config_input.maximum_royalty_percent@
                && royalty_config_input.maximum_royalty_percent@ <= unit() ==> r is Ok,
            r is Ok ==> ({
                let c = r->Ok_0;
                let enforced = royalty_config_input.royalties_enabled
                    && !royalty_config_input.honoured;
                &&& c.wf()
                &&& c.nft_manager == resource_address
                &&& c.royalty_component == royalty_component
                &&& c.admin_config.nft_creator_admin == nft_creator_admin
                &&& c.admin_config.internal_creator_admin == internal_creator_admin
                &&& c.admin_config.depositer_admin == royalty_config_input.depositer_admin
                &&& !c.admin_config.temp_admin
                &&& c.royalty_config.restricted_movement == royalty_config_input.royalties_enabled
                &&& c.royalty_config.honoured == royalty_config_input.honoured
                &&& c.royalty_config.royalty_percent == royalty_config_input.royalty_percent
                &&& c.royalty_config.maximum_royalty_percent
                    == royalty_config_input.maximum_royalty_percent
                &&& !c.royalty_config.limit_buyers
                &&& !c.royalty_config.limit_currencies
                &&& !c.royalty_config.limit_dapps
                &&& !c.royalty_config.limit_private_trade
                &&& !c.royalty_config.minimum_royalties
                &&& !c.royalty_config.royalty_configuration_locked
                &&& c.royalty_config.permitted_currencies@ == Map::<ResourceAddress, ()>::empty()
                &&& c.royalty_config.minimum_royalty_amounts@ == Map::<
                    ResourceAddress,
                    Amount,
                >::empty()
                &&& c.royalty_config.permissioned_dapps@ == Map::<
                    ComponentAddress,
                    ResourceAddress,
                >::empty()
                &&& c.royalty_config.permissioned_buyers@ == Map::<ResourceAddress, ()>::empty()
                &&& c.royalty_vaults@ == Map::<ResourceAddress, Vault>::empty()
                &&& c.transaction_tracking.latest_transaction is None
                &&& c.transaction_tracking.transient_tokens@ == unit()
                &&& c.transaction_tracking.transient_token_address == transient_token_address
                &&& c.transfers_restored()
                &&& c.depositable.allow_all == !enforced
                &&& enforced ==> c.depositable.badges@ == seq![
                    royalty_config_input.depositer_admin,
                    internal_creator_admin,
                    nft_creator_admin,
                ] && c.depositable_updater.same_as(&c.depositable)
                &&& !enforced ==> !c.depositable_updater.allow_all
                    && c.depositable_updater.badges@ == seq![nft_creator_admin]
            }),
    {
        if royalty_config_input.royalty_percent.attos > Amount::one().attos {
            return Err(Error::RateAboveOne);
        }
        if royalty_config_input.royalty_percent.attos
            > royalty_config_input.maximum_royalty_percent.attos {
            return Err(Error::RateAboveMaximum);
        }
        if royalty_config_input.maximum_royalty_percent.attos > Amount::one().attos {
            return Err(Error::RateAboveOne);
        }
        let royalty_config = RoyaltyConfig {
            restricted_movement: royalty_config_input.royalties_enabled,
            honoured: royalty_config_input.honoured,
            royalty_percent: royalty_config_input.royalty_percent,
            maximum_royalty_percent: royalty_config_input.maximum_royalty_percent,
            limit_buyers: false,
            limit_currencies: false,
            limit_dapps: false,
            limit_private_trade: false,
            minimum_royalties: false,
            permitted_currencies: Table::new(),
            minimum_royalty_amounts: Table::new(),
            permissioned_dapps: Table::new(),
            permissioned_buyers: Table::new(),
            royalty_configuration_locked: false,
        };
        let enforced = royalty_config_input.royalties_enabled && !royalty_config_input.honoured;
        let depositer_rule: AccessRule;
        let depositable: AccessRule;
        let depositable_updater: AccessRule;
        if enforced {
            let mut badges: Vec<ResourceAddress> = Vec::new();
            badges.push(royalty_config_input.depositer_admin);
            badges.push(internal_creator_admin);
            badges.push(nft_creator_admin);
            proof {
                assert(badges@ =~= seq![
                    royalty_config_input.depositer_admin,
                    internal_creator_admin,
                    nft_creator_admin,
                ]);
            }
            depositer_rule = AccessRule::require_any_of(badges);
            depositable = depositer_rule.duplicate();
            depositable_updater = depositer_rule.duplicate();
        } else {
            depositer_rule = AccessRule::allow_all();
            depositable = AccessRule::allow_all();
            let mut badges: Vec<ResourceAddress> = Vec::new();
            badges.push(nft_creator_admin);
            proof {
                assert(badges@ =~= seq![nft_creator_admin]);
            }
            depositable_updater = AccessRule::require_any_of(badges);
        }
        let admin_config = AdminConfig {
            nft_creator_admin,
            depositer_admin: royalty_config_input.depositer_admin,
            depositer_rule,
            temp_admin: false,
            internal_creator_admin,
        };
        Ok(
            RoyalNFTs {
                admin_config,
                royalty_config,
                royalty_vaults: Table::new(),
                royalty_component,
                nft_manager: resource_address,
                depositable,
                depositable_updater,
                transaction_tracking: TransactionTracking {
                    latest_transaction: None,
                    transient_tokens: Amount::one(),
                    transient_token_address,
                },
            },
        )
    }

    /// The creator's badge.
    pub fn creator_admin(&self) -> (r: ResourceAddress)
        ensures
            r == self.admin_config.nft_creator_admin,
    {
        self.admin_config.nft_creator_admin
    }

    /// The collection the component is bound to.
    pub fn resource_address(&self) -> (r: ResourceAddress)
        ensures
            r == self.nft_manager,
    {
        self.nft_manager
    }

    /// The collection the component is bound to.
    pub fn get_nft_address(&self) -> (r: ResourceAddress)
        ensures
            r == self.nft_manager,
    {
        self.nft_manager
    }

    /// The restrictions that are switched on.
    pub fn limits(&self) -> (r: RoyaltyLimits)
        ensures
            r == (RoyaltyLimits {
                limit_buyers: self.royalty_config.limit_buyers,
                limit_currencies: self.royalty_config.limit_currencies,
                limit_dapps: self.royalty_config.limit_dapps,
                limit_private_trade: self.royalty_config.limit_private_trade,
                minimum_royalties: self.royalty_config.minimum_royalties,
            }),
    {
        RoyaltyLimits {
            limit_buyers: self.royalty_config.limit_buyers,
            limit_currencies: self.royalty_config.limit_currencies,
            limit_dapps: self.royalty_config.limit_dapps,
            limit_private_trade: self.royalty_config.limit_private_trade,
            minimum_royalties: self.royalty_config.minimum_royalties,
        }
    }

    /// The balance held in `currency`; zero when none was ever paid in.
    pub fn royalty_balance(&self, currency: ResourceAddress) -> (r: Amount)
        requires
            self.wf(),
        ensures
            r@ == self.balance(currency),
    {
        match self.royalty_vaults.get(&currency) {
            Some(vault) => vault.amount,
            None => Amount::zero(),
        }
    }

    /// The royalty that `payment` owes, or the reason it is refused.  Nothing
    /// is collected.
    pub fn royalty_due(&self, nft: ResourceAddress, payment: &FungibleBucket, buyer: ResourceAddress) -> (r:
        Result<Amount, Error>)
        requires
            self.wf(),
        ensures
            r == self.quote(nft, *payment, buyer),
            r is Ok ==> r->Ok_0@ <= payment.amount@ && r->Ok_0@ <= mul_floor(
                payment.amount@,
                self.royalty_config.royalty_percent@,
            ),
    {
        if !nft.same(&self.nft_manager) {
            return Err(Error::PolicyMismatch);
        }
        if self.royalty_config.limit_buyers {
            if !self.royalty_config.permissioned_buyers.contains_key(&buyer) {
                return Err(Error::BuyerNotPermitted);
            }
        }
        let currency = payment.resource_address;
        let limit_currencies = self.royalty_config.limit_currencies;
        if limit_currencies {
            if !self.royalty_config.permitted_currencies.contains_key(&currency) {
                return Err(Error::CurrencyNotPermitted);
            }
        }
        proof {
            lemma_mul_floor_bounded(payment.amount@, self.royalty_config.royalty_percent@);
            lemma_round_down_bounds(
                mul_floor(payment.amount@, self.royalty_config.royalty_percent@),
                payment.divisibility as nat,
            );
        }
        let royalty = match payment.amount.share(
            self.royalty_config.royalty_percent,
            payment.divisibility,
        ) {
            Some(royalty) => royalty,
            None => {
                return Err(Error::Overflow);
            },
        };
        if limit_currencies {
            if self.royalty_config.minimum_royalties {
                match self.royalty_config.minimum_royalty_amounts.get(&currency) {
                    Some(minimum_royalty) => {
                        if royalty.attos < minimum_royalty.attos {
                            return Err(Error::BelowMinimumRoyalty);
                        }
                    },
                    None => {},
                }
            }
        }
        let held = self.royalty_balance(currency);
        match held.checked_add(royalty) {
            Some(_) => Ok(royalty),
            None => Err(Error::Overflow),
        }
    }

    /// Takes the royalty out of `payment` and hands back the rest.
    ///
    /// The payment is refused, and nothing changes, when `nft` is not the
    /// collection of this component, when buyers are limited and `buyer` is
    /// not permissioned, when currencies are limited and the payment's
    /// currency is not permitted, or when minimum royalties are enforced and
    /// the royalty is below the minimum of the currency.  Otherwise the
    /// royalty goes to the vault of the currency, and what is handed back and
    /// the royalty add up to the payment.
    pub fn pay_royalty_basic(&mut self, nft: ResourceAddress, payment: FungibleBucket, buyer: ResourceAddress) -> (r:
        Result<FungibleBucket, Error>)
        requires
            old(self).wf(),
        ensures
            final(self).wf(),
            match r {
                Ok(remainder) => {
                    &&& old(self).quote(nft, payment, buyer) is Ok
                    &&& old(self).collected(
                        final(self),
                        payment.resource_address,
                        payment.divisibility,
                        old(self).quote(nft, payment, buyer)->Ok_0,
                    )
                    &&& remainder.resource_address == payment.resource_address
                    &&& remainder.divisibility == payment.divisibility
                    &&& remainder.amount@ + old(self).quote(nft, payment, buyer)->Ok_0@
                        == payment.amount@
                    &&& final(self).balance(payment.resource_address) == old(self).balance(
                        payment.resource_address,
                    ) + old(self).quote(nft, payment, buyer)->Ok_0@
                    &&& old(self).quote(nft, payment, buyer)->Ok_0@ <= mul_floor(
                        payment.amount@,
                        old(self).royalty_config.royalty_percent@,
                    )
                },
                Err(e) => old(self).quote(nft, payment, buyer) == Err::<Amount, Error>(e)
                    && *final(self) == *old(self),
            },
    {
        let royalty = match self.royalty_due(nft, &payment, buyer) {
            Ok(royalty) => royalty,
            Err(e) => {
                return Err(e);
            },
        };
        let currency = payment.resource_address;
        let held = self.royalty_balance(currency);
        let total = Amount { attos: held.attos + royalty.attos };
        self.royalty_vaults.insert(currency, Vault { divisibility: payment.divisibility, amount: total });
        Ok(
            FungibleBucket {
                resource_address: currency,
                divisibility: payment.divisibility,
                amount: Amount { attos: payment.amount.attos - royalty.attos },
            },
        )
    }

    /// Takes the royalty out of a `payment` for the items `local_ids`, bound
    /// for `account`, and hands back the rest; see
    /// [`RoyalNFTs::pay_royalty_basic`], which this is for every set of items
    /// and every account.
    pub fn pay_royalty(
        &mut self,
        nft: ResourceAddress,
        local_ids: &IndexSet<u64>,
        payment: FungibleBucket,
        buyer: ResourceAddress,
        account: ComponentAddress,
    ) -> (r: Result<FungibleBucket, Error>)
        requires
            old(self).wf(),
        ensures
            final(self).wf(),
            match r {
                Ok(remainder) => {
                    &&& old(self).quote(nft, payment, buyer) is Ok
                    &&& old(self).collected(
                        final(self),
                        payment.resource_address,
                        payment.divisibility,
                        old(self).quote(nft, payment, buyer)->Ok_0,
                    )
                    &&& remainder.resource_address == payment.resource_address
                    &&& remainder.divisibility == payment.divisibility
                    &&& remainder.amount@ + old(self).quote(nft, payment, buyer)->Ok_0@
                        == payment.amount@
                    &&& final(self).balance(payment.resource_address) == old(self).balance(
                        payment.resource_address,
                    ) + old(self).quote(nft, payment, buyer)->Ok_0@
                    &&& old(self).quote(nft, payment, buyer)->Ok_0@ <= mul_floor(
                        payment.amount@,
                        old(self).royalty_config.royalty_percent@,
                    )
                },
                Err(e) => old(self).quote(nft, payment, buyer) == Err::<Amount, Error>(e)
                    && *final(self) == *old(self),
            },
    {
        self.pay_royalty_basic(nft, payment, buyer)
    }
}

} // verus!
