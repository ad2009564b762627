//! The creator's controls over the royalty policy.
//!
//! Every change needs the creator's badge.  While the configuration is
//! unlocked the creator may change it in any way that keeps
//! `rate <= maximum <= 1`.  Once it is locked, a change is accepted only if it
//! loosens the policy:
//!
//! | change | once locked |
//! |---|---|
//! | raise the rate | refused |
//! | lower the rate, lower the maximum rate | accepted |
//! | switch a restriction on | refused |
//! | switch a restriction off | accepted |
//! | permit a currency, a buyer, a destination | accepted |
//! | remove a permitted currency, buyer, destination | refused |
//! | set a minimum royalty | refused |
//! | remove a minimum royalty | accepted |

use crate::address::ComponentAddress;
use crate::address::Key;
use crate::address::ResourceAddress;
use crate::amount::Amount;
use crate::error::Error;
use crate::resource::AccessRule;
use crate::resource::FungibleBucket;
use crate::resource::Proof;
use crate::royalty::AdminConfig;
use crate::royalty::RoyalNFTs;
use crate::royalty::RoyaltyConfig;
use crate::royalty::Vault;
use vstd::prelude::*;

verus! {

impl RoyalNFTs {
    /// Whether the configuration is locked.
    pub open spec fn locked(&self) -> bool {
        self.royalty_config.royalty_configuration_locked
    }

    /// This component with `config` in place of its configuration.
    pub open spec fn with_config(&self, config: RoyaltyConfig) -> RoyalNFTs {
        RoyalNFTs { royalty_config: config, ..*self }
    }

    /// What stands in the way of a change asked for under `auth`: the badge is
    /// not the creator's; or the change needs currencies to be restricted and
    /// they are not; or the change tightens the policy and the configuration
    /// is locked.
    pub open spec fn guard(&self, auth: Proof, tightens: bool, needs_currency_limit: bool) -> Result<
        (),
        Error,
    > {
        if !self.is_admin(auth) {
            Err(Error::NotAuthorized)
        } else if needs_currency_limit && !self.royalty_config.limit_currencies {
            Err(Error::CurrencyRestrictionOff)
        } else if tightens && self.locked() {
            Err(Error::ConfigurationLocked)
        } else {
            Ok(())
        }
    }

    fn check_guard(&self, auth: &Proof, tightens: bool, needs_currency_limit: bool) -> (r: Result<
        (),
        Error,
    >)
        ensures
            r == self.guard(*auth, tightens, needs_currency_limit),
    {
        if !auth.resource_address.same(&self.admin_config.nft_creator_admin) {
            Err(Error::NotAuthorized)
        } else if needs_currency_limit && !self.royalty_config.limit_currencies {
            Err(Error::CurrencyRestrictionOff)
        } else if tightens && self.royalty_config.royalty_configuration_locked {
            Err(Error::ConfigurationLocked)
        } else {
            Ok(())
        }
    }

    /// Sets the royalty rate.  The rate cannot exceed the maximum rate, and
    /// cannot rise once the configuration is locked.
    pub fn change_royalty_percentage_fee(&mut self, auth: &Proof, new_royalty_percent: Amount) -> (r:
        Result<(), Error>)
        requires
            old(self).wf(),
        ensures
            final(self).wf(),
            r == (if !old(self).is_admin(*auth) {
                Err::<(), Error>(Error::NotAuthorized)
            } else if old(self).locked() && new_royalty_percent@
                > old(self).royalty_config.royalty_percent@ {
                Err(Error::ConfigurationLocked)
            } else if new_royalty_percent@ > old(self).royalty_config.maximum_royalty_percent@ {
                Err(Error::RateAboveMaximum)
            } else {
                Ok(())
            }),
            r is Err ==> *final(self) == *old(self),
            r is Ok ==> *final(self) == old(self).with_config(
                RoyaltyConfig { royalty_percent: new_royalty_percent, ..old(self).royalty_config },
            ),
            old(self).locked() ==> old(self).royalty_config.loosened_to(
                &final(self).royalty_config,
            ),
    {
        if !auth.resource_address.same(&self.admin_config.nft_creator_admin) {
            return Err(Error::NotAuthorized);
        }
        if self.royalty_config.royalty_configuration_locked && new_royalty_percent.attos
            > self.royalty_config.royalty_percent.attos {
            return Err(Error::ConfigurationLocked);
        }
        if new_royalty_percent.attos > self.royalty_config.maximum_royalty_percent.attos {
            return Err(Error::RateAboveMaximum);
        }
        self.royalty_config.royalty_percent = new_royalty_percent;
        Ok(())
    }

    /// Lowers the maximum rate, locked or not.  The new maximum cannot be
    /// below the current rate nor above the current maximum.
    pub fn lower_maximum_royalty_percentage(&mut self, auth: &Proof, new_max_royalty_percent: Amount) -> (r:
        Result<(), Error>)
        requires
            old(self).wf(),
        ensures
            final(self).wf(),
            r == (if !old(self).is_admin(*auth) {
                Err::<(), Error>(Error::NotAuthorized)
            } else if new_max_royalty_percent@ < old(self).royalty_config.royalty_percent@ {
                Err(Error::MaximumBelowRate)
            } else if new_max_royalty_percent@
                > old(self).royalty_config.maximum_royalty_percent@ {
                Err(Error::MaximumRaised)
            } else {
                Ok(())
            }),
            r is Err ==> *final(self) == *old(self),
            r is Ok ==> *final(self) == old(self).with_config(
                RoyaltyConfig {
                    maximum_royalty_percent: new_max_royalty_percent,
                    ..old(self).royalty_config
                },
            ),
            old(self).locked() ==> old(self).royalty_config.loosened_to(
                &final(self).royalty_config,
            ),
    {
        if !auth.resource_address.same(&self.admin_config.nft_creator_admin) {
            return Err(Error::NotAuthorized);
        }
        if new_max_royalty_percent.attos < self.royalty_config.royalty_percent.attos {
            return Err(Error::MaximumBelowRate);
        }
        if new_max_royalty_percent.attos > self.royalty_config.maximum_royalty_percent.attos {
            return Err(Error::MaximumRaised);
        }
        self.royalty_config.maximum_royalty_percent = new_max_royalty_percent;
        Ok(())
    }

    /// Restricts payments to the permitted currencies.  Refused once locked.
    pub fn restrict_currencies_true(&mut self, auth: &Proof) -> (r: Result<(), Error>)
        requires
            old(self).wf(),
        ensures
            final(self).wf(),
            r == old(self).guard(*auth, true, false),
            r is Err ==> *final(self) == *old(self),
            r is Ok ==> *final(self) == old(self).with_config(
                RoyaltyConfig { limit_currencies: true, ..old(self).royalty_config },
            ),
            old(self).locked() ==> old(self).royalty_config.loosened_to(
                &final(self).royalty_config,
            ),
    {
        match self.check_guard(auth, true, false) {
            Ok(()) => {},
            Err(e) => {
                return Err(e);
            },
        }
        self.royalty_config.limit_currencies = true;
        Ok(())
    }

    /// Accepts payments in every currency.
    pub fn restrict_currencies_false(&mut self, auth: &Proof) -> (r: Result<(), Error>)
        requires
            old(self).wf(),
        ensures
            final(self).wf(),
            r == old(self).guard(*auth, false, false),
            r is Err ==> *final(self) == *old(self),
            r is Ok ==> *final(self) == old(self).with_config(
                RoyaltyConfig { limit_currencies: false, ..old(self).royalty_config },
            ),
            old(self).locked() ==> old(self).royalty_config.loosened_to(
                &final(self).royalty_config,
            ),
    {
        match self.check_guard(auth, false, false) {
            Ok(()) => {},
            Err(e) => {
                return Err(e);
            },
        }
        self.royalty_config.limit_currencies = false;
        Ok(())
    }

    /// Permits a currency.  Needs currencies to be restricted.
    pub fn add_permitted_currency(&mut self, auth: &Proof, currency: ResourceAddress) -> (r: Result<
        (),
        Error,
    >)
        requires
            old(self).wf(),
        ensures
            final(self).wf(),
            r == old(self).guard(*auth, false, true),
            r is Err ==> *final(self) == *old(self),
            r is Ok ==> final(self).royalty_config.permitted_currencies@
                == old(self).royalty_config.permitted_currencies@.insert(currency, ())
                && *final(self) == old(self).with_config(
                RoyaltyConfig {
                    permitted_currencies: final(self).royalty_config.permitted_currencies,
                    ..old(self).royalty_config
                },
            ),
            old(self).locked() ==> old(self).royalty_config.loosened_to(
                &final(self).royalty_config,
            ),
    {
        match self.check_guard(auth, false, true) {
            Ok(()) => {},
            Err(e) => {
                return Err(e);
            },
        }
        self.royalty_config.permitted_currencies.insert(currency, ());
        Ok(())
    }

    /// Withdraws the permission of a currency.  Needs currencies to be
    /// restricted.  Refused once locked.
    pub fn remove_permitted_currency(&mut self, auth: &Proof, currency: ResourceAddress) -> (r: Result<
        (),
        Error,
    >)
        requires
            old(self).wf(),
        ensures
            final(self).wf(),
            r == old(self).guard(*auth, true, true),
            r is Err ==> *final(self) == *old(self),
            r is Ok ==> final(self).royalty_config.permitted_currencies@
                == old(self).royalty_config.permitted_currencies@.remove(currency) && *final(self)
                == old(self).with_config(
                RoyaltyConfig {
                    permitted_currencies: final(self).royalty_config.permitted_currencies,
                    ..old(self).royalty_config
                },
            ),
            old(self).locked() ==> old(self).royalty_config.loosened_to(
                &final(self).royalty_config,
            ),
    {
        match self.check_guard(auth, true, true) {
            Ok(()) => {},
            Err(e) => {
                return Err(e);
            },
        }
        self.royalty_config.permitted_currencies.remove(&currency);
        Ok(())
    }

    /// Enforces the minimum royalties.  Needs currencies to be restricted.
    /// Refused once locked.
    pub fn enable_minimum_royalties(&mut self, auth: &Proof) -> (r: Result<(), Error>)
        requires
            old(self).wf(),
        ensures
            final(self).wf(),
            r == old(self).guard(*auth, true, true),
            r is Err ==> *final(self) == *old(self),
            r is Ok ==> *final(self) == old(self).with_config(
                RoyaltyConfig { minimum_royalties: true, ..old(self).royalty_config },
            ),
            old(self).locked() ==> old(self).royalty_config.loosened_to(
                &final(self).royalty_config,
            ),
    {
        match self.check_guard(auth, true, true) {
            Ok(()) => {},
            Err(e) => {
                return Err(e);
            },
        }
        self.royalty_config.minimum_royalties = true;
        Ok(())
    }

    /// Stops enforcing the minimum royalties.
    pub fn disable_minimum_royalties(&mut self, auth: &Proof) -> (r: Result<(), Error>)
        requires
            old(self).wf(),
        ensures
            final(self).wf(),
            r == old(self).guard(*auth, false, false),
            r is Err ==> *final(self) == *old(self),
            r is Ok ==> *final(self) == old(self).with_config(
                RoyaltyConfig { minimum_royalties: false, ..old(self).royalty_config },
            ),
            old(self).locked() ==> old(self).royalty_config.loosened_to(
                &final(self).royalty_config,
            ),
    {
        match self.check_guard(auth, false, false) {
            Ok(()) => {},
            Err(e) => {
                return Err(e);
            },
        }
        self.royalty_config.minimum_royalties = false;
        Ok(())
    }

    /// Sets the minimum royalty of a currency.  Needs currencies to be
    /// restricted.  Refused once locked.
    pub fn set_minimum_royalty_amount(
        &mut self,
        auth: &Proof,
        currency: ResourceAddress,
        minimum_royalty_amount: Amount,
    ) -> (r: Result<(), Error>)
        requires
            old(self).wf(),
        ensures
            final(self).wf(),
            r == old(self).guard(*auth, true, true),
            r is Err ==> *final(self) == *old(self),
            r is Ok ==> final(self).royalty_config.minimum_royalty_amounts@
                == old(self).royalty_config.minimum_royalty_amounts@.insert(
                currency,
                minimum_royalty_amount,
            ) && *final(self) == old(self).with_config(
                RoyaltyConfig {
                    minimum_royalty_amounts: final(self).royalty_config.minimum_royalty_amounts,
                    ..old(self).royalty_config
                },
            ),
            old(self).locked() ==> old(self).royalty_config.loosened_to(
                &final(self).royalty_config,
            ),
    {
        match self.check_guard(auth, true, true) {
            Ok(()) => {},
            Err(e) => {
                return Err(e);
            },
        }
        self.royalty_config.minimum_royalty_amounts.insert(currency, minimum_royalty_amount);
        Ok(())
    }

    /// Removes the minimum royalty of a currency.  Needs currencies to be
    /// restricted.
    pub fn remove_minimum_royalty_amount(&mut self, auth: &Proof, currency: ResourceAddress) -> (r:
        Result<(), Error>)
        requires
            old(self).wf(),
        ensures
            final(self).wf(),
            r == old(self).guard(*auth, false, true),
            r is Err ==> *final(self) == *old(self),
            r is Ok ==> final(self).royalty_config.minimum_royalty_amounts@
                == old(self).royalty_config.minimum_royalty_amounts@.remove(currency)
                && *final(self) == old(self).with_config(
                RoyaltyConfig {
                    minimum_royalty_amounts: final(self).royalty_config.minimum_royalty_amounts,
                    ..old(self).royalty_config
                },
            ),
            old(self).locked() ==> old(self).royalty_config.loosened_to(
                &final(self).royalty_config,
            ),
    {
        match self.check_guard(auth, false, true) {
            Ok(()) => {},
            Err(e) => {
                return Err(e);
            },
        }
        self.royalty_config.minimum_royalty_amounts.remove(&currency);
        Ok(())
    }

    /// Restricts the destinations items may be sent to.  Refused once locked.
    pub fn limit_dapps_true(&mut self, auth: &Proof) -> (r: Result<(), Error>)
        requires
            old(self).wf(),
        ensures
            final(self).wf(),
            r == old(self).guard(*auth, true, false),
            r is Err ==> *final(self) == *old(self),
            r is Ok ==> *final(self) == old(self).with_config(
                RoyaltyConfig { limit_dapps: true, ..old(self).royalty_config },
            ),
            old(self).locked() ==> old(self).royalty_config.loosened_to(
                &final(self).royalty_config,
            ),
    {
        match self.check_guard(auth, true, false) {
            Ok(()) => {},
            Err(e) => {
                return Err(e);
            },
        }
        self.royalty_config.limit_dapps = true;
        Ok(())
    }

    /// Lets items be sent to every destination.
    pub fn limit_dapps_false(&mut self, auth: &Proof) -> (r: Result<(), Error>)
        requires
            old(self).wf(),
        ensures
            final(self).wf(),
            r == old(self).guard(*auth, false, false),
            r is Err ==> *final(self) == *old(self),
            r is Ok ==> *final(self) == old(self).with_config(
                RoyaltyConfig { limit_dapps: false, ..old(self).royalty_config },
            ),
            old(self).locked() ==> old(self).royalty_config.loosened_to(
                &final(self).royalty_config,
            ),
    {
        match self.check_guard(auth, false, false) {
            Ok(()) => {},
            Err(e) => {
                return Err(e);
            },
        }
        self.royalty_config.limit_dapps = false;
        Ok(())
    }

    /// Confines the passing on of items outside a sale to the permissioned
    /// destinations.  Refused once locked.
    pub fn limit_private_trade_true(&mut self, auth: &Proof) -> (r: Result<(), Error>)
        requires
            old(self).wf(),
        ensures
            final(self).wf(),
            r == old(self).guard(*auth, true, false),
            r is Err ==> *final(self) == *old(self),
            r is Ok ==> *final(self) == old(self).with_config(
                RoyaltyConfig { limit_private_trade: true, ..old(self).royalty_config },
            ),
            old(self).locked() ==> old(self).royalty_config.loosened_to(
                &final(self).royalty_config,
            ),
    {
        match self.check_guard(auth, true, false) {
            Ok(()) => {},
            Err(e) => {
                return Err(e);
            },
        }
        self.royalty_config.limit_private_trade = true;
        Ok(())
    }

    /// Lets every destination pass items on outside a sale.
    pub fn limit_private_trade_false(&mut self, auth: &Proof) -> (r: Result<(), Error>)
        requires
            old(self).wf(),
        ensures
            final(self).wf(),
            r == old(self).guard(*auth, false, false),
            r is Err ==> *final(self) == *old(self),
            r is Ok ==> *final(self) == old(self).with_config(
                RoyaltyConfig { limit_private_trade: false, ..old(self).royalty_config },
            ),
            old(self).locked() ==> old(self).royalty_config.loosened_to(
                &final(self).royalty_config,
            ),
    {
        match self.check_guard(auth, false, false) {
            Ok(()) => {},
            Err(e) => {
                return Err(e);
            },
        }
        self.royalty_config.limit_private_trade = false;
        Ok(())
    }

    /// Permits a destination, registering the badge it must show.
    pub fn add_permissioned_dapp(&mut self, auth: &Proof, dapp: ComponentAddress, badge: ResourceAddress) -> (r:
        Result<(), Error>)
        requires
            old(self).wf(),
        ensures
            final(self).wf(),
            r == old(self).guard(*auth, false, false),
            r is Err ==> *final(self) == *old(self),
            r is Ok ==> final(self).royalty_config.permissioned_dapps@
                == old(self).royalty_config.permissioned_dapps@.insert(dapp, badge) && *final(self)
                == old(self).with_config(
                RoyaltyConfig {
                    permissioned_dapps: final(self).royalty_config.permissioned_dapps,
                    ..old(self).royalty_config
                },
            ),
            old(self).locked() ==> old(self).royalty_config.loosened_to(
                &final(self).royalty_config,
            ),
    {
        match self.check_guard(auth, false, false) {
            Ok(()) => {},
            Err(e) => {
                return Err(e);
            },
        }
        self.royalty_config.permissioned_dapps.insert(dapp, badge);
        Ok(())
    }

    /// Withdraws the permission of a destination.  Refused once locked.
    pub fn remove_permissioned_dapp(&mut self, auth: &Proof, dapp: ComponentAddress) -> (r: Result<
        (),
        Error,
    >)
        requires
            old(self).wf(),
        ensures
            final(self).wf(),
            r == old(self).guard(*auth, true, false),
            r is Err ==> *final(self) == *old(self),
            r is Ok ==> final(self).royalty_config.permissioned_dapps@
                == old(self).royalty_config.permissioned_dapps@.remove(dapp) && *final(self)
                == old(self).with_config(
                RoyaltyConfig {
                    permissioned_dapps: final(self).royalty_config.permissioned_dapps,
                    ..old(self).royalty_config
                },
            ),
            old(self).locked() ==> old(self).royalty_config.loosened_to(
                &final(self).royalty_config,
            ),
    {
        match self.check_guard(auth, true, false) {
            Ok(()) => {},
            Err(e) => {
                return Err(e);
            },
        }
        self.royalty_config.permissioned_dapps.remove(&dapp);
        Ok(())
    }

    /// Permits a buyer's credential.
    pub fn add_permissioned_buyer(&mut self, auth: &Proof, buyer: ResourceAddress) -> (r: Result<
        (),
        Error,
    >)
        requires
            old(self).wf(),
        ensures
            final(self).wf(),
            r == old(self).guard(*auth, false, false),
            r is Err ==> *final(self) == *old(self),
            r is Ok ==> final(self).royalty_config.permissioned_buyers@
                == old(self).royalty_config.permissioned_buyers@.insert(buyer, ()) && *final(self)
                == old(self).with_config(
                RoyaltyConfig {
                    permissioned_buyers: final(self).royalty_config.permissioned_buyers,
                    ..old(self).royalty_config
                },
            ),
            old(self).locked() ==> old(self).royalty_config.loosened_to(
                &final(self).royalty_config,
            ),
    {
        match self.check_guard(auth, false, false) {
            Ok(()) => {},
            Err(e) => {
                return Err(e);
            },
        }
        self.royalty_config.permissioned_buyers.insert(buyer, ());
        Ok(())
    }

    /// Withdraws the permission of a buyer's credential.  Refused once
    /// locked.
    pub fn remove_permissioned_buyer(&mut self, auth: &Proof, buyer: ResourceAddress) -> (r: Result<
        (),
        Error,
    >)
        requires
            old(self).wf(),
        ensures
            final(self).wf(),
            r == old(self).guard(*auth, true, false),
            r is Err ==> *final(self) == *old(self),
            r is Ok ==> final(self).royalty_config.permissioned_buyers@
                == old(self).royalty_config.permissioned_buyers@.remove(buyer) && *final(self)
                == old(self).with_config(
                RoyaltyConfig {
                    permissioned_buyers: final(self).royalty_config.permissioned_buyers,
                    ..old(self).royalty_config
                },
            ),
            old(self).locked() ==> old(self).royalty_config.loosened_to(
                &final(self).royalty_config,
            ),
    {
        match self.check_guard(auth, true, false) {
            Ok(()) => {},
            Err(e) => {
                return Err(e);
            },
        }
        self.royalty_config.permissioned_buyers.remove(&buyer);
        Ok(())
    }

    /// Lets only the permissioned buyers buy.  Refused once locked.
    pub fn deny_all_buyers(&mut self, auth: &Proof) -> (r: Result<(), Error>)
        requires
            old(self).wf(),
        ensures
            final(self).wf(),
            r == old(self).guard(*auth, true, false),
            r is Err ==> *final(self) == *old(self),
            r is Ok ==> *final(self) == old(self).with_config(
                RoyaltyConfig { limit_buyers: true, ..old(self).royalty_config },
            ),
            old(self).locked() ==> old(self).royalty_config.loosened_to(
                &final(self).royalty_config,
            ),
    {
        match self.check_guard(auth, true, false) {
            Ok(()) => {},
            Err(e) => {
                return Err(e);
            },
        }
        self.royalty_config.limit_buyers = true;
        Ok(())
    }

    /// Lets every buyer buy.
    pub fn allow_all_buyers(&mut self, auth: &Proof) -> (r: Result<(), Error>)
        requires
            old(self).wf(),
        ensures
            final(self).wf(),
            r == old(self).guard(*auth, false, false),
            r is Err ==> *final(self) == *old(self),
            r is Ok ==> *final(self) == old(self).with_config(
                RoyaltyConfig { limit_buyers: false, ..old(self).royalty_config },
            ),
            old(self).locked() ==> old(self).royalty_config.loosened_to(
                &final(self).royalty_config,
            ),
    {
        match self.check_guard(auth, false, false) {
            Ok(()) => {},
            Err(e) => {
                return Err(e);
            },
        }
        self.royalty_config.limit_buyers = false;
        Ok(())
    }

    /// Locks the configuration, for good.
    pub fn lock_royalty_configuration(&mut self, auth: &Proof) -> (r: Result<(), Error>)
        requires
            old(self).wf(),
        ensures
            final(self).wf(),
            r == old(self).guard(*auth, false, false),
            r is Err ==> *final(self) == *old(self),
            r is Ok ==> *final(self) == old(self).with_config(
                RoyaltyConfig { royalty_configuration_locked: true, ..old(self).royalty_config },
            ),
            old(self).locked() ==> old(self).royalty_config.loosened_to(
                &final(self).royalty_config,
            ),
    {
        match self.check_guard(auth, false, false) {
            Ok(()) => {},
            Err(e) => {
                return Err(e);
            },
        }
        self.royalty_config.royalty_configuration_locked = true;
        Ok(())
    }

    /// Gives up the royalties: the rate drops to zero and everyone may
    /// receive items of the collection from now on.
    pub fn remove_royalty_config(&mut self, auth: &Proof) -> (r: Result<(), Error>)
        requires
            old(self).wf(),
        ensures
            final(self).wf(),
            r == old(self).guard(*auth, false, false),
            r is Err ==> *final(self) == *old(self),
            r is Ok ==> final(self).transfers_open() && *final(self) == (RoyalNFTs {
                royalty_config: RoyaltyConfig {
                    restricted_movement: false,
                    royalty_percent: Amount { attos: 0 },
                    ..old(self).royalty_config
                },
                depositable: final(self).depositable,
                ..*old(self)
            }),
            old(self).locked() ==> old(self).royalty_config.loosened_to(
                &final(self).royalty_config,
            ),
    {
        match self.check_guard(auth, false, false) {
            Ok(()) => {},
            Err(e) => {
                return Err(e);
            },
        }
        self.royalty_config.restricted_movement = false;
        self.royalty_config.royalty_percent = Amount::zero();
        self.depositable = AccessRule::allow_all();
        Ok(())
    }

    /// Hands the creator everything collected in `currency`.  The vault stays,
    /// empty.
    pub fn withdraw_from_royalty_vault(&mut self, auth: &Proof, currency: ResourceAddress) -> (r:
        Result<FungibleBucket, Error>)
        requires
            old(self).wf(),
        ensures
            final(self).wf(),
            r == (if !old(self).is_admin(*auth) {
                Err::<FungibleBucket, Error>(Error::NotAuthorized)
            } else if !old(self).royalty_vaults@.contains_key(currency) {
                Err(Error::VaultNotFound)
            } else {
                Ok(
                    FungibleBucket {
                        resource_address: currency,
                        divisibility: old(self).royalty_vaults@[currency].divisibility,
                        amount: old(self).royalty_vaults@[currency].amount,
                    },
                )
            }),
            r is Err ==> *final(self) == *old(self),
            r is Ok ==> final(self).royalty_vaults@ == old(self).royalty_vaults@.insert(
                currency,
                Vault {
                    divisibility: old(self).royalty_vaults@[currency].divisibility,
                    amount: Amount { attos: 0 },
                },
            ) && *final(self) == (RoyalNFTs {
                royalty_vaults: final(self).royalty_vaults,
                ..*old(self)
            }),
    {
        if !auth.resource_address.same(&self.admin_config.nft_creator_admin) {
            return Err(Error::NotAuthorized);
        }
        let vault = match self.royalty_vaults.get(&currency) {
            Some(vault) => *vault,
            None => {
                return Err(Error::VaultNotFound);
            },
        };
        self.royalty_vaults.insert(
            currency,
            Vault { divisibility: vault.divisibility, amount: Amount::zero() },
        );
        Ok(
            FungibleBucket {
                resource_address: currency,
                divisibility: vault.divisibility,
                amount: vault.amount,
            },
        )
    }

    /// Switches the temporary admin on or off.
    pub fn toggle_temp_admin(&mut self, auth: &Proof) -> (r: Result<(), Error>)
        requires
            old(self).wf(),
        ensures
            final(self).wf(),
            r == old(self).guard(*auth, false, false),
            r is Err ==> *final(self) == *old(self),
            r is Ok ==> final(self).admin_config.temp_admin == !old(self).admin_config.temp_admin
                && *final(self) == (RoyalNFTs {
                admin_config: final(self).admin_config,
                ..*old(self)
            }) && final(self).admin_config == (AdminConfig {
                temp_admin: final(self).admin_config.temp_admin,
                ..old(self).admin_config
            }),
    {
        if !auth.resource_address.same(&self.admin_config.nft_creator_admin) {
            return Err(Error::NotAuthorized);
        }
        self.admin_config.temp_admin = !self.admin_config.temp_admin;
        Ok(())
    }
}

} // verus!
