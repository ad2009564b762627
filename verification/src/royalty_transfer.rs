//! The deposit rule of a collection: who may receive its items.
//!
//! Outside a settlement the rule is the one the component was set up with.
//! A sale opens it to every recipient until the sale is cleared.  Only a
//! holder of one of the badges named by the updater rule can change it.

use crate::account::items_of;
use crate::account::Account;
use crate::address::ComponentAddress;
use crate::address::Key;
use crate::address::ResourceAddress;
use crate::error::Error;
use crate::resource::AccessRule;
use crate::resource::NonFungibleBucket;
use crate::resource::Proof;
use crate::royalty::RoyalNFTs;
use vstd::prelude::*;

verus! {

impl RoyalNFTs {
    /// Whether a caller who shows `badge` may change the deposit rule.
    pub open spec fn may_update_depositable(&self, badge: Option<ResourceAddress>) -> bool {
        self.depositable_updater.permits(badge)
    }

    /// Whether `dapp` may be sent items: always, unless destinations are
    /// limited and `dapp` is not on the list.
    pub open spec fn dapp_permitted(&self, dapp: ComponentAddress) -> bool {
        self.royalty_config.limit_dapps ==> self.royalty_config.permissioned_dapps@.contains_key(
            dapp,
        )
    }

    /// Whether `dapp`, showing `permission`, may pass an item on to an
    /// account: always, unless private trade is limited and `dapp` is not on
    /// the list or shows another badge than the one registered for it.
    pub open spec fn router_permitted(&self, permission: Proof, dapp: ComponentAddress) -> bool {
        self.royalty_config.limit_private_trade ==> (
        self.royalty_config.permissioned_dapps@.contains_key(dapp)
            && self.royalty_config.permissioned_dapps@[dapp] == permission.resource_address)
    }

    /// Whether a holder of `badge` (or of nothing) may receive an item now.
    pub fn can_deposit(&self, badge: Option<ResourceAddress>) -> (r: bool)
        ensures
            r == self.depositable.permits(badge),
    {
        self.depositable.check(badge)
    }

    /// Whether transfers are open to every recipient.
    pub fn is_transfer_open(&self) -> (r: bool)
        ensures
            r == self.transfers_open(),
    {
        self.depositable.is_allow_all()
    }

    /// Puts `rule` in place as the deposit rule, on the authority of `badge`.
    pub fn set_depositable(&mut self, rule: AccessRule, badge: Option<ResourceAddress>) -> (r: Result<
        (),
        Error,
    >)
        ensures
            r == (if old(self).may_update_depositable(badge) {
                Ok::<(), Error>(())
            } else {
                Err(Error::NotAuthorized)
            }),
            r is Err ==> *final(self) == *old(self),
            r is Ok ==> *final(self) == (RoyalNFTs { depositable: rule, ..*old(self) }),
    {
        if !self.depositable_updater.check(badge) {
            return Err(Error::NotAuthorized);
        }
        self.depositable = rule;
        Ok(())
    }

    /// Opens transfers to every recipient, on the authority of `badge`.
    pub fn open_transfers(&mut self, badge: Option<ResourceAddress>) -> (r: Result<(), Error>)
        ensures
            r == (if old(self).may_update_depositable(badge) {
                Ok::<(), Error>(())
            } else {
                Err(Error::NotAuthorized)
            }),
            r is Err ==> *final(self) == *old(self),
            r is Ok ==> final(self).transfers_open() && *final(self) == (RoyalNFTs {
                depositable: final(self).depositable,
                ..*old(self)
            }),
    {
        self.set_depositable(AccessRule::allow_all(), badge)
    }

    /// Puts the deposit rule back to the one that holds outside a settlement,
    /// on the authority of `badge`.
    pub fn restore_transfers(&mut self, badge: Option<ResourceAddress>) -> (r: Result<(), Error>)
        ensures
            r == (if old(self).may_update_depositable(badge) {
                Ok::<(), Error>(())
            } else {
                Err(Error::NotAuthorized)
            }),
            r is Err ==> *final(self) == *old(self),
            r is Ok ==> final(self).transfers_restored() && *final(self) == (RoyalNFTs {
                depositable: final(self).depositable,
                ..*old(self)
            }),
    {
        let rule = self.admin_config.depositer_rule.duplicate();
        self.set_depositable(rule, badge)
    }

    /// Releases `nft` for delivery to the destination `dapp`.
    ///
    /// Refused when destinations are limited and `dapp` is not permissioned.
    /// The component opens transfers for the delivery on its own authority;
    /// when the hand-over is done the deposit rule is the one that holds
    /// outside a settlement.
    pub fn transfer_royalty_nft_to_dapp(&mut self, nft: NonFungibleBucket, dapp: ComponentAddress) -> (r:
        Result<NonFungibleBucket, Error>)
        requires
            old(self).wf(),
        ensures
            final(self).wf(),
            r == (if old(self).dapp_permitted(dapp) {
                Ok::<NonFungibleBucket, Error>(nft)
            } else {
                Err(Error::DappNotPermitted)
            }),
            r is Err ==> *final(self) == *old(self),
            r is Ok ==> final(self).transfers_restored() && *final(self) == (RoyalNFTs {
                depositable: final(self).depositable,
                ..*old(self)
            }),
    {
        if self.royalty_config.limit_dapps {
            if !self.royalty_config.permissioned_dapps.contains_key(&dapp) {
                return Err(Error::DappNotPermitted);
            }
        }
        self.depositable = self.admin_config.depositer_rule.duplicate();
        Ok(nft)
    }

    /// Deposits `nft` into `account` on behalf of the destination `dapp`.
    ///
    /// Refused when private trade is limited and `dapp` is not permissioned or
    /// `permission` is not the badge registered for it, and when the deposit
    /// rule does not admit the component's own badge.
    pub fn deposit_via_router(
        &self,
        nft: NonFungibleBucket,
        permission: &Proof,
        dapp: ComponentAddress,
        account: &mut Account,
    ) -> (r: Result<(), Error>)
        requires
            self.wf(),
            old(account).wf(),
        ensures
            final(account).wf(),
            final(account).spec_address() == old(account).spec_address(),
            r == (if !self.router_permitted(*permission, dapp) {
                Err::<(), Error>(Error::DappNotPermitted)
            } else if !self.depositable.permits(Some(self.admin_config.internal_creator_admin)) {
                Err(Error::NotAuthorized)
            } else {
                Ok(())
            }),
            r is Err ==> *final(account) == *old(account),
            r is Ok ==> final(account).holdings() == old(account).holdings().union(
                items_of(nft.resource(), nft.local_ids(), nft.local_ids().len() as int),
            ),
    {
        if self.royalty_config.limit_private_trade {
            match self.royalty_config.permissioned_dapps.get(&dapp) {
                Some(badge) => {
                    if !badge.same(&permission.resource_address) {
                        return Err(Error::DappNotPermitted);
                    }
                },
                None => {
                    return Err(Error::DappNotPermitted);
                },
            }
        }
        account.try_deposit_or_abort(
            nft,
            &self.depositable,
            Some(self.admin_config.internal_creator_admin),
        )
    }
}

} // verus!
