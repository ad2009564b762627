//! Moving an item without a sale.
//!
//! An owner may move an item between accounts of their own, and may hand an
//! item to a destination other than an account, as far as the collection's
//! policy admits the destination.  Neither is a sale: no royalty is due.

use crate::account::items_of;
use crate::account::Account;
use crate::address::ComponentAddress;
use crate::address::Key;
use crate::error::Error;
use crate::outpost_account::OpenTrader;
use crate::resource::NonFungibleBucket;
use crate::royalty::RoyalNFTs;
use vstd::prelude::*;

verus! {

impl OpenTrader {
    /// What stands in the way of moving `royalty_nft` into `recipient`,
    /// another account of the caller's.
    pub open spec fn same_owner_check(
        &self,
        royalty_nft: &NonFungibleBucket,
        caller_owns_recipient: bool,
        royalty: &RoyalNFTs,
    ) -> Result<(), Error> {
        if !caller_owns_recipient {
            Err(Error::NotAuthorized)
        } else if royalty.nft_manager != royalty_nft.resource() {
            Err(Error::PolicyMismatch)
        } else if !royalty.depositable.permits(Some(self.royal_admin)) {
            Err(Error::NotAuthorized)
        } else {
            Ok(())
        }
    }

    /// Deposits `royalty_nft` into `recipient` on the authority of the escrow
    /// account's badge, for a caller who has shown to own `recipient`.
    pub fn same_owner_royal_transfer(
        &self,
        royalty_nft: NonFungibleBucket,
        recipient: &mut Account,
        caller_owns_recipient: bool,
        royalty: &RoyalNFTs,
    ) -> (r: Result<(), Error>)
        requires
            old(recipient).wf(),
        ensures
            final(recipient).wf(),
            final(recipient).spec_address() == old(recipient).spec_address(),
            r == self.same_owner_check(&royalty_nft, caller_owns_recipient, royalty),
            r is Err ==> *final(recipient) == *old(recipient),
            r is Ok ==> final(recipient).holdings() == old(recipient).holdings().union(
                items_of(
                    royalty_nft.resource(),
                    royalty_nft.local_ids(),
                    royalty_nft.local_ids().len() as int,
                ),
            ),
    {
        if !caller_owns_recipient {
            return Err(Error::NotAuthorized);
        }
        if !royalty.nft_manager.same(&royalty_nft.resource_address()) {
            return Err(Error::PolicyMismatch);
        }
        recipient.try_deposit_or_abort(royalty_nft, &royalty.depositable, Some(self.royal_admin))
    }

    /// Releases `royalty_nft` for delivery to `component`, a destination that
    /// is not an account.
    ///
    /// Refused when `component` is an account, when `royalty` is not the
    /// policy of the item's collection, and when the policy does not admit
    /// the destination.
    pub fn transfer_royal_nft_to_component(
        &self,
        royalty_nft: NonFungibleBucket,
        component: ComponentAddress,
        component_is_account: bool,
        royalty: &mut RoyalNFTs,
    ) -> (r: Result<NonFungibleBucket, Error>)
        requires
            old(royalty).wf(),
        ensures
            final(royalty).wf(),
            r == (if component_is_account {
                Err::<NonFungibleBucket, Error>(Error::NotAuthorized)
            } else if old(royalty).nft_manager != royalty_nft.resource() {
                Err(Error::PolicyMismatch)
            } else if !old(royalty).dapp_permitted(component) {
                Err(Error::DappNotPermitted)
            } else {
                Ok(royalty_nft)
            }),
            r is Err ==> *final(royalty) == *old(royalty),
            r is Ok ==> final(royalty).transfers_restored() && *final(royalty) == (RoyalNFTs {
                depositable: final(royalty).depositable,
                ..*old(royalty)
            }),
    {
        if component_is_account {
            return Err(Error::NotAuthorized);
        }
        if !royalty.nft_manager.same(&royalty_nft.resource_address()) {
            return Err(Error::PolicyMismatch);
        }
        royalty.transfer_royalty_nft_to_dapp(royalty_nft, component)
    }
}

} // verus!
