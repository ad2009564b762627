//! The hub that opens escrow accounts.
//!
//! The hub knows the badges of the system and gives every escrow account it
//! opens the badge that lets it handle items whose movement is restricted,
//! and one transient token.  An account can have one escrow account.

use crate::address::ComponentAddress;
use crate::address::NonFungibleGlobalId;
use crate::address::ResourceAddress;
use crate::amount::Amount;
use crate::error::Error;
use crate::outpost_account::OpenTrader;
use crate::resource::FungibleBucket;
use crate::table::Table;
use vstd::prelude::*;

verus! {

/// The hub.
pub struct OpenHub {
    /// The badge escrow accounts sign their events with.
    pub emitter_trader_badge: ResourceAddress,
    /// The class of the keys the owners of escrow accounts hold.
    pub outpost_account_badge: ResourceAddress,
    /// The badge that lets escrow accounts hold and pass on items whose
    /// movement is restricted.
    pub royal_nft_depositer_badge: ResourceAddress,
    /// The hub's own address.
    pub component_address: ComponentAddress,
    /// The escrow account of each account that has one.
    pub registered_accounts: Table<ComponentAddress, ComponentAddress>,
    /// The class of the transient tokens of the escrow accounts.
    pub transient_token_manager: ResourceAddress,
    /// The badge of the hub's admin.
    pub admin: ResourceAddress,
}

impl OpenHub {
    pub open spec fn wf(&self) -> bool {
        self.registered_accounts.wf()
    }

    /// A hub that has opened no escrow account yet.
    pub fn start_open_hub(
        component_address: ComponentAddress,
        admin: ResourceAddress,
        emitter_trader_badge: ResourceAddress,
        outpost_account_badge: ResourceAddress,
        royal_nft_depositer_badge: ResourceAddress,
        transient_token_manager: ResourceAddress,
    ) -> (r: OpenHub)
        ensures
            r.wf(),
            r.registered_accounts@ == Map::<ComponentAddress, ComponentAddress>::empty(),
            r.component_address == component_address,
            r.admin == admin,
            r.emitter_trader_badge == emitter_trader_badge,
            r.outpost_account_badge == outpost_account_badge,
            r.royal_nft_depositer_badge == royal_nft_depositer_badge,
            r.transient_token_manager == transient_token_manager,
    {
        OpenHub {
            emitter_trader_badge,
            outpost_account_badge,
            royal_nft_depositer_badge,
            component_address,
            registered_accounts: Table::new(),
            transient_token_manager,
            admin,
        }
    }

    /// Opens the escrow account of `my_account` at the address
    /// `outpost_component`, with the key `key_local_id` for its owner.
    ///
    /// Refused when the caller has not shown to own `my_account`, and when the
    /// account has an escrow account already.
    pub fn create_outpost(
        &mut self,
        my_account: ComponentAddress,
        caller_owns_account: bool,
        outpost_component: ComponentAddress,
        key_local_id: u64,
    ) -> (r: Result<(NonFungibleGlobalId, OpenTrader), Error>)
        requires
            old(self).wf(),
        ensures
            final(self).wf(),
            match r {
                Ok(out) => {
                    &&& caller_owns_account
                    &&& !old(self).registered_accounts@.contains_key(my_account)
                    &&& final(self).registered_accounts@ == old(self).registered_accounts@.insert(
                        my_account,
                        outpost_component,
                    )
                    &&& *final(self) == (OpenHub {
                        registered_accounts: final(self).registered_accounts,
                        ..*old(self)
                    })
                    &&& out.0 == (NonFungibleGlobalId {
                        resource_address: old(self).outpost_account_badge,
                        local_id: key_local_id,
                    })
                    &&& out.1.wf()
                    &&& out.1.listings@ == Map::<
                        NonFungibleGlobalId,
                        crate::outpost_account::Listing,
                    >::empty()
                    &&& out.1.royal_admin == old(self).royal_nft_depositer_badge
                    &&& out.1.auth_key_resource == old(self).outpost_account_badge
                    &&& out.1.auth_key_local == key_local_id
                    &&& out.1.my_account == my_account
                    &&& out.1.trader_account_component_address == outpost_component
                    &&& out.1.transient_token_address == old(self).transient_token_manager
                    &&& !out.1.settlement_pending()
                },
                Err(e) => *final(self) == *old(self) && e == (if !caller_owns_account {
                    Error::NotAuthorized
                } else {
                    Error::AlreadyRegistered
                }) && (!caller_owns_account || old(self).registered_accounts@.contains_key(
                    my_account,
                )),
            },
    {
        if !caller_owns_account {
            return Err(Error::NotAuthorized);
        }
        if self.registered_accounts.contains_key(&my_account) {
            return Err(Error::AlreadyRegistered);
        }
        let nfgid = NonFungibleGlobalId {
            resource_address: self.outpost_account_badge,
            local_id: key_local_id,
        };
        let transient_token = FungibleBucket::with_divisibility(
            self.transient_token_manager,
            0,
            Amount::one(),
        );
        let trader = match OpenTrader::create_trader(
            nfgid,
            my_account,
            self.royal_nft_depositer_badge,
            transient_token,
            outpost_component,
        ) {
            Ok(trader) => trader,
            Err(e) => {
                return Err(e);
            },
        };
        self.registered_accounts.insert(my_account, outpost_component);
        Ok((nfgid, trader))
    }

    /// The badge escrow accounts sign their events with.
    pub fn fetch_virt_badge(&self) -> (r: ResourceAddress)
        ensures
            r == self.emitter_trader_badge,
    {
        self.emitter_trader_badge
    }

    /// The badge that lets escrow accounts handle items whose movement is
    /// restricted.
    pub fn fetch_royal_nft_depositer_badge(&self) -> (r: ResourceAddress)
        ensures
            r == self.royal_nft_depositer_badge,
    {
        self.royal_nft_depositer_badge
    }
}

} // verus!
