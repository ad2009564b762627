//! Deliveries the royalty component starts itself.
//!
//! When the component hands freshly minted items to a buyer who named an
//! account, it opens the collection's transfers, just as a sale does, and
//! gives the buyer its transient token.  The buyer carries the items to the
//! account and comes back with the token; the component then verifies that
//! the account holds the items, takes the token back and closes the transfers
//! again.

use crate::account::Account;
use crate::address::ComponentAddress;
use crate::address::Key;
use crate::address::NonFungibleGlobalId;
use crate::address::ResourceAddress;
use crate::amount::unit;
use crate::amount::Amount;
use crate::error::Error;
use crate::resource::AccessRule;
use crate::resource::FungibleBucket;
use crate::royalty::RoyalNFTs;
use crate::royalty::TransactionTracking;
use vstd::prelude::*;

verus! {

/// Whether `recipient` holds every item of collection `resource` named by
/// `local_ids`.
pub open spec fn holds_all(recipient: &Account, resource: ResourceAddress, local_ids: Seq<u64>) -> bool {
    forall|i: int|
        0 <= i < local_ids.len() ==> recipient.holdings().contains(
            NonFungibleGlobalId { resource_address: resource, local_id: #[trigger] local_ids[i] },
        )
}

/// Evaluates [`holds_all`].
pub fn check_holds_all(recipient: &Account, resource: ResourceAddress, local_ids: &Vec<u64>) -> (r: bool)
    requires
        recipient.wf(),
    ensures
        r == holds_all(recipient, resource, local_ids@),
{
    let mut i: usize = 0;
    while i < local_ids.len()
        invariant
            i <= local_ids.len(),
            recipient.wf(),
            forall|q: int|
                0 <= q < i ==> recipient.holdings().contains(
                    NonFungibleGlobalId {
                        resource_address: resource,
                        local_id: #[trigger] local_ids@[q],
                    },
                ),
        decreases local_ids.len() - i,
    {
        if !recipient.has_non_fungible(resource, local_ids[i]) {
            return false;
        }
        i += 1;
    }
    true
}

impl RoyalNFTs {
    /// Whether a delivery awaits clearing.
    pub open spec fn delivery_pending(&self) -> bool {
        self.transaction_tracking.latest_transaction is Some
    }

    /// The transient token as it travels: one token of the component's class.
    pub open spec fn transient_token(&self) -> FungibleBucket {
        FungibleBucket {
            resource_address: self.transaction_tracking.transient_token_address,
            divisibility: 0,
            amount: Amount { attos: unit() as u128 },
        }
    }

    /// Whether `token` is one token of the component's transient class.
    pub open spec fn is_transient_token(&self, token: FungibleBucket) -> bool {
        token.resource_address == self.transaction_tracking.transient_token_address
            && token.amount@ == unit()
    }

    /// What stands in the way of starting a delivery: another awaits
    /// clearing, or the component's own badge may not change the deposit
    /// rule.
    pub open spec fn delivery_check(&self) -> Result<(), Error> {
        if self.transaction_tracking.transient_tokens@ == 0 {
            Err(Error::SettlementPending)
        } else if !self.may_update_depositable(Some(self.admin_config.internal_creator_admin)) {
            Err(Error::NotAuthorized)
        } else {
            Ok(())
        }
    }

    /// The state after a delivery of `local_ids` to `account` was started.
    pub open spec fn delivering(&self, next: &RoyalNFTs, local_ids: Seq<u64>, account: ComponentAddress) -> bool {
        &&& next.transfers_open()
        &&& next.transaction_tracking.latest_transaction is Some
        &&& next.transaction_tracking.latest_transaction->Some_0.0 == self.nft_manager
        &&& next.transaction_tracking.latest_transaction->Some_0.1@ == local_ids
        &&& next.transaction_tracking.latest_transaction->Some_0.2 == account
        &&& next.transaction_tracking.transient_tokens@ == 0
        &&& next.transaction_tracking.transient_token_address
            == self.transaction_tracking.transient_token_address
        &&& *next == (RoyalNFTs {
            depositable: next.depositable,
            transaction_tracking: next.transaction_tracking,
            ..*self
        })
    }

    /// What stands in the way of clearing the delivery: the token is not one
    /// token of the component's transient class; no delivery awaits clearing;
    /// `recipient` is not the declared recipient or lacks one of the items; or
    /// the component's own badge may not change the deposit rule.
    pub open spec fn cleared_check(&self, transient_token: FungibleBucket, recipient: &Account) -> Result<
        (),
        Error,
    > {
        if !self.is_transient_token(transient_token) {
            Err(Error::WrongToken)
        } else if self.transaction_tracking.latest_transaction is None {
            Err(Error::NoPendingTransfer)
        } else {
            let pending = self.transaction_tracking.latest_transaction->Some_0;
            if recipient.spec_address() != pending.2 || !holds_all(
                recipient,
                pending.0,
                pending.1@,
            ) {
                Err(Error::TransferNotObserved)
            } else if !self.may_update_depositable(
                Some(self.admin_config.internal_creator_admin),
            ) {
                Err(Error::NotAuthorized)
            } else {
                Ok(())
            }
        }
    }

    /// The class of the component's transient token.
    pub fn get_transient_token_address(&self) -> (r: ResourceAddress)
        ensures
            r == self.transaction_tracking.transient_token_address,
    {
        self.transaction_tracking.transient_token_address
    }

    /// Whether a delivery awaits clearing.
    pub fn is_delivery_pending(&self) -> (r: bool)
        ensures
            r == self.delivery_pending(),
    {
        self.transaction_tracking.latest_transaction.is_some()
    }

    /// Evaluates [`RoyalNFTs::delivery_check`].
    pub fn can_start_delivery(&self) -> (r: Result<(), Error>)
        ensures
            r == self.delivery_check(),
    {
        if self.transaction_tracking.transient_tokens.is_zero() {
            return Err(Error::SettlementPending);
        }
        if !self.depositable_updater.check(Some(self.admin_config.internal_creator_admin)) {
            return Err(Error::NotAuthorized);
        }
        Ok(())
    }

    /// Starts the delivery of the items `local_ids` of the collection to
    /// `account`: opens the collection's transfers, records the delivery, and
    /// hands out the transient token.
    pub fn start_delivery(&mut self, local_ids: Vec<u64>, account: ComponentAddress) -> (r: Result<
        FungibleBucket,
        Error,
    >)
        requires
            old(self).wf(),
        ensures
            final(self).wf(),
            match r {
                Ok(token) => old(self).delivery_check() is Ok && token == old(self).transient_token()
                    && old(self).delivering(final(self), local_ids@, account),
                Err(e) => old(self).delivery_check() == Err::<(), Error>(e) && *final(self) == *old(
                    self,
                ),
            },
    {
        match self.can_start_delivery() {
            Ok(()) => {},
            Err(e) => {
                return Err(e);
            },
        }
        let token = FungibleBucket {
            resource_address: self.transaction_tracking.transient_token_address,
            divisibility: 0,
            amount: Amount::one(),
        };
        self.depositable = AccessRule::allow_all();
        self.transaction_tracking = TransactionTracking {
            latest_transaction: Some((self.nft_manager, local_ids, account)),
            transient_tokens: Amount::zero(),
            transient_token_address: self.transaction_tracking.transient_token_address,
        };
        Ok(token)
    }

    /// Clears the delivery that awaits clearing.
    ///
    /// `transient_token` is the token the delivery handed out; `recipient` is
    /// the account the buyer named.  On success the token is back in the
    /// vault, the deposit rule is the one that holds outside a settlement, and
    /// no delivery awaits clearing.
    pub fn cleared(&mut self, transient_token: FungibleBucket, recipient: &Account) -> (r: Result<(), Error>)
        requires
            old(self).wf(),
            recipient.wf(),
        ensures
            final(self).wf(),
            r == old(self).cleared_check(transient_token, recipient),
            r is Err ==> *final(self) == *old(self),
            r is Ok ==> {
                &&& final(self).transfers_restored()
                &&& final(self).transaction_tracking.latest_transaction is None
                &&& final(self).transaction_tracking.transient_tokens@ == unit()
                &&& final(self).transaction_tracking.transient_token_address == old(
                    self,
                ).transaction_tracking.transient_token_address
                &&& *final(self) == (RoyalNFTs {
                    depositable: final(self).depositable,
                    transaction_tracking: final(self).transaction_tracking,
                    ..*old(self)
                })
            },
    {
        if !transient_token.resource_address.same(
            &self.transaction_tracking.transient_token_address,
        ) || transient_token.amount.attos != 1_000_000_000_000_000_000 {
            return Err(Error::WrongToken);
        }
        match &self.transaction_tracking.latest_transaction {
            Some(pending) => {
                if !recipient.address().same(&pending.2) || !check_holds_all(
                    recipient,
                    pending.0,
                    &pending.1,
                ) {
                    return Err(Error::TransferNotObserved);
                }
            },
            None => {
                return Err(Error::NoPendingTransfer);
            },
        }
        if !self.depositable_updater.check(Some(self.admin_config.internal_creator_admin)) {
            return Err(Error::NotAuthorized);
        }
        self.depositable = self.admin_config.depositer_rule.duplicate();
        self.transaction_tracking = TransactionTracking {
            latest_transaction: None,
            transient_tokens: transient_token.amount,
            transient_token_address: self.transaction_tracking.transient_token_address,
        };
        Ok(())
    }
}

} // verus!
