//! The holding account: where a buyer's items arrive.
//!
//! The protocol needs two things of an account: that items can be deposited
//! into it when the collection's deposit rule admits the depositor, and that
//! it can say whether it holds a given item.

use crate::address::ComponentAddress;
use crate::address::NonFungibleGlobalId;
use crate::address::ResourceAddress;
use crate::error::Error;
use crate::resource::AccessRule;
use crate::resource::NonFungibleBucket;
use crate::table::Table;
use vstd::prelude::*;

verus! {

/// The items of collection `resource` with identifiers among the first `n`
/// of `local_ids`.
pub open spec fn items_of(resource: ResourceAddress, local_ids: Seq<u64>, n: int) -> Set<
    NonFungibleGlobalId,
> {
    Set::new(
        |k: NonFungibleGlobalId|
            k.resource_address == resource && exists|i: int|
                0 <= i < n && i < local_ids.len() && local_ids[i] == k.local_id,
    )
}

/// An account and the items it holds.
pub struct Account {
    address: ComponentAddress,
    non_fungibles: Table<NonFungibleGlobalId, ()>,
}

impl Account {
    pub closed spec fn wf(&self) -> bool {
        self.non_fungibles.wf()
    }

    /// The account's own address.
    pub closed spec fn spec_address(&self) -> ComponentAddress {
        self.address
    }

    /// The items the account holds.
    pub closed spec fn holdings(&self) -> Set<NonFungibleGlobalId> {
        self.non_fungibles@.dom()
    }

    /// An account at `address` that holds nothing.
    pub fn new(address: ComponentAddress) -> (r: Account)
        ensures
            r.wf(),
            r.spec_address() == address,
            r.holdings() == Set::<NonFungibleGlobalId>::empty(),
    {
        let r = Account { address, non_fungibles: Table::new() };
        proof {
            assert(r.non_fungibles@.dom() =~= Set::<NonFungibleGlobalId>::empty());
        }
        r
    }

    pub fn address(&self) -> (r: ComponentAddress)
        ensures
            r == self.spec_address(),
    {
        self.address
    }

    /// Whether the account holds item `local_id` of collection `resource`.
    pub fn has_non_fungible(&self, resource: ResourceAddress, local_id: u64) -> (r: bool)
        requires
            self.wf(),
        ensures
            r == self.holdings().contains(
                NonFungibleGlobalId { resource_address: resource, local_id },
            ),
    {
        let key = NonFungibleGlobalId { resource_address: resource, local_id };
        self.non_fungibles.contains_key(&key)
    }

    /// Deposits the items of `bucket`, provided `rule`, the deposit rule of
    /// their collection, admits a depositor showing `badge`.  A refused
    /// deposit changes nothing.
    pub fn try_deposit_or_abort(
        &mut self,
        bucket: NonFungibleBucket,
        rule: &AccessRule,
        badge: Option<ResourceAddress>,
    ) -> (r: Result<(), Error>)
        requires
            old(self).wf(),
        ensures
            final(self).wf(),
            final(self).spec_address() == old(self).spec_address(),
            rule.permits(badge) ==> r == Ok::<(), Error>(()) && final(self).holdings() == old(
                self,
            ).holdings().union(
                items_of(bucket.resource(), bucket.local_ids(), bucket.local_ids().len() as int),
            ),
            !rule.permits(badge) ==> r == Err::<(), Error>(Error::NotAuthorized) && *final(self)
                == *old(self),
    {
        if !rule.check(badge) {
            return Err(Error::NotAuthorized);
        }
        let resource = bucket.resource_address();
        let n = bucket.len();
        let mut i: usize = 0;
        proof {
            assert(self.non_fungibles@.dom() =~= old(self).holdings().union(
                items_of(resource, bucket.local_ids(), 0),
            ));
        }
        while i < n
            invariant
                i <= n,
                n == bucket.local_ids().len(),
                resource == bucket.resource(),
                self.non_fungibles.wf(),
                self.address == old(self).address,
                self.non_fungibles@.dom() == old(self).holdings().union(
                    items_of(resource, bucket.local_ids(), i as int),
                ),
            decreases n - i,
        {
            match bucket.local_id_at(i) {
                Some(local_id) => {
                    let key = NonFungibleGlobalId { resource_address: resource, local_id };
                    self.non_fungibles.insert(key, ());
                    proof {
                        let before = items_of(resource, bucket.local_ids(), i as int);
                        let after = items_of(resource, bucket.local_ids(), i as int + 1);
                        assert forall|k: NonFungibleGlobalId| after.contains(k) <==> (
                        before.contains(k) || k == key) by {
                            if before.contains(k) {
                                let j = choose|j: int|
                                    0 <= j < i && j < bucket.local_ids().len()
                                        && bucket.local_ids()[j] == k.local_id;
                                assert(0 <= j < i + 1 && bucket.local_ids()[j] == k.local_id);
                            }
                            if k == key {
                                assert(0 <= i < i + 1 && bucket.local_ids()[i as int]
                                    == k.local_id);
                            }
                        }
                        assert(self.non_fungibles@.dom() =~= old(self).holdings().union(after));
                    }
                },
                None => {},
            }
            i += 1;
        }
        Ok(())
    }
}

} // verus!
