//! Values that change hands: balances of a currency, items of a collection,
//! and the credentials and rules that govern who may receive them.

use crate::address::Key;
use crate::address::NonFungibleGlobalId;
use crate::address::ResourceAddress;
use crate::amount::round_down;
use crate::amount::Amount;
use crate::id_set::distinct_ids;
use crate::id_set::id_set_contains;
use crate::id_set::id_set_get_index;
use crate::id_set::id_set_insert;
use crate::id_set::id_set_len;
use crate::id_set::id_set_new;
use crate::id_set::ids;
use crate::id_set::insert_id;
use crate::id_set::lemma_insert_id;
use indexmap::IndexSet;
use vstd::prelude::*;

verus! {

/// Whether `list` holds `address`.
pub fn contains_address(list: &Vec<ResourceAddress>, address: &ResourceAddress) -> (r: bool)
    ensures
        r == list@.contains(*address),
{
    let mut i: usize = 0;
    while i < list.len()
        invariant
            i <= list.len(),
            forall|j: int| 0 <= j < i ==> list@[j] != *address,
        decreases list.len() - i,
    {
        if list[i].same(address) {
            return true;
        }
        i += 1;
    }
    false
}

/// A copy of `list`.
pub fn copy_addresses(list: &Vec<ResourceAddress>) -> (r: Vec<ResourceAddress>)
    ensures
        r@ == list@,
{
    let mut out: Vec<ResourceAddress> = Vec::new();
    let mut i: usize = 0;
    while i < list.len()
        invariant
            i <= list.len(),
            out@ == list@.take(i as int),
        decreases list.len() - i,
    {
        out.push(list[i]);
        proof {
            assert(list@.take(i as int + 1) =~= list@.take(i as int).push(list@[i as int]));
        }
        i += 1;
    }
    proof {
        assert(list@.take(list@.len() as int) =~= list@);
    }
    out
}

/// A credential shown to a component: the class of the badge, and the
/// marketplace fee rate that the badge's own metadata declares, if any.
#[derive(Clone, Copy, Debug, PartialEq, Eq, Structural)]
pub struct Proof {
    pub resource_address: ResourceAddress,
    pub marketplace_fee: Option<Amount>,
}

impl Proof {
    /// A credential of the given class that declares no marketplace fee.
    pub fn new(resource_address: ResourceAddress) -> (r: Proof)
        ensures
            r == (Proof { resource_address, marketplace_fee: None }),
    {
        Proof { resource_address, marketplace_fee: None }
    }

    /// A credential of the given class that declares a marketplace fee rate.
    pub fn with_marketplace_fee(resource_address: ResourceAddress, rate: Amount) -> (r: Proof)
        ensures
            r == (Proof { resource_address, marketplace_fee: Some(rate) }),
    {
        Proof { resource_address, marketplace_fee: Some(rate) }
    }

    /// The class of the badge.
    pub fn resource_address(&self) -> (r: ResourceAddress)
        ensures
            r == self.resource_address,
    {
        self.resource_address
    }
}

/// Who may do something: anyone, or the holders of one of a list of badges.
#[derive(Debug)]
pub struct AccessRule {
    pub allow_all: bool,
    pub badges: Vec<ResourceAddress>,
}

impl AccessRule {
    /// Whether the rule admits a caller who shows `badge` (or nothing).
    pub open spec fn permits(&self, badge: Option<ResourceAddress>) -> bool {
        self.allow_all || (badge is Some && self.badges@.contains(badge->Some_0))
    }

    /// Whether two rules admit by the same list.
    pub open spec fn same_as(&self, other: &AccessRule) -> bool {
        self.allow_all == other.allow_all && self.badges@ == other.badges@
    }

    /// The rule that admits everyone.
    pub fn allow_all() -> (r: AccessRule)
        ensures
            r.allow_all,
            r.badges@ == Seq::<ResourceAddress>::empty(),
    {
        AccessRule { allow_all: true, badges: Vec::new() }
    }

    /// The rule that admits no one.
    pub fn deny_all() -> (r: AccessRule)
        ensures
            !r.allow_all,
            r.badges@ == Seq::<ResourceAddress>::empty(),
    {
        AccessRule { allow_all: false, badges: Vec::new() }
    }

    /// The rule that admits the holders of any of `badges`.
    pub fn require_any_of(badges: Vec<ResourceAddress>) -> (r: AccessRule)
        ensures
            !r.allow_all,
            r.badges@ == badges@,
    {
        AccessRule { allow_all: false, badges }
    }

    /// Whether the rule admits everyone.
    pub fn is_allow_all(&self) -> (r: bool)
        ensures
            r == self.allow_all,
    {
        self.allow_all
    }

    /// Whether the rule admits a caller who shows `badge` (or nothing).
    pub fn check(&self, badge: Option<ResourceAddress>) -> (r: bool)
        ensures
            r == self.permits(badge),
    {
        if self.allow_all {
            return true;
        }
        match badge {
            Some(b) => contains_address(&self.badges, &b),
            None => false,
        }
    }

    /// A copy of the rule.
    pub fn duplicate(&self) -> (r: AccessRule)
        ensures
            r.same_as(self),
    {
        AccessRule { allow_all: self.allow_all, badges: copy_addresses(&self.badges) }
    }
}

/// An amount of one currency, on its way from one holder to another.
#[derive(Debug, PartialEq, Eq, Structural)]
pub struct FungibleBucket {
    /// The currency.
    pub resource_address: ResourceAddress,
    /// How many digits after the point the currency keeps (at most eighteen).
    pub divisibility: u8,
    /// How much of it.
    pub amount: Amount,
}

impl FungibleBucket {
    /// A bucket of a currency that keeps all eighteen decimal places.
    pub fn new(resource_address: ResourceAddress, amount: Amount) -> (r: FungibleBucket)
        ensures
            r == (FungibleBucket { resource_address, divisibility: 18, amount }),
    {
        FungibleBucket { resource_address, divisibility: 18, amount }
    }

    /// A bucket of a currency that keeps `divisibility` decimal places.
    pub fn with_divisibility(resource_address: ResourceAddress, divisibility: u8, amount: Amount) -> (r:
        FungibleBucket)
        ensures
            r == (FungibleBucket { resource_address, divisibility, amount }),
    {
        FungibleBucket { resource_address, divisibility, amount }
    }

    pub fn resource_address(&self) -> (r: ResourceAddress)
        ensures
            r == self.resource_address,
    {
        self.resource_address
    }

    pub fn amount(&self) -> (r: Amount)
        ensures
            r == self.amount,
    {
        self.amount
    }

    pub fn is_empty(&self) -> (r: bool)
        ensures
            r == (self.amount@ == 0),
    {
        self.amount.is_zero()
    }

    /// Takes exactly `amount` out of the bucket, or nothing when the bucket
    /// holds less.
    pub fn take(&mut self, amount: Amount) -> (r: Option<FungibleBucket>)
        ensures
            amount@ <= old(self).amount@ ==> r == Some(
                FungibleBucket {
                    resource_address: old(self).resource_address,
                    divisibility: old(self).divisibility,
                    amount,
                },
            ) && *final(self) == (FungibleBucket {
                resource_address: old(self).resource_address,
                divisibility: old(self).divisibility,
                amount: Amount { attos: (old(self).amount@ - amount@) as u128 },
            }),
            amount@ > old(self).amount@ ==> r is None && *final(self) == *old(self),
    {
        match self.amount.checked_sub(amount) {
            Some(rest) => {
                self.amount = rest;
                Some(
                    FungibleBucket {
                        resource_address: self.resource_address,
                        divisibility: self.divisibility,
                        amount,
                    },
                )
            },
            None => None,
        }
    }

    /// Takes `amount`, rounded toward zero to the currency's precision, out of
    /// the bucket, or nothing when the bucket holds less.
    pub fn take_advanced(&mut self, amount: Amount) -> (r: Option<FungibleBucket>)
        ensures
            round_down(amount@, old(self).divisibility as nat) <= old(self).amount@ ==> r == Some(
                FungibleBucket {
                    resource_address: old(self).resource_address,
                    divisibility: old(self).divisibility,
                    amount: Amount {
                        attos: round_down(amount@, old(self).divisibility as nat) as u128,
                    },
                },
            ) && *final(self) == (FungibleBucket {
                resource_address: old(self).resource_address,
                divisibility: old(self).divisibility,
                amount: Amount {
                    attos: (old(self).amount@ - round_down(
                        amount@,
                        old(self).divisibility as nat,
                    )) as u128,
                },
            }),
            round_down(amount@, old(self).divisibility as nat) > old(self).amount@ ==> r is None
                && *final(self) == *old(self),
    {
        let rounded = amount.round_down(self.divisibility);
        self.take(rounded)
    }
}

/// Items of one collection, on their way from one holder to another.
pub struct NonFungibleBucket {
    resource_address: ResourceAddress,
    local_ids: IndexSet<u64>,
}

impl NonFungibleBucket {
    /// The collection the items belong to.
    pub closed spec fn resource(&self) -> ResourceAddress {
        self.resource_address
    }

    /// The identifiers of the items, in the order in which they were put in.
    pub closed spec fn local_ids(&self) -> Seq<u64> {
        ids(self.local_ids)
    }

    /// No item occurs twice.
    pub closed spec fn wf(&self) -> bool {
        ids(self.local_ids).no_duplicates()
    }

    /// Whether the bucket holds the item `nfgid`.
    pub open spec fn holds(&self, nfgid: NonFungibleGlobalId) -> bool {
        nfgid.resource_address == self.resource() && self.local_ids().contains(nfgid.local_id)
    }

    /// The items of collection `resource_address` with the identifiers
    /// `local_ids`, each taken once.
    pub fn new(resource_address: ResourceAddress, local_ids: &Vec<u64>) -> (r: NonFungibleBucket)
        ensures
            r.wf(),
            r.resource() == resource_address,
            r.local_ids() == distinct_ids(local_ids@),
    {
        let mut set = id_set_new();
        let mut i: usize = 0;
        while i < local_ids.len()
            invariant
                i <= local_ids.len(),
                ids(set) == distinct_ids(local_ids@.take(i as int)),
                ids(set).no_duplicates(),
            decreases local_ids.len() - i,
        {
            proof {
                lemma_insert_id(ids(set), local_ids@[i as int]);
                assert(local_ids@.take(i as int + 1).drop_last() =~= local_ids@.take(i as int));
            }
            id_set_insert(&mut set, local_ids[i]);
            i += 1;
        }
        proof {
            assert(local_ids@.take(local_ids@.len() as int) =~= local_ids@);
        }
        NonFungibleBucket { resource_address, local_ids: set }
    }

    /// The one item `nfgid`.
    pub fn single(nfgid: NonFungibleGlobalId) -> (r: NonFungibleBucket)
        ensures
            r.wf(),
            r.resource() == nfgid.resource_address,
            r.local_ids() == seq![nfgid.local_id],
    {
        let mut set = id_set_new();
        proof {
            lemma_insert_id(ids(set), nfgid.local_id);
        }
        id_set_insert(&mut set, nfgid.local_id);
        proof {
            assert(ids(set) =~= seq![nfgid.local_id]);
        }
        NonFungibleBucket { resource_address: nfgid.resource_address, local_ids: set }
    }

    pub fn resource_address(&self) -> (r: ResourceAddress)
        ensures
            r == self.resource(),
    {
        self.resource_address
    }

    /// The number of items.
    pub fn len(&self) -> (r: usize)
        ensures
            r == self.local_ids().len(),
    {
        id_set_len(&self.local_ids)
    }

    pub fn is_empty(&self) -> (r: bool)
        ensures
            r == (self.local_ids().len() == 0),
    {
        id_set_len(&self.local_ids) == 0
    }

    /// Whether the bucket holds the item with identifier `local_id`.
    pub fn contains(&self, local_id: u64) -> (r: bool)
        ensures
            r == self.local_ids().contains(local_id),
    {
        id_set_contains(&self.local_ids, local_id)
    }

    /// The identifier at position `index`, if there is one.
    pub fn local_id_at(&self, index: usize) -> (r: Option<u64>)
        ensures
            index < self.local_ids().len() ==> r == Some(self.local_ids()[index as int]),
            index >= self.local_ids().len() ==> r is None,
    {
        id_set_get_index(&self.local_ids, index)
    }

    /// The identifier of the item, when the bucket holds exactly one.
    pub fn non_fungible_local_id(&self) -> (r: Option<u64>)
        ensures
            self.local_ids().len() == 1 ==> r == Some(self.local_ids()[0]),
            self.local_ids().len() != 1 ==> r is None,
    {
        if id_set_len(&self.local_ids) == 1 {
            id_set_get_index(&self.local_ids, 0)
        } else {
            None
        }
    }

    /// The identifiers of the items, in order.
    pub fn non_fungible_local_ids(&self) -> (r: Vec<u64>)
        ensures
            r@ == self.local_ids(),
    {
        let n = id_set_len(&self.local_ids);
        let mut out: Vec<u64> = Vec::new();
        let mut i: usize = 0;
        while i < n
            invariant
                i <= n,
                n == ids(self.local_ids).len(),
                out@ == ids(self.local_ids).take(i as int),
            decreases n - i,
        {
            match id_set_get_index(&self.local_ids, i) {
                Some(id) => {
                    out.push(id);
                    proof {
                        assert(ids(self.local_ids).take(i as int + 1) =~= ids(self.local_ids).take(
                            i as int,
                        ).push(id));
                    }
                },
                None => {},
            }
            i += 1;
        }
        proof {
            assert(ids(self.local_ids).take(n as int) =~= ids(self.local_ids));
        }
        out
    }

    /// The set of identifiers.
    pub fn id_set(&self) -> (r: &IndexSet<u64>)
        ensures
            ids(*r) == self.local_ids(),
    {
        &self.local_ids
    }

    /// Adds the item with identifier `local_id`, unless the bucket holds it.
    pub fn insert(&mut self, local_id: u64)
        requires
            old(self).wf(),
        ensures
            final(self).wf(),
            final(self).resource() == old(self).resource(),
            final(self).local_ids() == insert_id(old(self).local_ids(), local_id),
    {
        proof {
            lemma_insert_id(ids(self.local_ids), local_id);
        }
        id_set_insert(&mut self.local_ids, local_id);
    }
}

} // verus!
