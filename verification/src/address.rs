//! Identifiers of the things the protocol speaks about.
//!
//! Every identifier is an opaque 256-bit value, wide enough for a ledger
//! address or a transaction hash.  Two identifiers of one kind name the same
//! thing exactly when they are equal.

use vstd::prelude::*;

verus! {

/// A value that can key a [`crate::table::Table`]: it can be copied and
/// compared for equality.
pub trait Key: Copy + Sized {
    /// Whether the two keys are equal.
    fn same(&self, other: &Self) -> (r: bool)
        ensures
            r == (*self == *other),
    ;
}

/// Names a resource: a collection of items, a currency, or a class of
/// credentials (badges).
#[derive(Clone, Copy, Debug, PartialEq, Eq, Structural)]
pub struct ResourceAddress {
    pub hi: u128,
    pub lo: u128,
}

/// Names a component: an account, a seller's escrow account, a royalty
/// component, or another destination an item can be sent to.
#[derive(Clone, Copy, Debug, PartialEq, Eq, Structural)]
pub struct ComponentAddress {
    pub hi: u128,
    pub lo: u128,
}

/// Identifies a transaction.
#[derive(Clone, Copy, Debug, PartialEq, Eq, Structural)]
pub struct TransactionHash {
    pub hi: u128,
    pub lo: u128,
}

/// Names one item: its collection and its identifier within the collection.
#[derive(Clone, Copy, Debug, PartialEq, Eq, Structural)]
pub struct NonFungibleGlobalId {
    pub resource_address: ResourceAddress,
    pub local_id: u64,
}

impl ResourceAddress {
    /// The resource address with the given 64-bit number in its low bits.
    pub fn from_u64(n: u64) -> (r: ResourceAddress)
        ensures
            r == (ResourceAddress { hi: 0, lo: n as u128 }),
    {
        ResourceAddress { hi: 0, lo: n as u128 }
    }
}

impl ComponentAddress {
    /// The component address with the given 64-bit number in its low bits.
    pub fn from_u64(n: u64) -> (r: ComponentAddress)
        ensures
            r == (ComponentAddress { hi: 0, lo: n as u128 }),
    {
        ComponentAddress { hi: 0, lo: n as u128 }
    }
}

impl TransactionHash {
    /// The hash with the given 64-bit number in its low bits.
    pub fn from_u64(n: u64) -> (r: TransactionHash)
        ensures
            r == (TransactionHash { hi: 0, lo: n as u128 }),
    {
        TransactionHash { hi: 0, lo: n as u128 }
    }
}

impl NonFungibleGlobalId {
    pub fn new(resource_address: ResourceAddress, local_id: u64) -> (r: NonFungibleGlobalId)
        ensures
            r == (NonFungibleGlobalId { resource_address, local_id }),
    {
        NonFungibleGlobalId { resource_address, local_id }
    }

    /// The collection the item belongs to.
    pub fn resource_address(&self) -> (r: ResourceAddress)
        ensures
            r == self.resource_address,
    {
        self.resource_address
    }

    /// The item's identifier within its collection.
    pub fn local_id(&self) -> (r: u64)
        ensures
            r == self.local_id,
    {
        self.local_id
    }

    /// The collection and the identifier, apart.
    pub fn into_parts(self) -> (r: (ResourceAddress, u64))
        ensures
            r == (self.resource_address, self.local_id),
    {
        (self.resource_address, self.local_id)
    }
}

impl Key for ResourceAddress {
    fn same(&self, other: &Self) -> (r: bool) {
        self.hi == other.hi && self.lo == other.lo
    }
}

impl Key for ComponentAddress {
    fn same(&self, other: &Self) -> (r: bool) {
        self.hi == other.hi && self.lo == other.lo
    }
}

impl Key for TransactionHash {
    fn same(&self, other: &Self) -> (r: bool) {
        self.hi == other.hi && self.lo == other.lo
    }
}

impl Key for NonFungibleGlobalId {
    fn same(&self, other: &Self) -> (r: bool) {
        self.resource_address.same(&other.resource_address) && self.local_id == other.local_id
    }
}

} // verus!
