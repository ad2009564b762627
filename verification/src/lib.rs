//! Settlement of peer-to-peer sales of uniquely identified items under a
//! creator-defined royalty policy.
//!
//! Three components make up the protocol:
//!
//! * [`royalty::RoyalNFTs`] holds a collection's royalty rate, limits and
//!   permission lists, collects the creator's share of every payment, and owns
//!   the rule that says who may receive an item of the collection.
//! * [`outpost_account::OpenTrader`] is a seller's escrow account: it keeps the
//!   listed items, matches payments to listings, splits the proceeds, and opens
//!   and closes the transfer window around every sale.
//! * [`generic_marketplace::GenericMarketplace`] routes bulk orders to seller
//!   accounts and accumulates the marketplace's fees per currency.
//!
//! A sale of an item whose royalties are enforced takes two transactions.  The
//! purchase hands the item out, opens the collection's transfers and leaves a
//! pending transfer behind; the clearing verifies that the item has arrived at
//! the declared recipient and closes the transfers again.
//!
//! Every operation is all or nothing: a call that is refused reports why and
//! changes nothing.  What holds across several calls is stated in [`laws`].
//!
//! Amounts are fixed-point numbers computed by `scrypto`'s `Decimal`; sets of
//! item identifiers are `indexmap` sets.  The functions that call the two
//! crates are in [`amount`] and [`id_set`]; their contracts are taken on
//! trust, everything else is proved.

// Values
pub mod address;
pub mod amount;
pub mod error;
pub mod id_set;
pub mod resource;
pub mod table;

// The holding account
pub mod account;

// The royalty policy
pub mod delivery;
pub mod royalty;
pub mod royalty_settings;
pub mod royalty_transfer;

// The seller's escrow account
pub mod bulk_purchase;
pub mod listing;
pub mod outpost_account;
pub mod owner_transfer;
pub mod purchase;
pub mod settlement;

// The marketplace
pub mod bulk_order;
pub mod generic_marketplace;
pub mod mint_purchase;
pub mod plain_bulk_order;
pub mod routing;

// The primary sale and the factories
pub mod mint_factory;
pub mod minter;
pub mod outpost_factory;

// What holds across calls
pub mod laws;
