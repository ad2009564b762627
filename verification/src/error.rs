//! Why an operation was refused.
//!
//! Every refusal is final for the call that met it: the call changes nothing.

use vstd::prelude::*;

verus! {

/// The six families of refusal.
#[derive(Clone, Copy, Debug, PartialEq, Eq, Structural)]
pub enum ErrorKind {
    /// A listing, a pending transfer or a vault that the call names is absent.
    NotFound,
    /// A credential is missing from the list that would admit it.
    PermissionDenied,
    /// The payment does not match what is owed, in amount or in currency.
    PaymentMismatch,
    /// A rule of the royalty policy or a limit of the system is broken.
    PolicyViolation,
    /// An item is listed and bought within one transaction.
    ReplayDetected,
    /// The settlement protocol is not followed.
    ProtocolViolation,
}

/// The reason a call was refused.
#[derive(Clone, Copy, Debug, PartialEq, Eq, Structural)]
pub enum Error {
    /// The collection named is not the one this royalty policy is bound to.
    PolicyMismatch,
    /// Buyers are limited and the buyer's credential is not on the list.
    BuyerNotPermitted,
    /// Currencies are limited and the payment's currency is not on the list.
    CurrencyNotPermitted,
    /// Destinations are limited and the destination is not on the list, or
    /// the credential shown is not the one registered for it.
    DappNotPermitted,
    /// The royalty is below the minimum set for the currency.
    BelowMinimumRoyalty,
    /// The royalty configuration is locked and the change would tighten it.
    ConfigurationLocked,
    /// A rate is above one.
    RateAboveOne,
    /// The new rate is above the maximum rate.
    RateAboveMaximum,
    /// The new maximum rate is below the current rate.
    MaximumBelowRate,
    /// The new maximum rate is above the current maximum.
    MaximumRaised,
    /// The change needs the currency restriction to be switched on.
    CurrencyRestrictionOff,
    /// The credential shown does not carry the authority the call needs.
    NotAuthorized,
    /// No balance is held in the currency named.
    VaultNotFound,
    /// An amount does not fit the range of amounts.
    Overflow,
    /// No listing exists for the item.
    ListingNotFound,
    /// The buyer's credential is not among those the listing admits.
    PermissionDenied,
    /// The payment is not the listed price in the listed currency.
    PaymentMismatch,
    /// The item was listed in the transaction that now tries to buy it.
    SameTransactionReplay,
    /// The token is not one token of the account's transient resource.
    WrongToken,
    /// No transfer awaits clearing.
    NoPendingTransfer,
    /// The declared recipient does not hold every item of the transfer.
    TransferNotObserved,
    /// A transfer still awaits clearing; no other can start.
    SettlementPending,
    /// The price is not greater than zero.
    InvalidPrice,
    /// Nothing was handed in to list or to buy.
    NothingToTrade,
    /// The items handed in are not exactly the items to be listed, or are
    /// not all of one collection.
    ItemMismatch,
    /// The item is already held in escrow.
    AlreadyListed,
    /// The listings to be bought together are not all in one currency.
    MixedCurrencies,
    /// The marketplace fee rate is above one.
    FeeRateOutOfRange,
    /// The marketplace fee is more than what is left after the royalty.
    FeeExceedsRemainder,
    /// The payment does not cover what is ordered.
    InsufficientPayment,
    /// The mint is not open: it was never opened, is over, or has not
    /// started yet.
    MintNotEnabled,
    /// The cap of the sale is reached.
    SaleCapReached,
    /// The buyer's allowance on the allow list is used up.
    MintLimitExceeded,
    /// The account has an escrow account already.
    AlreadyRegistered,
}

impl Error {
    /// The family this refusal belongs to.
    pub open spec fn spec_kind(self) -> ErrorKind {
        match self {
            Error::ListingNotFound | Error::NoPendingTransfer | Error::VaultNotFound =>
                ErrorKind::NotFound,
            Error::BuyerNotPermitted
            | Error::CurrencyNotPermitted
            | Error::DappNotPermitted
            | Error::NotAuthorized
            | Error::PermissionDenied => ErrorKind::PermissionDenied,
            Error::PaymentMismatch
            | Error::MixedCurrencies
            | Error::FeeExceedsRemainder
            | Error::InsufficientPayment => ErrorKind::PaymentMismatch,
            Error::PolicyMismatch
            | Error::BelowMinimumRoyalty
            | Error::ConfigurationLocked
            | Error::RateAboveOne
            | Error::RateAboveMaximum
            | Error::MaximumBelowRate
            | Error::MaximumRaised
            | Error::CurrencyRestrictionOff
            | Error::Overflow
            | Error::InvalidPrice
            | Error::NothingToTrade
            | Error::ItemMismatch
            | Error::AlreadyListed
            | Error::FeeRateOutOfRange
            | Error::MintNotEnabled
            | Error::SaleCapReached
            | Error::MintLimitExceeded
            | Error::AlreadyRegistered => ErrorKind::PolicyViolation,
            Error::SameTransactionReplay => ErrorKind::ReplayDetected,
            Error::WrongToken | Error::TransferNotObserved | Error::SettlementPending =>
                ErrorKind::ProtocolViolation,
        }
    }

    /// The family this refusal belongs to.
    pub fn kind(&self) -> (r: ErrorKind)
        ensures
            r == self.spec_kind(),
    {
        match self {
            Error::ListingNotFound | Error::NoPendingTransfer | Error::VaultNotFound =>
                ErrorKind::NotFound,
            Error::BuyerNotPermitted
            | Error::CurrencyNotPermitted
            | Error::DappNotPermitted
            | Error::NotAuthorized
            | Error::PermissionDenied => ErrorKind::PermissionDenied,
            Error::PaymentMismatch
            | Error::MixedCurrencies
            | Error::FeeExceedsRemainder
            | Error::InsufficientPayment => ErrorKind::PaymentMismatch,
            Error::PolicyMismatch
            | Error::BelowMinimumRoyalty
            | Error::ConfigurationLocked
            | Error::RateAboveOne
            | Error::RateAboveMaximum
            | Error::MaximumBelowRate
            | Error::MaximumRaised
            | Error::CurrencyRestrictionOff
            | Error::Overflow
            | Error::InvalidPrice
            | Error::NothingToTrade
            | Error::ItemMismatch
            | Error::AlreadyListed
            | Error::FeeRateOutOfRange
            | Error::MintNotEnabled
            | Error::SaleCapReached
            | Error::MintLimitExceeded
            | Error::AlreadyRegistered => ErrorKind::PolicyViolation,
            Error::SameTransactionReplay => ErrorKind::ReplayDetected,
            Error::WrongToken | Error::TransferNotObserved | Error::SettlementPending =>
                ErrorKind::ProtocolViolation,
        }
    }
}

} // verus!
