use vstd::prelude::*;

verus! {

/// Failures of the service-offering flows.
#[derive(Clone, Copy, Debug, PartialEq, Eq, Structural)]
pub enum ServiceOfferingError {
    /// The offering is switched off or past its expiry.
    ServiceNotActive,
    /// Every unit of a limited offering has been sold.
    SoldOut,
    /// The custody program presented is not the expected one.
    InvalidOssProgram,
    /// The buyer cannot pay the price.
    InsufficientFunds,
    /// A balance or counter would leave the range of its type.
    ArithmeticOverflow,
    /// The vendor account does not belong to the offering.
    VendorMismatch,
}

/// Failures of the listing flows.
#[derive(Clone, Copy, Debug, PartialEq, Eq, Structural)]
pub enum ListingError {
    /// The listing is past its expiry.
    ListingNotActive,
    /// The custody program presented is not the expected one.
    InvalidOssProgram,
    /// The asset is bound to its owner and cannot be sold.
    AssetIsSoulbound,
    /// The asset is locked.
    AssetIsLocked,
    /// The asset does not belong to the expected group.
    InvalidGroup,
    /// The caller does not own the asset.
    NotAssetOwner,
    /// The listing record does not exist (never created, or already closed).
    ListingClosed,
    /// A listing record for this asset and seller already exists.
    ListingExists,
    /// The listing record does not hold the capability the step needs.
    Unauthorized,
    /// The paying account cannot cover the amount.
    InsufficientFunds,
    /// A balance would leave the range of its type.
    ArithmeticOverflow,
}

} // verus!
