//! The failures that the engine reports, one closed set per component.

use vstd::prelude::*;

verus! {

/// Failures of initialization and of the administrator check.
#[derive(Clone, Copy, Debug, PartialEq, Eq, Structural)]
pub enum AdminError {
    /// The administrator has already been set.
    AlreadyInitialized,
    /// The caller is not the administrator.
    Unauthorized,
    /// No administrator has been set yet.
    NotInitialized,
}

/// Failures of the product catalog.
#[derive(Clone, Copy, Debug, PartialEq, Eq, Structural)]
pub enum ProductError {
    /// The description is shorter or longer than allowed.
    InvalidDescription,
    /// The base price is zero.
    InvalidPrice,
    /// The listing carries no image.
    InvalidImageCount,
    /// The harvest date lies in the future.
    InvalidHarvestDate,
    /// The farmer has no listing with that number.
    ProductNotFound,
    /// No administrator has been set yet.
    NotInitialized,
}

/// Failures of the auction engine.
#[derive(Clone, Copy, Debug, PartialEq, Eq, Structural)]
pub enum AuctionError {
    /// The listing already has an auction.
    AuctionAlreadyExists,
    /// The farmer has no listing with that number.
    ProductNotFound,
    /// The end time is not in the future, or lies after the product's expiry.
    InvalidAuctionEndTime,
    /// The bid is below the reserve, or does not exceed the highest bid.
    BidTooLow,
    /// The auction no longer accepts bids or changes.
    AuctionEnded,
    /// The bidder is the farmer who owns the listing.
    InvalidBidder,
    /// The auction's end time has not been reached.
    AuctionNotYetEnded,
    /// The auction ended without a bid.
    NoBidsPlaced,
    /// The listing has no auction.
    AuctionNotFound,
    /// No administrator has been set yet.
    NotInitialized,
}

/// Failures of the market-price oracle and of the price advisor.
#[derive(Clone, Copy, Debug, PartialEq, Eq, Structural)]
pub enum OracleError {
    /// The caller may not publish prices.
    InvalidPriceData,
    /// No usable reference price is on record.
    PriceDataNotAvailable,
    /// No administrator has been set yet.
    NotInitialized,
}

} // verus!
