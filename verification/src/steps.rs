//! The operations as steps on records that a host has loaded.
//!
//! A host that keeps the records in a store of its own loads what an
//! operation concerns, takes the step, and writes back what the step returns.
//! A record that the store does not hold is handed in as `None`. The steps
//! decide as the marketplace does: its operations are specified by the same
//! spec functions.

use vstd::prelude::*;
use crate::auction::{end_time_allowed, Auction, Settlement};
use crate::config::MarketConfig;
use crate::error::{AdminError, AuctionError, OracleError, ProductError};
use crate::freshness::FreshnessRating;
use crate::ident::Identity;
use crate::oracle::{
    price_delta_percent, suggest_from, suggestion_for, try_compare_prices, MarketPriceRecord, PRICE_LIMIT,
};
use crate::product::{Product, ProductDetails, QualityGrade};

verus! {

/// Outcome of setting the administrator where `current` is the one on record.
pub open spec fn initialization_outcome(current: Option<Seq<char>>) -> Result<(), AdminError> {
    if current is Some {
        Err(AdminError::AlreadyInitialized)
    } else {
        Ok(())
    }
}

/// Outcome of a submission by a farmer who has made `listed` listings so far:
/// the listing to store, numbered one more than `listed`.
pub open spec fn listing_outcome(
    initialized: bool,
    config: MarketConfig,
    farmer: Identity,
    listed: nat,
    details: ProductDetails,
    now: u64,
) -> Result<Product, ProductError> {
    if !initialized {
        Err(ProductError::NotInitialized)
    } else {
        match details.violation(now) {
            Some(e) => Err(e),
            None => Ok(Product::listed(config, farmer, (listed + 1) as u64, details, now)),
        }
    }
}

/// Outcome of reading a listing.
pub open spec fn product_read(initialized: bool, found: Option<Product>) -> Result<Product, ProductError> {
    if !initialized {
        Err(ProductError::NotInitialized)
    } else {
        match found {
            None => Err(ProductError::ProductNotFound),
            Some(product) => Ok(product),
        }
    }
}

/// Outcome of refreshing a listing at time `now`: the listing to store.
pub open spec fn refresh_outcome(
    initialized: bool,
    found: Option<Product>,
    config: MarketConfig,
    now: u64,
) -> Result<Product, ProductError> {
    match product_read(initialized, found) {
        Err(e) => Err(e),
        Ok(product) => Ok(product.refreshed(config, now)),
    }
}

/// Why an auction cannot be opened at time `now`, if it cannot: the listing
/// has to exist and to have no auction, and the end time has to be allowed.
pub open spec fn opening_rejection(
    initialized: bool,
    product: Option<Product>,
    has_auction: bool,
    end_time: u64,
    now: u64,
) -> Option<AuctionError> {
    if !initialized {
        Some(AuctionError::NotInitialized)
    } else if product is None {
        Some(AuctionError::ProductNotFound)
    } else if has_auction {
        Some(AuctionError::AuctionAlreadyExists)
    } else if !end_time_allowed(end_time, now, product->0.expiry_date) {
        Some(AuctionError::InvalidAuctionEndTime)
    } else {
        None
    }
}

/// Outcome of reading an auction.
pub open spec fn auction_read(initialized: bool, found: Option<Auction>) -> Result<Auction, AuctionError> {
    if !initialized {
        Err(AuctionError::NotInitialized)
    } else {
        match found {
            None => Err(AuctionError::AuctionNotFound),
            Some(auction) => Ok(auction),
        }
    }
}

/// Why a bid is turned down at time `now`, if it is.
pub open spec fn bid_rejection(
    initialized: bool,
    found: Option<Auction>,
    bidder: Seq<char>,
    total_amount: u64,
    quantity: u32,
    now: u64,
) -> Option<AuctionError> {
    match auction_read(initialized, found) {
        Err(e) => Some(e),
        Ok(auction) => auction.bid_rejection(bidder, total_amount, quantity, now),
    }
}

/// Why an auction cannot be extended at time `now`, if it cannot.
pub open spec fn extension_rejection(
    initialized: bool,
    found: Option<Auction>,
    product: Option<Product>,
    new_end_time: u64,
    now: u64,
) -> Option<AuctionError> {
    match auction_read(initialized, found) {
        Err(e) => Some(e),
        Ok(auction) => match product {
            None => Some(AuctionError::ProductNotFound),
            Some(product) => auction.extension_rejection(new_end_time, now, product.expiry_date),
        },
    }
}

/// Why an auction cannot be finalized at time `now`, if it cannot.
pub open spec fn finalize_rejection(initialized: bool, found: Option<Auction>, now: u64) -> Option<
    AuctionError,
> {
    match auction_read(initialized, found) {
        Err(e) => Some(e),
        Ok(auction) => auction.finalize_rejection(now),
    }
}

/// Outcome of reading a reference price at time `now` under the lenient or
/// the strict policy.
pub open spec fn price_read(
    initialized: bool,
    found: Option<MarketPriceRecord>,
    strict: bool,
    now: u64,
) -> Result<MarketPriceRecord, OracleError> {
    if !initialized {
        Err(OracleError::NotInitialized)
    } else {
        match found {
            None => Err(OracleError::PriceDataNotAvailable),
            Some(record) => if record.usable_at(strict, now) {
                Ok(record)
            } else {
                Err(OracleError::PriceDataNotAvailable)
            },
        }
    }
}

/// The reference price that a listing is compared with at time `now`, where
/// the listing exists and a usable price is on record.
pub open spec fn reference_read(
    initialized: bool,
    product: Option<Product>,
    found: Option<MarketPriceRecord>,
    strict: bool,
    now: u64,
) -> Result<MarketPriceRecord, OracleError> {
    if !initialized {
        Err(OracleError::NotInitialized)
    } else if product is None {
        Err(OracleError::PriceDataNotAvailable)
    } else {
        price_read(initialized, found, strict, now)
    }
}

/// Outcome of comparing a listing's current price with the market at time `now`.
pub open spec fn comparison_outcome(
    initialized: bool,
    product: Option<Product>,
    found: Option<MarketPriceRecord>,
    strict: bool,
    now: u64,
) -> Result<int, OracleError> {
    match reference_read(initialized, product, found, strict, now) {
        Err(e) => Err(e),
        Ok(record) => Ok(price_delta_percent(product->0.current_price, record.reference_price)),
    }
}

/// Outcome of asking at time `now` for a suggested price.
pub open spec fn suggestion_outcome(
    initialized: bool,
    found: Option<MarketPriceRecord>,
    config: MarketConfig,
    quality: QualityGrade,
    freshness: FreshnessRating,
    now: u64,
) -> Result<int, OracleError> {
    match price_read(initialized, found, config.strict_price_validity, now) {
        Err(e) => Err(e),
        Ok(record) => Ok(suggestion_for(config, record, quality, freshness)),
    }
}

/// Decides whether the administrator can be set, where `current` is the one
/// on record.
pub fn initialize(current: Option<&Identity>) -> (outcome: Result<(), AdminError>)
    ensures
        outcome == initialization_outcome(crate::ident::identity_view(current)),
{
    match current {
        Some(_) => Err(AdminError::AlreadyInitialized),
        None => Ok(()),
    }
}

/// Makes the listing of a submission by a farmer who has made `listed`
/// listings so far.
pub fn add_product(
    initialized: bool,
    config: &MarketConfig,
    farmer: Identity,
    listed: u64,
    details: ProductDetails,
    now: u64,
) -> (outcome: Result<Product, ProductError>)
    requires
        listed < u64::MAX,
    ensures
        outcome == listing_outcome(initialized, *config, farmer, listed as nat, details, now),
{
    if !initialized {
        return Err(ProductError::NotInitialized);
    }
    Product::list(config, farmer, listed + 1, details, now)
}

/// Reads a listing that the host has looked up.
pub fn get_product<'a>(initialized: bool, found: Option<&'a Product>) -> (outcome: Result<
    &'a Product,
    ProductError,
>)
    ensures
        match product_read(initialized, option_of(found)) {
            Ok(product) => outcome == Ok::<&Product, ProductError>(&product),
            Err(e) => outcome == Err::<&Product, ProductError>(e),
        },
{
    if !initialized {
        return Err(ProductError::NotInitialized);
    }
    match found {
        None => Err(ProductError::ProductNotFound),
        Some(product) => Ok(product),
    }
}

/// Tells whether a listing that the host has looked up is expired at time `now`.
pub fn check_product_expiry(initialized: bool, found: Option<&Product>, now: u64) -> (outcome: Result<
    bool,
    ProductError,
>)
    ensures
        outcome == match product_read(initialized, option_of(found)) {
            Ok(product) => Ok::<bool, ProductError>(product.expired_at(now)),
            Err(e) => Err(e),
        },
{
    match get_product(initialized, found) {
        Err(e) => Err(e),
        Ok(product) => Ok(product.is_expired(now)),
    }
}

/// Brings a listing that the host has looked up to time `now`; the listing
/// returned is the one to store, and its tier is the answer.
pub fn update_product_freshness(
    initialized: bool,
    found: Option<Product>,
    config: &MarketConfig,
    now: u64,
) -> (outcome: Result<Product, ProductError>)
    ensures
        outcome == refresh_outcome(initialized, found, *config, now),
{
    if !initialized {
        return Err(ProductError::NotInitialized);
    }
    match found {
        None => Err(ProductError::ProductNotFound),
        Some(product) => {
            let mut product = product;
            product.refresh(config, now);
            Ok(product)
        },
    }
}

/// Opens an auction at time `now` on a listing that the host has looked up;
/// `has_auction` tells whether the listing has one already.
pub fn create_auction(
    initialized: bool,
    product: Option<&Product>,
    has_auction: bool,
    reserve_price: u64,
    end_time: u64,
    min_quantity: u32,
    bulk_discount_threshold: u32,
    bulk_discount_percentage: u32,
    dynamic_pricing: bool,
    now: u64,
) -> (outcome: Result<Auction, AuctionError>)
    ensures
        outcome == match opening_rejection(initialized, option_of(product), has_auction, end_time, now) {
            Some(e) => Err::<Auction, AuctionError>(e),
            None => Ok(
                Auction::opened(
                    *product->0,
                    reserve_price,
                    end_time,
                    min_quantity,
                    bulk_discount_threshold,
                    bulk_discount_percentage,
                    dynamic_pricing,
                ),
            ),
        },
{
    if !initialized {
        return Err(AuctionError::NotInitialized);
    }
    match product {
        None => Err(AuctionError::ProductNotFound),
        Some(product) => {
            if has_auction {
                Err(AuctionError::AuctionAlreadyExists)
            } else {
                Auction::open(
                    product,
                    reserve_price,
                    end_time,
                    min_quantity,
                    bulk_discount_threshold,
                    bulk_discount_percentage,
                    dynamic_pricing,
                    now,
                )
            }
        },
    }
}

/// Reads an auction that the host has looked up.
pub fn get_auction<'a>(initialized: bool, found: Option<&'a Auction>) -> (outcome: Result<
    &'a Auction,
    AuctionError,
>)
    ensures
        match auction_read(initialized, option_of(found)) {
            Ok(auction) => outcome == Ok::<&Auction, AuctionError>(&auction),
            Err(e) => outcome == Err::<&Auction, AuctionError>(e),
        },
{
    if !initialized {
        return Err(AuctionError::NotInitialized);
    }
    match found {
        None => Err(AuctionError::AuctionNotFound),
        Some(auction) => Ok(auction),
    }
}

/// Submits a bid at time `now` to an auction that the host has looked up;
/// the auction returned is the one to store.
pub fn place_bid(
    initialized: bool,
    found: Option<Auction>,
    total_amount: u64,
    quantity: u32,
    bidder: &Identity,
    now: u64,
) -> (outcome: Result<Auction, AuctionError>)
    ensures
        outcome == match bid_rejection(initialized, found, bidder@, total_amount, quantity, now) {
            Some(e) => Err::<Auction, AuctionError>(e),
            None => Ok(found->0.after_bid(*bidder, total_amount, quantity)),
        },
{
    if !initialized {
        return Err(AuctionError::NotInitialized);
    }
    match found {
        None => Err(AuctionError::AuctionNotFound),
        Some(auction) => {
            let mut auction = auction;
            match auction.place_bid(total_amount, quantity, bidder, now) {
                Err(e) => Err(e),
                Ok(_) => Ok(auction),
            }
        },
    }
}

/// Moves the end time of an auction that the host has looked up, with its
/// listing, at time `now`; the auction returned is the one to store.
pub fn extend_auction(
    initialized: bool,
    found: Option<Auction>,
    product: Option<&Product>,
    new_end_time: u64,
    now: u64,
) -> (outcome: Result<Auction, AuctionError>)
    ensures
        outcome == match extension_rejection(initialized, found, option_of(product), new_end_time, now) {
            Some(e) => Err::<Auction, AuctionError>(e),
            None => Ok(Auction { auction_end_time: new_end_time, ..found->0 }),
        },
{
    if !initialized {
        return Err(AuctionError::NotInitialized);
    }
    match found {
        None => Err(AuctionError::AuctionNotFound),
        Some(auction) => match product {
            None => Err(AuctionError::ProductNotFound),
            Some(product) => {
                let mut auction = auction;
                match auction.extend(new_end_time, now, product.expiry_date) {
                    Err(e) => Err(e),
                    Ok(()) => Ok(auction),
                }
            },
        },
    }
}

/// Closes an auction that the host has looked up at time `now`; the auction
/// returned is the one to store, beside what there is to report.
pub fn finalize_auction(initialized: bool, found: Option<Auction>, now: u64) -> (outcome: Result<
    (Auction, Settlement),
    AuctionError,
>)
    ensures
        outcome == match finalize_rejection(initialized, found, now) {
            Some(e) => Err::<(Auction, Settlement), AuctionError>(e),
            None => Ok((found->0.after_finalize(), found->0.settlement())),
        },
{
    if !initialized {
        return Err(AuctionError::NotInitialized);
    }
    match found {
        None => Err(AuctionError::AuctionNotFound),
        Some(auction) => {
            let mut auction = auction;
            match auction.finalize(now) {
                Err(e) => Err(e),
                Ok(settlement) => Ok((auction, settlement)),
            }
        },
    }
}

/// Reads a reference price that the host has looked up at time `now`.
pub fn fetch_market_price<'a>(
    initialized: bool,
    found: Option<&'a MarketPriceRecord>,
    strict: bool,
    now: u64,
) -> (outcome: Result<&'a MarketPriceRecord, OracleError>)
    ensures
        match price_read(initialized, option_of(found), strict, now) {
            Ok(record) => outcome == Ok::<&MarketPriceRecord, OracleError>(&record),
            Err(e) => outcome == Err::<&MarketPriceRecord, OracleError>(e),
        },
{
    if !initialized {
        return Err(OracleError::NotInitialized);
    }
    match found {
        None => Err(OracleError::PriceDataNotAvailable),
        Some(record) => if record.is_usable(strict, now) {
            Ok(record)
        } else {
            Err(OracleError::PriceDataNotAvailable)
        },
    }
}

/// Compares a listing that the host has looked up with the reference price
/// that it has looked up for the listing's category and region.
///
/// There is no answer where the comparison is not defined: where the
/// reference price is zero, or the listing's price beyond [`PRICE_LIMIT`].
pub fn compare_with_market(
    initialized: bool,
    product: Option<&Product>,
    found: Option<&MarketPriceRecord>,
    strict: bool,
    now: u64,
) -> (outcome: Option<Result<i128, OracleError>>)
    ensures
        match reference_read(initialized, option_of(product), option_of(found), strict, now) {
            Ok(record) => if record.reference_price == 0 || product->0.current_price > PRICE_LIMIT {
                outcome is None
            } else {
                outcome matches Some(Ok(delta)) && delta == comparison_outcome(
                    initialized,
                    option_of(product),
                    option_of(found),
                    strict,
                    now,
                )->Ok_0
            },
            Err(e) => outcome == Some(Err::<i128, OracleError>(e)),
        },
{
    if !initialized {
        return Some(Err(OracleError::NotInitialized));
    }
    match product {
        None => Some(Err(OracleError::PriceDataNotAvailable)),
        Some(product) => match fetch_market_price(initialized, found, strict, now) {
            Err(e) => Some(Err(e)),
            Ok(record) => match try_compare_prices(product.current_price, record.reference_price) {
                None => None,
                Some(delta) => Some(Ok(delta)),
            },
        },
    }
}

/// Suggests a price at time `now` from a reference price that the host has
/// looked up.
pub fn suggest_price(
    initialized: bool,
    found: Option<&MarketPriceRecord>,
    config: &MarketConfig,
    quality: QualityGrade,
    freshness: FreshnessRating,
    now: u64,
) -> (outcome: Result<i128, OracleError>)
    ensures
        match suggestion_outcome(initialized, option_of(found), *config, quality, freshness, now) {
            Ok(price) => outcome matches Ok(suggested) && suggested == price,
            Err(e) => outcome == Err::<i128, OracleError>(e),
        },
{
    match fetch_market_price(initialized, found, config.strict_price_validity, now) {
        Err(e) => Err(e),
        Ok(record) => Ok(suggest_from(config, record, quality, freshness)),
    }
}

/// The record behind a reference that may be absent.
pub open spec fn option_of<T>(found: Option<&T>) -> Option<T> {
    match found {
        Some(value) => Some(*value),
        None => None,
    }
}

} // verus!
