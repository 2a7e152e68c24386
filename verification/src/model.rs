//! The marketplace as a mathematical state, and each operation as a function
//! from a state and its arguments to an outcome and the state that follows.
//!
//! The executable marketplace is specified against this model: every method
//! says that its result is the model's outcome and that the state it leaves
//! is the model's next state. What an operation decides of the records that
//! it concerns is said by the spec functions of `crate::steps`.

use vstd::prelude::*;
use crate::auction::{Auction, Settlement};
use crate::config::MarketConfig;
use crate::error::{AdminError, AuctionError, OracleError, ProductError};
use crate::freshness::FreshnessRating;
use crate::ident::Identity;
use crate::oracle::{publish_rejection, MarketPriceRecord};
use crate::product::{Product, ProductDetails, QualityGrade};
use crate::steps::{
    auction_read, bid_rejection, comparison_outcome, extension_rejection, finalize_rejection,
    initialization_outcome, listing_outcome, opening_rejection, price_read, product_read,
    reference_read, refresh_outcome, suggestion_outcome,
};

verus! {

/// Key of a listing and of its auction: the farmer and the listing's number.
pub type ListingKey = (Seq<char>, u64);

/// Key of a reference price: the product category and the region.
pub type PriceKey = (Seq<char>, Seq<char>);

/// Everything that the marketplace stores.
pub struct MarketState {
    /// The deployment's configuration, fixed for the life of the marketplace.
    pub config: MarketConfig,
    /// The administrator, once set.
    pub admin: Option<Seq<char>>,
    /// Number of listings that each farmer has made; no entry means none.
    pub listed: Map<Seq<char>, nat>,
    pub products: Map<ListingKey, Product>,
    pub auctions: Map<ListingKey, Auction>,
    pub prices: Map<PriceKey, MarketPriceRecord>,
}

impl MarketState {
    /// The state of a marketplace that has just been set up under `config`.
    pub open spec fn empty(config: MarketConfig) -> MarketState {
        MarketState {
            config,
            admin: None,
            listed: Map::empty(),
            products: Map::empty(),
            auctions: Map::empty(),
            prices: Map::empty(),
        }
    }

    /// Number of listings that `farmer` has made.
    pub open spec fn listing_count(self, farmer: Seq<char>) -> nat {
        if self.listed.contains_key(farmer) {
            self.listed[farmer]
        } else {
            0
        }
    }

    /// The listing stored under `key` is the one that `key` names, and its
    /// price is its base price moved by the percentage of its tier.
    pub open spec fn product_consistent(self, key: ListingKey) -> bool {
        &&& self.products[key].farmer@ == key.0
        &&& self.products[key].listing_id == key.1
        &&& self.products[key].priced_by(self.config)
    }

    /// The auction stored under `key` stands on the listing that `key` names:
    /// it offers no more than the listing holds, it ends no later than the
    /// product expires, and without a bidder its highest bid is zero.
    pub open spec fn auction_consistent(self, key: ListingKey) -> bool {
        &&& self.products.contains_key(key)
        &&& self.auctions[key].farmer@ == key.0
        &&& self.auctions[key].listing_id == key.1
        &&& self.auctions[key].quantity_available <= self.products[key].details.quantity
        &&& self.auctions[key].auction_end_time <= self.products[key].expiry_date
        &&& self.auctions[key].highest_bidder is None ==> self.auctions[key].highest_bid == 0
    }

    /// The reference price stored under `key` is that of the category and
    /// region that `key` names.
    pub open spec fn price_consistent(self, key: PriceKey) -> bool {
        &&& self.prices[key].product_type@ == key.0
        &&& self.prices[key].region@ == key.1
    }

    /// What holds of every state that the operations can reach.
    ///
    /// The configuration is well formed; a farmer's listings are numbered from
    /// 1 up to the number of listings made, without gaps; every stored record
    /// is consistent with its key.
    pub open spec fn inv(self) -> bool {
        &&& self.config.wf()
        &&& forall|farmer: Seq<char>, id: u64| #[trigger]
            self.products.contains_key((farmer, id)) <==> 1 <= id <= self.listing_count(farmer)
        &&& forall|key: ListingKey| #[trigger]
            self.products.contains_key(key) ==> self.product_consistent(key)
        &&& forall|key: ListingKey| #[trigger]
            self.auctions.contains_key(key) ==> self.auction_consistent(key)
        &&& forall|key: PriceKey| #[trigger] self.prices.contains_key(key) ==> self.price_consistent(key)
    }

    /// The listing stored under `key`, if there is one.
    pub open spec fn product_at(self, key: ListingKey) -> Option<Product> {
        if self.products.contains_key(key) {
            Some(self.products[key])
        } else {
            None
        }
    }

    /// The auction stored under `key`, if there is one.
    pub open spec fn auction_at(self, key: ListingKey) -> Option<Auction> {
        if self.auctions.contains_key(key) {
            Some(self.auctions[key])
        } else {
            None
        }
    }

    /// The reference price stored under `key`, if there is one.
    pub open spec fn price_at(self, key: PriceKey) -> Option<MarketPriceRecord> {
        if self.prices.contains_key(key) {
            Some(self.prices[key])
        } else {
            None
        }
    }

    /// Outcome of setting the administrator.
    pub open spec fn initialize_outcome(self) -> Result<(), AdminError> {
        initialization_outcome(self.admin)
    }

    /// The state after an attempt to set the administrator to `admin`.
    pub open spec fn after_initialize(self, admin: Seq<char>) -> MarketState {
        if self.initialize_outcome() is Err {
            self
        } else {
            MarketState { admin: Some(admin), ..self }
        }
    }

    /// Outcome of the administrator check on `caller`.
    pub open spec fn admin_check(self, caller: Seq<char>) -> Result<(), AdminError> {
        if self.admin is None {
            Err(AdminError::NotInitialized)
        } else if self.admin != Some(caller) {
            Err(AdminError::Unauthorized)
        } else {
            Ok(())
        }
    }

    /// The listing that a farmer's submission at time `now` becomes, numbered
    /// one more than the farmer's listings so far.
    pub open spec fn listing_of(self, farmer: Identity, details: ProductDetails, now: u64) -> Result<
        Product,
        ProductError,
    > {
        listing_outcome(
            self.admin is Some,
            self.config,
            farmer,
            self.listing_count(farmer@),
            details,
            now,
        )
    }

    /// Outcome of a farmer's submission at time `now`: the number of the new listing.
    pub open spec fn add_product_outcome(self, farmer: Identity, details: ProductDetails, now: u64) -> Result<
        u64,
        ProductError,
    > {
        match self.listing_of(farmer, details, now) {
            Err(e) => Err(e),
            Ok(product) => Ok(product.listing_id),
        }
    }

    /// The state after a farmer's submission at time `now`.
    pub open spec fn after_add_product(self, farmer: Identity, details: ProductDetails, now: u64) -> MarketState {
        match self.listing_of(farmer, details, now) {
            Err(_) => self,
            Ok(product) => MarketState {
                listed: self.listed.insert(farmer@, self.listing_count(farmer@) + 1),
                products: self.products.insert((farmer@, product.listing_id), product),
                ..self
            },
        }
    }

    /// Outcome of reading a listing.
    pub open spec fn product_outcome(self, key: ListingKey) -> Result<Product, ProductError> {
        product_read(self.admin is Some, self.product_at(key))
    }

    /// Outcome of asking at time `now` whether a listing is expired.
    pub open spec fn expiry_outcome(self, key: ListingKey, now: u64) -> Result<bool, ProductError> {
        match self.product_outcome(key) {
            Err(e) => Err(e),
            Ok(product) => Ok(product.expired_at(now)),
        }
    }

    /// Outcome of refreshing a listing at time `now`: its new tier.
    pub open spec fn refresh_outcome(self, key: ListingKey, now: u64) -> Result<FreshnessRating, ProductError> {
        match refresh_outcome(self.admin is Some, self.product_at(key), self.config, now) {
            Err(e) => Err(e),
            Ok(product) => Ok(product.freshness_rating),
        }
    }

    /// The state after refreshing a listing at time `now`.
    pub open spec fn after_refresh(self, key: ListingKey, now: u64) -> MarketState {
        match refresh_outcome(self.admin is Some, self.product_at(key), self.config, now) {
            Err(_) => self,
            Ok(product) => MarketState { products: self.products.insert(key, product), ..self },
        }
    }

    /// Why an auction cannot be opened on a listing at time `now`, if it cannot.
    pub open spec fn create_auction_rejection(self, key: ListingKey, end_time: u64, now: u64) -> Option<
        AuctionError,
    > {
        opening_rejection(
            self.admin is Some,
            self.product_at(key),
            self.auctions.contains_key(key),
            end_time,
            now,
        )
    }

    /// The state after an attempt to open an auction on a listing at time
    /// `now`: the new auction has no bid and offers the listing's quantity.
    pub open spec fn after_create_auction(
        self,
        key: ListingKey,
        reserve_price: u64,
        end_time: u64,
        min_quantity: u32,
        bulk_discount_threshold: u32,
        bulk_discount_percentage: u32,
        dynamic_pricing: bool,
        now: u64,
    ) -> MarketState {
        if self.create_auction_rejection(key, end_time, now) is Some {
            self
        } else {
            MarketState {
                auctions: self.auctions.insert(
                    key,
                    Auction::opened(
                        self.products[key],
                        reserve_price,
                        end_time,
                        min_quantity,
                        bulk_discount_threshold,
                        bulk_discount_percentage,
                        dynamic_pricing,
                    ),
                ),
                ..self
            }
        }
    }

    /// Outcome of reading an auction.
    pub open spec fn auction_outcome(self, key: ListingKey) -> Result<Auction, AuctionError> {
        auction_read(self.admin is Some, self.auction_at(key))
    }

    /// Why a bid on a farmer's auction is turned down at time `now`, if it is.
    pub open spec fn bid_rejection(
        self,
        key: ListingKey,
        bidder: Seq<char>,
        total_amount: u64,
        quantity: u32,
        now: u64,
    ) -> Option<AuctionError> {
        bid_rejection(self.admin is Some, self.auction_at(key), bidder, total_amount, quantity, now)
    }

    /// The state after a bid at time `now`.
    pub open spec fn after_bid(
        self,
        key: ListingKey,
        bidder: Identity,
        total_amount: u64,
        quantity: u32,
        now: u64,
    ) -> MarketState {
        if self.bid_rejection(key, bidder@, total_amount, quantity, now) is Some {
            self
        } else {
            MarketState {
                auctions: self.auctions.insert(
                    key,
                    self.auctions[key].after_bid(bidder, total_amount, quantity),
                ),
                ..self
            }
        }
    }

    /// Why an auction cannot be extended at time `now`, if it cannot.
    pub open spec fn extend_rejection(self, key: ListingKey, new_end_time: u64, now: u64) -> Option<
        AuctionError,
    > {
        extension_rejection(
            self.admin is Some,
            self.auction_at(key),
            self.product_at(key),
            new_end_time,
            now,
        )
    }

    /// The state after an attempt to extend an auction at time `now`.
    pub open spec fn after_extend(self, key: ListingKey, new_end_time: u64, now: u64) -> MarketState {
        if self.extend_rejection(key, new_end_time, now) is Some {
            self
        } else {
            MarketState {
                auctions: self.auctions.insert(
                    key,
                    Auction { auction_end_time: new_end_time, ..self.auctions[key] },
                ),
                ..self
            }
        }
    }

    /// Outcome of finalizing an auction at time `now`.
    pub open spec fn finalize_outcome(self, key: ListingKey, now: u64) -> Result<Settlement, AuctionError> {
        match finalize_rejection(self.admin is Some, self.auction_at(key), now) {
            Some(e) => Err(e),
            None => Ok(self.auctions[key].settlement()),
        }
    }

    /// The state after an attempt to finalize an auction at time `now`.
    pub open spec fn after_finalize(self, key: ListingKey, now: u64) -> MarketState {
        if self.finalize_outcome(key, now) is Err {
            self
        } else {
            MarketState {
                auctions: self.auctions.insert(key, self.auctions[key].after_finalize()),
                ..self
            }
        }
    }

    /// Outcome of publishing a reference price.
    pub open spec fn update_price_outcome(self, caller: Seq<char>) -> Result<(), OracleError> {
        match publish_rejection(self.admin, caller) {
            Some(e) => Err(e),
            None => Ok(()),
        }
    }

    /// The state after an attempt by `caller` to publish `record`.
    pub open spec fn after_update_price(self, caller: Seq<char>, record: MarketPriceRecord) -> MarketState {
        if self.update_price_outcome(caller) is Err {
            self
        } else {
            MarketState {
                prices: self.prices.insert((record.product_type@, record.region@), record),
                ..self
            }
        }
    }

    /// Outcome of reading a reference price at time `now`.
    pub open spec fn price_outcome(self, key: PriceKey, now: u64) -> Result<MarketPriceRecord, OracleError> {
        price_read(self.admin is Some, self.price_at(key), self.config.strict_price_validity, now)
    }

    /// The key of the reference price that a listing is compared with.
    pub open spec fn price_key_of(self, key: ListingKey) -> PriceKey {
        (self.products[key].details.product_type@, self.products[key].details.region@)
    }

    /// The reference price that a listing is compared with at time `now`, if
    /// the listing exists and a usable price is on record for its category and region.
    pub open spec fn reference_for(self, key: ListingKey, now: u64) -> Result<MarketPriceRecord, OracleError> {
        reference_read(
            self.admin is Some,
            self.product_at(key),
            self.price_at(self.price_key_of(key)),
            self.config.strict_price_validity,
            now,
        )
    }

    /// Outcome of comparing a listing's current price with the market at time `now`.
    pub open spec fn compare_outcome(self, key: ListingKey, now: u64) -> Result<int, OracleError> {
        comparison_outcome(
            self.admin is Some,
            self.product_at(key),
            self.price_at(self.price_key_of(key)),
            self.config.strict_price_validity,
            now,
        )
    }

    /// Outcome of asking at time `now` for a suggested price.
    pub open spec fn suggest_outcome(
        self,
        key: PriceKey,
        quality: QualityGrade,
        freshness: FreshnessRating,
        now: u64,
    ) -> Result<int, OracleError> {
        suggestion_outcome(self.admin is Some, self.price_at(key), self.config, quality, freshness, now)
    }
}

} // verus!
