//! Product listings: what a farmer submits, what the catalog stores, and the
//! rules that a submission has to meet.

use vstd::prelude::*;
use vstd::string::StrSliceExecFns;
use crate::config::MarketConfig;
use crate::error::ProductError;
use crate::freshness::{age_at, FreshnessProfile, FreshnessRating};
use crate::ident::{Identity, Tag};
use crate::pricing::{apply_percent, lemma_percent_applied_bound, percent_applied_floored};

verus! {

/// Fewest characters that a description may have.
pub const MIN_DESCRIPTION_LEN: usize = 20;

/// Most characters that a description may have.
pub const MAX_DESCRIPTION_LEN: usize = 500;

/// How a product has to be stored.
#[derive(Clone, Copy, Debug, PartialEq, Eq, Structural)]
pub enum StorageCondition {
    RoomTemperature,
    Refrigerated,
    Frozen,
    ControlledHumidity,
}

/// Quality grade of a product.
#[derive(Clone, Copy, Debug, PartialEq, Eq, Structural)]
pub enum QualityGrade {
    GradeA,
    GradeB,
    GradeC,
}

/// What a farmer submits to list a product.
#[derive(Clone, Debug)]
pub struct ProductDetails {
    pub name: String,
    pub description: String,
    /// Price per unit before any adjustment.
    pub base_price: u64,
    pub weight_kg: u32,
    pub quantity: u32,
    /// Time of harvest, in seconds.
    pub harvest_date: u64,
    pub images: Vec<String>,
    pub certifications: Vec<Tag>,
    pub storage_condition: StorageCondition,
    /// The product's category.
    pub product_type: Tag,
    pub region: Tag,
}

impl ProductDetails {
    /// The first rule that the submission breaks at time `now`, if it breaks one.
    ///
    /// The rules are taken in a fixed order: the description's length, the base
    /// price, the images, the harvest date.
    pub open spec fn violation(&self, now: u64) -> Option<ProductError> {
        if self.description@.len() < MIN_DESCRIPTION_LEN || self.description@.len()
            > MAX_DESCRIPTION_LEN {
            Some(ProductError::InvalidDescription)
        } else if self.base_price == 0 {
            Some(ProductError::InvalidPrice)
        } else if self.images@.len() == 0 {
            Some(ProductError::InvalidImageCount)
        } else if self.harvest_date > now {
            Some(ProductError::InvalidHarvestDate)
        } else {
            None
        }
    }

    /// Holds the submission to the listing rules at time `now`.
    pub fn validate(&self, now: u64) -> (outcome: Result<(), ProductError>)
        ensures
            outcome == match self.violation(now) {
                Some(e) => Err::<(), ProductError>(e),
                None => Ok(()),
            },
    {
        let length = self.description.as_str().unicode_len();
        if length < MIN_DESCRIPTION_LEN || length > MAX_DESCRIPTION_LEN {
            Err(ProductError::InvalidDescription)
        } else if self.base_price == 0 {
            Err(ProductError::InvalidPrice)
        } else if self.images.len() == 0 {
            Err(ProductError::InvalidImageCount)
        } else if self.harvest_date > now {
            Err(ProductError::InvalidHarvestDate)
        } else {
            Ok(())
        }
    }
}

/// The price of a product of base price `base_price` in a tier that moves
/// prices by `percent`: never negative.
pub open spec fn price_at(base_price: u64, percent: i16) -> int {
    percent_applied_floored(base_price as int, percent as int)
}

/// Computes [`price_at`].
pub fn current_price_for(base_price: u64, percent: i16) -> (price: u128)
    ensures
        price == price_at(base_price, percent),
{
    let adjusted: i128 = apply_percent(base_price as i128, percent as i32);
    if adjusted < 0 {
        0
    } else {
        adjusted as u128
    }
}

/// A price stays within 329 times the base price, whatever the tier's percentage.
pub proof fn lemma_price_at_bound(base_price: u64, percent: i16)
    ensures
        0 <= price_at(base_price, percent) <= base_price * 329,
{
    lemma_percent_applied_bound(base_price as int, percent as int, 328);
    assert(0 <= base_price * 329) by (nonlinear_arith);
}

/// The expiry date of a product harvested at `harvest_date` with the given
/// shelf life, held at the largest time that can be written down.
///
/// No reading of the clock exceeds that time, so a comparison of a time with
/// the stored date answers as the comparison with the exact sum does.
pub open spec fn stored_expiry(harvest_date: u64, shelf_life: u64) -> u64 {
    if harvest_date + shelf_life > u64::MAX {
        u64::MAX
    } else {
        (harvest_date + shelf_life) as u64
    }
}

/// Computes [`stored_expiry`].
pub fn expiry_for(harvest_date: u64, shelf_life: u64) -> (expiry_date: u64)
    ensures
        expiry_date == stored_expiry(harvest_date, shelf_life),
{
    if harvest_date > u64::MAX - shelf_life {
        u64::MAX
    } else {
        harvest_date + shelf_life
    }
}

/// A listing as the catalog stores it.
#[derive(Clone, Debug)]
pub struct Product {
    /// Number of the listing among its farmer's listings, from 1.
    pub listing_id: u64,
    pub farmer: Identity,
    pub details: ProductDetails,
    pub quality_grade: QualityGrade,
    /// The tier found when the listing was made or last refreshed.
    pub freshness_rating: FreshnessRating,
    /// Fixed when the listing is made.
    pub expiry_date: u64,
    /// The base price moved by the percentage of `freshness_rating`.
    pub current_price: u128,
}

impl Product {
    /// The tier of the product at time `now` under `config`.
    pub open spec fn rating_at(&self, config: MarketConfig, now: u64) -> FreshnessRating {
        config.profile_of(self.details.product_type@).rating_at(
            age_at(self.details.harvest_date, now),
        )
    }

    /// The listing that a valid submission becomes at time `now`.
    pub open spec fn listed(
        config: MarketConfig,
        farmer: Identity,
        listing_id: u64,
        details: ProductDetails,
        now: u64,
    ) -> Product {
        let profile = config.profile_of(details.product_type@);
        let rating = profile.rating_at(age_at(details.harvest_date, now));
        Product {
            listing_id,
            farmer,
            details,
            quality_grade: QualityGrade::GradeB,
            freshness_rating: rating,
            expiry_date: stored_expiry(details.harvest_date, profile.shelf_life),
            current_price: price_at(details.base_price, config.tiers.percent_of(rating)) as u128,
        }
    }

    /// The listing with its tier and price brought up to time `now`.
    pub open spec fn refreshed(self, config: MarketConfig, now: u64) -> Product {
        let rating = self.rating_at(config, now);
        Product {
            freshness_rating: rating,
            current_price: price_at(self.details.base_price, config.tiers.percent_of(rating)) as u128,
            ..self
        }
    }

    /// The stored tier and price are those of some reading of the clock: the
    /// price is the base price moved by the stored tier's percentage.
    pub open spec fn priced_by(&self, config: MarketConfig) -> bool {
        self.current_price == price_at(
            self.details.base_price,
            config.tiers.percent_of(self.freshness_rating),
        )
    }

    /// Tells whether the product is expired at time `now`.
    pub open spec fn expired_at(&self, now: u64) -> bool {
        now > self.expiry_date
    }

    /// Makes a listing of a submission, or names the first rule that it breaks.
    pub fn list(
        config: &MarketConfig,
        farmer: Identity,
        listing_id: u64,
        details: ProductDetails,
        now: u64,
    ) -> (outcome: Result<Product, ProductError>)
        ensures
            outcome == match details.violation(now) {
                Some(e) => Err::<Product, ProductError>(e),
                None => Ok(Product::listed(*config, farmer, listing_id, details, now)),
            },
            outcome matches Ok(product) ==> product.priced_by(*config),
    {
        match details.validate(now) {
            Err(e) => Err(e),
            Ok(()) => {
                let profile: FreshnessProfile = config.profile_for(&details.product_type);
                let reading = config.read_freshness(&details.product_type, details.harvest_date, now);
                let expiry_date = expiry_for(details.harvest_date, profile.shelf_life);
                let current_price = current_price_for(details.base_price, reading.adjustment_percent);
                Ok(
                    Product {
                        listing_id,
                        farmer,
                        details,
                        quality_grade: QualityGrade::GradeB,
                        freshness_rating: reading.rating,
                        expiry_date,
                        current_price,
                    },
                )
            },
        }
    }

    /// Brings the tier and the price up to time `now`, and returns the tier.
    pub fn refresh(&mut self, config: &MarketConfig, now: u64) -> (rating: FreshnessRating)
        ensures
            *final(self) == old(self).refreshed(*config, now),
            rating == final(self).freshness_rating,
            final(self).priced_by(*config),
    {
        let reading = config.read_freshness(&self.details.product_type, self.details.harvest_date, now);
        self.freshness_rating = reading.rating;
        self.current_price = current_price_for(self.details.base_price, reading.adjustment_percent);
        reading.rating
    }

    /// Tells whether the product is expired at time `now`: the expiry date
    /// itself is not yet expired.
    pub fn is_expired(&self, now: u64) -> (expired: bool)
        ensures
            expired == self.expired_at(now),
    {
        now > self.expiry_date
    }
}

} // verus!
