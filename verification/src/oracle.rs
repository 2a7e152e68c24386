//! Reference prices and the arithmetic of the price advisor.

use vstd::prelude::*;
use crate::config::MarketConfig;
use crate::error::OracleError;
use crate::freshness::FreshnessRating;
use crate::ident::{identity_view, Identity, Tag};
use crate::product::QualityGrade;
use crate::pricing::{apply_percent, lemma_percent_applied_bound, magnitude, percent_applied, trunc_div};

verus! {

/// The reference price that the administrator last published for one product
/// category in one region.
#[derive(Debug)]
pub struct MarketPriceRecord {
    pub product_type: Tag,
    pub region: Tag,
    pub reference_price: u64,
    /// Signed percentage by which the price is moving.
    pub trend: i32,
    /// Time of publication.
    pub recorded_at: u64,
    /// Seconds after publication during which the price counts as current.
    pub valid_for: u64,
}

impl Clone for MarketPriceRecord {
    fn clone(&self) -> (copy: MarketPriceRecord)
        ensures
            copy == *self,
    {
        MarketPriceRecord {
            product_type: self.product_type.clone(),
            region: self.region.clone(),
            reference_price: self.reference_price,
            trend: self.trend,
            recorded_at: self.recorded_at,
            valid_for: self.valid_for,
        }
    }
}

impl MarketPriceRecord {
    /// The record's validity window has elapsed at time `now`.
    pub open spec fn stale_at(&self, now: u64) -> bool {
        now > self.recorded_at + self.valid_for
    }

    /// The record may be used at time `now`: always under the lenient policy,
    /// within its validity window under the strict one.
    pub open spec fn usable_at(&self, strict: bool, now: u64) -> bool {
        !strict || !self.stale_at(now)
    }

    /// Tells whether the record's validity window has elapsed at time `now`.
    pub fn is_stale(&self, now: u64) -> (stale: bool)
        ensures
            stale == self.stale_at(now),
    {
        now > self.recorded_at && now - self.recorded_at > self.valid_for
    }

    /// Tells whether the record may be used at time `now`.
    pub fn is_usable(&self, strict: bool, now: u64) -> (usable: bool)
        ensures
            usable == self.usable_at(strict, now),
    {
        !strict || !self.is_stale(now)
    }
}

/// Largest product price that [`compare_prices`] accepts.
pub const PRICE_LIMIT: u128 = 0x8000_0000_0000_0000_0000_0000;

/// By how many hundredths of the market price a product's price lies above
/// (positive) or below (negative) it, the fraction dropped.
pub open spec fn price_delta_percent(product_price: u128, market_price: u64) -> int {
    trunc_div((product_price - market_price) * 100, market_price as int)
}

/// Computes [`price_delta_percent`].
pub fn compare_prices(product_price: u128, market_price: u64) -> (delta: i128)
    requires
        market_price > 0,
        product_price <= PRICE_LIMIT,
    ensures
        delta == price_delta_percent(product_price, market_price),
{
    let difference: i128 = (product_price as i128) - (market_price as i128);
    difference * 100 / (market_price as i128)
}

/// Compares two prices where [`compare_prices`] can: the market price has to
/// be positive, and the product's price within [`PRICE_LIMIT`].
pub fn try_compare_prices(product_price: u128, market_price: u64) -> (delta: Option<i128>)
    ensures
        delta == if market_price > 0 && product_price <= PRICE_LIMIT {
            Some(price_delta_percent(product_price, market_price) as i128)
        } else {
            None
        },
        delta matches Some(found) ==> found == price_delta_percent(product_price, market_price),
{
    if market_price > 0 && product_price <= PRICE_LIMIT {
        Some(compare_prices(product_price, market_price))
    } else {
        None
    }
}

/// The suggested price: the reference price changed in turn by the quality,
/// freshness and seasonal percentages and by the trend, each change taken of
/// the result of the one before and rounded toward zero.
///
/// No step is floored: a percentage below -100 takes the result below zero.
pub open spec fn suggested_price(
    reference_price: u64,
    quality_percent: i16,
    freshness_percent: i16,
    seasonal_percent: i16,
    trend: i32,
) -> int {
    let after_quality = percent_applied(reference_price as int, quality_percent as int);
    let after_freshness = percent_applied(after_quality, freshness_percent as int);
    let after_season = percent_applied(after_freshness, seasonal_percent as int);
    percent_applied(after_season, trend as int)
}

/// Computes [`suggested_price`].
pub fn suggest(
    reference_price: u64,
    quality_percent: i16,
    freshness_percent: i16,
    seasonal_percent: i16,
    trend: i32,
) -> (price: i128)
    ensures
        price == suggested_price(
            reference_price,
            quality_percent,
            freshness_percent,
            seasonal_percent,
            trend,
        ),
{
    let start: i128 = reference_price as i128;
    proof {
        lemma_percent_applied_bound(start as int, quality_percent as int, 328);
    }
    let after_quality = apply_percent(start, quality_percent as i32);
    proof {
        lemma_percent_applied_bound(after_quality as int, freshness_percent as int, 328);
        assert(magnitude(after_quality as int) * 329 <= u64::MAX * 329 * 329) by (nonlinear_arith)
            requires
                magnitude(after_quality as int) <= u64::MAX * 329,
        ;
    }
    let after_freshness = apply_percent(after_quality, freshness_percent as i32);
    proof {
        lemma_percent_applied_bound(after_freshness as int, seasonal_percent as int, 328);
        assert(magnitude(after_freshness as int) * 329 <= u64::MAX * 329 * 329 * 329)
            by (nonlinear_arith)
            requires
                magnitude(after_freshness as int) <= u64::MAX * 329 * 329,
        ;
    }
    let after_season = apply_percent(after_freshness, seasonal_percent as i32);
    apply_percent(after_season, trend)
}

/// Why `caller` may not publish a reference price, if that is so: only the
/// administrator may, and there has to be one.
pub open spec fn publish_rejection(admin: Option<Seq<char>>, caller: Seq<char>) -> Option<OracleError> {
    if admin is None {
        Some(OracleError::NotInitialized)
    } else if admin != Some(caller) {
        Some(OracleError::InvalidPriceData)
    } else {
        None
    }
}

/// Makes the record that `caller` publishes at time `now`, where `caller` is
/// the administrator `admin`.
pub fn publish(
    admin: Option<&Identity>,
    caller: &Identity,
    product_type: Tag,
    region: Tag,
    price: u64,
    trend: i32,
    valid_for: u64,
    now: u64,
) -> (outcome: Result<MarketPriceRecord, OracleError>)
    ensures
        outcome == match publish_rejection(identity_view(admin), caller@) {
            Some(e) => Err::<MarketPriceRecord, OracleError>(e),
            None => Ok(
                MarketPriceRecord {
                    product_type,
                    region,
                    reference_price: price,
                    trend,
                    recorded_at: now,
                    valid_for,
                },
            ),
        },
{
    match admin {
        None => Err(OracleError::NotInitialized),
        Some(admin) => {
            if *admin == *caller {
                Ok(
                    MarketPriceRecord {
                        product_type,
                        region,
                        reference_price: price,
                        trend,
                        recorded_at: now,
                        valid_for,
                    },
                )
            } else {
                Err(OracleError::InvalidPriceData)
            }
        },
    }
}

/// The price suggested under `config` from a reference price on record, for
/// a product of the given grade and tier: the percentages are those of the
/// grade, of the tier and of the seasonal status of the record's category,
/// and the trend is the record's.
pub open spec fn suggestion_for(
    config: MarketConfig,
    record: MarketPriceRecord,
    quality: QualityGrade,
    freshness: FreshnessRating,
) -> int {
    suggested_price(
        record.reference_price,
        config.quality.percent_of(quality),
        config.tiers.percent_of(freshness),
        config.seasonal.percent_of(config.season_of(record.product_type@)),
        record.trend,
    )
}

/// Computes [`suggestion_for`].
pub fn suggest_from(
    config: &MarketConfig,
    record: &MarketPriceRecord,
    quality: QualityGrade,
    freshness: FreshnessRating,
) -> (price: i128)
    ensures
        price == suggestion_for(*config, *record, quality, freshness),
{
    suggest(
        record.reference_price,
        config.quality.percent(quality),
        config.tiers.percent(freshness),
        config.seasonal.percent(config.season_for(&record.product_type)),
        record.trend,
    )
}

} // verus!
