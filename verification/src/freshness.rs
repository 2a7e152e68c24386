//! The freshness clock: from a product's age to its freshness tier, and from
//! its shelf life to its expiry.

use vstd::prelude::*;

verus! {

/// Number of seconds in one day.
pub const DAY_SECS: u64 = 86_400;

/// Discrete decay stage of a product, from freshest to least fresh.
#[derive(Clone, Copy, Debug, PartialEq, Eq, Structural)]
pub enum FreshnessRating {
    Peak,
    Excellent,
    Good,
    Fair,
    Poor,
}

impl FreshnessRating {
    /// Position of the tier in the decay order: 0 for the freshest, 4 for the last.
    pub open spec fn rank(self) -> nat {
        match self {
            FreshnessRating::Peak => 0,
            FreshnessRating::Excellent => 1,
            FreshnessRating::Good => 2,
            FreshnessRating::Fair => 3,
            FreshnessRating::Poor => 4,
        }
    }
}

/// Age in seconds of a product harvested at `harvest_date`, read at `now`.
///
/// A reading taken before the harvest counts as age zero.
pub open spec fn age_at(harvest_date: u64, now: u64) -> nat {
    if now >= harvest_date {
        (now - harvest_date) as nat
    } else {
        0
    }
}

/// Computes [`age_at`].
pub fn age_of(harvest_date: u64, now: u64) -> (age: u64)
    ensures
        age == age_at(harvest_date, now),
{
    if now >= harvest_date {
        now - harvest_date
    } else {
        0
    }
}

/// How one product category decays: its shelf life and the ages, in seconds,
/// at which each tier after the first begins.
#[derive(Clone, Copy, Debug, PartialEq, Eq, Structural)]
pub struct FreshnessProfile {
    /// Seconds from harvest to expiry.
    pub shelf_life: u64,
    /// Age at which `Peak` gives way to `Excellent`.
    pub excellent_from: u64,
    /// Age at which `Excellent` gives way to `Good`.
    pub good_from: u64,
    /// Age at which `Good` gives way to `Fair`.
    pub fair_from: u64,
    /// Age at which `Fair` gives way to `Poor`.
    pub poor_from: u64,
}

impl FreshnessProfile {
    /// The breakpoints are in order, and the freshest tier is not empty.
    pub open spec fn wf(&self) -> bool {
        0 < self.excellent_from <= self.good_from <= self.fair_from <= self.poor_from
    }

    /// The tier of a product of the given age.
    pub open spec fn rating_at(&self, age: nat) -> FreshnessRating {
        if age < self.excellent_from {
            FreshnessRating::Peak
        } else if age < self.good_from {
            FreshnessRating::Excellent
        } else if age < self.fair_from {
            FreshnessRating::Good
        } else if age < self.poor_from {
            FreshnessRating::Fair
        } else {
            FreshnessRating::Poor
        }
    }

    /// The moment after which a product harvested at `harvest_date` is expired.
    pub open spec fn expiry_of(&self, harvest_date: u64) -> int {
        harvest_date + self.shelf_life
    }

    /// Tells whether the breakpoints are in order and the freshest tier is not empty.
    pub fn is_well_formed(&self) -> (ok: bool)
        ensures
            ok == self.wf(),
    {
        0 < self.excellent_from && self.excellent_from <= self.good_from && self.good_from
            <= self.fair_from && self.fair_from <= self.poor_from
    }

    /// The tier of a product of age `age` seconds.
    pub fn rating(&self, age: u64) -> (rating: FreshnessRating)
        ensures
            rating == self.rating_at(age as nat),
    {
        if age < self.excellent_from {
            FreshnessRating::Peak
        } else if age < self.good_from {
            FreshnessRating::Excellent
        } else if age < self.fair_from {
            FreshnessRating::Good
        } else if age < self.poor_from {
            FreshnessRating::Fair
        } else {
            FreshnessRating::Poor
        }
    }

    /// A profile whose tiers split the shelf life of `days` days into five equal parts.
    pub fn even(days: u32) -> (profile: FreshnessProfile)
        ensures
            days > 0 ==> profile.wf(),
            profile.shelf_life == days * DAY_SECS,
            profile.excellent_from == profile.shelf_life / 5,
            profile.good_from == 2 * (profile.shelf_life / 5),
            profile.fair_from == 3 * (profile.shelf_life / 5),
            profile.poor_from == 4 * (profile.shelf_life / 5),
    {
        let shelf_life: u64 = (days as u64) * DAY_SECS;
        let step: u64 = shelf_life / 5;
        FreshnessProfile {
            shelf_life,
            excellent_from: step,
            good_from: 2 * step,
            fair_from: 3 * step,
            poor_from: 4 * step,
        }
    }
}

/// Tells whether a product whose expiry date is `expiry_date` is expired at `now`.
///
/// The boundary itself is not yet expired.
pub open spec fn expired_at(expiry_date: u64, now: u64) -> bool {
    now > expiry_date
}

/// Computes [`expired_at`].
pub fn is_expired(expiry_date: u64, now: u64) -> (expired: bool)
    ensures
        expired == expired_at(expiry_date, now),
{
    now > expiry_date
}

} // verus!
