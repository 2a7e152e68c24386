//! Deployment configuration: how each product category decays, and the
//! percentages by which freshness, quality and season move a price.

use vstd::prelude::*;
use crate::freshness::{age_at, age_of, FreshnessProfile, FreshnessRating};
use crate::ident::Tag;
use crate::product::QualityGrade;

verus! {

/// Signed percentage by which each freshness tier moves a price.
#[derive(Clone, Copy, Debug, PartialEq, Eq, Structural)]
pub struct TierAdjustments {
    pub peak: i16,
    pub excellent: i16,
    pub good: i16,
    pub fair: i16,
    pub poor: i16,
}

impl TierAdjustments {
    /// The percentage of the given tier.
    pub open spec fn percent_of(&self, rating: FreshnessRating) -> i16 {
        match rating {
            FreshnessRating::Peak => self.peak,
            FreshnessRating::Excellent => self.excellent,
            FreshnessRating::Good => self.good,
            FreshnessRating::Fair => self.fair,
            FreshnessRating::Poor => self.poor,
        }
    }

    /// The percentage of the given tier.
    pub fn percent(&self, rating: FreshnessRating) -> (percent: i16)
        ensures
            percent == self.percent_of(rating),
    {
        match rating {
            FreshnessRating::Peak => self.peak,
            FreshnessRating::Excellent => self.excellent,
            FreshnessRating::Good => self.good,
            FreshnessRating::Fair => self.fair,
            FreshnessRating::Poor => self.poor,
        }
    }
}

/// Signed percentage by which each quality grade moves a suggested price.
#[derive(Clone, Copy, Debug, PartialEq, Eq, Structural)]
pub struct QualityAdjustments {
    pub grade_a: i16,
    pub grade_b: i16,
    pub grade_c: i16,
}

impl QualityAdjustments {
    /// The percentage of the given grade.
    pub open spec fn percent_of(&self, grade: QualityGrade) -> i16 {
        match grade {
            QualityGrade::GradeA => self.grade_a,
            QualityGrade::GradeB => self.grade_b,
            QualityGrade::GradeC => self.grade_c,
        }
    }

    /// The percentage of the given grade.
    pub fn percent(&self, grade: QualityGrade) -> (percent: i16)
        ensures
            percent == self.percent_of(grade),
    {
        match grade {
            QualityGrade::GradeA => self.grade_a,
            QualityGrade::GradeB => self.grade_b,
            QualityGrade::GradeC => self.grade_c,
        }
    }
}

/// Where a product category stands in its season.
#[derive(Clone, Copy, Debug, PartialEq, Eq, Structural)]
pub enum SeasonalStatus {
    InSeason,
    OffSeason,
    YearRound,
}

/// Signed percentage by which each seasonal status moves a suggested price.
#[derive(Clone, Copy, Debug, PartialEq, Eq, Structural)]
pub struct SeasonalAdjustments {
    pub in_season: i16,
    pub off_season: i16,
    pub year_round: i16,
}

impl SeasonalAdjustments {
    /// The percentage of the given status.
    pub open spec fn percent_of(&self, status: SeasonalStatus) -> i16 {
        match status {
            SeasonalStatus::InSeason => self.in_season,
            SeasonalStatus::OffSeason => self.off_season,
            SeasonalStatus::YearRound => self.year_round,
        }
    }

    /// The percentage of the given status.
    pub fn percent(&self, status: SeasonalStatus) -> (percent: i16)
        ensures
            percent == self.percent_of(status),
    {
        match status {
            SeasonalStatus::InSeason => self.in_season,
            SeasonalStatus::OffSeason => self.off_season,
            SeasonalStatus::YearRound => self.year_round,
        }
    }
}

/// What the deployment says of one product category.
#[derive(Debug)]
pub struct CategoryRule {
    pub category: Tag,
    pub profile: FreshnessProfile,
    pub season: SeasonalStatus,
}

impl Clone for CategoryRule {
    fn clone(&self) -> (copy: CategoryRule)
        ensures
            copy == *self,
    {
        CategoryRule { category: self.category.clone(), profile: self.profile, season: self.season }
    }
}

/// Index of the first rule at or after `from` that names `category`, if there is one.
pub open spec fn first_rule_from(rules: Seq<CategoryRule>, category: Seq<char>, from: int) -> Option<int>
    decreases rules.len() - from,
{
    if from < 0 || from >= rules.len() {
        None
    } else if rules[from].category@ == category {
        Some(from)
    } else {
        first_rule_from(rules, category, from + 1)
    }
}

/// What the freshness clock reads for a product at some time.
#[derive(Clone, Copy, Debug, PartialEq, Eq, Structural)]
pub struct FreshnessReading {
    /// The tier of the product's age.
    pub rating: FreshnessRating,
    /// Signed percentage by which that tier moves the price.
    pub adjustment_percent: i16,
    /// Whether the product's shelf life has run out.
    pub expired: bool,
}

/// The whole of a deployment's configuration.
#[derive(Clone, Debug)]
pub struct MarketConfig {
    /// Decay of a category that no rule names.
    pub default_profile: FreshnessProfile,
    /// Seasonal status of a category that no rule names.
    pub default_season: SeasonalStatus,
    /// Rules by category; where two name the same category, the first counts.
    pub rules: Vec<CategoryRule>,
    pub tiers: TierAdjustments,
    pub quality: QualityAdjustments,
    pub seasonal: SeasonalAdjustments,
    /// Whether a reference price past its validity window counts as missing.
    pub strict_price_validity: bool,
}

impl MarketConfig {
    /// Every profile that the configuration holds is well formed.
    pub open spec fn wf(&self) -> bool {
        &&& self.default_profile.wf()
        &&& forall|i: int| 0 <= i < self.rules@.len() ==> (#[trigger] self.rules@[i]).profile.wf()
    }

    /// Index of the rule that counts for `category`, if there is one.
    pub open spec fn rule_of(&self, category: Seq<char>) -> Option<int> {
        first_rule_from(self.rules@, category, 0)
    }

    /// How products of `category` decay.
    pub open spec fn profile_of(&self, category: Seq<char>) -> FreshnessProfile {
        match self.rule_of(category) {
            Some(i) => self.rules@[i].profile,
            None => self.default_profile,
        }
    }

    /// Where `category` stands in its season.
    pub open spec fn season_of(&self, category: Seq<char>) -> SeasonalStatus {
        match self.rule_of(category) {
            Some(i) => self.rules@[i].season,
            None => self.default_season,
        }
    }

    /// What the freshness clock reads at time `now` for a product of
    /// `category` harvested at `harvest_date`.
    ///
    /// The product is expired once `now` lies after the harvest date plus the
    /// category's shelf life, and not yet at that moment.
    pub open spec fn reading_at(&self, category: Seq<char>, harvest_date: u64, now: u64) -> FreshnessReading {
        let profile = self.profile_of(category);
        let rating = profile.rating_at(age_at(harvest_date, now));
        FreshnessReading {
            rating,
            adjustment_percent: self.tiers.percent_of(rating),
            expired: now > harvest_date + profile.shelf_life,
        }
    }

    /// A configuration without category rules.
    pub fn new(
        default_profile: FreshnessProfile,
        default_season: SeasonalStatus,
        tiers: TierAdjustments,
        quality: QualityAdjustments,
        seasonal: SeasonalAdjustments,
        strict_price_validity: bool,
    ) -> (config: MarketConfig)
        ensures
            config.default_profile == default_profile,
            config.default_season == default_season,
            config.rules@.len() == 0,
            config.tiers == tiers,
            config.quality == quality,
            config.seasonal == seasonal,
            config.strict_price_validity == strict_price_validity,
    {
        MarketConfig {
            default_profile,
            default_season,
            rules: Vec::new(),
            tiers,
            quality,
            seasonal,
            strict_price_validity,
        }
    }

    /// Adds a rule after those already there, so that it counts only for a
    /// category that no earlier rule names.
    pub fn add_rule(&mut self, rule: CategoryRule)
        ensures
            final(self).rules@ == old(self).rules@.push(rule),
            final(self).default_profile == old(self).default_profile,
            final(self).default_season == old(self).default_season,
            final(self).tiers == old(self).tiers,
            final(self).quality == old(self).quality,
            final(self).seasonal == old(self).seasonal,
            final(self).strict_price_validity == old(self).strict_price_validity,
    {
        self.rules.push(rule);
    }

    /// Tells whether every profile that the configuration holds is well formed.
    pub fn is_well_formed(&self) -> (ok: bool)
        ensures
            ok == self.wf(),
    {
        if !self.default_profile.is_well_formed() {
            return false;
        }
        let mut i: usize = 0;
        while i < self.rules.len()
            invariant
                i <= self.rules@.len(),
                self.default_profile.wf(),
                forall|j: int| 0 <= j < i ==> (#[trigger] self.rules@[j]).profile.wf(),
            decreases self.rules@.len() - i,
        {
            if !self.rules[i].profile.is_well_formed() {
                return false;
            }
            i += 1;
        }
        true
    }

    /// Finds the rule that counts for `category`.
    pub fn find_rule(&self, category: &Tag) -> (found: Option<usize>)
        ensures
            match found {
                Some(i) => i < self.rules@.len() && self.rule_of(category@) == Some(i as int),
                None => self.rule_of(category@) is None,
            },
    {
        let mut i: usize = 0;
        while i < self.rules.len()
            invariant
                i <= self.rules@.len(),
                self.rule_of(category@) == first_rule_from(self.rules@, category@, i as int),
            decreases self.rules@.len() - i,
        {
            if self.rules[i].category == *category {
                return Some(i);
            }
            i += 1;
        }
        None
    }

    /// How products of `category` decay.
    pub fn profile_for(&self, category: &Tag) -> (profile: FreshnessProfile)
        ensures
            profile == self.profile_of(category@),
    {
        match self.find_rule(category) {
            Some(i) => self.rules[i].profile,
            None => self.default_profile,
        }
    }

    /// Reads the freshness clock at time `now` for a product of `category`
    /// harvested at `harvest_date`.
    pub fn read_freshness(&self, category: &Tag, harvest_date: u64, now: u64) -> (reading: FreshnessReading)
        ensures
            reading == self.reading_at(category@, harvest_date, now),
    {
        let profile = self.profile_for(category);
        let rating = profile.rating(age_of(harvest_date, now));
        FreshnessReading {
            rating,
            adjustment_percent: self.tiers.percent(rating),
            expired: now > harvest_date && now - harvest_date > profile.shelf_life,
        }
    }

    /// Where `category` stands in its season.
    pub fn season_for(&self, category: &Tag) -> (season: SeasonalStatus)
        ensures
            season == self.season_of(category@),
    {
        match self.find_rule(category) {
            Some(i) => self.rules[i].season,
            None => self.default_season,
        }
    }
}

/// The profile of any category is well formed in a well-formed configuration.
pub proof fn lemma_profile_of_wf(config: MarketConfig, category: Seq<char>)
    requires
        config.wf(),
    ensures
        config.profile_of(category).wf(),
{
    lemma_first_rule_in_range(config.rules@, category, 0);
}

/// A rule found from `from` on lies at or after `from`, and names the category.
pub proof fn lemma_first_rule_in_range(rules: Seq<CategoryRule>, category: Seq<char>, from: int)
    requires
        0 <= from,
    ensures
        match first_rule_from(rules, category, from) {
            Some(i) => from <= i < rules.len() && rules[i].category@ == category,
            None => forall|j: int| from <= j < rules.len() ==> (#[trigger] rules[j]).category@ != category,
        },
    decreases rules.len() - from,
{
    if from < rules.len() && rules[from].category@ != category {
        lemma_first_rule_in_range(rules, category, from + 1);
    }
}

} // verus!
