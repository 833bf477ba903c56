//! Game configuration.
//!
//! Times are in hundredths of a second, probabilities and multipliers in
//! hundredths. Loading and saving the configuration file is the hosting
//! application's business; the engine only consumes the values.

use vstd::prelude::*;

verus! {

/// Upper bound on any configured time, in hundredths of a second.
pub const MAX_CONFIG_TIME: u64 = 100_000_000;

/// Upper bound on any configured multiplier or probability, in hundredths.
pub const MAX_CONFIG_FACTOR: u64 = 10_000;

/// Which of the two value formulas the fish generator uses.
#[derive(Clone, Copy, Debug, PartialEq, Eq, Structural)]
pub enum ValueCalculationType {
    /// `base_value * ((size/avg_size + weight/avg_weight) / 2)`
    Averaged,
    /// `base_value * (size/avg_size) * (weight/avg_weight)`
    Multiplicative,
}

/// General section of the configuration.
#[derive(Clone, Debug)]
pub struct General {
    pub motd: String,
    pub log_cast_data: bool,
}

/// Fishing section of the configuration.
#[derive(Clone, Copy, Debug, PartialEq, Eq, Structural)]
pub struct Fishing {
    /// Extra catch time per pound above the species average, in hundredths.
    pub fish_weight_time_multiplier: u64,
    /// Base probability of hooking a fish, in hundredths.
    pub base_catch_chance: u64,
    /// Base wait before resolution, in hundredths of a second.
    pub base_cast_wait: u64,
    /// Floor on the wait before resolution, in hundredths of a second.
    pub min_cast_wait: u64,
    /// Legacy knob for randomized cast-time variation, kept for
    /// configuration compatibility; the resolver derives its extra time
    /// from the fish's weight instead.
    pub max_cast_time_variation: u64,
    /// Base time limit of the overload challenge, in hundredths of a second.
    pub base_qte_time: u64,
    /// Floor on the challenge time limit, in hundredths of a second.
    pub min_qte_time: u64,
    pub fish_value_calculation: ValueCalculationType,
}

impl Fishing {
    /// Bounds that keep every formula in the engine within `u64` range.
    pub open spec fn wf(&self) -> bool {
        &&& self.fish_weight_time_multiplier <= MAX_CONFIG_FACTOR
        &&& self.base_catch_chance <= MAX_CONFIG_FACTOR
        &&& self.base_cast_wait <= MAX_CONFIG_TIME
        &&& self.min_cast_wait <= MAX_CONFIG_TIME
        &&& self.max_cast_time_variation <= MAX_CONFIG_TIME
        &&& self.base_qte_time <= MAX_CONFIG_TIME
        &&& self.min_qte_time <= MAX_CONFIG_TIME
    }

    /// Runtime check of [`Fishing::wf`].
    pub fn check(&self) -> (r: bool)
        ensures
            r == self.wf(),
    {
        self.fish_weight_time_multiplier <= MAX_CONFIG_FACTOR
            && self.base_catch_chance <= MAX_CONFIG_FACTOR
            && self.base_cast_wait <= MAX_CONFIG_TIME
            && self.min_cast_wait <= MAX_CONFIG_TIME
            && self.max_cast_time_variation <= MAX_CONFIG_TIME
            && self.base_qte_time <= MAX_CONFIG_TIME
            && self.min_qte_time <= MAX_CONFIG_TIME
    }
}

/// Bait section of the configuration: the weight multiplier of each bias
/// strength, in hundredths.
#[derive(Clone, Copy, Debug, PartialEq, Eq, Structural)]
pub struct BaitConfig {
    pub low_bait_weight: u64,
    pub medium_bait_weight: u64,
    pub high_bait_weight: u64,
}

impl BaitConfig {
    /// Bounds that keep the weight arithmetic within `u64` range.
    pub open spec fn wf(&self) -> bool {
        &&& self.low_bait_weight <= MAX_CONFIG_FACTOR
        &&& self.medium_bait_weight <= MAX_CONFIG_FACTOR
        &&& self.high_bait_weight <= MAX_CONFIG_FACTOR
    }

    /// Runtime check of [`BaitConfig::wf`].
    pub fn check(&self) -> (r: bool)
        ensures
            r == self.wf(),
    {
        self.low_bait_weight <= MAX_CONFIG_FACTOR
            && self.medium_bait_weight <= MAX_CONFIG_FACTOR
            && self.high_bait_weight <= MAX_CONFIG_FACTOR
    }
}

/// The whole configuration.
#[derive(Clone, Debug)]
pub struct Config {
    pub general: General,
    pub fishing: Fishing,
    pub bait: BaitConfig,
}

impl Config {
    pub open spec fn wf(&self) -> bool {
        self.fishing.wf() && self.bait.wf()
    }

    /// Runtime check of [`Config::wf`].
    pub fn check(&self) -> (r: bool)
        ensures
            r == self.wf(),
    {
        self.fishing.check() && self.bait.check()
    }
}

impl Default for Config {
    /// The stock configuration: a 50% base hook chance, a 20 s base wait
    /// floored at 3 s, a 15 s challenge window floored at 2 s, multiplicative
    /// fish values, and bait multipliers of 1.5x / 3.5x / 5x.
    fn default() -> (r: Config)
        ensures
            r.wf(),
            r.fishing == (Fishing {
                fish_weight_time_multiplier: 120,
                base_catch_chance: 50,
                base_cast_wait: 2000,
                min_cast_wait: 300,
                max_cast_time_variation: 500,
                base_qte_time: 1500,
                min_qte_time: 200,
                fish_value_calculation: ValueCalculationType::Multiplicative,
            }),
            r.bait == (BaitConfig {
                low_bait_weight: 150,
                medium_bait_weight: 350,
                high_bait_weight: 500,
            }),
            r.general.log_cast_data == false,
    {
        Config {
            general: General {
                motd: "Welcome to Angler Bot!".to_owned(),
                log_cast_data: false,
            },
            fishing: Fishing {
                fish_weight_time_multiplier: 120,
                base_catch_chance: 50,
                base_cast_wait: 2000,
                min_cast_wait: 300,
                max_cast_time_variation: 500,
                base_qte_time: 1500,
                min_qte_time: 200,
                fish_value_calculation: ValueCalculationType::Multiplicative,
            },
            bait: BaitConfig {
                low_bait_weight: 150,
                medium_bait_weight: 350,
                high_bait_weight: 500,
            },
        }
    }
}

} // verus!
