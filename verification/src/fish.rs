//! Species catalog, catch instances, and the fish generator.
//!
//! The generator composes the rarity draw, the catalog filter, the
//! attribute sampler and the value formula into one concrete catch. Sizes
//! and weights are in hundredths of a unit, money in cents.

use vstd::prelude::*;

use crate::attribute::{Attribute, MAX_MEASURE};
use crate::bait::{
    category_modifier_spec, lemma_category_modifier_bound, lemma_specific_modifier_bound,
    specific_modifier_spec, Bait,
};
use crate::config::{Config, ValueCalculationType};
use crate::depth::{band_of_spec, band_range_spec, Depth};
use crate::error::ReelError;
use crate::money::MonetaryAmount;
use crate::rarity::{rarity_le, FishRarity};
use crate::rng::random_in_range;
use crate::weighted::{
    lemma_pick_index_in_range, lemma_total_ge_elem, lemma_total_weight_upper, pick_index,
    sum_weights, total_weight_spec,
};

verus! {

/// A tag on a species carrying a fight multiplier used in hook-chance math.
#[derive(Clone, Copy, Debug, PartialEq, Eq, Structural)]
pub enum FishCategory {
    /// Small, common fish
    BaitFish,
    /// Fish that are more likely to be found and are generally easier to catch
    Schooling,
    /// Aggressive fish that are harder to catch
    Predatory,
    /// Fish that feed near the bottom of their depth band
    BottomFeeder,
    /// Trophy fish that are rare and valuable, but harder to catch
    Ornamental,
    /// Fish that don't fit other niches
    Forager,
    /// Sharks, marlins, and other top predators
    Apex,
    /// Rare fish found at the bottom of the ocean
    Abyssal,
    /// Creatures of legend
    Mythological,
}

/// The fight multiplier of a category, in hundredths.
pub open spec fn fight_multiplier_spec(c: FishCategory) -> int {
    match c {
        FishCategory::Apex => 250,
        FishCategory::Predatory => 150,
        FishCategory::Abyssal => 150,
        FishCategory::BottomFeeder => 120,
        FishCategory::Schooling => 80,
        FishCategory::BaitFish => 10,
        FishCategory::Ornamental => 20,
        FishCategory::Forager => 100,
        FishCategory::Mythological => 100,
    }
}

impl FishCategory {
    /// How hard the fish fights, in hundredths: the hook chance is divided
    /// by this factor.
    pub fn fight_multiplier(&self) -> (r: u64)
        ensures
            r == fight_multiplier_spec(*self),
            10 <= r <= 250,
    {
        match self {
            FishCategory::Apex => 250,
            FishCategory::Predatory | FishCategory::Abyssal => 150,
            FishCategory::BottomFeeder => 120,
            FishCategory::Schooling => 80,
            FishCategory::BaitFish => 10,
            FishCategory::Ornamental => 20,
            FishCategory::Forager | FishCategory::Mythological => 100,
        }
    }
}

/// A type of fish that can be caught: one catalog entry.
#[derive(Debug)]
pub struct FishType {
    /// The name of the fish, e.g. "Salmon", "Trout".
    pub name: String,
    /// How likely the fish is to show up when fishing.
    pub rarity: FishRarity,
    /// The category, which drives fight strength and bait attraction.
    pub category: FishCategory,
    /// The size range and average, in hundredths of an inch.
    pub size_range: Attribute,
    /// The weight range and average, in hundredths of a pound.
    pub weight_range: Attribute,
    /// The shallow end of the depth interval the fish is found at, in
    /// hundredths of a foot.
    pub depth_min: u64,
    /// The deep end of that interval, in hundredths of a foot.
    pub depth_max: u64,
    /// The base value of the fish, in cents.
    pub base_value: u64,
}

impl Clone for FishType {
    /// A clone of a catalog entry is the entry itself.
    fn clone(&self) -> (res: FishType)
        ensures
            res == *self,
    {
        FishType {
            name: self.name.clone(),
            rarity: self.rarity,
            category: self.category,
            size_range: self.size_range,
            weight_range: self.weight_range,
            depth_min: self.depth_min,
            depth_max: self.depth_max,
            base_value: self.base_value,
        }
    }
}

impl FishType {
    /// Everything the generator needs of a catalog entry: well-formed
    /// attribute triples with nonzero averages (the value formulas divide
    /// by them).
    pub open spec fn generable(&self) -> bool {
        &&& self.size_range.wf()
        &&& self.weight_range.wf()
        &&& self.size_range.average > 0
        &&& self.weight_range.average > 0
    }

    /// Runtime check of [`FishType::generable`].
    pub fn check_generable(&self) -> (r: bool)
        ensures
            r == self.generable(),
    {
        self.size_range.check() && self.weight_range.check() && self.size_range.average > 0
            && self.weight_range.average > 0
    }
}

/// `x` as a share of `avg`, in hundredths of a percent.
pub open spec fn ratio_x10000_spec(x: int, avg: int) -> int
    recommends
        avg > 0,
{
    x * 10000 / avg
}

/// The averaged value formula: size and weight contribute equally.
pub open spec fn averaged_value_raw_spec(t: FishType, size: int, weight: int) -> int {
    t.base_value * (ratio_x10000_spec(size, t.size_range.average as int) + ratio_x10000_spec(
        weight,
        t.weight_range.average as int,
    )) / 20000
}

/// The multiplicative value formula: penalties and bonuses stack.
pub open spec fn multiplicative_value_raw_spec(t: FishType, size: int, weight: int) -> int {
    t.base_value * size * weight / (t.size_range.average * t.weight_range.average)
}

/// The final value of a catch in cents: the configured formula, capped at
/// the largest representable amount, and floored at one currency unit.
pub open spec fn fish_value_spec(
    t: FishType,
    size: int,
    weight: int,
    calc: ValueCalculationType,
) -> int {
    let raw = match calc {
        ValueCalculationType::Averaged => averaged_value_raw_spec(t, size, weight),
        ValueCalculationType::Multiplicative => multiplicative_value_raw_spec(t, size, weight),
    };
    let capped = if raw > u64::MAX as int {
        u64::MAX as int
    } else {
        raw
    };
    if capped < 100 {
        100
    } else {
        capped
    }
}

/// An individual caught fish. Besides what the player sees — name, size,
/// weight, depth, value — it carries the species stats the resolver needs:
/// the category (for the hook check) and the species' average weight (for
/// the catch-time formula).
#[derive(Clone, Debug)]
pub struct Fish {
    pub name: String,
    pub category: FishCategory,
    /// Size in hundredths of an inch.
    pub size: u64,
    /// Weight in hundredths of a pound.
    pub weight: u64,
    /// The depth it was caught at, in hundredths of a foot.
    pub depth: u64,
    /// The species' average weight, in hundredths of a pound.
    pub average_weight: u64,
    /// The value in cents.
    pub value: MonetaryAmount,
}

impl FishType {
    /// Computes the value of a catch in cents.
    pub fn value_of_catch(&self, size: u64, weight: u64, calc: ValueCalculationType) -> (r: u64)
        requires
            self.generable(),
            size <= MAX_MEASURE,
            weight <= MAX_MEASURE,
        ensures
            r == fish_value_spec(*self, size as int, weight as int, calc),
            r >= 100,
    {
        let avg_s = self.size_range.average;
        let avg_w = self.weight_range.average;
        let raw_wide: u128 = match calc {
            ValueCalculationType::Averaged => {
                proof {
                    assert((size as int) * 10000 <= 1_000_000_000int * 10000) by (nonlinear_arith)
                        requires 0 <= size as int <= 1_000_000_000int,
                    {}
                    assert((weight as int) * 10000 <= 1_000_000_000int * 10000)
                        by (nonlinear_arith)
                        requires 0 <= weight as int <= 1_000_000_000int,
                    {}
                    vstd::arithmetic::div_mod::lemma_div_pos_is_pos(
                        (size as int) * 10000,
                        avg_s as int,
                    );
                    vstd::arithmetic::div_mod::lemma_div_pos_is_pos(
                        (weight as int) * 10000,
                        avg_w as int,
                    );
                    vstd::arithmetic::div_mod::lemma_div_nonincreasing(
                        (size as int) * 10000,
                        avg_s as int,
                    );
                    vstd::arithmetic::div_mod::lemma_div_nonincreasing(
                        (weight as int) * 10000,
                        avg_w as int,
                    );
                }
                let rs: u64 = size * 10000 / avg_s;
                let rw: u64 = weight * 10000 / avg_w;
                proof {
                    assert((self.base_value as int) * ((rs as int) + (rw as int))
                        <= 18446744073709551615int * 20_000_000_000_001int) by (nonlinear_arith)
                        requires
                            0 <= self.base_value as int <= 18446744073709551615int,
                            0 <= (rs as int) + (rw as int) <= 20_000_000_000_001int,
                    {}
                }
                (self.base_value as u128) * ((rs as u128) + (rw as u128)) / 20000
            },
            ValueCalculationType::Multiplicative => {
                proof {
                    assert((self.base_value as int) * (size as int)
                        <= 18446744073709551615int * 1_000_000_000int) by (nonlinear_arith)
                        requires
                            0 <= self.base_value as int <= 18446744073709551615int,
                            0 <= size as int <= 1_000_000_000int,
                    {}
                    assert((self.base_value as int) * (size as int) * (weight as int)
                        <= 18446744073709551615int * 1_000_000_000int * 1_000_000_000int)
                        by (nonlinear_arith)
                        requires
                            0 <= (self.base_value as int) * (size as int)
                                <= 18446744073709551615int * 1_000_000_000int,
                            0 <= weight as int <= 1_000_000_000int,
                    {}
                    assert((avg_s as int) * (avg_w as int) >= 1) by (nonlinear_arith)
                        requires avg_s as int >= 1 && avg_w as int >= 1,
                    {}
                    assert((avg_s as int) * (avg_w as int) <= 1_000_000_000int * 1_000_000_000int)
                        by (nonlinear_arith)
                        requires
                            0 <= avg_s as int <= 1_000_000_000int,
                            0 <= avg_w as int <= 1_000_000_000int,
                    {}
                    vstd::arithmetic::div_mod::lemma_div_pos_is_pos(
                        (self.base_value as int) * (size as int) * (weight as int),
                        (avg_s as int) * (avg_w as int),
                    );
                }
                (self.base_value as u128) * (size as u128) * (weight as u128) / ((avg_s as u128)
                    * (avg_w as u128))
            },
        };
        let capped: u64 = if raw_wide > u64::MAX as u128 {
            u64::MAX
        } else {
            raw_wide as u64
        };
        if capped < 100 {
            100
        } else {
            capped
        }
    }

    /// Generates one concrete catch of this species at the given depth,
    /// with the bait's size and weight biases applied to the sampling
    /// modes (never to the catalog ranges themselves).
    ///
    /// Fails exactly when the catalog entry is degenerate; every generated
    /// size and weight lies within the catalog range, and the value is the
    /// configured formula floored at one currency unit.
    pub fn generate_fish(&self, caught_depth: u64, bait: Option<&Bait>, cfg: &Config) -> (r:
        Result<Fish, ReelError>)
        requires
            cfg.wf(),
        ensures
            r is Err <==> !self.generable(),
            r == Result::<Fish, ReelError>::Err(ReelError::MathError) <==> !(self.size_range.wf()
                && self.weight_range.wf()),
            r == Result::<Fish, ReelError>::Err(ReelError::ZeroAverage) <==> (self.size_range.wf()
                && self.weight_range.wf() && (self.size_range.average == 0
                || self.weight_range.average == 0)),
            r matches Ok(f) ==> {
                &&& f.name@ == self.name@
                &&& f.category == self.category
                &&& self.size_range.min <= f.size <= self.size_range.max
                &&& self.weight_range.min <= f.weight <= self.weight_range.max
                &&& f.depth == caught_depth
                &&& f.average_weight == self.weight_range.average
                &&& f.value.amount_x100 == fish_value_spec(
                    *self,
                    f.size as int,
                    f.weight as int,
                    cfg.fishing.fish_value_calculation,
                )
                &&& f.value.amount_x100 >= 100
            },
    {
        if !(self.size_range.check() && self.weight_range.check()) {
            return Err(ReelError::MathError);
        }
        if self.size_range.average == 0 || self.weight_range.average == 0 {
            return Err(ReelError::ZeroAverage);
        }
        let (size_bias, weight_bias) = match bait {
            Some(b) => (b.get_size_bias(&cfg.bait), b.get_weight_bias(&cfg.bait)),
            None => (0i64, 0i64),
        };
        let size = match self.size_range.triangular_rand_biased(size_bias) {
            Ok(v) => v,
            Err(e) => {
                return Err(e);
            },
        };
        let weight = match self.weight_range.triangular_rand_biased(weight_bias) {
            Ok(v) => v,
            Err(e) => {
                return Err(e);
            },
        };
        let value = self.value_of_catch(size, weight, cfg.fishing.fish_value_calculation);
        Ok(
            Fish {
                name: self.name.clone(),
                category: self.category,
                size,
                weight,
                depth: caught_depth,
                average_weight: self.weight_range.average,
                value: MonetaryAmount::new(value),
            },
        )
    }
}

/// The depth half of eligibility: the species' interval passes the
/// inclusive-overlap test against the band. The test accepts a species
/// when its minimum depth is at most the band's maximum **or** its
/// maximum depth is at least the band's minimum.
pub open spec fn depth_eligible_spec(t: FishType, band: Depth) -> bool {
    t.depth_min <= band_range_spec(band).1 || t.depth_max >= band_range_spec(band).0
}

/// Full eligibility: the depth test passes and the species' rarity is at
/// or below the drawn ceiling.
pub open spec fn eligible_spec(t: FishType, band: Depth, ceiling: FishRarity) -> bool {
    depth_eligible_spec(t, band) && rarity_le(t.rarity, ceiling)
}

/// The selection weight of an eligible species, in hundredths: 1.0,
/// multiplied by the bait's category modifier when the category matches,
/// and by the bait's specific-species modifier when the name matches.
/// Both may apply; they stack multiplicatively.
pub open spec fn species_weight_spec(
    t: FishType,
    cat_mod: Option<(FishCategory, int)>,
    spec_mod: Option<(Seq<char>, int)>,
) -> int {
    let w1 = match cat_mod {
        Some(p) => if p.0 == t.category {
            100 * p.1 / 100
        } else {
            100
        },
        None => 100,
    };
    match spec_mod {
        Some(p) => if p.0 == t.name@ {
            w1 * p.1 / 100
        } else {
            w1
        },
        None => w1,
    }
}

/// What holds of every fish the generator hands out: it was produced from
/// some catalog entry of the pond that is eligible — its depth interval
/// passes the overlap test for the band the fish was caught in, and its
/// rarity is at or below some drawn ceiling — with size and weight inside
/// that entry's catalog ranges and the value computed by the configured
/// formula, floored at one currency unit.
pub open spec fn generated_catch_spec(pond: Pond, f: Fish, calc: ValueCalculationType) -> bool {
    exists|i: int, ceiling: FishRarity|
        {
            &&& 0 <= i < pond.fish_types@.len()
            &&& #[trigger] eligible_spec(
                pond.fish_types@[i],
                band_of_spec(f.depth as int),
                ceiling,
            )
            &&& pond.fish_types@[i].generable()
            &&& f.name@ == pond.fish_types@[i].name@
            &&& f.category == pond.fish_types@[i].category
            &&& pond.fish_types@[i].size_range.min <= f.size <= pond.fish_types@[i].size_range.max
            &&& pond.fish_types@[i].weight_range.min <= f.weight
                <= pond.fish_types@[i].weight_range.max
            &&& f.average_weight == pond.fish_types@[i].weight_range.average
            &&& f.value.amount_x100 == fish_value_spec(
                pond.fish_types@[i],
                f.size as int,
                f.weight as int,
                calc,
            )
            &&& f.value.amount_x100 >= 100
        }
}

/// No species of the pond is eligible for this band under this rarity
/// ceiling: the "no catch" condition of one draw.
pub open spec fn no_eligible_species_spec(pond: Pond, band: Depth, ceiling: FishRarity) -> bool {
    forall|i: int|
        0 <= i < pond.fish_types@.len() ==> !#[trigger] eligible_spec(
            pond.fish_types@[i],
            band,
            ceiling,
        )
}

/// The pond holds a Common species that passes the depth test at every
/// depth the sinker can reach. Such a species is eligible under every
/// drawn rarity ceiling, so a cast over this range can never come up
/// empty.
pub open spec fn common_catch_available_spec(pond: Pond, depth_min: int, depth_max: int) -> bool {
    exists|i: int|
        0 <= i < pond.fish_types@.len() && (#[trigger] pond.fish_types@[i].rarity) is Common
            && (forall|d: int|
            depth_min <= d <= depth_max ==> depth_eligible_spec(
                pond.fish_types@[i],
                #[trigger] band_of_spec(d),
            ))
}

/// A collection of catchable fish types.
#[derive(Clone, Debug)]
pub struct Pond {
    pub fish_types: Vec<FishType>,
}

/// Upper bound on the number of species the generator accepts in one pond;
/// keeps the summed selection weights within `u64` range.
pub const MAX_POND_SPECIES: u64 = 100_000;

impl Pond {
    /// Every entry of the catalog is generable.
    pub open spec fn generable(&self) -> bool {
        forall|i: int| 0 <= i < self.fish_types@.len() ==> self.fish_types@[i].generable()
    }

    /// Runtime check of [`Pond::generable`].
    pub fn check_generable(&self) -> (r: bool)
        ensures
            r == self.generable(),
    {
        let n = self.fish_types.len();
        let mut i: usize = 0;
        while i < n
            invariant
                n == self.fish_types@.len(),
                0 <= i <= n,
                forall|j: int| 0 <= j < i ==> self.fish_types@[j].generable(),
            decreases n - i,
        {
            if !self.fish_types[i].check_generable() {
                return false;
            }
            i = i + 1;
        }
        true
    }

    /// All fish whose depth interval passes the overlap test for the band
    /// and whose rarity is at or below the ceiling. An empty result is
    /// valid and means "no catch".
    pub fn get_available_fish(&self, depth: Depth, rarity: FishRarity) -> (r: Pond)
        ensures
            r.fish_types@ == self.fish_types@.filter(
                |t: FishType| eligible_spec(t, depth, rarity),
            ),
    {
        let ghost pred = |t: FishType| eligible_spec(t, depth, rarity);
        let n = self.fish_types.len();
        let mut out: Vec<FishType> = Vec::new();
        let mut i: usize = 0;
        proof {
            reveal(Seq::filter);
            assert(self.fish_types@.take(0) =~= Seq::<FishType>::empty());
            assert(self.fish_types@.take(0).filter(pred) =~= Seq::<FishType>::empty());
        }
        while i < n
            invariant
                n == self.fish_types@.len(),
                0 <= i <= n,
                out@ == self.fish_types@.take(i as int).filter(
                    |t: FishType| eligible_spec(t, depth, rarity),
                ),
            decreases n - i,
        {
            let t = &self.fish_types[i];
            let (band_min, band_max) = depth.get_range();
            let possible = rarity.get_possible();
            let mut rarity_ok = false;
            let mut k: usize = 0;
            let pn = possible.len();
            while k < pn
                invariant
                    pn == possible@.len(),
                    0 <= k <= pn,
                    rarity_ok == exists|j: int| 0 <= j < k && possible@[j] == t.rarity,
                decreases pn - k,
            {
                if possible[k] == t.rarity {
                    rarity_ok = true;
                }
                k = k + 1;
            }
            proof {
                assert(rarity_ok == possible@.contains(t.rarity));
            }
            let keep = (t.depth_min <= band_max || t.depth_max >= band_min) && rarity_ok;
            proof {
                assert(keep == eligible_spec(self.fish_types@[i as int], depth, rarity));
                reveal(Seq::filter);
                let taken = self.fish_types@.take(i as int + 1);
                assert(taken.drop_last() =~= self.fish_types@.take(i as int));
                assert(taken.last() == self.fish_types@[i as int]);
            }
            if keep {
                out.push(t.clone());
            }
            i = i + 1;
        }
        proof {
            assert(self.fish_types@.take(n as int) =~= self.fish_types@);
        }
        Pond { fish_types: out }
    }

    /// Generates a random catch at the given raw depth.
    ///
    /// A rarity is drawn, the catalog is filtered to the eligible (depth,
    /// rarity) subset, one eligible species is picked with bait-biased
    /// weights, and a concrete fish is sampled from it. `Ok(None)` — no
    /// catch — is the outcome whenever the eligible subset is empty; in
    /// particular a pond with no species passing the depth test never
    /// yields a fish. Every fish returned belongs to the eligible subset
    /// of some drawn rarity.
    pub fn generate_fish(&self, raw_depth: u64, bait: Option<&Bait>, cfg: &Config) -> (r: Result<
        Option<Fish>,
        ReelError,
    >)
        requires
            cfg.wf(),
            self.fish_types@.len() <= MAX_POND_SPECIES,
        ensures
            r matches Ok(Some(f)) ==> f.depth == raw_depth && generated_catch_spec(
                *self,
                f,
                cfg.fishing.fish_value_calculation,
            ),
            (forall|i: int|
                0 <= i < self.fish_types@.len() ==> !depth_eligible_spec(
                    self.fish_types@[i],
                    band_of_spec(raw_depth as int),
                )) ==> r == Result::<Option<Fish>, ReelError>::Ok(None),
            r == Result::<Option<Fish>, ReelError>::Ok(None) ==> exists|ceiling: FishRarity|
                #[trigger] no_eligible_species_spec(
                    *self,
                    band_of_spec(raw_depth as int),
                    ceiling,
                ),
            self.generable() && cfg.bait.low_bait_weight >= 100 && cfg.bait.medium_bait_weight
                >= 100 && cfg.bait.high_bait_weight >= 100 ==> !(r is Err),
            (exists|i: int|
                0 <= i < self.fish_types@.len() && #[trigger] depth_eligible_spec(
                    self.fish_types@[i],
                    band_of_spec(raw_depth as int),
                ) && self.fish_types@[i].rarity is Common) && self.generable()
                && cfg.bait.low_bait_weight >= 100 && cfg.bait.medium_bait_weight >= 100
                && cfg.bait.high_bait_weight >= 100 ==> r matches Ok(Some(_)),
    {
        let rarity = FishRarity::weighted_random(bait, &cfg.bait);
        let band = Depth::from_depth(raw_depth);
        let available = self.get_available_fish(band, rarity);
        let ghost pred = |t: FishType| eligible_spec(t, band, rarity);
        if available.fish_types.len() == 0 {
            proof {
                assert forall|i: int|
                    0 <= i < self.fish_types@.len() implies !eligible_spec(
                    self.fish_types@[i],
                    band,
                    rarity,
                ) by {
                    if eligible_spec(self.fish_types@[i], band, rarity) {
                        Seq::lemma_filter_contains(self.fish_types@, pred, i);
                    }
                }
                assert(no_eligible_species_spec(*self, band_of_spec(raw_depth as int), rarity));
            }
            return Ok(None);
        }
        proof {
            // A nonempty filtered pond witnesses a depth-eligible species.
            Seq::lemma_filter_pred(self.fish_types@, pred, 0);
            crate::seqs::lemma_filter_in_source(self.fish_types@, pred, 0);
            let w0 = choose|oi: int|
                0 <= oi < self.fish_types@.len() && self.fish_types@[oi]
                    == self.fish_types@.filter(pred)[0];
            assert(depth_eligible_spec(self.fish_types@[w0], band));
        }
        // Resolve the bait modifiers once, before the weight loop.
        let cat_mod: Option<(FishCategory, u64)> = match bait {
            Some(b) => b.get_category_modifier(&cfg.bait),
            None => None,
        };
        let spec_mod: Option<(&String, u64)> = match bait {
            Some(b) => b.get_specific_fish_modifier(&cfg.bait),
            None => None,
        };
        let ghost cm = match bait {
            Some(b) => category_modifier_spec(b.attraction@, cfg.bait),
            None => None,
        };
        let ghost sm = match bait {
            Some(b) => specific_modifier_spec(b.attraction@, cfg.bait),
            None => None,
        };
        proof {
            match bait {
                Some(b) => {
                    lemma_category_modifier_bound(b.attraction@, cfg.bait);
                    lemma_specific_modifier_bound(b.attraction@, cfg.bait);
                },
                None => (),
            }
        }
        let an = available.fish_types.len();
        let mut ws: Vec<u64> = Vec::new();
        let mut i: usize = 0;
        while i < an
            invariant
                an == available.fish_types@.len(),
                0 <= i <= an,
                ws@.len() == i,
                (match cat_mod {
                    Some((c, mu)) => cm == Some((c, mu as int)) && mu <= 10_000,
                    None => cm is None,
                }),
                (match spec_mod {
                    Some((nm, mu)) => sm == Some((nm@, mu as int)) && mu <= 10_000,
                    None => sm is None,
                }),
                forall|j: int|
                    0 <= j < i ==> ws@[j] == species_weight_spec(
                        available.fish_types@[j],
                        cm,
                        sm,
                    ) && ws@[j] <= 1_000_000,
            decreases an - i,
        {
            let t = &available.fish_types[i];
            let mut w: u64 = 100;
            match &cat_mod {
                Some((c, mu)) => {
                    if *c == t.category {
                        proof {
                            assert(100 * (*mu as int) <= 100 * 10_000int) by (nonlinear_arith)
                                requires 0 <= *mu <= 10_000int,
                            {}
                            vstd::arithmetic::div_mod::lemma_div_is_ordered(
                                100 * (*mu as int),
                                1_000_000int,
                                100,
                            );
                            assert(1_000_000int / 100 == 10_000int);
                            vstd::arithmetic::div_mod::lemma_div_pos_is_pos(
                                100 * (*mu as int),
                                100,
                            );
                        }
                        w = 100 * *mu / 100;
                    }
                },
                None => {},
            }
            proof {
                assert(w <= 10_000);
            }
            match &spec_mod {
                Some((nm, mu)) => {
                    if (*nm).eq(&t.name) {
                        proof {
                            assert((w as int) * (*mu as int) <= 100_000_000int)
                                by (nonlinear_arith)
                                requires 0 <= w <= 10_000int && 0 <= *mu <= 10_000int,
                            {}
                            vstd::arithmetic::div_mod::lemma_div_is_ordered(
                                (w as int) * (*mu as int),
                                100_000_000int,
                                100,
                            );
                            assert(100_000_000int / 100 == 1_000_000int);
                            vstd::arithmetic::div_mod::lemma_div_pos_is_pos(
                                (w as int) * (*mu as int),
                                100,
                            );
                        }
                        w = w * *mu / 100;
                    }
                },
                None => {},
            }
            proof {
                assert(w as int == species_weight_spec(available.fish_types@[i as int], cm, sm));
            }
            ws.push(w);
            i = i + 1;
        }
        proof {
            lemma_total_weight_upper(ws@, 1_000_000);
            assert(1_000_000 * ws@.len() <= 1_000_000 * 100_000int) by (nonlinear_arith)
                requires 0 <= ws@.len() <= 100_000int,
            {}
        }
        let total = sum_weights(&ws);
        if total == 0 {
            proof {
                if self.generable() && cfg.bait.low_bait_weight >= 100
                    && cfg.bait.medium_bait_weight >= 100 && cfg.bait.high_bait_weight >= 100 {
                    // With multipliers of at least 1.0 every species keeps a
                    // positive weight, so a zero total is impossible.
                    match bait {
                        Some(b) => {
                            crate::bait::lemma_category_modifier_lower(b.attraction@, cfg.bait);
                            crate::bait::lemma_specific_modifier_lower(b.attraction@, cfg.bait);
                        },
                        None => (),
                    }
                    lemma_positive_modifier_weights(available.fish_types@[0], cm, sm, cfg.bait);
                    lemma_total_ge_elem(ws@, 0);
                }
            }
            return Err(ReelError::RandomError);
        }
        let u = random_in_range(0, total - 1);
        let idx = pick_index(&ws, u);
        proof {
            lemma_pick_index_in_range(ws@, u as int);
            crate::seqs::lemma_filter_in_source(self.fish_types@, pred, idx as int);
        }
        let chosen = &available.fish_types[idx];
        proof {
            assert(self.fish_types@.filter(pred)[idx as int] == available.fish_types@[idx as int]);
            let orig = choose|oi: int|
                0 <= oi < self.fish_types@.len() && self.fish_types@[oi] == available.fish_types@[
                    idx as int
                ];
            assert(pred(available.fish_types@[idx as int])) by {
                Seq::lemma_filter_pred(self.fish_types@, pred, idx as int);
            }
            if self.generable() {
                assert(self.fish_types@[orig].generable());
            }
        }
        match chosen.generate_fish(raw_depth, bait, cfg) {
            Ok(f) => {
                proof {
                    let orig = choose|oi: int|
                        0 <= oi < self.fish_types@.len() && self.fish_types@[oi]
                            == available.fish_types@[idx as int];
                    assert(eligible_spec(
                        self.fish_types@[orig],
                        band_of_spec(f.depth as int),
                        rarity,
                    ));
                    assert(self.fish_types@[orig].generable());
                    assert(generated_catch_spec(
                        *self,
                        f,
                        cfg.fishing.fish_value_calculation,
                    ));
                }
                Ok(Some(f))
            },
            Err(e) => Err(e),
        }
    }
}

/// With bias multipliers of at least 1.0, every species weight is positive.
proof fn lemma_positive_modifier_weights(
    t: FishType,
    cm: Option<(FishCategory, int)>,
    sm: Option<(Seq<char>, int)>,
    cfg: crate::config::BaitConfig,
)
    requires
        match cm {
            Some(p) => 100 <= p.1,
            None => true,
        },
        match sm {
            Some(p) => 100 <= p.1,
            None => true,
        },
    ensures
        species_weight_spec(t, cm, sm) >= 100,
{
    let w1 = match cm {
        Some(p) => if p.0 == t.category {
            100 * p.1 / 100
        } else {
            100
        },
        None => 100,
    };
    match cm {
        Some(p) => {
            if p.0 == t.category {
                assert(100 * p.1 >= 100 * 100) by (nonlinear_arith)
                    requires p.1 >= 100,
                {}
                vstd::arithmetic::div_mod::lemma_div_is_ordered(100int * 100, 100 * p.1, 100);
            }
        },
        None => (),
    }
    assert(w1 >= 100);
    match sm {
        Some(p) => {
            if p.0 == t.name@ {
                assert(w1 * p.1 >= w1 * 100) by (nonlinear_arith)
                    requires p.1 >= 100 && w1 >= 0,
                {}
                assert(w1 * 100 >= 100 * 100) by (nonlinear_arith)
                    requires w1 >= 100,
                {}
                vstd::arithmetic::div_mod::lemma_div_is_ordered(100int * 100, w1 * p.1, 100);
            }
        },
        None => (),
    }
}


impl FishType {
    /// The selection weight this species gets under a bait, in hundredths:
    /// 1.0, multiplied by the bait's category modifier when the category
    /// matches and by its specific-species modifier when the name matches.
    pub fn selection_weight(&self, bait: Option<&Bait>, cfg: &Config) -> (r: u64)
        requires
            cfg.wf(),
        ensures
            r == species_weight_spec(
                *self,
                match bait {
                    Some(b) => category_modifier_spec(b.attraction@, cfg.bait),
                    None => None,
                },
                match bait {
                    Some(b) => specific_modifier_spec(b.attraction@, cfg.bait),
                    None => None,
                },
            ),
    {
        let cat_mod: Option<(FishCategory, u64)> = match bait {
            Some(b) => b.get_category_modifier(&cfg.bait),
            None => None,
        };
        let spec_mod: Option<(&String, u64)> = match bait {
            Some(b) => b.get_specific_fish_modifier(&cfg.bait),
            None => None,
        };
        proof {
            match bait {
                Some(b) => {
                    lemma_category_modifier_bound(b.attraction@, cfg.bait);
                    lemma_specific_modifier_bound(b.attraction@, cfg.bait);
                },
                None => (),
            }
        }
        let mut w: u64 = 100;
        match &cat_mod {
            Some((c, mu)) => {
                if *c == self.category {
                    proof {
                        assert(100 * (*mu as int) <= 100 * 10_000int) by (nonlinear_arith)
                            requires 0 <= *mu <= 10_000int,
                        {}
                    }
                    w = 100 * *mu / 100;
                }
            },
            None => {},
        }
        proof {
            vstd::arithmetic::div_mod::lemma_div_is_ordered(
                100 * (match cat_mod {
                    Some(p) => p.1 as int,
                    None => 0int,
                }),
                1_000_000int,
                100,
            );
            assert(w <= 10_000);
        }
        match &spec_mod {
            Some((nm, mu)) => {
                if (*nm).eq(&self.name) {
                    proof {
                        assert((w as int) * (*mu as int) <= 100_000_000int) by (nonlinear_arith)
                            requires 0 <= w <= 10_000int && 0 <= *mu <= 10_000int,
                        {}
                    }
                    w = w * *mu / 100;
                }
            },
            None => {},
        }
        w
    }
}

/// The bait-targeting law: a specific-species attraction multiplies only
/// the selection weight of the species it names. Any species whose name
/// differs (and whose category the bait does not also target) keeps the
/// neutral weight of 1.0, while the named species' weight is exactly the
/// attraction's multiplier.
pub proof fn lemma_specific_bait_targets_one_species(
    t: FishType,
    name: Seq<char>,
    mult: int,
)
    requires
        0 <= mult,
    ensures
        t.name@ != name ==> species_weight_spec(t, None, Some((name, mult))) == 100,
        t.name@ == name ==> species_weight_spec(t, None, Some((name, mult))) == mult,
{
    if t.name@ == name {
        vstd::arithmetic::div_mod::lemma_div_multiples_vanish(mult, 100);
        assert(100 * mult == mult * 100) by (nonlinear_arith) {}
        assert(100 * mult / 100 == mult);
    }
}

} // verus!
