//! Consumable bait and lures.
//!
//! A bait carries a list of attraction effects. Each effect pairs a target —
//! heavier or lighter, larger or smaller, a specific species, a rarity tier,
//! or a category — with a bias strength whose multiplier comes from the
//! configuration. At most one bait is active per cast; a non-reusable bait
//! is consumed when the cast resolves.

use vstd::prelude::*;
use vstd::string::StringExecFns;

use crate::config::BaitConfig;
use crate::fish::FishCategory;
use crate::rarity::FishRarity;
use crate::rng::random_in_range;

verus! {

/// How strongly the bait biases the weights it targets.
#[derive(Clone, Copy, Debug, PartialEq, Eq, Structural)]
pub enum BaitBias {
    Low,
    Medium,
    High,
}

/// The configured weight multiplier of a bias strength, in hundredths.
pub open spec fn multiplier_spec(b: BaitBias, cfg: BaitConfig) -> int {
    match b {
        BaitBias::Low => cfg.low_bait_weight as int,
        BaitBias::Medium => cfg.medium_bait_weight as int,
        BaitBias::High => cfg.high_bait_weight as int,
    }
}

/// A bias strength normalized against the highest configured multiplier,
/// clamped to `[0, 100]` hundredths.
pub open spec fn normalized_strength_spec(b: BaitBias, cfg: BaitConfig) -> int {
    let mx = if cfg.high_bait_weight >= 100 {
        cfg.high_bait_weight as int
    } else {
        100
    };
    let raw = multiplier_spec(b, cfg) * 100 / mx;
    if raw > 100 {
        100
    } else {
        raw
    }
}

impl BaitBias {
    /// The configured weight multiplier of this strength, in hundredths.
    pub fn get_multiplier(&self, cfg: &BaitConfig) -> (r: u64)
        ensures
            r == multiplier_spec(*self, *cfg),
    {
        match self {
            BaitBias::Low => cfg.low_bait_weight,
            BaitBias::Medium => cfg.medium_bait_weight,
            BaitBias::High => cfg.high_bait_weight,
        }
    }

    /// This strength as a share of the highest configured multiplier, in
    /// hundredths, clamped to `[0, 100]`.
    pub fn get_normalized_strength(&self, cfg: &BaitConfig) -> (r: u64)
        requires
            cfg.wf(),
        ensures
            r == normalized_strength_spec(*self, *cfg),
            r <= 100,
    {
        let val = self.get_multiplier(cfg);
        let mx: u64 = if cfg.high_bait_weight >= 100 {
            cfg.high_bait_weight
        } else {
            100
        };
        let raw = val * 100 / mx;
        proof {
            vstd::arithmetic::div_mod::lemma_div_pos_is_pos((val * 100) as int, mx as int);
        }
        if raw > 100 {
            100
        } else {
            raw
        }
    }
}

/// Whether an attraction helps or hinders the angler.
#[derive(Clone, Copy, Debug, PartialEq, Eq, Structural)]
pub enum AttractionQuality {
    Good,
    Bad,
}

/// What a given bait is good (or bad) at attracting.
#[derive(Debug)]
pub enum BaitAttraction {
    Heavy { bias: BaitBias, quality: AttractionQuality },
    Light { bias: BaitBias, quality: AttractionQuality },
    Large { bias: BaitBias, quality: AttractionQuality },
    Small { bias: BaitBias, quality: AttractionQuality },
    SpecificFish { name: String, bias: BaitBias, quality: AttractionQuality },
    Rarity(FishRarity, BaitBias, AttractionQuality),
    Category(FishCategory, BaitBias, AttractionQuality),
}

impl Clone for BaitAttraction {
    /// A clone of an attraction is the attraction itself.
    fn clone(&self) -> (res: BaitAttraction)
        ensures
            res == *self,
    {
        match self {
            BaitAttraction::Heavy { bias, quality } => BaitAttraction::Heavy {
                bias: *bias,
                quality: *quality,
            },
            BaitAttraction::Light { bias, quality } => BaitAttraction::Light {
                bias: *bias,
                quality: *quality,
            },
            BaitAttraction::Large { bias, quality } => BaitAttraction::Large {
                bias: *bias,
                quality: *quality,
            },
            BaitAttraction::Small { bias, quality } => BaitAttraction::Small {
                bias: *bias,
                quality: *quality,
            },
            BaitAttraction::SpecificFish { name, bias, quality } => BaitAttraction::SpecificFish {
                name: name.clone(),
                bias: *bias,
                quality: *quality,
            },
            BaitAttraction::Rarity(r, b, q) => BaitAttraction::Rarity(*r, *b, *q),
            BaitAttraction::Category(c, b, q) => BaitAttraction::Category(*c, *b, *q),
        }
    }
}

/// A consumable (or reusable lure) that biases fish generation.
#[derive(Debug)]
pub struct Bait {
    pub name: String,
    pub description: String,
    /// Price in cents.
    pub price: u64,
    /// A reusable lure survives a successful cast; plain bait is consumed.
    pub reusable: bool,
    pub attraction: Vec<BaitAttraction>,
}

impl Clone for Bait {
    /// A clone of a bait agrees with it in every observable field.
    fn clone(&self) -> (res: Bait)
        ensures
            res.name == self.name,
            res.description == self.description,
            res.price == self.price,
            res.reusable == self.reusable,
            res.attraction@ == self.attraction@,
    {
        let mut attraction: Vec<BaitAttraction> = Vec::new();
        let n = self.attraction.len();
        let mut i: usize = 0;
        while i < n
            invariant
                n == self.attraction@.len(),
                0 <= i <= n,
                attraction@ =~= self.attraction@.take(i as int),
            decreases n - i,
        {
            attraction.push(self.attraction[i].clone());
            i = i + 1;
        }
        proof {
            assert(self.attraction@.take(n as int) =~= self.attraction@);
        }
        Bait {
            name: self.name.clone(),
            description: self.description.clone(),
            price: self.price,
            reusable: self.reusable,
            attraction,
        }
    }
}

/// The first specific-species attraction, with its multiplier.
pub open spec fn specific_modifier_spec(attrs: Seq<BaitAttraction>, cfg: BaitConfig) -> Option<
    (Seq<char>, int),
>
    decreases attrs.len(),
{
    if attrs.len() == 0 {
        None
    } else {
        match attrs[0] {
            BaitAttraction::SpecificFish { name, bias, .. } => Some(
                (name@, multiplier_spec(bias, cfg)),
            ),
            _ => specific_modifier_spec(attrs.drop_first(), cfg),
        }
    }
}

/// The first rarity attraction, with its multiplier.
pub open spec fn rarity_modifier_spec(attrs: Seq<BaitAttraction>, cfg: BaitConfig) -> Option<
    (FishRarity, int),
>
    decreases attrs.len(),
{
    if attrs.len() == 0 {
        None
    } else {
        match attrs[0] {
            BaitAttraction::Rarity(r, bias, _) => Some((r, multiplier_spec(bias, cfg))),
            _ => rarity_modifier_spec(attrs.drop_first(), cfg),
        }
    }
}

/// The first category attraction, with its multiplier.
pub open spec fn category_modifier_spec(attrs: Seq<BaitAttraction>, cfg: BaitConfig) -> Option<
    (FishCategory, int),
>
    decreases attrs.len(),
{
    if attrs.len() == 0 {
        None
    } else {
        match attrs[0] {
            BaitAttraction::Category(c, bias, _) => Some((c, multiplier_spec(bias, cfg))),
            _ => category_modifier_spec(attrs.drop_first(), cfg),
        }
    }
}

/// The raw (unclamped) weight bias: heavy attractions push up, light ones
/// push down, each by its normalized strength.
pub open spec fn weight_bias_sum_spec(attrs: Seq<BaitAttraction>, cfg: BaitConfig) -> int
    decreases attrs.len(),
{
    if attrs.len() == 0 {
        0
    } else {
        let rest = weight_bias_sum_spec(attrs.drop_first(), cfg);
        match attrs[0] {
            BaitAttraction::Heavy { bias, .. } => rest + normalized_strength_spec(bias, cfg),
            BaitAttraction::Light { bias, .. } => rest - normalized_strength_spec(bias, cfg),
            _ => rest,
        }
    }
}

/// The raw (unclamped) size bias: large attractions push up, small ones
/// push down.
pub open spec fn size_bias_sum_spec(attrs: Seq<BaitAttraction>, cfg: BaitConfig) -> int
    decreases attrs.len(),
{
    if attrs.len() == 0 {
        0
    } else {
        let rest = size_bias_sum_spec(attrs.drop_first(), cfg);
        match attrs[0] {
            BaitAttraction::Large { bias, .. } => rest + normalized_strength_spec(bias, cfg),
            BaitAttraction::Small { bias, .. } => rest - normalized_strength_spec(bias, cfg),
            _ => rest,
        }
    }
}

/// Under a well-formed configuration every rarity modifier is bounded.
pub proof fn lemma_rarity_modifier_bound(attrs: Seq<BaitAttraction>, cfg: BaitConfig)
    requires
        cfg.wf(),
    ensures
        match rarity_modifier_spec(attrs, cfg) {
            Some(p) => 0 <= p.1 <= 10_000,
            None => true,
        },
    decreases attrs.len(),
{
    if attrs.len() > 0 {
        lemma_rarity_modifier_bound(attrs.drop_first(), cfg);
    }
}

/// Under a well-formed configuration every category modifier is bounded.
pub proof fn lemma_category_modifier_bound(attrs: Seq<BaitAttraction>, cfg: BaitConfig)
    requires
        cfg.wf(),
    ensures
        match category_modifier_spec(attrs, cfg) {
            Some(p) => 0 <= p.1 <= 10_000,
            None => true,
        },
    decreases attrs.len(),
{
    if attrs.len() > 0 {
        lemma_category_modifier_bound(attrs.drop_first(), cfg);
    }
}

/// Under a well-formed configuration every specific-species modifier is
/// bounded.
pub proof fn lemma_specific_modifier_bound(attrs: Seq<BaitAttraction>, cfg: BaitConfig)
    requires
        cfg.wf(),
    ensures
        match specific_modifier_spec(attrs, cfg) {
            Some(p) => 0 <= p.1 <= 10_000,
            None => true,
        },
    decreases attrs.len(),
{
    if attrs.len() > 0 {
        lemma_specific_modifier_bound(attrs.drop_first(), cfg);
    }
}

/// With every configured multiplier at least 1.0, a category modifier is
/// at least 1.0 too.
pub proof fn lemma_category_modifier_lower(attrs: Seq<BaitAttraction>, cfg: BaitConfig)
    requires
        cfg.low_bait_weight >= 100,
        cfg.medium_bait_weight >= 100,
        cfg.high_bait_weight >= 100,
    ensures
        match category_modifier_spec(attrs, cfg) {
            Some(p) => p.1 >= 100,
            None => true,
        },
    decreases attrs.len(),
{
    if attrs.len() > 0 {
        lemma_category_modifier_lower(attrs.drop_first(), cfg);
    }
}

/// With every configured multiplier at least 1.0, a specific-species
/// modifier is at least 1.0 too.
pub proof fn lemma_specific_modifier_lower(attrs: Seq<BaitAttraction>, cfg: BaitConfig)
    requires
        cfg.low_bait_weight >= 100,
        cfg.medium_bait_weight >= 100,
        cfg.high_bait_weight >= 100,
    ensures
        match specific_modifier_spec(attrs, cfg) {
            Some(p) => p.1 >= 100,
            None => true,
        },
    decreases attrs.len(),
{
    if attrs.len() > 0 {
        lemma_specific_modifier_lower(attrs.drop_first(), cfg);
    }
}

/// Clamp a bias to `[-100, 100]` hundredths.
pub open spec fn clamp_bias_spec(x: int) -> int {
    if x < -100 {
        -100
    } else if x > 100 {
        100
    } else {
        x
    }
}

impl Bait {
    /// The first specific-species attraction of this bait, with its
    /// configured multiplier in hundredths.
    pub fn get_specific_fish_modifier<'a>(&'a self, cfg: &BaitConfig) -> (r: Option<
        (&'a String, u64),
    >)
        ensures
            match r {
                Some((n, m)) => specific_modifier_spec(self.attraction@, *cfg) == Some(
                    (n@, m as int),
                ),
                None => specific_modifier_spec(self.attraction@, *cfg) is None,
            },
    {
        let n = self.attraction.len();
        let mut i: usize = 0;
        proof {
            assert(self.attraction@.skip(0) =~= self.attraction@);
        }
        while i < n
            invariant
                n == self.attraction@.len(),
                0 <= i <= n,
                specific_modifier_spec(self.attraction@, *cfg) == specific_modifier_spec(
                    self.attraction@.skip(i as int),
                    *cfg,
                ),
            decreases n - i,
        {
            proof {
                assert(self.attraction@.skip(i as int)[0] == self.attraction@[i as int]);
                assert(self.attraction@.skip(i as int).drop_first() =~= self.attraction@.skip(
                    i as int + 1,
                ));
            }
            match &self.attraction[i] {
                BaitAttraction::SpecificFish { name, bias, .. } => {
                    return Some((name, bias.get_multiplier(cfg)));
                },
                _ => {},
            }
            i = i + 1;
        }
        proof {
            assert(self.attraction@.skip(n as int) =~= Seq::<BaitAttraction>::empty());
        }
        None
    }

    /// The first rarity attraction of this bait, with its configured
    /// multiplier in hundredths.
    pub fn get_rarity_modifier(&self, cfg: &BaitConfig) -> (r: Option<(FishRarity, u64)>)
        ensures
            match r {
                Some((t, m)) => rarity_modifier_spec(self.attraction@, *cfg) == Some(
                    (t, m as int),
                ),
                None => rarity_modifier_spec(self.attraction@, *cfg) is None,
            },
    {
        let n = self.attraction.len();
        let mut i: usize = 0;
        proof {
            assert(self.attraction@.skip(0) =~= self.attraction@);
        }
        while i < n
            invariant
                n == self.attraction@.len(),
                0 <= i <= n,
                rarity_modifier_spec(self.attraction@, *cfg) == rarity_modifier_spec(
                    self.attraction@.skip(i as int),
                    *cfg,
                ),
            decreases n - i,
        {
            proof {
                assert(self.attraction@.skip(i as int)[0] == self.attraction@[i as int]);
                assert(self.attraction@.skip(i as int).drop_first() =~= self.attraction@.skip(
                    i as int + 1,
                ));
            }
            match &self.attraction[i] {
                BaitAttraction::Rarity(t, bias, _) => {
                    return Some((*t, bias.get_multiplier(cfg)));
                },
                _ => {},
            }
            i = i + 1;
        }
        proof {
            assert(self.attraction@.skip(n as int) =~= Seq::<BaitAttraction>::empty());
        }
        None
    }

    /// The first category attraction of this bait, with its configured
    /// multiplier in hundredths.
    pub fn get_category_modifier(&self, cfg: &BaitConfig) -> (r: Option<(FishCategory, u64)>)
        ensures
            match r {
                Some((t, m)) => category_modifier_spec(self.attraction@, *cfg) == Some(
                    (t, m as int),
                ),
                None => category_modifier_spec(self.attraction@, *cfg) is None,
            },
    {
        let n = self.attraction.len();
        let mut i: usize = 0;
        proof {
            assert(self.attraction@.skip(0) =~= self.attraction@);
        }
        while i < n
            invariant
                n == self.attraction@.len(),
                0 <= i <= n,
                category_modifier_spec(self.attraction@, *cfg) == category_modifier_spec(
                    self.attraction@.skip(i as int),
                    *cfg,
                ),
            decreases n - i,
        {
            proof {
                assert(self.attraction@.skip(i as int)[0] == self.attraction@[i as int]);
                assert(self.attraction@.skip(i as int).drop_first() =~= self.attraction@.skip(
                    i as int + 1,
                ));
            }
            match &self.attraction[i] {
                BaitAttraction::Category(t, bias, _) => {
                    return Some((*t, bias.get_multiplier(cfg)));
                },
                _ => {},
            }
            i = i + 1;
        }
        proof {
            assert(self.attraction@.skip(n as int) =~= Seq::<BaitAttraction>::empty());
        }
        None
    }

    /// The net weight bias of this bait in hundredths, clamped to
    /// `[-100, 100]`.
    pub fn get_weight_bias(&self, cfg: &BaitConfig) -> (r: i64)
        requires
            cfg.wf(),
        ensures
            r == clamp_bias_spec(weight_bias_sum_spec(self.attraction@, *cfg)),
            -100 <= r <= 100,
    {
        let n = self.attraction.len();
        let mut i: usize = 0;
        let mut total: i128 = 0;
        proof {
            assert(self.attraction@.skip(0) =~= self.attraction@);
        }
        while i < n
            invariant
                cfg.wf(),
                n == self.attraction@.len(),
                0 <= i <= n,
                weight_bias_sum_spec(self.attraction@, *cfg) == total + weight_bias_sum_spec(
                    self.attraction@.skip(i as int),
                    *cfg,
                ),
                -100 * (i as int) <= total <= 100 * (i as int),
            decreases n - i,
        {
            proof {
                assert(self.attraction@.skip(i as int)[0] == self.attraction@[i as int]);
                assert(self.attraction@.skip(i as int).drop_first() =~= self.attraction@.skip(
                    i as int + 1,
                ));
            }
            match &self.attraction[i] {
                BaitAttraction::Heavy { bias, .. } => {
                    total = total + bias.get_normalized_strength(cfg) as i128;
                },
                BaitAttraction::Light { bias, .. } => {
                    total = total - bias.get_normalized_strength(cfg) as i128;
                },
                _ => {},
            }
            i = i + 1;
        }
        proof {
            assert(self.attraction@.skip(n as int) =~= Seq::<BaitAttraction>::empty());
        }
        if total < -100 {
            -100
        } else if total > 100 {
            100
        } else {
            total as i64
        }
    }

    /// The net size bias of this bait in hundredths, clamped to
    /// `[-100, 100]`.
    pub fn get_size_bias(&self, cfg: &BaitConfig) -> (r: i64)
        requires
            cfg.wf(),
        ensures
            r == clamp_bias_spec(size_bias_sum_spec(self.attraction@, *cfg)),
            -100 <= r <= 100,
    {
        let n = self.attraction.len();
        let mut i: usize = 0;
        let mut total: i128 = 0;
        proof {
            assert(self.attraction@.skip(0) =~= self.attraction@);
        }
        while i < n
            invariant
                cfg.wf(),
                n == self.attraction@.len(),
                0 <= i <= n,
                size_bias_sum_spec(self.attraction@, *cfg) == total + size_bias_sum_spec(
                    self.attraction@.skip(i as int),
                    *cfg,
                ),
                -100 * (i as int) <= total <= 100 * (i as int),
            decreases n - i,
        {
            proof {
                assert(self.attraction@.skip(i as int)[0] == self.attraction@[i as int]);
                assert(self.attraction@.skip(i as int).drop_first() =~= self.attraction@.skip(
                    i as int + 1,
                ));
            }
            match &self.attraction[i] {
                BaitAttraction::Large { bias, .. } => {
                    total = total + bias.get_normalized_strength(cfg) as i128;
                },
                BaitAttraction::Small { bias, .. } => {
                    total = total - bias.get_normalized_strength(cfg) as i128;
                },
                _ => {},
            }
            i = i + 1;
        }
        proof {
            assert(self.attraction@.skip(n as int) =~= Seq::<BaitAttraction>::empty());
        }
        if total < -100 {
            -100
        } else if total > 100 {
            100
        } else {
            total as i64
        }
    }
}

/// How strong a generated bait should be; drives the shop's daily stock.
#[derive(Clone, Copy, Debug, PartialEq, Eq, Structural)]
pub enum BaitPotency {
    Low,
    Medium,
    High,
}

/// The pool of base names organic bait can be generated from.
#[derive(Clone, Debug)]
pub struct BaitData {
    pub base_names: Vec<String>,
}


/// The bias strength an attraction carries.
pub open spec fn attraction_bias_spec(a: BaitAttraction) -> BaitBias {
    match a {
        BaitAttraction::Heavy { bias, .. } => bias,
        BaitAttraction::Light { bias, .. } => bias,
        BaitAttraction::Large { bias, .. } => bias,
        BaitAttraction::Small { bias, .. } => bias,
        BaitAttraction::SpecificFish { bias, .. } => bias,
        BaitAttraction::Rarity(_, bias, _) => bias,
        BaitAttraction::Category(_, bias, _) => bias,
    }
}

/// The quality an attraction carries.
pub open spec fn attraction_quality_spec(a: BaitAttraction) -> AttractionQuality {
    match a {
        BaitAttraction::Heavy { quality, .. } => quality,
        BaitAttraction::Light { quality, .. } => quality,
        BaitAttraction::Large { quality, .. } => quality,
        BaitAttraction::Small { quality, .. } => quality,
        BaitAttraction::SpecificFish { quality, .. } => quality,
        BaitAttraction::Rarity(_, _, quality) => quality,
        BaitAttraction::Category(_, _, quality) => quality,
    }
}

/// The desirable targets a good attraction is drawn from: larger or
/// heavier fish, the predator-and-trophy categories, or the high tiers.
pub open spec fn good_attraction_spec(a: BaitAttraction) -> bool {
    match a {
        BaitAttraction::Large { .. } => true,
        BaitAttraction::Heavy { .. } => true,
        BaitAttraction::Category(c, _, _) => c is Predatory || c is Apex || c is Abyssal
            || c is Mythological || c is Ornamental,
        BaitAttraction::Rarity(t, _, _) => t is Rare || t is Elusive || t is Legendary,
        _ => false,
    }
}

/// The undesirable targets a bad attraction is drawn from: smaller or
/// lighter fish, the easy categories, or the low tiers.
pub open spec fn bad_attraction_spec(a: BaitAttraction) -> bool {
    match a {
        BaitAttraction::Small { .. } => true,
        BaitAttraction::Light { .. } => true,
        BaitAttraction::Category(c, _, _) => c is BaitFish || c is Schooling
            || c is BottomFeeder || c is Forager,
        BaitAttraction::Rarity(t, _, _) => t is Common || t is Uncommon,
        _ => false,
    }
}

/// Whether two attractions conflict: mutually exclusive physical traits,
/// or duplicate category or rarity targets.
pub open spec fn conflicts_spec(a: BaitAttraction, b: BaitAttraction) -> bool {
    ||| (a is Heavy && b is Light)
    ||| (a is Light && b is Heavy)
    ||| (a is Large && b is Small)
    ||| (a is Small && b is Large)
    ||| (match (a, b) {
        (BaitAttraction::Category(c1, _, _), BaitAttraction::Category(c2, _, _)) => c1 == c2,
        _ => false,
    })
    ||| (match (a, b) {
        (BaitAttraction::Rarity(r1, _, _), BaitAttraction::Rarity(r2, _, _)) => r1 == r2,
        _ => false,
    })
}

/// No two attractions of the list conflict.
pub open spec fn no_conflicts_spec(attrs: Seq<BaitAttraction>) -> bool {
    forall|i: int, j: int|
        0 <= i < j < attrs.len() ==> !conflicts_spec(#[trigger] attrs[i], #[trigger] attrs[j])
}

/// Whether two attractions conflict.
fn conflicts_with(a: &BaitAttraction, b: &BaitAttraction) -> (r: bool)
    ensures
        r == conflicts_spec(*a, *b),
{
    match (a, b) {
        (BaitAttraction::Heavy { .. }, BaitAttraction::Light { .. }) => true,
        (BaitAttraction::Light { .. }, BaitAttraction::Heavy { .. }) => true,
        (BaitAttraction::Large { .. }, BaitAttraction::Small { .. }) => true,
        (BaitAttraction::Small { .. }, BaitAttraction::Large { .. }) => true,
        (BaitAttraction::Category(c1, _, _), BaitAttraction::Category(c2, _, _)) => c1 == c2,
        (BaitAttraction::Rarity(r1, _, _), BaitAttraction::Rarity(r2, _, _)) => r1 == r2,
        _ => false,
    }
}

/// One random attraction of the given strength: good traits draw from the
/// desirable targets (larger, heavier, predator categories, high tiers),
/// bad traits from the undesirable ones.
fn generate_random_attraction(bias: BaitBias, quality: AttractionQuality) -> (r: BaitAttraction)
    ensures
        attraction_bias_spec(r) == bias,
        attraction_quality_spec(r) == quality,
        quality is Good ==> good_attraction_spec(r),
        quality is Bad ==> bad_attraction_spec(r),
{
    let roll = random_in_range(0, 99);
    match quality {
        AttractionQuality::Good => {
            if roll <= 29 {
                BaitAttraction::Large { bias, quality }
            } else if roll <= 59 {
                BaitAttraction::Heavy { bias, quality }
            } else if roll <= 84 {
                let pick = random_in_range(0, 4);
                let cat = if pick == 0 {
                    FishCategory::Predatory
                } else if pick == 1 {
                    FishCategory::Apex
                } else if pick == 2 {
                    FishCategory::Abyssal
                } else if pick == 3 {
                    FishCategory::Mythological
                } else {
                    FishCategory::Ornamental
                };
                BaitAttraction::Category(cat, bias, quality)
            } else {
                let pick = random_in_range(0, 2);
                let rar = if pick == 0 {
                    FishRarity::Rare
                } else if pick == 1 {
                    FishRarity::Elusive
                } else {
                    FishRarity::Legendary
                };
                BaitAttraction::Rarity(rar, bias, quality)
            }
        },
        AttractionQuality::Bad => {
            if roll <= 29 {
                BaitAttraction::Small { bias, quality }
            } else if roll <= 59 {
                BaitAttraction::Light { bias, quality }
            } else if roll <= 84 {
                let pick = random_in_range(0, 3);
                let cat = if pick == 0 {
                    FishCategory::BaitFish
                } else if pick == 1 {
                    FishCategory::Schooling
                } else if pick == 2 {
                    FishCategory::BottomFeeder
                } else {
                    FishCategory::Forager
                };
                BaitAttraction::Category(cat, bias, quality)
            } else {
                let pick = random_in_range(0, 1);
                let rar = if pick == 0 {
                    FishRarity::Common
                } else {
                    FishRarity::Uncommon
                };
                BaitAttraction::Rarity(rar, bias, quality)
            }
        },
    }
}

/// Tries up to five times to add one non-conflicting attraction of the
/// given strength; gives up (leaving the list unchanged) if every
/// candidate conflicts with an existing attraction.
fn try_add_attraction(attractions: &mut Vec<BaitAttraction>, potency: BaitPotency, bias: BaitBias)
    requires
        no_conflicts_spec(old(attractions)@),
    ensures
        no_conflicts_spec(final(attractions)@),
        old(attractions)@.len() <= final(attractions)@.len() <= old(attractions)@.len() + 1,
        old(attractions)@.len() == 0 ==> final(attractions)@.len() == 1,
{
    let mut attempts: u8 = 0;
    while attempts < 5
        invariant
            no_conflicts_spec(attractions@),
            attractions@.len() == old(attractions)@.len(),
            old(attractions)@.len() == 0 ==> attempts == 0,
        decreases 5 - attempts,
    {
        // Weak bait skews toward bad traits, potent bait toward good ones.
        let quality_roll = random_in_range(0, 99);
        let good_threshold: u64 = match potency {
            BaitPotency::Low => 30,
            BaitPotency::Medium => 60,
            BaitPotency::High => 90,
        };
        let quality = if quality_roll < good_threshold {
            AttractionQuality::Good
        } else {
            AttractionQuality::Bad
        };
        let candidate = generate_random_attraction(bias, quality);
        let n = attractions.len();
        let mut conflicting = false;
        let mut j: usize = 0;
        while j < n
            invariant
                n == attractions@.len(),
                0 <= j <= n,
                conflicting == exists|k: int|
                    0 <= k < j && conflicts_spec(#[trigger] attractions@[k], candidate),
            decreases n - j,
        {
            if conflicts_with(&attractions[j], &candidate) {
                conflicting = true;
            }
            j = j + 1;
        }
        if !conflicting {
            let ghost pre = attractions@;
            attractions.push(candidate);
            proof {
                assert forall|i: int, k: int|
                    0 <= i < k < attractions@.len() implies !conflicts_spec(
                    #[trigger] attractions@[i],
                    #[trigger] attractions@[k],
                ) by {
                    if k == attractions@.len() - 1 {
                        assert(attractions@[i] == pre[i]);
                        assert(attractions@[k] == candidate);
                        assert(!conflicts_spec(pre[i], candidate));
                    } else {
                        assert(attractions@[i] == pre[i] && attractions@[k] == pre[k]);
                        assert(!conflicts_spec(pre[i], pre[k]));
                    }
                }
            }
            return;
        }
        proof {
            // A conflicting candidate presupposes an existing attraction,
            // so against an empty list the first attempt always lands.
            assert(attractions@.len() > 0);
        }
        attempts = attempts + 1;
    }
}


/// The name prefix contributed by the most prominent attraction: the
/// first category target, else the first rarity target, else the first
/// physical trait.
fn name_prefix(attractions: &Vec<BaitAttraction>) -> &'static str {
    let n = attractions.len();
    let mut i: usize = 0;
    while i < n
        invariant
            n == attractions@.len(),
            0 <= i <= n,
        decreases n - i,
    {
        match &attractions[i] {
            BaitAttraction::Category(c, _, _) => {
                return match c {
                    FishCategory::BaitFish => "Feeder",
                    FishCategory::Schooling => "Swarming",
                    FishCategory::Predatory => "Hunter's",
                    FishCategory::BottomFeeder => "Muddy",
                    FishCategory::Ornamental => "Shiny",
                    FishCategory::Forager => "Forager's",
                    FishCategory::Apex => "Apex",
                    FishCategory::Abyssal => "Abyssal",
                    FishCategory::Mythological => "Mystic",
                };
            },
            _ => {},
        }
        i = i + 1;
    }
    let mut i: usize = 0;
    while i < n
        invariant
            n == attractions@.len(),
            0 <= i <= n,
        decreases n - i,
    {
        match &attractions[i] {
            BaitAttraction::Rarity(r, _, _) => {
                return r.label();
            },
            _ => {},
        }
        i = i + 1;
    }
    let mut i: usize = 0;
    while i < n
        invariant
            n == attractions@.len(),
            0 <= i <= n,
        decreases n - i,
    {
        match &attractions[i] {
            BaitAttraction::Large { .. } => {
                return "Big";
            },
            BaitAttraction::Small { .. } => {
                return "Tiny";
            },
            BaitAttraction::Heavy { .. } => {
                return "Heavy";
            },
            BaitAttraction::Light { .. } => {
                return "Light";
            },
            _ => {},
        }
        i = i + 1;
    }
    ""
}

/// Builds the display name from the prefix and the base name.
fn generate_name(base: &str, attractions: &Vec<BaitAttraction>) -> String {
    let prefix = name_prefix(attractions);
    let mut name = String::new();
    if prefix.is_empty() {
        name.append("Standard ");
    } else {
        name.append(prefix);
        name.append(" ");
    }
    name.append(base);
    name
}

/// Builds the description: the kind of consumable and what it attracts.
fn generate_description(attractions: &Vec<BaitAttraction>, is_lure: bool) -> String {
    let mut description = String::new();
    if is_lure {
        description.append("A reusable lure that attracts ");
    } else {
        description.append("A bait that attracts ");
    }
    let n = attractions.len();
    let mut i: usize = 0;
    while i < n
        invariant
            n == attractions@.len(),
            0 <= i <= n,
        decreases n - i,
    {
        if i > 0 {
            description.append(", ");
        }
        match &attractions[i] {
            BaitAttraction::Heavy { .. } => description.append("heavier fish"),
            BaitAttraction::Light { .. } => description.append("lighter fish"),
            BaitAttraction::Large { .. } => description.append("larger fish"),
            BaitAttraction::Small { .. } => description.append("smaller fish"),
            BaitAttraction::SpecificFish { name, .. } => description.append(name.as_str()),
            BaitAttraction::Rarity(r, _, _) => {
                description.append(r.label());
                description.append(" fish");
            },
            BaitAttraction::Category(_, _, _) => description.append("a whole category of fish"),
        }
        i = i + 1;
    }
    description.append(".");
    description
}

impl Bait {
    /// Generates a random bait (or reusable lure) of the given potency,
    /// drawing the organic base name from the catalog pool.
    ///
    /// Whatever the draws produced: the attractions never contradict each
    /// other (no heavy-and-light, no large-and-small, no duplicate
    /// category or rarity targets), there are at most five of them, a
    /// forced lure is reusable, and the price is at least the cheapest
    /// bait tier.
    pub fn generate(potency: BaitPotency, force_lure: bool, data: &BaitData) -> (r: Bait)
        ensures
            no_conflicts_spec(r.attraction@),
            1 <= r.attraction@.len() <= 5,
            potency is Low ==> r.attraction@.len() <= 2,
            potency is Medium ==> r.attraction@.len() <= 3,
            force_lure ==> r.reusable,
            potency is Low ==> (if r.reusable {
                5_000 <= r.price <= 20_000
            } else {
                500 <= r.price <= 2_000
            }),
            potency is Medium ==> (if r.reusable {
                50_000 <= r.price <= 150_000
            } else {
                5_000 <= r.price <= 15_000
            }),
            potency is High ==> (if r.reusable {
                300_000 <= r.price <= 800_000
            } else {
                30_000 <= r.price <= 80_000
            }),
            r.price >= 500,
    {
        // Lures are rare, and more common in higher potencies.
        let is_lure = if force_lure {
            true
        } else {
            let roll = random_in_range(0, 99);
            match potency {
                BaitPotency::Low => roll < 5,
                BaitPotency::Medium => roll < 15,
                BaitPotency::High => roll < 25,
            }
        };
        let mut attractions: Vec<BaitAttraction> = Vec::new();
        match potency {
            BaitPotency::Low => {
                let count = random_in_range(1, 2);
                let mut c: u64 = 0;
                while c < count
                    invariant
                        1 <= count <= 2,
                        no_conflicts_spec(attractions@),
                        attractions@.len() <= c,
                        c >= 1 ==> attractions@.len() >= 1,
                        c <= count,
                    decreases count - c,
                {
                    try_add_attraction(&mut attractions, potency, BaitBias::Low);
                    c = c + 1;
                }
            },
            BaitPotency::Medium => {
                try_add_attraction(&mut attractions, potency, BaitBias::Medium);
                let count = random_in_range(1, 2);
                let mut c: u64 = 0;
                while c < count
                    invariant
                        count <= 2,
                        no_conflicts_spec(attractions@),
                        1 <= attractions@.len() <= 1 + c,
                        c <= count,
                    decreases count - c,
                {
                    try_add_attraction(&mut attractions, potency, BaitBias::Low);
                    c = c + 1;
                }
            },
            BaitPotency::High => {
                let high_count = random_in_range(1, 2);
                let mut c: u64 = 0;
                while c < high_count
                    invariant
                        1 <= high_count <= 2,
                        no_conflicts_spec(attractions@),
                        attractions@.len() <= c,
                        c >= 1 ==> attractions@.len() >= 1,
                        c <= high_count,
                    decreases high_count - c,
                {
                    try_add_attraction(&mut attractions, potency, BaitBias::High);
                    c = c + 1;
                }
                try_add_attraction(&mut attractions, potency, BaitBias::Medium);
                let low_count = random_in_range(1, 2);
                let mut c2: u64 = 0;
                while c2 < low_count
                    invariant
                        low_count <= 2,
                        no_conflicts_spec(attractions@),
                        1 <= attractions@.len() <= 3 + c2,
                        c2 <= low_count,
                    decreases low_count - c2,
                {
                    try_add_attraction(&mut attractions, potency, BaitBias::Low);
                    c2 = c2 + 1;
                }
            },
        }
        let name: String;
        let price_multiplier: u64;
        if is_lure {
            name = generate_name("Lure", &attractions);
            price_multiplier = 10;
        } else {
            let base: String = if data.base_names.len() == 0 {
                "Worm".to_owned()
            } else {
                let pick = random_in_range(0, (data.base_names.len() - 1) as u64);
                data.base_names[pick as usize].clone()
            };
            name = generate_name(base.as_str(), &attractions);
            price_multiplier = 1;
        }
        let description = generate_description(&attractions, is_lure);
        let base_price: u64 = match potency {
            BaitPotency::Low => random_in_range(500, 2000),
            BaitPotency::Medium => random_in_range(5000, 15000),
            BaitPotency::High => random_in_range(30000, 80000),
        };
        Bait {
            name,
            description,
            price: base_price * price_multiplier,
            reusable: is_lure,
            attraction: attractions,
        }
    }
}

} // verus!
