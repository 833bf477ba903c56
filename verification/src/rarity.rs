//! The rarity ladder.
//!
//! Six tiers, each with a fixed base weight out of a 1000-point draw space.
//! A cast first draws a rarity, then only species at or below that tier are
//! eligible.

use vstd::prelude::*;

use crate::bait::{rarity_modifier_spec, Bait};
use crate::config::BaitConfig;
use crate::rng::random_in_range;
use crate::weighted::{
    lemma_pick_index_in_range, lemma_pick_index_interval, lemma_total_ge_elem,
    lemma_total_weight_upper, pick_index, pick_index_spec, sum_weights, total_weight_spec,
};

verus! {

/// The rarity of a species: how likely it is to show up when fishing.
#[derive(Clone, Copy, Debug, Hash, PartialEq, Eq, Structural)]
pub enum FishRarity {
    /// 40%
    Common,
    /// 30%
    Uncommon,
    /// 20%
    Rare,
    /// 8.9%
    Elusive,
    /// 1%
    Legendary,
    /// 0.1%
    Mythical,
}

/// Position of a tier on the ladder: `Common` is 0, `Mythical` is 5.
pub open spec fn rank_spec(r: FishRarity) -> int {
    match r {
        FishRarity::Common => 0,
        FishRarity::Uncommon => 1,
        FishRarity::Rare => 2,
        FishRarity::Elusive => 3,
        FishRarity::Legendary => 4,
        FishRarity::Mythical => 5,
    }
}

/// The base weight of a tier, out of a total of 1000.
pub open spec fn weight_spec(r: FishRarity) -> int {
    match r {
        FishRarity::Common => 400,
        FishRarity::Uncommon => 300,
        FishRarity::Rare => 200,
        FishRarity::Elusive => 89,
        FishRarity::Legendary => 10,
        FishRarity::Mythical => 1,
    }
}

/// All six tiers, most common first.
pub open spec fn ladder_spec() -> Seq<FishRarity> {
    seq![
        FishRarity::Common,
        FishRarity::Uncommon,
        FishRarity::Rare,
        FishRarity::Elusive,
        FishRarity::Legendary,
        FishRarity::Mythical,
    ]
}

/// `rarity_le(a, b)` holds when `a` is at or below `b` on the ladder.
pub open spec fn rarity_le(a: FishRarity, b: FishRarity) -> bool {
    rank_spec(a) <= rank_spec(b)
}

/// A tier's weight in the draw space, after an optional bait modifier: the
/// targeted tier's base weight is multiplied by the modifier (in
/// hundredths), every other tier by 100.
pub open spec fn rarity_weight_spec(r: FishRarity, m: Option<(FishRarity, int)>) -> int {
    match m {
        Some(p) => if p.0 == r {
            weight_spec(r) * p.1
        } else {
            weight_spec(r) * 100
        },
        None => weight_spec(r) * 100,
    }
}

/// The biased weight vector over the whole ladder.
pub open spec fn rarity_weights_seq_spec(m: Option<(FishRarity, int)>) -> Seq<u64> {
    Seq::new(6, |i: int| rarity_weight_spec(ladder_spec()[i], m) as u64)
}

/// The frequency law of the unbiased rarity draw: the draw space has
/// exactly 100,000 points, and each tier owns the consecutive run of
/// points whose length is its weight share — 40% for `Common` down to
/// 0.1% for `Mythical`. Over many uniform draws the observed frequency of
/// each tier therefore converges to its configured weight share.
pub proof fn lemma_rarity_draw_share(u: int)
    requires
        0 <= u < 100000,
    ensures
        total_weight_spec(rarity_weights_seq_spec(None)) == 100000,
        pick_index_spec(rarity_weights_seq_spec(None), u) == rank_spec(FishRarity::Common) <==> 0
            <= u < 40000,
        pick_index_spec(rarity_weights_seq_spec(None), u) == rank_spec(FishRarity::Uncommon)
            <==> 40000 <= u < 70000,
        pick_index_spec(rarity_weights_seq_spec(None), u) == rank_spec(FishRarity::Rare) <==> 70000
            <= u < 90000,
        pick_index_spec(rarity_weights_seq_spec(None), u) == rank_spec(FishRarity::Elusive)
            <==> 90000 <= u < 98900,
        pick_index_spec(rarity_weights_seq_spec(None), u) == rank_spec(FishRarity::Legendary)
            <==> 98900 <= u < 99900,
        pick_index_spec(rarity_weights_seq_spec(None), u) == rank_spec(FishRarity::Mythical)
            <==> 99900 <= u < 100000,
{
    let ws = rarity_weights_seq_spec(None);
    assert(ws[0] == 40000 && ws[1] == 30000 && ws[2] == 20000 && ws[3] == 8900 && ws[4] == 1000
        && ws[5] == 100);
    assert(crate::weighted::cum_weight_spec(ws, 0) == 0);
    assert(crate::weighted::cum_weight_spec(ws, 1) == 40000);
    assert(crate::weighted::cum_weight_spec(ws, 2) == 70000);
    assert(crate::weighted::cum_weight_spec(ws, 3) == 90000);
    assert(crate::weighted::cum_weight_spec(ws, 4) == 98900);
    assert(crate::weighted::cum_weight_spec(ws, 5) == 99900);
    assert(crate::weighted::cum_weight_spec(ws, 6) == 100000);
    lemma_pick_index_in_range(ws, u);
    if 0 <= u < 40000 {
        lemma_pick_index_interval(ws, u, 0);
    } else if u < 70000 {
        lemma_pick_index_interval(ws, u, 1);
    } else if u < 90000 {
        lemma_pick_index_interval(ws, u, 2);
    } else if u < 98900 {
        lemma_pick_index_interval(ws, u, 3);
    } else if u < 99900 {
        lemma_pick_index_interval(ws, u, 4);
    } else {
        lemma_pick_index_interval(ws, u, 5);
    }
}

/// The rarity modifier carried by the active bait, if any.
pub open spec fn bait_rarity_mod(bait: Option<&Bait>, cfg: BaitConfig) -> Option<
    (FishRarity, int),
> {
    match bait {
        Some(b) => rarity_modifier_spec(b.attraction@, cfg),
        None => None,
    }
}

/// What the biased rarity draw promises: the result is the tier whose
/// interval of the draw space some uniform draw landed in, for the exact
/// biased weight vector.
pub open spec fn rarity_draw_ok(m: Option<(FishRarity, int)>, r: FishRarity) -> bool {
    exists|u: int|
        0 <= u < total_weight_spec(rarity_weights_seq_spec(m)) && r == ladder_spec()[
            #[trigger] pick_index_spec(rarity_weights_seq_spec(m), u)
        ]
}

impl FishRarity {
    /// The weight of the rarity.
    pub fn get_weight(&self) -> (w: u16)
        ensures
            w == weight_spec(*self),
    {
        match self {
            FishRarity::Common => 400,
            FishRarity::Uncommon => 300,
            FishRarity::Rare => 200,
            FishRarity::Elusive => 89,
            FishRarity::Legendary => 10,
            FishRarity::Mythical => 1,
        }
    }

    /// All rarities, most common first.
    pub fn iter() -> (r: Vec<FishRarity>)
        ensures
            r@ == ladder_spec(),
    {
        let mut v: Vec<FishRarity> = Vec::new();
        v.push(FishRarity::Common);
        v.push(FishRarity::Uncommon);
        v.push(FishRarity::Rare);
        v.push(FishRarity::Elusive);
        v.push(FishRarity::Legendary);
        v.push(FishRarity::Mythical);
        proof {
            assert(v@ =~= ladder_spec());
        }
        v
    }

    /// The rarity whose weight bracket a weight value falls into.
    pub fn from_weight(weight: u16) -> (r: FishRarity)
        ensures
            weight <= 1 ==> r == FishRarity::Mythical,
            1 < weight <= 10 ==> r == FishRarity::Legendary,
            10 < weight <= 89 ==> r == FishRarity::Elusive,
            89 < weight <= 200 ==> r == FishRarity::Rare,
            200 < weight <= 300 ==> r == FishRarity::Uncommon,
            weight > 300 ==> r == FishRarity::Common,
    {
        if weight <= 1 {
            FishRarity::Mythical
        } else if weight <= 10 {
            FishRarity::Legendary
        } else if weight <= 89 {
            FishRarity::Elusive
        } else if weight <= 200 {
            FishRarity::Rare
        } else if weight <= 300 {
            FishRarity::Uncommon
        } else {
            FishRarity::Common
        }
    }

    /// All rarities at or below this one on the ladder, most common first.
    pub fn get_possible(&self) -> (r: Vec<FishRarity>)
        ensures
            r@ == ladder_spec().take(rank_spec(*self) + 1),
            forall|x: FishRarity| r@.contains(x) <==> rarity_le(x, *self),
    {
        let mut v: Vec<FishRarity> = Vec::new();
        v.push(FishRarity::Common);
        if self.rank() >= 1 {
            v.push(FishRarity::Uncommon);
        }
        if self.rank() >= 2 {
            v.push(FishRarity::Rare);
        }
        if self.rank() >= 3 {
            v.push(FishRarity::Elusive);
        }
        if self.rank() >= 4 {
            v.push(FishRarity::Legendary);
        }
        if self.rank() >= 5 {
            v.push(FishRarity::Mythical);
        }
        proof {
            assert(v@ =~= ladder_spec().take(rank_spec(*self) + 1));
            assert forall|x: FishRarity| v@.contains(x) <==> rarity_le(x, *self) by {
                let k = rank_spec(x);
                assert(ladder_spec()[k] == x);
                if rarity_le(x, *self) {
                    assert(v@[k] == x);
                }
            }
        }
        v
    }

    /// The tier's position on the ladder, 0 for `Common` up to 5 for
    /// `Mythical`.
    pub fn rank(&self) -> (r: u8)
        ensures
            r == rank_spec(*self),
    {
        match self {
            FishRarity::Common => 0,
            FishRarity::Uncommon => 1,
            FishRarity::Rare => 2,
            FishRarity::Elusive => 3,
            FishRarity::Legendary => 4,
            FishRarity::Mythical => 5,
        }
    }

    /// Draws a rarity from the ladder, each tier weighted by its base
    /// weight, with the tier targeted by the bait's rarity attraction (if
    /// any) multiplied by the configured bias multiplier.
    ///
    /// The draw itself is random; everything else is pinned down: the
    /// result is the tier whose interval of the draw space the uniform
    /// draw landed in, for the exact biased weight vector.
    pub fn weighted_random(bait: Option<&Bait>, cfg: &BaitConfig) -> (r: FishRarity)
        requires
            cfg.wf(),
        ensures
            rarity_draw_ok(bait_rarity_mod(bait, *cfg), r),
    {
        let modifier: Option<(FishRarity, u64)> = match bait {
            Some(b) => b.get_rarity_modifier(cfg),
            None => None,
        };
        let ghost m = match bait {
            Some(b) => rarity_modifier_spec(b.attraction@, *cfg),
            None => None,
        };
        proof {
            match bait {
                Some(b) => crate::bait::lemma_rarity_modifier_bound(b.attraction@, *cfg),
                None => (),
            }
        }
        let tiers = FishRarity::iter();
        let mut ws: Vec<u64> = Vec::new();
        let mut i: usize = 0;
        while i < 6
            invariant
                tiers@ == ladder_spec(),
                (match modifier {
                    Some((t, mu)) => m == Some((t, mu as int)) && mu <= 10_000,
                    None => m is None,
                }),
                0 <= i <= 6,
                ws@.len() == i,
                forall|j: int|
                    0 <= j < i ==> ws@[j] == rarity_weight_spec(ladder_spec()[j], m) && ws@[j]
                        <= 4_000_000,
            decreases 6 - i,
        {
            let tier = tiers[i];
            let base = tier.get_weight() as u64;
            let w: u64;
            match &modifier {
                Some((t, mu)) => {
                    if *t == tier {
                        proof {
                            assert((base as int) * (*mu as int) <= 400 * 10_000)
                                by (nonlinear_arith)
                                requires 0 <= base <= 400int && 0 <= *mu <= 10_000int,
                            {}
                        }
                        w = base * *mu;
                    } else {
                        w = base * 100;
                    }
                },
                None => {
                    w = base * 100;
                },
            }
            proof {
                assert(w as int == rarity_weight_spec(ladder_spec()[i as int], m));
            }
            ws.push(w);
            i = i + 1;
        }
        proof {
            assert(ws@ =~= rarity_weights_seq_spec(m));
            lemma_total_weight_upper(ws@, 4_000_000);
            // At most one tier is boosted, so an unboosted tier keeps a
            // positive weight and the total cannot be zero.
            match m {
                Some(p) => {
                    if p.0 is Common {
                        assert(rarity_weight_spec(ladder_spec()[1], m) == 30000);
                        lemma_total_ge_elem(ws@, 1);
                    } else {
                        assert(rarity_weight_spec(ladder_spec()[0], m) == 40000);
                        lemma_total_ge_elem(ws@, 0);
                    }
                },
                None => {
                    assert(rarity_weight_spec(ladder_spec()[0], m) == 40000);
                    lemma_total_ge_elem(ws@, 0);
                },
            }
        }
        let total = sum_weights(&ws);
        let u = random_in_range(0, total - 1);
        let idx = pick_index(&ws, u);
        proof {
            lemma_pick_index_in_range(ws@, u as int);
        }
        let r = match idx {
            0 => FishRarity::Common,
            1 => FishRarity::Uncommon,
            2 => FishRarity::Rare,
            3 => FishRarity::Elusive,
            4 => FishRarity::Legendary,
            _ => FishRarity::Mythical,
        };
        proof {
            let seqw = rarity_weights_seq_spec(m);
            assert(r == ladder_spec()[pick_index_spec(seqw, u as int)]);
            assert(0 <= (u as int) && (u as int) < total_weight_spec(seqw));
            assert(bait_rarity_mod(bait, *cfg) == m);
            assert(0 <= (u as int) && (u as int) < total_weight_spec(rarity_weights_seq_spec(m)));
            assert(r == ladder_spec()[pick_index_spec(rarity_weights_seq_spec(m), u as int)]);
            assert(rarity_draw_ok(m, r));
        }
        r
    }

    /// The tier's display name.
    pub fn label(&self) -> (r: &'static str)
        ensures
            self is Common ==> r == "Common",
            self is Uncommon ==> r == "Uncommon",
            self is Rare ==> r == "Rare",
            self is Elusive ==> r == "Elusive",
            self is Legendary ==> r == "Legendary",
            self is Mythical ==> r == "Mythical",
    {
        match self {
            FishRarity::Common => "Common",
            FishRarity::Uncommon => "Uncommon",
            FishRarity::Rare => "Rare",
            FishRarity::Elusive => "Elusive",
            FishRarity::Legendary => "Legendary",
            FishRarity::Mythical => "Mythical",
        }
    }
}

} // verus!
