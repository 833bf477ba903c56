//! Rod loadouts: the equipment a cast is made with.
//!
//! A loadout aggregates a rod, line, reel, sinker, optional bait and the
//! utility upgrades. Derived stats are pure functions of the equipped
//! items, recomputed on demand and never stored.

use vstd::prelude::*;

use crate::attribute::Attribute;
use crate::bait::Bait;
use crate::config::Fishing;
use crate::depth::{band_ladder_spec, band_range_spec, Depth};
use crate::error::ReelError;
use crate::text::{ascii_bytes_to_string, dec_bytes_spec, lemma_dec_bytes_digits, push_dec_bytes};

verus! {

/// The base of the loadout: affects hook chance, strength and speed.
#[derive(Debug)]
pub struct RodBase {
    pub name: String,
    pub description: String,
    /// Price in cents.
    pub price: u64,
    /// How likely it is to hook a fish, in hundredths (100 = standard).
    pub sensitivity: u64,
    /// Multiplies line strength, in hundredths (100 = no bonus).
    pub strength_bonus: u64,
    /// Multiplies reel speed, in hundredths (100 = no bonus).
    pub efficiency_multiplier: u64,
}

impl Clone for RodBase {
    /// A clone of a rod is the rod itself.
    fn clone(&self) -> (res: RodBase)
        ensures
            res == *self,
    {
        RodBase {
            name: self.name.clone(),
            description: self.description.clone(),
            price: self.price,
            sensitivity: self.sensitivity,
            strength_bonus: self.strength_bonus,
            efficiency_multiplier: self.efficiency_multiplier,
        }
    }
}

/// The line: determines the maximum weight before snapping.
#[derive(Debug)]
pub struct Line {
    pub name: String,
    pub description: String,
    /// Price in cents.
    pub price: u64,
    /// Maximum weight (in whole pounds) the line supports before snapping.
    pub strength: u32,
}

impl Clone for Line {
    /// A clone of a line is the line itself.
    fn clone(&self) -> (res: Line)
        ensures
            res == *self,
    {
        Line {
            name: self.name.clone(),
            description: self.description.clone(),
            price: self.price,
            strength: self.strength,
        }
    }
}

/// The reel: determines reeling speed.
#[derive(Debug)]
pub struct Reel {
    pub name: String,
    pub description: String,
    /// Price in cents.
    pub price: u64,
    /// Reeling speed multiplier in hundredths (100 = normal, 200 = twice as fast).
    pub speed_multiplier: u64,
}

impl Clone for Reel {
    /// A clone of a reel is the reel itself.
    fn clone(&self) -> (res: Reel)
        ensures
            res == *self,
    {
        Reel {
            name: self.name.clone(),
            description: self.description.clone(),
            price: self.price,
            speed_multiplier: self.speed_multiplier,
        }
    }
}

/// The sinker: determines the reachable depth range and adds to the load.
#[derive(Debug)]
pub struct Sinker {
    pub name: String,
    pub description: String,
    /// Price in cents.
    pub price: u64,
    /// The sinker's own weight in hundredths of a pound; it adds to the
    /// strain on the line.
    pub weight: u64,
    /// The depth range the sinker reaches, in hundredths of a foot.
    pub depth_range: Attribute,
}

impl Clone for Sinker {
    /// A clone of a sinker is the sinker itself.
    fn clone(&self) -> (res: Sinker)
        ensures
            res == *self,
    {
        Sinker {
            name: self.name.clone(),
            description: self.description.clone(),
            price: self.price,
            weight: self.weight,
            depth_range: self.depth_range,
        }
    }
}

impl Sinker {
    /// Samples the depth this cast reaches from the sinker's triangular
    /// depth distribution. Fails exactly when the range is degenerate.
    pub fn generate_depth(&self) -> (r: Result<u64, ReelError>)
        ensures
            r is Err <==> !self.depth_range.wf(),
            r matches Ok(d) ==> self.depth_range.min <= d <= self.depth_range.max,
    {
        self.depth_range.triangular_rand()
    }

    /// All depth bands that truly overlap the sinker's depth range,
    /// shallowest first.
    pub fn get_effective_depth_categories(&self) -> (r: Vec<Depth>)
        ensures
            r@ == band_ladder_spec().filter(
                |d: Depth|
                    self.depth_range.min <= band_range_spec(d).1 && self.depth_range.max
                        >= band_range_spec(d).0,
            ),
    {
        let ghost pred = |d: Depth|
            self.depth_range.min <= band_range_spec(d).1 && self.depth_range.max >= band_range_spec(
                d,
            ).0;
        let bands = Depth::iter();
        let n = bands.len();
        let mut out: Vec<Depth> = Vec::new();
        let mut i: usize = 0;
        proof {
            reveal(Seq::filter);
            assert(bands@.take(0) =~= Seq::<Depth>::empty());
            assert(bands@.take(0).filter(pred) =~= Seq::<Depth>::empty());
        }
        while i < n
            invariant
                n == bands@.len(),
                0 <= i <= n,
                out@ == bands@.take(i as int).filter(
                    |d: Depth|
                        self.depth_range.min <= band_range_spec(d).1 && self.depth_range.max
                            >= band_range_spec(d).0,
                ),
            decreases n - i,
        {
            let d = bands[i];
            let (band_min, band_max) = d.get_range();
            proof {
                reveal(Seq::filter);
                let taken = bands@.take(i as int + 1);
                assert(taken.drop_last() =~= bands@.take(i as int));
                assert(taken.last() == bands@[i as int]);
            }
            if self.depth_range.min <= band_max && self.depth_range.max >= band_min {
                out.push(d);
            }
            i = i + 1;
        }
        proof {
            assert(bands@.take(n as int) =~= bands@);
        }
        out
    }
}

/// The full loadout a cast is made with. Only the bait and the sinker
/// affect fish generation directly; the rest shapes timing, hook chance
/// and the weight check.
#[derive(Debug)]
pub struct RodLoadout {
    pub rod: RodBase,
    pub line: Line,
    pub reel: Reel,
    pub sinker: Sinker,
    /// Fishing with no bait is allowed.
    pub bait: Option<Bait>,
    /// Tells the player the exact depth a cast reaches.
    pub has_depth_finder: bool,
    /// Shows which fish got away when the line snaps.
    pub has_underwater_camera: bool,
}

/// The maximum load the loadout holds before the line snaps, in
/// hundredths of a pound: line strength times the rod's strength bonus.
pub open spec fn total_strength_spec(l: RodLoadout) -> int {
    l.line.strength * l.rod.strength_bonus
}

/// The combined reeling speed, in hundredths: reel speed times the rod's
/// efficiency bonus.
pub open spec fn total_speed_spec(l: RodLoadout) -> int {
    l.reel.speed_multiplier * l.rod.efficiency_multiplier / 100
}

/// The base wait before a cast resolves, in hundredths of a second:
/// the configured base wait divided by the combined speed, floored at the
/// configured minimum.
pub open spec fn base_catch_time_spec(l: RodLoadout, cfg: Fishing) -> int {
    let standard = cfg.base_cast_wait * 100 / total_speed_spec(l);
    if standard >= cfg.min_cast_wait {
        standard
    } else {
        cfg.min_cast_wait as int
    }
}

impl RodLoadout {
    /// Bounds on the equipped items that keep the derived-stat arithmetic
    /// exact, plus a combined reeling speed above zero.
    pub open spec fn wf(&self) -> bool {
        &&& self.rod.sensitivity <= 10_000
        &&& self.rod.strength_bonus <= 10_000
        &&& self.rod.efficiency_multiplier <= 10_000
        &&& self.line.strength <= 1_000_000
        &&& self.reel.speed_multiplier <= 10_000
        &&& self.sinker.weight <= 1_000_000_000
        &&& self.reel.speed_multiplier * self.rod.efficiency_multiplier >= 100
    }

    /// Runtime check of [`RodLoadout::wf`].
    pub fn check(&self) -> (r: bool)
        ensures
            r == self.wf(),
    {
        let bounds_ok = self.rod.sensitivity <= 10_000 && self.rod.strength_bonus <= 10_000
            && self.rod.efficiency_multiplier <= 10_000 && self.line.strength <= 1_000_000
            && self.reel.speed_multiplier <= 10_000 && self.sinker.weight <= 1_000_000_000;
        if !bounds_ok {
            return false;
        }
        proof {
            assert((self.reel.speed_multiplier as int) * (self.rod.efficiency_multiplier as int)
                <= 10_000int * 10_000int) by (nonlinear_arith)
                requires
                    0 <= self.reel.speed_multiplier as int <= 10_000int,
                    0 <= self.rod.efficiency_multiplier as int <= 10_000int,
            {}
        }
        self.reel.speed_multiplier * self.rod.efficiency_multiplier >= 100
    }

    /// The maximum load before the line snaps, in hundredths of a pound.
    pub fn total_strength(&self) -> (r: u64)
        requires
            self.wf(),
        ensures
            r == total_strength_spec(*self),
            r <= 10_000_000_000,
    {
        proof {
            assert((self.line.strength as int) * (self.rod.strength_bonus as int)
                <= 1_000_000int * 10_000int) by (nonlinear_arith)
                requires
                    0 <= self.line.strength as int <= 1_000_000int,
                    0 <= self.rod.strength_bonus as int <= 10_000int,
            {}
        }
        (self.line.strength as u64) * self.rod.strength_bonus
    }

    /// The combined reeling speed, in hundredths.
    pub fn total_speed_multiplier(&self) -> (r: u64)
        requires
            self.wf(),
        ensures
            r == total_speed_spec(*self),
            1 <= r <= 1_000_000,
    {
        proof {
            assert((self.reel.speed_multiplier as int) * (self.rod.efficiency_multiplier as int)
                <= 10_000int * 10_000int) by (nonlinear_arith)
                requires
                    0 <= self.reel.speed_multiplier as int <= 10_000int,
                    0 <= self.rod.efficiency_multiplier as int <= 10_000int,
            {}
            vstd::arithmetic::div_mod::lemma_div_is_ordered(
                100,
                (self.reel.speed_multiplier as int) * (self.rod.efficiency_multiplier as int),
                100,
            );
            vstd::arithmetic::div_mod::lemma_div_is_ordered(
                (self.reel.speed_multiplier as int) * (self.rod.efficiency_multiplier as int),
                100_000_000int,
                100,
            );
            assert(100_000_000int / 100 == 1_000_000int);
            assert(100int / 100 == 1int);
        }
        self.reel.speed_multiplier * self.rod.efficiency_multiplier / 100
    }

    /// The rod's hook-sensitivity, in hundredths.
    pub fn catch_chance_multiplier(&self) -> (r: u64)
        ensures
            r == self.rod.sensitivity,
    {
        self.rod.sensitivity
    }

    /// The base wait before resolution, in hundredths of a second: the
    /// configured base wait divided by the combined speed, floored at the
    /// configured minimum. The extra weight-dependent term is added by
    /// the cast scheduler once a fish is generated.
    pub fn generate_catch_time(&self, cfg: &Fishing) -> (r: u64)
        requires
            self.wf(),
            cfg.wf(),
        ensures
            r == base_catch_time_spec(*self, *cfg),
            r <= 10_000_000_000,
    {
        let speed = self.total_speed_multiplier();
        proof {
            vstd::arithmetic::div_mod::lemma_div_pos_is_pos(
                (cfg.base_cast_wait as int) * 100,
                speed as int,
            );
            vstd::arithmetic::div_mod::lemma_div_is_ordered_by_denominator(
                (cfg.base_cast_wait as int) * 100,
                1,
                speed as int,
            );
        }
        let standard = cfg.base_cast_wait * 100 / speed;
        if standard >= cfg.min_cast_wait {
            standard
        } else {
            cfg.min_cast_wait
        }
    }
}

impl Default for RodLoadout {
    /// The starter kit: a flexible stick, cotton thread, a rusty can and a
    /// river stone. Weak at everything, but it fishes.
    fn default() -> (r: RodLoadout)
        ensures
            r.wf(),
            r.rod.sensitivity == 80,
            r.rod.strength_bonus == 80,
            r.rod.efficiency_multiplier == 80,
            r.line.strength == 5,
            r.reel.speed_multiplier == 70,
            r.sinker.weight == 10,
            r.sinker.depth_range == (Attribute { min: 0, max: 1500, average: 500 }),
            r.bait is None,
            !r.has_depth_finder,
            !r.has_underwater_camera,
    {
        RodLoadout {
            rod: RodBase {
                name: "Willow Branch".to_owned(),
                description:
                    "A flexible stick found on the ground. Better than using your bare hands, but not by much.".to_owned(),
                price: 0,
                sensitivity: 80,
                strength_bonus: 80,
                efficiency_multiplier: 80,
            },
            line: Line {
                name: "Old Thread".to_owned(),
                description:
                    "Cotton thread borrowed from a sewing kit. Snaps if a fish looks at it wrong.".to_owned(),
                price: 0,
                strength: 5,
            },
            reel: Reel {
                name: "Rusty Can".to_owned(),
                description:
                    "Line wrapped around a rusty tin can. It takes ages to pull anything in.".to_owned(),
                price: 0,
                speed_multiplier: 70,
            },
            sinker: Sinker {
                name: "River Stone".to_owned(),
                description:
                    "A smooth rock tied on with a clumsy knot. Keeps bait just under the surface.".to_owned(),
                price: 0,
                weight: 10,
                depth_range: Attribute { min: 0, max: 1500, average: 500 },
            },
            bait: None,
            has_depth_finder: false,
            has_underwater_camera: false,
        }
    }
}


/// The hook-chance percentage a player sees: base chance times the rod's
/// sensitivity, in whole percent.
pub open spec fn catch_chance_pct_spec(l: RodLoadout, cfg: Fishing) -> int {
    cfg.base_catch_chance * l.rod.sensitivity / 100
}

/// The seconds a player sees for the reeling time: the base wait divided
/// by the combined speed, rounded to whole seconds.
pub open spec fn speed_display_secs_spec(l: RodLoadout, cfg: Fishing) -> int {
    (cfg.base_cast_wait * 100 / total_speed_spec(l) + 50) / 100
}

impl RodLoadout {
    /// The hook chance as text, e.g. `40%`.
    pub fn get_catch_chance_display(&self, cfg: &Fishing) -> (r: String)
        requires
            self.wf(),
            cfg.wf(),
        ensures
            r@ == (dec_bytes_spec(catch_chance_pct_spec(*self, *cfg)) + seq![37u8]).map_values(
                |b: u8| b as char,
            ),
    {
        proof {
            assert((cfg.base_catch_chance as int) * (self.rod.sensitivity as int)
                <= 10_000int * 10_000int) by (nonlinear_arith)
                requires
                    0 <= cfg.base_catch_chance as int <= 10_000int,
                    0 <= self.rod.sensitivity as int <= 10_000int,
            {}
            vstd::arithmetic::div_mod::lemma_div_pos_is_pos(
                (cfg.base_catch_chance as int) * (self.rod.sensitivity as int),
                100,
            );
        }
        let pct = cfg.base_catch_chance * self.rod.sensitivity / 100;
        let mut bytes: Vec<u8> = Vec::new();
        push_dec_bytes(pct, &mut bytes);
        bytes.push(37);
        proof {
            assert(bytes@ =~= dec_bytes_spec(catch_chance_pct_spec(*self, *cfg)) + seq![37u8]);
            lemma_dec_bytes_digits(catch_chance_pct_spec(*self, *cfg));
            assert forall|i: int| 0 <= i < bytes@.len() implies bytes@[i] < 128 by {
                let d = dec_bytes_spec(catch_chance_pct_spec(*self, *cfg));
                if i < d.len() {
                    assert(bytes@[i] == d[i]);
                }
            }
        }
        ascii_bytes_to_string(bytes)
    }

    /// The line capacity as text in whole pounds, e.g. `4lbs`.
    pub fn get_total_strength_display(&self) -> (r: String)
        requires
            self.wf(),
        ensures
            r@ == (dec_bytes_spec(total_strength_spec(*self) / 100) + seq![108u8, 98u8, 115u8])
                .map_values(|b: u8| b as char),
    {
        let strength = self.total_strength() / 100;
        let mut bytes: Vec<u8> = Vec::new();
        push_dec_bytes(strength, &mut bytes);
        bytes.push(108);
        bytes.push(98);
        bytes.push(115);
        proof {
            vstd::arithmetic::div_mod::lemma_div_pos_is_pos(total_strength_spec(*self), 100);
            assert(bytes@ =~= dec_bytes_spec(total_strength_spec(*self) / 100) + seq![
                108u8,
                98u8,
                115u8,
            ]);
            lemma_dec_bytes_digits(total_strength_spec(*self) / 100);
            assert forall|i: int| 0 <= i < bytes@.len() implies bytes@[i] < 128 by {
                let d = dec_bytes_spec(total_strength_spec(*self) / 100);
                if i < d.len() {
                    assert(bytes@[i] == d[i]);
                }
            }
        }
        ascii_bytes_to_string(bytes)
    }

    /// The sinker's depth range as text in whole feet, e.g.
    /// `0m - 15m (Average: 5m)`.
    pub fn get_depth_range_display(&self) -> (r: String)
        ensures
            r@ == (dec_bytes_spec(self.sinker.depth_range.min as int / 100) + seq![
                109u8,
                32u8,
                45u8,
                32u8,
            ] + dec_bytes_spec(self.sinker.depth_range.max as int / 100) + seq![
                109u8,
                32u8,
                40u8,
                65u8,
                118u8,
                101u8,
                114u8,
                97u8,
                103u8,
                101u8,
                58u8,
                32u8,
            ] + dec_bytes_spec(self.sinker.depth_range.average as int / 100) + seq![109u8, 41u8])
                .map_values(|b: u8| b as char),
    {
        let mut bytes: Vec<u8> = Vec::new();
        push_dec_bytes(self.sinker.depth_range.min / 100, &mut bytes);
        bytes.push(109);
        bytes.push(32);
        bytes.push(45);
        bytes.push(32);
        push_dec_bytes(self.sinker.depth_range.max / 100, &mut bytes);
        bytes.push(109);
        bytes.push(32);
        bytes.push(40);
        bytes.push(65);
        bytes.push(118);
        bytes.push(101);
        bytes.push(114);
        bytes.push(97);
        bytes.push(103);
        bytes.push(101);
        bytes.push(58);
        bytes.push(32);
        push_dec_bytes(self.sinker.depth_range.average / 100, &mut bytes);
        bytes.push(109);
        bytes.push(41);
        proof {
            let d1 = dec_bytes_spec(self.sinker.depth_range.min as int / 100);
            let d2 = dec_bytes_spec(self.sinker.depth_range.max as int / 100);
            let d3 = dec_bytes_spec(self.sinker.depth_range.average as int / 100);
            vstd::arithmetic::div_mod::lemma_div_pos_is_pos(self.sinker.depth_range.min as int, 100);
            vstd::arithmetic::div_mod::lemma_div_pos_is_pos(self.sinker.depth_range.max as int, 100);
            vstd::arithmetic::div_mod::lemma_div_pos_is_pos(
                self.sinker.depth_range.average as int,
                100,
            );
            assert(bytes@ =~= d1 + seq![109u8, 32u8, 45u8, 32u8] + d2 + seq![
                109u8,
                32u8,
                40u8,
                65u8,
                118u8,
                101u8,
                114u8,
                97u8,
                103u8,
                101u8,
                58u8,
                32u8,
            ] + d3 + seq![109u8, 41u8]);
            lemma_dec_bytes_digits(self.sinker.depth_range.min as int / 100);
            lemma_dec_bytes_digits(self.sinker.depth_range.max as int / 100);
            lemma_dec_bytes_digits(self.sinker.depth_range.average as int / 100);
            assert forall|i: int| 0 <= i < bytes@.len() implies bytes@[i] < 128 by {
                let a = d1 + seq![109u8, 32u8, 45u8, 32u8];
                let b = a + d2;
                let c = b + seq![
                    109u8,
                    32u8,
                    40u8,
                    65u8,
                    118u8,
                    101u8,
                    114u8,
                    97u8,
                    103u8,
                    101u8,
                    58u8,
                    32u8,
                ];
                let e = c + d3;
                if i < d1.len() {
                    assert(bytes@[i] == d1[i]);
                } else if i < a.len() {
                } else if i < b.len() {
                    assert(bytes@[i] == d2[i - a.len()]);
                } else if i < c.len() {
                } else if i < e.len() {
                    assert(bytes@[i] == d3[i - c.len()]);
                }
            }
        }
        ascii_bytes_to_string(bytes)
    }

    /// The reeling time as text in whole seconds, e.g. `29s`.
    pub fn get_speed_multiplier_display(&self, cfg: &Fishing) -> (r: String)
        requires
            self.wf(),
            cfg.wf(),
        ensures
            r@ == (dec_bytes_spec(speed_display_secs_spec(*self, *cfg)) + seq![115u8]).map_values(
                |b: u8| b as char,
            ),
    {
        let speed = self.total_speed_multiplier();
        proof {
            vstd::arithmetic::div_mod::lemma_div_pos_is_pos(
                (cfg.base_cast_wait as int) * 100,
                speed as int,
            );
        }
        let t = cfg.base_cast_wait * 100 / speed;
        let secs = (t + 50) / 100;
        let mut bytes: Vec<u8> = Vec::new();
        push_dec_bytes(secs, &mut bytes);
        bytes.push(115);
        proof {
            assert(bytes@ =~= dec_bytes_spec(speed_display_secs_spec(*self, *cfg)) + seq![115u8]);
            lemma_dec_bytes_digits(speed_display_secs_spec(*self, *cfg));
            assert forall|i: int| 0 <= i < bytes@.len() implies bytes@[i] < 128 by {
                let d = dec_bytes_spec(speed_display_secs_spec(*self, *cfg));
                if i < d.len() {
                    assert(bytes@[i] == d[i]);
                }
            }
        }
        ascii_bytes_to_string(bytes)
    }
}

} // verus!
