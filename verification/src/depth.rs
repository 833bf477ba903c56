//! Depth bands.
//!
//! Depths are measured in hundredths of a foot. The water column is split
//! into five fixed bands; the absolute maximum is 10,000 feet.

use vstd::prelude::*;

use crate::rng::random_in_range;

verus! {

/// One of the five fixed depth bands. The upper bound of each band is
/// exclusive when classifying a depth; the deepest band ends at 10,000 ft.
#[derive(Clone, Copy, Debug, PartialEq, Eq, Structural)]
pub enum Depth {
    /// 0..60 feet
    Shallow,
    /// 60..200 feet
    MidWater,
    /// 200..1000 feet
    Deep,
    /// 1000..4000 feet
    Abyssal,
    /// 4000..=10000 feet
    Hadal,
}

/// The band's `(min, max)` endpoints in hundredths of a foot.
pub open spec fn band_range_spec(d: Depth) -> (int, int) {
    match d {
        Depth::Shallow => (0, 6000),
        Depth::MidWater => (6000, 20000),
        Depth::Deep => (20000, 100000),
        Depth::Abyssal => (100000, 400000),
        Depth::Hadal => (400000, 1000000),
    }
}

/// The band a concrete depth falls into.
pub open spec fn band_of_spec(depth: int) -> Depth {
    if depth < 6000 {
        Depth::Shallow
    } else if depth < 20000 {
        Depth::MidWater
    } else if depth < 100000 {
        Depth::Deep
    } else if depth < 400000 {
        Depth::Abyssal
    } else {
        Depth::Hadal
    }
}

/// All five bands, shallowest first.
pub open spec fn band_ladder_spec() -> Seq<Depth> {
    seq![Depth::Shallow, Depth::MidWater, Depth::Deep, Depth::Abyssal, Depth::Hadal]
}

impl Depth {
    /// The depth range of this band in hundredths of a foot.
    pub fn get_range(&self) -> (r: (u64, u64))
        ensures
            (r.0 as int, r.1 as int) == band_range_spec(*self),
            r.0 < r.1 <= 1000000,
    {
        match self {
            Depth::Shallow => (0, 6000),
            Depth::MidWater => (6000, 20000),
            Depth::Deep => (20000, 100000),
            Depth::Abyssal => (100000, 400000),
            Depth::Hadal => (400000, 1000000),
        }
    }

    /// Classifies a depth (in hundredths of a foot) into its band.
    pub fn from_depth(depth: u64) -> (r: Depth)
        ensures
            r == band_of_spec(depth as int),
    {
        if depth < 6000 {
            Depth::Shallow
        } else if depth < 20000 {
            Depth::MidWater
        } else if depth < 100000 {
            Depth::Deep
        } else if depth < 400000 {
            Depth::Abyssal
        } else {
            Depth::Hadal
        }
    }

    /// A uniformly random depth within this band, endpoints included.
    pub fn random_depth(&self) -> (r: u64)
        ensures
            band_range_spec(*self).0 <= r <= band_range_spec(*self).1,
    {
        let (min, max) = self.get_range();
        random_in_range(min, max)
    }

    /// All five bands, shallowest first.
    pub fn iter() -> (r: Vec<Depth>)
        ensures
            r@ == band_ladder_spec(),
    {
        let mut v: Vec<Depth> = Vec::new();
        v.push(Depth::Shallow);
        v.push(Depth::MidWater);
        v.push(Depth::Deep);
        v.push(Depth::Abyssal);
        v.push(Depth::Hadal);
        proof {
            assert(v@ =~= band_ladder_spec());
        }
        v
    }
}

} // verus!
