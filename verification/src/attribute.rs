//! Catalog attributes and the triangular sampler.
//!
//! An [`Attribute`] is a `{min, max, average}` triple in hundredths of a
//! unit. Sampling draws from a triangular distribution over `[min, max]`
//! whose mode is the average, optionally shifted toward `max` or `min` by a
//! bias in `[-1, +1]` (held in hundredths). The sampler is the integer
//! inverse-CDF of the triangular distribution: a uniform draw `u` over
//! `0..=max-min` is mapped through an exact integer square root, so every
//! property of the sampler is proved, not approximated.

use vstd::prelude::*;

use crate::error::ReelError;
use crate::math::{isqrt, isqrt_spec, lemma_isqrt_monotone, lemma_isqrt_square};
use crate::rng::random_in_range;

verus! {

/// Upper bound on any measure the sampler accepts, in hundredths of a unit.
/// Keeps every product inside the sampler within `u64` range.
pub const MAX_MEASURE: u64 = 1_000_000_000;

/// A `{min, max, average}` triple in hundredths of a unit.
///
/// Immutable catalog data; a bias never mutates an attribute in place, it
/// only shifts the mode used for one sample.
#[derive(Clone, Copy, Debug, PartialEq, Eq, Structural)]
pub struct Attribute {
    pub min: u64,
    pub max: u64,
    pub average: u64,
}

impl Attribute {
    /// The catalog invariant: `min <= average <= max`, with all values small
    /// enough for exact integer sampling.
    pub open spec fn wf(&self) -> bool {
        self.min <= self.average <= self.max && self.max <= MAX_MEASURE
    }

    /// Runtime check of the catalog invariant.
    pub fn check(&self) -> (r: bool)
        ensures
            r == self.wf(),
    {
        self.min <= self.average && self.average <= self.max && self.max <= MAX_MEASURE
    }
}

/// The integer inverse-CDF of the triangular distribution over `[a, b]`
/// with mode `c`, evaluated at a uniform draw `u` in `0..=b-a`.
pub open spec fn tri_sample_spec(a: int, b: int, c: int, u: int) -> int
    recommends
        a <= c <= b,
        0 <= u <= b - a,
{
    if u <= c - a {
        a + isqrt_spec((u * (c - a)) as nat)
    } else {
        b - isqrt_spec((((b - a) - u) * (b - c)) as nat)
    }
}

/// Every triangular sample lies in `[a, b]`.
pub proof fn lemma_tri_sample_bounds(a: int, b: int, c: int, u: int)
    requires
        a <= c <= b,
        0 <= u <= b - a,
    ensures
        a <= tri_sample_spec(a, b, c, u) <= b,
{
    if u <= c - a {
        let p = (u * (c - a)) as nat;
        assert(u * (c - a) >= 0) by (nonlinear_arith)
            requires u >= 0 && c - a >= 0,
        {}
        assert(u * (c - a) <= (c - a) * (c - a)) by (nonlinear_arith)
            requires 0 <= u <= c - a,
        {}
        lemma_isqrt_monotone(p, (((c - a)) * ((c - a))) as nat);
        lemma_isqrt_square((c - a) as nat);
        assert(isqrt_spec(p) <= c - a);
    } else {
        let v = (b - a) - u;
        let p = (v * (b - c)) as nat;
        assert(v * (b - c) >= 0) by (nonlinear_arith)
            requires v >= 0 && b - c >= 0,
        {}
        assert(v * (b - c) <= (b - c) * (b - c)) by (nonlinear_arith)
            requires 0 <= v <= b - c,
        {}
        lemma_isqrt_monotone(p, ((b - c) * (b - c)) as nat);
        lemma_isqrt_square((b - c) as nat);
        assert(isqrt_spec(p) <= b - c);
    }
}

/// With the same uniform draw, raising the mode never lowers the sample.
///
/// This is the heart of the bias law: shifting the mode toward `max`
/// shifts every sample (and hence the sampled mean) toward `max`, and
/// shifting it toward `min` shifts every sample toward `min`.
pub proof fn lemma_tri_sample_monotone_in_mode(a: int, b: int, c1: int, c2: int, u: int)
    requires
        a <= c1 <= c2 <= b,
        0 <= u <= b - a,
    ensures
        tri_sample_spec(a, b, c1, u) <= tri_sample_spec(a, b, c2, u),
{
    if u <= c1 - a {
        // Both samples fall on the rising flank.
        assert(u * (c1 - a) <= u * (c2 - a)) by (nonlinear_arith)
            requires u >= 0 && c1 - a <= c2 - a,
        {}
        assert(u * (c1 - a) >= 0) by (nonlinear_arith)
            requires u >= 0 && c1 - a >= 0,
        {}
        lemma_isqrt_monotone((u * (c1 - a)) as nat, (u * (c2 - a)) as nat);
    } else if u > c2 - a {
        // Both samples fall on the falling flank.
        let v = (b - a) - u;
        assert(v * (b - c2) <= v * (b - c1)) by (nonlinear_arith)
            requires v >= 0 && b - c2 <= b - c1,
        {}
        assert(v * (b - c2) >= 0) by (nonlinear_arith)
            requires v >= 0 && b - c2 >= 0,
        {}
        lemma_isqrt_monotone((v * (b - c2)) as nat, (v * (b - c1)) as nat);
    } else {
        // The draw sits between the two modes: the low-mode sample is on the
        // falling flank, the high-mode sample on the rising flank; both are
        // within one draw-width of `a + u`.
        let v = (b - a) - u;
        assert(u * (c2 - a) >= u * u) by (nonlinear_arith)
            requires u >= 0 && u <= c2 - a,
        {}
        assert(u * u >= 0) by (nonlinear_arith)
            requires u >= 0,
        {}
        lemma_isqrt_monotone((u * u) as nat, (u * (c2 - a)) as nat);
        lemma_isqrt_square(u as nat);
        assert(tri_sample_spec(a, b, c2, u) >= a + u);
        assert(v * (b - c1) >= v * v) by (nonlinear_arith)
            requires v >= 0 && v <= b - c1,
        {}
        assert(v * v >= 0) by (nonlinear_arith)
            requires v >= 0,
        {}
        lemma_isqrt_monotone((v * v) as nat, (v * (b - c1)) as nat);
        lemma_isqrt_square(v as nat);
        assert(isqrt_spec((v * (b - c1)) as nat) >= v);
        assert(tri_sample_spec(a, b, c1, u) <= b - v);
    }
}

/// Evaluates the triangular inverse-CDF on concrete values.
pub fn tri_sample_at(a: u64, b: u64, c: u64, u: u64) -> (r: u64)
    requires
        a <= c <= b,
        b <= MAX_MEASURE,
        u <= b - a,
    ensures
        r == tri_sample_spec(a as int, b as int, c as int, u as int),
        a <= r <= b,
{
    proof {
        lemma_tri_sample_bounds(a as int, b as int, c as int, u as int);
    }
    if u <= c - a {
        proof {
            assert((u as int) * ((c - a) as int) <= 1_000_000_000int * 1_000_000_000int)
                by (nonlinear_arith)
                requires 0 <= u as int <= 1_000_000_000int && 0 <= (c - a) as int <= 1_000_000_000int,
            {}
        }
        let q = isqrt(u * (c - a));
        a + q
    } else {
        let v = (b - a) - u;
        proof {
            assert((v as int) * ((b - c) as int) <= 1_000_000_000int * 1_000_000_000int)
                by (nonlinear_arith)
                requires 0 <= v as int <= 1_000_000_000int && 0 <= (b - c) as int <= 1_000_000_000int,
            {}
        }
        let q = isqrt(v * (b - c));
        b - q
    }
}

/// The sampling mode after a bias shift: the average moved toward `max`
/// by `bias/100` of the remaining headroom when the bias is positive, or
/// toward `min` when it is negative.
pub open spec fn mode_spec(attr: Attribute, bias: int) -> int
    recommends
        attr.wf(),
        -100 <= bias <= 100,
{
    if bias >= 0 {
        attr.average + (attr.max - attr.average) * bias / 100
    } else {
        attr.average - (attr.average - attr.min) * (-bias) / 100
    }
}

/// The shifted mode stays inside `[min, max]`; the extreme biases reach the
/// endpoints exactly, and a zero bias leaves the average untouched.
pub proof fn lemma_mode_bounds(attr: Attribute, bias: int)
    requires
        attr.wf(),
        -100 <= bias <= 100,
    ensures
        attr.min <= mode_spec(attr, bias) <= attr.max,
        bias == 0 ==> mode_spec(attr, bias) == attr.average,
        bias == 100 ==> mode_spec(attr, bias) == attr.max,
        bias == -100 ==> mode_spec(attr, bias) == attr.min,
    decreases 0int,
{
    if bias >= 0 {
        let head = attr.max - attr.average;
        assert(head * bias >= 0) by (nonlinear_arith)
            requires head >= 0 && bias >= 0,
        {}
        assert(head * bias <= head * 100) by (nonlinear_arith)
            requires head >= 0 && bias <= 100,
        {}
        vstd::arithmetic::div_mod::lemma_div_is_ordered(head * bias, head * 100, 100);
        vstd::arithmetic::div_mod::lemma_div_by_multiple(head, 100);
        assert(head * bias / 100 <= head);
        vstd::arithmetic::div_mod::lemma_div_pos_is_pos(head * bias, 100);
        if bias == 0 {
            assert(head * 0 == 0) by (nonlinear_arith) {}
        }
        if bias == 100 {
            assert(head * 100 / 100 == head);
        }
    } else {
        let head = attr.average - attr.min;
        assert(head * (-bias) >= 0) by (nonlinear_arith)
            requires head >= 0 && -bias >= 0,
        {}
        assert(head * (-bias) <= head * 100) by (nonlinear_arith)
            requires head >= 0 && -bias <= 100,
        {}
        vstd::arithmetic::div_mod::lemma_div_is_ordered(head * (-bias), head * 100, 100);
        vstd::arithmetic::div_mod::lemma_div_by_multiple(head, 100);
        assert(head * (-bias) / 100 <= head);
        vstd::arithmetic::div_mod::lemma_div_pos_is_pos(head * (-bias), 100);
        if bias == -100 {
            assert(head * 100 / 100 == head);
        }
    }
}

/// The shifted mode is monotone in the bias.
pub proof fn lemma_mode_monotone(attr: Attribute, b1: int, b2: int)
    requires
        attr.wf(),
        -100 <= b1 <= b2 <= 100,
    ensures
        mode_spec(attr, b1) <= mode_spec(attr, b2),
{
    lemma_mode_bounds(attr, b1);
    lemma_mode_bounds(attr, b2);
    if b1 >= 0 {
        let head = attr.max - attr.average;
        assert(head * b1 <= head * b2) by (nonlinear_arith)
            requires head >= 0 && b1 <= b2,
        {}
        vstd::arithmetic::div_mod::lemma_div_is_ordered(head * b1, head * b2, 100);
    } else if b2 < 0 {
        let head = attr.average - attr.min;
        assert(head * (-b2) <= head * (-b1)) by (nonlinear_arith)
            requires head >= 0 && -b2 <= -b1,
        {}
        vstd::arithmetic::div_mod::lemma_div_is_ordered(head * (-b2), head * (-b1), 100);
    } else {
        // b1 < 0 <= b2: the first mode is at or below the average, the
        // second at or above it.
        let down = attr.average - attr.min;
        let up = attr.max - attr.average;
        assert(down * (-b1) >= 0) by (nonlinear_arith)
            requires down >= 0 && -b1 >= 0,
        {}
        assert(up * b2 >= 0) by (nonlinear_arith)
            requires up >= 0 && b2 >= 0,
        {}
        vstd::arithmetic::div_mod::lemma_div_pos_is_pos(down * (-b1), 100);
        vstd::arithmetic::div_mod::lemma_div_pos_is_pos(up * b2, 100);
    }
}

/// One biased triangular sample at a concrete draw.
pub open spec fn biased_sample_spec(attr: Attribute, bias: int, u: int) -> int
    recommends
        attr.wf(),
        -100 <= bias <= 100,
        0 <= u <= attr.max - attr.min,
{
    tri_sample_spec(attr.min as int, attr.max as int, mode_spec(attr, bias), u)
}

/// The bias law: with the same uniform draw, a larger bias never lowers the
/// sample. A bias of `+1.0` therefore shifts the sampled mean toward `max`,
/// a bias of `-1.0` toward `min`, and a bias of `0` reproduces the unbiased
/// sampler exactly. (At the extreme draws `u == 0` and `u == max - min` the
/// sample is pinned to an endpoint, so the shift is monotone, not strict.)
pub proof fn lemma_bias_shifts_sample(attr: Attribute, b1: int, b2: int, u: int)
    requires
        attr.wf(),
        -100 <= b1 <= b2 <= 100,
        0 <= u <= attr.max - attr.min,
    ensures
        biased_sample_spec(attr, b1, u) <= biased_sample_spec(attr, b2, u),
        biased_sample_spec(attr, 0, u) == tri_sample_spec(
            attr.min as int,
            attr.max as int,
            attr.average as int,
            u,
        ),
{
    lemma_mode_bounds(attr, b1);
    lemma_mode_bounds(attr, b2);
    lemma_mode_bounds(attr, 0);
    lemma_mode_monotone(attr, b1, b2);
    lemma_tri_sample_monotone_in_mode(
        attr.min as int,
        attr.max as int,
        mode_spec(attr, b1),
        mode_spec(attr, b2),
        u,
    );
}

impl Attribute {
    /// Evaluates one biased sample at a concrete draw. This is the
    /// deterministic core of the sampler: everything random about
    /// [`Attribute::triangular_rand_biased`] is the draw itself.
    pub fn sample_at(&self, bias: i64, u: u64) -> (r: u64)
        requires
            self.wf(),
            -100 <= bias <= 100,
            u <= self.max - self.min,
        ensures
            r == biased_sample_spec(*self, bias as int, u as int),
            self.min <= r <= self.max,
    {
        proof {
            lemma_mode_bounds(*self, bias as int);
        }
        let mode: u64 = if bias >= 0 {
            let head = self.max - self.average;
            proof {
                assert((head as int) * (bias as int) <= 1_000_000_000int * 100int)
                    by (nonlinear_arith)
                    requires 0 <= head as int <= 1_000_000_000int && 0 <= bias as int <= 100int,
                {}
            }
            self.average + head * (bias as u64) / 100
        } else {
            let head = self.average - self.min;
            let neg: u64 = (-bias) as u64;
            proof {
                assert((head as int) * (neg as int) <= 1_000_000_000int * 100int)
                    by (nonlinear_arith)
                    requires 0 <= head as int <= 1_000_000_000int && 0 <= neg as int <= 100int,
                {}
            }
            self.average - head * neg / 100
        };
        tri_sample_at(self.min, self.max, mode, u)
    }

    /// Draws one value from the attribute's triangular distribution.
    ///
    /// Fails (reported, never silently defaulted) when the triple is
    /// degenerate: `min > average`, `average > max`, or out of sampling
    /// range. Every successful sample lies in `[min, max]` and is the
    /// inverse-CDF image of some uniform draw.
    pub fn triangular_rand(&self) -> (r: Result<u64, ReelError>)
        ensures
            r is Err <==> !self.wf(),
            r matches Ok(v) ==> self.min <= v <= self.max,
            r matches Ok(v) ==> exists|u: int|
                0 <= u <= self.max - self.min && v == #[trigger] biased_sample_spec(*self, 0, u),
    {
        self.triangular_rand_biased(0)
    }

    /// Draws one value from the triangular distribution with the mode
    /// shifted by `bias` hundredths toward `max` (positive) or `min`
    /// (negative).
    pub fn triangular_rand_biased(&self, bias: i64) -> (r: Result<u64, ReelError>)
        requires
            -100 <= bias <= 100,
        ensures
            r is Err <==> !self.wf(),
            r matches Ok(v) ==> self.min <= v <= self.max,
            r matches Ok(v) ==> exists|u: int|
                0 <= u <= self.max - self.min && v == #[trigger] biased_sample_spec(
                    *self,
                    bias as int,
                    u,
                ),
    {
        if !self.check() {
            return Err(ReelError::MathError);
        }
        let u = random_in_range(0, self.max - self.min);
        let v = self.sample_at(bias, u);
        proof {
            assert(v == biased_sample_spec(*self, bias as int, u as int));
        }
        Ok(v)
    }
}

} // verus!
