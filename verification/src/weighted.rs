//! Weighted categorical choice from a uniform draw.
//!
//! A weight vector splits the draw space `0..total` into consecutive
//! intervals, one per index, each exactly as long as its weight. Picking
//! with a uniform draw therefore selects index `i` with probability
//! `weights[i] / total` — exactly, not approximately.

use vstd::prelude::*;

verus! {

/// The sum of the first `i` weights.
pub open spec fn cum_weight_spec(ws: Seq<u64>, i: int) -> int
    recommends
        0 <= i <= ws.len(),
    decreases i,
{
    if i <= 0 {
        0
    } else {
        cum_weight_spec(ws, i - 1) + ws[i - 1]
    }
}

/// The sum of all weights.
pub open spec fn total_weight_spec(ws: Seq<u64>) -> int {
    cum_weight_spec(ws, ws.len() as int)
}

/// The index whose interval contains the draw `u`.
pub open spec fn pick_index_spec(ws: Seq<u64>, u: int) -> int
    recommends
        0 <= u < total_weight_spec(ws),
    decreases ws.len(),
{
    if ws.len() == 0 {
        0
    } else if u < ws[0] {
        0
    } else {
        1 + pick_index_spec(ws.drop_first(), u - ws[0])
    }
}

/// Partial sums never decrease.
pub proof fn lemma_cum_weight_monotone(ws: Seq<u64>, i: int, j: int)
    requires
        0 <= i <= j <= ws.len(),
    ensures
        cum_weight_spec(ws, i) <= cum_weight_spec(ws, j),
    decreases j - i,
{
    if i < j {
        lemma_cum_weight_monotone(ws, i, j - 1);
    }
}

/// Dropping the first weight shifts every partial sum down by that weight.
pub proof fn lemma_cum_weight_tail(ws: Seq<u64>, i: int)
    requires
        ws.len() > 0,
        1 <= i <= ws.len(),
    ensures
        cum_weight_spec(ws, i) == ws[0] + cum_weight_spec(ws.drop_first(), i - 1),
    decreases i,
{
    let tail = ws.drop_first();
    if i == 1 {
        assert(cum_weight_spec(ws, 1) == cum_weight_spec(ws, 0) + ws[0]);
        assert(cum_weight_spec(tail, 0) == 0);
    } else {
        lemma_cum_weight_tail(ws, i - 1);
        assert(tail[i - 2] == ws[i - 1]);
        assert(cum_weight_spec(ws, i) == cum_weight_spec(ws, i - 1) + ws[i - 1]);
        assert(cum_weight_spec(tail, i - 1) == cum_weight_spec(tail, i - 2) + tail[i - 2]);
    }
}

/// A draw below the total lands on a valid index, inside that index's
/// interval of the draw space.
pub proof fn lemma_pick_index_in_range(ws: Seq<u64>, u: int)
    requires
        0 <= u < total_weight_spec(ws),
    ensures
        0 <= pick_index_spec(ws, u) < ws.len(),
        cum_weight_spec(ws, pick_index_spec(ws, u)) <= u,
        u < cum_weight_spec(ws, pick_index_spec(ws, u)) + ws[pick_index_spec(ws, u)],
        ws[pick_index_spec(ws, u)] > 0,
    decreases ws.len(),
{
    if ws.len() == 0 {
        assert(total_weight_spec(ws) == 0);
    } else if u < ws[0] {
    } else {
        let tail = ws.drop_first();
        lemma_cum_weight_tail(ws, ws.len() as int);
        lemma_pick_index_in_range(tail, u - ws[0]);
        let j = pick_index_spec(tail, u - ws[0]);
        lemma_cum_weight_tail(ws, j + 1);
        assert(ws[j + 1] == tail[j]);
    }
}

/// The converse: `u` inside index `i`'s interval means `i` is picked.
/// Together with [`lemma_pick_index_in_range`] this says each index owns
/// exactly `ws[i]` of the `total` equally likely draws.
pub proof fn lemma_pick_index_interval(ws: Seq<u64>, u: int, i: int)
    requires
        0 <= i < ws.len(),
        cum_weight_spec(ws, i) <= u,
        u < cum_weight_spec(ws, i) + ws[i],
    ensures
        pick_index_spec(ws, u) == i,
    decreases ws.len(),
{
    lemma_cum_weight_monotone(ws, 0, i);
    if i == 0 {
    } else {
        let tail = ws.drop_first();
        lemma_cum_weight_tail(ws, i);
        assert(tail[i - 1] == ws[i]);
        lemma_pick_index_interval(tail, u - ws[0], i - 1);
    }
}

/// The total is at least any single weight.
pub proof fn lemma_total_ge_elem(ws: Seq<u64>, i: int)
    requires
        0 <= i < ws.len(),
    ensures
        total_weight_spec(ws) >= ws[i],
{
    lemma_cum_weight_monotone(ws, 0, i);
    lemma_cum_weight_monotone(ws, i + 1, ws.len() as int);
    assert(cum_weight_spec(ws, i + 1) == cum_weight_spec(ws, i) + ws[i]);
}

/// A uniform bound on the weights bounds the total by `bound * len`.
pub proof fn lemma_total_weight_upper(ws: Seq<u64>, bound: int)
    requires
        forall|i: int| 0 <= i < ws.len() ==> ws[i] <= bound,
    ensures
        total_weight_spec(ws) <= bound * ws.len(),
    decreases ws.len(),
{
    lemma_cum_upper(ws, ws.len() as int, bound);
}

proof fn lemma_cum_upper(ws: Seq<u64>, i: int, bound: int)
    requires
        0 <= i <= ws.len(),
        forall|j: int| 0 <= j < ws.len() ==> ws[j] <= bound,
    ensures
        cum_weight_spec(ws, i) <= bound * i,
    decreases i,
{
    if i > 0 {
        lemma_cum_upper(ws, i - 1, bound);
        assert(bound * i == bound * (i - 1) + bound) by (nonlinear_arith) {}
    } else {
        assert(bound * 0 == 0) by (nonlinear_arith) {}
    }
}

/// Sums a weight vector.
pub fn sum_weights(ws: &Vec<u64>) -> (t: u64)
    requires
        total_weight_spec(ws@) <= u64::MAX,
    ensures
        t == total_weight_spec(ws@),
{
    let n = ws.len();
    let mut i: usize = 0;
    let mut acc: u64 = 0;
    while i < n
        invariant
            n == ws@.len(),
            0 <= i <= n,
            acc == cum_weight_spec(ws@, i as int),
            total_weight_spec(ws@) <= u64::MAX,
        decreases n - i,
    {
        proof {
            lemma_cum_weight_monotone(ws@, i as int + 1, ws@.len() as int);
        }
        acc = acc + ws[i];
        i = i + 1;
    }
    acc
}

/// Picks the index whose interval of the draw space contains `u`.
pub fn pick_index(ws: &Vec<u64>, u: u64) -> (i: usize)
    requires
        total_weight_spec(ws@) <= u64::MAX,
        0 <= u < total_weight_spec(ws@),
    ensures
        i == pick_index_spec(ws@, u as int),
        i < ws@.len(),
        cum_weight_spec(ws@, i as int) <= u < cum_weight_spec(ws@, i as int) + ws@[i as int],
{
    proof {
        lemma_pick_index_in_range(ws@, u as int);
    }
    let ghost target = pick_index_spec(ws@, u as int);
    let n = ws.len();
    let mut i: usize = 0;
    let mut acc: u64 = 0;
    loop
        invariant
            n == ws@.len(),
            0 <= i <= ws@.len(),
            acc == cum_weight_spec(ws@, i as int),
            acc <= u,
            i <= target < n,
            cum_weight_spec(ws@, target) <= u < cum_weight_spec(ws@, target) + ws@[target],
            total_weight_spec(ws@) <= u64::MAX,
            u < total_weight_spec(ws@),
        ensures
            i == target,
        decreases ws@.len() - i,
    {
        proof {
            if i as int == target {
            } else {
                lemma_cum_weight_monotone(ws@, i as int + 1, target);
            }
            lemma_cum_weight_monotone(ws@, i as int + 1, ws@.len() as int);
        }
        if u < acc + ws[i] {
            proof {
                lemma_pick_index_interval(ws@, u as int, i as int);
            }
            break;
        }
        acc = acc + ws[i];
        i = i + 1;
    }
    i
}

} // verus!
