//! Composite scoring engine: folds five structural health scores with five
//! weighting coefficients into one composite scalar.
//!
//! Scores and weights are fixed-point values in micro-units (`1_000_000`
//! stands for `1.0`), so the product of a score and a weight is in
//! pico-units (`1_000_000_000_000` stands for `1.0`). The composite is the
//! exact dot product in pico-units, with no rounding.

use vstd::prelude::*;

verus! {

/// Largest magnitude accepted for a score or weight field, in micro-units
/// (one million in real terms). The bound exists only so that the exact dot
/// product provably fits in an `i128`; scores are conventionally in
/// `[0, 1]` and weights are small coefficients, far inside it.
pub const FIELD_BOUND: i64 = 1_000_000_000_000;

/// The five structural health scores of a node, one per proof layer
/// (continuity, cognition, synergy, adaptation, integrity), in micro-units.
/// Fixed for a node's lifetime.
#[derive(Clone, Copy, Debug, PartialEq, Eq, Structural)]
pub struct Scores {
    pub continuity: i64,
    pub cognition: i64,
    pub synergy: i64,
    pub adaptation: i64,
    pub integrity: i64,
}

/// The five weighting coefficients returned by the external service, one per
/// structural-score dimension, in micro-units. Nothing forces them to sum to
/// one: the composite is a general weighted sum, not a normalized average.
#[derive(Clone, Copy, Debug, PartialEq, Eq, Structural)]
pub struct Weights {
    pub w0: i64,
    pub w1: i64,
    pub w2: i64,
    pub w3: i64,
    pub w4: i64,
}

impl Scores {
    /// Every field within the magnitude bound that keeps the dot product
    /// inside `i128`.
    pub open spec fn bounded(self) -> bool {
        &&& -FIELD_BOUND <= self.continuity <= FIELD_BOUND
        &&& -FIELD_BOUND <= self.cognition <= FIELD_BOUND
        &&& -FIELD_BOUND <= self.synergy <= FIELD_BOUND
        &&& -FIELD_BOUND <= self.adaptation <= FIELD_BOUND
        &&& -FIELD_BOUND <= self.integrity <= FIELD_BOUND
    }
}

impl Weights {
    /// Every field within the magnitude bound that keeps the dot product
    /// inside `i128`.
    pub open spec fn bounded(self) -> bool {
        &&& -FIELD_BOUND <= self.w0 <= FIELD_BOUND
        &&& -FIELD_BOUND <= self.w1 <= FIELD_BOUND
        &&& -FIELD_BOUND <= self.w2 <= FIELD_BOUND
        &&& -FIELD_BOUND <= self.w3 <= FIELD_BOUND
        &&& -FIELD_BOUND <= self.w4 <= FIELD_BOUND
    }
}

/// Decides whether a weight vector is within the magnitude bound; callers
/// establish the scoring engine's precondition with it.
pub fn weights_in_bounds(w: &Weights) -> (b: bool)
    ensures
        b == w.bounded(),
{
    -FIELD_BOUND <= w.w0 && w.w0 <= FIELD_BOUND
        && -FIELD_BOUND <= w.w1 && w.w1 <= FIELD_BOUND
        && -FIELD_BOUND <= w.w2 && w.w2 <= FIELD_BOUND
        && -FIELD_BOUND <= w.w3 && w.w3 <= FIELD_BOUND
        && -FIELD_BOUND <= w.w4 && w.w4 <= FIELD_BOUND
}

/// The exact weighted sum of the five dimensions, as an unbounded integer in
/// pico-units.
pub open spec fn dot(s: Scores, w: Weights) -> int {
    s.continuity * w.w0
        + s.cognition * w.w1
        + s.synergy * w.w2
        + s.adaptation * w.w3
        + s.integrity * w.w4
}

proof fn lemma_mul_bound(a: int, b: int, m: int)
    requires
        -m <= a <= m,
        -m <= b <= m,
        0 <= m,
    ensures
        -(m * m) <= a * b <= m * m,
{
    assert(-(m * m) <= a * b <= m * m) by (nonlinear_arith)
        requires
            -m <= a <= m,
            -m <= b <= m,
            0 <= m,
    ;
}

/// Weighted composite score: the exact dot product of the structural scores
/// and the weight vector, in pico-units. Pure and total on bounded inputs;
/// no side effects, no rounding.
pub fn composite(s: &Scores, w: &Weights) -> (r: i128)
    requires
        s.bounded(),
        w.bounded(),
    ensures
        r as int == dot(*s, *w),
        r > i128::MIN,
{
    proof {
        lemma_mul_bound(s.continuity as int, w.w0 as int, FIELD_BOUND as int);
        lemma_mul_bound(s.cognition as int, w.w1 as int, FIELD_BOUND as int);
        lemma_mul_bound(s.synergy as int, w.w2 as int, FIELD_BOUND as int);
        lemma_mul_bound(s.adaptation as int, w.w3 as int, FIELD_BOUND as int);
        lemma_mul_bound(s.integrity as int, w.w4 as int, FIELD_BOUND as int);
    }
    (s.continuity as i128) * (w.w0 as i128)
        + (s.cognition as i128) * (w.w1 as i128)
        + (s.synergy as i128) * (w.w2 as i128)
        + (s.adaptation as i128) * (w.w3 as i128)
        + (s.integrity as i128) * (w.w4 as i128)
}

} // verus!
