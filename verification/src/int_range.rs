//! The fused domain-to-grid transform.
//!
//! [`IntRange`] maps a domain value from `[min, max]` straight onto the
//! integer grid `0..=q_max`, folding normalization and quantization into one
//! computation. On exact rationals it agrees with composing [`Linear`] and
//! [`Quantizer`] step by step (see [`crate::props`]).
//!
//! [`Linear`]: crate::linear::Linear
//! [`Quantizer`]: crate::quantizer::Quantizer

use vstd::arithmetic::mul::{
    lemma_mul_is_distributive_sub_other_way, lemma_mul_nonnegative, lemma_mul_strictly_positive,
    lemma_mul_upper_bound,
};
use vstd::prelude::*;

use crate::linear::{lemma_mul_magnitude_bound, RANGE_LIMIT};
use crate::quantizer::Q_MAX_LIMIT;
use crate::ratio::{clamp_int, Ratio, ARG_DEN_LIMIT, ARG_NUM_LIMIT, DEN_LIMIT};

verus! {

/// The grid index that the domain value `num / den` maps to: clamp the
/// value into `[min, max]`, scale its offset from `min` by
/// `(q_max + 1) / (max - min)`, floor, and cap the result at `q_max`.
pub open spec fn quantize_range_val(num: int, den: int, min: int, max: int, q_max: int) -> int {
    let lo = min * den;
    let hi = max * den;
    let c = clamp_int(num, lo, hi);
    let v = ((q_max + 1) * (c - lo)) / ((max - min) * den);
    if v > q_max {
        q_max
    } else {
        v
    }
}

/// Numerator of the domain value that the grid index `quantized` stands
/// for: the reconstruction is `(min * q_max + (max - min) * quantized)`
/// over the denominator `q_max`.
pub open spec fn dequantize_range_num(quantized: int, min: int, max: int, q_max: int) -> int {
    min * q_max + (max - min) * quantized
}

/// Numerator and denominator of the largest round-trip error for the domain
/// `[min, max]` on the grid `0..=q_max`: `(max - min) / (q_max + 1)`.
pub open spec fn max_error_frac(min: int, max: int, q_max: int) -> (int, int) {
    (max - min, q_max + 1)
}

/// A fused policy: quantizes domain values from `[min, max]` directly to a
/// grid index in `0..=q_max` and back, without materializing the
/// intermediate unit-interval value.
#[derive(Clone, Copy, Debug, PartialEq, Eq, Structural, Hash)]
pub struct IntRange {
    pub min: i64,
    pub max: i64,
    pub q_max: u64,
}

impl IntRange {
    /// A usable policy: a nonempty, moderately sized domain and a nonempty
    /// grid no wider than 32 bits.
    pub open spec fn wf(self) -> bool {
        &&& -RANGE_LIMIT <= self.min
        &&& self.min < self.max
        &&& self.max <= RANGE_LIMIT
        &&& 1 <= self.q_max <= Q_MAX_LIMIT
    }

    /// The width of the domain.
    pub open spec fn span(self) -> int {
        self.max - self.min
    }

    pub fn new(min: i64, max: i64, q_max: u64) -> (r: IntRange)
        requires
            -RANGE_LIMIT <= min < max <= RANGE_LIMIT,
            1 <= q_max <= Q_MAX_LIMIT,
        ensures
            r.min == min,
            r.max == max,
            r.q_max == q_max,
            r.wf(),
    {
        IntRange { min, max, q_max }
    }

    /// Checked construction: `None` exactly when the domain is empty or
    /// reversed, a bound is too large, or the grid is empty or too wide.
    pub fn try_new(min: i64, max: i64, q_max: u64) -> (r: Option<IntRange>)
        ensures
            r is Some <==> (-RANGE_LIMIT <= min < max <= RANGE_LIMIT && 1 <= q_max <= Q_MAX_LIMIT),
            r matches Some(t) ==> t.min == min && t.max == max && t.q_max == q_max && t.wf(),
    {
        if -RANGE_LIMIT <= min && min < max && max <= RANGE_LIMIT && 1 <= q_max
            && q_max <= Q_MAX_LIMIT {
            Some(IntRange { min, max, q_max })
        } else {
            None
        }
    }

    /// The domain bounds as `(min, max)`.
    pub fn range(&self) -> (r: (i64, i64))
        ensures
            r.0 == self.min,
            r.1 == self.max,
    {
        (self.min, self.max)
    }

    /// Maximum for the quantized value: results lie in `0..=q_max`.
    pub fn q_max(&self) -> (r: u64)
        ensures
            r == self.q_max,
    {
        self.q_max
    }

    /// Quantize a domain value onto the grid in one step. Values outside
    /// `[min, max]` are clamped to the nearest bound first.
    pub fn quantize(&self, value: &Ratio) -> (r: u64)
        requires
            self.wf(),
            value.wf(),
            value.den <= ARG_DEN_LIMIT,
        ensures
            r == quantize_range_val(
                value.num as int,
                value.den as int,
                self.min as int,
                self.max as int,
                self.q_max as int,
            ),
            r <= self.q_max,
    {
        let min_i: i128 = self.min as i128;
        let max_i: i128 = self.max as i128;
        let span_i: i128 = max_i - min_i;
        proof {
            lemma_mul_magnitude_bound(min_i as int, value.den as int, RANGE_LIMIT as int, ARG_DEN_LIMIT as int);
            lemma_mul_magnitude_bound(max_i as int, value.den as int, RANGE_LIMIT as int, ARG_DEN_LIMIT as int);
            lemma_mul_magnitude_bound(span_i as int, value.den as int, 2 * RANGE_LIMIT as int, ARG_DEN_LIMIT as int);
            lemma_mul_strictly_positive(span_i as int, value.den as int);
            lemma_mul_is_distributive_sub_other_way(value.den as int, max_i as int, min_i as int);
        }
        let lo: i128 = min_i * value.den;
        let hi: i128 = max_i * value.den;
        let c: i128 = if value.num < lo {
            lo
        } else if value.num > hi {
            hi
        } else {
            value.num
        };
        let offset: i128 = c - lo;
        proof {
            lemma_mul_nonnegative(self.q_max + 1, offset as int);
            lemma_mul_upper_bound(self.q_max + 1, 0x1_0000_0000, offset as int, DEN_LIMIT as int);
        }
        let scaled: u128 = (self.q_max as u128 + 1) * (offset as u128);
        let v: u128 = scaled / ((span_i * value.den) as u128);
        if v > self.q_max as u128 {
            self.q_max
        } else {
            v as u64
        }
    }

    /// Reconstruct the domain value a grid index stands for:
    /// `min + (max - min) * quantized / q_max`, exact as a rational.
    pub fn dequantize(&self, quantized: u64) -> (r: Ratio)
        requires
            self.wf(),
        ensures
            r.num == dequantize_range_num(
                quantized as int,
                self.min as int,
                self.max as int,
                self.q_max as int,
            ),
            r.den == self.q_max,
            r.wf(),
    {
        let min_i: i128 = self.min as i128;
        let span_i: i128 = (self.max as i128) - min_i;
        let q_max_i: i128 = self.q_max as i128;
        proof {
            lemma_mul_magnitude_bound(min_i as int, q_max_i as int, RANGE_LIMIT as int, ARG_NUM_LIMIT as int);
            lemma_mul_magnitude_bound(span_i as int, quantized as int, 2 * RANGE_LIMIT as int, ARG_NUM_LIMIT as int);
        }
        Ratio { num: min_i * q_max_i + span_i * (quantized as i128), den: q_max_i }
    }

    /// The largest distance between an in-domain value and its
    /// reconstruction after quantizing: one bucket width in domain space,
    /// `(max - min) / (q_max + 1)`. Clamped inputs are not covered.
    pub fn max_error(&self) -> (r: Ratio)
        requires
            self.wf(),
        ensures
            r.num == max_error_frac(self.min as int, self.max as int, self.q_max as int).0,
            r.den == max_error_frac(self.min as int, self.max as int, self.q_max as int).1,
            r.wf(),
    {
        Ratio {
            num: (self.max as i128) - (self.min as i128),
            den: self.q_max as i128 + 1,
        }
    }
}

} // verus!
