//! Linear normalization of a domain value into the unit interval.
//!
//! A [`Linear`] policy carries a closed integer domain `[min, max]` and maps
//! a value `x` to `(x - min) / (max - min)`, clamped into `[0, 1]`; the
//! inverse map extrapolates without clamping. Both directions are exact on
//! [`Ratio`] values.

use vstd::arithmetic::mul::{lemma_mul_is_distributive_sub_other_way, lemma_mul_strictly_positive};
use vstd::prelude::*;

use crate::ratio::{clamp_int, Ratio, ARG_DEN_LIMIT, ARG_NUM_LIMIT};

verus! {

/// Largest magnitude (`2^31`) a domain bound may have, so that the span and
/// all intermediate products stay well within `i128`.
pub const RANGE_LIMIT: i64 = 0x8000_0000;

/// The product of two magnitude-bounded factors is magnitude-bounded by the
/// product of the bounds.
pub(crate) proof fn lemma_mul_magnitude_bound(a: int, b: int, abound: int, bbound: int)
    by (nonlinear_arith)
    requires
        -abound <= a <= abound,
        -bbound <= b <= bbound,
        0 <= abound,
        0 <= bbound,
    ensures
        -(abound * bbound) <= a * b <= abound * bbound,
{
}

/// A normalization policy: the closed domain `[min, max]` that is mapped
/// linearly onto the unit interval.
#[derive(Clone, Copy, Debug, PartialEq, Eq, Structural, Hash)]
pub struct Linear {
    pub min: i64,
    pub max: i64,
}

impl Linear {
    /// A usable policy: a nonempty domain with bounds of moderate size.
    pub open spec fn wf(self) -> bool {
        &&& -RANGE_LIMIT <= self.min
        &&& self.min < self.max
        &&& self.max <= RANGE_LIMIT
    }

    /// The width of the domain.
    pub open spec fn span(self) -> int {
        self.max - self.min
    }

    pub fn new(min: i64, max: i64) -> (r: Linear)
        requires
            -RANGE_LIMIT <= min < max <= RANGE_LIMIT,
        ensures
            r.min == min,
            r.max == max,
            r.wf(),
    {
        Linear { min, max }
    }

    /// Checked construction: `None` exactly when the domain is empty or
    /// reversed (`min >= max`) or a bound is too large.
    pub fn try_new(min: i64, max: i64) -> (r: Option<Linear>)
        ensures
            r is Some <==> -RANGE_LIMIT <= min < max <= RANGE_LIMIT,
            r matches Some(n) ==> n.min == min && n.max == max && n.wf(),
    {
        if -RANGE_LIMIT <= min && min < max && max <= RANGE_LIMIT {
            Some(Linear { min, max })
        } else {
            None
        }
    }

    /// The domain bounds as `(min, max)`.
    pub fn range(&self) -> (r: (i64, i64))
        ensures
            r.0 == self.min,
            r.1 == self.max,
    {
        (self.min, self.max)
    }

    /// Map a domain value onto the unit interval: `(x - min) / (max - min)`,
    /// clamped into `[0, 1]`. Out-of-domain values lose their distance to
    /// the nearest bound permanently.
    pub fn normalize(&self, value: &Ratio) -> (r: Ratio)
        requires
            self.wf(),
            value.wf(),
            value.den <= ARG_DEN_LIMIT,
        ensures
            r.num == clamp_int(
                value.num - self.min * value.den,
                0,
                self.span() * value.den,
            ),
            r.den == self.span() * value.den,
            r.wf(),
            0 <= r.num <= r.den,
    {
        let min_i: i128 = self.min as i128;
        let max_i: i128 = self.max as i128;
        let span_i: i128 = max_i - min_i;
        proof {
            lemma_mul_magnitude_bound(min_i as int, value.den as int, RANGE_LIMIT as int, ARG_DEN_LIMIT as int);
            lemma_mul_magnitude_bound(max_i as int, value.den as int, RANGE_LIMIT as int, ARG_DEN_LIMIT as int);
            lemma_mul_magnitude_bound(span_i as int, value.den as int, 2 * RANGE_LIMIT as int, ARG_DEN_LIMIT as int);
            lemma_mul_strictly_positive(span_i as int, value.den as int);
            lemma_mul_is_distributive_sub_other_way(value.den as int, max_i as int, min_i as int);
        }
        let lo: i128 = min_i * value.den;
        let hi: i128 = max_i * value.den;
        let c: i128 = if value.num < lo {
            lo
        } else if value.num > hi {
            hi
        } else {
            value.num
        };
        Ratio { num: c - lo, den: span_i * value.den }
    }

    /// Map a unit-interval value back into the domain:
    /// `min + (max - min) * n`. No clamping: values outside `[0, 1]`
    /// extrapolate past the domain bounds.
    pub fn denormalize(&self, normalized: &Ratio) -> (r: Ratio)
        requires
            self.wf(),
            normalized.wf(),
            normalized.den <= ARG_DEN_LIMIT,
            -ARG_NUM_LIMIT <= normalized.num <= ARG_NUM_LIMIT,
        ensures
            r.num == self.min * normalized.den + self.span() * normalized.num,
            r.den == normalized.den,
            r.wf(),
    {
        let min_i: i128 = self.min as i128;
        let span_i: i128 = (self.max as i128) - min_i;
        proof {
            lemma_mul_magnitude_bound(min_i as int, normalized.den as int, RANGE_LIMIT as int, ARG_DEN_LIMIT as int);
            lemma_mul_magnitude_bound(span_i as int, normalized.num as int, 2 * RANGE_LIMIT as int, ARG_NUM_LIMIT as int);
        }
        Ratio {
            num: min_i * normalized.den + span_i * normalized.num,
            den: normalized.den,
        }
    }

    /// Propagate a unit-interval error bound into a domain-space error
    /// bound: the map is affine with slope `max - min`, so the bound scales
    /// by exactly that factor.
    pub fn max_error(&self, quantization_error: &Ratio) -> (r: Ratio)
        requires
            self.wf(),
            quantization_error.wf(),
            -ARG_NUM_LIMIT <= quantization_error.num <= ARG_NUM_LIMIT,
        ensures
            r.num == self.span() * quantization_error.num,
            r.den == quantization_error.den,
            r.wf(),
    {
        let span_i: i128 = (self.max as i128) - (self.min as i128);
        proof {
            lemma_mul_magnitude_bound(span_i as int, quantization_error.num as int, 2 * RANGE_LIMIT as int, ARG_NUM_LIMIT as int);
        }
        Ratio {
            num: span_i * quantization_error.num,
            den: quantization_error.den,
        }
    }
}

} // verus!
