//! Quantization of unit-interval values onto a fixed integer grid.
//!
//! A value in `[0, 1]` is mapped to an integer in `0..=q_max` and back.
//! Scaling by `q_max + 1` before flooring gives every grid index a bucket
//! of equal width `1 / (q_max + 1)`; without the final cap the closing
//! endpoint `1` alone would land one past the top of the grid.

use vstd::arithmetic::mul::{lemma_mul_nonnegative, lemma_mul_upper_bound};
use vstd::prelude::*;

use crate::ratio::{clamp_int, Ratio, DEN_LIMIT};

verus! {

/// Largest supported quantization maximum (`2^32 - 1`): a full 32-bit grid.
pub const Q_MAX_LIMIT: u64 = 0xFFFF_FFFF;

/// The grid index that the unit-interval value `num / den` quantizes to:
/// clamp the value into `[0, 1]`, scale by `q_max + 1`, floor, and cap the
/// result at `q_max`.
pub open spec fn quantize_val(num: int, den: int, q_max: int) -> int {
    let c = clamp_int(num, 0, den);
    let v = ((q_max + 1) * c) / den;
    if v > q_max {
        q_max
    } else {
        v
    }
}

/// Linearly quantize a unit-interval value onto the grid `0..=q_max`.
/// Values outside `[0, 1]` are clamped to the nearest endpoint.
pub fn quantize(value: &Ratio, q_max: u64) -> (r: u64)
    requires
        value.wf(),
        1 <= q_max <= Q_MAX_LIMIT,
    ensures
        r == quantize_val(value.num as int, value.den as int, q_max as int),
        r <= q_max,
{
    let c: i128 = if value.num < 0 {
        0
    } else if value.num > value.den {
        value.den
    } else {
        value.num
    };
    proof {
        lemma_mul_nonnegative(q_max + 1, c as int);
        lemma_mul_upper_bound(q_max + 1, 0x1_0000_0000, c as int, DEN_LIMIT as int);
    }
    let scaled: u128 = (q_max as u128 + 1) * (c as u128);
    let v: u128 = scaled / (value.den as u128);
    if v > q_max as u128 {
        q_max
    } else {
        v as u64
    }
}

/// Recover the unit-interval value `quantized / q_max` from a grid index.
pub fn dequantize(quantized: u64, q_max: u64) -> (r: Ratio)
    requires
        1 <= q_max,
    ensures
        r.num == quantized,
        r.den == q_max,
        r.wf(),
{
    Ratio { num: quantized as i128, den: q_max as i128 }
}

/// The largest distance between a unit-interval value and its
/// reconstruction after quantizing: one bucket width, `1 / (q_max + 1)`.
/// Clamped (out-of-range) inputs are not covered by this bound.
pub fn max_error(q_max: u64) -> (r: Ratio)
    ensures
        r.num == 1,
        r.den == q_max + 1,
        r.wf(),
{
    Ratio { num: 1, den: q_max as i128 + 1 }
}

/// A quantization policy: the integer grid `0..=q_max` onto which
/// unit-interval values are mapped.
#[derive(Clone, Copy, Debug, PartialEq, Eq, Structural, Hash)]
pub struct Quantizer {
    pub q_max: u64,
}

impl Quantizer {
    /// A usable policy: a nonempty grid no wider than 32 bits.
    pub open spec fn wf(self) -> bool {
        1 <= self.q_max <= Q_MAX_LIMIT
    }

    pub fn new(q_max: u64) -> (r: Quantizer)
        requires
            1 <= q_max <= Q_MAX_LIMIT,
        ensures
            r.q_max == q_max,
            r.wf(),
    {
        Quantizer { q_max }
    }

    /// Checked construction: `None` exactly when the grid would be empty
    /// (`q_max == 0`) or too wide to support.
    pub fn try_new(q_max: u64) -> (r: Option<Quantizer>)
        ensures
            r is Some <==> 1 <= q_max <= Q_MAX_LIMIT,
            r matches Some(q) ==> q.q_max == q_max && q.wf(),
    {
        if 1 <= q_max && q_max <= Q_MAX_LIMIT {
            Some(Quantizer { q_max })
        } else {
            None
        }
    }

    /// Maximum for the quantized value: results lie in `0..=q_max`.
    pub fn q_max(&self) -> (r: u64)
        ensures
            r == self.q_max,
    {
        self.q_max
    }

    /// Quantize a unit-interval value onto this policy's grid.
    pub fn quantize(&self, value: &Ratio) -> (r: u64)
        requires
            self.wf(),
            value.wf(),
        ensures
            r == quantize_val(value.num as int, value.den as int, self.q_max as int),
            r <= self.q_max,
    {
        quantize(value, self.q_max)
    }

    /// Recover the unit-interval value a grid index stands for.
    pub fn dequantize(&self, quantized: u64) -> (r: Ratio)
        requires
            self.wf(),
        ensures
            r.num == quantized,
            r.den == self.q_max,
            r.wf(),
    {
        dequantize(quantized, self.q_max)
    }

    /// The largest quantization error for this policy's grid.
    pub fn max_error(&self) -> (r: Ratio)
        requires
            self.wf(),
        ensures
            r.num == 1,
            r.den == self.q_max + 1,
            r.wf(),
    {
        max_error(self.q_max)
    }
}

} // verus!
