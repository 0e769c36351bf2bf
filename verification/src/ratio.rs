//! Exact rational numbers, the carrier for unquantized values.
//!
//! The quantization pipeline is affine arithmetic over a closed domain, so
//! carrying values as integer fractions keeps every step exact and lets the
//! contracts pin down results to the integer. A `Ratio` is plain data: two
//! `i128` fields, numerator and denominator, with the denominator positive.

use vstd::prelude::*;

verus! {

/// Largest denominator a well-formed [`Ratio`] may carry (`2^92`).
///
/// Chosen so that a denominator times a quantization grid size
/// (at most `2^32`) still fits comfortably in `i128` arithmetic.
pub const DEN_LIMIT: i128 = 0x1000_0000_0000_0000_0000_0000;

/// Denominator cap (`2^60`) for arguments whose denominator gets multiplied
/// by the span of a domain range; the product then stays within [`DEN_LIMIT`].
pub const ARG_DEN_LIMIT: i128 = 0x1000_0000_0000_0000;

/// Numerator magnitude cap (`2^64`) for arguments whose numerator gets
/// multiplied by the span of a domain range.
pub const ARG_NUM_LIMIT: i128 = 0x1_0000_0000_0000_0000;

/// The value `v` constrained to the closed interval `[lo, hi]`.
pub open spec fn clamp_int(v: int, lo: int, hi: int) -> int {
    if v < lo {
        lo
    } else if v > hi {
        hi
    } else {
        v
    }
}

/// An exact rational number `num / den` with a positive denominator.
///
/// Equality and ordering derived on the fields are structural; two ratios
/// with different denominators may denote the same value. Contracts compare
/// values by cross-multiplication instead.
#[derive(Clone, Copy, Debug, PartialEq, Eq, Structural, Hash)]
pub struct Ratio {
    pub num: i128,
    pub den: i128,
}

impl Ratio {
    /// A usable ratio: positive denominator, small enough for the
    /// pipeline's intermediate products to stay within `i128`.
    pub open spec fn wf(self) -> bool {
        1 <= self.den <= DEN_LIMIT
    }

    pub fn new(num: i128, den: i128) -> (r: Ratio)
        requires
            1 <= den <= DEN_LIMIT,
        ensures
            r.num == num,
            r.den == den,
            r.wf(),
    {
        Ratio { num, den }
    }

    /// The integer `v` as a ratio with denominator one.
    pub fn from_int(v: i64) -> (r: Ratio)
        ensures
            r.num == v,
            r.den == 1,
            r.wf(),
    {
        Ratio { num: v as i128, den: 1 }
    }
}

} // verus!
