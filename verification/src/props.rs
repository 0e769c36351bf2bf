//! The library's laws: proved facts relating the transforms to each other.
//!
//! Every lemma here is stated over the same spec functions that the
//! executable functions' contracts use, so each law carries over directly
//! to the runtime behaviour of [`IntRange`], [`Linear`], [`Quantizer`] and
//! [`Value`].
//!
//! [`IntRange`]: crate::int_range::IntRange
//! [`Linear`]: crate::linear::Linear
//! [`Quantizer`]: crate::quantizer::Quantizer
//! [`Value`]: crate::value::Value

use vstd::arithmetic::div_mod::{
    lemma_div_by_multiple, lemma_div_of0, lemma_div_pos_is_pos, lemma_fundamental_div_mod,
    lemma_mod_division_less_than_divisor,
};
use vstd::arithmetic::mul::{
    lemma_mul_by_zero_is_zero, lemma_mul_inequality, lemma_mul_is_distributive_add_other_way,
    lemma_mul_is_distributive_sub_other_way, lemma_mul_left_inequality, lemma_mul_nonnegative,
    lemma_mul_strictly_positive,
};
use vstd::prelude::*;

use crate::int_range::{dequantize_range_num, max_error_frac, quantize_range_val};
use crate::quantizer::quantize_val;
use crate::ratio::clamp_int;

verus! {

/// Law: the fused domain-to-grid transform agrees exactly with first
/// normalizing into the unit interval and then quantizing. The two
/// evaluation orders are the same function on exact rationals.
pub proof fn lemma_fused_matches_composed(num: int, den: int, min: int, max: int, q_max: int)
    requires
        1 <= den,
        min < max,
    ensures
        quantize_val(
            clamp_int(num - min * den, 0, (max - min) * den),
            (max - min) * den,
            q_max,
        ) == quantize_range_val(num, den, min, max, q_max),
{
    let lo = min * den;
    let hi = max * den;
    let s = (max - min) * den;
    assert(s == hi - lo) by {
        lemma_mul_is_distributive_sub_other_way(den, max, min);
    };
    assert(s > 0) by {
        lemma_mul_strictly_positive(max - min, den);
    };
    let a = clamp_int(num - lo, 0, s);
    assert(a == clamp_int(num, lo, hi) - lo);
    assert(clamp_int(a, 0, s) == a);
}

/// Law: values at or beyond a domain bound quantize to the grid's
/// corresponding endpoint; the distance past the bound is discarded.
pub proof fn lemma_clamping(num: int, den: int, min: int, max: int, q_max: int)
    requires
        1 <= den,
        min < max,
        1 <= q_max,
    ensures
        num <= min * den ==> quantize_range_val(num, den, min, max, q_max) == 0,
        num >= max * den ==> quantize_range_val(num, den, min, max, q_max) == q_max,
{
    let lo = min * den;
    let hi = max * den;
    let s = (max - min) * den;
    assert(s == hi - lo) by {
        lemma_mul_is_distributive_sub_other_way(den, max, min);
    };
    assert(s > 0) by {
        lemma_mul_strictly_positive(max - min, den);
    };
    if num <= lo {
        assert(clamp_int(num, lo, hi) == lo);
        assert((q_max + 1) * (lo - lo) == 0) by {
            lemma_mul_by_zero_is_zero(q_max + 1);
        };
        assert(0int / s == 0) by {
            lemma_div_of0(s);
        };
    }
    if num >= hi {
        assert(clamp_int(num, lo, hi) == hi);
        assert(((q_max + 1) * (hi - lo)) / s == q_max + 1) by {
            lemma_div_by_multiple(q_max + 1, s);
        };
    }
}

/// Law: the domain bounds are represented exactly. `min` quantizes to grid
/// index `0` and `max` to `q_max`; reconstructing those indices gives back
/// `min` and `max` with no error at all.
pub proof fn lemma_boundary_exact(den: int, min: int, max: int, q_max: int)
    requires
        1 <= den,
        min < max,
        1 <= q_max,
    ensures
        quantize_range_val(min * den, den, min, max, q_max) == 0,
        quantize_range_val(max * den, den, min, max, q_max) == q_max,
        dequantize_range_num(0, min, max, q_max) == min * q_max,
        dequantize_range_num(q_max, min, max, q_max) == max * q_max,
{
    lemma_clamping(min * den, den, min, max, q_max);
    lemma_clamping(max * den, den, min, max, q_max);
    assert((max - min) * 0 == 0) by {
        lemma_mul_by_zero_is_zero(max - min);
    };
    assert(min * q_max + (max - min) * q_max == max * q_max) by {
        lemma_mul_is_distributive_add_other_way(q_max, min, max - min);
    };
}

/// Law: the grid's buckets have equal width. A value whose clamped offset
/// from `min` is `d` (over the common denominator `s = (max - min) * den`)
/// lands in bucket `q` exactly when `d / s` lies in
/// `[q / (q_max + 1), (q + 1) / (q_max + 1))`; only the top bucket also
/// absorbs the closing endpoint.
pub proof fn lemma_even_buckets(num: int, den: int, min: int, max: int, q_max: int)
    requires
        1 <= den,
        min < max,
        1 <= q_max,
    ensures
        ({
            let q = quantize_range_val(num, den, min, max, q_max);
            let d = clamp_int(num, min * den, max * den) - min * den;
            let s = (max - min) * den;
            &&& 0 <= q <= q_max
            &&& q * s <= (q_max + 1) * d
            &&& (q < q_max ==> (q_max + 1) * d < (q + 1) * s)
        }),
{
    let lo = min * den;
    let hi = max * den;
    let s = (max - min) * den;
    assert(s == hi - lo) by {
        lemma_mul_is_distributive_sub_other_way(den, max, min);
    };
    assert(s > 0) by {
        lemma_mul_strictly_positive(max - min, den);
    };
    let c = clamp_int(num, lo, hi);
    let d = c - lo;
    let t = (q_max + 1) * d;
    assert(t >= 0) by {
        lemma_mul_nonnegative(q_max + 1, d);
    };
    let q0 = t / s;
    let rem = t % s;
    lemma_fundamental_div_mod(t, s);
    lemma_mod_division_less_than_divisor(t, s);
    lemma_div_pos_is_pos(t, s);
    if q0 > q_max {
        assert(q_max * s <= q0 * s) by {
            lemma_mul_inequality(q_max, q0, s);
        };
    } else {
        assert(t < (q0 + 1) * s) by {
            lemma_mul_is_distributive_add_other_way(s, q0, 1);
        };
    }
}

/// Ring identity behind the round-trip bound: once the scaled offset is
/// split by division into `s * q0 + rem`, the reconstruction error times
/// `q_max + 1` collapses to `q0 * s - rem * q_max`.
proof fn lemma_round_trip_identity(q_max: int, s: int, d: int, q0: int, rem: int)
    by (nonlinear_arith)
    requires
        (q_max + 1) * d == s * q0 + rem,
    ensures
        (q0 * s - d * q_max) * (q_max + 1) == q0 * s - rem * q_max,
{
}

/// Bounds for the collapsed error numerator of
/// [`lemma_round_trip_identity`].
proof fn lemma_round_trip_bounds(q_max: int, s: int, q0: int, rem: int)
    by (nonlinear_arith)
    requires
        0 <= q0 <= q_max,
        0 <= rem <= s,
        0 <= s,
    ensures
        -(s * q_max) <= q0 * s - rem * q_max <= s * q_max,
{
}

/// Law: the round trip is within the advertised bound. For an in-domain
/// value `num / den`, quantizing and reconstructing gives a value within
/// `(max - min) / (q_max + 1)` of the original. Cross-multiplied: the error
/// numerator `back * den - num * q_max` (over the common denominator
/// `q_max * den`) times `q_max + 1` stays within
/// `(max - min) * den * q_max`.
pub proof fn lemma_round_trip(num: int, den: int, min: int, max: int, q_max: int)
    requires
        1 <= den,
        min < max,
        1 <= q_max,
        min * den <= num <= max * den,
    ensures
        ({
            let q = quantize_range_val(num, den, min, max, q_max);
            let back = dequantize_range_num(q, min, max, q_max);
            let err = back * den - num * q_max;
            let bound = (max - min) * den * q_max;
            &&& -bound <= err * (q_max + 1)
            &&& err * (q_max + 1) <= bound
        }),
{
    let span = max - min;
    let lo = min * den;
    let hi = max * den;
    let s = span * den;
    assert(s == hi - lo) by {
        lemma_mul_is_distributive_sub_other_way(den, max, min);
    };
    assert(s > 0) by {
        lemma_mul_strictly_positive(span, den);
    };
    let d = num - lo;
    assert(clamp_int(num, lo, hi) == num);
    let t = (q_max + 1) * d;
    assert(t >= 0) by {
        lemma_mul_nonnegative(q_max + 1, d);
    };
    let q0 = t / s;
    let rem = t % s;
    lemma_fundamental_div_mod(t, s);
    lemma_mod_division_less_than_divisor(t, s);
    lemma_div_pos_is_pos(t, s);
    let bound = s * q_max;
    assert(bound >= 0) by {
        lemma_mul_nonnegative(s, q_max);
    };
    if d == s {
        // The top of the domain reconstructs exactly: the error is zero.
        assert(quantize_range_val(num, den, min, max, q_max) == q_max) by {
            lemma_clamping(num, den, min, max, q_max);
        };
        let back_top = min * q_max + (max - min) * q_max;
        let err_top = back_top * den - num * q_max;
        assert(err_top == 0) by (nonlinear_arith)
            requires
                err_top == (min * q_max + (max - min) * q_max) * den - num * q_max,
                num == max * den,
        ;
        assert(err_top * (q_max + 1) == 0) by {
            lemma_mul_by_zero_is_zero(q_max + 1);
        };
    } else {
        // Strictly inside the top bucket boundary: the cap never bites.
        assert(t < (q_max + 1) * s) by {
            lemma_mul_left_inequality(q_max + 1, d, s);
        };
        if q0 > q_max {
            assert(s * (q_max + 1) <= s * q0) by {
                lemma_mul_left_inequality(s, q_max + 1, q0);
            };
            assert(false);
        }
        assert(quantize_range_val(num, den, min, max, q_max) == q0);
        let back = min * q_max + span * q0;
        assert(back * den - num * q_max == q0 * s - d * q_max) by (nonlinear_arith)
            requires
                back == min * q_max + span * q0,
                num == min * den + d,
                s == span * den,
        ;
        lemma_round_trip_identity(q_max, s, d, q0, rem);
        lemma_round_trip_bounds(q_max, s, q0, rem);
    }
}

/// Cross-denominator monotonicity of flooring division: if
/// `t1 / s1 <= t2 / s2` as rationals, the integer quotients are ordered
/// the same way.
proof fn lemma_div_cross_mono(t1: int, s1: int, t2: int, s2: int)
    requires
        1 <= s1,
        1 <= s2,
        0 <= t1,
        0 <= t2,
        t1 * s2 <= t2 * s1,
    ensures
        t1 / s1 <= t2 / s2,
{
    let f1 = t1 / s1;
    let f2 = t2 / s2;
    lemma_fundamental_div_mod(t1, s1);
    lemma_mod_division_less_than_divisor(t1, s1);
    lemma_fundamental_div_mod(t2, s2);
    lemma_mod_division_less_than_divisor(t2, s2);
    lemma_div_pos_is_pos(t1, s1);
    lemma_div_pos_is_pos(t2, s2);
    assert(f1 * s2 <= t2) by (nonlinear_arith)
        requires
            s1 * f1 <= t1,
            t1 * s2 <= t2 * s1,
            1 <= s1,
            0 <= s2,
    ;
    if f1 > f2 {
        assert((f2 + 1) * s2 <= f1 * s2) by {
            lemma_mul_inequality(f2 + 1, f1, s2);
        };
        assert((f2 + 1) * s2 == f2 * s2 + s2) by {
            lemma_mul_is_distributive_add_other_way(s2, f2, 1);
        };
        assert(false);
    }
}

/// Law: quantization is monotone. If `num1 / den1 <= num2 / den2` as
/// rational values, the first quantizes to a grid index no larger than the
/// second (for the same domain and grid).
pub proof fn lemma_monotonic(
    num1: int,
    den1: int,
    num2: int,
    den2: int,
    min: int,
    max: int,
    q_max: int,
)
    requires
        1 <= den1,
        1 <= den2,
        min < max,
        1 <= q_max,
        num1 * den2 <= num2 * den1,
    ensures
        quantize_range_val(num1, den1, min, max, q_max)
            <= quantize_range_val(num2, den2, min, max, q_max),
{
    let span = max - min;
    let lo1 = min * den1;
    let hi1 = max * den1;
    let s1 = span * den1;
    let lo2 = min * den2;
    let hi2 = max * den2;
    let s2 = span * den2;
    assert(s1 == hi1 - lo1) by {
        lemma_mul_is_distributive_sub_other_way(den1, max, min);
    };
    assert(s1 > 0) by {
        lemma_mul_strictly_positive(span, den1);
    };
    assert(s2 == hi2 - lo2) by {
        lemma_mul_is_distributive_sub_other_way(den2, max, min);
    };
    assert(s2 > 0) by {
        lemma_mul_strictly_positive(span, den2);
    };
    let a1 = num1 - lo1;
    let a2 = num2 - lo2;
    assert(a1 * den2 <= a2 * den1) by (nonlinear_arith)
        requires
            num1 * den2 <= num2 * den1,
            a1 == num1 - min * den1,
            a2 == num2 - min * den2,
            lo1 == min * den1,
            lo2 == min * den2,
    ;
    let d1 = clamp_int(num1, lo1, hi1) - lo1;
    let d2 = clamp_int(num2, lo2, hi2) - lo2;
    assert(d1 == clamp_int(a1, 0, s1));
    assert(d2 == clamp_int(a2, 0, s2));
    // The clamped offsets stay ordered as rational values.
    assert(d1 * den2 <= d2 * den1) by {
        if a1 <= 0 {
            assert(d1 == 0);
            assert(d1 * den2 == 0) by {
                lemma_mul_by_zero_is_zero(den2);
            };
            assert(d2 * den1 >= 0) by {
                lemma_mul_nonnegative(d2, den1);
            };
        } else {
            assert(a2 * den1 > 0) by (nonlinear_arith)
                requires
                    a1 * den2 <= a2 * den1,
                    a1 > 0,
                    den2 >= 1,
            ;
            assert(a2 > 0) by (nonlinear_arith)
                requires
                    a2 * den1 > 0,
                    den1 >= 1,
            ;
            if a2 >= s2 {
                assert(d2 == s2);
                assert(d1 <= s1);
                assert(d1 * den2 <= s1 * den2) by {
                    lemma_mul_inequality(d1, s1, den2);
                };
                assert(s1 * den2 == s2 * den1) by (nonlinear_arith)
                    requires
                        s1 == (max - min) * den1,
                        s2 == (max - min) * den2,
                ;
            } else {
                assert(d2 == a2);
                assert(d1 <= a1);
                assert(d1 * den2 <= a1 * den2) by {
                    lemma_mul_inequality(d1, a1, den2);
                };
            }
        }
    };
    let t1 = (q_max + 1) * d1;
    let t2 = (q_max + 1) * d2;
    assert(t1 >= 0) by {
        lemma_mul_nonnegative(q_max + 1, d1);
    };
    assert(t2 >= 0) by {
        lemma_mul_nonnegative(q_max + 1, d2);
    };
    assert(t1 * s2 <= t2 * s1) by (nonlinear_arith)
        requires
            d1 * den2 <= d2 * den1,
            t1 == (q_max + 1) * d1,
            t2 == (q_max + 1) * d2,
            s1 == (max - min) * den1,
            s2 == (max - min) * den2,
            q_max + 1 > 0,
            max - min > 0,
    ;
    lemma_div_cross_mono(t1, s1, t2, s2);
}

/// Law: composing the error formulas gives the fused formula. The
/// quantizer's unit-space bound `1 / (q_max + 1)`, scaled by the
/// normalizer's span `max - min`, is exactly the fused transform's
/// domain-space bound `(max - min) / (q_max + 1)`.
pub proof fn lemma_error_formula_agreement(min: int, max: int, q_max: int)
    ensures
        (max - min) * 1 == max_error_frac(min, max, q_max).0,
        q_max + 1 == max_error_frac(min, max, q_max).1,
{
}

} // verus!
