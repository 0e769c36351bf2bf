//! Tests for the fused domain-to-grid transform.

use numquant::{IntRange, Ratio};

/// `|a/b - c/d| <= e/f` for positive denominators, by cross-multiplication.
fn within(a: i128, b: i128, c: i128, d: i128, e: i128, f: i128) -> bool {
    let diff: i128 = a * d - c * b;
    let diff_abs: i128 = if diff < 0 { -diff } else { diff };
    diff_abs * f <= e * (b * d)
}

#[test]
fn quantize_values() {
    let r = IntRange::new(0, 60, 0xff);
    assert_eq!(r.quantize(&Ratio::from_int(0)), 0x00);
    assert_eq!(r.quantize(&Ratio::from_int(30)), 0x80);
    assert_eq!(r.quantize(&Ratio::from_int(60)), 0xff);
}

#[test]
fn unquantize_values() {
    let r = IntRange::new(0, 100, 0xff);
    let zero = r.dequantize(0x00);
    assert_eq!(zero.num, 0);
    let half = r.dequantize(0x80);
    let err = r.max_error();
    assert!(within(half.num, half.den, 50, 1, err.num, err.den));
    let top = r.dequantize(0xff);
    assert_eq!(top.num, 100 * top.den);
}

#[test]
fn quantize_out_of_range_clamps() {
    let r = IntRange::new(0, 100, 0xff);
    assert_eq!(r.quantize(&Ratio::from_int(-1)), 0x00);
    assert_eq!(r.quantize(&Ratio::new(1001, 10)), 0xff);
}

#[test]
fn boundary_exactness() {
    let r = IntRange::new(-50, 200, 1023);
    assert_eq!(r.quantize(&Ratio::from_int(-50)), 0);
    assert_eq!(r.quantize(&Ratio::from_int(200)), 1023);
    let bottom = r.dequantize(0);
    assert_eq!(bottom.num, -50 * bottom.den);
    let top = r.dequantize(1023);
    assert_eq!(top.num, 200 * top.den);
}

#[test]
fn monotonic_over_domain() {
    let r = IntRange::new(-100, 100, 255);
    let mut prev: u64 = 0;
    let mut i: i64 = -105;
    while i <= 105 {
        let q = r.quantize(&Ratio::from_int(i));
        assert!(q >= prev);
        prev = q;
        i += 1;
    }
    assert_eq!(prev, 255);
}

#[test]
fn range_accessors() {
    let r = IntRange::new(100, 150, 0xff);
    assert_eq!(r.range(), (100, 150));
    assert_eq!(r.q_max(), 0xff);
}

#[test]
fn int_range_try_new_checks_configuration() {
    assert!(IntRange::try_new(5, 5, 255).is_none());
    assert!(IntRange::try_new(7, 5, 255).is_none());
    assert!(IntRange::try_new(0, 100, 0).is_none());
    assert!(IntRange::try_new(0, 100, 0x1_0000_0000).is_none());
    assert!(IntRange::try_new(-0x1_0000_0000, 0, 255).is_none());
    assert!(IntRange::try_new(0, 0x1_0000_0000, 255).is_none());
    let r = IntRange::try_new(0, 100, 255).unwrap();
    assert_eq!(r.range(), (0, 100));
}

#[test]
fn round_trip_bound_over_domain() {
    let r = IntRange::new(100, 150, 0xff);
    let err = r.max_error();
    let mut i: i64 = 100;
    while i <= 150 {
        let q = r.quantize(&Ratio::from_int(i));
        let back = r.dequantize(q);
        assert!(within(back.num, back.den, i as i128, 1, err.num, err.den));
        i += 1;
    }
}

#[test]
fn fused_max_error_formula() {
    let r = IntRange::new(0, 60, 0xff);
    let err = r.max_error();
    assert_eq!(err.num, 60);
    assert_eq!(err.den, 256);
}
