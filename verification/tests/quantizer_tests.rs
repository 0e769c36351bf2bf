//! Tests for the unit-interval quantizer.

use numquant::quantizer::{dequantize, max_error, quantize, Quantizer};
use numquant::Ratio;

#[test]
fn linear_quantize() {
    let q = Quantizer::new(1000);
    assert_eq!(q.quantize(&Ratio::from_int(0)), 0);
    assert_eq!(q.quantize(&Ratio::new(1, 2)), 500);
    assert_eq!(q.quantize(&Ratio::from_int(1)), 1000);
}

#[test]
fn linear_dequantize() {
    let q = Quantizer::new(1000);
    let zero = q.dequantize(0);
    assert_eq!(zero.num, 0);
    let half = q.dequantize(500);
    assert_eq!(half.num * 2, half.den);
    let one = q.dequantize(1000);
    assert_eq!(one.num, one.den);
}

#[test]
fn u8_type() {
    let q = Quantizer::new(0xff);
    assert_eq!(q.quantize(&Ratio::from_int(0)), 0x00);
    assert_eq!(q.quantize(&Ratio::from_int(1)), 0xff);
}

#[test]
fn u16_type() {
    let q = Quantizer::new(0xffff);
    assert_eq!(q.quantize(&Ratio::from_int(0)), 0x0000);
    assert_eq!(q.quantize(&Ratio::from_int(1)), 0xffff);
}

#[test]
fn u32_type() {
    let q = Quantizer::new(0xffff_ffff);
    assert_eq!(q.quantize(&Ratio::from_int(0)), 0x0000_0000);
    assert_eq!(q.quantize(&Ratio::from_int(1)), 0xffff_ffff);
}

#[test]
fn free_functions_match_methods() {
    let q = Quantizer::new(255);
    let v = Ratio::new(1, 3);
    assert_eq!(quantize(&v, 255), q.quantize(&v));
    assert_eq!(dequantize(77, 255), q.dequantize(77));
    assert_eq!(max_error(255), q.max_error());
}

#[test]
fn quantizer_unit_max_error() {
    let q = Quantizer::new(255);
    let e = q.max_error();
    assert_eq!(e.num, 1);
    assert_eq!(e.den, 256);
}

#[test]
fn quantizer_clamps_unit_interval() {
    let q = Quantizer::new(255);
    assert_eq!(q.quantize(&Ratio::from_int(-3)), 0x00);
    assert_eq!(q.quantize(&Ratio::new(5, 4)), 0xff);
}

#[test]
fn quantizer_try_new_checks_configuration() {
    assert!(Quantizer::try_new(0).is_none());
    assert!(Quantizer::try_new(0x1_0000_0000).is_none());
    let q = Quantizer::try_new(255).unwrap();
    assert_eq!(q.q_max(), 255);
}

#[test]
fn quantize_is_not_the_identity() {
    // A quarter maps to the bucket at a quarter of the grid, not to its
    // own numerator or denominator.
    let q = Quantizer::new(999);
    assert_eq!(q.quantize(&Ratio::new(1, 4)), 250);
}
