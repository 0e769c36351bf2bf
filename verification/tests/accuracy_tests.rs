//! Sampled accuracy and distribution checks over the unit-interval
//! quantizer: every round trip stays within the advertised bound, and the
//! samples spread evenly across the grid's buckets.

use numquant::quantizer::{dequantize, max_error, quantize};
use numquant::Ratio;

#[test]
fn test_accuracy() {
    test_with_values(255, 100000);
    test_with_values(511, 10000);
    test_with_values(100000, 10000);
    test_with_values(511, 10000);
}

/// For evenly spaced samples `i / iterations` of the unit interval, checks
/// that quantizing and dequantizing returns a value within `max_error`, and
/// that the number of samples landing in each bucket differs by at most one
/// across buckets.
fn test_with_values(q_max: u64, iterations: u64) {
    let epsilon = max_error(q_max);

    let mut histogram: Vec<i64> = vec![0; (q_max + 1) as usize];
    let mut i: u64 = 0;
    while i <= iterations {
        let original = Ratio::new(i as i128, iterations as i128);
        let quantized = quantize(&original, q_max);
        histogram[quantized as usize] += 1;
        let dequantized = dequantize(quantized, q_max);
        // |dequantized - original| <= epsilon, by cross-multiplication over
        // the common denominator q_max * iterations.
        let err_num: i128 =
            dequantized.num * original.den - original.num * dequantized.den;
        let err_abs: i128 = if err_num < 0 { -err_num } else { err_num };
        let common_den: i128 = dequantized.den * original.den;
        if err_abs * epsilon.den > epsilon.num * common_den {
            panic!(
                "too large error on q_max={}: {}/{} => {} => {}/{}",
                q_max, original.num, original.den, quantized, dequantized.num, dequantized.den
            );
        }
        i += 1;
    }

    // Check the number of samples quantized to each bucket.
    let min_count: i64 = *histogram.iter().min().unwrap();
    let max_count: i64 = *histogram.iter().max().unwrap();
    assert!(max_count - min_count <= 1);
}
