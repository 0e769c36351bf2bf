//! Lossy conversion between real-valued quantities and small unsigned
//! integers with a fixed range.
//!
//! A value from a closed domain `[min, max]` is normalized into the unit
//! interval, then quantized onto the integer grid `0..=q_max`; the inverse
//! maps the stored integer back to an approximation of the original value.
//! The round-trip error is bounded by `(max - min) / (q_max + 1)`.
//!
//! All arithmetic here is exact: values are carried as rational numbers
//! ([`Ratio`]), so every contract states precisely which integer a value
//! quantizes to and which rational comes back out. Conversion between
//! machine floating-point and [`Ratio`] is left to callers.

pub mod int_range;
pub mod linear;
pub mod props;
pub mod quantizer;
pub mod ratio;
pub mod value;

pub use int_range::IntRange;
pub use linear::Linear;
pub use quantizer::Quantizer;
pub use ratio::Ratio;
pub use value::Value;
