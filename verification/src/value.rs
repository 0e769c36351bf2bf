//! The quantized value container.
//!
//! A [`Value`] owns exactly one raw grid index. Interpretation — which
//! domain it came from and how wide the grid is — is supplied by a
//! ([`Quantizer`], [`Linear`]) pair of stateless policies passed to the
//! converting methods. Equality, ordering and the default are structural
//! on the raw integer; the default is zero, the bottom of the domain.

use vstd::prelude::*;

use crate::int_range::{dequantize_range_num, max_error_frac, quantize_range_val};
use crate::linear::Linear;
use crate::props::lemma_fused_matches_composed;
use crate::quantizer::Quantizer;
use crate::ratio::{Ratio, ARG_DEN_LIMIT};

verus! {

/// One quantized value: a raw stored grid index.
#[derive(Clone, Copy, Debug, PartialEq, Eq, Structural, PartialOrd, Ord, Hash)]
pub struct Value {
    pub raw: u64,
}

impl Value {
    /// Wrap a raw stored integer directly; no computation happens.
    pub fn from_raw(v: u64) -> (r: Value)
        ensures
            r.raw == v,
    {
        Value { raw: v }
    }

    /// The raw stored integer, for serialization; no computation happens.
    pub fn raw(&self) -> (r: u64)
        ensures
            r == self.raw,
    {
        self.raw
    }

    /// Quantize a domain value: normalize it into the unit interval, then
    /// map it onto the quantizer's grid. Out-of-domain values are clamped.
    /// Agrees exactly with the fused transform of
    /// [`IntRange`](crate::int_range::IntRange).
    pub fn from_ratio(value: &Ratio, quantizer: &Quantizer, normalizer: &Linear) -> (r: Value)
        requires
            quantizer.wf(),
            normalizer.wf(),
            value.wf(),
            value.den <= ARG_DEN_LIMIT,
        ensures
            r.raw == quantize_range_val(
                value.num as int,
                value.den as int,
                normalizer.min as int,
                normalizer.max as int,
                quantizer.q_max as int,
            ),
            r.raw <= quantizer.q_max,
    {
        let normalized = normalizer.normalize(value);
        let raw = quantizer.quantize(&normalized);
        proof {
            lemma_fused_matches_composed(
                value.num as int,
                value.den as int,
                normalizer.min as int,
                normalizer.max as int,
                quantizer.q_max as int,
            );
        }
        Value { raw }
    }

    /// Reconstruct the approximate domain value the stored index stands
    /// for: dequantize to the unit interval, then denormalize.
    pub fn to_ratio(&self, quantizer: &Quantizer, normalizer: &Linear) -> (r: Ratio)
        requires
            quantizer.wf(),
            normalizer.wf(),
        ensures
            r.num == dequantize_range_num(
                self.raw as int,
                normalizer.min as int,
                normalizer.max as int,
                quantizer.q_max as int,
            ),
            r.den == quantizer.q_max,
            r.wf(),
    {
        let normalized = quantizer.dequantize(self.raw);
        normalizer.denormalize(&normalized)
    }

    /// Re-quantize a new domain value and replace the stored integer in
    /// place.
    pub fn set(&mut self, value: &Ratio, quantizer: &Quantizer, normalizer: &Linear)
        requires
            quantizer.wf(),
            normalizer.wf(),
            value.wf(),
            value.den <= ARG_DEN_LIMIT,
        ensures
            final(self).raw == quantize_range_val(
                value.num as int,
                value.den as int,
                normalizer.min as int,
                normalizer.max as int,
                quantizer.q_max as int,
            ),
            final(self).raw <= quantizer.q_max,
    {
        let v = Value::from_ratio(value, quantizer, normalizer);
        self.raw = v.raw;
    }

    /// The largest round-trip error for this pairing of policies:
    /// the quantizer's unit-space bound scaled into domain space,
    /// `(max - min) / (q_max + 1)` — the same value the fused transform
    /// reports.
    pub fn max_error(quantizer: &Quantizer, normalizer: &Linear) -> (r: Ratio)
        requires
            quantizer.wf(),
            normalizer.wf(),
        ensures
            r.num == max_error_frac(
                normalizer.min as int,
                normalizer.max as int,
                quantizer.q_max as int,
            ).0,
            r.den == max_error_frac(
                normalizer.min as int,
                normalizer.max as int,
                quantizer.q_max as int,
            ).1,
            r.wf(),
    {
        let unit = quantizer.max_error();
        normalizer.max_error(&unit)
    }
}

impl Default for Value {
    /// The default stored integer is zero: the bottom of the domain.
    fn default() -> (r: Self)
        ensures
            r.raw == 0,
    {
        Value { raw: 0 }
    }
}

} // verus!
