//! Raw axis readings and their conversion to physical units.
//!
//! A raw reading is a signed 16-bit register value per axis. A normalized
//! vector holds each component exactly, in units of `1/32767` g: the value
//! stored is `raw * range_in_g`, and the implied denominator is
//! `MAX_RAW_MAGNITUDE`. This keeps the conversion
//! `component = raw * range_in_g / max_raw_magnitude` exact, with no
//! rounding at all.

use vstd::prelude::*;

use crate::config::SensitivityRange;
use crate::config::range_in_g_spec;

verus! {

/// Largest positive value a raw 16-bit axis register can report; the implied
/// denominator of every `NormalizedVector` component.
pub const MAX_RAW_MAGNITUDE: i32 = 32767;

/// Largest magnitude a normalized component can reach: the widest range
/// (16 g) applied to the most negative raw reading (magnitude 32768).
pub const COMPONENT_BOUND: i32 = 0x80000;

/// One raw reading: three signed 16-bit axis values, fresh from the device's
/// output registers.
#[derive(Clone, Copy, Debug, PartialEq, Eq, Structural)]
pub struct AxisTriple {
    pub x: i16,
    pub y: i16,
    pub z: i16,
}

/// An acceleration vector in physical units; each component counts
/// `1/32767` g, so a component value of `32767` is exactly one g.
#[derive(Clone, Copy, Debug, PartialEq, Eq, Structural)]
pub struct NormalizedVector {
    pub x: i32,
    pub y: i32,
    pub z: i32,
}

/// Magnitude of an integer.
pub open spec fn abs(v: int) -> int {
    if v >= 0 {
        v
    } else {
        -v
    }
}

/// What one converted component is: the raw reading scaled by the configured
/// range, over the implied denominator `MAX_RAW_MAGNITUDE`.
pub open spec fn scale_component_spec(raw: int, range: SensitivityRange) -> int {
    raw * range_in_g_spec(range)
}

/// Every component of a normalized vector stays within the widest
/// representable magnitude.
pub open spec fn bounded(v: NormalizedVector) -> bool {
    &&& abs(v.x as int) <= COMPONENT_BOUND
    &&& abs(v.y as int) <= COMPONENT_BOUND
    &&& abs(v.z as int) <= COMPONENT_BOUND
}

fn scale_component(raw: i16, range: SensitivityRange) -> (scaled: i32)
    ensures
        scaled == scale_component_spec(raw as int, range),
{
    let wide: i32 = raw as i32;
    match range {
        SensitivityRange::G2 => wide * 2,
        SensitivityRange::G4 => wide * 4,
        SensitivityRange::G8 => wide * 8,
        SensitivityRange::G16 => wide * 16,
    }
}

/// Convert a raw triple to physical units under the given range. Exact and
/// total: defined for every raw triple and every range.
pub fn convert(raw: &AxisTriple, range: SensitivityRange) -> (v: NormalizedVector)
    ensures
        v.x == scale_component_spec(raw.x as int, range),
        v.y == scale_component_spec(raw.y as int, range),
        v.z == scale_component_spec(raw.z as int, range),
        bounded(v),
{
    NormalizedVector {
        x: scale_component(raw.x, range),
        y: scale_component(raw.y, range),
        z: scale_component(raw.z, range),
    }
}

/// Law: conversion never leaves the configured range by more than the
/// representable rounding error. In stored units the bound is
/// `range_in_g * (MAX_RAW_MAGNITUDE + 1)`; divided by the implied
/// denominator that is `range_in_g + range_in_g / 32767`, so each component
/// is at most one part in 32767 beyond the configured bound in g.
pub proof fn lemma_conversion_bounded(raw: int, range: SensitivityRange)
    requires
        i16::MIN <= raw <= i16::MAX,
    ensures
        abs(scale_component_spec(raw, range)) <= range_in_g_spec(range) * (MAX_RAW_MAGNITUDE + 1),
{
    let g = range_in_g_spec(range);
    assert(abs(raw * g) <= g * 32768) by (nonlinear_arith)
        requires
            -32768 <= raw <= 32767,
            0 < g,
    ;
}

/// Law: conversion is linear and sign-preserving. Negating a raw component
/// negates the converted component, for every component value and range.
pub proof fn lemma_conversion_sign_preserving(raw: int, range: SensitivityRange)
    ensures
        scale_component_spec(-raw, range) == -scale_component_spec(raw, range),
{
    let g = range_in_g_spec(range);
    assert((-raw) * g == -(raw * g)) by (nonlinear_arith);
}

} // verus!
