//! Device configuration values: output data rate and full-scale sensitivity
//! range, their numeric meanings, and the register writes that install them.

use vstd::prelude::*;

verus! {

/// Control register that holds the output-data-rate selection.
pub const CTRL_REG1_A: u8 = 0x20;

/// Control register that holds the full-scale sensitivity selection.
pub const CTRL_REG4_A: u8 = 0x23;

/// The sampling frequencies the accelerometer can be configured to.
#[derive(Clone, Copy, Debug, PartialEq, Eq, Structural)]
pub enum OutputDataRate {
    Hz1,
    Hz10,
    Hz25,
    Hz50,
    Hz100,
    Hz200,
    Hz400,
}

/// The full-scale measurement spans the accelerometer can be configured to,
/// named by their bound in multiples of gravitational acceleration: `G2`
/// measures -2 g ..= +2 g, and so on.
#[derive(Clone, Copy, Debug, PartialEq, Eq, Structural)]
pub enum SensitivityRange {
    G2,
    G4,
    G8,
    G16,
}

/// The frequency, in hertz, that an `OutputDataRate` selects.
pub open spec fn rate_in_hz_spec(rate: OutputDataRate) -> int {
    match rate {
        OutputDataRate::Hz1 => 1,
        OutputDataRate::Hz10 => 10,
        OutputDataRate::Hz25 => 25,
        OutputDataRate::Hz50 => 50,
        OutputDataRate::Hz100 => 100,
        OutputDataRate::Hz200 => 200,
        OutputDataRate::Hz400 => 400,
    }
}

/// The full-scale bound, in g, that a `SensitivityRange` selects.
pub open spec fn range_in_g_spec(range: SensitivityRange) -> int {
    match range {
        SensitivityRange::G2 => 2,
        SensitivityRange::G4 => 4,
        SensitivityRange::G8 => 8,
        SensitivityRange::G16 => 16,
    }
}

/// Numeric sampling frequency in hertz. Total over the enumeration: every
/// rate maps to exactly one frequency.
pub fn rate_in_hz(rate: OutputDataRate) -> (hz: u32)
    ensures
        hz == rate_in_hz_spec(rate),
{
    match rate {
        OutputDataRate::Hz1 => 1,
        OutputDataRate::Hz10 => 10,
        OutputDataRate::Hz25 => 25,
        OutputDataRate::Hz50 => 50,
        OutputDataRate::Hz100 => 100,
        OutputDataRate::Hz200 => 200,
        OutputDataRate::Hz400 => 400,
    }
}

/// Numeric full-scale bound in g. Total over the enumeration.
pub fn range_in_g(range: SensitivityRange) -> (g: u32)
    ensures
        g == range_in_g_spec(range),
{
    match range {
        SensitivityRange::G2 => 2,
        SensitivityRange::G4 => 4,
        SensitivityRange::G8 => 8,
        SensitivityRange::G16 => 16,
    }
}

/// The byte written to `CTRL_REG1_A` to select a rate: the rate code in the
/// high nibble, the three axis-enable bits in the low nibble.
pub open spec fn odr_bits_spec(rate: OutputDataRate) -> u8 {
    match rate {
        OutputDataRate::Hz1 => 0x17,
        OutputDataRate::Hz10 => 0x27,
        OutputDataRate::Hz25 => 0x37,
        OutputDataRate::Hz50 => 0x47,
        OutputDataRate::Hz100 => 0x57,
        OutputDataRate::Hz200 => 0x67,
        OutputDataRate::Hz400 => 0x77,
    }
}

/// The byte written to `CTRL_REG4_A` to select a range: the full-scale code
/// in bits 4 and 5.
pub open spec fn range_bits_spec(range: SensitivityRange) -> u8 {
    match range {
        SensitivityRange::G2 => 0x00,
        SensitivityRange::G4 => 0x10,
        SensitivityRange::G8 => 0x20,
        SensitivityRange::G16 => 0x30,
    }
}

/// Register value installing `rate`.
pub fn odr_bits(rate: OutputDataRate) -> (bits: u8)
    ensures
        bits == odr_bits_spec(rate),
{
    match rate {
        OutputDataRate::Hz1 => 0x17,
        OutputDataRate::Hz10 => 0x27,
        OutputDataRate::Hz25 => 0x37,
        OutputDataRate::Hz50 => 0x47,
        OutputDataRate::Hz100 => 0x57,
        OutputDataRate::Hz200 => 0x67,
        OutputDataRate::Hz400 => 0x77,
    }
}

/// Register value installing `range`.
pub fn range_bits(range: SensitivityRange) -> (bits: u8)
    ensures
        bits == range_bits_spec(range),
{
    match range {
        SensitivityRange::G2 => 0x00,
        SensitivityRange::G4 => 0x10,
        SensitivityRange::G8 => 0x20,
        SensitivityRange::G16 => 0x30,
    }
}

} // verus!
