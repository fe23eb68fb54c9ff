//! Adaptive sub-stepping decision.
//!
//! When the instantaneous temperature-flux imbalance between adjacent
//! cells exceeds a fixed threshold, the implicit step is subdivided by
//! powers of two: `2^ceil(log2(max_delta / threshold))`, clamped to at
//! most four subdivisions. With the threshold at 10 temperature units the
//! subdivision count depends only on how the imbalance compares against
//! 10, 20 and their doublings, which is decided exactly on the bit
//! patterns.

use vstd::prelude::*;

use crate::fl::{le_bits, lt_bits, f_le};

verus! {

/// Bit pattern of the subdivision threshold, 10.0 temperature units.
pub const MAX_DELTA_TEMPERATURE_BITS: u32 = 0x4120_0000;

/// Bit pattern of twice the subdivision threshold, 20.0 temperature units.
pub const TWICE_MAX_DELTA_TEMPERATURE_BITS: u32 = 0x41a0_0000;

/// The maximum number of subdivisions of one timestep.
pub const MAX_TIME_SUBDIVISIONS: usize = 4;

/// The number of solver invocations for a timestep, as a function of the
/// maximum temperature-flux imbalance found in the wall element:
/// `2^ceil(log2(d / 10))` clamped to `[1, 4]`.
pub open spec fn spec_repeats(max_delta_temperature: u32) -> usize {
    if le_bits(max_delta_temperature, MAX_DELTA_TEMPERATURE_BITS as u32) {
        1usize
    } else if le_bits(max_delta_temperature, TWICE_MAX_DELTA_TEMPERATURE_BITS as u32) {
        2usize
    } else {
        4usize
    }
}

/// How often the solver must run for one timestep, from the bit pattern
/// of the maximum temperature-flux imbalance.
pub fn repeats(max_delta_temperature: u32) -> (r: usize)
    ensures
        r == spec_repeats(max_delta_temperature),
        1 <= r <= MAX_TIME_SUBDIVISIONS,
        r == 1 || r == 2 || r == 4,
{
    if f_le(max_delta_temperature, MAX_DELTA_TEMPERATURE_BITS) {
        1
    } else if f_le(max_delta_temperature, TWICE_MAX_DELTA_TEMPERATURE_BITS) {
        2
    } else {
        4
    }
}

/// The subdivision count never exceeds four and is non-decreasing in the
/// imbalance: a larger maximum temperature delta never selects fewer
/// solver invocations. NaN imbalances are excluded; they compare false
/// against everything and would select the unclamped branch.
pub proof fn lemma_repeats_monotonic(a: u32, b: u32)
    requires
        le_bits(a, b),
    ensures
        spec_repeats(a) <= spec_repeats(b),
        spec_repeats(b) <= MAX_TIME_SUBDIVISIONS,
{
    if le_bits(b, MAX_DELTA_TEMPERATURE_BITS as u32) {
        lemma_le_bits_trans(a, b, MAX_DELTA_TEMPERATURE_BITS as u32);
    }
    if le_bits(b, TWICE_MAX_DELTA_TEMPERATURE_BITS as u32) {
        lemma_le_bits_trans(a, b, TWICE_MAX_DELTA_TEMPERATURE_BITS as u32);
    }
}

/// The single precision `<=` relation is transitive.
pub proof fn lemma_le_bits_trans(a: u32, b: u32, c: u32)
    requires
        le_bits(a, b),
        le_bits(b, c),
    ensures
        le_bits(a, c),
{
    assert(a < 0x8000_0000 ==> (a & 0x7fff_ffff) == a) by (bit_vector);
    assert(b < 0x8000_0000 ==> (b & 0x7fff_ffff) == b) by (bit_vector);
    assert(c < 0x8000_0000 ==> (c & 0x7fff_ffff) == c) by (bit_vector);
}

} // verus!
