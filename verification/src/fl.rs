//! IEEE-754 single precision values carried as raw bit patterns.
//!
//! Temperatures, cell sizes and boundary coefficients enter the library as
//! the `u32` bit patterns of single precision values. Classification and
//! ordering of such values are fully determined by the bits alone, so they
//! are implemented and verified here directly; no rounding arithmetic is
//! performed in this crate.

use vstd::prelude::*;

verus! {

/// Whether the bit pattern encodes a NaN (exponent all ones, nonzero
/// mantissa).
pub open spec fn is_nan_bits(a: u32) -> bool {
    (a & 0x7fff_ffff) > 0x7f80_0000
}

/// Whether the sign bit is set.
pub open spec fn sign_bits(a: u32) -> bool {
    a >= 0x8000_0000
}

/// The magnitude: all bits except the sign bit.
pub open spec fn mag_bits(a: u32) -> u32 {
    a & 0x7fff_ffff
}

/// Whether the bit pattern encodes a positive, finite, nonzero value.
pub open spec fn pos_finite_bits(a: u32) -> bool {
    0 < a < 0x7f80_0000
}

/// The IEEE-754 `<` relation on single precision values, stated over bit
/// patterns: false when either operand is NaN, otherwise sign-magnitude
/// order, with the two zeroes equal.
pub open spec fn lt_bits(a: u32, b: u32) -> bool {
    if is_nan_bits(a) || is_nan_bits(b) {
        false
    } else if !sign_bits(a) && !sign_bits(b) {
        a < b
    } else if sign_bits(a) && sign_bits(b) {
        mag_bits(b) < mag_bits(a)
    } else if sign_bits(a) {
        !(mag_bits(a) == 0 && mag_bits(b) == 0)
    } else {
        false
    }
}

/// The IEEE-754 `==` relation on single precision values over bit
/// patterns: equal bits or both zero, and never true for NaN.
pub open spec fn eq_bits(a: u32, b: u32) -> bool {
    !is_nan_bits(a) && !is_nan_bits(b) && (a == b || (mag_bits(a) == 0 && mag_bits(b) == 0))
}

/// The IEEE-754 `<=` relation on single precision values over bit
/// patterns.
pub open spec fn le_bits(a: u32, b: u32) -> bool {
    lt_bits(a, b) || eq_bits(a, b)
}

/// The single precision `<` comparison, computed from the bit patterns.
pub fn f_lt(a: u32, b: u32) -> (r: bool)
    ensures
        r == lt_bits(a, b),
{
    let ma: u32 = a & 0x7fff_ffff;
    let mb: u32 = b & 0x7fff_ffff;
    if ma > 0x7f80_0000 || mb > 0x7f80_0000 {
        false
    } else if a < 0x8000_0000 && b < 0x8000_0000 {
        a < b
    } else if a >= 0x8000_0000 && b >= 0x8000_0000 {
        mb < ma
    } else if a >= 0x8000_0000 {
        !(ma == 0 && mb == 0)
    } else {
        false
    }
}

/// The single precision `<=` comparison, computed from the bit patterns.
pub fn f_le(a: u32, b: u32) -> (r: bool)
    ensures
        r == le_bits(a, b),
{
    let ma: u32 = a & 0x7fff_ffff;
    let mb: u32 = b & 0x7fff_ffff;
    if ma > 0x7f80_0000 || mb > 0x7f80_0000 {
        false
    } else if a == b || (ma == 0 && mb == 0) {
        true
    } else {
        f_lt(a, b)
    }
}

} // verus!
