//! Classification of per-side boundary conditions.
//!
//! The heat-transfer coefficient channel multiplexes two sentinel values:
//! one selects the adiabatic closure, the other the fixed-temperature
//! closure, and every other coefficient selects the linearized
//! convective/radiative closure. Both sentinels are normal (non-zero,
//! non-NaN) single precision values, so comparing against them under
//! IEEE-754 equality is exactly bit equality, which is decided here.

use vstd::prelude::*;

use crate::{ADIABATIC_H_BITS, CONST_TEMP_H_BITS};

verus! {

/// Bit pattern of 1.0: the adiabatic recurrence coefficient, making the
/// boundary temperature equal its adjacent interior temperature.
pub const ONE_BITS: u32 = 0x3f80_0000;

/// Bit pattern of -1.0: the fixed-temperature recurrence coefficient.
pub const NEG_ONE_BITS: u32 = 0xbf80_0000;

/// How one side of a wall element exchanges heat.
#[derive(Debug, Clone, Copy, PartialEq, Eq, Structural)]
pub enum BoundaryKind {
    /// No heat crosses; the boundary cell tracks the interior cell.
    Adiabatic,
    /// The flux channel carries a prescribed boundary temperature.
    ConstTemp,
    /// Convective exchange with linearized radiation.
    Convective,
}

/// The boundary kind selected by a heat-transfer coefficient bit pattern.
pub open spec fn spec_boundary_kind(h: u32) -> BoundaryKind {
    if h == ADIABATIC_H_BITS {
        BoundaryKind::Adiabatic
    } else if h == CONST_TEMP_H_BITS {
        BoundaryKind::ConstTemp
    } else {
        BoundaryKind::Convective
    }
}

/// Classifies a heat-transfer coefficient. Both sentinels are normal
/// values, so IEEE-754 equality against them coincides with bit
/// equality: NaN coefficients and signed zeroes land in the convective
/// branch, as they do under floating point comparison.
pub fn boundary_kind(h: u32) -> (r: BoundaryKind)
    ensures
        r == spec_boundary_kind(h),
{
    if h == ADIABATIC_H_BITS {
        BoundaryKind::Adiabatic
    } else if h == CONST_TEMP_H_BITS {
        BoundaryKind::ConstTemp
    } else {
        BoundaryKind::Convective
    }
}

} // verus!
