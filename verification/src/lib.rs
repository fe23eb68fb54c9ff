//! One-dimensional transient heat conduction through layered wall
//! cross-sections: the verified core of a solver with one processor
//! backend and three device compute backends.
//!
//! Temperatures, cell sizes and material properties are IEEE-754 single
//! precision values, carried throughout this crate as their raw bit
//! patterns (`u32`). Ordering and classification of such values are pure
//! bit logic and are verified here, and with them every decision the
//! solver takes: ramp segment selection, boundary classification,
//! adaptive sub-stepping, chunk partitioning, device memory layout,
//! kernel source generation, and the per-timestep completion protocol.
//! The rounding arithmetic itself is floating point, which this crate
//! does not hold; the driver around the library performs it on the
//! values these decisions select.

pub mod bench;
pub mod boundary;
pub mod chunk;
pub mod config;
pub mod fl;
pub mod layout;
pub mod meta;
pub mod model;
pub mod modification;
pub mod paths;
pub mod plotsrc;
pub mod protocol;
pub mod ramp;
pub mod shader;
pub mod sim;
pub mod stability;

use vstd::prelude::*;

verus! {

/// Heat-transfer coefficient bit pattern selecting the adiabatic boundary
/// condition (the single precision value -100000.0).
pub const ADIABATIC_H_BITS: u32 = 0xc7c3_5000;

/// Heat-transfer coefficient bit pattern selecting the fixed-temperature
/// boundary condition (the single precision value -100001.0).
pub const CONST_TEMP_H_BITS: u32 = 0xc7c3_5080;

} // verus!
