//! Piecewise-linear temperature-dependent property tables.
//!
//! A ramp is an ordered list of (temperature, value) breakpoints, both
//! carried as single precision bit patterns. Looking a temperature up
//! first selects a segment — below the first breakpoint, between two
//! bracketing breakpoints, or past the last — and then interpolates
//! linearly inside it. The segment selection is pure comparison work and
//! is verified here; the interpolation arithmetic belongs to the caller.

use vstd::prelude::*;

use crate::fl::{le_bits, lt_bits, f_le, f_lt};

verus! {

/// A temperature-to-value interpolation table: breakpoints as pairs of
/// single precision bit patterns, assumed ascending in temperature.
#[derive(Debug, Clone)]
pub struct Ramp {
    pub pairs: Vec<(u32, u32)>,
}

/// The segment of a ramp that a temperature falls into.
#[derive(Debug, Clone, Copy, PartialEq, Eq, Structural)]
pub enum RampSegment {
    /// At or below the first breakpoint: the first value holds unchanged.
    Below,
    /// Strictly between breakpoints: interpolate between `hi - 1` and `hi`.
    Within { hi: usize },
    /// At or past the last breakpoint: the last value holds unchanged.
    Above,
}

impl Ramp {
    /// A ramp is well-formed when it has at least one breakpoint.
    pub open spec fn wf(self) -> bool {
        self.pairs@.len() >= 1
    }

    pub fn len(&self) -> (n: usize)
        ensures
            n == self.pairs@.len(),
    {
        self.pairs.len()
    }

    /// Selects the segment of this ramp that the temperature `t` falls
    /// into: `Below` when `t` is at or below the first breakpoint,
    /// otherwise the first breakpoint strictly above `t`, and `Above`
    /// when there is none.
    pub fn bracket(&self, t: u32) -> (r: RampSegment)
        requires
            self.wf(),
        ensures
            r == RampSegment::Below <==> le_bits(t, self.pairs@[0].0),
            (match r {
                RampSegment::Within { hi } => {
                    &&& 1 <= hi < self.pairs@.len()
                    &&& lt_bits(t, self.pairs@[hi as int].0)
                    &&& forall|j: int| 1 <= j < hi ==> !lt_bits(t, self.pairs@[j].0)
                },
                RampSegment::Above => forall|j: int|
                    1 <= j < self.pairs@.len() ==> !lt_bits(t, self.pairs@[j].0),
                RampSegment::Below => true,
            }),
    {
        if f_le(t, self.pairs[0].0) {
            return RampSegment::Below;
        }
        let n = self.pairs.len();
        let mut i: usize = 1;
        while i < n
            invariant
                1 <= i <= n,
                n == self.pairs@.len(),
                !le_bits(t, self.pairs@[0].0),
                forall|j: int| 1 <= j < i ==> !lt_bits(t, self.pairs@[j].0),
            decreases n - i,
        {
            if f_lt(t, self.pairs[i].0) {
                return RampSegment::Within { hi: i };
            }
            i += 1;
        }
        RampSegment::Above
    }
}

} // verus!
