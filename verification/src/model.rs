//! The immutable per-simulation data model: materials and discretized
//! wall elements.

use vstd::prelude::*;

use crate::fl::pos_finite_bits;
use crate::ramp::Ramp;

verus! {

/// A building material's thermal properties. Specific heat and
/// conductivity are temperature-dependent tables; density and emissivity
/// are single precision bit patterns.
#[derive(Debug, Clone)]
pub struct Material {
    pub specific_heat: Ramp,
    pub conductivity: Ramp,
    pub density: u32,
    pub emissivity: u32,
}

impl Material {
    /// Both property tables are well-formed and the density is a
    /// positive finite value.
    pub open spec fn wf(self) -> bool {
        &&& self.specific_heat.wf()
        &&& self.conductivity.wf()
        &&& pos_finite_bits(self.density)
    }
}

/// One discretized slice of a wall layer: thickness and temperature as
/// single precision bit patterns, and the index of its material.
#[derive(Debug, Clone, Copy, PartialEq, Eq, Structural, Default)]
pub struct WallCell {
    pub size: u32,
    pub material: u32,
    pub temperature: u32,
}

impl WallCell {
    /// The thickness is positive and finite and the material index is
    /// valid for the owning material list.
    pub open spec fn wf(self, material_count: nat) -> bool {
        &&& pos_finite_bits(self.size)
        &&& (self.material as nat) < material_count
    }
}

/// An ordered column of cells spanning one independent one-dimensional
/// wall cross-section, front to back. The outer two cells are half-cells
/// used only to report surface temperatures.
#[derive(Debug, Clone, PartialEq, Eq)]
pub struct WallElement {
    pub cells: Vec<WallCell>,
}

impl WallElement {
    /// At least three cells (one interior cell between the two boundary
    /// half-cells), each well-formed against the material list.
    pub open spec fn wf(self, material_count: nat) -> bool {
        &&& self.cells@.len() >= 3
        &&& forall|i: int| 0 <= i < self.cells@.len() ==> self.cells@[i].wf(material_count)
    }

    pub fn new(cells: Vec<WallCell>) -> (r: Self)
        ensures
            r.cells@ == cells@,
    {
        WallElement { cells }
    }

    pub fn len(&self) -> (n: usize)
        ensures
            n == self.cells@.len(),
    {
        self.cells.len()
    }
}

/// All wall elements are well-formed against the same material list.
pub open spec fn elements_wf(elements: Seq<WallElement>, material_count: nat) -> bool {
    forall|i: int| 0 <= i < elements.len() ==> elements[i].wf(material_count)
}

} // verus!
