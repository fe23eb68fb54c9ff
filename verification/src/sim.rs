//! Simulation method and kind selection.
//!
//! Methods and kinds are selected on the command line as sets; each
//! carries a bit mask so that collective entries (all one-dimensional
//! methods at once) overlap every member. The mask algebra and the path
//! naming are verified here.

use vstd::prelude::*;

verus! {

/// The factor the gas delta time is multiplied by to get the solid
/// delta time.
pub const DELTA_TIME_SOLID_FACTOR: u8 = 2;

/// A path could not be derived for a collective entry.
#[derive(Debug, Clone, Copy, PartialEq, Eq, Structural)]
pub enum PathError {
    Collection,
}

/// All supported simulation methods, including the collective
/// one-dimensional entry.
#[derive(Debug, Copy, Clone, PartialEq, Eq, Structural)]
pub enum SimulationMethod {
    OneDimensionalCpu,
    OneDimensionalGpuM1,
    OneDimensionalGpuM2,
    OneDimensionalGpuM3,
    OneDimensional,
    SpeedTestFDS,
}

/// The selection mask of a simulation method: the collective
/// one-dimensional entry overlaps all four backends.
pub open spec fn spec_method_mask(m: SimulationMethod) -> u16 {
    match m {
        SimulationMethod::OneDimensionalCpu => 0x01,
        SimulationMethod::OneDimensionalGpuM1 => 0x02,
        SimulationMethod::OneDimensionalGpuM2 => 0x04,
        SimulationMethod::OneDimensionalGpuM3 => 0x08,
        SimulationMethod::OneDimensional => 0x0f,
        SimulationMethod::SpeedTestFDS => 0x80,
    }
}

/// Whether a method is selected by a method list: selection is by mask
/// overlap. An absent list selects every method.
pub open spec fn spec_method_selected(m: SimulationMethod, ms: Seq<SimulationMethod>) -> bool {
    exists|j: int|
        0 <= j < ms.len() && spec_method_mask(m) & #[trigger] spec_method_mask(ms[j]) != 0
}

impl SimulationMethod {
    pub fn mask(&self) -> (r: u16)
        ensures
            r == spec_method_mask(*self),
    {
        match self {
            SimulationMethod::OneDimensionalCpu => 0x01,
            SimulationMethod::OneDimensionalGpuM1 => 0x02,
            SimulationMethod::OneDimensionalGpuM2 => 0x04,
            SimulationMethod::OneDimensionalGpuM3 => 0x08,
            SimulationMethod::OneDimensional => 0x0f,
            SimulationMethod::SpeedTestFDS => 0x80,
        }
    }

    /// Whether this method is selected by the optional method list.
    #[verifier::loop_isolation(false)]
    pub fn is_simulation_type(&self, simulation_types: Option<&Vec<SimulationMethod>>) -> (r:
        bool)
        ensures
            simulation_types is None ==> r,
            forall|v: &Vec<SimulationMethod>|
                simulation_types == Option::Some(v) ==> r == spec_method_selected(*self, v@),
    {
        match simulation_types {
            Option::Some(list) => {
                let n = list.len();
                let mut j: usize = 0;
                while j < n
                    invariant
                        0 <= j <= n,
                        n == list@.len(),
                        forall|t: int|
                            0 <= t < j ==> spec_method_mask(*self) & spec_method_mask(
                                list@[t],
                            ) == 0,
                    decreases n - j,
                {
                    if self.mask() & list[j].mask() != 0 {
                        proof {
                            let ghost w = j as int;
                            assert(spec_method_mask(*self) & spec_method_mask(list@[w]) != 0);
                        }
                        return true;
                    }
                    j += 1;
                }
                false
            },
            Option::None => true,
        }
    }

    /// The path fragment of this method. The collective one-dimensional
    /// entry has no distinct path.
    pub fn path_str(&self) -> (r: Result<&'static str, PathError>)
        ensures
            match r {
                Result::Ok(s) => *self != SimulationMethod::OneDimensional && s@
                    == spec_method_path(*self),
                Result::Err(e) => *self == SimulationMethod::OneDimensional && e
                    == PathError::Collection,
            },
    {
        match self {
            SimulationMethod::OneDimensionalCpu => Ok("cpu"),
            SimulationMethod::OneDimensionalGpuM1 => Ok("gpu_m1"),
            SimulationMethod::OneDimensionalGpuM2 => Ok("gpu_m2"),
            SimulationMethod::OneDimensionalGpuM3 => Ok("gpu_m3"),
            SimulationMethod::SpeedTestFDS => Ok("fds"),
            SimulationMethod::OneDimensional => Err(PathError::Collection),
        }
    }
}

/// The path fragment of a simulation method that is not the collective
/// one-dimensional entry.
pub open spec fn spec_method_path(m: SimulationMethod) -> Seq<char> {
    match m {
        SimulationMethod::OneDimensionalCpu => "cpu"@,
        SimulationMethod::OneDimensionalGpuM1 => "gpu_m1"@,
        SimulationMethod::OneDimensionalGpuM2 => "gpu_m2"@,
        SimulationMethod::OneDimensionalGpuM3 => "gpu_m3"@,
        SimulationMethod::SpeedTestFDS => "fds"@,
        SimulationMethod::OneDimensional => ""@,
    }
}

/// The four backends of the one-dimensional heat transfer.
#[derive(Debug, Copy, Clone, PartialEq, Eq, Structural)]
pub enum SimulationType1D {
    Cpu,
    GpuM1,
    GpuM2,
    GpuM3,
}

impl SimulationType1D {
    /// The simulation method naming this backend.
    pub fn method(&self) -> (r: SimulationMethod)
        ensures
            r == spec_method_of(*self),
    {
        match self {
            SimulationType1D::Cpu => SimulationMethod::OneDimensionalCpu,
            SimulationType1D::GpuM1 => SimulationMethod::OneDimensionalGpuM1,
            SimulationType1D::GpuM2 => SimulationMethod::OneDimensionalGpuM2,
            SimulationType1D::GpuM3 => SimulationMethod::OneDimensionalGpuM3,
        }
    }

    pub fn path_str(&self) -> (r: &'static str)
        ensures
            r@ == (match *self {
                SimulationType1D::Cpu => "cpu"@,
                SimulationType1D::GpuM1 => "gpu_m1"@,
                SimulationType1D::GpuM2 => "gpu_m2"@,
                SimulationType1D::GpuM3 => "gpu_m3"@,
            }),
    {
        match self {
            SimulationType1D::Cpu => "cpu",
            SimulationType1D::GpuM1 => "gpu_m1",
            SimulationType1D::GpuM2 => "gpu_m2",
            SimulationType1D::GpuM3 => "gpu_m3",
        }
    }

    /// Whether this backend is selected by the optional method list.
    pub fn is_simulation_type(&self, simulation_types: Option<&Vec<SimulationMethod>>) -> (r:
        bool)
        ensures
            simulation_types is None ==> r,
            forall|v: &Vec<SimulationMethod>|
                simulation_types == Option::Some(v) ==> r == spec_method_selected(
                    spec_method_of(*self),
                    v@,
                ),
    {
        let left = self.method();
        left.is_simulation_type(simulation_types)
    }

    /// The label shown for this backend.
    pub fn label(&self) -> (r: &'static str)
        ensures
            r@ == (match *self {
                SimulationType1D::Cpu => "CPU"@,
                SimulationType1D::GpuM1 => "GPU M1"@,
                SimulationType1D::GpuM2 => "GPU M2"@,
                SimulationType1D::GpuM3 => "GPU M3"@,
            }),
    {
        match self {
            SimulationType1D::Cpu => "CPU",
            SimulationType1D::GpuM1 => "GPU M1",
            SimulationType1D::GpuM2 => "GPU M2",
            SimulationType1D::GpuM3 => "GPU M3",
        }
    }
}

/// The simulation method naming a one-dimensional backend.
pub open spec fn spec_method_of(t: SimulationType1D) -> SimulationMethod {
    match t {
        SimulationType1D::Cpu => SimulationMethod::OneDimensionalCpu,
        SimulationType1D::GpuM1 => SimulationMethod::OneDimensionalGpuM1,
        SimulationType1D::GpuM2 => SimulationMethod::OneDimensionalGpuM2,
        SimulationType1D::GpuM3 => SimulationMethod::OneDimensionalGpuM3,
    }
}

/// All kinds of simulations that can be run.
#[derive(Debug, Clone, Copy, PartialEq, Eq, Structural)]
pub enum SimulationKind {
    Diabatic,
    DiabaticOneSide,
    Adiabatic,
}

/// The selection mask of a simulation kind.
pub open spec fn spec_kind_mask(k: SimulationKind) -> u8 {
    match k {
        SimulationKind::Diabatic => 0x1,
        SimulationKind::DiabaticOneSide => 0x2,
        SimulationKind::Adiabatic => 0x4,
    }
}

/// Whether a kind is selected by a kind list: selection is by mask
/// overlap. An absent list selects every kind.
pub open spec fn spec_kind_selected(k: SimulationKind, ks: Seq<SimulationKind>) -> bool {
    exists|j: int|
        0 <= j < ks.len() && spec_kind_mask(k) & #[trigger] spec_kind_mask(ks[j]) != 0
}

impl SimulationKind {
    pub fn mask(&self) -> (r: u8)
        ensures
            r == spec_kind_mask(*self),
    {
        match self {
            SimulationKind::Diabatic => 0x1,
            SimulationKind::DiabaticOneSide => 0x2,
            SimulationKind::Adiabatic => 0x4,
        }
    }

    /// Whether this kind is selected by the optional kind list.
    #[verifier::loop_isolation(false)]
    pub fn is_simulation_kind(&self, simulation_kind: Option<&Vec<SimulationKind>>) -> (r: bool)
        ensures
            simulation_kind is None ==> r,
            forall|v: &Vec<SimulationKind>|
                simulation_kind == Option::Some(v) ==> r == spec_kind_selected(*self, v@),
    {
        match simulation_kind {
            Option::Some(list) => {
                let n = list.len();
                let mut j: usize = 0;
                while j < n
                    invariant
                        0 <= j <= n,
                        n == list@.len(),
                        forall|t: int|
                            0 <= t < j ==> spec_kind_mask(*self) & spec_kind_mask(list@[t]) == 0,
                    decreases n - j,
                {
                    if self.mask() & list[j].mask() != 0 {
                        proof {
                            let ghost w = j as int;
                            assert(spec_kind_mask(*self) & spec_kind_mask(list@[w]) != 0);
                        }
                        return true;
                    }
                    j += 1;
                }
                false
            },
            Option::None => true,
        }
    }
}

/// How often a single wall element must be duplicated to reach the
/// requested element count.
#[derive(Debug, Clone, Copy, PartialEq, Eq, Structural)]
pub enum DuplicationError {
    NotDivisible,
}

/// How many copies of each wall element make up `elements` instances:
/// the requested count must divide evenly by the available count.
pub fn duplication(elements: usize, wall_elements: usize) -> (r: Result<usize, DuplicationError>)
    requires
        wall_elements >= 1,
    ensures
        match r {
            Result::Ok(d) => elements % wall_elements == 0 && d == elements as int
                / wall_elements as int,
            Result::Err(e) => elements % wall_elements != 0 && e
                == DuplicationError::NotDivisible,
        },
{
    if elements % wall_elements > 0 {
        Err(DuplicationError::NotDivisible)
    } else {
        Ok(elements / wall_elements)
    }
}

} // verus!
