//! Benchmark naming and benchmark output paths.
//!
//! Benchmarks are selected as sets through bit masks, like simulation
//! methods, and every benchmark that is not a collection maps to the
//! directory its simulation lives in.

use vstd::prelude::*;
use vstd::string::StringExecFns;

use crate::sim::{PathError, SimulationMethod};

verus! {

/// All benchmarks that can be performed. Some entries are collections
/// whose mask overlaps each of their members.
#[derive(Debug, Copy, Clone, PartialEq, Eq, Structural)]
pub enum BenchmarkName {
    /// Diabatic simulation with 1 material.
    Diabatic1MaterialKC,
    /// Diabatic simulation with 2 materials.
    Diabatic2MaterialsKC,
    /// Diabatic simulation with 4 materials.
    Diabatic4MaterialsKC,
    /// Diabatic simulation with 8 materials.
    Diabatic8MaterialsKC,
    /// Diabatic simulation with 16 materials.
    Diabatic16MaterialsKC,
    /// All diabatic simulations that test the influence of multiple
    /// materials.
    DiabaticAllMaterialsKC,
    /// Diabatic simulation with concrete material.
    DiabaticConcreteKC,
    /// Diabatic simulation with steel material.
    DiabaticSteelKC,
    /// Both diabatic simulations with concrete and steel.
    DiabaticCompareKC,
    /// Diabatic simulation with steel material and 5cm wall thickness.
    DiabaticThickness005,
    /// Diabatic simulation with steel material and 10cm wall thickness.
    DiabaticThickness010,
    /// Diabatic simulation with steel material and 50cm wall thickness.
    DiabaticThickness050,
    /// Diabatic simulation with steel material and 100cm wall thickness.
    DiabaticThickness100,
    /// Diabatic simulation with steel material and 500cm wall thickness.
    DiabaticThickness500,
    /// All diabatic simulations with steel material and different
    /// thicknesses.
    DiabaticThickness,
    /// Adiabatic simulation to compare with the reference solver.
    Adiabatic,
    /// Speed test of the reference solver itself.
    SpeedTestFDS,
}

/// The selection mask of a benchmark; collections carry the union of
/// their members' masks.
pub open spec fn spec_benchmark_mask(b: BenchmarkName) -> u32 {
    match b {
        BenchmarkName::Diabatic1MaterialKC => 0x0001,
        BenchmarkName::Diabatic2MaterialsKC => 0x0002,
        BenchmarkName::Diabatic4MaterialsKC => 0x0004,
        BenchmarkName::Diabatic8MaterialsKC => 0x0008,
        BenchmarkName::Diabatic16MaterialsKC => 0x0010,
        BenchmarkName::DiabaticAllMaterialsKC => 0x001f,
        BenchmarkName::DiabaticConcreteKC => 0x0020,
        BenchmarkName::DiabaticSteelKC => 0x0040,
        BenchmarkName::DiabaticCompareKC => 0x0060,
        BenchmarkName::DiabaticThickness005 => 0x0080,
        BenchmarkName::DiabaticThickness010 => 0x0100,
        BenchmarkName::DiabaticThickness050 => 0x0200,
        BenchmarkName::DiabaticThickness100 => 0x0400,
        BenchmarkName::DiabaticThickness500 => 0x0800,
        BenchmarkName::DiabaticThickness => 0x0f80,
        BenchmarkName::Adiabatic => 0x1000,
        BenchmarkName::SpeedTestFDS => 0x2000,
    }
}

/// Whether a benchmark is selected by a benchmark list: selection is by
/// mask overlap. An absent list selects every benchmark.
pub open spec fn spec_benchmark_selected(b: BenchmarkName, bs: Seq<BenchmarkName>) -> bool {
    exists|j: int|
        0 <= j < bs.len() && spec_benchmark_mask(b) & #[trigger] spec_benchmark_mask(bs[j]) != 0
}

/// Whether a benchmark is a collection of benchmarks, which has no
/// directory of its own.
pub open spec fn spec_is_collection(b: BenchmarkName) -> bool {
    b == BenchmarkName::DiabaticAllMaterialsKC || b == BenchmarkName::DiabaticThickness || b
        == BenchmarkName::SpeedTestFDS || b == BenchmarkName::DiabaticCompareKC
}

/// The simulation directory of a benchmark that is not a collection.
pub open spec fn spec_benchmark_path(b: BenchmarkName) -> Seq<char> {
    match b {
        BenchmarkName::Diabatic1MaterialKC => "fds/1D/Diabatic/multiple/1"@,
        BenchmarkName::Diabatic2MaterialsKC => "fds/1D/Diabatic/multiple/2"@,
        BenchmarkName::Diabatic4MaterialsKC => "fds/1D/Diabatic/multiple/4"@,
        BenchmarkName::Diabatic8MaterialsKC => "fds/1D/Diabatic/multiple/8"@,
        BenchmarkName::Diabatic16MaterialsKC => "fds/1D/Diabatic/multiple/16"@,
        BenchmarkName::DiabaticConcreteKC => "fds/1D/Diabatic/concrete_k_c"@,
        BenchmarkName::DiabaticSteelKC => "fds/1D/Diabatic/steel_k_c"@,
        BenchmarkName::DiabaticThickness005 => "fds/1D/Diabatic/thickness_steel_k_c/005cm"@,
        BenchmarkName::DiabaticThickness010 => "fds/1D/Diabatic/thickness_steel_k_c/010cm"@,
        BenchmarkName::DiabaticThickness050 => "fds/1D/Diabatic/thickness_steel_k_c/050cm"@,
        BenchmarkName::DiabaticThickness100 => "fds/1D/Diabatic/thickness_steel_k_c/100cm"@,
        BenchmarkName::DiabaticThickness500 => "fds/1D/Diabatic/thickness_steel_k_c/500cm"@,
        BenchmarkName::Adiabatic => "fds/1D/Adiabatic/concrete_k_c"@,
        _ => ""@,
    }
}

impl BenchmarkName {
    pub fn mask(&self) -> (r: u32)
        ensures
            r == spec_benchmark_mask(*self),
    {
        match self {
            BenchmarkName::Diabatic1MaterialKC => 0x0001,
            BenchmarkName::Diabatic2MaterialsKC => 0x0002,
            BenchmarkName::Diabatic4MaterialsKC => 0x0004,
            BenchmarkName::Diabatic8MaterialsKC => 0x0008,
            BenchmarkName::Diabatic16MaterialsKC => 0x0010,
            BenchmarkName::DiabaticAllMaterialsKC => 0x001f,
            BenchmarkName::DiabaticConcreteKC => 0x0020,
            BenchmarkName::DiabaticSteelKC => 0x0040,
            BenchmarkName::DiabaticCompareKC => 0x0060,
            BenchmarkName::DiabaticThickness005 => 0x0080,
            BenchmarkName::DiabaticThickness010 => 0x0100,
            BenchmarkName::DiabaticThickness050 => 0x0200,
            BenchmarkName::DiabaticThickness100 => 0x0400,
            BenchmarkName::DiabaticThickness500 => 0x0800,
            BenchmarkName::DiabaticThickness => 0x0f80,
            BenchmarkName::Adiabatic => 0x1000,
            BenchmarkName::SpeedTestFDS => 0x2000,
        }
    }

    /// Whether this benchmark is selected by the optional benchmark
    /// list.
    #[verifier::loop_isolation(false)]
    pub fn is_benchmark(self, benchmark_names: Option<&Vec<BenchmarkName>>) -> (r: bool)
        ensures
            benchmark_names is None ==> r,
            forall|v: &Vec<BenchmarkName>|
                benchmark_names == Option::Some(v) ==> r == spec_benchmark_selected(self, v@),
    {
        match benchmark_names {
            Option::Some(list) => {
                let n = list.len();
                let mut j: usize = 0;
                while j < n
                    invariant
                        0 <= j <= n,
                        n == list@.len(),
                        forall|t: int|
                            0 <= t < j ==> spec_benchmark_mask(self) & spec_benchmark_mask(
                                list@[t],
                            ) == 0,
                    decreases n - j,
                {
                    if self.mask() & list[j].mask() != 0 {
                        proof {
                            let ghost w = j as int;
                            assert(spec_benchmark_mask(self) & spec_benchmark_mask(list@[w]) != 0);
                        }
                        return true;
                    }
                    j += 1;
                }
                false
            },
            Option::None => true,
        }
    }

    /// The directory of this benchmark's simulation. A collection of
    /// benchmarks has no directory of its own.
    pub fn path_str(&self) -> (r: &'static str)
        requires
            !spec_is_collection(*self),
        ensures
            r@ == spec_benchmark_path(*self),
    {
        match self {
            BenchmarkName::Diabatic1MaterialKC => "fds/1D/Diabatic/multiple/1",
            BenchmarkName::Diabatic2MaterialsKC => "fds/1D/Diabatic/multiple/2",
            BenchmarkName::Diabatic4MaterialsKC => "fds/1D/Diabatic/multiple/4",
            BenchmarkName::Diabatic8MaterialsKC => "fds/1D/Diabatic/multiple/8",
            BenchmarkName::Diabatic16MaterialsKC => "fds/1D/Diabatic/multiple/16",
            BenchmarkName::DiabaticConcreteKC => "fds/1D/Diabatic/concrete_k_c",
            BenchmarkName::DiabaticSteelKC => "fds/1D/Diabatic/steel_k_c",
            BenchmarkName::DiabaticThickness005 => "fds/1D/Diabatic/thickness_steel_k_c/005cm",
            BenchmarkName::DiabaticThickness010 => "fds/1D/Diabatic/thickness_steel_k_c/010cm",
            BenchmarkName::DiabaticThickness050 => "fds/1D/Diabatic/thickness_steel_k_c/050cm",
            BenchmarkName::DiabaticThickness100 => "fds/1D/Diabatic/thickness_steel_k_c/100cm",
            BenchmarkName::DiabaticThickness500 => "fds/1D/Diabatic/thickness_steel_k_c/500cm",
            BenchmarkName::Adiabatic => "fds/1D/Adiabatic/concrete_k_c",
            BenchmarkName::DiabaticAllMaterialsKC
            | BenchmarkName::DiabaticThickness
            | BenchmarkName::SpeedTestFDS
            | BenchmarkName::DiabaticCompareKC => "",
        }
    }

    /// The diabatic benchmarks that test the influence of multiple
    /// materials.
    pub fn material_benchmarks() -> (r: Vec<BenchmarkName>)
        ensures
            r@ =~= seq![
                BenchmarkName::Diabatic1MaterialKC,
                BenchmarkName::Diabatic2MaterialsKC,
                BenchmarkName::Diabatic4MaterialsKC,
                BenchmarkName::Diabatic8MaterialsKC,
                BenchmarkName::Diabatic16MaterialsKC,
                BenchmarkName::DiabaticConcreteKC,
                BenchmarkName::DiabaticSteelKC,
            ],
    {
        let mut r: Vec<BenchmarkName> = Vec::new();
        r.push(BenchmarkName::Diabatic1MaterialKC);
        r.push(BenchmarkName::Diabatic2MaterialsKC);
        r.push(BenchmarkName::Diabatic4MaterialsKC);
        r.push(BenchmarkName::Diabatic8MaterialsKC);
        r.push(BenchmarkName::Diabatic16MaterialsKC);
        r.push(BenchmarkName::DiabaticConcreteKC);
        r.push(BenchmarkName::DiabaticSteelKC);
        r
    }

    /// The diabatic benchmarks with steel material and different
    /// thicknesses.
    pub fn thickness_benchmarks() -> (r: Vec<BenchmarkName>)
        ensures
            r@ =~= seq![
                BenchmarkName::DiabaticThickness005,
                BenchmarkName::DiabaticThickness010,
                BenchmarkName::DiabaticThickness050,
                BenchmarkName::DiabaticThickness100,
                BenchmarkName::DiabaticThickness500,
            ],
    {
        let mut r: Vec<BenchmarkName> = Vec::new();
        r.push(BenchmarkName::DiabaticThickness005);
        r.push(BenchmarkName::DiabaticThickness010);
        r.push(BenchmarkName::DiabaticThickness050);
        r.push(BenchmarkName::DiabaticThickness100);
        r.push(BenchmarkName::DiabaticThickness500);
        r
    }
}

/// The element counts a benchmark sweeps over.
pub fn benchmark_elements() -> (r: Vec<usize>)
    ensures
        r@ =~= seq![256usize, 512, 1024, 2048, 4096, 8192, 16384, 32768],
{
    let mut r: Vec<usize> = Vec::new();
    r.push(256);
    r.push(512);
    r.push(1024);
    r.push(2048);
    r.push(4096);
    r.push(8192);
    r.push(16384);
    r.push(32768);
    r
}

/// The additional element counts that exercise the chunk partition.
pub fn benchmark_chunk_elements() -> (r: Vec<usize>)
    ensures
        r@ =~= seq![65536usize, 131072, 262144],
{
    let mut r: Vec<usize> = Vec::new();
    r.push(65536);
    r.push(131072);
    r.push(262144);
    r
}

/// Builds the path fragment under which one benchmark's timings are
/// recorded: an optional prefix, the benchmark label, and the
/// simulation method's directory.
#[derive(Debug, Clone)]
pub struct BenchmarkPathPart {
    pub prefix: Option<String>,
    pub label: String,
    pub simulation_method: SimulationMethod,
}

/// The path fragment of a benchmark path part whose method is not a
/// collection.
pub open spec fn spec_benchmark_path_part(p: BenchmarkPathPart) -> Seq<char> {
    if p.prefix is Some {
        p.prefix.unwrap()@ + "/"@ + p.label@ + "/"@ + crate::sim::spec_method_path(
            p.simulation_method,
        )
    } else {
        p.label@ + "/"@ + crate::sim::spec_method_path(p.simulation_method)
    }
}

impl BenchmarkPathPart {
    pub fn new(prefix: Option<String>, label: String, simulation_method: SimulationMethod) -> (r:
        Self)
        ensures
            r.prefix == prefix,
            r.label == label,
            r.simulation_method == simulation_method,
    {
        BenchmarkPathPart { prefix, label, simulation_method }
    }

    /// The path fragment of this part. The collective one-dimensional
    /// method has no distinct path.
    pub fn path_str(&self) -> (r: Result<String, PathError>)
        ensures
            match r {
                Result::Ok(s) => self.simulation_method != SimulationMethod::OneDimensional && s@
                    == spec_benchmark_path_part(*self),
                Result::Err(e) => self.simulation_method == SimulationMethod::OneDimensional && e
                    == PathError::Collection,
            },
    {
        let simulation_method_path_str = match self.simulation_method.path_str() {
            Ok(s) => s,
            Err(e) => {
                return Err(e);
            },
        };
        let mut out = String::new();
        match &self.prefix {
            Option::Some(prefix) => {
                out.append(prefix.as_str());
                out.append("/");
                out.append(self.label.as_str());
                out.append("/");
                out.append(simulation_method_path_str);
                proof {
                    assert(out@ =~= spec_benchmark_path_part(*self));
                }
            },
            Option::None => {
                out.append(self.label.as_str());
                out.append("/");
                out.append(simulation_method_path_str);
                proof {
                    assert(out@ =~= spec_benchmark_path_part(*self));
                }
            },
        }
        Ok(out)
    }
}

} // verus!
