//! Simulation method, kind and benchmark naming.

use wallheat::bench::{BenchmarkName, BenchmarkPathPart};
use wallheat::paths::ignore;
use wallheat::sim::{
    duplication, DuplicationError, PathError, SimulationKind, SimulationMethod, SimulationType1D,
};

#[test]
fn method_paths() {
    assert_eq!(SimulationMethod::OneDimensionalCpu.path_str(), Ok("cpu"));
    assert_eq!(SimulationMethod::OneDimensionalGpuM1.path_str(), Ok("gpu_m1"));
    assert_eq!(SimulationMethod::OneDimensionalGpuM2.path_str(), Ok("gpu_m2"));
    assert_eq!(SimulationMethod::OneDimensionalGpuM3.path_str(), Ok("gpu_m3"));
    assert_eq!(SimulationMethod::SpeedTestFDS.path_str(), Ok("fds"));
    assert_eq!(
        SimulationMethod::OneDimensional.path_str(),
        Err(PathError::Collection)
    );
    assert_eq!(SimulationType1D::GpuM3.path_str(), "gpu_m3");
}

#[test]
fn collective_method_selects_every_backend() {
    let selected = vec![SimulationMethod::OneDimensional];
    for t in [
        SimulationType1D::Cpu,
        SimulationType1D::GpuM1,
        SimulationType1D::GpuM2,
        SimulationType1D::GpuM3,
    ] {
        assert!(t.is_simulation_type(Some(&selected)));
    }
    let cpu_only = vec![SimulationMethod::OneDimensionalCpu];
    assert!(SimulationType1D::Cpu.is_simulation_type(Some(&cpu_only)));
    assert!(!SimulationType1D::GpuM1.is_simulation_type(Some(&cpu_only)));
    assert!(SimulationType1D::GpuM1.is_simulation_type(None));
    assert!(SimulationMethod::OneDimensional.is_simulation_type(Some(&cpu_only)));
    assert!(!SimulationMethod::SpeedTestFDS.is_simulation_type(Some(&cpu_only)));
}

#[test]
fn kind_selection() {
    let kinds = vec![SimulationKind::Adiabatic, SimulationKind::Diabatic];
    assert!(SimulationKind::Adiabatic.is_simulation_kind(Some(&kinds)));
    assert!(SimulationKind::Diabatic.is_simulation_kind(Some(&kinds)));
    assert!(!SimulationKind::DiabaticOneSide.is_simulation_kind(Some(&kinds)));
    assert!(SimulationKind::DiabaticOneSide.is_simulation_kind(None));
}

#[test]
fn benchmark_collections_select_their_members() {
    let all_materials = vec![BenchmarkName::DiabaticAllMaterialsKC];
    assert!(BenchmarkName::Diabatic1MaterialKC.is_benchmark(Some(&all_materials)));
    assert!(BenchmarkName::Diabatic16MaterialsKC.is_benchmark(Some(&all_materials)));
    assert!(!BenchmarkName::DiabaticConcreteKC.is_benchmark(Some(&all_materials)));
    assert!(!BenchmarkName::Adiabatic.is_benchmark(Some(&all_materials)));
    assert!(BenchmarkName::Adiabatic.is_benchmark(None));
    let compare = vec![BenchmarkName::DiabaticCompareKC];
    assert!(BenchmarkName::DiabaticConcreteKC.is_benchmark(Some(&compare)));
    assert!(BenchmarkName::DiabaticSteelKC.is_benchmark(Some(&compare)));
}

#[test]
fn benchmark_paths() {
    assert_eq!(
        BenchmarkName::Diabatic4MaterialsKC.path_str(),
        "fds/1D/Diabatic/multiple/4"
    );
    assert_eq!(
        BenchmarkName::DiabaticThickness050.path_str(),
        "fds/1D/Diabatic/thickness_steel_k_c/050cm"
    );
    assert_eq!(BenchmarkName::Adiabatic.path_str(), "fds/1D/Adiabatic/concrete_k_c");
}

#[test]
fn benchmark_path_parts() {
    let plain = BenchmarkPathPart::new(
        None,
        "laptop".to_string(),
        SimulationMethod::OneDimensionalGpuM2,
    );
    assert_eq!(plain.path_str().unwrap(), "laptop/gpu_m2");
    let prefixed = BenchmarkPathPart::new(
        Some("multi_core".to_string()),
        "laptop".to_string(),
        SimulationMethod::SpeedTestFDS,
    );
    assert_eq!(prefixed.path_str().unwrap(), "multi_core/laptop/fds");
    let collective = BenchmarkPathPart::new(
        None,
        "laptop".to_string(),
        SimulationMethod::OneDimensional,
    );
    assert_eq!(collective.path_str(), Err(PathError::Collection));
}

#[test]
fn duplication_requires_divisibility() {
    assert_eq!(duplication(1024, 4), Ok(256));
    assert_eq!(duplication(6, 6), Ok(1));
    assert_eq!(duplication(7, 2), Err(DuplicationError::NotDivisible));
}

#[test]
fn exclusion_patterns() {
    let to_components = |s: &str| -> Vec<String> { s.split('/').map(String::from).collect() };
    let patterns = vec![
        to_components("fds/1D/Adiabatic/heat_transfer.fds"),
        to_components("**/skip/result.fds"),
    ];
    // Exact entries match only the identical path.
    assert!(ignore(&to_components("fds/1D/Adiabatic/heat_transfer.fds"), &patterns));
    assert!(!ignore(&to_components("fds/1D/Adiabatic/other.fds"), &patterns));
    // Double-star entries match on the trailing components.
    assert!(ignore(&to_components("a/b/skip/result.fds"), &patterns));
    assert!(ignore(&to_components("skip/result.fds"), &patterns));
    assert!(!ignore(&to_components("a/b/keep/result.fds"), &patterns));
    assert!(!ignore(&to_components("deep/other"), &patterns));
}
