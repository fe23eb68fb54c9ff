//! Benchmark plot descriptions.

use wallheat::plotsrc::{BenchmarkBoxPlotSources, BenchmarkFactorPlotSources, LegendPos};
use wallheat::sim::{SimulationMethod, SimulationType1D};

#[test]
fn compare_mode_describes_all_four_backends() {
    let elements = vec![256usize, 512];
    let s = BenchmarkBoxPlotSources::compare_mode("fds/1D/Diabatic/steel_k_c", "laptop", &elements);
    assert_eq!(s.plot_directory, "plot/fds/1D/Diabatic/steel_k_c");
    assert_eq!(s.suffix, "laptop_compare_mode");
    assert_eq!(s.elements, elements);
    assert!(s.floating_legend);
    assert_eq!(s.benchmark_sources.len(), 4);
    let first = &s.benchmark_sources[0];
    assert_eq!(first.simulation_directory, "fds/1D/Diabatic/steel_k_c");
    assert_eq!(first.legend, "CPU");
    assert_eq!(first.color, "ff3f33");
    assert_eq!(
        first.benchmark_path_part.path_str().unwrap(),
        "laptop/cpu"
    );
    assert_eq!(
        s.benchmark_sources[3].benchmark_path_part.simulation_method,
        SimulationMethod::OneDimensionalGpuM3
    );
}

#[test]
fn compare_multiple_prefixes_the_material_count() {
    let elements = vec![256usize];
    let numbers = vec![1u8, 2, 4];
    let s = BenchmarkBoxPlotSources::compare_multiple(
        "fds/1D/Diabatic/multiple",
        "laptop",
        &elements,
        &numbers,
        SimulationType1D::GpuM3,
    );
    assert_eq!(s.suffix, "laptop_compare_multiple_gpu_m3");
    assert!(!s.floating_legend);
    assert_eq!(s.benchmark_sources.len(), 3);
    assert_eq!(s.benchmark_sources[1].legend, "2");
    assert_eq!(
        s.benchmark_sources[2]
            .benchmark_path_part
            .path_str()
            .unwrap(),
        "4/laptop/gpu_m3"
    );
}

#[test]
fn compare_fds_appends_the_reference_solver() {
    let elements = vec![256usize];
    let types = vec![SimulationType1D::Cpu, SimulationType1D::GpuM3];
    let s = BenchmarkBoxPlotSources::compare_fds(
        "fds/1D/AdiabaticSpeedTest",
        "fds/1D/Adiabatic/concrete_k_c",
        "laptop",
        &elements,
        &types,
    );
    assert_eq!(s.plot_directory, "plot/fds/1D/AdiabaticSpeedTest");
    assert_eq!(s.benchmark_sources.len(), 3);
    assert_eq!(s.benchmark_sources[1].color, "ff8614");
    let last = &s.benchmark_sources[2];
    assert_eq!(last.legend, "FDS max Kerne");
    assert_eq!(last.simulation_directory, "fds/1D/AdiabaticSpeedTest");
    assert_eq!(
        last.benchmark_path_part.path_str().unwrap(),
        "multi_core/laptop/fds"
    );
}

#[test]
fn thickness_mode_sweeps_the_five_thicknesses() {
    let s = BenchmarkFactorPlotSources::thickness_mode(
        "fds/1D/Diabatic/thickness_steel_k_c",
        "laptop",
    );
    assert_eq!(s.suffix, "laptop_thickness_mode");
    assert_eq!(s.benchmark_compare_path.0, "cpu");
    assert_eq!(s.benchmark_compare_path.1, "gpu_m3");
    assert_eq!(s.legend_pos, LegendPos::TopLeft);
    assert_eq!(s.elements, vec![256, 512, 1024, 2048, 4096, 8192, 16384, 32768]);
    assert_eq!(s.benchmark_sources.len(), 5);
    assert_eq!(
        s.benchmark_sources[0].benchmark_directory,
        "benchmark/fds/1D/Diabatic/thickness_steel_k_c/005cm/laptop"
    );
    assert_eq!(s.benchmark_sources[4].legend, "5,00 m (19 Zellen)");
}

#[test]
fn chunk_modes_compare_two_machines() {
    let s = BenchmarkFactorPlotSources::compare_chunk_thickness_mode(
        "fds/1D/Diabatic/thickness_steel_k_c",
        "with",
        "without",
    );
    assert_eq!(s.suffix, "compare_with_to_without_thickness_mode");
    assert_eq!(s.benchmark_compare_path.0, "with/gpu_m3");
    assert_eq!(s.benchmark_compare_path.1, "without/gpu_m3");
    assert_eq!(s.elements, vec![8192, 16384, 32768, 65536, 131072, 262144]);
    assert_eq!(s.legend_pos, LegendPos::BottomRight);

    let c = BenchmarkFactorPlotSources::compare_chunk_mode(
        "fds/1D/Diabatic/steel_k_c",
        "with",
        "without",
    );
    assert_eq!(c.suffix, "compare_with_to_without_mode");
    assert_eq!(c.benchmark_sources.len(), 1);
    assert_eq!(
        c.benchmark_sources[0].benchmark_directory,
        "benchmark/fds/1D/Diabatic/steel_k_c"
    );
}
