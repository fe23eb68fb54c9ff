//! Descriptions of benchmark comparison plots.
//!
//! A plot is described by the benchmark directories it draws from, a
//! legend and color per trace, and the element counts on its axis; the
//! drawing itself is the caller's concern. Building these descriptions
//! is pure path and label construction and is verified here.

use vstd::prelude::*;
use vstd::string::StringExecFns;

use crate::bench::{benchmark_elements, benchmark_chunk_elements, BenchmarkPathPart};
use crate::sim::{spec_method_of, SimulationMethod, SimulationType1D};

verus! {

/// The trace colors used by every comparison plot: red, blue, green,
/// orange, purple, yellow.
pub open spec fn spec_color(i: int) -> Seq<char> {
    if i == 0 {
        "ff3f33"@
    } else if i == 1 {
        "0075da"@
    } else if i == 2 {
        "2acd3e"@
    } else if i == 3 {
        "ff8614"@
    } else if i == 4 {
        "b205ca"@
    } else {
        "ffdd00"@
    }
}

/// The trace color for one index.
pub fn color(i: usize) -> (r: &'static str)
    requires
        i < 6,
    ensures
        r@ == spec_color(i as int),
{
    if i == 0 {
        "ff3f33"
    } else if i == 1 {
        "0075da"
    } else if i == 2 {
        "2acd3e"
    } else if i == 3 {
        "ff8614"
    } else if i == 4 {
        "b205ca"
    } else {
        "ffdd00"
    }
}

/// Data for one trace of a box plot.
#[derive(Debug, Clone)]
pub struct BenchmarkBoxPlotSource {
    /// Directory of the simulation the timings were recorded for.
    pub simulation_directory: String,
    /// Suffix under `simulation_directory` for the full path.
    pub benchmark_path_part: BenchmarkPathPart,
    /// Legend name.
    pub legend: String,
    /// Trace color.
    pub color: String,
}

/// What one box plot trace holds.
pub open spec fn box_source_is(
    s: BenchmarkBoxPlotSource,
    dir: Seq<char>,
    prefix: Option<Seq<char>>,
    label: Seq<char>,
    m: SimulationMethod,
    legend: Seq<char>,
    color: Seq<char>,
) -> bool {
    &&& s.simulation_directory@ == dir
    &&& (prefix is None ==> s.benchmark_path_part.prefix is None)
    &&& (prefix is Some ==> s.benchmark_path_part.prefix is Some
        && s.benchmark_path_part.prefix.unwrap()@ == prefix.unwrap())
    &&& s.benchmark_path_part.label@ == label
    &&& s.benchmark_path_part.simulation_method == m
    &&& s.legend@ == legend
    &&& s.color@ == color
}

/// All data for a box plot that shows recorded simulation times.
#[derive(Debug, Clone)]
pub struct BenchmarkBoxPlotSources {
    /// The directory the plot should be saved in.
    pub plot_directory: String,
    /// Data for all traces of the plot.
    pub benchmark_sources: Vec<BenchmarkBoxPlotSource>,
    /// The numbers of wall elements shown on the axis.
    pub elements: Vec<usize>,
    /// Suffix of the plot file name.
    pub suffix: String,
    /// Whether the legend floats over the plot area.
    pub floating_legend: bool,
}

impl BenchmarkBoxPlotSources {
    /// Describes the plot comparing the four backends on one
    /// simulation.
    pub fn compare_mode(simulation_directory: &str, label: &str, elements: &Vec<usize>) -> (r:
        Self)
        ensures
            r.plot_directory@ == "plot/"@ + simulation_directory@,
            r.suffix@ == label@ + "_compare_mode"@,
            r.elements@ == elements@,
            r.floating_legend == true,
            r.benchmark_sources@.len() == 4,
            box_source_is(
                r.benchmark_sources@[0],
                simulation_directory@,
                Option::None,
                label@,
                SimulationMethod::OneDimensionalCpu,
                "CPU"@,
                spec_color(0),
            ),
            box_source_is(
                r.benchmark_sources@[1],
                simulation_directory@,
                Option::None,
                label@,
                SimulationMethod::OneDimensionalGpuM1,
                "GPU M1"@,
                spec_color(1),
            ),
            box_source_is(
                r.benchmark_sources@[2],
                simulation_directory@,
                Option::None,
                label@,
                SimulationMethod::OneDimensionalGpuM2,
                "GPU M2"@,
                spec_color(2),
            ),
            box_source_is(
                r.benchmark_sources@[3],
                simulation_directory@,
                Option::None,
                label@,
                SimulationMethod::OneDimensionalGpuM3,
                "GPU M3"@,
                spec_color(3),
            ),
    {
        let mut plot_directory = String::from_str("plot/");
        plot_directory.append(simulation_directory);
        let mut suffix = String::from_str(label);
        suffix.append("_compare_mode");
        let mut benchmark_sources: Vec<BenchmarkBoxPlotSource> = Vec::new();
        let mut i: usize = 0;
        let types = all_types_1d();
        while i < 4
            invariant
                0 <= i <= 4,
                types@ =~= seq![
                    SimulationType1D::Cpu,
                    SimulationType1D::GpuM1,
                    SimulationType1D::GpuM2,
                    SimulationType1D::GpuM3,
                ],
                benchmark_sources@.len() == i,
                forall|k: int|
                    0 <= k < i ==> box_source_is(
                        #[trigger] benchmark_sources@[k],
                        simulation_directory@,
                        Option::None,
                        label@,
                        spec_method_of(types@[k]),
                        (match types@[k] {
                            SimulationType1D::Cpu => "CPU"@,
                            SimulationType1D::GpuM1 => "GPU M1"@,
                            SimulationType1D::GpuM2 => "GPU M2"@,
                            SimulationType1D::GpuM3 => "GPU M3"@,
                        }),
                        spec_color(k),
                    ),
            decreases 4 - i,
        {
            let t = types[i];
            let source = BenchmarkBoxPlotSource {
                simulation_directory: String::from_str(simulation_directory),
                benchmark_path_part: BenchmarkPathPart::new(
                    None,
                    String::from_str(label),
                    t.method(),
                ),
                legend: String::from_str(t.label()),
                color: String::from_str(color(i)),
            };
            benchmark_sources.push(source);
            i += 1;
        }
        BenchmarkBoxPlotSources {
            plot_directory,
            benchmark_sources,
            elements: clone_elements(elements),
            suffix,
            floating_legend: true,
        }
    }

    /// Describes the plot comparing the influence of the material
    /// count on one backend.
    pub fn compare_multiple(
        simulation_directory: &str,
        label: &str,
        elements: &Vec<usize>,
        numbers: &Vec<u8>,
        simulation_type: SimulationType1D,
    ) -> (r: Self)
        requires
            numbers@.len() <= 6,
        ensures
            r.plot_directory@ == "plot/"@ + simulation_directory@,
            r.suffix@ == label@ + "_compare_multiple_"@ + crate::sim::spec_method_path(
                spec_method_of(simulation_type),
            ),
            r.elements@ == elements@,
            r.floating_legend == false,
            r.benchmark_sources@.len() == numbers@.len(),
            forall|k: int|
                0 <= k < numbers@.len() ==> box_source_is(
                    #[trigger] r.benchmark_sources@[k],
                    simulation_directory@,
                    Option::Some(crate::shader::dec_str(numbers@[k] as nat)),
                    label@,
                    spec_method_of(simulation_type),
                    crate::shader::dec_str(numbers@[k] as nat),
                    spec_color(k),
                ),
    {
        let mut plot_directory = String::from_str("plot/");
        plot_directory.append(simulation_directory);
        let mut suffix = String::from_str(label);
        suffix.append("_compare_multiple_");
        suffix.append(simulation_type.path_str());
        proof {
            assert(suffix@ =~= label@ + "_compare_multiple_"@ + crate::sim::spec_method_path(
                spec_method_of(simulation_type),
            ));
        }
        let mut benchmark_sources: Vec<BenchmarkBoxPlotSource> = Vec::new();
        let n = numbers.len();
        let mut i: usize = 0;
        while i < n
            invariant
                0 <= i <= n,
                n == numbers@.len(),
                n <= 6,
                benchmark_sources@.len() == i,
                forall|k: int|
                    0 <= k < i ==> box_source_is(
                        #[trigger] benchmark_sources@[k],
                        simulation_directory@,
                        Option::Some(crate::shader::dec_str(numbers@[k] as nat)),
                        label@,
                        spec_method_of(simulation_type),
                        crate::shader::dec_str(numbers@[k] as nat),
                        spec_color(k),
                    ),
            decreases n - i,
        {
            let number_text = crate::shader::usize_to_string(numbers[i] as usize);
            let source = BenchmarkBoxPlotSource {
                simulation_directory: String::from_str(simulation_directory),
                benchmark_path_part: BenchmarkPathPart {
                    prefix: Some(number_text.clone()),
                    label: String::from_str(label),
                    simulation_method: simulation_type.method(),
                },
                legend: number_text,
                color: String::from_str(color(i)),
            };
            benchmark_sources.push(source);
            i += 1;
        }
        BenchmarkBoxPlotSources {
            plot_directory,
            benchmark_sources,
            elements: clone_elements(elements),
            suffix,
            floating_legend: false,
        }
    }

    /// Describes the plot comparing backends against the reference
    /// solver's multi-core speed test.
    pub fn compare_fds(
        fds_directory: &str,
        simulation_directory: &str,
        label: &str,
        elements: &Vec<usize>,
        simulation_types: &Vec<SimulationType1D>,
    ) -> (r: Self)
        ensures
            r.plot_directory@ == "plot/"@ + fds_directory@,
            r.suffix@ == label@ + "_compare_fds"@,
            r.elements@ == elements@,
            r.floating_legend == true,
            r.benchmark_sources@.len() == simulation_types@.len() + 1,
            forall|k: int|
                0 <= k < simulation_types@.len() ==> box_source_is(
                    #[trigger] r.benchmark_sources@[k],
                    simulation_directory@,
                    Option::None,
                    label@,
                    spec_method_of(simulation_types@[k]),
                    (match simulation_types@[k] {
                        SimulationType1D::Cpu => "CPU"@,
                        SimulationType1D::GpuM1 => "GPU M1"@,
                        SimulationType1D::GpuM2 => "GPU M2"@,
                        SimulationType1D::GpuM3 => "GPU M3"@,
                    }),
                    (match simulation_types@[k] {
                        SimulationType1D::Cpu => spec_color(0),
                        SimulationType1D::GpuM1 => spec_color(1),
                        SimulationType1D::GpuM2 => spec_color(2),
                        SimulationType1D::GpuM3 => spec_color(3),
                    }),
                ),
            box_source_is(
                r.benchmark_sources@[simulation_types@.len() as int],
                fds_directory@,
                Option::Some("multi_core"@),
                label@,
                SimulationMethod::SpeedTestFDS,
                "FDS max Kerne"@,
                spec_color(4),
            ),
    {
        let mut plot_directory = String::from_str("plot/");
        plot_directory.append(fds_directory);
        let mut suffix = String::from_str(label);
        suffix.append("_compare_fds");
        let mut benchmark_sources: Vec<BenchmarkBoxPlotSource> = Vec::new();
        let n = simulation_types.len();
        let mut i: usize = 0;
        while i < n
            invariant
                0 <= i <= n,
                n == simulation_types@.len(),
                benchmark_sources@.len() == i,
                forall|k: int|
                    0 <= k < i ==> box_source_is(
                        #[trigger] benchmark_sources@[k],
                        simulation_directory@,
                        Option::None,
                        label@,
                        spec_method_of(simulation_types@[k]),
                        (match simulation_types@[k] {
                            SimulationType1D::Cpu => "CPU"@,
                            SimulationType1D::GpuM1 => "GPU M1"@,
                            SimulationType1D::GpuM2 => "GPU M2"@,
                            SimulationType1D::GpuM3 => "GPU M3"@,
                        }),
                        (match simulation_types@[k] {
                            SimulationType1D::Cpu => spec_color(0),
                            SimulationType1D::GpuM1 => spec_color(1),
                            SimulationType1D::GpuM2 => spec_color(2),
                            SimulationType1D::GpuM3 => spec_color(3),
                        }),
                    ),
            decreases n - i,
        {
            let t = simulation_types[i];
            let color_index: usize = match t {
                SimulationType1D::Cpu => 0,
                SimulationType1D::GpuM1 => 1,
                SimulationType1D::GpuM2 => 2,
                SimulationType1D::GpuM3 => 3,
            };
            let source = BenchmarkBoxPlotSource {
                simulation_directory: String::from_str(simulation_directory),
                benchmark_path_part: BenchmarkPathPart::new(
                    None,
                    String::from_str(label),
                    t.method(),
                ),
                legend: String::from_str(t.label()),
                color: String::from_str(color(color_index)),
            };
            benchmark_sources.push(source);
            i += 1;
        }
        let fds_source = BenchmarkBoxPlotSource {
            simulation_directory: String::from_str(fds_directory),
            benchmark_path_part: BenchmarkPathPart {
                prefix: Some(String::from_str("multi_core")),
                label: String::from_str(label),
                simulation_method: SimulationMethod::SpeedTestFDS,
            },
            legend: String::from_str("FDS max Kerne"),
            color: String::from_str(color(4)),
        };
        benchmark_sources.push(fds_source);
        BenchmarkBoxPlotSources {
            plot_directory,
            benchmark_sources,
            elements: clone_elements(elements),
            suffix,
            floating_legend: true,
        }
    }
}

/// Data for one trace of a factor plot.
#[derive(Debug, Clone)]
pub struct BenchmarkFactorPlotSource {
    /// Path to the benchmark data.
    pub benchmark_directory: String,
    /// Legend name.
    pub legend: String,
    /// Trace color.
    pub color: String,
}

/// What one factor plot trace holds.
pub open spec fn factor_source_is(
    s: BenchmarkFactorPlotSource,
    dir: Seq<char>,
    legend: Seq<char>,
    color: Seq<char>,
) -> bool {
    &&& s.benchmark_directory@ == dir
    &&& s.legend@ == legend
    &&& s.color@ == color
}

/// Where the legend of a factor plot sits.
#[derive(Debug, Clone, Copy, PartialEq, Eq, Structural)]
pub enum LegendPos {
    TopLeft,
    BottomRight,
}

/// All data for a bar chart showing the time ratio between two
/// recorded benchmark series.
#[derive(Debug)]
pub struct BenchmarkFactorPlotSources {
    /// The directory the plot should be saved in.
    pub plot_directory: String,
    /// Data for all traces of the plot.
    pub benchmark_sources: Vec<BenchmarkFactorPlotSource>,
    /// The two series whose ratio each trace shows, as suffixes of the
    /// trace's benchmark directory.
    pub benchmark_compare_path: (String, String),
    /// The numbers of wall elements shown on the axis.
    pub elements: Vec<usize>,
    /// Suffix of the plot file name.
    pub suffix: String,
    /// Label of the vertical axis.
    pub y_axis: String,
    /// Where the legend sits.
    pub legend_pos: LegendPos,
}

/// The five thickness series of the steel wall benchmark: directory
/// fragment and legend.
pub open spec fn spec_thickness_part(k: int) -> Seq<char> {
    if k == 0 {
        "005cm"@
    } else if k == 1 {
        "010cm"@
    } else if k == 2 {
        "050cm"@
    } else if k == 3 {
        "100cm"@
    } else {
        "500cm"@
    }
}

/// The legend texts of the five thickness series.
pub open spec fn spec_thickness_legend(k: int) -> Seq<char> {
    if k == 0 {
        "0,05 m (6 Zellen)"@
    } else if k == 1 {
        "0,10 m (8 Zellen)"@
    } else if k == 2 {
        "0,50 m (13 Zellen)"@
    } else if k == 3 {
        "1,00 m (14 Zellen)"@
    } else {
        "5,00 m (19 Zellen)"@
    }
}

/// The directory fragment of one thickness series.
fn thickness_part(k: usize) -> (r: &'static str)
    requires
        k < 5,
    ensures
        r@ == spec_thickness_part(k as int),
{
    if k == 0 {
        "005cm"
    } else if k == 1 {
        "010cm"
    } else if k == 2 {
        "050cm"
    } else if k == 3 {
        "100cm"
    } else {
        "500cm"
    }
}

/// The legend text of one thickness series.
fn thickness_legend(k: usize) -> (r: &'static str)
    requires
        k < 5,
    ensures
        r@ == spec_thickness_legend(k as int),
{
    if k == 0 {
        "0,05 m (6 Zellen)"
    } else if k == 1 {
        "0,10 m (8 Zellen)"
    } else if k == 2 {
        "0,50 m (13 Zellen)"
    } else if k == 3 {
        "1,00 m (14 Zellen)"
    } else {
        "5,00 m (19 Zellen)"
    }
}

/// Two path fragments joined by a separator.
fn path_join(a: &str, b: &str) -> (r: String)
    ensures
        r@ == a@ + "/"@ + b@,
{
    let mut r = String::from_str(a);
    r.append("/");
    r.append(b);
    proof {
        assert(r@ =~= a@ + "/"@ + b@);
    }
    r
}

impl BenchmarkFactorPlotSources {
    /// Describes the plot comparing the impact of the wall thickness
    /// on the time ratio between the processor backend and the padded
    /// device backend.
    pub fn thickness_mode(simulation_directory: &str, label: &str) -> (r: Self)
        ensures
            r.plot_directory@ == "plot/"@ + simulation_directory@,
            r.suffix@ == label@ + "_thickness_mode"@,
            r.elements@ =~= seq![256usize, 512, 1024, 2048, 4096, 8192, 16384, 32768],
            r.y_axis@ == "Verhaeltnis CPU / GPU M3"@,
            r.benchmark_compare_path.0@ == "cpu"@,
            r.benchmark_compare_path.1@ == "gpu_m3"@,
            r.legend_pos == LegendPos::TopLeft,
            r.benchmark_sources@.len() == 5,
            forall|k: int|
                0 <= k < 5 ==> factor_source_is(
                    #[trigger] r.benchmark_sources@[k],
                    "benchmark/"@ + simulation_directory@ + "/"@ + spec_thickness_part(k) + "/"@
                        + label@,
                    spec_thickness_legend(k),
                    spec_color(k),
                ),
    {
        let mut benchmark_directory = String::from_str("benchmark/");
        benchmark_directory.append(simulation_directory);
        let mut plot_directory = String::from_str("plot/");
        plot_directory.append(simulation_directory);
        let mut suffix = String::from_str(label);
        suffix.append("_thickness_mode");
        let mut benchmark_sources: Vec<BenchmarkFactorPlotSource> = Vec::new();
        let mut k: usize = 0;
        while k < 5
            invariant
                0 <= k <= 5,
                benchmark_directory@ == "benchmark/"@ + simulation_directory@,
                benchmark_sources@.len() == k,
                forall|t: int|
                    0 <= t < k ==> factor_source_is(
                        #[trigger] benchmark_sources@[t],
                        "benchmark/"@ + simulation_directory@ + "/"@ + spec_thickness_part(t)
                            + "/"@ + label@,
                        spec_thickness_legend(t),
                        spec_color(t),
                    ),
            decreases 5 - k,
        {
            let with_part = path_join(benchmark_directory.as_str(), thickness_part(k));
            let with_label = path_join(with_part.as_str(), label);
            proof {
                assert(with_label@ =~= "benchmark/"@ + simulation_directory@ + "/"@
                    + spec_thickness_part(k as int) + "/"@ + label@);
            }
            let source = BenchmarkFactorPlotSource {
                benchmark_directory: with_label,
                legend: String::from_str(thickness_legend(k)),
                color: String::from_str(color(k)),
            };
            benchmark_sources.push(source);
            k += 1;
        }
        BenchmarkFactorPlotSources {
            plot_directory,
            benchmark_sources,
            elements: benchmark_elements(),
            suffix,
            y_axis: String::from_str("Verhaeltnis CPU / GPU M3"),
            benchmark_compare_path: (String::from_str("cpu"), String::from_str("gpu_m3")),
            legend_pos: LegendPos::TopLeft,
        }
    }

    /// Describes the plot comparing, per wall thickness, the padded
    /// device backend's times recorded on two machines.
    pub fn compare_chunk_thickness_mode(
        simulation_directory: &str,
        computer_1: &str,
        computer_2: &str,
    ) -> (r: Self)
        ensures
            r.plot_directory@ == "plot/"@ + simulation_directory@,
            r.suffix@ == "compare_"@ + computer_1@ + "_to_"@ + computer_2@ + "_thickness_mode"@,
            r.elements@ =~= seq![8192usize, 16384, 32768, 65536, 131072, 262144],
            r.y_axis@ == "Verhaeltnis ohne/mit"@,
            r.benchmark_compare_path.0@ == computer_1@ + "/"@ + "gpu_m3"@,
            r.benchmark_compare_path.1@ == computer_2@ + "/"@ + "gpu_m3"@,
            r.legend_pos == LegendPos::BottomRight,
            r.benchmark_sources@.len() == 5,
            forall|k: int|
                0 <= k < 5 ==> factor_source_is(
                    #[trigger] r.benchmark_sources@[k],
                    "benchmark/"@ + simulation_directory@ + "/"@ + spec_thickness_part(k),
                    spec_thickness_legend(k),
                    spec_color(k),
                ),
    {
        let mut benchmark_directory = String::from_str("benchmark/");
        benchmark_directory.append(simulation_directory);
        let mut plot_directory = String::from_str("plot/");
        plot_directory.append(simulation_directory);
        let mut suffix = String::from_str("compare_");
        suffix.append(computer_1);
        suffix.append("_to_");
        suffix.append(computer_2);
        suffix.append("_thickness_mode");
        proof {
            assert(suffix@ =~= "compare_"@ + computer_1@ + "_to_"@ + computer_2@
                + "_thickness_mode"@);
        }
        let mut benchmark_sources: Vec<BenchmarkFactorPlotSource> = Vec::new();
        let mut k: usize = 0;
        while k < 5
            invariant
                0 <= k <= 5,
                benchmark_directory@ == "benchmark/"@ + simulation_directory@,
                benchmark_sources@.len() == k,
                forall|t: int|
                    0 <= t < k ==> factor_source_is(
                        #[trigger] benchmark_sources@[t],
                        "benchmark/"@ + simulation_directory@ + "/"@ + spec_thickness_part(t),
                        spec_thickness_legend(t),
                        spec_color(t),
                    ),
            decreases 5 - k,
        {
            let with_part = path_join(benchmark_directory.as_str(), thickness_part(k));
            proof {
                assert(with_part@ =~= "benchmark/"@ + simulation_directory@ + "/"@
                    + spec_thickness_part(k as int));
            }
            let source = BenchmarkFactorPlotSource {
                benchmark_directory: with_part,
                legend: String::from_str(thickness_legend(k)),
                color: String::from_str(color(k)),
            };
            benchmark_sources.push(source);
            k += 1;
        }
        BenchmarkFactorPlotSources {
            plot_directory,
            benchmark_sources,
            elements: chunk_sweep_elements(),
            suffix,
            y_axis: String::from_str("Verhaeltnis ohne/mit"),
            benchmark_compare_path: (path_join(computer_1, "gpu_m3"), path_join(
                computer_2,
                "gpu_m3",
            )),
            legend_pos: LegendPos::BottomRight,
        }
    }

    /// Describes the plot comparing the padded device backend's times
    /// recorded on two machines, over the chunk-exercising element
    /// counts.
    pub fn compare_chunk_mode(
        simulation_directory: &str,
        computer_1: &str,
        computer_2: &str,
    ) -> (r: Self)
        ensures
            r.plot_directory@ == "plot/"@ + simulation_directory@,
            r.suffix@ == "compare_"@ + computer_1@ + "_to_"@ + computer_2@ + "_mode"@,
            r.elements@ =~= seq![8192usize, 16384, 32768, 65536, 131072, 262144],
            r.y_axis@ == "Verhaeltnis ohne/mit"@,
            r.benchmark_compare_path.0@ == computer_1@ + "/"@ + "gpu_m3"@,
            r.benchmark_compare_path.1@ == computer_2@ + "/"@ + "gpu_m3"@,
            r.legend_pos == LegendPos::BottomRight,
            r.benchmark_sources@.len() == 1,
            factor_source_is(
                r.benchmark_sources@[0],
                "benchmark/"@ + simulation_directory@,
                "Verhaeltnis"@,
                spec_color(3),
            ),
    {
        let mut benchmark_directory = String::from_str("benchmark/");
        benchmark_directory.append(simulation_directory);
        let mut plot_directory = String::from_str("plot/");
        plot_directory.append(simulation_directory);
        let mut suffix = String::from_str("compare_");
        suffix.append(computer_1);
        suffix.append("_to_");
        suffix.append(computer_2);
        suffix.append("_mode");
        proof {
            assert(suffix@ =~= "compare_"@ + computer_1@ + "_to_"@ + computer_2@ + "_mode"@);
        }
        let mut benchmark_sources: Vec<BenchmarkFactorPlotSource> = Vec::new();
        let source = BenchmarkFactorPlotSource {
            benchmark_directory,
            legend: String::from_str("Verhaeltnis"),
            color: String::from_str(color(3)),
        };
        benchmark_sources.push(source);
        BenchmarkFactorPlotSources {
            plot_directory,
            benchmark_sources,
            elements: chunk_sweep_elements(),
            suffix,
            y_axis: String::from_str("Verhaeltnis ohne/mit"),
            benchmark_compare_path: (path_join(computer_1, "gpu_m3"), path_join(
                computer_2,
                "gpu_m3",
            )),
            legend_pos: LegendPos::BottomRight,
        }
    }
}

/// The largest regular element counts together with the
/// chunk-exercising ones.
fn chunk_sweep_elements() -> (r: Vec<usize>)
    ensures
        r@ =~= seq![8192usize, 16384, 32768, 65536, 131072, 262144],
{
    let mut r: Vec<usize> = Vec::new();
    r.push(8192);
    r.push(16384);
    r.push(32768);
    let mut chunk = benchmark_chunk_elements();
    r.append(&mut chunk);
    proof {
        assert(r@ =~= seq![8192usize, 16384, 32768, 65536, 131072, 262144]);
    }
    r
}

/// The four backends, in plotting order.
pub fn all_types_1d() -> (r: Vec<SimulationType1D>)
    ensures
        r@ =~= seq![
            SimulationType1D::Cpu,
            SimulationType1D::GpuM1,
            SimulationType1D::GpuM2,
            SimulationType1D::GpuM3,
        ],
{
    let mut r: Vec<SimulationType1D> = Vec::new();
    r.push(SimulationType1D::Cpu);
    r.push(SimulationType1D::GpuM1);
    r.push(SimulationType1D::GpuM2);
    r.push(SimulationType1D::GpuM3);
    r
}

/// A copy of the element counts for one plot description.
fn clone_elements(elements: &Vec<usize>) -> (r: Vec<usize>)
    ensures
        r@ == elements@,
{
    let mut r: Vec<usize> = Vec::new();
    let n = elements.len();
    let mut i: usize = 0;
    while i < n
        invariant
            0 <= i <= n,
            n == elements@.len(),
            r@ =~= elements@.take(i as int),
        decreases n - i,
    {
        r.push(elements[i]);
        proof {
            assert(r@ =~= elements@.take(i + 1));
        }
        i += 1;
    }
    proof {
        assert(elements@.take(n as int) =~= elements@);
    }
    r
}

} // verus!
