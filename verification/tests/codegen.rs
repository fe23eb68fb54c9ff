//! Kernel source generation.

use wallheat::shader::{
    insert_gpu_m2_data, insert_gpu_m3_data, insert_material_data, ramp_to_body, usize_to_string,
    MaterialText, RampText,
};

fn ramp_text(pairs: &[(&str, &str)]) -> RampText {
    RampText {
        pairs: pairs
            .iter()
            .map(|&(t, f)| (t.to_string(), f.to_string()))
            .collect(),
    }
}

#[test]
fn decimal_formatting() {
    assert_eq!(usize_to_string(0), "0");
    assert_eq!(usize_to_string(7), "7");
    assert_eq!(usize_to_string(12345), "12345");
}

#[test]
fn constant_ramp_body() {
    let body = ramp_to_body(&ramp_text(&[("20", "42.5")]));
    assert_eq!(body, "return 42.5;");
}

#[test]
fn interpolating_ramp_body() {
    let body = ramp_to_body(&ramp_text(&[("0", "10"), ("10", "20")]));
    let expected = format!(
        "{}{}{}",
        "if (temperature <= 0) {\n\t\t\t\treturn 10;\n\t\t\t}",
        " else if (temperature <= 10) {\n\t\t\t\treturn 10 + (20 - 10) / (10 - 0) * (temperature - 0);\n\t\t\t}",
        " else {\n\t\t\t\treturn 20;\n\t\t\t}"
    );
    assert_eq!(body, expected);
}

#[test]
fn material_switches_replace_the_placeholders() {
    let template = "//! specific_heat\n//! conductivity\n//! density\n//! emissivity\n";
    let materials = vec![
        MaterialText {
            specific_heat: ramp_text(&[("20", "439.8")]),
            conductivity: ramp_text(&[("20", "53.3")]),
            density: "7850".to_string(),
            emissivity: "0.79".to_string(),
        },
        MaterialText {
            specific_heat: ramp_text(&[("20", "1000")]),
            conductivity: ramp_text(&[("20", "1.5")]),
            density: "2300".to_string(),
            emissivity: "0.9".to_string(),
        },
    ];
    let shader = insert_material_data(template, &materials);
    let switch = |first: &str, second: &str| {
        format!(
            "switch id {{\n\t\tdefault: {{\n\t\t\t{first}\n\t\t}}\t\tcase 1u: {{\n\t\t\t{second}\n\t\t}}\n\t}}"
        )
    };
    let expected = format!(
        "{}\n{}\n{}\n{}\n",
        switch("return 439.8;", "return 1000;"),
        switch("return 53.3;", "return 1.5;"),
        switch("return 7850;", "return 2300;"),
        switch("return 0.79;", "return 0.9;"),
    );
    assert_eq!(shader, expected);
}

#[test]
fn run_geometry_constants() {
    let template = "//! cell_length\nx\n//! cell_sizes\ny\n//! cell_materials\nz";
    let sizes = vec!["0.1".to_string(), "0.25".to_string(), "0.1".to_string()];
    let materials = vec![0u32, 3, 0];
    let shader = insert_gpu_m2_data(template, &sizes, &materials);
    let expected = format!(
        "{}{}{}",
        "const CELL_LENGTH = 3u;\n const N = 1u; //x\n",
        "var<private> cell_sizes: array<f32, CELL_LENGTH> = array<f32, CELL_LENGTH>(0.1, 0.25, 0.1, ); //y\n",
        "var<private> cell_materials: array<u32, CELL_LENGTH> = array<u32, CELL_LENGTH>(0u, 3u, 0u, ); //z"
    );
    assert_eq!(shader, expected);
}

#[test]
fn padded_length_constants() {
    let template = "a\n//! max_cell_count\nb";
    let shader = insert_gpu_m3_data(template, 4);
    assert_eq!(shader, "a\nconst MAX_CELL_COUNT = 4u;\n const N = 2u; //b");
}
