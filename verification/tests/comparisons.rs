//! The bit-pattern comparisons agree with hardware single precision
//! comparisons.

use wallheat::fl::{f_le, f_lt};

fn sample_values() -> Vec<f32> {
    vec![
        0.0,
        -0.0,
        1.0,
        -1.0,
        0.5,
        -0.5,
        10.0,
        20.0,
        -100000.0,
        -100001.0,
        1.5e-45,
        -1.5e-45,
        1.0e-40,
        -1.0e-40,
        3.4028235e38,
        -3.4028235e38,
        f32::INFINITY,
        f32::NEG_INFINITY,
        f32::NAN,
        -f32::NAN,
        1234.5678,
        -1234.5678,
    ]
}

#[test]
fn lt_matches_hardware() {
    for &a in &sample_values() {
        for &b in &sample_values() {
            assert_eq!(
                f_lt(a.to_bits(), b.to_bits()),
                a < b,
                "lt mismatch for {a} < {b}"
            );
        }
    }
}

#[test]
fn le_matches_hardware() {
    for &a in &sample_values() {
        for &b in &sample_values() {
            assert_eq!(
                f_le(a.to_bits(), b.to_bits()),
                a <= b,
                "le mismatch for {a} <= {b}"
            );
        }
    }
}
