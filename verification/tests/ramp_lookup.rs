//! Ramp segment selection and piecewise-linear interpolation.

use wallheat::ramp::{Ramp, RampSegment};

fn ramp(pairs: &[(f32, f32)]) -> Ramp {
    Ramp {
        pairs: pairs
            .iter()
            .map(|&(t, f)| (t.to_bits(), f.to_bits()))
            .collect(),
    }
}

/// The lookup the solver performs: segment selection through the
/// library, interpolation on the selected breakpoints.
fn calc(r: &Ramp, temperature: f32) -> f32 {
    match r.bracket(temperature.to_bits()) {
        RampSegment::Below => f32::from_bits(r.pairs[0].1),
        RampSegment::Above => f32::from_bits(r.pairs[r.pairs.len() - 1].1),
        RampSegment::Within { hi } => {
            let (t1, f1) = r.pairs[hi];
            let (t0, f0) = r.pairs[hi - 1];
            let (t0, f0) = (f32::from_bits(t0), f32::from_bits(f0));
            let (t1, f1) = (f32::from_bits(t1), f32::from_bits(f1));
            f0 + (f1 - f0) / (t1 - t0) * (temperature - t0)
        }
    }
}

#[test]
fn two_point_table_interpolates() {
    let r = ramp(&[(0.0, 10.0), (10.0, 20.0)]);
    assert_eq!(calc(&r, -5.0), 10.0);
    assert_eq!(calc(&r, 5.0), 15.0);
    assert_eq!(calc(&r, 20.0), 20.0);
}

#[test]
fn segments_are_selected_exactly() {
    let r = ramp(&[(0.0, 10.0), (10.0, 20.0)]);
    assert_eq!(r.bracket((-5.0f32).to_bits()), RampSegment::Below);
    assert_eq!(r.bracket(0.0f32.to_bits()), RampSegment::Below);
    assert_eq!(r.bracket(5.0f32.to_bits()), RampSegment::Within { hi: 1 });
    assert_eq!(r.bracket(10.0f32.to_bits()), RampSegment::Above);
    assert_eq!(r.bracket(20.0f32.to_bits()), RampSegment::Above);
}

#[test]
fn single_point_table_is_constant() {
    let r = ramp(&[(20.0, 439.8)]);
    assert_eq!(calc(&r, -100.0), 439.8);
    assert_eq!(calc(&r, 20.0), 439.8);
    assert_eq!(calc(&r, 500.0), 439.8);
}

#[test]
fn three_point_table_selects_the_right_span() {
    let r = ramp(&[(0.0, 1.0), (100.0, 2.0), (200.0, 4.0)]);
    assert_eq!(r.bracket(50.0f32.to_bits()), RampSegment::Within { hi: 1 });
    assert_eq!(r.bracket(150.0f32.to_bits()), RampSegment::Within { hi: 2 });
    assert_eq!(calc(&r, 50.0), 1.5);
    assert_eq!(calc(&r, 150.0), 3.0);
}
