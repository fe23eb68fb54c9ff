//! The adaptive sub-stepping decision.

use wallheat::stability::repeats;

fn repeats_of(x: f32) -> usize {
    repeats(x.to_bits())
}

#[test]
fn below_threshold_runs_once() {
    assert_eq!(repeats_of(0.0), 1);
    assert_eq!(repeats_of(5.0), 1);
    assert_eq!(repeats_of(9.99), 1);
    assert_eq!(repeats_of(-3.0), 1);
}

#[test]
fn one_doubling_between_the_bands() {
    assert_eq!(repeats_of(10.5), 2);
    assert_eq!(repeats_of(15.0), 2);
    assert_eq!(repeats_of(19.9), 2);
}

#[test]
fn clamped_to_four_subdivisions() {
    assert_eq!(repeats_of(20.5), 4);
    assert_eq!(repeats_of(25.0), 4);
    assert_eq!(repeats_of(40.0), 4);
    assert_eq!(repeats_of(1000.0), 4);
    assert_eq!(repeats_of(1.0e30), 4);
    assert_eq!(repeats_of(f32::INFINITY), 4);
}

#[test]
fn band_edges_follow_the_subdivision_formula() {
    // 2^ceil(log2(d / 10)): at d == 10 the exponent is zero, at d == 20
    // it is one, so the closed band edges stay with the smaller count.
    assert_eq!(repeats_of(10.0), 1);
    assert_eq!(repeats_of(20.0), 2);
}

#[test]
fn never_decreases_with_the_imbalance() {
    let samples = [0.0f32, 1.0, 9.0, 10.0, 11.0, 15.0, 19.0, 20.0, 21.0, 50.0, 1.0e9];
    for w in samples.windows(2) {
        assert!(repeats_of(w[0]) <= repeats_of(w[1]));
    }
}
