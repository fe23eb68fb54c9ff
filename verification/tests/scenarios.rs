//! Whole-timestep scenarios: the library decides segment selection,
//! boundary classification and sub-stepping, and the test performs the
//! single precision arithmetic on the selected values, as a driver
//! does.

use wallheat::boundary::{boundary_kind, BoundaryKind};
use wallheat::model::{Material, WallCell, WallElement};
use wallheat::ramp::{Ramp, RampSegment};
use wallheat::stability::repeats;
use wallheat::{ADIABATIC_H_BITS, CONST_TEMP_H_BITS};

const SIGMA: f32 = 0.0000000567;

fn ramp(pairs: &[(f32, f32)]) -> Ramp {
    Ramp {
        pairs: pairs
            .iter()
            .map(|&(t, f)| (t.to_bits(), f.to_bits()))
            .collect(),
    }
}

fn calc(r: &Ramp, temperature: f32) -> f32 {
    match r.bracket(temperature.to_bits()) {
        RampSegment::Below => f32::from_bits(r.pairs[0].1),
        RampSegment::Above => f32::from_bits(r.pairs[r.pairs.len() - 1].1),
        RampSegment::Within { hi } => {
            let (t1, f1) = r.pairs[hi];
            let (t0, f0) = r.pairs[hi - 1];
            let (t0, f0) = (f32::from_bits(t0), f32::from_bits(f0));
            let (t1, f1) = (f32::from_bits(t1), f32::from_bits(f1));
            f0 + (f1 - f0) / (t1 - t0) * (temperature - t0)
        }
    }
}

fn size(c: &WallCell) -> f32 {
    f32::from_bits(c.size)
}

fn temperature(c: &WallCell) -> f32 {
    f32::from_bits(c.temperature)
}

fn max_delta_temperature(element: &WallElement, materials: &[Material], delta_time: f32) -> f32 {
    let cells = &element.cells;
    let len = cells.len();
    let mut delta = 0.0f32;
    let t_b = temperature(&cells[0]);
    let x_b = size(&cells[0]);
    let k_b = calc(&materials[cells[0].material as usize].conductivity, t_b);
    let m_c = &materials[cells[1].material as usize];
    let t_c = temperature(&cells[1]);
    let mut x_c = size(&cells[1]);
    let k_c = calc(&m_c.conductivity, t_c);
    let c_c = calc(&m_c.specific_heat, t_c);
    let rho_c = f32::from_bits(m_c.density);
    let k_m_b = (k_c + k_b) / 2.0;
    let mut before = k_m_b * (t_c - t_b) / ((x_c + x_b) / 2.0);
    let mut f1 = delta_time * (rho_c * c_c);
    let mut t_c = t_c;
    for i in 1..(len - 1) {
        let m_a = &materials[cells[i + 1].material as usize];
        let t_a = temperature(&cells[i + 1]);
        let x_a = size(&cells[i + 1]);
        let k_a = calc(&m_a.conductivity, t_a);
        let c_a = calc(&m_a.specific_heat, t_a);
        let rho_a = f32::from_bits(m_a.density);
        let k_m_a = (k_c + k_a) / 2.0;
        let after = k_m_a * (t_a - t_c) / ((x_a + x_c) / 2.0);
        delta = ((f1 * (after - before) / x_c).abs()).max(delta);
        x_c = x_a;
        t_c = t_a;
        before = after;
        f1 = delta_time * (rho_a * c_a);
    }
    delta
}

fn side_closure(
    element: &WallElement,
    materials: &[Material],
    h: f32,
    q: f32,
    front: bool,
) -> (f32, f32) {
    match boundary_kind(h.to_bits()) {
        BoundaryKind::Adiabatic => (1.0, 0.0),
        BoundaryKind::ConstTemp => (-1.0, 2.0 * q),
        BoundaryKind::Convective => {
            let cells = &element.cells;
            let len = cells.len();
            let (i0, i1) = if front { (0, 1) } else { (len - 1, len - 2) };
            let t = (temperature(&cells[i0]) + temperature(&cells[i1])) / 2.0;
            let material = &materials[cells[i0].material as usize];
            let dx = size(&cells[i0]);
            let emissivity = f32::from_bits(material.emissivity);
            let rfac = 0.5 * h + 2.0 * emissivity * SIGMA * t.powf(3.0);
            let qdxk_num = q + 3.0 * emissivity * SIGMA * t.powf(4.0);
            let k = calc(&material.conductivity, t);
            ((k / dx - rfac) / (k / dx + rfac), qdxk_num / (k / dx + rfac))
        }
    }
}

fn solve(element: &mut WallElement, materials: &[Material], closure: [f32; 4], delta_time: f32) {
    let len = element.cells.len();
    let n = len - 2;
    let mut matrix: Vec<[f32; 4]> = Vec::with_capacity(n);
    let cells = &element.cells;
    let mut t_d = temperature(&cells[1]);
    let mut m_d = &materials[cells[1].material as usize];
    let mut dx_d = size(&cells[1]);
    let mut f1 = 2.0 * f32::from_bits(m_d.density) * calc(&m_d.specific_heat, t_d);
    let t_b = temperature(&cells[0]);
    let dx_b = size(&cells[0]);
    let k_b = (calc(&m_d.conductivity, t_d)
        + calc(&materials[cells[0].material as usize].conductivity, t_b))
        / 2.0;
    let mut b = -delta_time * k_b / (f1 * dx_d * (dx_d + dx_b) / 2.0);
    let mut c_b = b * (t_d - t_b);
    for i in 1..(len - 1) {
        let t_a = temperature(&cells[i + 1]);
        let m_a = &materials[cells[i + 1].material as usize];
        let dx_a = size(&cells[i + 1]);
        let k_a = (calc(&m_d.conductivity, t_d) + calc(&m_a.conductivity, t_a)) / 2.0;
        let a = -delta_time * k_a / (f1 * dx_d * (dx_d + dx_a) / 2.0);
        let c_a = a * (t_a - t_d);
        let d = 1.0 - a - b;
        let c = t_d - c_a + c_b;
        matrix.push([b, d, a, c]);
        f1 = 2.0 * f32::from_bits(m_a.density) * calc(&m_a.specific_heat, t_a);
        let k_b = (calc(&m_a.conductivity, t_a) + calc(&m_a.conductivity, t_d)) / 2.0;
        b = -delta_time * k_b / (f1 * dx_a * (dx_a + dx_d) / 2.0);
        c_b = b * (t_a - t_d);
        t_d = t_a;
        m_d = m_a;
        dx_d = dx_a;
    }
    let [rfac2_f, qdxk_f, rfac2_b, qdxk_b] = closure;
    matrix[0][3] -= matrix[0][0] * qdxk_f;
    matrix[n - 1][3] -= matrix[n - 1][2] * qdxk_b;
    matrix[0][1] += matrix[0][0] * rfac2_f;
    matrix[n - 1][1] += matrix[n - 1][2] * rfac2_b;
    for i in 1..n {
        let r = matrix[i][0] / matrix[i - 1][1];
        matrix[i][1] -= r * matrix[i - 1][2];
        matrix[i][3] -= r * matrix[i - 1][3];
    }
    matrix[n - 1][3] /= matrix[n - 1][1];
    for i in (0..(n - 1)).rev() {
        matrix[i][3] = (matrix[i][3] - matrix[i][2] * matrix[i + 1][3]) / matrix[i][1];
    }
    for i in 0..n {
        element.cells[i + 1].temperature = matrix[i][3].to_bits();
    }
    element.cells[0].temperature =
        (f32::from_bits(element.cells[1].temperature) * rfac2_f + qdxk_f).to_bits();
    element.cells[len - 1].temperature =
        (f32::from_bits(element.cells[len - 2].temperature) * rfac2_b + qdxk_b).to_bits();
}

fn heat_transfer(
    element: &mut WallElement,
    materials: &[Material],
    h: [f32; 2],
    q: [f32; 2],
    delta_time: f32,
) {
    let delta = max_delta_temperature(element, materials, delta_time);
    let reps = repeats(delta.to_bits());
    let sub_delta_time = delta_time / (reps as f32);
    for _ in 0..reps {
        let (rfac2_f, qdxk_f) = side_closure(element, materials, h[0], q[0], true);
        let (rfac2_b, qdxk_b) = side_closure(element, materials, h[1], q[1], false);
        solve(
            element,
            materials,
            [rfac2_f, qdxk_f, rfac2_b, qdxk_b],
            sub_delta_time,
        );
    }
}

fn steel() -> Material {
    Material {
        specific_heat: ramp(&[(20.0, 439.8)]),
        conductivity: ramp(&[(20.0, 53.3)]),
        density: 7850.0f32.to_bits(),
        emissivity: 0.79f32.to_bits(),
    }
}

fn element_sized(size: f32, temperatures: &[f32]) -> WallElement {
    WallElement::new(
        temperatures
            .iter()
            .map(|&t| WallCell {
                size: size.to_bits(),
                material: 0,
                temperature: t.to_bits(),
            })
            .collect(),
    )
}

fn element(temperatures: &[f32]) -> WallElement {
    element_sized(0.01, temperatures)
}

#[test]
fn fixed_boundaries_hold_a_uniform_wall_at_their_temperature() {
    // One interior cell between the two boundary half-cells, both
    // sides held at 20 degrees, everything starting at 20 degrees.
    // With millimetre cells the rounding cancels and nothing moves,
    // bit for bit; with centimetre cells the single rounding of the
    // diagonal fold shows up as at most a few ulps.
    let materials = [steel()];
    let h = f32::from_bits(CONST_TEMP_H_BITS);
    let mut wall = element_sized(0.001, &[20.0, 20.0, 20.0]);
    heat_transfer(&mut wall, &materials, [h, h], [20.0, 20.0], 1.0);
    for c in &wall.cells {
        assert_eq!(f32::from_bits(c.temperature), 20.0);
    }
    let mut wall = element_sized(0.01, &[20.0, 20.0, 20.0]);
    heat_transfer(&mut wall, &materials, [h, h], [20.0, 20.0], 1.0);
    for c in &wall.cells {
        assert!((f32::from_bits(c.temperature) - 20.0).abs() < 1.0e-4);
    }
}

#[test]
fn adiabatic_boundaries_preserve_a_uniform_wall() {
    // No heat source and no exchange: the temperatures stay where they
    // are, up to the rounding of the implicit solve.
    let materials = [steel()];
    let h = f32::from_bits(ADIABATIC_H_BITS);
    for &dt in &[0.1f32, 1.0, 10.0, 123.456] {
        let mut wall = element(&[35.5, 35.5, 35.5, 35.5, 35.5]);
        heat_transfer(&mut wall, &materials, [h, h], [7.0, -3.0], dt);
        for c in &wall.cells {
            assert!(
                (f32::from_bits(c.temperature) - 35.5).abs() < 1.0e-3,
                "moved at dt {dt}"
            );
        }
    }
}

#[test]
fn a_hot_side_warms_the_wall_monotonically() {
    let materials = [steel()];
    let mut wall = element(&[20.0, 20.0, 20.0, 20.0, 20.0]);
    let h = f32::from_bits(CONST_TEMP_H_BITS);
    let adiabatic = f32::from_bits(ADIABATIC_H_BITS);
    let mut previous = 20.0f32;
    for _ in 0..100 {
        heat_transfer(&mut wall, &materials, [h, adiabatic], [200.0, 0.0], 0.1);
        // The boundary half-cell mirrors the interior so that the
        // reported surface temperature is the prescribed one.
        let surface = (f32::from_bits(wall.cells[0].temperature)
            + f32::from_bits(wall.cells[1].temperature))
            / 2.0;
        assert!((surface - 200.0).abs() < 1.0e-3);
        let interior = f32::from_bits(wall.cells[2].temperature);
        assert!(interior >= previous);
        assert!(interior <= 200.0);
        previous = interior;
    }
    // After a hundred steps the interior has warmed noticeably.
    assert!(f32::from_bits(wall.cells[2].temperature) > 20.0);
}
