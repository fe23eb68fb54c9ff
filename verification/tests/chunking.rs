//! Chunk partitioning and the three device memory layouts.

use wallheat::chunk::build_flat_chunks;
use wallheat::layout::{build_padded_chunks, build_shader_runs, max_cell_count};
use wallheat::model::{WallCell, WallElement};

fn cell(size: f32, material: u32, temperature: f32) -> WallCell {
    WallCell {
        size: size.to_bits(),
        material,
        temperature: temperature.to_bits(),
    }
}

fn element(cells: &[(f32, u32, f32)]) -> WallElement {
    WallElement::new(cells.iter().map(|&(s, m, t)| cell(s, m, t)).collect())
}

fn sample_elements() -> Vec<WallElement> {
    vec![
        element(&[(0.1, 0, 20.0), (0.2, 0, 21.0), (0.1, 0, 22.0)]),
        element(&[(0.1, 0, 23.0), (0.2, 0, 24.0), (0.1, 0, 25.0)]),
        element(&[(0.3, 1, 26.0), (0.4, 1, 27.0), (0.3, 1, 28.0), (0.3, 1, 29.0)]),
        element(&[(0.3, 1, 30.0), (0.4, 1, 31.0), (0.3, 1, 32.0), (0.3, 1, 33.0)]),
        element(&[(0.1, 0, 34.0), (0.2, 0, 35.0), (0.1, 0, 36.0)]),
    ]
}

#[test]
fn flat_layout_splits_and_indexes() {
    let elements = sample_elements();
    let chunks = build_flat_chunks(&elements, 2);
    assert_eq!(chunks.len(), 3);
    assert_eq!(chunks[0].element_count, 2);
    assert_eq!(chunks[1].element_count, 2);
    assert_eq!(chunks[2].element_count, 1);
    assert_eq!(chunks[0].cell_indices, vec![3, 6]);
    assert_eq!(chunks[1].cell_indices, vec![4, 8]);
    assert_eq!(chunks[2].cell_indices, vec![3]);
    assert_eq!(chunks[0].cells.len(), 6);
    assert_eq!(chunks[1].cells.len(), 8);
    assert_eq!(chunks[2].cells.len(), 3);
    assert_eq!(chunks[0].groups, 1);
    let all: Vec<WallCell> = elements.iter().flat_map(|e| e.cells.clone()).collect();
    assert_eq!(chunks[0].cells[..], all[0..6]);
    assert_eq!(chunks[1].cells[..], all[6..14]);
    assert_eq!(chunks[2].cells[..], all[14..17]);
}

#[test]
fn flat_layout_is_chunk_size_invariant() {
    let elements = sample_elements();
    let all: Vec<WallCell> = elements.iter().flat_map(|e| e.cells.clone()).collect();
    for max in [1usize, 2, 3, 5, 100] {
        let chunks = build_flat_chunks(&elements, max);
        let rebuilt: Vec<WallCell> = chunks.into_iter().flat_map(|c| c.cells).collect();
        assert_eq!(rebuilt, all, "cells changed under chunk bound {max}");
    }
}

#[test]
fn padded_layout_pads_to_the_largest_element() {
    let elements = sample_elements();
    let maxc = max_cell_count(&elements);
    assert_eq!(maxc, 4);
    let chunks = build_padded_chunks(&elements, 3, maxc);
    assert_eq!(chunks.len(), 2);
    assert_eq!(chunks[0].element_count, 3);
    assert_eq!(chunks[1].element_count, 2);
    // Each element occupies a count word plus three words per padded
    // cell.
    assert_eq!(chunks[0].words.len(), 3 * (1 + 3 * 4));
    assert_eq!(chunks[1].words.len(), 2 * (1 + 3 * 4));
    // First element: its true count, its three cells, one zeroed cell.
    let w = &chunks[0].words;
    assert_eq!(w[0], 3);
    assert_eq!(w[1], 0.1f32.to_bits());
    assert_eq!(w[2], 0);
    assert_eq!(w[3], 20.0f32.to_bits());
    assert_eq!(&w[10..13], &[0, 0, 0]);
    // Third element fills the padded length exactly.
    assert_eq!(w[2 * 13], 4);
}

#[test]
fn shader_runs_group_identical_shapes() {
    let elements = sample_elements();
    let runs = build_shader_runs(&elements, 100);
    assert_eq!(runs.len(), 3);
    assert_eq!((runs[0].start, runs[0].end), (0, 2));
    assert_eq!((runs[1].start, runs[1].end), (2, 4));
    assert_eq!((runs[2].start, runs[2].end), (4, 5));
    assert_eq!(
        runs[0].cell_sizes,
        vec![0.1f32.to_bits(), 0.2f32.to_bits(), 0.1f32.to_bits()]
    );
    assert_eq!(runs[1].cell_materials, vec![1, 1, 1, 1]);
    let temps: Vec<u32> = (20..26).map(|t| (t as f32).to_bits()).collect();
    assert_eq!(runs[0].cell_temperatures, temps);
    assert_eq!(runs[0].groups, 1);
}

#[test]
fn shader_runs_respect_the_dispatch_bound() {
    let elements: Vec<WallElement> = (0..7)
        .map(|i| element(&[(0.1, 0, i as f32), (0.2, 0, 20.0), (0.1, 0, 21.0)]))
        .collect();
    let runs = build_shader_runs(&elements, 3);
    let bounds: Vec<(usize, usize)> = runs.iter().map(|r| (r.start, r.end)).collect();
    assert_eq!(bounds, vec![(0, 3), (3, 6), (6, 7)]);
}
