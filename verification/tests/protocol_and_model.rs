//! The per-timestep protocol, boundary classification and geometry
//! resolution.

use wallheat::boundary::{boundary_kind, BoundaryKind};
use wallheat::meta::{Meta, MetaError};
use wallheat::protocol::{update_complete, ChunkEvent, ChunkPhase, ChunkWork};
use wallheat::{ADIABATIC_H_BITS, CONST_TEMP_H_BITS};

#[test]
fn sentinel_bit_patterns() {
    assert_eq!(ADIABATIC_H_BITS, (-100000.0f32).to_bits());
    assert_eq!(CONST_TEMP_H_BITS, (-100001.0f32).to_bits());
}

#[test]
fn boundary_classification() {
    assert_eq!(
        boundary_kind((-100000.0f32).to_bits()),
        BoundaryKind::Adiabatic
    );
    assert_eq!(
        boundary_kind((-100001.0f32).to_bits()),
        BoundaryKind::ConstTemp
    );
    assert_eq!(boundary_kind(25.0f32.to_bits()), BoundaryKind::Convective);
    assert_eq!(boundary_kind(0.0f32.to_bits()), BoundaryKind::Convective);
    assert_eq!(boundary_kind(f32::NAN.to_bits()), BoundaryKind::Convective);
}

#[test]
fn phases_advance_in_order() {
    let mut p = ChunkPhase::Idle;
    assert_eq!(p.next_work(), Some(ChunkWork::WriteBoundary));
    p = p.after(ChunkEvent::BoundaryWritten);
    assert_eq!(p, ChunkPhase::BoundaryUploaded);
    p = p.after(ChunkEvent::ComputeSubmitted);
    assert_eq!(p, ChunkPhase::Dispatched);
    p = p.after(ChunkEvent::MapAsked);
    assert_eq!(p, ChunkPhase::MapRequested);
    // Pending polls keep waiting; only the callback moves on.
    p = p.after(ChunkEvent::PollPending);
    assert_eq!(p, ChunkPhase::MapRequested);
    assert_eq!(p.next_work(), Some(ChunkWork::PollDevice));
    p = p.after(ChunkEvent::MapDone);
    assert_eq!(p, ChunkPhase::MapComplete);
    p = p.after(ChunkEvent::ResultsRead);
    assert_eq!(p, ChunkPhase::ResultsCopied);
    assert_eq!(p.next_work(), None);
}

#[test]
fn out_of_order_events_change_nothing() {
    let p = ChunkPhase::Dispatched;
    assert_eq!(p.after(ChunkEvent::BoundaryWritten), p);
    assert_eq!(p.after(ChunkEvent::MapDone), p);
    assert_eq!(p.after(ChunkEvent::ResultsRead), p);
}

#[test]
fn a_timestep_is_a_full_barrier() {
    let all_done = vec![ChunkPhase::ResultsCopied; 3];
    assert!(update_complete(&all_done));
    let one_waiting = vec![
        ChunkPhase::ResultsCopied,
        ChunkPhase::MapRequested,
        ChunkPhase::ResultsCopied,
    ];
    assert!(!update_complete(&one_waiting));
    assert!(update_complete(&vec![]));
}

#[test]
fn geometry_resolution() {
    let names = vec!["SURF_STEEL".to_string(), "SURF_CONCRETE".to_string()];
    let meta = vec!["SURF_CONCRETE".to_string(), "SURF_STEEL".to_string()];
    match Meta::try_new(None, meta, &names) {
        Ok(Meta::OneDimensional { surface_ids }) => assert_eq!(surface_ids, vec![1, 0]),
        other => panic!("unexpected geometry: {other:?}"),
    }
    match Meta::try_new(Some((8, 8, 8)), vec!["SURF_STEEL".to_string()], &names) {
        Ok(Meta::ThreeDimensional { x, y, z, surface_id }) => {
            assert_eq!((x, y, z, surface_id), (8, 8, 8, 0));
        }
        other => panic!("unexpected geometry: {other:?}"),
    }
    assert_eq!(
        Meta::try_new(
            Some((8, 8, 8)),
            vec!["SURF_STEEL".to_string(), "SURF_CONCRETE".to_string()],
            &names
        ),
        Err(MetaError::MultipleSurfaces3D)
    );
    assert_eq!(
        Meta::try_new(None, vec!["SURF_WOOD".to_string()], &names),
        Err(MetaError::UnknownSurface)
    );
}
