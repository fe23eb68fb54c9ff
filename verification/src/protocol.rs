//! The per-timestep device protocol.
//!
//! Each chunk moves through a fixed sequence of phases during one
//! timestep: boundary data is uploaded, the compute dispatch is
//! submitted, an asynchronous mapping of the result buffer is
//! requested, the device is polled until the mapping completes, and the
//! mapped bytes are copied out. The driver performs the device work and
//! reports events; the decisions — which phase follows which event, and
//! when the whole timestep is complete — are verified here. A timestep
//! completes only when every chunk has reached the final phase: the
//! caller-visible update is a full barrier.

use vstd::prelude::*;

verus! {

/// The phase one chunk is in during one timestep.
#[derive(Debug, Clone, Copy, PartialEq, Eq, Structural)]
pub enum ChunkPhase {
    /// Nothing submitted for this timestep yet.
    Idle,
    /// The boundary coefficient, flux and delta-time buffers are
    /// written.
    BoundaryUploaded,
    /// The compute command buffer is submitted.
    Dispatched,
    /// An asynchronous mapping of the result buffer is requested.
    MapRequested,
    /// The mapping callback has fired; results are host-visible.
    MapComplete,
    /// The results are copied into the caller's buffer and the buffer
    /// is unmapped.
    ResultsCopied,
}

/// What the driver reports back after performing device work.
#[derive(Debug, Clone, Copy, PartialEq, Eq, Structural)]
pub enum ChunkEvent {
    /// The per-step buffers were written.
    BoundaryWritten,
    /// The compute dispatch was submitted to the queue.
    ComputeSubmitted,
    /// The result-buffer mapping was requested.
    MapAsked,
    /// A non-blocking device poll found the mapping still pending.
    PollPending,
    /// The mapping callback fired.
    MapDone,
    /// The mapped bytes were copied out and the buffer unmapped.
    ResultsRead,
}

/// The position of a phase in the per-timestep sequence.
pub open spec fn spec_phase_index(p: ChunkPhase) -> int {
    match p {
        ChunkPhase::Idle => 0,
        ChunkPhase::BoundaryUploaded => 1,
        ChunkPhase::Dispatched => 2,
        ChunkPhase::MapRequested => 3,
        ChunkPhase::MapComplete => 4,
        ChunkPhase::ResultsCopied => 5,
    }
}

/// The phase a chunk is in after an event: each phase accepts exactly
/// the event of its own step, a pending poll keeps waiting, and any
/// out-of-order event leaves the phase unchanged.
pub open spec fn spec_phase_after(p: ChunkPhase, e: ChunkEvent) -> ChunkPhase {
    match (p, e) {
        (ChunkPhase::Idle, ChunkEvent::BoundaryWritten) => ChunkPhase::BoundaryUploaded,
        (ChunkPhase::BoundaryUploaded, ChunkEvent::ComputeSubmitted) => ChunkPhase::Dispatched,
        (ChunkPhase::Dispatched, ChunkEvent::MapAsked) => ChunkPhase::MapRequested,
        (ChunkPhase::MapRequested, ChunkEvent::PollPending) => ChunkPhase::MapRequested,
        (ChunkPhase::MapRequested, ChunkEvent::MapDone) => ChunkPhase::MapComplete,
        (ChunkPhase::MapComplete, ChunkEvent::ResultsRead) => ChunkPhase::ResultsCopied,
        _ => p,
    }
}

/// The device work the driver must perform next in a phase, if any.
#[derive(Debug, Clone, Copy, PartialEq, Eq, Structural)]
pub enum ChunkWork {
    WriteBoundary,
    SubmitCompute,
    RequestMap,
    PollDevice,
    CopyResults,
}

/// The next device work for a phase: every phase but the last has
/// exactly one.
pub open spec fn spec_next_work(p: ChunkPhase) -> Option<ChunkWork> {
    match p {
        ChunkPhase::Idle => Option::Some(ChunkWork::WriteBoundary),
        ChunkPhase::BoundaryUploaded => Option::Some(ChunkWork::SubmitCompute),
        ChunkPhase::Dispatched => Option::Some(ChunkWork::RequestMap),
        ChunkPhase::MapRequested => Option::Some(ChunkWork::PollDevice),
        ChunkPhase::MapComplete => Option::Some(ChunkWork::CopyResults),
        ChunkPhase::ResultsCopied => Option::None,
    }
}

impl ChunkPhase {
    /// Advances this phase by one reported event.
    pub fn after(self, e: ChunkEvent) -> (r: ChunkPhase)
        ensures
            r == spec_phase_after(self, e),
    {
        match (self, e) {
            (ChunkPhase::Idle, ChunkEvent::BoundaryWritten) => ChunkPhase::BoundaryUploaded,
            (ChunkPhase::BoundaryUploaded, ChunkEvent::ComputeSubmitted) => ChunkPhase::Dispatched,
            (ChunkPhase::Dispatched, ChunkEvent::MapAsked) => ChunkPhase::MapRequested,
            (ChunkPhase::MapRequested, ChunkEvent::PollPending) => ChunkPhase::MapRequested,
            (ChunkPhase::MapRequested, ChunkEvent::MapDone) => ChunkPhase::MapComplete,
            (ChunkPhase::MapComplete, ChunkEvent::ResultsRead) => ChunkPhase::ResultsCopied,
            (p, _) => p,
        }
    }

    /// The device work to perform next, `None` once the results are
    /// copied.
    pub fn next_work(self) -> (r: Option<ChunkWork>)
        ensures
            r == spec_next_work(self),
    {
        match self {
            ChunkPhase::Idle => Some(ChunkWork::WriteBoundary),
            ChunkPhase::BoundaryUploaded => Some(ChunkWork::SubmitCompute),
            ChunkPhase::Dispatched => Some(ChunkWork::RequestMap),
            ChunkPhase::MapRequested => Some(ChunkWork::PollDevice),
            ChunkPhase::MapComplete => Some(ChunkWork::CopyResults),
            ChunkPhase::ResultsCopied => None,
        }
    }
}

/// Phases never move backwards: no event undoes completed device work
/// within a timestep.
pub proof fn lemma_phase_monotonic(p: ChunkPhase, e: ChunkEvent)
    ensures
        spec_phase_index(spec_phase_after(p, e)) >= spec_phase_index(p),
        spec_phase_index(spec_phase_after(p, e)) <= spec_phase_index(p) + 1,
{
}

/// The mapping callback is the only way past the polling phase: a
/// chunk that has not seen `MapDone` can reach at most `MapRequested`.
pub proof fn lemma_map_done_required(p: ChunkPhase, e: ChunkEvent)
    requires
        spec_phase_index(p) <= spec_phase_index(ChunkPhase::MapRequested),
        e != ChunkEvent::MapDone,
    ensures
        spec_phase_index(spec_phase_after(p, e)) <= spec_phase_index(ChunkPhase::MapRequested),
{
}

/// Whether the timestep is complete: every chunk has copied its
/// results. Only then may the caller-visible update return.
pub fn update_complete(phases: &Vec<ChunkPhase>) -> (r: bool)
    ensures
        r == (forall|i: int|
            0 <= i < phases@.len() ==> #[trigger] phases@[i] == ChunkPhase::ResultsCopied),
{
    let n = phases.len();
    let mut i: usize = 0;
    while i < n
        invariant
            0 <= i <= n,
            n == phases@.len(),
            forall|t: int| 0 <= t < i ==> #[trigger] phases@[t] == ChunkPhase::ResultsCopied,
        decreases n - i,
    {
        if !matches!(phases[i], ChunkPhase::ResultsCopied) {
            proof {
                let ghost w = i as int;
                assert(phases@[w] != ChunkPhase::ResultsCopied);
            }
            return false;
        }
        i += 1;
    }
    true
}

} // verus!
