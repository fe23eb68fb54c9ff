//! Partitioning of wall-element collections into hardware-sized dispatch
//! chunks, and the flat device memory layout built on top of it.
//!
//! A configured maximum element count per chunk splits the collection
//! into consecutive groups. The flat layout concatenates all cells of a
//! chunk behind a cumulative index table, so elements of different
//! lengths can share one dispatch; each kernel invocation locates its own
//! cell range through the table.

use vstd::prelude::*;

use crate::model::{WallCell, WallElement};

verus! {

/// The consecutive groups of at most `max` elements that the collection
/// is split into, in order.
pub open spec fn spec_chunks(es: Seq<WallElement>, max: nat) -> Seq<Seq<WallElement>>
    decreases es.len(),
{
    if max == 0 || es.len() == 0 {
        Seq::empty()
    } else if es.len() <= max {
        seq![es]
    } else {
        seq![es.take(max as int)] + spec_chunks(es.skip(max as int), max)
    }
}

/// All cells of the given elements, in element order.
pub open spec fn spec_flat_cells(es: Seq<WallElement>) -> Seq<WallCell>
    decreases es.len(),
{
    if es.len() == 0 {
        Seq::empty()
    } else {
        es[0].cells@ + spec_flat_cells(es.drop_first())
    }
}

/// Appending one element appends its cells.
pub proof fn lemma_flat_cells_push(es: Seq<WallElement>)
    requires
        es.len() >= 1,
    ensures
        spec_flat_cells(es) == spec_flat_cells(es.drop_last()) + es.last().cells@,
    decreases es.len(),
{
    if es.len() == 1 {
        assert(es.drop_first().len() == 0);
        assert(spec_flat_cells(es.drop_first()).len() == 0);
        assert(spec_flat_cells(es.drop_last()).len() == 0);
        assert(es.last() == es[0]);
        assert(spec_flat_cells(es) =~= spec_flat_cells(es.drop_last()) + es.last().cells@);
    } else {
        lemma_flat_cells_push(es.drop_first());
        assert(es.drop_first().drop_last() =~= es.drop_last().drop_first());
        assert(es.drop_first().last() == es.last());
        assert(spec_flat_cells(es) =~= spec_flat_cells(es.drop_last()) + es.last().cells@);
    }
}

/// Flattening splits at any cut point.
pub proof fn lemma_flat_cells_split(es: Seq<WallElement>, m: int)
    requires
        0 <= m <= es.len(),
    ensures
        spec_flat_cells(es) == spec_flat_cells(es.take(m)) + spec_flat_cells(es.skip(m)),
    decreases m,
{
    if m == 0 {
        assert(es.skip(0) =~= es);
        assert(spec_flat_cells(es.take(0)).len() == 0);
        assert(spec_flat_cells(es) =~= spec_flat_cells(es.take(0)) + spec_flat_cells(es.skip(0)));
    } else {
        lemma_flat_cells_split(es, m - 1);
        lemma_flat_cells_push(es.take(m));
        assert(es.take(m).drop_last() =~= es.take(m - 1));
        assert(es.take(m).last() == es[m - 1]);
        assert(es.skip(m - 1).len() >= 1);
        assert(es.skip(m - 1)[0] == es[m - 1]);
        assert(es.skip(m - 1).drop_first() =~= es.skip(m));
        assert(spec_flat_cells(es.skip(m - 1)) == es[m - 1].cells@ + spec_flat_cells(es.skip(m)));
        assert(spec_flat_cells(es) =~= spec_flat_cells(es.take(m)) + spec_flat_cells(es.skip(m)));
    }
}

/// With every element holding at least one cell, the flattened cell
/// count bounds the element count.
pub proof fn lemma_flat_cells_len_ge_elems(es: Seq<WallElement>)
    requires
        forall|i: int| 0 <= i < es.len() ==> #[trigger] es[i].cells@.len() >= 1,
    ensures
        spec_flat_cells(es).len() >= es.len(),
    decreases es.len(),
{
    if es.len() > 0 {
        assert(es[0].cells@.len() >= 1);
        assert(forall|i: int|
            0 <= i < es.drop_first().len() ==> #[trigger] es.drop_first()[i].cells@.len() >= 1);
        lemma_flat_cells_len_ge_elems(es.drop_first());
    }
}

/// One dispatch chunk in the flat layout: all cells of its elements in
/// one buffer, a cumulative per-element cell-count table to locate each
/// element's range, and the workgroup count for the dispatch.
#[derive(Debug, Clone, PartialEq, Eq)]
pub struct FlatChunk {
    pub cell_indices: Vec<u32>,
    pub cells: Vec<WallCell>,
    pub element_count: usize,
    pub groups: u32,
}

/// What the flat layout promises of one chunk built from the element
/// group `es`: the index table holds the cumulative cell counts, the
/// cell buffer is the concatenation of the group's cells, and one
/// workgroup covers 256 elements.
pub open spec fn flat_chunk_ok(c: FlatChunk, es: Seq<WallElement>) -> bool {
    &&& c.element_count == es.len()
    &&& c.cell_indices@.len() == es.len()
    &&& forall|i: int|
        0 <= i < es.len() ==> c.cell_indices@[i] == spec_flat_cells(es.take(i + 1)).len()
    &&& c.cells@ == spec_flat_cells(es)
    &&& c.groups == ((es.len() + 255) as nat) / 256
}

/// Builds the flat layout: elements are taken in order, `max_per_chunk`
/// of them to a chunk, and each chunk holds its elements' cells
/// concatenated behind a cumulative cell-count index.
pub fn build_flat_chunks(elements: &Vec<WallElement>, max_per_chunk: usize) -> (r: Vec<FlatChunk>)
    requires
        max_per_chunk >= 1,
        spec_flat_cells(elements@).len() <= u32::MAX,
        forall|i: int| 0 <= i < elements@.len() ==> #[trigger] elements@[i].cells@.len() >= 1,
    ensures
        r@.len() == spec_chunks(elements@, max_per_chunk as nat).len(),
        forall|k: int|
            0 <= k < r@.len() ==> flat_chunk_ok(
                #[trigger] r@[k],
                spec_chunks(elements@, max_per_chunk as nat)[k],
            ),
{
    let ghost gs = spec_chunks(elements@, max_per_chunk as nat);
    let n = elements.len();
    let mut chunks: Vec<FlatChunk> = Vec::new();
    let mut start: usize = 0;
    proof {
        lemma_flat_cells_len_ge_elems(elements@);
        assert(elements@.skip(0) =~= elements@);
    }
    while start < n
        invariant
            n == elements@.len(),
            max_per_chunk >= 1,
            gs == spec_chunks(elements@, max_per_chunk as nat),
            spec_flat_cells(elements@).len() <= u32::MAX,
            forall|i: int| 0 <= i < elements@.len() ==> #[trigger] elements@[i].cells@.len() >= 1,
            n <= u32::MAX,
            start <= n,
            gs.len() == chunks@.len() + spec_chunks(
                elements@.skip(start as int),
                max_per_chunk as nat,
            ).len(),
            gs.skip(chunks@.len() as int) == spec_chunks(
                elements@.skip(start as int),
                max_per_chunk as nat,
            ),
            forall|k: int| 0 <= k < chunks@.len() ==> flat_chunk_ok(#[trigger] chunks@[k], gs[k]),
        decreases n - start,
    {
        let end = if n - start < max_per_chunk {
            n
        } else {
            start + max_per_chunk
        };
        let ghost rest = elements@.skip(start as int);
        let ghost es = rest.take(end - start);
        let ghost k = chunks@.len() as int;
        proof {
            assert(rest.len() == n - start);
            if rest.len() <= max_per_chunk {
                assert(rest.take(end - start) =~= rest);
                assert(spec_chunks(rest, max_per_chunk as nat) == seq![rest]);
            }
            assert(spec_chunks(rest, max_per_chunk as nat)[0] == es);
            assert(gs[k] == es);
            assert(es =~= elements@.subrange(start as int, end as int));
            lemma_flat_cells_split(elements@, start as int);
            lemma_flat_cells_split(rest, end - start);
            assert(spec_flat_cells(es).len() <= spec_flat_cells(elements@).len());
        }
        let mut cell_indices: Vec<u32> = Vec::new();
        let mut cells: Vec<WallCell> = Vec::new();
        let mut i: usize = start;
        while i < end
            invariant
                start <= i <= end <= n,
                n == elements@.len(),
                es == elements@.subrange(start as int, end as int),
                spec_flat_cells(es).len() <= u32::MAX,
                cell_indices@.len() == i - start,
                cells@ == spec_flat_cells(es.take(i - start)),
                forall|j: int|
                    0 <= j < i - start ==> cell_indices@[j] == spec_flat_cells(
                        es.take(j + 1),
                    ).len(),
            decreases end - i,
        {
            let element = &elements[i];
            proof {
                lemma_flat_cells_push(es.take(i - start + 1));
                assert(es.take(i - start + 1).drop_last() =~= es.take(i - start));
                assert(es.take(i - start + 1).last() == elements@[i as int]);
                lemma_flat_cells_split(es, i - start + 1);
                assert(spec_flat_cells(es.take(i - start + 1)).len() <= spec_flat_cells(es).len());
            }
            let mut element_cells = element.cells.clone();
            assert(element_cells@ == elements@[i as int].cells@);
            cells.append(&mut element_cells);
            let last: u32 = cells.len() as u32;
            cell_indices.push(last);
            assert(cells@ =~= spec_flat_cells(es.take(i - start + 1)));
            i += 1;
        }
        proof {
            assert(es.take(end - start) =~= es);
        }
        let element_count = end - start;
        let groups: u32 = ((element_count as u64 + 255) / 256) as u32;
        let chunk = FlatChunk { cell_indices, cells, element_count, groups };
        chunks.push(chunk);
        proof {
            if rest.len() <= max_per_chunk {
                assert(end == n);
                assert(elements@.skip(end as int).len() == 0);
                assert(spec_chunks(elements@.skip(end as int), max_per_chunk as nat).len() == 0);
                assert(seq![rest].drop_first() =~= Seq::<Seq<WallElement>>::empty());
                assert(spec_chunks(rest, max_per_chunk as nat).drop_first() =~= spec_chunks(
                    elements@.skip(end as int),
                    max_per_chunk as nat,
                ));
            } else {
                assert(rest.skip(max_per_chunk as int) =~= elements@.skip(end as int));
                assert((seq![rest.take(max_per_chunk as int)] + spec_chunks(
                    rest.skip(max_per_chunk as int),
                    max_per_chunk as nat,
                )).drop_first() =~= spec_chunks(
                    rest.skip(max_per_chunk as int),
                    max_per_chunk as nat,
                ));
                assert(spec_chunks(rest, max_per_chunk as nat).drop_first() =~= spec_chunks(
                    elements@.skip(end as int),
                    max_per_chunk as nat,
                ));
            }
            assert(gs.skip(k).drop_first() =~= gs.skip(k + 1));
        }
        start = end;
    }
    proof {
        assert(elements@.skip(n as int) =~= Seq::<WallElement>::empty());
        assert(gs.skip(chunks@.len() as int).len() == 0);
    }
    chunks
}

/// The concatenation of a sequence of element groups.
pub open spec fn concat_groups(gs: Seq<Seq<WallElement>>) -> Seq<WallElement>
    decreases gs.len(),
{
    if gs.len() == 0 {
        Seq::empty()
    } else {
        gs[0] + concat_groups(gs.drop_first())
    }
}

/// Chunking partitions the collection: concatenating the chunks restores
/// the elements, in order, whatever the chunk bound.
pub proof fn lemma_chunks_cover(es: Seq<WallElement>, max: nat)
    requires
        max >= 1,
    ensures
        concat_groups(spec_chunks(es, max)) == es,
    decreases es.len(),
{
    if es.len() == 0 {
        assert(concat_groups(spec_chunks(es, max)) =~= es);
    } else if es.len() <= max {
        assert(spec_chunks(es, max) == seq![es]);
        assert(seq![es].drop_first() =~= Seq::<Seq<WallElement>>::empty());
        assert(concat_groups(Seq::<Seq<WallElement>>::empty()).len() == 0);
        assert(concat_groups(spec_chunks(es, max)) =~= es);
    } else {
        lemma_chunks_cover(es.skip(max as int), max);
        assert((seq![es.take(max as int)] + spec_chunks(es.skip(max as int), max)).drop_first()
            =~= spec_chunks(es.skip(max as int), max));
        assert(concat_groups(spec_chunks(es, max)) =~= es.take(max as int) + es.skip(max as int));
        assert(es.take(max as int) + es.skip(max as int) =~= es);
    }
}

/// Two chunkings of the same collection carry the same elements in the
/// same order, however their chunk bounds differ: the per-chunk grouping
/// never reorders, drops or duplicates an element.
pub proof fn lemma_chunk_size_invariant(es: Seq<WallElement>, max_a: nat, max_b: nat)
    requires
        max_a >= 1,
        max_b >= 1,
    ensures
        concat_groups(spec_chunks(es, max_a)) == concat_groups(spec_chunks(es, max_b)),
{
    lemma_chunks_cover(es, max_a);
    lemma_chunks_cover(es, max_b);
}

/// The cells of a sequence of element groups, group by group.
pub open spec fn groups_cells(gs: Seq<Seq<WallElement>>) -> Seq<WallCell>
    decreases gs.len(),
{
    if gs.len() == 0 {
        Seq::empty()
    } else {
        spec_flat_cells(gs[0]) + groups_cells(gs.drop_first())
    }
}

/// The flat layout is chunk-size invariant: the concatenation of all
/// chunks' cell buffers is the flattening of the whole collection,
/// whatever the chunk bound.
pub proof fn lemma_flat_layout_invariant(es: Seq<WallElement>, max: nat)
    requires
        max >= 1,
    ensures
        groups_cells(spec_chunks(es, max)) == spec_flat_cells(es),
    decreases es.len(),
{
    if es.len() == 0 {
        assert(groups_cells(spec_chunks(es, max)) =~= spec_flat_cells(es));
    } else if es.len() <= max {
        assert(spec_chunks(es, max) == seq![es]);
        assert(seq![es].drop_first() =~= Seq::<Seq<WallElement>>::empty());
        assert(groups_cells(Seq::<Seq<WallElement>>::empty()).len() == 0);
        assert(groups_cells(spec_chunks(es, max)) =~= spec_flat_cells(es));
    } else {
        lemma_flat_layout_invariant(es.skip(max as int), max);
        lemma_flat_cells_split(es, max as int);
        assert((seq![es.take(max as int)] + spec_chunks(es.skip(max as int), max)).drop_first()
            =~= spec_chunks(es.skip(max as int), max));
        assert(groups_cells(spec_chunks(es, max)) =~= spec_flat_cells(es));
    }
}

} // verus!
