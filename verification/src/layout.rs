//! The padded and the grouped device memory layouts.
//!
//! The padded layout brings every wall element to the single largest
//! cell count observed across the whole set, prefixes each with its true
//! cell count, and packs the result into one word buffer per chunk, so
//! one kernel compiled for the padded length handles every chunk. The
//! grouped layout splits the collection into maximal runs of
//! structurally identical elements, capped at the dispatch bound, so
//! each run's geometry can be baked into a specialized kernel.

use vstd::prelude::*;

use crate::chunk::spec_chunks;
use crate::model::{WallCell, WallElement};

verus! {

// ----------------------------------------------------------------------
// Padded layout
// ----------------------------------------------------------------------

/// The three words of one cell: thickness bits, material index,
/// temperature bits.
pub open spec fn cell_words(c: WallCell) -> Seq<u32> {
    seq![c.size, c.material, c.temperature]
}

/// The words of a sequence of cells.
pub open spec fn cells_words(cs: Seq<WallCell>) -> Seq<u32>
    decreases cs.len(),
{
    if cs.len() == 0 {
        Seq::empty()
    } else {
        cell_words(cs[0]) + cells_words(cs.drop_first())
    }
}

/// `n` zeroed words: the padding cells carry defaulted properties.
pub open spec fn zero_words(n: nat) -> Seq<u32> {
    Seq::new(n, |i: int| 0u32)
}

/// One element in the padded layout: its true cell count, its cells,
/// and zeroed cells up to the padded length.
pub open spec fn padded_element_words(e: WallElement, max_cells: nat) -> Seq<u32>
    recommends
        e.cells@.len() <= max_cells,
{
    seq![e.cells@.len() as u32] + cells_words(e.cells@) + zero_words(
        (3 * (max_cells - e.cells@.len())) as nat,
    )
}

/// A group of elements in the padded layout, element by element.
pub open spec fn padded_group_words(es: Seq<WallElement>, max_cells: nat) -> Seq<u32>
    decreases es.len(),
{
    if es.len() == 0 {
        Seq::empty()
    } else {
        padded_element_words(es[0], max_cells) + padded_group_words(es.drop_first(), max_cells)
    }
}

/// The largest cell count of any element, 0 for an empty collection.
pub open spec fn spec_max_cell_count(es: Seq<WallElement>) -> nat
    decreases es.len(),
{
    if es.len() == 0 {
        0
    } else {
        let rest = spec_max_cell_count(es.drop_first());
        if es[0].cells@.len() >= rest {
            es[0].cells@.len()
        } else {
            rest
        }
    }
}

/// Appending one element to a padded group appends its padded words.
pub proof fn lemma_padded_group_push(es: Seq<WallElement>, max_cells: nat)
    requires
        es.len() >= 1,
    ensures
        padded_group_words(es, max_cells) == padded_group_words(es.drop_last(), max_cells)
            + padded_element_words(es.last(), max_cells),
    decreases es.len(),
{
    if es.len() == 1 {
        assert(es.drop_first().len() == 0);
        assert(padded_group_words(es.drop_first(), max_cells).len() == 0);
        assert(padded_group_words(es.drop_last(), max_cells).len() == 0);
        assert(es.last() == es[0]);
        assert(padded_group_words(es, max_cells) =~= padded_group_words(es.drop_last(), max_cells)
            + padded_element_words(es.last(), max_cells));
    } else {
        lemma_padded_group_push(es.drop_first(), max_cells);
        assert(es.drop_first().drop_last() =~= es.drop_last().drop_first());
        assert(es.drop_first().last() == es.last());
        assert(padded_group_words(es, max_cells) =~= padded_group_words(es.drop_last(), max_cells)
            + padded_element_words(es.last(), max_cells));
    }
}

/// The largest cell count of any element in the collection.
pub fn max_cell_count(elements: &Vec<WallElement>) -> (r: usize)
    ensures
        r == spec_max_cell_count(elements@),
        forall|i: int| 0 <= i < elements@.len() ==> #[trigger] elements@[i].cells@.len() <= r,
{
    let mut r: usize = 0;
    let mut i: usize = elements.len();
    while i > 0
        invariant
            0 <= i <= elements@.len(),
            r == spec_max_cell_count(elements@.skip(i as int)),
        decreases i,
    {
        i -= 1;
        let len = elements[i].cells.len();
        proof {
            assert(elements@.skip(i as int).drop_first() =~= elements@.skip(i + 1));
            assert(elements@.skip(i as int)[0] == elements@[i as int]);
        }
        if len > r {
            r = len;
        }
    }
    proof {
        assert(elements@.skip(0) =~= elements@);
        lemma_max_cell_count_bounds(elements@);
    }
    r
}

/// Every element's cell count is bounded by the collection maximum.
pub proof fn lemma_max_cell_count_bounds(es: Seq<WallElement>)
    ensures
        forall|i: int| 0 <= i < es.len() ==> #[trigger] es[i].cells@.len() <= spec_max_cell_count(
            es,
        ),
    decreases es.len(),
{
    if es.len() > 0 {
        lemma_max_cell_count_bounds(es.drop_first());
        assert forall|i: int|
            0 <= i < es.len() implies #[trigger] es[i].cells@.len() <= spec_max_cell_count(
            es,
        ) by {
            if i >= 1 {
                assert(es[i] == es.drop_first()[i - 1]);
                assert(es.drop_first()[i - 1].cells@.len() <= spec_max_cell_count(
                    es.drop_first(),
                ));
            }
        }
    }
}

/// One dispatch chunk in the padded layout.
#[derive(Debug, Clone, PartialEq, Eq)]
pub struct PaddedChunk {
    pub words: Vec<u32>,
    pub element_count: usize,
    pub groups: u32,
}

/// What the padded layout promises of one chunk built from the element
/// group `es`.
pub open spec fn padded_chunk_ok(c: PaddedChunk, es: Seq<WallElement>, max_cells: nat) -> bool {
    &&& c.element_count == es.len()
    &&& c.words@ == padded_group_words(es, max_cells)
    &&& c.groups == ((es.len() + 255) as nat) / 256
}

/// Builds the padded layout: elements are chunked as in the flat layout,
/// and every element is written as its true cell count followed by its
/// cells, zero-padded to `max_cells`.
pub fn build_padded_chunks(
    elements: &Vec<WallElement>,
    max_per_chunk: usize,
    max_cells: usize,
) -> (r: Vec<PaddedChunk>)
    requires
        max_per_chunk >= 1,
        elements@.len() <= u32::MAX,
        max_cells <= u32::MAX,
        forall|i: int| 0 <= i < elements@.len() ==> #[trigger] elements@[i].cells@.len()
            <= max_cells,
    ensures
        r@.len() == spec_chunks(elements@, max_per_chunk as nat).len(),
        forall|k: int|
            0 <= k < r@.len() ==> padded_chunk_ok(
                #[trigger] r@[k],
                spec_chunks(elements@, max_per_chunk as nat)[k],
                max_cells as nat,
            ),
{
    let ghost gs = spec_chunks(elements@, max_per_chunk as nat);
    let n = elements.len();
    let mut chunks: Vec<PaddedChunk> = Vec::new();
    let mut start: usize = 0;
    proof {
        assert(elements@.skip(0) =~= elements@);
    }
    while start < n
        invariant
            n == elements@.len(),
            max_per_chunk >= 1,
            n <= u32::MAX,
            max_cells <= u32::MAX,
            forall|i: int| 0 <= i < elements@.len() ==> #[trigger] elements@[i].cells@.len()
                <= max_cells,
            gs == spec_chunks(elements@, max_per_chunk as nat),
            start <= n,
            gs.len() == chunks@.len() + spec_chunks(
                elements@.skip(start as int),
                max_per_chunk as nat,
            ).len(),
            gs.skip(chunks@.len() as int) == spec_chunks(
                elements@.skip(start as int),
                max_per_chunk as nat,
            ),
            forall|k: int|
                0 <= k < chunks@.len() ==> padded_chunk_ok(
                    #[trigger] chunks@[k],
                    gs[k],
                    max_cells as nat,
                ),
        decreases n - start,
    {
        let end = if n - start < max_per_chunk {
            n
        } else {
            start + max_per_chunk
        };
        let ghost rest = elements@.skip(start as int);
        let ghost es = rest.take(end - start);
        let ghost k = chunks@.len() as int;
        proof {
            assert(rest.len() == n - start);
            if rest.len() <= max_per_chunk {
                assert(rest.take(end - start) =~= rest);
                assert(spec_chunks(rest, max_per_chunk as nat) == seq![rest]);
            }
            assert(spec_chunks(rest, max_per_chunk as nat)[0] == es);
            assert(gs[k] == es);
            assert(es =~= elements@.subrange(start as int, end as int));
        }
        let mut words: Vec<u32> = Vec::new();
        let mut i: usize = start;
        while i < end
            invariant
                start <= i <= end <= n,
                n == elements@.len(),
                max_cells <= u32::MAX,
                forall|j: int| 0 <= j < elements@.len() ==> #[trigger] elements@[j].cells@.len()
                    <= max_cells,
                es == elements@.subrange(start as int, end as int),
                words@ == padded_group_words(es.take(i - start), max_cells as nat),
            decreases end - i,
        {
            let element = &elements[i];
            let len = element.cells.len();
            let ghost before = words@;
            words.push(len as u32);
            let mut j: usize = 0;
            while j < len
                invariant
                    0 <= j <= len,
                    len == element.cells@.len(),
                    words@ == before + seq![len as u32] + cells_words(element.cells@.take(j as int)),
                decreases len - j,
            {
                let cell = element.cells[j];
                words.push(cell.size);
                words.push(cell.material);
                words.push(cell.temperature);
                proof {
                    lemma_cells_words_push(element.cells@.take(j + 1));
                    assert(element.cells@.take(j + 1).drop_last() =~= element.cells@.take(j as int));
                    assert(element.cells@.take(j + 1).last() == element.cells@[j as int]);
                    assert(words@ =~= before + seq![len as u32] + cells_words(
                        element.cells@.take(j + 1),
                    ));
                }
                j += 1;
            }
            proof {
                assert(element.cells@.take(len as int) =~= element.cells@);
                assert(words@ =~= before + seq![len as u32] + cells_words(element.cells@)
                    + zero_words(0));
            }
            let mut pad: usize = len;
            while pad < max_cells
                invariant
                    len <= pad <= max_cells,
                    len == element.cells@.len(),
                    words@ == before + seq![len as u32] + cells_words(element.cells@) + zero_words(
                        (3 * (pad - len)) as nat,
                    ),
                decreases max_cells - pad,
            {
                words.push(0);
                words.push(0);
                words.push(0);
                proof {
                    assert(words@ =~= before + seq![len as u32] + cells_words(element.cells@)
                        + zero_words((3 * (pad + 1 - len)) as nat));
                }
                pad += 1;
            }
            proof {
                assert(element.cells@.take(len as int) =~= element.cells@);
                lemma_padded_group_push(es.take(i - start + 1), max_cells as nat);
                assert(es.take(i - start + 1).drop_last() =~= es.take(i - start));
                assert(es.take(i - start + 1).last() == elements@[i as int]);
                assert(words@ =~= padded_group_words(es.take(i - start + 1), max_cells as nat));
            }
            i += 1;
        }
        proof {
            assert(es.take(end - start) =~= es);
        }
        let element_count = end - start;
        let groups: u32 = ((element_count as u64 + 255) / 256) as u32;
        let chunk = PaddedChunk { words, element_count, groups };
        chunks.push(chunk);
        proof {
            if rest.len() <= max_per_chunk {
                assert(end == n);
                assert(elements@.skip(end as int).len() == 0);
                assert(spec_chunks(elements@.skip(end as int), max_per_chunk as nat).len() == 0);
                assert(seq![rest].drop_first() =~= Seq::<Seq<WallElement>>::empty());
                assert(spec_chunks(rest, max_per_chunk as nat).drop_first() =~= spec_chunks(
                    elements@.skip(end as int),
                    max_per_chunk as nat,
                ));
            } else {
                assert(rest.skip(max_per_chunk as int) =~= elements@.skip(end as int));
                assert((seq![rest.take(max_per_chunk as int)] + spec_chunks(
                    rest.skip(max_per_chunk as int),
                    max_per_chunk as nat,
                )).drop_first() =~= spec_chunks(
                    rest.skip(max_per_chunk as int),
                    max_per_chunk as nat,
                ));
                assert(spec_chunks(rest, max_per_chunk as nat).drop_first() =~= spec_chunks(
                    elements@.skip(end as int),
                    max_per_chunk as nat,
                ));
            }
            assert(gs.skip(k).drop_first() =~= gs.skip(k + 1));
        }
        start = end;
    }
    proof {
        assert(elements@.skip(n as int) =~= Seq::<WallElement>::empty());
        assert(gs.skip(chunks@.len() as int).len() == 0);
    }
    chunks
}

/// The padded words of a sequence of element groups, group by group.
pub open spec fn groups_padded_words(gs: Seq<Seq<WallElement>>, max_cells: nat) -> Seq<u32>
    decreases gs.len(),
{
    if gs.len() == 0 {
        Seq::empty()
    } else {
        padded_group_words(gs[0], max_cells) + groups_padded_words(gs.drop_first(), max_cells)
    }
}

/// Padding splits at any cut point.
pub proof fn lemma_padded_words_split(es: Seq<WallElement>, max_cells: nat, m: int)
    requires
        0 <= m <= es.len(),
    ensures
        padded_group_words(es, max_cells) == padded_group_words(es.take(m), max_cells)
            + padded_group_words(es.skip(m), max_cells),
    decreases m,
{
    if m == 0 {
        assert(es.skip(0) =~= es);
        assert(padded_group_words(es.take(0), max_cells).len() == 0);
        assert(padded_group_words(es, max_cells) =~= padded_group_words(es.take(0), max_cells)
            + padded_group_words(es.skip(0), max_cells));
    } else {
        lemma_padded_words_split(es, max_cells, m - 1);
        lemma_padded_group_push(es.take(m), max_cells);
        assert(es.take(m).drop_last() =~= es.take(m - 1));
        assert(es.take(m).last() == es[m - 1]);
        assert(es.skip(m - 1).len() >= 1);
        assert(es.skip(m - 1)[0] == es[m - 1]);
        assert(es.skip(m - 1).drop_first() =~= es.skip(m));
        assert(padded_group_words(es.skip(m - 1), max_cells) == padded_element_words(
            es[m - 1],
            max_cells,
        ) + padded_group_words(es.skip(m), max_cells));
        assert(padded_group_words(es, max_cells) =~= padded_group_words(es.take(m), max_cells)
            + padded_group_words(es.skip(m), max_cells));
    }
}

/// The padded layout is chunk-size invariant: the concatenation of all
/// chunks' word buffers is the padding of the whole collection,
/// whatever the chunk bound.
pub proof fn lemma_padded_layout_invariant(es: Seq<WallElement>, max: nat, max_cells: nat)
    requires
        max >= 1,
    ensures
        groups_padded_words(spec_chunks(es, max), max_cells) == padded_group_words(es, max_cells),
    decreases es.len(),
{
    if es.len() == 0 {
        assert(groups_padded_words(spec_chunks(es, max), max_cells) =~= padded_group_words(
            es,
            max_cells,
        ));
    } else if es.len() <= max {
        assert(spec_chunks(es, max) == seq![es]);
        assert(seq![es].drop_first() =~= Seq::<Seq<WallElement>>::empty());
        assert(groups_padded_words(Seq::<Seq<WallElement>>::empty(), max_cells).len() == 0);
        assert(groups_padded_words(spec_chunks(es, max), max_cells) =~= padded_group_words(
            es,
            max_cells,
        ));
    } else {
        lemma_padded_layout_invariant(es.skip(max as int), max, max_cells);
        lemma_padded_words_split(es, max_cells, max as int);
        assert((seq![es.take(max as int)] + spec_chunks(es.skip(max as int), max)).drop_first()
            =~= spec_chunks(es.skip(max as int), max));
        assert(groups_padded_words(spec_chunks(es, max), max_cells) =~= padded_group_words(
            es,
            max_cells,
        ));
    }
}

/// The padded record of an element starts with its true cell count and
/// its unpadded cells: the padding adds words but loses no data.
pub proof fn lemma_padded_element_recovers_cells(e: WallElement, max_cells: nat)
    requires
        e.cells@.len() <= max_cells,
    ensures
        padded_element_words(e, max_cells).take(1 + 3 * e.cells@.len() as int) == seq![
            e.cells@.len() as u32,
        ] + cells_words(e.cells@),
{
    lemma_cells_words_len(e.cells@);
    assert(padded_element_words(e, max_cells).take(1 + 3 * e.cells@.len() as int) =~= seq![
        e.cells@.len() as u32,
    ] + cells_words(e.cells@));
}

/// A cell sequence occupies three words per cell.
pub proof fn lemma_cells_words_len(cs: Seq<WallCell>)
    ensures
        cells_words(cs).len() == 3 * cs.len(),
    decreases cs.len(),
{
    if cs.len() > 0 {
        lemma_cells_words_len(cs.drop_first());
    }
}

// ----------------------------------------------------------------------
// Grouped layout
// ----------------------------------------------------------------------

/// Two elements are structurally identical: the same cell count and,
/// cell by cell, the same thickness bits and the same material. Such
/// elements can share one specialized kernel. Thicknesses are positive
/// finite values for well-formed elements, so bit equality coincides
/// with IEEE-754 equality here.
pub open spec fn same_shape(a: WallElement, b: WallElement) -> bool {
    &&& a.cells@.len() == b.cells@.len()
    &&& forall|i: int|
        0 <= i < a.cells@.len() ==> (#[trigger] a.cells@[i]).size == b.cells@[i].size
            && a.cells@[i].material == b.cells@[i].material
}

/// The thickness bits of a cell sequence, in order.
pub open spec fn cell_sizes_of(cs: Seq<WallCell>) -> Seq<u32> {
    Seq::new(cs.len(), |i: int| cs[i].size)
}

/// The material indices of a cell sequence, in order.
pub open spec fn cell_materials_of(cs: Seq<WallCell>) -> Seq<u32> {
    Seq::new(cs.len(), |i: int| cs[i].material)
}

/// The temperature bits of a cell sequence, in order.
pub open spec fn cell_temps_of(cs: Seq<WallCell>) -> Seq<u32> {
    Seq::new(cs.len(), |i: int| cs[i].temperature)
}

/// The temperature bits of all cells of the given elements.
pub open spec fn temps_of(es: Seq<WallElement>) -> Seq<u32>
    decreases es.len(),
{
    if es.len() == 0 {
        Seq::empty()
    } else {
        cell_temps_of(es[0].cells@) + temps_of(es.drop_first())
    }
}

/// Appending one element appends its cell temperatures.
pub proof fn lemma_temps_of_push(es: Seq<WallElement>)
    requires
        es.len() >= 1,
    ensures
        temps_of(es) == temps_of(es.drop_last()) + cell_temps_of(es.last().cells@),
    decreases es.len(),
{
    if es.len() == 1 {
        assert(es.drop_first().len() == 0);
        assert(temps_of(es.drop_first()).len() == 0);
        assert(temps_of(es.drop_last()).len() == 0);
        assert(es.last() == es[0]);
        assert(temps_of(es) =~= temps_of(es.drop_last()) + cell_temps_of(es.last().cells@));
    } else {
        lemma_temps_of_push(es.drop_first());
        assert(es.drop_first().drop_last() =~= es.drop_last().drop_first());
        assert(es.drop_first().last() == es.last());
        assert(temps_of(es) =~= temps_of(es.drop_last()) + cell_temps_of(es.last().cells@));
    }
}

/// Decides structural identity of two elements.
pub fn same_shape_exec(a: &WallElement, b: &WallElement) -> (r: bool)
    ensures
        r == same_shape(*a, *b),
{
    let n = a.cells.len();
    if n != b.cells.len() {
        return false;
    }
    let mut i: usize = 0;
    while i < n
        invariant
            0 <= i <= n,
            n == a.cells@.len(),
            n == b.cells@.len(),
            forall|j: int|
                0 <= j < i ==> (#[trigger] a.cells@[j]).size == b.cells@[j].size
                    && a.cells@[j].material == b.cells@[j].material,
        decreases n - i,
    {
        let ca = a.cells[i];
        let cb = b.cells[i];
        if ca.size != cb.size || ca.material != cb.material {
            return false;
        }
        i += 1;
    }
    true
}

/// One run of structurally identical elements: the shared geometry that
/// a specialized kernel embeds, the initial temperatures of all its
/// cells, and the dispatch size.
#[derive(Debug, Clone, PartialEq, Eq)]
pub struct ShaderRun {
    pub start: usize,
    pub end: usize,
    pub cell_sizes: Vec<u32>,
    pub cell_materials: Vec<u32>,
    pub cell_temperatures: Vec<u32>,
    pub groups: u32,
}

/// What one run promises: a non-empty range within the dispatch bound,
/// all of its elements structurally identical to its first, and the
/// geometry and temperature buffers drawn from exactly those elements.
pub open spec fn run_ok(run: ShaderRun, elements: Seq<WallElement>, max: nat) -> bool {
    &&& run.start < run.end <= elements.len()
    &&& run.end - run.start <= max
    &&& forall|i: int|
        run.start <= i < run.end ==> same_shape(#[trigger] elements[i], elements[run.start as int])
    &&& run.cell_sizes@ == cell_sizes_of(elements[run.start as int].cells@)
    &&& run.cell_materials@ == cell_materials_of(elements[run.start as int].cells@)
    &&& run.cell_temperatures@ == temps_of(elements.subrange(run.start as int, run.end as int))
    &&& run.groups == ((run.end - run.start + 255) as nat) / 256
}

/// Builds the grouped layout: the collection is scanned in order and
/// split into maximal runs of structurally identical elements, each run
/// additionally capped at the dispatch bound. The clauses pin the
/// decomposition down: runs partition the collection in order, and a
/// run only ends where the bound is full or the next element's shape
/// differs from the run's first.
/// Builds one run beginning at `pos`: the scan extends it while the
/// shapes match, the bound is not full and the collection is not
/// exhausted, then collects the run's shared geometry and its cells'
/// temperatures.
fn build_one_run(elements: &Vec<WallElement>, pos: usize, max_per_chunk: usize) -> (run: ShaderRun)
    requires
        max_per_chunk >= 1,
        elements@.len() <= u32::MAX,
        pos < elements@.len(),
    ensures
        run.start == pos,
        run_ok(run, elements@, max_per_chunk as nat),
        run.end == elements@.len() || run.end - run.start == max_per_chunk || !same_shape(
            elements@[run.end as int],
            elements@[pos as int],
        ),
{
    let n = elements.len();
    let mut j: usize = pos + 1;
    while j < n && j - pos < max_per_chunk
        invariant
            pos < j <= n,
            n == elements@.len(),
            j - pos <= max_per_chunk,
            forall|i: int|
                pos < i < j ==> same_shape(#[trigger] elements@[i], elements@[pos as int]),
        ensures
            pos < j <= n,
            j - pos <= max_per_chunk,
            forall|i: int|
                pos < i < j ==> same_shape(#[trigger] elements@[i], elements@[pos as int]),
            j == n || j - pos == max_per_chunk || !same_shape(
                elements@[j as int],
                elements@[pos as int],
            ),
        decreases n - j,
    {
        if same_shape_exec(&elements[j], &elements[pos]) {
            j += 1;
        } else {
            break ;
        }
    }
    let head = &elements[pos];
    let hl = head.cells.len();
    let mut cell_sizes: Vec<u32> = Vec::new();
    let mut cell_materials: Vec<u32> = Vec::new();
    let mut c: usize = 0;
    while c < hl
        invariant
            0 <= c <= hl,
            hl == head.cells@.len(),
            head == &elements@[pos as int],
            cell_sizes@.len() == c,
            cell_materials@.len() == c,
            forall|t: int| 0 <= t < c ==> cell_sizes@[t] == head.cells@[t].size,
            forall|t: int| 0 <= t < c ==> cell_materials@[t] == head.cells@[t].material,
        decreases hl - c,
    {
        let cell = head.cells[c];
        cell_sizes.push(cell.size);
        cell_materials.push(cell.material);
        c += 1;
    }
    proof {
        assert(cell_sizes@ =~= cell_sizes_of(elements@[pos as int].cells@));
        assert(cell_materials@ =~= cell_materials_of(elements@[pos as int].cells@));
    }
    let mut cell_temperatures: Vec<u32> = Vec::new();
    let mut e: usize = pos;
    proof {
        assert(elements@.subrange(pos as int, pos as int).len() == 0);
        assert(temps_of(elements@.subrange(pos as int, pos as int)).len() == 0);
    }
    while e < j
        invariant
            pos <= e <= j <= n,
            n == elements@.len(),
            cell_temperatures@ == temps_of(elements@.subrange(pos as int, e as int)),
        decreases j - e,
    {
        let element = &elements[e];
        let el = element.cells.len();
        let ghost before = cell_temperatures@;
        let mut c2: usize = 0;
        while c2 < el
            invariant
                0 <= c2 <= el,
                el == element.cells@.len(),
                element == &elements@[e as int],
                cell_temperatures@ == before + cell_temps_of(element.cells@.take(c2 as int)),
            decreases el - c2,
        {
            let cell = element.cells[c2];
            cell_temperatures.push(cell.temperature);
            proof {
                assert(cell_temperatures@ =~= before + cell_temps_of(
                    element.cells@.take(c2 + 1),
                ));
            }
            c2 += 1;
        }
        proof {
            assert(element.cells@.take(el as int) =~= element.cells@);
            lemma_temps_of_push(elements@.subrange(pos as int, e + 1));
            assert(elements@.subrange(pos as int, e + 1).drop_last() =~= elements@.subrange(
                pos as int,
                e as int,
            ));
            assert(elements@.subrange(pos as int, e + 1).last() == elements@[e as int]);
            assert(cell_temperatures@ =~= temps_of(elements@.subrange(pos as int, e + 1)));
        }
        e += 1;
    }
    let groups: u32 = (((j - pos) as u64 + 255) / 256) as u32;
    ShaderRun { start: pos, end: j, cell_sizes, cell_materials, cell_temperatures, groups }
}

/// Builds the grouped layout: the collection is scanned in order and
/// split into maximal runs of structurally identical elements, each run
/// additionally capped at the dispatch bound. The clauses pin the
/// decomposition down: runs partition the collection in order, and a
/// run only ends where the bound is full or the next element's shape
/// differs from the run's first.
pub fn build_shader_runs(elements: &Vec<WallElement>, max_per_chunk: usize) -> (r: Vec<ShaderRun>)
    requires
        max_per_chunk >= 1,
        1 <= elements@.len() <= u32::MAX,
    ensures
        r@.len() >= 1,
        r@[0].start == 0,
        r@[r@.len() - 1].end == elements@.len(),
        forall|k: int|
            0 <= k < r@.len() ==> run_ok(#[trigger] r@[k], elements@, max_per_chunk as nat),
        forall|k: int| 1 <= k < r@.len() ==> (#[trigger] r@[k]).start == r@[k - 1].end,
        forall|k: int|
            1 <= k < r@.len() ==> (#[trigger] r@[k - 1]).end - r@[k - 1].start == max_per_chunk
                || !same_shape(elements@[r@[k].start as int], elements@[r@[k - 1].start as int]),
{
    let n = elements.len();
    let mut runs: Vec<ShaderRun> = Vec::new();
    let mut pos: usize = 0;
    while pos < n
        invariant
            n == elements@.len(),
            1 <= n <= u32::MAX,
            max_per_chunk >= 1,
            pos <= n,
            (runs@.len() == 0) <==> (pos == 0),
            runs@.len() >= 1 ==> runs@[0].start == 0 && runs@[runs@.len() - 1].end == pos,
            forall|k: int|
                0 <= k < runs@.len() ==> run_ok(#[trigger] runs@[k], elements@, max_per_chunk as nat),
            forall|k: int| 1 <= k < runs@.len() ==> (#[trigger] runs@[k]).start == runs@[k - 1].end,
            forall|k: int|
                1 <= k < runs@.len() ==> (#[trigger] runs@[k - 1]).end - runs@[k - 1].start
                    == max_per_chunk || !same_shape(
                    elements@[runs@[k].start as int],
                    elements@[runs@[k - 1].start as int],
                ),
            runs@.len() >= 1 && pos < n ==> runs@[runs@.len() - 1].end - runs@[runs@.len()
                - 1].start == max_per_chunk || !same_shape(
                elements@[pos as int],
                elements@[runs@[runs@.len() - 1].start as int],
            ),
        decreases n - pos,
    {
        let run = build_one_run(elements, pos, max_per_chunk);
        let end = run.end;
        runs.push(run);
        pos = end;
    }
    runs
}

/// Appending one cell appends its three words.
pub proof fn lemma_cells_words_push(cs: Seq<WallCell>)
    requires
        cs.len() >= 1,
    ensures
        cells_words(cs) == cells_words(cs.drop_last()) + cell_words(cs.last()),
    decreases cs.len(),
{
    if cs.len() == 1 {
        assert(cs.drop_first().len() == 0);
        assert(cells_words(cs.drop_first()).len() == 0);
        assert(cells_words(cs.drop_last()).len() == 0);
        assert(cs.last() == cs[0]);
        assert(cells_words(cs) =~= cells_words(cs.drop_last()) + cell_words(cs.last()));
    } else {
        lemma_cells_words_push(cs.drop_first());
        assert(cs.drop_first().drop_last() =~= cs.drop_last().drop_first());
        assert(cs.drop_first().last() == cs.last());
        assert(cells_words(cs) =~= cells_words(cs.drop_last()) + cell_words(cs.last()));
    }
}

/// The temperature buffers of a sequence of runs, run by run.
pub open spec fn runs_temps(runs: Seq<ShaderRun>) -> Seq<u32>
    decreases runs.len(),
{
    if runs.len() == 0 {
        Seq::empty()
    } else {
        runs[0].cell_temperatures@ + runs_temps(runs.drop_first())
    }
}

/// Collecting temperatures splits at any cut point of the elements.
pub proof fn lemma_temps_of_split(es: Seq<WallElement>, m: int)
    requires
        0 <= m <= es.len(),
    ensures
        temps_of(es) == temps_of(es.take(m)) + temps_of(es.skip(m)),
    decreases m,
{
    if m == 0 {
        assert(es.skip(0) =~= es);
        assert(temps_of(es.take(0)).len() == 0);
        assert(temps_of(es) =~= temps_of(es.take(0)) + temps_of(es.skip(0)));
    } else {
        lemma_temps_of_split(es, m - 1);
        lemma_temps_of_push(es.take(m));
        assert(es.take(m).drop_last() =~= es.take(m - 1));
        assert(es.take(m).last() == es[m - 1]);
        assert(es.skip(m - 1).len() >= 1);
        assert(es.skip(m - 1)[0] == es[m - 1]);
        assert(es.skip(m - 1).drop_first() =~= es.skip(m));
        assert(temps_of(es.skip(m - 1)) == cell_temps_of(es[m - 1].cells@) + temps_of(es.skip(m)));
        assert(temps_of(es) =~= temps_of(es.take(m)) + temps_of(es.skip(m)));
    }
}

/// Appending one run to a run list appends its temperature buffer.
pub proof fn lemma_runs_temps_push(runs: Seq<ShaderRun>)
    requires
        runs.len() >= 1,
    ensures
        runs_temps(runs) == runs_temps(runs.drop_last()) + runs.last().cell_temperatures@,
    decreases runs.len(),
{
    if runs.len() == 1 {
        assert(runs.drop_first().len() == 0);
        assert(runs_temps(runs.drop_first()).len() == 0);
        assert(runs_temps(runs.drop_last()).len() == 0);
        assert(runs.last() == runs[0]);
        assert(runs_temps(runs) =~= runs_temps(runs.drop_last())
            + runs.last().cell_temperatures@);
    } else {
        lemma_runs_temps_push(runs.drop_first());
        assert(runs.drop_first().drop_last() =~= runs.drop_last().drop_first());
        assert(runs.drop_first().last() == runs.last());
        assert(runs_temps(runs) =~= runs_temps(runs.drop_last())
            + runs.last().cell_temperatures@);
    }
}

/// The temperatures carried by the first `m` runs are those of the
/// elements up to the `m`-th run's end.
proof fn lemma_runs_cover_temps_upto(
    runs: Seq<ShaderRun>,
    elements: Seq<WallElement>,
    max: nat,
    m: int,
)
    requires
        0 <= m <= runs.len(),
        runs.len() >= 1,
        runs[0].start == 0,
        forall|k: int| 0 <= k < runs.len() ==> run_ok(#[trigger] runs[k], elements, max),
        forall|k: int| 1 <= k < runs.len() ==> (#[trigger] runs[k]).start == runs[k - 1].end,
    ensures
        runs_temps(runs.take(m)) == temps_of(
            elements.take(if m == 0 {
                0
            } else {
                runs[m - 1].end as int
            }),
        ),
    decreases m,
{
    if m == 0 {
        assert(runs_temps(runs.take(0)).len() == 0);
        assert(temps_of(elements.take(0)).len() == 0);
        assert(runs_temps(runs.take(0)) =~= temps_of(elements.take(0)));
    } else {
        lemma_runs_cover_temps_upto(runs, elements, max, m - 1);
        lemma_runs_temps_push(runs.take(m));
        assert(runs.take(m).drop_last() =~= runs.take(m - 1));
        assert(runs.take(m).last() == runs[m - 1]);
        assert(run_ok(runs[m - 1], elements, max));
        let start = runs[m - 1].start as int;
        let end = runs[m - 1].end as int;
        if m == 1 {
            assert(start == 0);
        } else {
            assert(runs[m - 1].start == runs[m - 2].end);
        }
        lemma_temps_of_split(elements.take(end), start);
        assert(elements.take(end).take(start) =~= elements.take(start));
        assert(elements.take(end).skip(start) =~= elements.subrange(start, end));
        assert(runs_temps(runs.take(m)) =~= temps_of(elements.take(end)));
    }
}

/// The grouped layout loses no data either: the concatenated
/// temperature buffers of consecutive runs that partition the
/// collection are exactly the collection's cell temperatures, however
/// the runs were cut.
pub proof fn lemma_runs_cover_temps(runs: Seq<ShaderRun>, elements: Seq<WallElement>, max: nat)
    requires
        runs.len() >= 1,
        runs[0].start == 0,
        runs[runs.len() - 1].end == elements.len(),
        forall|k: int| 0 <= k < runs.len() ==> run_ok(#[trigger] runs[k], elements, max),
        forall|k: int| 1 <= k < runs.len() ==> (#[trigger] runs[k]).start == runs[k - 1].end,
    ensures
        runs_temps(runs) == temps_of(elements),
{
    lemma_runs_cover_temps_upto(runs, elements, max, runs.len() as int);
    assert(runs.take(runs.len() as int) =~= runs);
    assert(elements.take(runs[runs.len() - 1].end as int) =~= elements);
}

} // verus!
