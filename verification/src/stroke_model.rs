//! What a brush stroke does to the heights, told cell by cell.

use crate::brush::{
    brush_cells, cells_of_grid, chunk_of, directional_height, in_disk, in_grid, lemma_brush_rows,
    on_seam_of, smoothed_height,
};
use crate::edit_log::{cells_below, distinct_cells, names_cell};
use crate::grid::{grid_at, lemma_grid_index};
use crate::history::{
    apply_edits, inverse_action, inverse_edits, lemma_apply_edits, undo_step, ActionModel, History,
};
use vstd::prelude::*;

verus! {

/// The size of a brush: `x` is its diameter in cells, `y` its strength in height units.
#[derive(Clone, Copy, Debug, PartialEq, Eq, Structural)]
pub struct BrushSize {
    pub x: i32,
    pub y: i32,
}

/// What a stroke changes as it goes.
pub struct StrokeState {
    /// The heights of the grid.
    pub heights: Seq<i32>,
    /// The cells changed so far by the stroke, with their heights before it.
    pub edited: Seq<(usize, i32)>,
    /// For each chunk, whether it waits for a rebuild at the end of the stroke.
    pub seam: Seq<bool>,
    /// For each chunk, whether this application of the brush changed a cell of it.
    pub dirty: Seq<bool>,
}

/// The state after the cell `(x, z)`, of height `before`, is given the height
/// `after`: the cell is recorded if the stroke had not changed it yet, its
/// chunk is dirty, and the neighbouring chunks at whose border it lies are on
/// a seam.
pub open spec fn touched(
    s: StrokeState,
    x: int,
    z: int,
    before: i32,
    after: i32,
    chunk_size: int,
    num_chunks: int,
) -> StrokeState {
    let place = z * (chunk_size * num_chunks) + x;
    StrokeState {
        heights: s.heights.update(place, after),
        edited: if names_cell(s.edited, place) {
            s.edited
        } else {
            s.edited.push((place as usize, before))
        },
        seam: Seq::new(
            s.seam.len(),
            |c: int| s.seam[c] || on_seam_of(c, x, z, chunk_size, num_chunks),
        ),
        dirty: s.dirty.update(chunk_of(x, z, chunk_size, num_chunks), true),
    }
}

/// A directional brush: its mode (0 to 4), strength, mouse button, and height lock.
#[derive(Clone, Copy, Debug)]
pub struct Directional {
    pub mode: i32,
    pub strength: i32,
    pub button: i32,
    pub locked: bool,
    pub locked_height: i32,
}

/// The state after a directional brush meets the cell `(x, z)`: a cell that
/// the stroke has changed before is left alone, and so is one whose height
/// the brush would not change.
pub open spec fn directional_cell(
    s: StrokeState,
    x: int,
    z: int,
    b: Directional,
    chunk_size: int,
    num_chunks: int,
) -> StrokeState {
    let place = z * (chunk_size * num_chunks) + x;
    let current = s.heights[place];
    let after = directional_height(current, b.mode, b.strength, b.button, b.locked, b.locked_height);
    if names_cell(s.edited, place) || after == current {
        s
    } else {
        touched(s, x, z, current, after, chunk_size, num_chunks)
    }
}

/// The state after a directional brush has met the first `n` of `cells`.
pub open spec fn directional_fold(
    s: StrokeState,
    cells: Seq<(i32, i32, i32)>,
    n: int,
    b: Directional,
    chunk_size: int,
    num_chunks: int,
) -> StrokeState
    decreases n,
{
    if n <= 0 {
        s
    } else {
        directional_cell(
            directional_fold(s, cells, n - 1, b, chunk_size, num_chunks),
            cells[n - 1].0 as int,
            cells[n - 1].2 as int,
            b,
            chunk_size,
            num_chunks,
        )
    }
}

/// The sum of the heights of the first `n` of `cells`.
pub open spec fn cells_total(cells: Seq<(i32, i32, i32)>, n: int) -> int
    decreases n,
{
    if n <= 0 {
        0
    } else {
        cells_total(cells, n - 1) + cells[n - 1].1
    }
}

/// The sum of heights lies between the least and the greatest `i32` times their number.
pub proof fn lemma_cells_total(cells: Seq<(i32, i32, i32)>, n: int)
    requires
        0 <= n <= cells.len(),
    ensures
        -0x8000_0000 * n <= cells_total(cells, n) <= 0x7fff_ffff * n,
    decreases n,
{
    if n > 0 {
        lemma_cells_total(cells, n - 1);
    }
}

/// A smoothing brush at `(gx, gz)`: its diameter, and the sum and number of
/// the heights that it levels towards.
pub struct Smoothing {
    pub gx: int,
    pub gz: int,
    pub radius: int,
    pub total: int,
    pub count: int,
}

/// The state after a smoothing brush meets a cell: within the brush, a cell
/// a unit or more from the mean moves one unit towards it.
pub open spec fn smooth_cell(
    s: StrokeState,
    cell: (i32, i32, i32),
    b: Smoothing,
    chunk_size: int,
    num_chunks: int,
) -> StrokeState {
    let after = smoothed_height(cell.1, b.total, b.count);
    if in_disk(cell.0 - b.gx, cell.2 - b.gz, b.radius) && after != cell.1 {
        touched(s, cell.0 as int, cell.2 as int, cell.1, after as i32, chunk_size, num_chunks)
    } else {
        s
    }
}

/// The state after a smoothing brush has met the first `n` of `cells`.
pub open spec fn smooth_fold(
    s: StrokeState,
    cells: Seq<(i32, i32, i32)>,
    n: int,
    b: Smoothing,
    chunk_size: int,
    num_chunks: int,
) -> StrokeState
    decreases n,
{
    if n <= 0 {
        s
    } else {
        smooth_cell(
            smooth_fold(s, cells, n - 1, b, chunk_size, num_chunks),
            cells[n - 1],
            b,
            chunk_size,
            num_chunks,
        )
    }
}

/// The diameter one greater, held within `i32`: a smoothing brush gathers
/// heights from that far.
pub open spec fn wider(radius: int) -> int {
    if radius >= i32::MAX {
        i32::MAX as int
    } else {
        radius + 1
    }
}

/// The state after one application of a brush at `(gx, gz)`.
///
/// Mode 5 smooths: inside the grid it gathers the cells within the wider
/// diameter and levels those within the diameter towards their mean, or,
/// with the height lock on, towards the locked height; outside the grid it
/// does nothing.  Any other mode applies the directional brush to the
/// cells within the diameter.
pub open spec fn brush_outcome(
    s: StrokeState,
    gx: int,
    gz: int,
    size: BrushSize,
    mode: i32,
    button: i32,
    locked: bool,
    locked_height: i32,
    chunk_size: int,
    num_chunks: int,
) -> StrokeState {
    let side = chunk_size * num_chunks;
    if mode == 5 {
        if in_grid(side, gx, gz) {
            let cells = brush_cells(s.heights, side, gx, gz, wider(size.x as int));
            let b = if locked {
                Smoothing { gx, gz, radius: size.x as int, total: locked_height as int, count: 1 }
            } else {
                Smoothing {
                    gx,
                    gz,
                    radius: size.x as int,
                    total: cells_total(cells, cells.len() as int),
                    count: cells.len() as int,
                }
            };
            smooth_fold(s, cells, cells.len() as int, b, chunk_size, num_chunks)
        } else {
            s
        }
    } else {
        let cells = brush_cells(s.heights, side, gx, gz, size.x as int);
        directional_fold(
            s,
            cells,
            cells.len() as int,
            Directional { mode, strength: size.y, button, locked, locked_height },
            chunk_size,
            num_chunks,
        )
    }
}

/// The log of a stroke holds the heights before the stroke: `start` are the
/// heights as the stroke began, each entry of `edited` holds the height that
/// its cell had then, and every cell without an entry still has that height.
pub open spec fn log_holds(start: Seq<i32>, heights: Seq<i32>, edited: Seq<(usize, i32)>) -> bool {
    &&& heights.len() == start.len()
    &&& distinct_cells(edited)
    &&& cells_below(edited, start.len() as int)
    &&& forall|k: int|
        0 <= k < edited.len() ==> (#[trigger] edited[k]).1 == start[edited[k].0 as int]
    &&& forall|i: int|
        0 <= i < start.len() && !names_cell(edited, i) ==> #[trigger] heights[i] == start[i]
}

/// As a stroke begins, with nothing edited yet, its log holds the heights before it.
pub proof fn lemma_fresh_log_holds(heights: Seq<i32>)
    ensures
        log_holds(heights, heights, Seq::empty()),
{
}

/// Giving a cell another height keeps the log of the stroke, where the height
/// recorded for a cell without an entry is the one the cell had as the stroke began.
pub proof fn lemma_touched_keeps_log(
    start: Seq<i32>,
    s: StrokeState,
    x: int,
    z: int,
    before: i32,
    after: i32,
    chunk_size: int,
    num_chunks: int,
)
    requires
        log_holds(start, s.heights, s.edited),
        in_grid(chunk_size * num_chunks, x, z),
        start.len() == (chunk_size * num_chunks) * (chunk_size * num_chunks),
        start.len() <= usize::MAX,
        !names_cell(s.edited, z * (chunk_size * num_chunks) + x) ==> before == start[z * (chunk_size
            * num_chunks) + x],
    ensures
        log_holds(
            start,
            touched(s, x, z, before, after, chunk_size, num_chunks).heights,
            touched(s, x, z, before, after, chunk_size, num_chunks).edited,
        ),
        forall|i: int|
            names_cell(s.edited, i) ==> names_cell(
                touched(s, x, z, before, after, chunk_size, num_chunks).edited,
                i,
            ),
{
    let side = chunk_size * num_chunks;
    let place = z * side + x;
    lemma_grid_index(side, x, z);
    let t = touched(s, x, z, before, after, chunk_size, num_chunks);
    if names_cell(s.edited, place) {
        assert(t.edited == s.edited);
        assert forall|i: int| 0 <= i < start.len() && !names_cell(t.edited, i) implies #[trigger] t.heights[i]
            == start[i] by {
            assert(i != place);
            assert(s.heights[i] == start[i]);
        }
    } else {
        let n = s.edited.len() as int;
        assert(t.edited == s.edited.push((place as usize, before)));
        assert(t.edited[n].0 == place);
        assert forall|i: int, j: int| 0 <= i < j < t.edited.len() implies t.edited[i].0
            != t.edited[j].0 by {
            if j == n {
                assert(s.edited[i].0 != place);
            } else {
                assert(s.edited[i].0 != s.edited[j].0);
            }
        }
        assert forall|k: int| 0 <= k < t.edited.len() implies (#[trigger] t.edited[k]).1
            == start[t.edited[k].0 as int] by {
            if k < n {
                assert(t.edited[k] == s.edited[k]);
            }
        }
        assert forall|k: int| 0 <= k < t.edited.len() implies (#[trigger] t.edited[k]).0
            < start.len() by {
            if k < n {
                assert(t.edited[k] == s.edited[k]);
            }
        }
        assert forall|i: int| 0 <= i < start.len() && !names_cell(t.edited, i) implies #[trigger] t.heights[i]
            == start[i] by {
            assert(i != place);
            if names_cell(s.edited, i) {
                let k = choose|k: int| 0 <= k < s.edited.len() && (#[trigger] s.edited[k]).0 == i;
                assert(t.edited[k].0 == i);
            }
            assert(s.heights[i] == start[i]);
        }
        assert forall|i: int| names_cell(s.edited, i) implies names_cell(t.edited, i) by {
            let k = choose|k: int| 0 <= k < s.edited.len() && (#[trigger] s.edited[k]).0 == i;
            assert(t.edited[k].0 == i);
        }
    }
}

/// A directional brush keeps the log of the stroke.
pub proof fn lemma_directional_keeps_log(
    start: Seq<i32>,
    s: StrokeState,
    cells: Seq<(i32, i32, i32)>,
    n: int,
    b: Directional,
    chunk_size: int,
    num_chunks: int,
)
    requires
        log_holds(start, s.heights, s.edited),
        start.len() == (chunk_size * num_chunks) * (chunk_size * num_chunks),
        start.len() <= usize::MAX,
        0 <= n <= cells.len(),
        forall|k: int|
            0 <= k < cells.len() ==> in_grid(
                chunk_size * num_chunks,
                (#[trigger] cells[k]).0 as int,
                cells[k].2 as int,
            ),
    ensures
        log_holds(
            start,
            directional_fold(s, cells, n, b, chunk_size, num_chunks).heights,
            directional_fold(s, cells, n, b, chunk_size, num_chunks).edited,
        ),
    decreases n,
{
    if n > 0 {
        lemma_directional_keeps_log(start, s, cells, n - 1, b, chunk_size, num_chunks);
        let r = directional_fold(s, cells, n - 1, b, chunk_size, num_chunks);
        let x = cells[n - 1].0 as int;
        let z = cells[n - 1].2 as int;
        let side = chunk_size * num_chunks;
        let place = z * side + x;
        lemma_grid_index(side, x, z);
        let current = r.heights[place];
        let after = directional_height(
            current,
            b.mode,
            b.strength,
            b.button,
            b.locked,
            b.locked_height,
        );
        if !(names_cell(r.edited, place) || after == current) {
            lemma_touched_keeps_log(start, r, x, z, current, after, chunk_size, num_chunks);
        }
    }
}

/// A smoothing brush keeps the log of the stroke, where the heights that
/// its cells carry are those that cells without an entry had as the stroke began.
pub proof fn lemma_smoothing_keeps_log(
    start: Seq<i32>,
    s: StrokeState,
    cells: Seq<(i32, i32, i32)>,
    n: int,
    b: Smoothing,
    chunk_size: int,
    num_chunks: int,
)
    requires
        log_holds(start, s.heights, s.edited),
        start.len() == (chunk_size * num_chunks) * (chunk_size * num_chunks),
        start.len() <= usize::MAX,
        0 <= n <= cells.len(),
        cells_of_grid(cells, s.heights, chunk_size * num_chunks),
    ensures
        log_holds(
            start,
            smooth_fold(s, cells, n, b, chunk_size, num_chunks).heights,
            smooth_fold(s, cells, n, b, chunk_size, num_chunks).edited,
        ),
        forall|i: int|
            names_cell(s.edited, i) ==> names_cell(
                smooth_fold(s, cells, n, b, chunk_size, num_chunks).edited,
                i,
            ),
    decreases n,
{
    if n > 0 {
        lemma_smoothing_keeps_log(start, s, cells, n - 1, b, chunk_size, num_chunks);
        let r = smooth_fold(s, cells, n - 1, b, chunk_size, num_chunks);
        let cell = cells[n - 1];
        let x = cell.0 as int;
        let z = cell.2 as int;
        let side = chunk_size * num_chunks;
        let place = z * side + x;
        assert(in_grid(side, x, z));
        lemma_grid_index(side, x, z);
        let after = smoothed_height(cell.1, b.total, b.count);
        if in_disk(cell.0 - b.gx, cell.2 - b.gz, b.radius) && after != cell.1 {
            if !names_cell(r.edited, place) {
                assert(!names_cell(s.edited, place));
                assert(cell.1 == s.heights[place]);
                assert(s.heights[place] == start[place]);
            }
            lemma_touched_keeps_log(start, r, x, z, cell.1, after as i32, chunk_size, num_chunks);
        }
    }
}

/// Every application of a brush keeps the log of the stroke: the entries of
/// the log hold the heights before the stroke, whatever the brush changes.
pub proof fn lemma_brush_keeps_log(
    start: Seq<i32>,
    s: StrokeState,
    gx: int,
    gz: int,
    size: BrushSize,
    mode: i32,
    button: i32,
    locked: bool,
    locked_height: i32,
    chunk_size: int,
    num_chunks: int,
)
    requires
        log_holds(start, s.heights, s.edited),
        1 <= chunk_size * num_chunks <= i32::MAX,
        start.len() == (chunk_size * num_chunks) * (chunk_size * num_chunks),
        start.len() <= usize::MAX,
    ensures
        ({
            let after = brush_outcome(
                s,
                gx,
                gz,
                size,
                mode,
                button,
                locked,
                locked_height,
                chunk_size,
                num_chunks,
            );
            log_holds(start, after.heights, after.edited)
        }),
{
    let side = chunk_size * num_chunks;
    if mode == 5 {
        if in_grid(side, gx, gz) {
            let reach = wider(size.x as int);
            let cells = brush_cells(s.heights, side, gx, gz, reach);
            lemma_brush_rows(s.heights, side, gx, gz, reach, reach);
            let b = if locked {
                Smoothing { gx, gz, radius: size.x as int, total: locked_height as int, count: 1 }
            } else {
                Smoothing {
                    gx,
                    gz,
                    radius: size.x as int,
                    total: cells_total(cells, cells.len() as int),
                    count: cells.len() as int,
                }
            };
            lemma_smoothing_keeps_log(start, s, cells, cells.len() as int, b, chunk_size, num_chunks);
        }
    } else {
        let cells = brush_cells(s.heights, side, gx, gz, size.x as int);
        lemma_brush_rows(s.heights, side, gx, gz, size.x as int, size.x as int);
        lemma_directional_keeps_log(
            start,
            s,
            cells,
            cells.len() as int,
            Directional { mode, strength: size.y, button, locked, locked_height },
            chunk_size,
            num_chunks,
        );
    }
}

/// Undoing a stroke restores the heights before it.  Where the newest step
/// to undo is the log of a stroke that began at the heights `start`, one
/// step of undo gives back `start`, and the step that it leaves to redo
/// holds, for exactly the cells of the stroke, their heights after the stroke.
pub proof fn lemma_undo_restores_stroke(h: History, start: Seq<i32>)
    requires
        h.undo.len() > 0,
        h.undo.last() is TerrainEdit,
        log_holds(start, h.heights, h.undo.last()->TerrainEdit_0),
    ensures
        undo_step(h).heights == start,
        undo_step(h).undo == h.undo.drop_last(),
        undo_step(h).redo == h.redo.push(
            ActionModel::TerrainEdit(inverse_edits(h.heights, h.undo.last()->TerrainEdit_0)),
        ),
        forall|k: int|
            0 <= k < (h.undo.last()->TerrainEdit_0).len() ==> (#[trigger] inverse_edits(
                h.heights,
                h.undo.last()->TerrainEdit_0,
            )[k]) == ((h.undo.last()->TerrainEdit_0)[k].0, h.heights[(h.undo.last()->TerrainEdit_0)[k].0 as int]),
{
    let e = h.undo.last()->TerrainEdit_0;
    let n = e.len() as int;
    lemma_apply_edits(h.heights, e, n);
    let after = apply_edits(h.heights, e, n);
    assert forall|i: int| 0 <= i < start.len() implies after[i] == start[i] by {
        if names_cell(e, i) {
            let k = choose|k: int| 0 <= k < e.len() && (#[trigger] e[k]).0 == i;
            assert(after[e[k].0 as int] == e[k].1);
        } else {
            assert forall|k: int| 0 <= k < n implies (#[trigger] e[k]).0 != i by {}
            assert(h.heights[i] == start[i]);
        }
    }
    assert(after =~= start);
}

} // verus!
