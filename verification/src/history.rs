//! The undo and redo history: what a step does to the heights and colors,
//! and that undoing and redoing are inverse.

use crate::brush::{chunk_of, on_seam_of};
use crate::edit_log::{cells_below, distinct_cells};
use crate::structs::Color8;
use vstd::prelude::*;

verus! {

/// What an `Action` holds, as sequences.
pub enum ActionModel {
    TerrainEdit(Seq<(usize, i32)>),
    VertexColor(Seq<(usize, Color8)>),
}

impl ActionModel {
    /// The action names cells of a grid of `cells` cells, none twice.
    pub open spec fn wf(self, cells: int) -> bool {
        match self {
            ActionModel::TerrainEdit(e) => cells_below(e, cells) && distinct_cells(e),
            ActionModel::VertexColor(e) => cells_below(e, cells) && distinct_cells(e),
        }
    }
}

/// The place of the first color equal to `color` in the palette; the length
/// of the palette where it holds none.
pub open spec fn color_place(palette: Seq<Color8>, color: Color8) -> int
    decreases palette.len(),
{
    if palette.len() == 0 {
        0
    } else if palette.first() == color {
        0
    } else {
        1 + color_place(palette.drop_first(), color)
    }
}

/// `color_place` gives the first place of the color, or the length.
pub proof fn lemma_color_place(palette: Seq<Color8>, color: Color8)
    ensures
        0 <= color_place(palette, color) <= palette.len(),
        color_place(palette, color) < palette.len() ==> palette[color_place(palette, color)]
            == color,
        forall|i: int| 0 <= i < color_place(palette, color) ==> palette[i] != color,
    decreases palette.len(),
{
    if palette.len() > 0 && palette.first() != color {
        let rest = palette.drop_first();
        lemma_color_place(rest, color);
        assert forall|i: int| 0 <= i < color_place(palette, color) implies palette[i] != color by {
            if i > 0 {
                assert(palette[i] == rest[i - 1]);
            }
        }
    }
}

/// The palette after `color` is looked up in it: with `color` at its end if it was not there.
pub open spec fn palette_with(palette: Seq<Color8>, color: Color8) -> Seq<Color8> {
    if color_place(palette, color) == palette.len() {
        palette.push(color)
    } else {
        palette
    }
}

/// The heights after the first `n` of `edits` are applied: each entry gives its cell its height.
pub open spec fn apply_edits(heights: Seq<i32>, edits: Seq<(usize, i32)>, n: int) -> Seq<i32>
    decreases n,
{
    if n <= 0 {
        heights
    } else {
        apply_edits(heights, edits, n - 1).update(edits[n - 1].0 as int, edits[n - 1].1)
    }
}

/// The entries that take `edits` back: for each cell the height it has in `heights`.
pub open spec fn inverse_edits(heights: Seq<i32>, edits: Seq<(usize, i32)>) -> Seq<(usize, i32)> {
    Seq::new(edits.len(), |k: int| (edits[k].0, heights[edits[k].0 as int]))
}

/// The colors and the palette after the first `n` of `edits` are painted, each
/// color joining the palette where it is new.
pub open spec fn paint_colors(
    colors: Seq<usize>,
    palette: Seq<Color8>,
    edits: Seq<(usize, Color8)>,
    n: int,
) -> (Seq<usize>, Seq<Color8>)
    decreases n,
{
    if n <= 0 {
        (colors, palette)
    } else {
        let before = paint_colors(colors, palette, edits, n - 1);
        (
            before.0.update(edits[n - 1].0 as int, color_place(before.1, edits[n - 1].1) as usize),
            palette_with(before.1, edits[n - 1].1),
        )
    }
}

/// The entries that take painted `edits` back: for each cell the color it has.
pub open spec fn inverse_colors(
    colors: Seq<usize>,
    palette: Seq<Color8>,
    edits: Seq<(usize, Color8)>,
) -> Seq<(usize, Color8)> {
    Seq::new(edits.len(), |k: int| (edits[k].0, palette[colors[edits[k].0 as int] as int]))
}

/// The cell that heads entry `k` of an action.
pub open spec fn action_cell(a: ActionModel, k: int) -> int {
    match a {
        ActionModel::TerrainEdit(e) => e[k].0 as int,
        ActionModel::VertexColor(e) => e[k].0 as int,
    }
}

/// Number of entries of an action.
pub open spec fn action_len(a: ActionModel) -> int {
    match a {
        ActionModel::TerrainEdit(e) => e.len() as int,
        ActionModel::VertexColor(e) => e.len() as int,
    }
}

/// Whether a step rebuilds chunk `chunk`: whether the first `n` entries
/// of the action name a cell of it, or one that puts it on a seam.
pub open spec fn action_touches(
    a: ActionModel,
    n: int,
    chunk: int,
    chunk_size: int,
    num_chunks: int,
) -> bool {
    exists|k: int|
        0 <= k < n && k < action_len(a) && cell_touches(
            #[trigger] action_cell(a, k),
            chunk,
            chunk_size,
            num_chunks,
        )
}

/// A place in the grid is a cell of the grid.
pub proof fn lemma_cell_of_place(place: int, side: int)
    requires
        1 <= side,
        0 <= place < side * side,
    ensures
        0 <= place % side < side,
        0 <= place / side < side,
        (place / side) * side + place % side == place,
{
    assert(0 <= place / side < side) by (nonlinear_arith)
        requires
            0 <= place < side * side,
            1 <= side,
    ;
    assert((place / side) * side + place % side == place) by (nonlinear_arith)
        requires
            1 <= side,
    ;
}

/// Whether an edit of the cell with place `cell` rebuilds chunk `chunk`.
pub open spec fn cell_touches(cell: int, chunk: int, chunk_size: int, num_chunks: int) -> bool {
    let side = chunk_size * num_chunks;
    chunk == chunk_of(cell % side, cell / side, chunk_size, num_chunks) || on_seam_of(
        chunk,
        cell % side,
        cell / side,
        chunk_size,
        num_chunks,
    )
}

/// The part of a session that the history acts on.
pub struct History {
    pub heights: Seq<i32>,
    pub colors: Seq<usize>,
    pub palette: Seq<Color8>,
    /// Steps that can be undone, oldest first.
    pub undo: Seq<ActionModel>,
    /// Steps that can be redone, oldest first.
    pub redo: Seq<ActionModel>,
}

impl History {
    /// Every action names cells of the grid, none twice.
    pub open spec fn wf(self) -> bool {
        &&& forall|k: int|
            0 <= k < self.undo.len() ==> (#[trigger] self.undo[k]).wf(self.heights.len() as int)
        &&& forall|k: int|
            0 <= k < self.redo.len() ==> (#[trigger] self.redo[k]).wf(self.heights.len() as int)
        &&& self.colors.len() == self.heights.len()
    }
}

/// The step that takes an action back, as seen from the state in which the
/// action is about to be carried out.
pub open spec fn inverse_action(h: History, a: ActionModel) -> ActionModel {
    match a {
        ActionModel::TerrainEdit(e) => ActionModel::TerrainEdit(inverse_edits(h.heights, e)),
        ActionModel::VertexColor(e) => ActionModel::VertexColor(
            inverse_colors(h.colors, h.palette, e),
        ),
    }
}

/// The heights, colors and palette after an action is carried out.
pub open spec fn acted(h: History, a: ActionModel) -> History {
    match a {
        ActionModel::TerrainEdit(e) => History {
            heights: apply_edits(h.heights, e, e.len() as int),
            ..h
        },
        ActionModel::VertexColor(e) => History {
            colors: paint_colors(h.colors, h.palette, e, e.len() as int).0,
            palette: paint_colors(h.colors, h.palette, e, e.len() as int).1,
            ..h
        },
    }
}

/// One step of undo: the newest step is carried out, and what takes it back
/// can be redone.  With nothing to undo, nothing happens.
pub open spec fn undo_step(h: History) -> History {
    if h.undo.len() == 0 {
        h
    } else {
        History {
            undo: h.undo.drop_last(),
            redo: h.redo.push(inverse_action(h, h.undo.last())),
            ..acted(h, h.undo.last())
        }
    }
}

/// One step of redo, the mirror image of `undo_step`.
pub open spec fn redo_step(h: History) -> History {
    if h.redo.len() == 0 {
        h
    } else {
        History {
            redo: h.redo.drop_last(),
            undo: h.undo.push(inverse_action(h, h.redo.last())),
            ..acted(h, h.redo.last())
        }
    }
}

/// `n` steps of undo.
pub open spec fn undo_steps(h: History, n: nat) -> History
    decreases n,
{
    if n == 0 {
        h
    } else {
        undo_steps(undo_step(h), (n - 1) as nat)
    }
}

/// `n` steps of redo.
pub open spec fn redo_steps(h: History, n: nat) -> History
    decreases n,
{
    if n == 0 {
        h
    } else {
        redo_step(redo_steps(h, (n - 1) as nat))
    }
}

/// What distinct edits do to each cell: a cell that entry `k` names takes
/// the height of that entry, every other cell keeps its own.
pub proof fn lemma_apply_edits(heights: Seq<i32>, edits: Seq<(usize, i32)>, n: int)
    requires
        0 <= n <= edits.len(),
        cells_below(edits, heights.len() as int),
        distinct_cells(edits),
    ensures
        apply_edits(heights, edits, n).len() == heights.len(),
        forall|k: int| 0 <= k < n ==> apply_edits(heights, edits, n)[(#[trigger] edits[k]).0 as int] == edits[k].1,
        forall|i: int|
            0 <= i < heights.len() && (forall|k: int| 0 <= k < n ==> (#[trigger] edits[k]).0 != i)
                ==> apply_edits(heights, edits, n)[i] == heights[i],
    decreases n,
{
    if n > 0 {
        lemma_apply_edits(heights, edits, n - 1);
        let before = apply_edits(heights, edits, n - 1);
        assert forall|k: int| 0 <= k < n implies apply_edits(heights, edits, n)[(
        #[trigger] edits[k]).0 as int] == edits[k].1 by {
            if k < n - 1 {
                assert(edits[k].0 != edits[n - 1].0);
            }
        }
    }
}

/// Taking distinct edits back restores the heights, and what takes the
/// taking back back is the edits themselves.
pub proof fn lemma_edits_round_trip(heights: Seq<i32>, edits: Seq<(usize, i32)>)
    requires
        cells_below(edits, heights.len() as int),
        distinct_cells(edits),
    ensures
        ({
            let after = apply_edits(heights, edits, edits.len() as int);
            let back = inverse_edits(heights, edits);
            &&& cells_below(back, heights.len() as int)
            &&& distinct_cells(back)
            &&& after.len() == heights.len()
            &&& apply_edits(after, back, back.len() as int) == heights
            &&& inverse_edits(after, back) == edits
        }),
{
    let n = edits.len() as int;
    let after = apply_edits(heights, edits, n);
    let back = inverse_edits(heights, edits);
    lemma_apply_edits(heights, edits, n);
    assert(cells_below(back, heights.len() as int)) by {
        assert forall|i: int| 0 <= i < back.len() implies (#[trigger] back[i]).0 < heights.len() by {
            assert(edits[i].0 < heights.len());
        }
    }
    assert(distinct_cells(back));
    lemma_apply_edits(after, back, n);
    let again = apply_edits(after, back, n);
    assert forall|i: int| 0 <= i < heights.len() implies again[i] == heights[i] by {
        if exists|k: int| 0 <= k < n && (#[trigger] edits[k]).0 == i {
            let k = choose|k: int| 0 <= k < n && (#[trigger] edits[k]).0 == i;
            assert(back[k].0 == i);
            assert(again[back[k].0 as int] == back[k].1);
        } else {
            assert forall|k: int| 0 <= k < n implies (#[trigger] back[k]).0 != i by {
                assert(edits[k].0 != i);
            }
            assert forall|k: int| 0 <= k < n implies (#[trigger] edits[k]).0 != i by {}
        }
    }
    assert(again =~= heights);
    assert forall|k: int| 0 <= k < n implies inverse_edits(after, back)[k] == edits[k] by {
        assert(after[(#[trigger] edits[k]).0 as int] == edits[k].1);
    }
    assert(inverse_edits(after, back) =~= edits);
}

/// What painting distinct cells does: the palette only grows at its end, every
/// cell keeps a color of the palette, and a cell that no entry names keeps its color.
pub proof fn lemma_paint_colors(
    colors: Seq<usize>,
    palette: Seq<Color8>,
    edits: Seq<(usize, Color8)>,
    n: int,
)
    requires
        0 <= n <= edits.len(),
        cells_below(edits, colors.len() as int),
        forall|i: int| 0 <= i < colors.len() ==> (#[trigger] colors[i]) < palette.len(),
        forall|m: int|
            0 <= m < n ==> (#[trigger] paint_colors(colors, palette, edits, m)).1.len() <= usize::MAX,
    ensures
        ({
            let after = paint_colors(colors, palette, edits, n);
            &&& after.0.len() == colors.len()
            &&& palette.len() <= after.1.len() <= palette.len() + n
            &&& forall|i: int| 0 <= i < palette.len() ==> (#[trigger] after.1[i]) == palette[i]
            &&& forall|i: int| 0 <= i < colors.len() ==> (#[trigger] after.0[i]) < after.1.len()
            &&& forall|i: int|
                0 <= i < colors.len() && (forall|k: int| 0 <= k < n ==> (#[trigger] edits[k]).0 != i)
                    ==> after.0[i] == colors[i]
        }),
    decreases n,
{
    if n > 0 {
        lemma_paint_colors(colors, palette, edits, n - 1);
        let before = paint_colors(colors, palette, edits, n - 1);
        lemma_color_place(before.1, edits[n - 1].1);
        assert(edits[n - 1].0 < colors.len());
    }
}

/// Redoing a height step that was just undone restores the history.
pub proof fn lemma_undo_then_redo(h: History)
    requires
        h.wf(),
        h.undo.len() > 0,
        h.undo.last() is TerrainEdit,
    ensures
        redo_step(undo_step(h)) == h,
        undo_step(h).wf(),
{
    let e = h.undo.last()->TerrainEdit_0;
    assert(h.undo.last().wf(h.heights.len() as int));
    lemma_edits_round_trip(h.heights, e);
    let u = undo_step(h);
    let back = inverse_edits(h.heights, e);
    assert(u.redo.last() == ActionModel::TerrainEdit(back));
    assert(u.redo.drop_last() =~= h.redo);
    let r = redo_step(u);
    assert(r.undo =~= h.undo);
    assert(r.redo =~= h.redo);
    assert forall|k: int| 0 <= k < u.redo.len() implies (#[trigger] u.redo[k]).wf(
        u.heights.len() as int,
    ) by {
        if k < h.redo.len() {
            assert(u.redo[k] == h.redo[k]);
            assert(h.redo[k].wf(h.heights.len() as int));
        }
    }
    assert forall|k: int| 0 <= k < u.undo.len() implies (#[trigger] u.undo[k]).wf(
        u.heights.len() as int,
    ) by {
        assert(u.undo[k] == h.undo[k]);
        assert(h.undo[k].wf(h.heights.len() as int));
    }
}

/// Undoing `n` height steps and then redoing `n` steps restores the heights
/// and both stacks exactly as they were.
pub proof fn lemma_undo_redo_round_trip(h: History, n: nat)
    requires
        h.wf(),
        n <= h.undo.len(),
        forall|k: int| h.undo.len() - n <= k < h.undo.len() ==> (#[trigger] h.undo[k]) is TerrainEdit,
    ensures
        redo_steps(undo_steps(h, n), n) == h,
    decreases n,
{
    if n > 0 {
        let u = undo_step(h);
        lemma_undo_then_redo(h);
        assert forall|k: int| u.undo.len() - (n - 1) <= k < u.undo.len() implies (
        #[trigger] u.undo[k]) is TerrainEdit by {
            assert(u.undo[k] == h.undo[k]);
        }
        lemma_undo_redo_round_trip(u, (n - 1) as nat);
        lemma_redo_steps_shift(undo_steps(u, (n - 1) as nat), (n - 1) as nat);
    }
}

/// `n + 1` steps of redo are one step after `n`, and also `n` after one.
pub proof fn lemma_redo_steps_shift(h: History, n: nat)
    ensures
        redo_steps(h, n + 1) == redo_step(redo_steps(h, n)),
{
}

/// Undoing with nothing to undo changes nothing, and so does redoing with nothing to redo.
pub proof fn lemma_nothing_to_undo(h: History)
    ensures
        h.undo.len() == 0 ==> undo_step(h) == h,
        h.redo.len() == 0 ==> redo_step(h) == h,
{
}

} // verus!
