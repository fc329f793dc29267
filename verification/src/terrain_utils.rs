//! The terrain session: the height and color fields, the chunk mesh lists,
//! brush strokes, and the undo and redo history.

use crate::brush::{
    brush_cells, brushed_height, cells_of_grid, chunk_containing, chunk_of, directional_height,
    get_grid_positions_in_radius, in_disk, in_grid, lemma_chunk_of, mark_seams, on_seam_of,
    smooth_step, smoothed_height,
};
use crate::edit_log::{cells_below, distinct_cells, names_cell, EditLog};
use crate::grid::{grid_at, lemma_grid_index, sample_at};
use crate::history::{
    acted, action_touches, apply_edits, cell_touches, color_place, inverse_action, inverse_colors,
    inverse_edits, lemma_apply_edits, lemma_cell_of_place, lemma_color_place, lemma_paint_colors,
    paint_colors, palette_with, redo_step, undo_step, ActionModel, History,
};
use crate::marching_cubes::chunk_in_grid;
use crate::seam_set::mark_seams_in;
use crate::mesh_cache::{
    build_chunk, chunk_corners, chunk_lists_ok, chunk_points, indices_in_range, merge_chunks,
    terrain_triangles, welded_indices, welded_points,
};
use crate::stroke_model::{
    brush_outcome, cells_total, directional_cell, directional_fold, lemma_cells_total, smooth_cell,
    smooth_fold, touched, wider, BrushSize, Directional, Smoothing, StrokeState,
};
use crate::structs::{Color8, Point3};
use std::collections::HashSet;
use vstd::prelude::*;

verus! {

broadcast use vstd::std_specs::hash::group_hash_axioms;

/// One undoable step: for each cell that a stroke changed, the value it held before.
pub enum Action {
    TerrainEdit(Vec<(usize, i32)>),
    VertexColor(Vec<(usize, Color8)>),
}

impl View for Action {
    type V = ActionModel;

    open spec fn view(&self) -> ActionModel {
        match self {
            Action::TerrainEdit(e) => ActionModel::TerrainEdit(e@),
            Action::VertexColor(e) => ActionModel::VertexColor(e@),
        }
    }
}

/// The state of a terrain session.
pub struct TerrainModel {
    /// Heights of the grid, row by row.
    pub heights: Seq<i32>,
    /// For each cell of the grid the place of its color in the palette.
    pub colors: Seq<usize>,
    /// The colors in use; the first is transparent at the start.
    pub palette: Seq<Color8>,
    pub chunk_size: int,
    pub num_chunks: int,
    /// Steps that can be undone, oldest first.
    pub undo: Seq<ActionModel>,
    /// Steps that can be redone, oldest first.
    pub redo: Seq<ActionModel>,
    /// The height cells that the stroke in progress has changed, with their heights before it.
    pub edited: Seq<(usize, i32)>,
    /// The color cells that the stroke in progress has painted, with their colors before it.
    pub painted: Seq<(usize, Color8)>,
    /// For each chunk, whether it waits to be rebuilt because a neighbour was edited along their border.
    pub seam: Seq<bool>,
    /// Whether a stroke is in progress.
    pub drawing: bool,
    /// The level of detail of each chunk.
    pub lods: Seq<usize>,
    /// The vertex list of each chunk.
    pub chunk_vertices: Seq<Vec<Point3>>,
    /// The index list of each chunk.
    pub chunk_indices: Seq<Vec<usize>>,
    /// The welded vertex list of the terrain.
    pub terrain_vertices: Seq<Point3>,
    /// The welded index list of the terrain.
    pub terrain_indices: Seq<usize>,
    /// The chunks whose lists the last operation rebuilt, in rising order.
    pub remeshed: Seq<usize>,
    pub shade_smooth: bool,
    /// The chunk column and row that the levels of detail were last centred on.
    pub active_chunk: (i32, i32),
}

impl TerrainModel {
    /// Side of the grid.
    pub open spec fn side(self) -> int {
        self.chunk_size * self.num_chunks
    }

    /// Number of cells of the grid.
    pub open spec fn cells(self) -> int {
        self.side() * self.side()
    }

    /// Number of chunks.
    pub open spec fn chunks(self) -> int {
        self.num_chunks * self.num_chunks
    }

    /// The invariant of a session.
    pub open spec fn wf(self) -> bool {
        &&& 1 <= self.chunk_size
        &&& 1 <= self.num_chunks
        &&& self.side() <= i32::MAX
        &&& (self.side() + 2) * (self.side() + 2) <= usize::MAX
        &&& self.heights.len() == self.cells()
        &&& self.colors.len() == self.cells()
        &&& self.palette.len() >= 1
        &&& forall|i: int| 0 <= i < self.colors.len() ==> (#[trigger] self.colors[i]) < self.palette.len()
        &&& self.lods.len() == self.chunks()
        &&& self.seam.len() == self.chunks()
        &&& chunk_lists_ok(self.chunk_vertices, self.chunk_indices, self.num_chunks)
        &&& indices_in_range(self.terrain_indices, self.terrain_vertices.len() as int)
        &&& forall|k: int| 0 <= k < self.undo.len() ==> (#[trigger] self.undo[k]).wf(self.cells())
        &&& forall|k: int| 0 <= k < self.redo.len() ==> (#[trigger] self.redo[k]).wf(self.cells())
        &&& cells_below(self.edited, self.cells())
        &&& distinct_cells(self.edited)
        &&& cells_below(self.painted, self.cells())
        &&& distinct_cells(self.painted)
    }
}

/// What the sizes of a session owe: sides of at least 1 and a grid that fits
/// in `i32` coordinates and in an array.
pub open spec fn sizes_fit(chunk_size: int, num_chunks: int) -> bool {
    &&& 1 <= chunk_size
    &&& 1 <= num_chunks
    &&& chunk_size * num_chunks <= i32::MAX
    &&& (chunk_size * num_chunks + 2) * (chunk_size * num_chunks + 2) <= usize::MAX
}

/// Facts of arithmetic about sizes that fit.
pub proof fn lemma_sizes(chunk_size: int, num_chunks: int)
    requires
        sizes_fit(chunk_size, num_chunks),
    ensures
        1 <= chunk_size <= chunk_size * num_chunks,
        1 <= num_chunks <= chunk_size * num_chunks,
        num_chunks * num_chunks <= (chunk_size * num_chunks) * (chunk_size * num_chunks),
        (chunk_size * num_chunks) * (chunk_size * num_chunks) <= usize::MAX,
        (chunk_size + 2) * (chunk_size + 2) <= usize::MAX,
        forall|c: int|
            0 <= c < num_chunks * num_chunks ==> #[trigger] chunk_in_grid(c, chunk_size, num_chunks),
{
    let side = chunk_size * num_chunks;
    assert(chunk_size <= side && num_chunks <= side) by (nonlinear_arith)
        requires
            side == chunk_size * num_chunks,
            chunk_size >= 1,
            num_chunks >= 1,
    ;
    assert(num_chunks * num_chunks <= side * side) by (nonlinear_arith)
        requires
            1 <= num_chunks <= side,
    ;
    assert(side * side <= (side + 2) * (side + 2)) by (nonlinear_arith)
        requires
            side >= 1,
    ;
    assert((chunk_size + 2) * (chunk_size + 2) <= (side + 2) * (side + 2)) by (nonlinear_arith)
        requires
            1 <= chunk_size <= side,
    ;
}

/// A terrain session.
pub struct TerrainUtils {
    heights: Vec<i32>,
    map_size: usize,
    num_chunks: usize,
    chunk_size: usize,
    undo_stack: Vec<Action>,
    redo_stack: Vec<Action>,
    vertex_colors: Vec<usize>,
    color_list: Vec<Color8>,
    chunk_vertices: Vec<Vec<Point3>>,
    chunk_indices: Vec<Vec<usize>>,
    terrain_vertices: Vec<Point3>,
    terrain_indices: Vec<usize>,
    shade_smooth: bool,
    edited_positions: EditLog<i32>,
    edited_colors: EditLog<Color8>,
    chunks_at_seam: HashSet<usize>,
    remeshed: Vec<usize>,
    is_drawing: bool,
    chunk_lod: Vec<usize>,
    active_chunk_position: (i32, i32),
}

impl View for TerrainUtils {
    type V = TerrainModel;

    closed spec fn view(&self) -> TerrainModel {
        TerrainModel {
            heights: self.heights@,
            colors: self.vertex_colors@,
            palette: self.color_list@,
            chunk_size: self.chunk_size as int,
            num_chunks: self.num_chunks as int,
            undo: self.undo_stack@.map_values(|a: Action| a@),
            redo: self.redo_stack@.map_values(|a: Action| a@),
            edited: self.edited_positions.entries(),
            painted: self.edited_colors.entries(),
            seam: Seq::new(
                (self.num_chunks * self.num_chunks) as nat,
                |c: int| self.chunks_at_seam@.contains(c as usize),
            ),
            drawing: self.is_drawing,
            lods: self.chunk_lod@,
            chunk_vertices: self.chunk_vertices@,
            chunk_indices: self.chunk_indices@,
            terrain_vertices: self.terrain_vertices@,
            terrain_indices: self.terrain_indices@,
            remeshed: self.remeshed@,
            shade_smooth: self.shade_smooth,
            active_chunk: self.active_chunk_position,
        }
    }
}

/// A list of `n` zero heights.
fn zero_heights(n: usize) -> (v: Vec<i32>)
    ensures
        v@ == Seq::new(n as nat, |i: int| 0i32),
{
    let mut v: Vec<i32> = Vec::new();
    let mut i: usize = 0;
    while i < n
        invariant
            i <= n,
            v@ == Seq::new(i as nat, |k: int| 0i32),
        decreases n - i,
    {
        v.push(0);
        assert(v@ =~= Seq::new((i + 1) as nat, |k: int| 0i32));
        i += 1;
    }
    v
}

/// A list of `n` zero indices.
fn zero_indices(n: usize) -> (v: Vec<usize>)
    ensures
        v@ == Seq::new(n as nat, |i: int| 0usize),
{
    let mut v: Vec<usize> = Vec::new();
    let mut i: usize = 0;
    while i < n
        invariant
            i <= n,
            v@ == Seq::new(i as nat, |k: int| 0usize),
        decreases n - i,
    {
        v.push(0);
        assert(v@ =~= Seq::new((i + 1) as nat, |k: int| 0usize));
        i += 1;
    }
    v
}

/// A list of `n` flags, none set.
fn no_flags(n: usize) -> (v: Vec<bool>)
    ensures
        v@ == Seq::new(n as nat, |i: int| false),
{
    let mut v: Vec<bool> = Vec::new();
    let mut i: usize = 0;
    while i < n
        invariant
            i <= n,
            v@ == Seq::new(i as nat, |k: int| false),
        decreases n - i,
    {
        v.push(false);
        assert(v@ =~= Seq::new((i + 1) as nat, |k: int| false));
        i += 1;
    }
    v
}

/// `n` empty vertex lists and `n` empty index lists.
fn empty_lists(n: usize) -> (r: (Vec<Vec<Point3>>, Vec<Vec<usize>>))
    ensures
        r.0@.len() == n,
        r.1@.len() == n,
        forall|c: int| 0 <= c < n ==> (#[trigger] r.0@[c])@.len() == 0,
        forall|c: int| 0 <= c < n ==> (#[trigger] r.1@[c])@.len() == 0,
{
    let mut vertices: Vec<Vec<Point3>> = Vec::new();
    let mut indices: Vec<Vec<usize>> = Vec::new();
    let mut i: usize = 0;
    while i < n
        invariant
            i <= n,
            vertices@.len() == i,
            indices@.len() == i,
            forall|c: int| 0 <= c < i ==> (#[trigger] vertices@[c])@.len() == 0,
            forall|c: int| 0 <= c < i ==> (#[trigger] indices@[c])@.len() == 0,
        decreases n - i,
    {
        vertices.push(Vec::new());
        indices.push(Vec::new());
        i += 1;
    }
    (vertices, indices)
}

/// The transparent color that every palette begins with.
pub open spec fn transparent() -> Color8 {
    Color8 { r: 0, g: 0, b: 0, a: 0 }
}

/// The session that `init_params` sets up from sizes that fit: the heights
/// given where both lists have the length of the grid, else zero everywhere;
/// the color indices given where, besides, each names a color of the
/// palette, else zero everywhere; as palette a transparent color, then the
/// colors given but for the first.
pub open spec fn initial_model(
    chunk_size: int,
    num_chunks: int,
    heights: Seq<i32>,
    color_list: Seq<Color8>,
    vertex_colors: Seq<i32>,
    shade_smooth: bool,
    active_chunk: (i32, i32),
) -> TerrainModel {
    let cells = (chunk_size * num_chunks) * (chunk_size * num_chunks);
    let palette = seq![transparent()] + (if color_list.len() > 0 {
        color_list.subrange(1, color_list.len() as int)
    } else {
        Seq::empty()
    });
    let fits = heights.len() == cells && vertex_colors.len() == cells;
    let given = fits && forall|i: int|
        0 <= i < vertex_colors.len() ==> 0 <= (#[trigger] vertex_colors[i]) < palette.len();
    TerrainModel {
        heights: if fits {
            heights
        } else {
            Seq::new(cells as nat, |i: int| 0i32)
        },
        colors: if given {
            Seq::new(cells as nat, |i: int| vertex_colors[i] as usize)
        } else {
            Seq::new(cells as nat, |i: int| 0usize)
        },
        palette,
        chunk_size,
        num_chunks,
        undo: Seq::empty(),
        redo: Seq::empty(),
        edited: Seq::empty(),
        painted: Seq::empty(),
        seam: Seq::new((num_chunks * num_chunks) as nat, |i: int| false),
        drawing: false,
        lods: Seq::new((num_chunks * num_chunks) as nat, |i: int| 0usize),
        chunk_vertices: arbitrary(),
        chunk_indices: arbitrary(),
        terrain_vertices: Seq::empty(),
        terrain_indices: Seq::empty(),
        remeshed: Seq::empty(),
        shade_smooth,
        active_chunk,
    }
}

impl TerrainUtils {
    /// The invariant of a session.
    pub closed spec fn wf(&self) -> bool {
        &&& self@.wf()
        &&& self.map_size == self.chunk_size * self.num_chunks
        &&& self.edited_positions.wf()
        &&& self.edited_positions.cells() == self@.cells()
        &&& self.edited_colors.wf()
        &&& self.edited_colors.cells() == self@.cells()
    }

    /// What the invariant says of the state.
    pub proof fn lemma_wf(&self)
        requires
            self.wf(),
        ensures
            self@.wf(),
    {
    }

    /// A session over a grid of one cell of height 0.
    pub fn new() -> (t: Self)
        ensures
            t.wf(),
            t@.chunk_size == 1,
            t@.num_chunks == 1,
            t@.heights == seq![0i32],
            t@.colors == seq![0usize],
            t@.palette == seq![transparent()],
            t@.undo.len() == 0,
            t@.redo.len() == 0,
            t@.edited.len() == 0,
            t@.painted.len() == 0,
            !t@.drawing,
            t@.lods == seq![0usize],
            t@.seam == seq![false],
            t@.shade_smooth,
            t@.active_chunk == (0i32, 0i32),
            t@.terrain_vertices.len() == 0,
            t@.terrain_indices.len() == 0,
            t@.remeshed.len() == 0,
            t@.chunk_vertices.len() == 1,
            t@.chunk_indices.len() == 1,
            t@.chunk_vertices[0]@.len() == 0,
            t@.chunk_indices[0]@.len() == 0,
    {
        let lists = empty_lists(1);
        let t = TerrainUtils {
            heights: zero_heights(1),
            map_size: 1,
            num_chunks: 1,
            chunk_size: 1,
            undo_stack: Vec::new(),
            redo_stack: Vec::new(),
            vertex_colors: zero_indices(1),
            color_list: vec![Color8::new(0, 0, 0, 0)],
            chunk_vertices: lists.0,
            chunk_indices: lists.1,
            terrain_vertices: Vec::new(),
            terrain_indices: Vec::new(),
            shade_smooth: true,
            edited_positions: EditLog::new(1),
            edited_colors: EditLog::new(1),
            chunks_at_seam: HashSet::new(),
            remeshed: Vec::new(),
            is_drawing: false,
            chunk_lod: zero_indices(1),
            active_chunk_position: (0, 0),
        };
        proof {
            assert(t@.heights =~= seq![0i32]);
            assert(t@.colors =~= seq![0usize]);
            assert(t@.lods =~= seq![0usize]);
            assert(t.num_chunks * t.num_chunks == 1) by (nonlinear_arith)
                requires
                    t.num_chunks == 1,
            ;
            assert(t@.seam =~= seq![false]);
            assert(t@.palette =~= seq![transparent()]);
            assert(t@.undo =~= Seq::empty());
            assert(t@.redo =~= Seq::empty());
        }
        t
    }

    pub fn get_num_chunks(&self) -> (n: i64)
        requires
            self.wf(),
        ensures
            n == self@.num_chunks,
    {
        proof {
            lemma_sizes(self@.chunk_size, self@.num_chunks);
        }
        self.num_chunks as i64
    }

    pub fn get_chunk_size(&self) -> (n: i64)
        requires
            self.wf(),
        ensures
            n == self@.chunk_size,
    {
        proof {
            lemma_sizes(self@.chunk_size, self@.num_chunks);
        }
        self.chunk_size as i64
    }

    /// Whether `(global_x, global_z)` is a cell of the grid.
    pub fn in_bounds(&self, global_x: i32, global_z: i32) -> (r: bool)
        requires
            self.wf(),
        ensures
            r == in_grid(self@.side(), global_x as int, global_z as int),
    {
        global_x > -1 && global_z > -1 && (global_x as i64) < self.map_size as i64 && (
        global_z as i64) < self.map_size as i64
    }

    /// The height of the cell `(global_x, global_z)` of the grid.
    pub fn height(&self, global_x: i32, global_z: i32) -> (h: i32)
        requires
            self.wf(),
            in_grid(self@.side(), global_x as int, global_z as int),
        ensures
            h == grid_at(self@.heights, self@.side(), global_x as int, global_z as int),
    {
        proof {
            lemma_grid_index(self.map_size as int, global_x as int, global_z as int);
            assert(self.heights@.len() == self.heights.len());
        }
        self.heights[global_z as usize * self.map_size + global_x as usize]
    }

    /// The height of the cell with place `index` in the grid.
    pub fn height_by_index(&self, index: usize) -> (h: i32)
        requires
            self.wf(),
            index < self@.cells(),
        ensures
            h == self@.heights[index as int],
    {
        self.heights[index]
    }

    /// The height of the cell nearest to `(global_x, global_z)` in the grid.
    pub fn get_height(&self, global_x: i32, global_z: i32) -> (h: i32)
        requires
            self.wf(),
        ensures
            h == sample_at(
                self@.heights,
                self@.side(),
                if global_x < 0 {
                    0
                } else {
                    global_x as int
                },
                if global_z < 0 {
                    0
                } else {
                    global_z as int
                },
            ),
    {
        proof {
            lemma_sizes(self@.chunk_size, self@.num_chunks);
        }
        let last: i32 = (self.map_size - 1) as i32;
        let x: i32 = if global_x < 0 {
            0
        } else if global_x > last {
            last
        } else {
            global_x
        };
        let z: i32 = if global_z < 0 {
            0
        } else if global_z > last {
            last
        } else {
            global_z
        };
        self.height(x, z)
    }

    /// Sets the height of the cell `(global_x, global_z)` of the grid.
    pub fn set_height_at(&mut self, global_x: i32, global_z: i32, height: i32)
        requires
            old(self).wf(),
            in_grid(old(self)@.side(), global_x as int, global_z as int),
        ensures
            final(self).wf(),
            final(self)@ == (TerrainModel {
                heights: old(self)@.heights.update(
                    global_z * old(self)@.side() + global_x,
                    height,
                ),
                ..old(self)@
            }),
    {
        proof {
            lemma_grid_index(self.map_size as int, global_x as int, global_z as int);
            assert(self.heights@.len() == self.heights.len());
        }
        let index: usize = global_z as usize * self.map_size + global_x as usize;
        self.heights[index] = height;
    }

    /// Sets the height of the cell with place `index` in the grid.
    pub fn set_height_by_index(&mut self, index: usize, height: i32)
        requires
            old(self).wf(),
            index < old(self)@.cells(),
        ensures
            final(self).wf(),
            final(self)@ == (TerrainModel {
                heights: old(self)@.heights.update(index as int, height),
                ..old(self)@
            }),
    {
        self.heights[index] = height;
    }

    /// The heights of the grid, row by row.
    pub fn get_heights(&self) -> (v: Vec<i32>)
        ensures
            v@ == self@.heights,
    {
        self.heights.clone()
    }

    /// For each cell the place of its color in the palette.
    pub fn get_vertex_colors(&self) -> (v: Vec<usize>)
        ensures
            v@ == self@.colors,
    {
        self.vertex_colors.clone()
    }

    /// The palette.
    pub fn get_color_list(&self) -> (v: Vec<Color8>)
        ensures
            v@ == self@.palette,
    {
        let mut v: Vec<Color8> = Vec::new();
        let mut i: usize = 0;
        while i < self.color_list.len()
            invariant
                i <= self.color_list@.len(),
                v@ == self.color_list@.subrange(0, i as int),
            decreases self.color_list@.len() - i,
        {
            v.push(self.color_list[i]);
            assert(v@ =~= self.color_list@.subrange(0, i + 1));
            i += 1;
        }
        assert(self.color_list@.subrange(0, i as int) =~= self.color_list@);
        v
    }

    /// Sets every height to 0.
    pub fn clear_heights(&mut self)
        requires
            old(self).wf(),
        ensures
            final(self).wf(),
            final(self)@ == (TerrainModel {
                heights: Seq::new(old(self)@.cells() as nat, |i: int| 0i32),
                ..old(self)@
            }),
    {
        proof {
            lemma_sizes(self@.chunk_size, self@.num_chunks);
        }
        self.heights = zero_heights(self.map_size * self.map_size);
    }

    /// Paints every cell transparent and forgets every other color.
    pub fn clear_vertex_colors(&mut self)
        requires
            old(self).wf(),
        ensures
            final(self).wf(),
            final(self)@ == (TerrainModel {
                colors: Seq::new(old(self)@.cells() as nat, |i: int| 0usize),
                palette: seq![transparent()],
                ..old(self)@
            }),
    {
        proof {
            lemma_sizes(self@.chunk_size, self@.num_chunks);
        }
        self.vertex_colors = zero_indices(self.map_size * self.map_size);
        self.color_list = vec![Color8::new(0, 0, 0, 0)];
        assert(self.color_list@ =~= seq![transparent()]);
    }

    pub fn set_shade_smooth(&mut self, value: bool)
        ensures
            final(self)@ == (TerrainModel { shade_smooth: value, ..old(self)@ }),
            old(self).wf() ==> final(self).wf(),
    {
        self.shade_smooth = value;
    }

    pub fn get_shade_smooth(&self) -> (r: bool)
        ensures
            r == self@.shade_smooth,
    {
        self.shade_smooth
    }

    /// Whether a stroke is in progress.
    pub fn is_drawing(&self) -> (r: bool)
        ensures
            r == self@.drawing,
    {
        self.is_drawing
    }

    /// Whether a step can be undone.
    pub fn can_undo(&self) -> (r: bool)
        ensures
            r == (self@.undo.len() > 0),
    {
        self.undo_stack.len() > 0
    }

    /// Whether a step can be redone.
    pub fn can_redo(&self) -> (r: bool)
        ensures
            r == (self@.redo.len() > 0),
    {
        self.redo_stack.len() > 0
    }

    /// The chunks whose lists the last operation rebuilt, in rising order:
    /// those whose meshes are to be drawn anew.
    pub fn remeshed_chunks(&self) -> (v: Vec<usize>)
        ensures
            v@ == self@.remeshed,
    {
        self.remeshed.clone()
    }

    /// The vertex list of chunk `chunk_id`.
    pub fn chunk_vertex_list(&self, chunk_id: usize) -> (v: Vec<Point3>)
        requires
            self.wf(),
            chunk_id < self@.chunks(),
        ensures
            v@ == self@.chunk_vertices[chunk_id as int]@,
    {
        let list = &self.chunk_vertices[chunk_id];
        let mut v: Vec<Point3> = Vec::new();
        let mut i: usize = 0;
        while i < list.len()
            invariant
                i <= list@.len(),
                v@ == list@.subrange(0, i as int),
            decreases list@.len() - i,
        {
            v.push(list[i]);
            assert(v@ =~= list@.subrange(0, i + 1));
            i += 1;
        }
        assert(list@.subrange(0, i as int) =~= list@);
        v
    }

    /// The index list of chunk `chunk_id`.
    pub fn chunk_index_list(&self, chunk_id: usize) -> (v: Vec<usize>)
        requires
            self.wf(),
            chunk_id < self@.chunks(),
        ensures
            v@ == self@.chunk_indices[chunk_id as int]@,
    {
        self.chunk_indices[chunk_id].clone()
    }

    /// Number of vertices of all chunk lists together, held within `i32`.
    pub fn get_vertex_count(&self) -> (n: i32)
        requires
            self.wf(),
        ensures
            n == clamp_count(total_vertices(self@.chunk_vertices, self@.chunk_vertices.len() as int)),
    {
        let mut count: u64 = 0;
        let mut c: usize = 0;
        while c < self.chunk_vertices.len()
            invariant
                c <= self.chunk_vertices@.len(),
                count == clamp_u64(total_vertices(self.chunk_vertices@, c as int)),
                0 <= total_vertices(self.chunk_vertices@, c as int),
            decreases self.chunk_vertices@.len() - c,
        {
            let len: u64 = self.chunk_vertices[c].len() as u64;
            count = if len > u64::MAX - count {
                u64::MAX
            } else {
                count + len
            };
            c += 1;
        }
        if count > i32::MAX as u64 {
            i32::MAX
        } else {
            count as i32
        }
    }
}

/// The column or row nearest to `v` in a grid of side `side`.
pub open spec fn clamp_cell(v: int, side: int) -> int {
    if v < 0 {
        0
    } else if v > side - 1 {
        side - 1
    } else {
        v
    }
}

/// The levels of detail when the chunk `(col, row)` is the active one: for
/// each chunk the whole part of its distance from there, counted in chunks.
pub open spec fn lods_around(num_chunks: int, col: int, row: int) -> Seq<usize> {
    Seq::new(
        (num_chunks * num_chunks) as nat,
        |i: int| whole_root(square_distance(col, row, i % num_chunks, i / num_chunks)) as usize,
    )
}

/// The square of the distance between the chunks `(col, row)` and `(c, r)`.
pub open spec fn square_distance(col: int, row: int, c: int, r: int) -> int {
    (col - c) * (col - c) + (row - r) * (row - r)
}

/// Whether `r` is the whole part of the square root of `n`.
pub open spec fn is_whole_root(n: int, r: int) -> bool {
    0 <= r && r * r <= n < (r + 1) * (r + 1)
}

/// The whole part of the square root of `n`.
pub open spec fn whole_root(n: int) -> int {
    choose|r: int| is_whole_root(n, r)
}

/// A number between whose square and the square of its successor `n` lies is the whole root of `n`.
pub proof fn lemma_whole_root(n: int, r: int)
    requires
        0 <= r,
        r * r <= n < (r + 1) * (r + 1),
    ensures
        whole_root(n) == r,
{
    let w = whole_root(n);
    assert(is_whole_root(n, r));
    assert(is_whole_root(n, w));
    if w < r {
        assert((w + 1) * (w + 1) <= r * r) by (nonlinear_arith)
            requires
                0 <= w + 1 <= r,
        ;
    }
    if w > r {
        assert((r + 1) * (r + 1) <= w * w) by (nonlinear_arith)
            requires
                0 <= r + 1 <= w,
        ;
    }
}

/// The whole part of the square root of `n`.
fn root_of(n: u128) -> (r: u128)
    requires
        n < 0x100_0000_0000_0000_0000,
    ensures
        r == whole_root(n as int),
        r < 0x10_0000_0000,
{
    let mut low: u128 = 0;
    let mut high: u128 = 0x10_0000_0000;
    assert(0x10_0000_0000 * 0x10_0000_0000 == 0x100_0000_0000_0000_0000) by (nonlinear_arith);
    while high - low > 1
        invariant
            low < high <= 0x10_0000_0000,
            low * low <= n,
            n < high * high,
        decreases high - low,
    {
        let mid: u128 = low + (high - low) / 2;
        proof {
            assert(mid * mid <= 0x10_0000_0000 * 0x10_0000_0000) by (nonlinear_arith)
                requires
                    0 <= mid <= 0x10_0000_0000,
            ;
        }
        if mid * mid <= n {
            low = mid;
        } else {
            high = mid;
        }
    }
    proof {
        lemma_whole_root(n as int, low as int);
    }
    low
}

/// The model after the lists of the chunks flagged in `flags` are built anew
/// from the heights.
pub open spec fn rebuilt(m: TerrainModel, after: TerrainModel, flags: Seq<bool>) -> bool {
    &&& after.chunk_vertices.len() == m.chunk_vertices.len()
    &&& after.chunk_indices.len() == m.chunk_indices.len()
    &&& forall|c: int|
        0 <= c < m.chunks() ==> if flags[c] {
            &&& (#[trigger] after.chunk_vertices[c])@ == chunk_points(
                m.heights,
                c,
                m.chunk_size,
                m.num_chunks,
                m.lods,
            )
            &&& after.chunk_indices[c]@ == chunk_corners(
                m.heights,
                c,
                m.chunk_size,
                m.num_chunks,
                m.lods,
            )
        } else {
            &&& after.chunk_vertices[c] == m.chunk_vertices[c]
            &&& after.chunk_indices[c] == m.chunk_indices[c]
        }
    &&& after.remeshed.len() <= flags.len()
    &&& forall|c: int| 0 <= c < flags.len() ==> (flags[c] <==> after.remeshed.contains(c as usize))
    &&& forall|i: int, j: int|
        0 <= i < j < after.remeshed.len() ==> after.remeshed[i] < after.remeshed[j]
}

impl TerrainUtils {
    /// Sets the session up anew; see `initial_model`.  Sizes below 1 count as
    /// 1.  The chunk lists are left empty.
    pub fn init_params(
        &mut self,
        num_chunks: i64,
        chunk_size: i64,
        heights: &Vec<i32>,
        color_list: &Vec<Color8>,
        vertex_colors: &Vec<i32>,
    )
        requires
            sizes_fit(
                if chunk_size < 1 {
                    1
                } else {
                    chunk_size as int
                },
                if num_chunks < 1 {
                    1
                } else {
                    num_chunks as int
                },
            ),
        ensures
            final(self).wf(),
            ({
                let m = initial_model(
                    if chunk_size < 1 {
                        1
                    } else {
                        chunk_size as int
                    },
                    if num_chunks < 1 {
                        1
                    } else {
                        num_chunks as int
                    },
                    heights@,
                    color_list@,
                    vertex_colors@,
                    old(self)@.shade_smooth,
                    old(self)@.active_chunk,
                );
                &&& final(self)@ == (TerrainModel {
                    chunk_vertices: final(self)@.chunk_vertices,
                    chunk_indices: final(self)@.chunk_indices,
                    ..m
                })
                &&& forall|c: int|
                    0 <= c < m.chunks() ==> (#[trigger] final(self)@.chunk_vertices[c])@.len() == 0
                        && final(self)@.chunk_indices[c]@.len() == 0
            }),
    {
        let wide_nc: i64 = if num_chunks < 1 {
            1
        } else {
            num_chunks
        };
        let wide_cs: i64 = if chunk_size < 1 {
            1
        } else {
            chunk_size
        };
        proof {
            lemma_sizes(wide_cs as int, wide_nc as int);
        }
        let nc: usize = wide_nc as usize;
        let cs: usize = wide_cs as usize;
        assert(nc * cs == cs * nc) by (nonlinear_arith);
        let side: usize = nc * cs;
        let total: usize = side * side;
        let mut palette: Vec<Color8> = vec![Color8::new(0, 0, 0, 0)];
        assert(palette@ =~= seq![transparent()]);
        let mut i: usize = 1;
        while i < color_list.len()
            invariant
                1 <= i,
                i <= color_list@.len() || color_list@.len() == 0,
                palette@ == seq![transparent()] + (if color_list@.len() > 0 {
                    color_list@.subrange(1, i as int)
                } else {
                    Seq::empty()
                }),
            decreases color_list@.len() - i,
        {
            palette.push(color_list[i]);
            assert(palette@ =~= seq![transparent()] + color_list@.subrange(1, i + 1));
            i += 1;
        }
        let ghost wanted = seq![transparent()] + (if color_list@.len() > 0 {
            color_list@.subrange(1, color_list@.len() as int)
        } else {
            Seq::empty()
        });
        assert(palette@ =~= wanted);
        let fits: bool = heights.len() == total && vertex_colors.len() == total;
        let mut given: bool = fits;
        let mut colors: Vec<usize> = Vec::new();
        if given {
            let mut k: usize = 0;
            while k < total && given
                invariant
                    k <= total,
                    vertex_colors@.len() == total,
                    given ==> colors@.len() == k,
                    given ==> forall|j: int|
                        0 <= j < k ==> 0 <= (#[trigger] vertex_colors@[j]) < palette@.len()
                            && colors@[j] == vertex_colors@[j] as usize,
                    !given ==> exists|j: int|
                        0 <= j < total && !(0 <= (#[trigger] vertex_colors@[j]) < palette@.len()),
                decreases total - k + (if given { 1int } else { 0int }),
            {
                let c: i32 = vertex_colors[k];
                if c >= 0 && (c as usize) < palette.len() {
                    colors.push(c as usize);
                    k += 1;
                } else {
                    given = false;
                }
            }
        }
        let new_heights: Vec<i32> = if fits {
            heights.clone()
        } else {
            zero_heights(total)
        };
        if !given {
            colors = zero_indices(total);
        }
        proof {
            if given {
                assert(colors@ =~= Seq::new(total as nat, |i: int| vertex_colors@[i] as usize));
            }
        }
        let lists = empty_lists(nc * nc);
        self.num_chunks = nc;
        self.chunk_size = cs;
        self.map_size = side;
        self.heights = new_heights;
        self.vertex_colors = colors;
        self.color_list = palette;
        self.chunk_vertices = lists.0;
        self.chunk_indices = lists.1;
        self.chunk_lod = zero_indices(nc * nc);
        self.chunks_at_seam = HashSet::new();
        self.undo_stack = Vec::new();
        self.redo_stack = Vec::new();
        self.edited_positions = EditLog::new(total);
        self.edited_colors = EditLog::new(total);
        self.terrain_vertices = Vec::new();
        self.terrain_indices = Vec::new();
        self.remeshed = Vec::new();
        self.is_drawing = false;
        proof {
            assert(self@.undo =~= Seq::empty());
            assert(self@.redo =~= Seq::empty());
            assert(self@.seam =~= Seq::new((nc * nc) as nat, |i: int| false));
        }
    }

    /// The place of `color` in the palette; the length of the palette where it holds none.
    pub fn get_color_index(&self, color: Color8) -> (i: usize)
        ensures
            i == color_place(self@.palette, color),
    {
        let mut i: usize = 0;
        proof {
            lemma_color_place(self.color_list@, color);
        }
        while i < self.color_list.len()
            invariant
                i <= self.color_list@.len(),
                forall|j: int| 0 <= j < i ==> self.color_list@[j] != color,
                0 <= color_place(self.color_list@, color) <= self.color_list@.len(),
                color_place(self.color_list@, color) < self.color_list@.len()
                    ==> self.color_list@[color_place(self.color_list@, color)] == color,
                forall|j: int|
                    0 <= j < color_place(self.color_list@, color) ==> self.color_list@[j] != color,
            decreases self.color_list@.len() - i,
        {
            if color == self.color_list[i] {
                return i;
            }
            i += 1;
        }
        i
    }

    /// Paints the cell nearest to `(x, z)` with `color`, which joins the
    /// palette if it is new.
    pub fn set_vertex_color(&mut self, x: i32, z: i32, color: Color8)
        requires
            old(self).wf(),
        ensures
            final(self).wf(),
            final(self)@ == (TerrainModel {
                palette: palette_with(old(self)@.palette, color),
                colors: old(self)@.colors.update(
                    clamp_cell(z as int, old(self)@.side()) * old(self)@.side() + clamp_cell(
                        x as int,
                        old(self)@.side(),
                    ),
                    color_place(old(self)@.palette, color) as usize,
                ),
                ..old(self)@
            }),
    {
        proof {
            lemma_sizes(self@.chunk_size, self@.num_chunks);
            lemma_color_place(self.color_list@, color);
        }
        let last: i32 = (self.map_size - 1) as i32;
        let cx: usize = if x < 0 {
            0
        } else if x > last {
            last as usize
        } else {
            x as usize
        };
        let cz: usize = if z < 0 {
            0
        } else if z > last {
            last as usize
        } else {
            z as usize
        };
        let place: usize = self.get_color_index(color);
        if place == self.color_list.len() {
            self.color_list.push(color);
        }
        proof {
            lemma_grid_index(self.map_size as int, cx as int, cz as int);
            assert(self.vertex_colors@.len() == self.vertex_colors.len());
        }
        self.vertex_colors[cz * self.map_size + cx] = place;
    }

    /// The color of the cell nearest to `(x, z)`.
    pub fn get_vertex_color(&self, x: i32, z: i32) -> (c: Color8)
        requires
            self.wf(),
        ensures
            c == self@.palette[self@.colors[clamp_cell(z as int, self@.side()) * self@.side()
                + clamp_cell(x as int, self@.side())] as int],
    {
        proof {
            lemma_sizes(self@.chunk_size, self@.num_chunks);
        }
        let last: i32 = (self.map_size - 1) as i32;
        let cx: usize = if x < 0 {
            0
        } else if x > last {
            last as usize
        } else {
            x as usize
        };
        let cz: usize = if z < 0 {
            0
        } else if z > last {
            last as usize
        } else {
            z as usize
        };
        proof {
            lemma_grid_index(self.map_size as int, cx as int, cz as int);
            assert(self.vertex_colors@.len() == self.vertex_colors.len());
        }
        let place: usize = self.vertex_colors[cz * self.map_size + cx];
        assert(place == self@.colors[cz * self.map_size + cx]);
        self.color_list[place]
    }

    /// The color of the cell nearest to `(global_x, global_z)`.
    pub fn get_color(&self, global_x: i32, global_z: i32) -> (c: Color8)
        requires
            self.wf(),
        ensures
            c == self@.palette[self@.colors[clamp_cell(global_z as int, self@.side()) * self@.side()
                + clamp_cell(global_x as int, self@.side())] as int],
    {
        self.get_vertex_color(global_x, global_z)
    }

    /// Twice the height of the collision surface, plus one, over the grid
    /// points of the terrain: `side + 1` rows of `side + 1` values, the last
    /// row and column repeating the one before.
    pub fn get_heights_for_collision(&self) -> (v: Vec<i64>)
        requires
            self.wf(),
        ensures
            v@.len() == (self@.side() + 1) * (self@.side() + 1),
            forall|x: int, z: int|
                0 <= x <= self@.side() && 0 <= z <= self@.side() ==> (#[trigger] grid_at_wide(
                    v@,
                    self@.side() + 1,
                    x,
                    z,
                )) == 2 * sample_at(self@.heights, self@.side(), x, z) + 1,
    {
        proof {
            lemma_sizes(self@.chunk_size, self@.num_chunks);
        }
        let n: usize = self.map_size + 1;
        let mut v: Vec<i64> = Vec::new();
        let mut z: usize = 0;
        while z < n
            invariant
                z <= n,
                n == self.map_size + 1,
                self.wf(),
                1 <= self.map_size == self@.side(),
                self.heights@.len() == self.map_size * self.map_size,
                v@.len() == z * n,
                forall|a: int, b: int|
                    0 <= a < n && 0 <= b < z ==> (#[trigger] grid_at_wide(v@, n as int, a, b)) == 2
                        * sample_at(self@.heights, self@.side(), a, b) + 1,
            decreases n - z,
        {
            let mut x: usize = 0;
            while x < n
                invariant
                    x <= n,
                    z < n,
                    n == self.map_size + 1,
                    self.wf(),
                    1 <= self.map_size == self@.side(),
                    self.heights@.len() == self.map_size * self.map_size,
                    v@.len() == z * n + x,
                    forall|a: int, b: int|
                        0 <= a < n && 0 <= b < z ==> (#[trigger] grid_at_wide(v@, n as int, a, b))
                            == 2 * sample_at(self@.heights, self@.side(), a, b) + 1,
                    forall|a: int|
                        0 <= a < x ==> (#[trigger] grid_at_wide(v@, n as int, a, z as int)) == 2
                            * sample_at(self@.heights, self@.side(), a, z as int) + 1,
                decreases n - x,
            {
                let ghost before = v@;
                let h: i32 = crate::grid::sample(&self.heights, self.map_size, x, z);
                v.push(2 * (h as i64) + 1);
                proof {
                    assert forall|a: int, b: int| 0 <= a < n && 0 <= b < z implies (
                    #[trigger] grid_at_wide(v@, n as int, a, b)) == 2 * sample_at(
                        self@.heights,
                        self@.side(),
                        a,
                        b,
                    ) + 1 by {
                        lemma_grid_index(n as int, a, b);
                        assert(b * n + a < z * n) by (nonlinear_arith)
                            requires
                                0 <= a < n,
                                0 <= b < z,
                        ;
                        assert(grid_at_wide(before, n as int, a, b) == grid_at_wide(v@, n as int, a, b));
                    }
                    assert forall|a: int| 0 <= a < x + 1 implies (#[trigger] grid_at_wide(
                        v@,
                        n as int,
                        a,
                        z as int,
                    )) == 2 * sample_at(self@.heights, self@.side(), a, z as int) + 1 by {
                        if a < x {
                            assert(grid_at_wide(before, n as int, a, z as int) == grid_at_wide(
                                v@,
                                n as int,
                                a,
                                z as int,
                            ));
                        }
                    }
                }
                x += 1;
            }
            proof {
                assert((z + 1) * n == z * n + n) by (nonlinear_arith);
            }
            z += 1;
        }
        v
    }

    /// Builds the lists of chunk `chunk_id` anew from the heights.
    pub fn update_chunk(&mut self, chunk_id: usize)
        requires
            old(self).wf(),
            chunk_id < old(self)@.chunks(),
        ensures
            final(self).wf(),
            final(self)@ == (TerrainModel {
                chunk_vertices: final(self)@.chunk_vertices,
                chunk_indices: final(self)@.chunk_indices,
                ..old(self)@
            }),
            final(self)@.chunk_vertices.len() == old(self)@.chunk_vertices.len(),
            final(self)@.chunk_indices.len() == old(self)@.chunk_indices.len(),
            forall|c: int|
                0 <= c < old(self)@.chunks() && c != chunk_id ==> (
                #[trigger] final(self)@.chunk_vertices[c]) == old(self)@.chunk_vertices[c]
                    && final(self)@.chunk_indices[c] == old(self)@.chunk_indices[c],
            final(self)@.chunk_vertices[chunk_id as int]@ == chunk_points(
                old(self)@.heights,
                chunk_id as int,
                old(self)@.chunk_size,
                old(self)@.num_chunks,
                old(self)@.lods,
            ),
            final(self)@.chunk_indices[chunk_id as int]@ == chunk_corners(
                old(self)@.heights,
                chunk_id as int,
                old(self)@.chunk_size,
                old(self)@.num_chunks,
                old(self)@.lods,
            ),
    {
        proof {
            lemma_sizes(self@.chunk_size, self@.num_chunks);
            assert(chunk_in_grid(chunk_id as int, self@.chunk_size, self@.num_chunks));
        }
        let built = build_chunk(
            &self.heights,
            chunk_id,
            self.chunk_size,
            self.num_chunks,
            &self.chunk_lod,
        );
        self.chunk_vertices[chunk_id] = built.0;
        self.chunk_indices[chunk_id] = built.1;
    }
}

/// The numbers `0` to `n - 1`.
pub open spec fn all_chunks(n: int) -> Seq<usize> {
    Seq::new(n as nat, |i: int| i as usize)
}

impl TerrainUtils {
    /// Builds the lists of the chunks flagged in `flags` anew from the
    /// heights, and lists those chunks as rebuilt.
    pub fn remesh_flagged(&mut self, flags: &Vec<bool>)
        requires
            old(self).wf(),
            flags@.len() == old(self)@.chunks(),
        ensures
            final(self).wf(),
            final(self)@ == (TerrainModel {
                chunk_vertices: final(self)@.chunk_vertices,
                chunk_indices: final(self)@.chunk_indices,
                remeshed: final(self)@.remeshed,
                ..old(self)@
            }),
            rebuilt(old(self)@, final(self)@, flags@),
    {
        self.remeshed = Vec::new();
        let mut c: usize = 0;
        let n: usize = flags.len();
        while c < n
            invariant
                c <= n,
                n == flags@.len(),
                n == old(self)@.chunks(),
                self.wf(),
                self@ == (TerrainModel {
                    chunk_vertices: self@.chunk_vertices,
                    chunk_indices: self@.chunk_indices,
                    remeshed: self@.remeshed,
                    ..old(self)@
                }),
                self@.chunk_vertices.len() == old(self)@.chunk_vertices.len(),
                self@.chunk_indices.len() == old(self)@.chunk_indices.len(),
                forall|k: int|
                    0 <= k < n ==> if k < c && flags@[k] {
                        &&& (#[trigger] self@.chunk_vertices[k])@ == chunk_points(
                            old(self)@.heights,
                            k,
                            old(self)@.chunk_size,
                            old(self)@.num_chunks,
                            old(self)@.lods,
                        )
                        &&& self@.chunk_indices[k]@ == chunk_corners(
                            old(self)@.heights,
                            k,
                            old(self)@.chunk_size,
                            old(self)@.num_chunks,
                            old(self)@.lods,
                        )
                    } else {
                        &&& self@.chunk_vertices[k] == old(self)@.chunk_vertices[k]
                        &&& self@.chunk_indices[k] == old(self)@.chunk_indices[k]
                    },
                self@.remeshed.len() <= c,
                forall|k: int|
                    0 <= k < n ==> ((k < c && flags@[k]) <==> self@.remeshed.contains(k as usize)),
                forall|i: int| 0 <= i < self@.remeshed.len() ==> self@.remeshed[i] < c,
                forall|i: int, j: int|
                    0 <= i < j < self@.remeshed.len() ==> self@.remeshed[i] < self@.remeshed[j],
            decreases n - c,
        {
            if flags[c] {
                let ghost before = self@.remeshed;
                self.update_chunk(c);
                self.remeshed.push(c);
                proof {
                    assert(self@.remeshed == before.push(c));
                    assert(self@.remeshed[before.len() as int] == c);
                    assert forall|k: int| 0 <= k < n implies ((k < c + 1 && flags@[k])
                        <==> self@.remeshed.contains(k as usize)) by {
                        if before.contains(k as usize) {
                            let i = choose|i: int| 0 <= i < before.len() && before[i] == k as usize;
                            assert(self@.remeshed[i] == k as usize);
                        }
                        if self@.remeshed.contains(k as usize) && k != c {
                            let i = choose|i: int|
                                0 <= i < self@.remeshed.len() && self@.remeshed[i] == k as usize;
                            assert(before[i] == k as usize);
                        }
                    }
                }
            }
            c += 1;
        }
    }

    /// Builds the lists of every chunk anew from the heights.
    pub fn update_all_chunks(&mut self)
        requires
            old(self).wf(),
        ensures
            final(self).wf(),
            final(self)@ == (TerrainModel {
                chunk_vertices: final(self)@.chunk_vertices,
                chunk_indices: final(self)@.chunk_indices,
                remeshed: final(self)@.remeshed,
                ..old(self)@
            }),
            rebuilt(old(self)@, final(self)@, Seq::new(old(self)@.chunks() as nat, |c: int| true)),
    {
        proof {
            lemma_sizes(self@.chunk_size, self@.num_chunks);
        }
        let mut flags: Vec<bool> = Vec::new();
        let n: usize = self.num_chunks * self.num_chunks;
        let mut c: usize = 0;
        while c < n
            invariant
                c <= n,
                flags@ == Seq::new(c as nat, |k: int| true),
            decreases n - c,
        {
            flags.push(true);
            assert(flags@ =~= Seq::new((c + 1) as nat, |k: int| true));
            c += 1;
        }
        self.remesh_flagged(&flags);
    }

    /// Welds the chunk lists that `chunk_ids` names into the vertex and index
    /// lists of the terrain.  A number that names no chunk is passed over.
    pub fn update_terrain_arrays_for_chunks(&mut self, chunk_ids: &Vec<usize>)
        requires
            old(self).wf(),
        ensures
            final(self).wf(),
            ({
                let m = old(self)@;
                let named = chunk_ids@.filter(|c: usize| c < m.chunks());
                let corners = terrain_triangles(
                    m.chunk_vertices,
                    m.chunk_indices,
                    named,
                    m.chunk_size,
                    m.num_chunks,
                    named.len() as int,
                );
                final(self)@ == (TerrainModel {
                    terrain_vertices: welded_points(corners),
                    terrain_indices: welded_indices(corners),
                    ..m
                })
            }),
    {
        proof {
            lemma_sizes(self@.chunk_size, self@.num_chunks);
        }
        let n: usize = self.num_chunks * self.num_chunks;
        let mut named: Vec<usize> = Vec::new();
        let mut i: usize = 0;
        let ghost keep = |c: usize| c < n;
        assert(chunk_ids@.subrange(0, 0).filter(keep) =~= Seq::<usize>::empty()) by {
            assert(chunk_ids@.subrange(0, 0) =~= Seq::<usize>::empty());
            reveal(Seq::filter);
        }
        while i < chunk_ids.len()
            invariant
                i <= chunk_ids@.len(),
                keep == |c: usize| c < n,
                named@ == chunk_ids@.subrange(0, i as int).filter(keep),
                forall|k: int| 0 <= k < named@.len() ==> (#[trigger] named@[k]) < n,
            decreases chunk_ids@.len() - i,
        {
            let c: usize = chunk_ids[i];
            proof {
                let so_far = chunk_ids@.subrange(0, i as int);
                assert(chunk_ids@.subrange(0, i + 1) =~= so_far.push(c));
                assert(so_far.push(c).drop_last() =~= so_far);
                reveal(Seq::filter);
            }
            if c < n {
                named.push(c);
            }
            i += 1;
        }
        assert(chunk_ids@.subrange(0, i as int) =~= chunk_ids@);
        let merged = merge_chunks(
            &self.chunk_vertices,
            &self.chunk_indices,
            &named,
            self.chunk_size,
            self.num_chunks,
        );
        self.terrain_vertices = merged.0;
        self.terrain_indices = merged.1;
    }

    /// Welds the lists of all chunks, in order, into the vertex and index
    /// lists of the terrain.
    pub fn update_terrain_arrays(&mut self)
        requires
            old(self).wf(),
        ensures
            final(self).wf(),
            ({
                let m = old(self)@;
                let corners = terrain_triangles(
                    m.chunk_vertices,
                    m.chunk_indices,
                    all_chunks(m.chunks()),
                    m.chunk_size,
                    m.num_chunks,
                    m.chunks(),
                );
                final(self)@ == (TerrainModel {
                    terrain_vertices: welded_points(corners),
                    terrain_indices: welded_indices(corners),
                    ..m
                })
            }),
    {
        proof {
            lemma_sizes(self@.chunk_size, self@.num_chunks);
        }
        let n: usize = self.num_chunks * self.num_chunks;
        let mut ids: Vec<usize> = Vec::new();
        let mut c: usize = 0;
        while c < n
            invariant
                c <= n,
                ids@ == all_chunks(c as int),
            decreases n - c,
        {
            ids.push(c);
            assert(ids@ =~= all_chunks(c + 1));
            c += 1;
        }
        let merged = merge_chunks(
            &self.chunk_vertices,
            &self.chunk_indices,
            &ids,
            self.chunk_size,
            self.num_chunks,
        );
        self.terrain_vertices = merged.0;
        self.terrain_indices = merged.1;
    }

    /// Builds every chunk list anew, then the lists of the terrain.
    pub fn update_terrain(&mut self)
        requires
            old(self).wf(),
        ensures
            final(self).wf(),
            ({
                let m = old(self)@;
                let corners = terrain_triangles(
                    final(self)@.chunk_vertices,
                    final(self)@.chunk_indices,
                    all_chunks(m.chunks()),
                    m.chunk_size,
                    m.num_chunks,
                    m.chunks(),
                );
                &&& rebuilt(m, final(self)@, Seq::new(m.chunks() as nat, |c: int| true))
                &&& final(self)@ == (TerrainModel {
                    chunk_vertices: final(self)@.chunk_vertices,
                    chunk_indices: final(self)@.chunk_indices,
                    remeshed: final(self)@.remeshed,
                    terrain_vertices: welded_points(corners),
                    terrain_indices: welded_indices(corners),
                    ..m
                })
            }),
    {
        self.update_all_chunks();
        self.update_terrain_arrays();
    }

    /// Gives chunk `chunk_id` the level of detail `lod` and builds its lists anew.
    pub fn set_chunk_lod(&mut self, chunk_id: usize, lod: usize)
        requires
            old(self).wf(),
            chunk_id < old(self)@.chunks(),
        ensures
            final(self).wf(),
            ({
                let m = TerrainModel {
                    lods: old(self)@.lods.update(chunk_id as int, lod),
                    ..old(self)@
                };
                &&& final(self)@ == (TerrainModel {
                    chunk_vertices: final(self)@.chunk_vertices,
                    chunk_indices: final(self)@.chunk_indices,
                    remeshed: final(self)@.remeshed,
                    ..m
                })
                &&& rebuilt(
                    m,
                    final(self)@,
                    Seq::new(m.chunks() as nat, |c: int| c == chunk_id),
                )
            }),
    {
        self.chunk_lod[chunk_id] = lod;
        let mut flags = no_flags(self.chunk_lod.len());
        flags[chunk_id] = true;
        assert(flags@ =~= Seq::new(self@.chunks() as nat, |c: int| c == chunk_id));
        self.remesh_flagged(&flags);
    }

    /// Centres the levels of detail on the chunk that holds `(global_x,
    /// global_z)`: where that is not the active chunk already, it becomes the
    /// active one, every chunk takes as level the whole part of its distance
    /// from there, and every chunk list is built anew.  Returns whether it did.
    pub fn update_lod(&mut self, global_x: i32, global_z: i32) -> (changed: bool)
        requires
            old(self).wf(),
        ensures
            final(self).wf(),
            ({
                let col = truncated_quotient(global_x as int, old(self)@.chunk_size);
                let row = truncated_quotient(global_z as int, old(self)@.chunk_size);
                let m = TerrainModel {
                    lods: lods_around(old(self)@.num_chunks, col, row),
                    active_chunk: (col as i32, row as i32),
                    ..old(self)@
                };
                &&& changed == (old(self)@.active_chunk != (col as i32, row as i32))
                &&& !changed ==> final(self)@ == old(self)@
                &&& changed ==> final(self)@ == (TerrainModel {
                    chunk_vertices: final(self)@.chunk_vertices,
                    chunk_indices: final(self)@.chunk_indices,
                    remeshed: final(self)@.remeshed,
                    ..m
                }) && rebuilt(m, final(self)@, Seq::new(m.chunks() as nat, |c: int| true))
            }),
    {
        proof {
            lemma_sizes(self@.chunk_size, self@.num_chunks);
        }
        let size: i64 = self.chunk_size as i64;
        let col: i32 = if global_x >= 0 {
            (global_x as i64 / size) as i32
        } else {
            (-((-(global_x as i64)) / size)) as i32
        };
        let row: i32 = if global_z >= 0 {
            (global_z as i64 / size) as i32
        } else {
            (-((-(global_z as i64)) / size)) as i32
        };
        if self.active_chunk_position.0 == col && self.active_chunk_position.1 == row {
            return false;
        }
        self.active_chunk_position = (col, row);
        let n: usize = self.num_chunks * self.num_chunks;
        let mut lods: Vec<usize> = Vec::new();
        let mut i: usize = 0;
        while i < n
            invariant
                i <= n,
                n == self.num_chunks * self.num_chunks,
                1 <= self.num_chunks <= i32::MAX,
                lods@ == lods_around(self.num_chunks as int, col as int, row as int).subrange(
                    0,
                    i as int,
                ),
            decreases n - i,
        {
            let chunk_col: usize = i % self.num_chunks;
            let chunk_row: usize = i / self.num_chunks;
            proof {
                assert(0 <= chunk_row < self.num_chunks) by (nonlinear_arith)
                    requires
                        0 <= i < self.num_chunks * self.num_chunks,
                        chunk_row == i as int / self.num_chunks as int,
                        self.num_chunks >= 1,
                ;
            }
            let dc: i128 = col as i128 - chunk_col as i128;
            let dr: i128 = row as i128 - chunk_row as i128;
            proof {
                assert(0 <= dc * dc <= 0x1_0000_0000 * 0x1_0000_0000 && 0 <= dr * dr
                    <= 0x1_0000_0000 * 0x1_0000_0000) by (nonlinear_arith)
                    requires
                        -0x1_0000_0000 <= dc <= 0x1_0000_0000,
                        -0x1_0000_0000 <= dr <= 0x1_0000_0000,
                ;
            }
            let d: u128 = root_of((dc * dc + dr * dr) as u128);
            lods.push(d as usize);
            assert(lods@ =~= lods_around(self.num_chunks as int, col as int, row as int).subrange(
                0,
                i + 1,
            ));
            i += 1;
        }
        assert(lods@ =~= lods_around(self.num_chunks as int, col as int, row as int));
        self.chunk_lod = lods;
        self.update_all_chunks();
        true
    }
}

/// The quotient of `a` by a positive `b`, rounded towards zero.
pub open spec fn truncated_quotient(a: int, b: int) -> int {
    if a >= 0 {
        a / b
    } else {
        -((-a) / b)
    }
}

/// Every one of `cells` is a cell of a grid of side `side`.
pub open spec fn cells_in_grid(cells: Seq<(i32, i32, i32)>, side: int) -> bool {
    forall|i: int|
        0 <= i < cells.len() ==> in_grid(side, (#[trigger] cells[i]).0 as int, cells[i].2 as int)
}

/// The session as a stroke begins: where none is in progress, one is from
/// now on, with nothing edited yet and nothing left to redo.
pub open spec fn stroke_begun(m: TerrainModel) -> TerrainModel {
    if m.drawing {
        m
    } else {
        TerrainModel { drawing: true, edited: Seq::empty(), redo: Seq::empty(), ..m }
    }
}

/// The state in which a brush finds the session: no chunk dirty yet.
pub open spec fn stroke_start(m: TerrainModel) -> StrokeState {
    StrokeState {
        heights: m.heights,
        edited: m.edited,
        seam: m.seam,
        dirty: Seq::new(m.chunks() as nat, |c: int| false),
    }
}

/// The session after a brush has left the state `s`: the chunks it made
/// dirty are no longer on a seam, since they are rebuilt at once.
pub open spec fn stroke_applied(m: TerrainModel, s: StrokeState) -> TerrainModel {
    TerrainModel {
        heights: s.heights,
        edited: s.edited,
        seam: Seq::new(s.seam.len(), |c: int| s.seam[c] && !s.dirty[c]),
        ..m
    }
}

/// Whether a directional brush changes the cell `(x, z)`: the cell lies in
/// the grid, the stroke has not changed it yet, and the brush gives it
/// another height than it has.
pub open spec fn brush_changes(
    heights: Seq<i32>,
    edited: Seq<(usize, i32)>,
    side: int,
    x: int,
    z: int,
    b: Directional,
) -> bool {
    let place = z * side + x;
    &&& in_grid(side, x, z)
    &&& !names_cell(edited, place)
    &&& directional_height(
        heights[place],
        b.mode,
        b.strength,
        b.button,
        b.locked,
        b.locked_height,
    ) != heights[place]
}

impl TerrainUtils {
    /// What a stroke changes, as the session holds it, with the dirty flags `dirty`.
    pub open spec fn stroke_state(&self, dirty: Seq<bool>) -> StrokeState {
        StrokeState { heights: self@.heights, edited: self@.edited, seam: self@.seam, dirty }
    }

    /// Gives the cell `(x, z)`, of height `before`, the height `after`.
    fn touch_cell(&mut self, dirty: &mut Vec<bool>, x: usize, z: usize, before: i32, after: i32)
        requires
            old(self).wf(),
            in_grid(old(self)@.side(), x as int, z as int),
            old(dirty)@.len() == old(self)@.chunks(),
        ensures
            final(self).wf(),
            final(dirty)@.len() == old(dirty)@.len(),
            final(self).stroke_state(final(dirty)@) == touched(
                old(self).stroke_state(old(dirty)@),
                x as int,
                z as int,
                before,
                after,
                old(self)@.chunk_size,
                old(self)@.num_chunks,
            ),
            final(self)@ == (TerrainModel {
                heights: final(self)@.heights,
                edited: final(self)@.edited,
                seam: final(self)@.seam,
                ..old(self)@
            }),
    {
        proof {
            lemma_sizes(self@.chunk_size, self@.num_chunks);
            lemma_grid_index(self.map_size as int, x as int, z as int);
            assert(self.heights@.len() == self.heights.len());
            self.edited_positions.lemma_wf();
        }
        let place: usize = z * self.map_size + x;
        if !self.edited_positions.contains_key(place) {
            self.edited_positions.insert(place, before);
        }
        self.heights[place] = after;
        mark_seams_in(&mut self.chunks_at_seam, x, z, self.chunk_size, self.num_chunks);
        let c: usize = chunk_containing(x, z, self.chunk_size, self.num_chunks);
        dirty[c] = true;
        proof {
            self.edited_positions.lemma_wf();
            let want = touched(
                old(self).stroke_state(old(dirty)@),
                x as int,
                z as int,
                before,
                after,
                old(self)@.chunk_size,
                old(self)@.num_chunks,
            );
            assert(self@.seam =~= want.seam);
            assert(self@.heights =~= want.heights);
            assert(dirty@ =~= want.dirty);
        }
    }

    /// Applies a directional brush to the cell `(global_x, global_z)`.
    /// Returns the chunk of the cell where its height changed.
    fn draw_height_at(
        &mut self,
        dirty: &mut Vec<bool>,
        global_x: i32,
        global_z: i32,
        b: Directional,
    ) -> (chunk: Option<usize>)
        requires
            old(self).wf(),
            old(dirty)@.len() == old(self)@.chunks(),
        ensures
            final(self).wf(),
            final(dirty)@.len() == old(dirty)@.len(),
            final(self).stroke_state(final(dirty)@) == (if in_grid(
                old(self)@.side(),
                global_x as int,
                global_z as int,
            ) {
                directional_cell(
                    old(self).stroke_state(old(dirty)@),
                    global_x as int,
                    global_z as int,
                    b,
                    old(self)@.chunk_size,
                    old(self)@.num_chunks,
                )
            } else {
                old(self).stroke_state(old(dirty)@)
            }),
            final(self)@ == (TerrainModel {
                heights: final(self)@.heights,
                edited: final(self)@.edited,
                seam: final(self)@.seam,
                ..old(self)@
            }),
            chunk is Some ==> chunk->0 == chunk_of(
                global_x as int,
                global_z as int,
                old(self)@.chunk_size,
                old(self)@.num_chunks,
            ),
            chunk is Some <==> brush_changes(
                old(self)@.heights,
                old(self)@.edited,
                old(self)@.side(),
                global_x as int,
                global_z as int,
                b,
            ),
    {
        if !self.in_bounds(global_x, global_z) {
            return None;
        }
        proof {
            lemma_sizes(self@.chunk_size, self@.num_chunks);
            lemma_grid_index(self.map_size as int, global_x as int, global_z as int);
        }
        let place: usize = global_z as usize * self.map_size + global_x as usize;
        if self.edited_positions.contains_key(place) {
            return None;
        }
        let current: i32 = self.height(global_x, global_z);
        let after: i32 = brushed_height(
            current,
            b.mode,
            b.strength,
            b.button,
            b.locked,
            b.locked_height,
        );
        if after == current {
            return None;
        }
        self.touch_cell(dirty, global_x as usize, global_z as usize, current, after);
        Some(
            chunk_containing(
                global_x as usize,
                global_z as usize,
                self.chunk_size,
                self.num_chunks,
            ),
        )
    }

    /// Begins a stroke where none is in progress.
    fn begin_stroke(&mut self)
        requires
            old(self).wf(),
        ensures
            final(self).wf(),
            final(self)@ == stroke_begun(old(self)@),
    {
        if !self.is_drawing {
            self.is_drawing = true;
            self.edited_positions.clear();
            self.redo_stack = Vec::new();
            proof {
                assert(self@.redo =~= Seq::empty());
                self.edited_positions.lemma_wf();
                assert(self@.undo == old(self)@.undo);
            }
        }
    }

    /// Applies a smoothing brush to `cells`.
    #[verifier::loop_isolation(false)]
    fn smooth_over(
        &mut self,
        dirty: &mut Vec<bool>,
        cells: &Vec<(i32, i32, i32)>,
        global_x: i32,
        global_z: i32,
        radius: i32,
        total: i128,
        count: usize,
    )
        requires
            old(self).wf(),
            old(dirty)@.len() == old(self)@.chunks(),
            cells_in_grid(cells@, old(self)@.side()),
            count >= 1,
            -0x8000_0000 * count <= total <= 0x7fff_ffff * count,
        ensures
            final(self).wf(),
            final(dirty)@.len() == old(dirty)@.len(),
            final(self).stroke_state(final(dirty)@) == smooth_fold(
                old(self).stroke_state(old(dirty)@),
                cells@,
                cells@.len() as int,
                Smoothing {
                    gx: global_x as int,
                    gz: global_z as int,
                    radius: radius as int,
                    total: total as int,
                    count: count as int,
                },
                old(self)@.chunk_size,
                old(self)@.num_chunks,
            ),
            final(self)@ == (TerrainModel {
                heights: final(self)@.heights,
                edited: final(self)@.edited,
                seam: final(self)@.seam,
                ..old(self)@
            }),
    {
        let ghost b = Smoothing {
            gx: global_x as int,
            gz: global_z as int,
            radius: radius as int,
            total: total as int,
            count: count as int,
        };
        let ghost start = self.stroke_state(dirty@);
        let ghost cs = self@.chunk_size;
        let ghost nc = self@.num_chunks;
        let r: i128 = radius as i128;
        proof {
            assert(0 <= r * r <= 0x8000_0000 * 0x8000_0000) by (nonlinear_arith)
                requires
                    -0x8000_0000 <= r <= 0x8000_0000,
            ;
        }
        let limit: i128 = r * r;
        let mut k: usize = 0;
        while k < cells.len()
            invariant
                k <= cells@.len(),
                self.wf(),
                dirty@.len() == old(self)@.chunks(),
                cells_in_grid(cells@, old(self)@.side()),
                count >= 1,
                -0x8000_0000 * count <= total <= 0x7fff_ffff * count,
                limit == radius * radius,
                self@ == (TerrainModel {
                    heights: self@.heights,
                    edited: self@.edited,
                    seam: self@.seam,
                    ..old(self)@
                }),
                self.stroke_state(dirty@) == smooth_fold(start, cells@, k as int, b, cs, nc),
            decreases cells@.len() - k,
        {
            let cell = cells[k];
            let after: i32 = smooth_step(cell.1, total, count);
            let dx: i128 = cell.0 as i128 - global_x as i128;
            let dz: i128 = cell.2 as i128 - global_z as i128;
            proof {
                assert(0 <= dx * dx <= 0x1_0000_0000 * 0x1_0000_0000 && 0 <= dz * dz
                    <= 0x1_0000_0000 * 0x1_0000_0000) by (nonlinear_arith)
                    requires
                        -0x1_0000_0000 <= dx <= 0x1_0000_0000,
                        -0x1_0000_0000 <= dz <= 0x1_0000_0000,
                ;
                assert(in_grid(old(self)@.side(), cells@[k as int].0 as int, cells@[k as int].2 as int));
            }
            let ghost before = self.stroke_state(dirty@);
            assert(self@.chunk_size == cs && self@.num_chunks == nc);
            assert(self@.side() == old(self)@.side());
            assert(in_disk(cell.0 - b.gx, cell.2 - b.gz, b.radius) == (4 * (dx * dx + dz * dz)
                <= limit));
            assert(after == smoothed_height(cell.1, b.total, b.count));
            if 4 * (dx * dx + dz * dz) <= limit && after != cell.1 {
                self.touch_cell(dirty, cell.0 as usize, cell.2 as usize, cell.1, after);
                assert(self.stroke_state(dirty@) == touched(
                    before,
                    cell.0 as int,
                    cell.2 as int,
                    cell.1,
                    after,
                    cs,
                    nc,
                ));
            } else {
                assert(self.stroke_state(dirty@) == before);
            }
            proof {
                assert(self.stroke_state(dirty@) == smooth_cell(before, cells@[k as int], b, cs, nc));
                assert(smooth_fold(start, cells@, k + 1, b, cs, nc) == smooth_cell(
                    smooth_fold(start, cells@, k as int, b, cs, nc),
                    cells@[k as int],
                    b,
                    cs,
                    nc,
                ));
            }
            k += 1;
        }
    }

    /// Applies a directional brush to `cells`.
    #[verifier::loop_isolation(false)]
    fn draw_over(&mut self, dirty: &mut Vec<bool>, cells: &Vec<(i32, i32, i32)>, b: Directional)
        requires
            old(self).wf(),
            old(dirty)@.len() == old(self)@.chunks(),
            cells_in_grid(cells@, old(self)@.side()),
        ensures
            final(self).wf(),
            final(dirty)@.len() == old(dirty)@.len(),
            final(self).stroke_state(final(dirty)@) == directional_fold(
                old(self).stroke_state(old(dirty)@),
                cells@,
                cells@.len() as int,
                b,
                old(self)@.chunk_size,
                old(self)@.num_chunks,
            ),
            final(self)@ == (TerrainModel {
                heights: final(self)@.heights,
                edited: final(self)@.edited,
                seam: final(self)@.seam,
                ..old(self)@
            }),
    {
        let ghost start = self.stroke_state(dirty@);
        let ghost cs = self@.chunk_size;
        let ghost nc = self@.num_chunks;
        let mut k: usize = 0;
        while k < cells.len()
            invariant
                k <= cells@.len(),
                self.wf(),
                dirty@.len() == old(self)@.chunks(),
                cells_in_grid(cells@, old(self)@.side()),
                self@ == (TerrainModel {
                    heights: self@.heights,
                    edited: self@.edited,
                    seam: self@.seam,
                    ..old(self)@
                }),
                self.stroke_state(dirty@) == directional_fold(start, cells@, k as int, b, cs, nc),
            decreases cells@.len() - k,
        {
            let cell = cells[k];
            proof {
                assert(in_grid(old(self)@.side(), cells@[k as int].0 as int, cells@[k as int].2 as int));
                assert(directional_fold(start, cells@, k + 1, b, cs, nc) == directional_cell(
                    directional_fold(start, cells@, k as int, b, cs, nc),
                    cells@[k as int].0 as int,
                    cells@[k as int].2 as int,
                    b,
                    cs,
                    nc,
                ));
            }
            let ghost before = self.stroke_state(dirty@);
            assert(before == directional_fold(start, cells@, k as int, b, cs, nc));
            assert(self@.chunk_size == cs && self@.num_chunks == nc);
            assert(self@.side() == old(self)@.side());
            let _ = self.draw_height_at(dirty, cell.0, cell.2, b);
            assert(self.stroke_state(dirty@) == directional_cell(
                before,
                cell.0 as int,
                cell.2 as int,
                b,
                cs,
                nc,
            ));
            k += 1;
        }
    }

    /// Takes the chunks flagged in `dirty` off the seam.
    #[verifier::loop_isolation(false)]
    fn settle_seams(&mut self, dirty: &Vec<bool>)
        requires
            old(self).wf(),
            dirty@.len() == old(self)@.chunks(),
        ensures
            final(self).wf(),
            final(self)@ == (TerrainModel {
                seam: Seq::new(old(self)@.seam.len(), |c: int| old(self)@.seam[c] && !dirty@[c]),
                ..old(self)@
            }),
    {
        let n: usize = dirty.len();
        let mut c: usize = 0;
        while c < n
            invariant
                c <= n,
                n == dirty@.len(),
                n == old(self)@.chunks(),
                self.wf(),
                forall|k: usize|
                    (#[trigger] self.chunks_at_seam@.contains(k)) <==> (old(self).chunks_at_seam@.contains(k) && !(k < c && dirty@[k as int])),
                self@ == (TerrainModel { seam: self@.seam, ..old(self)@ }),
            decreases n - c,
        {
            let ghost prev = self.chunks_at_seam@;
            if dirty[c] {
                self.chunks_at_seam.remove(&c);
                assert(self.chunks_at_seam@ == prev.remove(c));
            }
            proof {
                assert forall|k: usize|
                    (#[trigger] self.chunks_at_seam@.contains(k)) <==> (old(self).chunks_at_seam@.contains(k) && !(k < c + 1 && dirty@[k as int])) by {
                    assert(prev.contains(k) <==> (old(self).chunks_at_seam@.contains(k) && !(k < c
                        && dirty@[k as int])));
                }
                assert(self@.seam =~= self@.seam);
            }
            c += 1;
        }
        assert(old(self)@.seam.len() == n);
        assert forall|k: int| 0 <= k < n implies self@.seam[k] == (old(self)@.seam[k] && !dirty@[k]) by {
            assert(self.chunks_at_seam@.contains(k as usize) <==> (old(self).chunks_at_seam@.contains(k as usize) && !(k < c && dirty@[k])));
        }
        assert(self@.seam =~= Seq::new(
            old(self)@.seam.len(),
            |c: int| old(self)@.seam[c] && !dirty@[c],
        ));
    }

    /// Applies the brush once at `(global_x, global_z)` to the heights.
    fn apply_brush(
        &mut self,
        dirty: &mut Vec<bool>,
        global_x: i32,
        global_z: i32,
        brush_size: BrushSize,
        brush_mode: i32,
        button_index: i32,
        is_height_locked: bool,
        locked_height: i32,
    )
        requires
            old(self).wf(),
            old(dirty)@.len() == old(self)@.chunks(),
        ensures
            final(self).wf(),
            final(dirty)@.len() == old(dirty)@.len(),
            final(self).stroke_state(final(dirty)@) == brush_outcome(
                old(self).stroke_state(old(dirty)@),
                global_x as int,
                global_z as int,
                brush_size,
                brush_mode,
                button_index,
                is_height_locked,
                locked_height,
                old(self)@.chunk_size,
                old(self)@.num_chunks,
            ),
            final(self)@ == (TerrainModel {
                heights: final(self)@.heights,
                edited: final(self)@.edited,
                seam: final(self)@.seam,
                ..old(self)@
            }),
    {
        proof {
            lemma_sizes(self@.chunk_size, self@.num_chunks);
        }
        if brush_mode == 5 {
            if self.in_bounds(global_x, global_z) {
                let reach: i32 = if brush_size.x == i32::MAX {
                    i32::MAX
                } else {
                    brush_size.x + 1
                };
                let cells = get_grid_positions_in_radius(
                    &self.heights,
                    self.map_size,
                    global_x,
                    global_z,
                    reach,
                );
                let mut total: i128 = 0;
                let mut count: usize = cells.len();
                if is_height_locked {
                    total = locked_height as i128;
                    count = 1;
                } else {
                    let mut k: usize = 0;
                    while k < cells.len()
                        invariant
                            k <= cells@.len(),
                            total == cells_total(cells@, k as int),
                            -0x8000_0000 * k <= total <= 0x7fff_ffff * k,
                        decreases cells@.len() - k,
                    {
                        proof {
                            lemma_cells_total(cells@, k + 1);
                        }
                        total = total + cells[k].1 as i128;
                        k += 1;
                    }
                }
                if count >= 1 {
                    self.smooth_over(dirty, &cells, global_x, global_z, brush_size.x, total, count);
                }
            }
        } else {
            let cells = get_grid_positions_in_radius(
                &self.heights,
                self.map_size,
                global_x,
                global_z,
                brush_size.x,
            );
            let b = Directional {
                mode: brush_mode,
                strength: brush_size.y,
                button: button_index,
                locked: is_height_locked,
                locked_height,
            };
            self.draw_over(dirty, &cells, b);
        }
    }

    /// Applies the brush once at `(global_x, global_z)`, beginning a stroke
    /// where none is in progress, and builds the lists of the chunks it
    /// changed anew.  Returns whether it changed any.
    pub fn draw_at(
        &mut self,
        global_x: i32,
        global_z: i32,
        brush_size: BrushSize,
        brush_mode: i32,
        button_index: i32,
        is_height_locked: bool,
        locked_height: i32,
    ) -> (changed: bool)
        requires
            old(self).wf(),
        ensures
            final(self).wf(),
            ({
                let begun = stroke_begun(old(self)@);
                let s = brush_outcome(
                    stroke_start(begun),
                    global_x as int,
                    global_z as int,
                    brush_size,
                    brush_mode,
                    button_index,
                    is_height_locked,
                    locked_height,
                    begun.chunk_size,
                    begun.num_chunks,
                );
                let applied = stroke_applied(begun, s);
                &&& s.dirty.len() == begun.chunks()
                &&& rebuilt(applied, final(self)@, s.dirty)
                &&& final(self)@ == (TerrainModel {
                    chunk_vertices: final(self)@.chunk_vertices,
                    chunk_indices: final(self)@.chunk_indices,
                    remeshed: final(self)@.remeshed,
                    ..applied
                })
                &&& changed == (final(self)@.remeshed.len() > 0)
            }),
    {
        self.begin_stroke();
        proof {
            lemma_sizes(self@.chunk_size, self@.num_chunks);
        }
        let ghost begun = self@;
        let mut dirty: Vec<bool> = no_flags(self.num_chunks * self.num_chunks);
        assert(self.stroke_state(dirty@) == stroke_start(begun));
        self.apply_brush(
            &mut dirty,
            global_x,
            global_z,
            brush_size,
            brush_mode,
            button_index,
            is_height_locked,
            locked_height,
        );
        let ghost s = self.stroke_state(dirty@);
        self.settle_seams(&dirty);
        assert(self@ == stroke_applied(begun, s));
        self.remesh_flagged(&dirty);
        self.remeshed.len() > 0
    }

    /// Ends the stroke: what it changed becomes one step to undo, and the
    /// lists of the chunks on a seam are built anew.
    pub fn end_stroke(&mut self)
        requires
            old(self).wf(),
        ensures
            final(self).wf(),
            ({
                let m = old(self)@;
                let ended = TerrainModel {
                    drawing: false,
                    undo: if m.edited.len() > 0 {
                        m.undo.push(ActionModel::TerrainEdit(m.edited))
                    } else {
                        m.undo
                    },
                    edited: Seq::empty(),
                    seam: Seq::new(m.seam.len(), |c: int| false),
                    ..m
                };
                &&& rebuilt(ended, final(self)@, m.seam)
                &&& final(self)@ == (TerrainModel {
                    chunk_vertices: final(self)@.chunk_vertices,
                    chunk_indices: final(self)@.chunk_indices,
                    remeshed: final(self)@.remeshed,
                    ..ended
                })
            }),
    {
        self.is_drawing = false;
        if self.edited_positions.len() > 0 {
            let ghost before = self@.undo;
            let entries = self.edited_positions.to_vec();
            self.undo_stack.push(Action::TerrainEdit(entries));
            assert(self@.undo =~= before.push(ActionModel::TerrainEdit(old(self)@.edited)));
        }
        self.edited_positions.clear();
        proof {
            lemma_sizes(self@.chunk_size, self@.num_chunks);
        }
        let n: usize = self.num_chunks * self.num_chunks;
        let ghost seam = self@.seam;
        let mut flags: Vec<bool> = Vec::new();
        let mut c: usize = 0;
        while c < n
            invariant
                c <= n,
                n == self.num_chunks * self.num_chunks,
                seam == self@.seam,
                seam.len() == n,
                flags@ == seam.subrange(0, c as int),
            decreases n - c,
        {
            flags.push(self.chunks_at_seam.contains(&c));
            assert(flags@ =~= seam.subrange(0, c + 1));
            c += 1;
        }
        assert(flags@ =~= seam);
        self.chunks_at_seam = HashSet::new();
        assert(self@.seam =~= Seq::new(seam.len(), |c: int| false));
        self.remesh_flagged(&flags);
    }
}

impl TerrainModel {
    /// The part of the session that the history acts on.
    pub open spec fn history(self) -> History {
        History {
            heights: self.heights,
            colors: self.colors,
            palette: self.palette,
            undo: self.undo,
            redo: self.redo,
        }
    }

    /// The session with the part that the history acts on replaced, and no chunk on a seam.
    pub open spec fn with_history(self, h: History) -> TerrainModel {
        TerrainModel {
            heights: h.heights,
            colors: h.colors,
            palette: h.palette,
            undo: h.undo,
            redo: h.redo,
            seam: Seq::new(self.seam.len(), |c: int| false),
            ..self
        }
    }
}

/// The chunks that a step rebuilds.
pub open spec fn action_flags(a: ActionModel, chunks: int, chunk_size: int, num_chunks: int) -> Seq<bool> {
    Seq::new(
        chunks as nat,
        |c: int| action_touches(a, crate::history::action_len(a), c, chunk_size, num_chunks),
    )
}

impl TerrainUtils {
    /// Flags the chunks that an edit of the cell with place `place` rebuilds.
    fn flag_cell(&self, flags: &mut Vec<bool>, place: usize)
        requires
            self.wf(),
            place < self@.cells(),
            old(flags)@.len() == self@.chunks(),
        ensures
            final(flags)@.len() == old(flags)@.len(),
            forall|c: int|
                0 <= c < old(flags)@.len() ==> final(flags)@[c] == (old(flags)@[c] || cell_touches(
                    place as int,
                    c,
                    self@.chunk_size,
                    self@.num_chunks,
                )),
    {
        proof {
            lemma_sizes(self@.chunk_size, self@.num_chunks);
            lemma_cell_of_place(place as int, self@.side());
        }
        let x: usize = place % self.map_size;
        let z: usize = place / self.map_size;
        mark_seams(flags, x, z, self.chunk_size, self.num_chunks);
        let c: usize = chunk_containing(x, z, self.chunk_size, self.num_chunks);
        flags[c] = true;
    }

    /// Gives each cell that `entries` names its height there.  Returns the
    /// entries that take this back.
    #[verifier::loop_isolation(false)]
    fn apply_height_edits(&mut self, entries: &Vec<(usize, i32)>, flags: &mut Vec<bool>) -> (back: Vec<
        (usize, i32),
    >)
        requires
            old(self).wf(),
            cells_below(entries@, old(self)@.cells()),
            distinct_cells(entries@),
            old(flags)@.len() == old(self)@.chunks(),
        ensures
            final(self).wf(),
            final(self)@ == (TerrainModel {
                heights: apply_edits(old(self)@.heights, entries@, entries@.len() as int),
                ..old(self)@
            }),
            back@ == inverse_edits(old(self)@.heights, entries@),
            final(flags)@.len() == old(flags)@.len(),
            forall|c: int|
                0 <= c < old(flags)@.len() ==> final(flags)@[c] == (old(flags)@[c] || action_touches(
                    ActionModel::TerrainEdit(entries@),
                    entries@.len() as int,
                    c,
                    old(self)@.chunk_size,
                    old(self)@.num_chunks,
                )),
    {
        let ghost h0 = self@.heights;
        let ghost a = ActionModel::TerrainEdit(entries@);
        let ghost cs = self@.chunk_size;
        let ghost nc = self@.num_chunks;
        let mut back: Vec<(usize, i32)> = Vec::new();
        let mut k: usize = 0;
        while k < entries.len()
            invariant
                k <= entries@.len(),
                self.wf(),
                self@ == (TerrainModel { heights: apply_edits(h0, entries@, k as int), ..old(self)@ }),
                back@ == inverse_edits(h0, entries@).subrange(0, k as int),
                flags@.len() == old(flags)@.len(),
                forall|c: int|
                    0 <= c < flags@.len() ==> flags@[c] == (old(flags)@[c] || action_touches(
                        a,
                        k as int,
                        c,
                        cs,
                        nc,
                    )),
            decreases entries@.len() - k,
        {
            let entry = entries[k];
            let place: usize = entry.0;
            proof {
                lemma_apply_edits(h0, entries@, k as int);
                assert(entries@[k as int].0 < h0.len());
                assert forall|j: int| 0 <= j < k implies (#[trigger] entries@[j]).0 != place by {}
            }
            let current: i32 = self.heights[place];
            back.push((place, current));
            let ghost before_flags = flags@;
            self.flag_cell(flags, place);
            self.heights[place] = entry.1;
            proof {
                assert(back@ =~= inverse_edits(h0, entries@).subrange(0, k + 1));
                assert(self@.heights =~= apply_edits(h0, entries@, k + 1));
                assert forall|c: int| 0 <= c < flags@.len() implies flags@[c] == (old(flags)@[c]
                    || action_touches(a, k + 1, c, cs, nc)) by {
                    if action_touches(a, k as int, c, cs, nc) {
                        let j = choose|j: int|
                            0 <= j < k && j < crate::history::action_len(a) && cell_touches(
                                #[trigger] crate::history::action_cell(a, j),
                                c,
                                cs,
                                nc,
                            );
                        assert(cell_touches(crate::history::action_cell(a, j), c, cs, nc));
                    }
                    if cell_touches(place as int, c, cs, nc) {
                        assert(crate::history::action_cell(a, k as int) == place);
                    }
                    if action_touches(a, k + 1, c, cs, nc) {
                        let j = choose|j: int|
                            0 <= j < k + 1 && j < crate::history::action_len(a) && cell_touches(
                                #[trigger] crate::history::action_cell(a, j),
                                c,
                                cs,
                                nc,
                            );
                        if j < k {
                            assert(action_touches(a, k as int, c, cs, nc));
                        }
                    }
                }
            }
            k += 1;
        }
        assert(inverse_edits(h0, entries@).subrange(0, k as int) =~= inverse_edits(h0, entries@));
        back
    }

    /// Gives each cell that `entries` names its color there.  Returns the
    /// entries that take this back.
    #[verifier::loop_isolation(false)]
    fn apply_color_edits(&mut self, entries: &Vec<(usize, Color8)>, flags: &mut Vec<bool>) -> (back:
        Vec<(usize, Color8)>)
        requires
            old(self).wf(),
            cells_below(entries@, old(self)@.cells()),
            distinct_cells(entries@),
            old(flags)@.len() == old(self)@.chunks(),
        ensures
            final(self).wf(),
            final(self)@ == (TerrainModel {
                colors: paint_colors(
                    old(self)@.colors,
                    old(self)@.palette,
                    entries@,
                    entries@.len() as int,
                ).0,
                palette: paint_colors(
                    old(self)@.colors,
                    old(self)@.palette,
                    entries@,
                    entries@.len() as int,
                ).1,
                ..old(self)@
            }),
            back@ == inverse_colors(old(self)@.colors, old(self)@.palette, entries@),
            final(flags)@.len() == old(flags)@.len(),
            forall|c: int|
                0 <= c < old(flags)@.len() ==> final(flags)@[c] == (old(flags)@[c] || action_touches(
                    ActionModel::VertexColor(entries@),
                    entries@.len() as int,
                    c,
                    old(self)@.chunk_size,
                    old(self)@.num_chunks,
                )),
    {
        let ghost colors0 = self@.colors;
        let ghost palette0 = self@.palette;
        let ghost a = ActionModel::VertexColor(entries@);
        let ghost cs = self@.chunk_size;
        let ghost nc = self@.num_chunks;
        let mut back: Vec<(usize, Color8)> = Vec::new();
        let mut k: usize = 0;
        proof {
            assert(self.color_list@.len() == self.color_list.len());
            assert(entries@.len() == entries.len());
        }
        while k < entries.len()
            invariant
                k <= entries@.len(),
                self.wf(),
                self@ == (TerrainModel {
                    colors: paint_colors(colors0, palette0, entries@, k as int).0,
                    palette: paint_colors(colors0, palette0, entries@, k as int).1,
                    ..old(self)@
                }),
                back@ == inverse_colors(colors0, palette0, entries@).subrange(0, k as int),
                forall|m: int|
                    0 <= m <= k ==> (#[trigger] paint_colors(colors0, palette0, entries@, m)).1.len()
                        <= usize::MAX,
                flags@.len() == old(flags)@.len(),
                forall|c: int|
                    0 <= c < flags@.len() ==> flags@[c] == (old(flags)@[c] || action_touches(
                        a,
                        k as int,
                        c,
                        cs,
                        nc,
                    )),
            decreases entries@.len() - k,
        {
            let entry = entries[k];
            let place: usize = entry.0;
            proof {
                assert(self.color_list@.len() == self.color_list.len());
                lemma_paint_colors(colors0, palette0, entries@, k as int);
                lemma_paint_colors(colors0, palette0, entries@, k + 1);
                assert(entries@[k as int].0 < colors0.len());
                assert forall|j: int| 0 <= j < k implies (#[trigger] entries@[j]).0 != place by {}
                lemma_color_place(self.color_list@, entry.1);
            }
            let held: usize = self.vertex_colors[place];
            assert(held == colors0[place as int]);
            let previous: Color8 = self.color_list[held];
            back.push((place, previous));
            self.flag_cell(flags, place);
            let at: usize = self.get_color_index(entry.1);
            if at == self.color_list.len() {
                self.color_list.push(entry.1);
            }
            self.vertex_colors[place] = at;
            proof {
                assert(back@ =~= inverse_colors(colors0, palette0, entries@).subrange(0, k + 1));
                assert(self@.colors =~= paint_colors(colors0, palette0, entries@, k + 1).0);
                assert(self@.palette =~= paint_colors(colors0, palette0, entries@, k + 1).1);
                assert(self.color_list@.len() == self.color_list.len());
                assert forall|c: int| 0 <= c < flags@.len() implies flags@[c] == (old(flags)@[c]
                    || action_touches(a, k + 1, c, cs, nc)) by {
                    if action_touches(a, k as int, c, cs, nc) {
                        let j = choose|j: int|
                            0 <= j < k && j < crate::history::action_len(a) && cell_touches(
                                #[trigger] crate::history::action_cell(a, j),
                                c,
                                cs,
                                nc,
                            );
                        assert(cell_touches(crate::history::action_cell(a, j), c, cs, nc));
                    }
                    if cell_touches(place as int, c, cs, nc) {
                        assert(crate::history::action_cell(a, k as int) == place);
                    }
                    if action_touches(a, k + 1, c, cs, nc) {
                        let j = choose|j: int|
                            0 <= j < k + 1 && j < crate::history::action_len(a) && cell_touches(
                                #[trigger] crate::history::action_cell(a, j),
                                c,
                                cs,
                                nc,
                            );
                        if j < k {
                            assert(action_touches(a, k as int, c, cs, nc));
                        }
                    }
                }
            }
            k += 1;
        }
        assert(inverse_colors(colors0, palette0, entries@).subrange(0, k as int) =~= inverse_colors(
            colors0,
            palette0,
            entries@,
        ));
        back
    }
}

/// A new stroke leaves nothing to redo: once a stroke begins while none is in
/// progress, as after an undo, the redo stack is empty.
pub proof fn lemma_new_stroke_clears_redo(m: TerrainModel)
    requires
        !m.drawing,
    ensures
        stroke_begun(m).redo.len() == 0,
        stroke_begun(m).drawing,
{
}

/// The session after the cell nearest to `(x, z)` is painted with `color` in
/// a stroke: a cell that the stroke has painted before keeps its color; else
/// its color before is recorded and `color` takes its place.
pub open spec fn paint_applied(m: TerrainModel, x: int, z: int, color: Color8) -> TerrainModel {
    let place = clamp_cell(z, m.side()) * m.side() + clamp_cell(x, m.side());
    if names_cell(m.painted, place) {
        m
    } else {
        TerrainModel {
            painted: m.painted.push((place as usize, m.palette[m.colors[place] as int])),
            palette: palette_with(m.palette, color),
            colors: m.colors.update(place, color_place(m.palette, color) as usize),
            ..m
        }
    }
}

/// The heights or colors of a grid of side `side` laid into a grid of side
/// `new_side`, moved by `(off_x, off_z)`: a cell that the old grid does not
/// reach holds `zero`.
pub open spec fn resized<T>(
    old_cells: Seq<T>,
    side: int,
    new_side: int,
    off_x: int,
    off_z: int,
    zero: T,
) -> Seq<T> {
    Seq::new(
        (new_side * new_side) as nat,
        |i: int|
            {
                let x = i % new_side - off_x;
                let z = i / new_side - off_z;
                if in_grid(side, x, z) {
                    old_cells[z * side + x]
                } else {
                    zero
                }
            },
    )
}

/// How far a resize moves the old grid along one axis: not at all for the
/// anchor 0, by half the change of side, rounded towards zero, for 1, by
/// the whole change for 2.
pub open spec fn resize_offset(anchor: i32, change: int) -> int {
    if anchor == 1 {
        truncated_quotient(change, 2)
    } else if anchor == 2 {
        change
    } else {
        0
    }
}

/// Lays the cells of a grid into a grid of another side.
fn resample<T: Copy>(
    old_cells: &Vec<T>,
    side: usize,
    new_side: usize,
    off_x: i64,
    off_z: i64,
    zero: T,
) -> (cells: Vec<T>)
    requires
        1 <= side <= i32::MAX,
        1 <= new_side <= i32::MAX,
        old_cells@.len() == side * side,
        new_side * new_side <= usize::MAX,
        -0x8000_0000 <= off_x <= 0x8000_0000,
        -0x8000_0000 <= off_z <= 0x8000_0000,
    ensures
        cells@ == resized(old_cells@, side as int, new_side as int, off_x as int, off_z as int, zero),
{
    let ghost want = resized(
        old_cells@,
        side as int,
        new_side as int,
        off_x as int,
        off_z as int,
        zero,
    );
    let mut cells: Vec<T> = Vec::new();
    let mut z: usize = 0;
    while z < new_side
        invariant
            z <= new_side,
            1 <= side <= i32::MAX,
            1 <= new_side <= i32::MAX,
            old_cells@.len() == side * side,
            new_side * new_side <= usize::MAX,
            -0x8000_0000 <= off_x <= 0x8000_0000,
            -0x8000_0000 <= off_z <= 0x8000_0000,
            want == resized(old_cells@, side as int, new_side as int, off_x as int, off_z as int, zero),
            cells@.len() == z * new_side,
            cells@ == want.subrange(0, z * new_side),
        decreases new_side - z,
    {
        let mut x: usize = 0;
        proof {
            assert(z * new_side + new_side <= new_side * new_side) by (nonlinear_arith)
                requires
                    z < new_side,
            ;
            assert((z + 1) * new_side == z * new_side + new_side) by (nonlinear_arith);
        }
        while x < new_side
            invariant
                x <= new_side,
                z < new_side,
                1 <= side <= i32::MAX,
                1 <= new_side <= i32::MAX,
                old_cells@.len() == side * side,
                z * new_side + new_side <= new_side * new_side,
                new_side * new_side <= usize::MAX,
                -0x8000_0000 <= off_x <= 0x8000_0000,
                -0x8000_0000 <= off_z <= 0x8000_0000,
                want == resized(
                    old_cells@,
                    side as int,
                    new_side as int,
                    off_x as int,
                    off_z as int,
                    zero,
                ),
                cells@.len() == z * new_side + x,
                cells@ == want.subrange(0, z * new_side + x),
            decreases new_side - x,
        {
            let sx: i64 = x as i64 - off_x;
            let sz: i64 = z as i64 - off_z;
            let ghost i = z * new_side + x;
            proof {
                assert(i % (new_side as int) == x && i / (new_side as int) == z) by (nonlinear_arith)
                    requires
                        i == z * new_side + x,
                        0 <= x < new_side,
                        0 <= z,
                ;
            }
            let value: T = if sx >= 0 && sz >= 0 && sx < side as i64 && sz < side as i64 {
                proof {
                    lemma_grid_index(side as int, sx as int, sz as int);
                    assert(old_cells@.len() == old_cells.len());
                }
                old_cells[sz as usize * side + sx as usize]
            } else {
                zero
            };
            assert(value == want[i]);
            cells.push(value);
            assert(cells@ =~= want.subrange(0, z * new_side + x + 1));
            x += 1;
        }
        z += 1;
    }
    assert(want.subrange(0, (z * new_side) as int) =~= want);
    cells
}

impl TerrainUtils {
    /// Carries a step out.  Returns the step that takes it back.
    fn do_action(&mut self, action: Action) -> (inverse: Action)
        requires
            old(self).wf(),
            action@.wf(old(self)@.cells()),
        ensures
            final(self).wf(),
            inverse@ == inverse_action(old(self)@.history(), action@),
            inverse@.wf(old(self)@.cells()),
            ({
                let h = acted(old(self)@.history(), action@);
                let m = TerrainModel {
                    heights: h.heights,
                    colors: h.colors,
                    palette: h.palette,
                    seam: Seq::new(old(self)@.seam.len(), |c: int| false),
                    ..old(self)@
                };
                &&& final(self)@ == (TerrainModel {
                    chunk_vertices: final(self)@.chunk_vertices,
                    chunk_indices: final(self)@.chunk_indices,
                    remeshed: final(self)@.remeshed,
                    ..m
                })
                &&& rebuilt(
                    m,
                    final(self)@,
                    action_flags(
                        action@,
                        old(self)@.chunks(),
                        old(self)@.chunk_size,
                        old(self)@.num_chunks,
                    ),
                )
            }),
    {
        proof {
            lemma_sizes(self@.chunk_size, self@.num_chunks);
        }
        let mut flags: Vec<bool> = no_flags(self.num_chunks * self.num_chunks);
        let inverse: Action = match action {
            Action::TerrainEdit(entries) => {
                proof {
                    crate::history::lemma_edits_round_trip(self@.heights, entries@);
                }
                let back = self.apply_height_edits(&entries, &mut flags);
                Action::TerrainEdit(back)
            },
            Action::VertexColor(entries) => {
                let back = self.apply_color_edits(&entries, &mut flags);
                proof {
                    assert forall|i: int| 0 <= i < back@.len() implies (#[trigger] back@[i]).0
                        < old(self)@.cells() by {
                        assert(entries@[i].0 < old(self)@.cells());
                    }
                    assert(distinct_cells(back@));
                }
                Action::VertexColor(back)
            },
        };
        self.chunks_at_seam = HashSet::new();
        proof {
            assert(self@.seam =~= Seq::new(old(self)@.seam.len(), |c: int| false));
            assert(flags@ =~= action_flags(
                action@,
                old(self)@.chunks(),
                old(self)@.chunk_size,
                old(self)@.num_chunks,
            ));
        }
        self.remesh_flagged(&flags);
        inverse
    }

    /// Undoes the newest step, if there is one, and builds the lists of the
    /// chunks it touched anew.  Returns whether another step can be undone.
    pub fn do_undo(&mut self) -> (more: bool)
        requires
            old(self).wf(),
            !old(self)@.drawing,
        ensures
            final(self).wf(),
            more == (final(self)@.undo.len() > 0),
            old(self)@.undo.len() == 0 ==> final(self)@ == old(self)@,
            old(self)@.undo.len() > 0 ==> ({
                let m = old(self)@.with_history(undo_step(old(self)@.history()));
                &&& final(self)@ == (TerrainModel {
                    chunk_vertices: final(self)@.chunk_vertices,
                    chunk_indices: final(self)@.chunk_indices,
                    remeshed: final(self)@.remeshed,
                    ..m
                })
                &&& rebuilt(
                    m,
                    final(self)@,
                    action_flags(
                        old(self)@.undo.last(),
                        old(self)@.chunks(),
                        old(self)@.chunk_size,
                        old(self)@.num_chunks,
                    ),
                )
            }),
    {
        match self.undo_stack.pop() {
            Some(action) => {
                proof {
                    assert(self@.undo =~= old(self)@.undo.drop_last());
                    assert(self@.redo =~= old(self)@.redo);
                    assert(self@.cells() == old(self)@.cells());
                    assert(action@ == old(self)@.undo.last());
                    assert(old(self)@.undo[old(self)@.undo.len() - 1].wf(old(self)@.cells()));
                    assert forall|k: int| 0 <= k < self@.undo.len() implies (
                    #[trigger] self@.undo[k]).wf(self@.cells()) by {
                        assert(self@.undo[k] == old(self)@.undo[k]);
                    }
                    assert forall|k: int| 0 <= k < self@.redo.len() implies (
                    #[trigger] self@.redo[k]).wf(self@.cells()) by {
                        assert(self@.redo[k] == old(self)@.redo[k]);
                    }
                    assert(self@.wf());
                }
                let ghost popped = self@;
                let inverse = self.do_action(action);
                let ghost before = self@.redo;
                self.redo_stack.push(inverse);
                proof {
                    assert(self@.redo =~= before.push(inverse@));
                    assert forall|k: int| 0 <= k < self@.redo.len() implies (
                    #[trigger] self@.redo[k]).wf(self@.cells()) by {
                        if k < before.len() {
                            assert(self@.redo[k] == popped.redo[k]);
                        }
                    }
                }
            },
            None => {
                assert(self@.undo =~= old(self)@.undo);
            },
        }
        self.undo_stack.len() > 0
    }

    /// Redoes the step undone last, if there is one, and builds the lists of
    /// the chunks it touched anew.  Returns whether another step can be redone.
    pub fn do_redo(&mut self) -> (more: bool)
        requires
            old(self).wf(),
            !old(self)@.drawing,
        ensures
            final(self).wf(),
            more == (final(self)@.redo.len() > 0),
            old(self)@.redo.len() == 0 ==> final(self)@ == old(self)@,
            old(self)@.redo.len() > 0 ==> ({
                let m = old(self)@.with_history(redo_step(old(self)@.history()));
                &&& final(self)@ == (TerrainModel {
                    chunk_vertices: final(self)@.chunk_vertices,
                    chunk_indices: final(self)@.chunk_indices,
                    remeshed: final(self)@.remeshed,
                    ..m
                })
                &&& rebuilt(
                    m,
                    final(self)@,
                    action_flags(
                        old(self)@.redo.last(),
                        old(self)@.chunks(),
                        old(self)@.chunk_size,
                        old(self)@.num_chunks,
                    ),
                )
            }),
    {
        match self.redo_stack.pop() {
            Some(action) => {
                proof {
                    assert(self@.redo =~= old(self)@.redo.drop_last());
                    assert(self@.undo =~= old(self)@.undo);
                    assert(self@.cells() == old(self)@.cells());
                    assert(action@ == old(self)@.redo.last());
                    assert(old(self)@.redo[old(self)@.redo.len() - 1].wf(old(self)@.cells()));
                    assert forall|k: int| 0 <= k < self@.redo.len() implies (
                    #[trigger] self@.redo[k]).wf(self@.cells()) by {
                        assert(self@.redo[k] == old(self)@.redo[k]);
                    }
                }
                let ghost popped = self@;
                let inverse = self.do_action(action);
                let ghost before = self@.undo;
                self.undo_stack.push(inverse);
                proof {
                    assert(self@.undo =~= before.push(inverse@));
                    assert forall|k: int| 0 <= k < self@.undo.len() implies (
                    #[trigger] self@.undo[k]).wf(self@.cells()) by {
                        if k < before.len() {
                            assert(self@.undo[k] == popped.undo[k]);
                        }
                    }
                }
            },
            None => {
                assert(self@.redo =~= old(self)@.redo);
            },
        }
        self.redo_stack.len() > 0
    }

    /// Paints the cell nearest to `(x, z)` with `color` as part of a stroke,
    /// beginning one where none is in progress.  Returns whether the stroke
    /// had not painted that cell yet.
    pub fn paint_vertex(&mut self, x: i32, z: i32, color: Color8) -> (painted: bool)
        requires
            old(self).wf(),
        ensures
            final(self).wf(),
            final(self)@ == paint_applied(stroke_begun(old(self)@), x as int, z as int, color),
            painted == !names_cell(
                stroke_begun(old(self)@).painted,
                clamp_cell(z as int, old(self)@.side()) * old(self)@.side() + clamp_cell(
                    x as int,
                    old(self)@.side(),
                ),
            ),
    {
        self.begin_stroke();
        proof {
            lemma_sizes(self@.chunk_size, self@.num_chunks);
        }
        let last: i32 = (self.map_size - 1) as i32;
        let cx: usize = if x < 0 {
            0
        } else if x > last {
            last as usize
        } else {
            x as usize
        };
        let cz: usize = if z < 0 {
            0
        } else if z > last {
            last as usize
        } else {
            z as usize
        };
        proof {
            lemma_grid_index(self.map_size as int, cx as int, cz as int);
            assert(self.vertex_colors@.len() == self.vertex_colors.len());
            self.edited_colors.lemma_wf();
        }
        let place: usize = cz * self.map_size + cx;
        if self.edited_colors.contains_key(place) {
            return false;
        }
        let held: usize = self.vertex_colors[place];
        assert(held == self@.colors[place as int]);
        let current: Color8 = self.color_list[held];
        self.edited_colors.insert(place, current);
        proof {
            self.edited_colors.lemma_wf();
        }
        self.set_vertex_color(cx as i32, cz as i32, color);
        true
    }

    /// Ends a stroke of paint: what it painted becomes one step to undo.
    pub fn end_paint_stroke(&mut self)
        requires
            old(self).wf(),
        ensures
            final(self).wf(),
            final(self)@ == (TerrainModel {
                drawing: false,
                undo: if old(self)@.painted.len() > 0 {
                    old(self)@.undo.push(ActionModel::VertexColor(old(self)@.painted))
                } else {
                    old(self)@.undo
                },
                painted: Seq::empty(),
                ..old(self)@
            }),
    {
        self.is_drawing = false;
        if self.edited_colors.len() > 0 {
            let ghost before = self@.undo;
            let entries = self.edited_colors.to_vec();
            self.undo_stack.push(Action::VertexColor(entries));
            assert(self@.undo =~= before.push(ActionModel::VertexColor(old(self)@.painted)));
        }
        self.edited_colors.clear();
    }

    /// Gives the grid new sizes, keeping the old heights and colors where the
    /// new grid reaches them.  Where the side of the grid stays the same,
    /// nothing happens.  Else the old grid is laid into the new one, moved
    /// along each axis as `x_move` and `z_move` say (see `resize_offset`),
    /// every chunk takes the level of detail 0, the history and the stroke in
    /// progress are forgotten, and all lists are built anew.
    pub fn resize_terrain(&mut self, new_chunk_size: i32, new_num_chunks: i32, x_move: i32, z_move: i32)
        requires
            old(self).wf(),
            sizes_fit(new_chunk_size as int, new_num_chunks as int),
        ensures
            final(self).wf(),
            new_chunk_size * new_num_chunks == old(self)@.side() ==> final(self)@ == old(self)@,
            new_chunk_size * new_num_chunks != old(self)@.side() ==> ({
                let m = old(self)@;
                let new_side = new_chunk_size * new_num_chunks;
                let off_x = resize_offset(x_move, new_side - m.side());
                let off_z = resize_offset(z_move, new_side - m.side());
                let sized = TerrainModel {
                    heights: resized(m.heights, m.side(), new_side, off_x, off_z, 0i32),
                    colors: resized(m.colors, m.side(), new_side, off_x, off_z, 0usize),
                    chunk_size: new_chunk_size as int,
                    num_chunks: new_num_chunks as int,
                    lods: Seq::new((new_num_chunks * new_num_chunks) as nat, |c: int| 0usize),
                    seam: Seq::new((new_num_chunks * new_num_chunks) as nat, |c: int| false),
                    undo: Seq::empty(),
                    redo: Seq::empty(),
                    edited: Seq::empty(),
                    painted: Seq::empty(),
                    ..m
                };
                let corners = terrain_triangles(
                    final(self)@.chunk_vertices,
                    final(self)@.chunk_indices,
                    all_chunks(sized.chunks()),
                    sized.chunk_size,
                    sized.num_chunks,
                    sized.chunks(),
                );
                &&& final(self)@ == (TerrainModel {
                    chunk_vertices: final(self)@.chunk_vertices,
                    chunk_indices: final(self)@.chunk_indices,
                    remeshed: final(self)@.remeshed,
                    terrain_vertices: welded_points(corners),
                    terrain_indices: welded_indices(corners),
                    ..sized
                })
                &&& forall|c: int|
                    0 <= c < sized.chunks() ==> (#[trigger] final(self)@.chunk_vertices[c])@
                        == chunk_points(
                        sized.heights,
                        c,
                        sized.chunk_size,
                        sized.num_chunks,
                        sized.lods,
                    ) && final(self)@.chunk_indices[c]@ == chunk_corners(
                        sized.heights,
                        c,
                        sized.chunk_size,
                        sized.num_chunks,
                        sized.lods,
                    )
            }),
    {
        proof {
            lemma_sizes(self@.chunk_size, self@.num_chunks);
            lemma_sizes(new_chunk_size as int, new_num_chunks as int);
        }
        let new_side: usize = new_chunk_size as usize * new_num_chunks as usize;
        let change: i64 = new_side as i64 - self.map_size as i64;
        if change == 0 {
            return ;
        }
        let half: i64 = if change >= 0 {
            change / 2
        } else {
            -((-change) / 2)
        };
        let off_x: i64 = if x_move == 1 {
            half
        } else if x_move == 2 {
            change
        } else {
            0
        };
        let off_z: i64 = if z_move == 1 {
            half
        } else if z_move == 2 {
            change
        } else {
            0
        };
        let new_heights = resample(&self.heights, self.map_size, new_side, off_x, off_z, 0i32);
        let new_colors = resample(&self.vertex_colors, self.map_size, new_side, off_x, off_z, 0usize);
        let nc: usize = new_num_chunks as usize;
        let lists = empty_lists(nc * nc);
        proof {
            assert forall|i: int| 0 <= i < new_colors@.len() implies (#[trigger] new_colors@[i])
                < self@.palette.len() by {
                let x = i % (new_side as int) - off_x;
                let z = i / (new_side as int) - off_z;
                if in_grid(self@.side(), x, z) {
                    lemma_grid_index(self@.side(), x, z);
                }
            }
        }
        self.heights = new_heights;
        self.vertex_colors = new_colors;
        self.chunk_size = new_chunk_size as usize;
        self.num_chunks = nc;
        self.map_size = new_side;
        self.chunk_vertices = lists.0;
        self.chunk_indices = lists.1;
        self.chunk_lod = zero_indices(nc * nc);
        self.chunks_at_seam = HashSet::new();
        self.undo_stack = Vec::new();
        self.redo_stack = Vec::new();
        self.edited_positions = EditLog::new(new_side * new_side);
        self.edited_colors = EditLog::new(new_side * new_side);
        self.terrain_vertices = Vec::new();
        self.terrain_indices = Vec::new();
        proof {
            assert(self@.undo =~= Seq::empty());
            assert(self@.redo =~= Seq::empty());
            assert(self@.seam =~= Seq::new(
                (new_num_chunks * new_num_chunks) as nat,
                |c: int| false,
            ));
        }
        self.update_all_chunks();
        self.update_terrain_arrays();
    }
}

/// The height of the first among the first `n` of `cells` that the stroke has not changed yet.
pub open spec fn first_fresh(
    cells: Seq<(i32, i32, i32)>,
    edited: Seq<(usize, i32)>,
    side: int,
    n: int,
) -> Option<i32>
    decreases n,
{
    if n <= 0 {
        None
    } else {
        match first_fresh(cells, edited, side, n - 1) {
            Some(h) => Some(h),
            None => if names_cell(edited, cells[n - 1].2 * side + cells[n - 1].0) {
                None
            } else {
                Some(cells[n - 1].1)
            },
        }
    }
}

/// The faces of a triangle list for a file that counts vertices from 1 and
/// winds its faces the other way round: for each triangle its three indices,
/// last first, each one more.
pub open spec fn turned_faces(indices: Seq<usize>) -> Seq<(usize, usize, usize)> {
    Seq::new(
        indices.len() / 3,
        |t: int|
            (
                (indices[3 * t + 2] + 1) as usize,
                (indices[3 * t + 1] + 1) as usize,
                (indices[3 * t] + 1) as usize,
            ),
    )
}

impl TerrainUtils {
    /// The height of the first cell under a brush of size `radius` at
    /// `(global_x, global_z)` that the stroke has not changed yet, where the
    /// brush would begin a stroke if none is in progress.
    #[verifier::loop_isolation(false)]
    pub fn first_unedited_height(&self, global_x: i32, global_z: i32, radius: i32) -> (h: Option<
        i32,
    >)
        requires
            self.wf(),
        ensures
            ({
                let cells = brush_cells(
                    self@.heights,
                    self@.side(),
                    global_x as int,
                    global_z as int,
                    radius as int,
                );
                h == first_fresh(cells, stroke_begun(self@).edited, self@.side(), cells.len() as int)
            }),
    {
        proof {
            lemma_sizes(self@.chunk_size, self@.num_chunks);
        }
        let cells = get_grid_positions_in_radius(
            &self.heights,
            self.map_size,
            global_x,
            global_z,
            radius,
        );
        let ghost edited = stroke_begun(self@).edited;
        let mut k: usize = 0;
        while k < cells.len()
            invariant
                k <= cells@.len(),
                self.wf(),
                1 <= self.map_size == self@.side(),
                self.map_size * self.map_size <= usize::MAX,
                edited == stroke_begun(self@).edited,
                cells_of_grid(cells@, self@.heights, self@.side()),
                first_fresh(cells@, edited, self@.side(), k as int) is None,
            decreases cells@.len() - k,
        {
            let cell = cells[k];
            proof {
                assert(in_grid(self@.side(), cells@[k as int].0 as int, cells@[k as int].2 as int));
                lemma_grid_index(self.map_size as int, cell.0 as int, cell.2 as int);
            }
            let place: usize = cell.2 as usize * self.map_size + cell.0 as usize;
            let fresh: bool = !self.is_drawing || !self.edited_positions.contains_key(place);
            if fresh {
                proof {
                    assert(!names_cell(edited, place as int));
                    assert(first_fresh(cells@, edited, self@.side(), k + 1) == Some(cell.1));
                    lemma_first_fresh_stays(cells@, edited, self@.side(), k + 1, cells@.len() as int);
                }
                return Some(cell.1);
            }
            k += 1;
        }
        None
    }

    /// The faces of the terrain for a file that counts vertices from 1 and
    /// winds its faces the other way round.
    #[verifier::loop_isolation(false)]
    pub fn obj_faces(&self) -> (faces: Vec<(usize, usize, usize)>)
        requires
            self.wf(),
        ensures
            faces@ == turned_faces(self@.terrain_indices),
    {
        let ghost want = turned_faces(self@.terrain_indices);
        let mut faces: Vec<(usize, usize, usize)> = Vec::new();
        let n: usize = self.terrain_indices.len() / 3;
        let mut t: usize = 0;
        while t < n
            invariant
                t <= n,
                n == self.terrain_indices@.len() / 3,
                self.wf(),
                want == turned_faces(self@.terrain_indices),
                faces@ == want.subrange(0, t as int),
            decreases n - t,
        {
            proof {
                assert(self.terrain_indices@.len() == self.terrain_indices.len());
                assert(3 * n <= self.terrain_indices@.len());
                assert(3 * t + 2 < self.terrain_indices@.len());
                assert(self.terrain_vertices@.len() == self.terrain_vertices.len());
                assert(self.terrain_indices@[3 * t as int] < self.terrain_vertices@.len());
                assert(self.terrain_indices@[3 * t + 1] < self.terrain_vertices@.len());
                assert(self.terrain_indices@[3 * t + 2] < self.terrain_vertices@.len());
            }
            let a: usize = self.terrain_indices[3 * t + 2];
            let b: usize = self.terrain_indices[3 * t + 1];
            let c: usize = self.terrain_indices[3 * t];
            faces.push((a + 1, b + 1, c + 1));
            assert(faces@ =~= want.subrange(0, t + 1));
            t += 1;
        }
        assert(want.subrange(0, t as int) =~= want);
        faces
    }

    /// The vertex list of the terrain.
    pub fn terrain_vertex_list(&self) -> (v: Vec<Point3>)
        ensures
            v@ == self@.terrain_vertices,
    {
        let list = &self.terrain_vertices;
        let mut v: Vec<Point3> = Vec::new();
        let mut i: usize = 0;
        while i < list.len()
            invariant
                i <= list@.len(),
                v@ == list@.subrange(0, i as int),
            decreases list@.len() - i,
        {
            v.push(list[i]);
            assert(v@ =~= list@.subrange(0, i + 1));
            i += 1;
        }
        assert(list@.subrange(0, i as int) =~= list@);
        v
    }

    /// The index list of the terrain.
    pub fn terrain_index_list(&self) -> (v: Vec<usize>)
        ensures
            v@ == self@.terrain_indices,
    {
        self.terrain_indices.clone()
    }

    /// Replaces the heights by `heights`, where that list has the length of the grid.
    pub fn set_heights(&mut self, heights: &Vec<i32>)
        requires
            old(self).wf(),
        ensures
            final(self).wf(),
            final(self)@ == (TerrainModel {
                heights: if heights@.len() == old(self)@.cells() {
                    heights@
                } else {
                    old(self)@.heights
                },
                ..old(self)@
            }),
    {
        if heights.len() == self.heights.len() {
            self.heights = heights.clone();
        }
    }
}

/// Once a cell is found, looking at more cells finds the same one.
pub proof fn lemma_first_fresh_stays(
    cells: Seq<(i32, i32, i32)>,
    edited: Seq<(usize, i32)>,
    side: int,
    n: int,
    m: int,
)
    requires
        n <= m,
        first_fresh(cells, edited, side, n) is Some,
    ensures
        first_fresh(cells, edited, side, m) == first_fresh(cells, edited, side, n),
    decreases m - n,
{
    if n < m {
        lemma_first_fresh_stays(cells, edited, side, n, m - 1);
    }
}

/// Whether the cell `(gx, gz)` lies in the grid and within `radius` cells of
/// `(x, z)` along both axes.
pub open spec fn cell_near(side: int, gx: int, gz: int, x: int, z: int, radius: int) -> bool {
    in_grid(side, gx, gz) && x - radius <= gx <= x + radius && z - radius <= gz <= z + radius
}

/// Whether chunk `chunk` holds a cell of the grid within `radius` cells of
/// `(x, z)` along both axes.
pub open spec fn under_brush(
    chunk: int,
    x: int,
    z: int,
    radius: int,
    chunk_size: int,
    num_chunks: int,
) -> bool {
    exists|gx: int, gz: int|
        cell_near(chunk_size * num_chunks, gx, gz, x, z, radius) && #[trigger] chunk_of(
            gx,
            gz,
            chunk_size,
            num_chunks,
        ) == chunk
}

/// The numbers of the flags that are set, in rising order.
pub fn flagged(flags: &Vec<bool>) -> (ids: Vec<usize>)
    ensures
        forall|c: int| 0 <= c < flags@.len() ==> (flags@[c] <==> ids@.contains(c as usize)),
        forall|i: int| 0 <= i < ids@.len() ==> (#[trigger] ids@[i]) < flags@.len(),
        forall|i: int, j: int| 0 <= i < j < ids@.len() ==> ids@[i] < ids@[j],
{
    let mut ids: Vec<usize> = Vec::new();
    let mut c: usize = 0;
    while c < flags.len()
        invariant
            c <= flags@.len(),
            forall|k: int| 0 <= k < flags@.len() ==> ((k < c && flags@[k]) <==> ids@.contains(k as usize)),
            forall|i: int| 0 <= i < ids@.len() ==> (#[trigger] ids@[i]) < c,
            forall|i: int, j: int| 0 <= i < j < ids@.len() ==> ids@[i] < ids@[j],
        decreases flags@.len() - c,
    {
        if flags[c] {
            let ghost before = ids@;
            ids.push(c);
            proof {
                assert(ids@[before.len() as int] == c);
                assert forall|k: int| 0 <= k < flags@.len() implies ((k < c + 1 && flags@[k])
                    <==> ids@.contains(k as usize)) by {
                    if before.contains(k as usize) {
                        let i = choose|i: int| 0 <= i < before.len() && before[i] == k as usize;
                        assert(ids@[i] == k as usize);
                    }
                    if ids@.contains(k as usize) && k != c {
                        let i = choose|i: int| 0 <= i < ids@.len() && ids@[i] == k as usize;
                        assert(before[i] == k as usize);
                    }
                }
            }
        }
        c += 1;
    }
    ids
}

/// Whether chunk `chunk` holds one of the cells `(x0, b)` to `(x_end - 1, b)`.
pub open spec fn row_reaches(chunk: int, x0: int, x_end: int, b: int, chunk_size: int, num_chunks: int) -> bool {
    exists|a: int| x0 <= a < x_end && #[trigger] chunk_of(a, b, chunk_size, num_chunks) == chunk
}

/// Whether chunk `chunk` holds a cell of the rows `z0` to `z_end - 1` between the columns `x0` and `x1`.
pub open spec fn rows_reach(
    chunk: int,
    x0: int,
    x1: int,
    z0: int,
    z_end: int,
    chunk_size: int,
    num_chunks: int,
) -> bool {
    exists|b: int| z0 <= b < z_end && #[trigger] row_reaches(chunk, x0, x1 + 1, b, chunk_size, num_chunks)
}

proof fn lemma_row_reaches_more(chunk: int, x0: int, x_end: int, b: int, cs: int, nc: int)
    requires
        x0 <= x_end,
    ensures
        row_reaches(chunk, x0, x_end + 1, b, cs, nc) <==> (row_reaches(chunk, x0, x_end, b, cs, nc)
            || chunk_of(x_end, b, cs, nc) == chunk),
{
    if row_reaches(chunk, x0, x_end, b, cs, nc) {
        let a = choose|a: int| x0 <= a < x_end && #[trigger] chunk_of(a, b, cs, nc) == chunk;
        assert(x0 <= a < x_end + 1 && chunk_of(a, b, cs, nc) == chunk);
    }
    if chunk_of(x_end, b, cs, nc) == chunk {
        assert(x0 <= x_end < x_end + 1 && chunk_of(x_end, b, cs, nc) == chunk);
    }
    if row_reaches(chunk, x0, x_end + 1, b, cs, nc) {
        let a = choose|a: int| x0 <= a < x_end + 1 && #[trigger] chunk_of(a, b, cs, nc) == chunk;
        if a < x_end {
            assert(x0 <= a < x_end && chunk_of(a, b, cs, nc) == chunk);
        }
    }
}

proof fn lemma_rows_reach_more(chunk: int, x0: int, x1: int, z0: int, z_end: int, cs: int, nc: int)
    requires
        z0 <= z_end,
    ensures
        rows_reach(chunk, x0, x1, z0, z_end + 1, cs, nc) <==> (rows_reach(
            chunk,
            x0,
            x1,
            z0,
            z_end,
            cs,
            nc,
        ) || row_reaches(chunk, x0, x1 + 1, z_end, cs, nc)),
{
    if rows_reach(chunk, x0, x1, z0, z_end, cs, nc) {
        let b = choose|b: int| z0 <= b < z_end && #[trigger] row_reaches(chunk, x0, x1 + 1, b, cs, nc);
        assert(z0 <= b < z_end + 1 && row_reaches(chunk, x0, x1 + 1, b, cs, nc));
    }
    if row_reaches(chunk, x0, x1 + 1, z_end, cs, nc) {
        assert(z0 <= z_end < z_end + 1 && row_reaches(chunk, x0, x1 + 1, z_end, cs, nc));
    }
    if rows_reach(chunk, x0, x1, z0, z_end + 1, cs, nc) {
        let b = choose|b: int|
            z0 <= b < z_end + 1 && #[trigger] row_reaches(chunk, x0, x1 + 1, b, cs, nc);
        if b < z_end {
            assert(z0 <= b < z_end && row_reaches(chunk, x0, x1 + 1, b, cs, nc));
        }
    }
}

/// An empty rectangle reaches no chunk.
proof fn lemma_empty_rows(chunk: int, x0: int, x1: int, z0: int, z1: int, cs: int, nc: int)
    requires
        x0 > x1 || z0 > z1,
    ensures
        !rows_reach(chunk, x0, x1, z0, z1 + 1, cs, nc),
{
    if rows_reach(chunk, x0, x1, z0, z1 + 1, cs, nc) {
        let b = choose|b: int| z0 <= b < z1 + 1 && #[trigger] row_reaches(chunk, x0, x1 + 1, b, cs, nc);
        let a = choose|a: int| x0 <= a < x1 + 1 && #[trigger] chunk_of(a, b, cs, nc) == chunk;
    }
}

/// The cells within a radius are those of a rectangle of the grid.
proof fn lemma_under_brush(
    chunk: int,
    x: int,
    z: int,
    radius: int,
    cs: int,
    nc: int,
    x0: int,
    x1: int,
    z0: int,
    z1: int,
)
    requires
        x0 == (if x - radius < 0 { 0 } else { x - radius }),
        z0 == (if z - radius < 0 { 0 } else { z - radius }),
        x1 == (if x + radius > cs * nc - 1 { cs * nc - 1 } else { x + radius }),
        z1 == (if z + radius > cs * nc - 1 { cs * nc - 1 } else { z + radius }),
    ensures
        under_brush(chunk, x, z, radius, cs, nc) <==> rows_reach(chunk, x0, x1, z0, z1 + 1, cs, nc),
{
    if under_brush(chunk, x, z, radius, cs, nc) {
        let (a, b) = choose|a: int, b: int|
            cell_near(cs * nc, a, b, x, z, radius) && #[trigger] chunk_of(a, b, cs, nc) == chunk;
        assert(x0 <= a < x1 + 1 && chunk_of(a, b, cs, nc) == chunk);
        assert(row_reaches(chunk, x0, x1 + 1, b, cs, nc));
        assert(z0 <= b < z1 + 1);
    }
    if rows_reach(chunk, x0, x1, z0, z1 + 1, cs, nc) {
        let b = choose|b: int| z0 <= b < z1 + 1 && #[trigger] row_reaches(chunk, x0, x1 + 1, b, cs, nc);
        let a = choose|a: int| x0 <= a < x1 + 1 && #[trigger] chunk_of(a, b, cs, nc) == chunk;
        assert(cell_near(cs * nc, a, b, x, z, radius));
        assert(chunk_of(a, b, cs, nc) == chunk);
    }
}

impl TerrainUtils {
    /// Flags the chunks that hold a cell of the rectangle from `(x0, z0)` to `(x1, z1)`.
    #[verifier::loop_isolation(false)]
    fn flag_rectangle(&self, x0: usize, x1: usize, z0: usize, z1: usize) -> (flags: Vec<bool>)
        requires
            self.wf(),
            x0 <= x1 < self@.side(),
            z0 <= z1 < self@.side(),
        ensures
            flags@.len() == self@.chunks(),
            forall|c: int|
                0 <= c < flags@.len() ==> ((#[trigger] flags@[c]) <==> rows_reach(
                    c,
                    x0 as int,
                    x1 as int,
                    z0 as int,
                    z1 + 1,
                    self@.chunk_size,
                    self@.num_chunks,
                )),
    {
        proof {
            lemma_sizes(self@.chunk_size, self@.num_chunks);
        }
        let ghost cs = self@.chunk_size;
        let ghost nc = self@.num_chunks;
        let mut flags: Vec<bool> = no_flags(self.num_chunks * self.num_chunks);
        let mut gz: usize = z0;
        while gz <= z1
            invariant
                z0 <= gz <= z1 + 1,
                self.wf(),
                cs == self@.chunk_size,
                nc == self@.num_chunks,
                x0 <= x1 < self@.side(),
                z1 < self@.side(),
                self@.side() <= i32::MAX,
                flags@.len() == self@.chunks(),
                forall|c: int|
                    0 <= c < flags@.len() ==> ((#[trigger] flags@[c]) <==> rows_reach(
                        c,
                        x0 as int,
                        x1 as int,
                        z0 as int,
                        gz as int,
                        cs,
                        nc,
                    )),
            decreases z1 + 1 - gz,
        {
            let mut gx: usize = x0;
            let ghost at_row = flags@;
            while gx <= x1
                invariant
                    x0 <= gx <= x1 + 1,
                    z0 <= gz <= z1,
                    self.wf(),
                    cs == self@.chunk_size,
                    nc == self@.num_chunks,
                    x1 < self@.side(),
                    z1 < self@.side(),
                    self@.side() <= i32::MAX,
                    flags@.len() == self@.chunks(),
                    at_row.len() == flags@.len(),
                    forall|c: int|
                        0 <= c < flags@.len() ==> ((#[trigger] flags@[c]) <==> (at_row[c] || row_reaches(
                            c,
                            x0 as int,
                            gx as int,
                            gz as int,
                            cs,
                            nc,
                        ))),
                decreases x1 + 1 - gx,
            {
                let ghost before = flags@;
                let c: usize = chunk_containing(gx, gz, self.chunk_size, self.num_chunks);
                flags[c] = true;
                proof {
                    assert forall|k: int| 0 <= k < flags@.len() implies ((#[trigger] flags@[k]) <==> (at_row[k]
                        || row_reaches(k, x0 as int, gx + 1, gz as int, cs, nc))) by {
                        lemma_row_reaches_more(k, x0 as int, gx as int, gz as int, cs, nc);
                        assert(before[k] <==> (at_row[k] || row_reaches(
                            k,
                            x0 as int,
                            gx as int,
                            gz as int,
                            cs,
                            nc,
                        )));
                        assert(c == chunk_of(gx as int, gz as int, cs, nc));
                        assert(flags@[k] == (before[k] || k == c));
                    }
                }
                gx += 1;
            }
            proof {
                assert forall|c: int| 0 <= c < flags@.len() implies ((#[trigger] flags@[c]) <==> rows_reach(
                    c,
                    x0 as int,
                    x1 as int,
                    z0 as int,
                    gz + 1,
                    cs,
                    nc,
                )) by {
                    lemma_rows_reach_more(c, x0 as int, x1 as int, z0 as int, gz as int, cs, nc);
                    assert(at_row[c] <==> rows_reach(
                        c,
                        x0 as int,
                        x1 as int,
                        z0 as int,
                        gz as int,
                        cs,
                        nc,
                    ));
                    assert(gx == x1 + 1);
                    assert(flags@[c] <==> (at_row[c] || row_reaches(
                        c,
                        x0 as int,
                        gx as int,
                        gz as int,
                        cs,
                        nc,
                    )));
                }
            }
            gz += 1;
        }
        flags
    }

    /// The chunks that hold a cell within `radius` cells of `(x, z)` along
    /// both axes, in rising order: those that a paint brush there can reach.
    pub fn chunks_under_brush(&self, x: i32, z: i32, radius: i32) -> (ids: Vec<usize>)
        requires
            self.wf(),
        ensures
            forall|c: int|
                0 <= c < self@.chunks() ==> (ids@.contains(c as usize) <==> under_brush(
                    c,
                    x as int,
                    z as int,
                    radius as int,
                    self@.chunk_size,
                    self@.num_chunks,
                )),
            forall|i: int| 0 <= i < ids@.len() ==> (#[trigger] ids@[i]) < self@.chunks(),
            forall|i: int, j: int| 0 <= i < j < ids@.len() ==> ids@[i] < ids@[j],
    {
        proof {
            lemma_sizes(self@.chunk_size, self@.num_chunks);
        }
        let r: i64 = radius as i64;
        let last: i64 = self.map_size as i64 - 1;
        let x0: i64 = if x as i64 - r < 0 { 0 } else { x as i64 - r };
        let x1: i64 = if x as i64 + r > last { last } else { x as i64 + r };
        let z0: i64 = if z as i64 - r < 0 { 0 } else { z as i64 - r };
        let z1: i64 = if z as i64 + r > last { last } else { z as i64 + r };
        let flags: Vec<bool> = if x0 <= x1 && z0 <= z1 {
            self.flag_rectangle(x0 as usize, x1 as usize, z0 as usize, z1 as usize)
        } else {
            let none = no_flags(self.num_chunks * self.num_chunks);
            none
        };
        let ids = flagged(&flags);
        proof {
            assert forall|c: int| 0 <= c < self@.chunks() implies (ids@.contains(c as usize)
                <==> under_brush(
                c,
                x as int,
                z as int,
                radius as int,
                self@.chunk_size,
                self@.num_chunks,
            )) by {
                assert(flags@[c] <==> ids@.contains(c as usize));
                lemma_under_brush(
                    c,
                    x as int,
                    z as int,
                    radius as int,
                    self@.chunk_size,
                    self@.num_chunks,
                    x0 as int,
                    x1 as int,
                    z0 as int,
                    z1 as int,
                );
                if !(x0 <= x1 && z0 <= z1) {
                    lemma_empty_rows(
                        c,
                        x0 as int,
                        x1 as int,
                        z0 as int,
                        z1 as int,
                        self@.chunk_size,
                        self@.num_chunks,
                    );
                }
            }
        }
        ids
    }
}

/// The value at `(x, z)` of a row-major grid of side `side`.
pub open spec fn grid_at_wide(values: Seq<i64>, side: int, x: int, z: int) -> i64 {
    values[z * side + x]
}

/// Number of vertices of the first `n` lists together.
pub open spec fn total_vertices(lists: Seq<Vec<Point3>>, n: int) -> int
    decreases n,
{
    if n <= 0 {
        0
    } else {
        total_vertices(lists, n - 1) + lists[n - 1]@.len()
    }
}

/// A count held within `u64`.
pub open spec fn clamp_u64(n: int) -> u64 {
    if n > u64::MAX {
        u64::MAX
    } else {
        n as u64
    }
}

/// A count held within `i32`.
pub open spec fn clamp_count(n: int) -> i32 {
    if n > i32::MAX {
        i32::MAX
    } else {
        n as i32
    }
}

} // verus!
