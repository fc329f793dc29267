//! A terrain session without colors and levels of detail, with a height lock
//! of its own: the first cell that a directional stroke meets sets the height
//! that the lock holds until the stroke ends.

use crate::brush::{brush_cells, in_grid};
use crate::grid::{grid_at, sample_at};
use crate::stroke_model::{brush_outcome, BrushSize};
use crate::structs::{Color8, Point3};
use crate::mesh_cache::{terrain_triangles, welded_indices, welded_points};
use crate::terrain_utils::{
    all_chunks, clamp_count, first_fresh, grid_at_wide, initial_model, rebuilt, resize_offset,
    resized, sizes_fit, stroke_applied, stroke_begun, stroke_start, total_vertices, turned_faces,
    TerrainModel, TerrainUtils,
};
use vstd::prelude::*;

verus! {

/// The height that stands for "no height locked yet".
pub const NO_LOCK: i32 = -1;

/// The height that the lock holds while a brush is applied at `(gx, gz)`:
/// the one it held already, or, where it held none, the height of the first
/// cell that the brush meets.  For a directional brush that is the first
/// cell under the brush that the stroke has not changed yet; for the
/// smoothing brush, with the lock on, the cell under the brush.
pub open spec fn lock_for(
    m: TerrainModel,
    lock: i32,
    lock_on: bool,
    gx: int,
    gz: int,
    size: BrushSize,
    mode: i32,
) -> i32 {
    if lock != NO_LOCK {
        lock
    } else if mode == 5 {
        if lock_on && in_grid(m.side(), gx, gz) {
            grid_at(m.heights, m.side(), gx, gz)
        } else {
            NO_LOCK
        }
    } else {
        let cells = brush_cells(m.heights, m.side(), gx, gz, size.x as int);
        match first_fresh(cells, stroke_begun(m).edited, m.side(), cells.len() as int) {
            Some(h) => h,
            None => NO_LOCK,
        }
    }
}

/// A terrain session with a height lock of its own.
pub struct TerrainNode {
    core: TerrainUtils,
    locked_height: i32,
    is_height_locked: bool,
}

impl TerrainNode {
    /// The state of the session.
    pub closed spec fn model(&self) -> TerrainModel {
        self.core@
    }

    /// The height that the lock holds; `NO_LOCK` where it holds none.
    pub closed spec fn lock_height(&self) -> i32 {
        self.locked_height
    }

    /// Whether the lock is on.
    pub closed spec fn lock_on(&self) -> bool {
        self.is_height_locked
    }

    /// The invariant of the session.
    pub closed spec fn wf(&self) -> bool {
        self.core.wf()
    }

    /// What the invariant says of the state.
    pub proof fn lemma_wf(&self)
        requires
            self.wf(),
        ensures
            self.model().wf(),
    {
        self.core.lemma_wf();
    }

    /// A session over 4 by 4 chunks of side 16, of height 0, with the lock off.
    pub fn new() -> (t: Self)
        ensures
            t.wf(),
            t.model().chunk_size == 16,
            t.model().num_chunks == 4,
            t.model().heights == Seq::new(4096, |i: int| 0i32),
            t.model().undo.len() == 0,
            t.model().redo.len() == 0,
            !t.model().drawing,
            t.lock_height() == NO_LOCK,
            !t.lock_on(),
    {
        let mut core = TerrainUtils::new();
        assert(sizes_fit(16, 4)) by (nonlinear_arith);
        let none: Vec<i32> = Vec::new();
        let colors: Vec<Color8> = Vec::new();
        core.init_params(4, 16, &none, &colors, &none);
        assert((16 * 4) * (16 * 4) == 4096) by (nonlinear_arith);
        TerrainNode { core, locked_height: NO_LOCK, is_height_locked: false }
    }

    /// Sets the session up anew over `num_chunks` by `num_chunks` chunks of
    /// side `chunk_size`, of height 0.  Sizes below 1 count as 1.
    pub fn init_params(&mut self, num_chunks: i64, chunk_size: i64)
        requires
            sizes_fit(
                if chunk_size < 1 {
                    1
                } else {
                    chunk_size as int
                },
                if num_chunks < 1 {
                    1
                } else {
                    num_chunks as int
                },
            ),
        ensures
            final(self).wf(),
            final(self).lock_height() == old(self).lock_height(),
            final(self).lock_on() == old(self).lock_on(),
            ({
                let m = initial_model(
                    if chunk_size < 1 {
                        1
                    } else {
                        chunk_size as int
                    },
                    if num_chunks < 1 {
                        1
                    } else {
                        num_chunks as int
                    },
                    Seq::empty(),
                    Seq::empty(),
                    Seq::empty(),
                    old(self).model().shade_smooth,
                    old(self).model().active_chunk,
                );
                final(self).model() == (TerrainModel {
                    chunk_vertices: final(self).model().chunk_vertices,
                    chunk_indices: final(self).model().chunk_indices,
                    ..m
                })
            }),
    {
        let none: Vec<i32> = Vec::new();
        let colors: Vec<Color8> = Vec::new();
        self.core.init_params(num_chunks, chunk_size, &none, &colors, &none);
    }

    /// Sets every height to 0.
    pub fn clear_terrain(&mut self)
        requires
            old(self).wf(),
        ensures
            final(self).wf(),
            final(self).lock_height() == old(self).lock_height(),
            final(self).lock_on() == old(self).lock_on(),
            final(self).model() == (TerrainModel {
                heights: Seq::new(old(self).model().cells() as nat, |i: int| 0i32),
                ..old(self).model()
            }),
    {
        self.core.clear_heights();
    }

    /// The heights of the grid, row by row.
    pub fn get_heights(&self) -> (v: Vec<i32>)
        ensures
            v@ == self.model().heights,
    {
        self.core.get_heights()
    }

    /// Replaces the heights by `heights`, where that list has the length of the grid.
    pub fn set_heights(&mut self, heights: &Vec<i32>)
        requires
            old(self).wf(),
        ensures
            final(self).wf(),
            final(self).lock_height() == old(self).lock_height(),
            final(self).lock_on() == old(self).lock_on(),
            final(self).model() == (TerrainModel {
                heights: if heights@.len() == old(self).model().cells() {
                    heights@
                } else {
                    old(self).model().heights
                },
                ..old(self).model()
            }),
    {
        self.core.set_heights(heights);
    }

    /// The height of the cell nearest to `(global_x, global_z)` in the grid.
    pub fn get_height(&self, global_x: i32, global_z: i32) -> (h: i32)
        requires
            self.wf(),
        ensures
            h == sample_at(
                self.model().heights,
                self.model().side(),
                if global_x < 0 {
                    0
                } else {
                    global_x as int
                },
                if global_z < 0 {
                    0
                } else {
                    global_z as int
                },
            ),
    {
        self.core.get_height(global_x, global_z)
    }

    pub fn get_is_height_locked(&self) -> (r: bool)
        ensures
            r == self.lock_on(),
    {
        self.is_height_locked
    }

    pub fn set_is_height_locked(&mut self, value: bool)
        ensures
            final(self).lock_on() == value,
            final(self).lock_height() == old(self).lock_height(),
            final(self).model() == old(self).model(),
            old(self).wf() ==> final(self).wf(),
    {
        self.is_height_locked = value;
    }

    pub fn get_locked_height(&self) -> (r: i32)
        ensures
            r == self.lock_height(),
    {
        self.locked_height
    }

    pub fn set_locked_height(&mut self, value: i32)
        ensures
            final(self).lock_height() == value,
            final(self).lock_on() == old(self).lock_on(),
            final(self).model() == old(self).model(),
            old(self).wf() ==> final(self).wf(),
    {
        self.locked_height = value;
    }

    /// Whether `(global_x, global_z)` is a cell of the grid.
    pub fn in_bounds(&self, global_x: i32, global_z: i32) -> (r: bool)
        requires
            self.wf(),
        ensures
            r == in_grid(self.model().side(), global_x as int, global_z as int),
    {
        self.core.in_bounds(global_x, global_z)
    }

    /// Number of vertices of all chunk lists together, held within `i32`.
    pub fn get_vertex_count(&self) -> (n: i32)
        requires
            self.wf(),
        ensures
            n == clamp_count(
                total_vertices(
                    self.model().chunk_vertices,
                    self.model().chunk_vertices.len() as int,
                ),
            ),
    {
        self.core.get_vertex_count()
    }

    /// Ends the stroke, as `TerrainUtils::end_stroke` does, and lets go of the locked height.
    pub fn end_stroke(&mut self)
        requires
            old(self).wf(),
        ensures
            final(self).wf(),
            final(self).lock_height() == NO_LOCK,
            final(self).lock_on() == old(self).lock_on(),
            ({
                let m = old(self).model();
                let ended = TerrainModel {
                    drawing: false,
                    undo: if m.edited.len() > 0 {
                        m.undo.push(crate::history::ActionModel::TerrainEdit(m.edited))
                    } else {
                        m.undo
                    },
                    edited: Seq::empty(),
                    seam: Seq::new(m.seam.len(), |c: int| false),
                    ..m
                };
                &&& rebuilt(ended, final(self).model(), m.seam)
                &&& final(self).model() == (TerrainModel {
                    chunk_vertices: final(self).model().chunk_vertices,
                    chunk_indices: final(self).model().chunk_indices,
                    remeshed: final(self).model().remeshed,
                    ..ended
                })
            }),
    {
        self.locked_height = NO_LOCK;
        self.core.end_stroke();
    }

    /// Applies the brush once at `(global_x, global_z)`, as
    /// `TerrainUtils::draw_at` does with the lock of this session; see `lock_for`.
    pub fn draw_at(
        &mut self,
        global_x: i32,
        global_z: i32,
        brush_size: BrushSize,
        brush_mode: i32,
        button_index: i32,
    ) -> (changed: bool)
        requires
            old(self).wf(),
        ensures
            final(self).wf(),
            final(self).lock_on() == old(self).lock_on(),
            final(self).lock_height() == lock_for(
                old(self).model(),
                old(self).lock_height(),
                old(self).lock_on(),
                global_x as int,
                global_z as int,
                brush_size,
                brush_mode,
            ),
            ({
                let begun = stroke_begun(old(self).model());
                let s = brush_outcome(
                    stroke_start(begun),
                    global_x as int,
                    global_z as int,
                    brush_size,
                    brush_mode,
                    button_index,
                    old(self).lock_on(),
                    final(self).lock_height(),
                    begun.chunk_size,
                    begun.num_chunks,
                );
                let applied = stroke_applied(begun, s);
                &&& s.dirty.len() == begun.chunks()
                &&& rebuilt(applied, final(self).model(), s.dirty)
                &&& final(self).model() == (TerrainModel {
                    chunk_vertices: final(self).model().chunk_vertices,
                    chunk_indices: final(self).model().chunk_indices,
                    remeshed: final(self).model().remeshed,
                    ..applied
                })
                &&& changed == (final(self).model().remeshed.len() > 0)
            }),
    {
        if self.locked_height == NO_LOCK {
            if brush_mode == 5 {
                if self.is_height_locked && self.core.in_bounds(global_x, global_z) {
                    self.locked_height = self.core.height(global_x, global_z);
                }
            } else {
                match self.core.first_unedited_height(global_x, global_z, brush_size.x) {
                    Some(h) => {
                        self.locked_height = h;
                    },
                    None => {},
                }
            }
        }
        self.core.draw_at(
            global_x,
            global_z,
            brush_size,
            brush_mode,
            button_index,
            self.is_height_locked,
            self.locked_height,
        )
    }

    /// Whether a step can be undone.
    pub fn can_undo(&self) -> (r: bool)
        ensures
            r == (self.model().undo.len() > 0),
    {
        self.core.can_undo()
    }

    /// Whether a step can be redone.
    pub fn can_redo(&self) -> (r: bool)
        ensures
            r == (self.model().redo.len() > 0),
    {
        self.core.can_redo()
    }

    /// Whether a stroke is in progress.
    pub fn is_drawing(&self) -> (r: bool)
        ensures
            r == self.model().drawing,
    {
        self.core.is_drawing()
    }

    /// Undoes the newest step, as `TerrainUtils::do_undo` does.
    pub fn do_undo(&mut self) -> (more: bool)
        requires
            old(self).wf(),
            !old(self).model().drawing,
        ensures
            final(self).wf(),
            final(self).lock_height() == old(self).lock_height(),
            final(self).lock_on() == old(self).lock_on(),
            more == (final(self).model().undo.len() > 0),
            old(self).model().undo.len() == 0 ==> final(self).model() == old(self).model(),
            old(self).model().undo.len() > 0 ==> ({
                let m = old(self).model().with_history(
                    crate::history::undo_step(old(self).model().history()),
                );
                &&& final(self).model() == (TerrainModel {
                    chunk_vertices: final(self).model().chunk_vertices,
                    chunk_indices: final(self).model().chunk_indices,
                    remeshed: final(self).model().remeshed,
                    ..m
                })
                &&& rebuilt(
                    m,
                    final(self).model(),
                    crate::terrain_utils::action_flags(
                        old(self).model().undo.last(),
                        old(self).model().chunks(),
                        old(self).model().chunk_size,
                        old(self).model().num_chunks,
                    ),
                )
            }),
    {
        self.core.do_undo()
    }

    /// Redoes the step undone last, as `TerrainUtils::do_redo` does.
    pub fn do_redo(&mut self) -> (more: bool)
        requires
            old(self).wf(),
            !old(self).model().drawing,
        ensures
            final(self).wf(),
            final(self).lock_height() == old(self).lock_height(),
            final(self).lock_on() == old(self).lock_on(),
            more == (final(self).model().redo.len() > 0),
            old(self).model().redo.len() == 0 ==> final(self).model() == old(self).model(),
            old(self).model().redo.len() > 0 ==> ({
                let m = old(self).model().with_history(
                    crate::history::redo_step(old(self).model().history()),
                );
                &&& final(self).model() == (TerrainModel {
                    chunk_vertices: final(self).model().chunk_vertices,
                    chunk_indices: final(self).model().chunk_indices,
                    remeshed: final(self).model().remeshed,
                    ..m
                })
                &&& rebuilt(
                    m,
                    final(self).model(),
                    crate::terrain_utils::action_flags(
                        old(self).model().redo.last(),
                        old(self).model().chunks(),
                        old(self).model().chunk_size,
                        old(self).model().num_chunks,
                    ),
                )
            }),
    {
        self.core.do_redo()
    }

    /// The chunks whose lists the last operation rebuilt, in rising order.
    pub fn remeshed_chunks(&self) -> (v: Vec<usize>)
        ensures
            v@ == self.model().remeshed,
    {
        self.core.remeshed_chunks()
    }

    /// The vertex list of chunk `chunk_id`.
    pub fn chunk_vertex_list(&self, chunk_id: usize) -> (v: Vec<Point3>)
        requires
            self.wf(),
            chunk_id < self.model().chunks(),
        ensures
            v@ == self.model().chunk_vertices[chunk_id as int]@,
    {
        self.core.chunk_vertex_list(chunk_id)
    }

    /// The index list of chunk `chunk_id`.
    pub fn chunk_index_list(&self, chunk_id: usize) -> (v: Vec<usize>)
        requires
            self.wf(),
            chunk_id < self.model().chunks(),
        ensures
            v@ == self.model().chunk_indices[chunk_id as int]@,
    {
        self.core.chunk_index_list(chunk_id)
    }

    /// Gives the grid new sizes, as `TerrainUtils::resize_terrain` does.
    pub fn resize_terrain(&mut self, new_chunk_size: i32, new_num_chunks: i32, x_move: i32, z_move: i32)
        requires
            old(self).wf(),
            sizes_fit(new_chunk_size as int, new_num_chunks as int),
        ensures
            final(self).wf(),
            final(self).lock_height() == old(self).lock_height(),
            final(self).lock_on() == old(self).lock_on(),
            new_chunk_size * new_num_chunks == old(self).model().side() ==> final(self).model()
                == old(self).model(),
            new_chunk_size * new_num_chunks != old(self).model().side() ==> ({
                let m = old(self).model();
                let new_side = new_chunk_size * new_num_chunks;
                let off_x = resize_offset(x_move, new_side - m.side());
                let off_z = resize_offset(z_move, new_side - m.side());
                &&& final(self).model().heights == resized(
                    m.heights,
                    m.side(),
                    new_side,
                    off_x,
                    off_z,
                    0i32,
                )
                &&& final(self).model().chunk_size == new_chunk_size
                &&& final(self).model().num_chunks == new_num_chunks
                &&& final(self).model().undo.len() == 0
                &&& final(self).model().redo.len() == 0
                &&& final(self).model().edited.len() == 0
                &&& final(self).model().drawing == m.drawing
            }),
    {
        self.core.resize_terrain(new_chunk_size, new_num_chunks, x_move, z_move);
    }

    /// Twice the height of the collision surface, plus one, over the grid
    /// points of the terrain, as `TerrainUtils::get_heights_for_collision` gives them.
    pub fn get_heights_for_collision(&self) -> (v: Vec<i64>)
        requires
            self.wf(),
        ensures
            v@.len() == (self.model().side() + 1) * (self.model().side() + 1),
            forall|x: int, z: int|
                0 <= x <= self.model().side() && 0 <= z <= self.model().side() ==> (
                #[trigger] grid_at_wide(v@, self.model().side() + 1, x, z)) == 2 * sample_at(
                    self.model().heights,
                    self.model().side(),
                    x,
                    z,
                ) + 1,
    {
        self.core.get_heights_for_collision()
    }

    /// Welds the lists of all chunks, in order, into the vertex and index
    /// lists of the terrain, as `TerrainUtils::update_terrain_arrays` does.
    pub fn update_terrain_arrays(&mut self)
        requires
            old(self).wf(),
        ensures
            final(self).wf(),
            final(self).lock_height() == old(self).lock_height(),
            final(self).lock_on() == old(self).lock_on(),
            ({
                let m = old(self).model();
                let corners = terrain_triangles(
                    m.chunk_vertices,
                    m.chunk_indices,
                    all_chunks(m.chunks()),
                    m.chunk_size,
                    m.num_chunks,
                    m.chunks(),
                );
                final(self).model() == (TerrainModel {
                    terrain_vertices: welded_points(corners),
                    terrain_indices: welded_indices(corners),
                    ..m
                })
            }),
    {
        self.core.update_terrain_arrays();
    }

    /// The vertex list of the terrain.
    pub fn terrain_vertex_list(&self) -> (v: Vec<Point3>)
        ensures
            v@ == self.model().terrain_vertices,
    {
        self.core.terrain_vertex_list()
    }

    /// The faces of the terrain for a file that counts vertices from 1 and
    /// winds its faces the other way round.
    pub fn obj_faces(&self) -> (faces: Vec<(usize, usize, usize)>)
        requires
            self.wf(),
        ensures
            faces@ == turned_faces(self.model().terrain_indices),
    {
        self.core.obj_faces()
    }

    /// Builds the lists of every chunk anew from the heights.
    pub fn generate_all_meshes(&mut self)
        requires
            old(self).wf(),
        ensures
            final(self).wf(),
            final(self).lock_height() == old(self).lock_height(),
            final(self).lock_on() == old(self).lock_on(),
            final(self).model() == (TerrainModel {
                chunk_vertices: final(self).model().chunk_vertices,
                chunk_indices: final(self).model().chunk_indices,
                remeshed: final(self).model().remeshed,
                ..old(self).model()
            }),
            rebuilt(
                old(self).model(),
                final(self).model(),
                Seq::new(old(self).model().chunks() as nat, |c: int| true),
            ),
    {
        self.core.update_all_chunks();
    }
}

} // verus!
