//! Meshing one chunk of a height grid.
//!
//! At full detail every cell of the chunk is marched level by level through
//! the span of its four corner columns; where a neighbouring chunk is coarser,
//! the vertices in the middle of a border edge are pulled to the middle of
//! that span.  At reduced detail a chunk is a regular grid of quads.

use crate::grid::{
    lemma_grid_index, lemma_side_bound, lemma_two_to_grows, sample, sample_at, two_to,
};
use crate::structs::Point3;
use crate::tables::{
    corner_of, corner_offset, corner_solid, edge_midpoint, march, row_entry, triangle_count,
    TRI_TABLE,
};
use vstd::prelude::*;

verus! {

/// Where a chunk lies in the grid, and on which of its borders the
/// neighbouring chunk is coarser.
#[derive(Clone, Copy, Debug)]
pub struct ChunkFrame {
    /// Side of the whole grid.
    pub side: usize,
    /// Side of the chunk.
    pub chunk_size: usize,
    /// First column of the chunk.
    pub offset_x: usize,
    /// First row of the chunk.
    pub offset_z: usize,
    /// The chunk before this one along z is coarser.
    pub top: bool,
    /// The chunk after this one along z is coarser.
    pub bottom: bool,
    /// The chunk before this one along x is coarser.
    pub left: bool,
    /// The chunk after this one along x is coarser.
    pub right: bool,
}

impl ChunkFrame {
    /// The chunk lies inside the grid, and the grid fits in an array.
    pub open spec fn wf(&self) -> bool {
        &&& 1 <= self.chunk_size
        &&& self.offset_x + self.chunk_size <= self.side
        &&& self.offset_z + self.chunk_size <= self.side
        &&& self.side <= u32::MAX
        &&& self.side * self.side <= usize::MAX
    }
}

/// Whether the chunk at `(row + d_row, col + d_col)` exists and has a greater
/// level of detail number, that is a coarser mesh, than the chunk at `(row, col)`.
pub open spec fn coarser_neighbour(
    lods: Seq<usize>,
    num_chunks: int,
    row: int,
    col: int,
    d_row: int,
    d_col: int,
) -> bool {
    let r = row + d_row;
    let c = col + d_col;
    0 <= r < num_chunks && 0 <= c < num_chunks && lods[r * num_chunks + c] > lods[row * num_chunks
        + col]
}

/// The frame of chunk `chunk_id` in a grid of `num_chunks` by `num_chunks`
/// chunks of side `chunk_size`; chunks are numbered row by row.
pub open spec fn frame_of(chunk_id: int, chunk_size: int, num_chunks: int, lods: Seq<usize>) -> ChunkFrame {
    let col = chunk_id % num_chunks;
    let row = chunk_id / num_chunks;
    ChunkFrame {
        side: (chunk_size * num_chunks) as usize,
        chunk_size: chunk_size as usize,
        offset_x: (col * chunk_size) as usize,
        offset_z: (row * chunk_size) as usize,
        top: coarser_neighbour(lods, num_chunks, row, col, -1, 0),
        bottom: coarser_neighbour(lods, num_chunks, row, col, 1, 0),
        left: coarser_neighbour(lods, num_chunks, row, col, 0, -1),
        right: coarser_neighbour(lods, num_chunks, row, col, 0, 1),
    }
}

/// The frame of a chunk that takes no notice of its neighbours.
pub open spec fn plain_frame_of(chunk_id: int, chunk_size: int, num_chunks: int) -> ChunkFrame {
    ChunkFrame {
        top: false,
        bottom: false,
        left: false,
        right: false,
        ..frame_of(chunk_id, chunk_size, num_chunks, Seq::empty())
    }
}

/// What a caller owes for a chunk of a grid: sizes of at least 1, a chunk
/// number inside the grid, and a grid that fits in an array.
pub open spec fn chunk_in_grid(chunk_id: int, chunk_size: int, num_chunks: int) -> bool {
    &&& 1 <= chunk_size
    &&& 1 <= num_chunks
    &&& 0 <= chunk_id < num_chunks * num_chunks
    &&& (chunk_size * num_chunks) * (chunk_size * num_chunks) <= usize::MAX
}

/// A chunk of a grid lies inside the grid.
pub proof fn lemma_chunk_place(chunk_id: int, chunk_size: int, num_chunks: int)
    requires
        chunk_in_grid(chunk_id, chunk_size, num_chunks),
    ensures
        0 <= chunk_id % num_chunks < num_chunks,
        0 <= chunk_id / num_chunks < num_chunks,
        1 <= chunk_size * num_chunks <= u32::MAX,
        (chunk_id % num_chunks) * chunk_size + chunk_size <= chunk_size * num_chunks,
        (chunk_id / num_chunks) * chunk_size + chunk_size <= chunk_size * num_chunks,
        0 <= (chunk_id % num_chunks) * chunk_size,
        0 <= (chunk_id / num_chunks) * chunk_size,
        num_chunks * num_chunks <= usize::MAX,
{
    let side = chunk_size * num_chunks;
    let col = chunk_id % num_chunks;
    let row = chunk_id / num_chunks;
    assert(side >= 1) by (nonlinear_arith)
        requires
            side == chunk_size * num_chunks,
            chunk_size >= 1,
            num_chunks >= 1,
    ;
    lemma_side_bound(side);
    assert(0 <= row < num_chunks) by (nonlinear_arith)
        requires
            0 <= chunk_id < num_chunks * num_chunks,
            row == chunk_id / num_chunks,
            num_chunks >= 1,
    ;
    assert(col * chunk_size + chunk_size <= side && 0 <= col * chunk_size) by (nonlinear_arith)
        requires
            0 <= col < num_chunks,
            side == chunk_size * num_chunks,
            chunk_size >= 1,
    ;
    assert(row * chunk_size + chunk_size <= side && 0 <= row * chunk_size) by (nonlinear_arith)
        requires
            0 <= row < num_chunks,
            side == chunk_size * num_chunks,
            chunk_size >= 1,
    ;
    assert(num_chunks * num_chunks <= side * side) by (nonlinear_arith)
        requires
            side == chunk_size * num_chunks,
            chunk_size >= 1,
            num_chunks >= 1,
    ;
}

/// The frame of a chunk that takes no notice of its neighbours.
pub fn plain_frame(chunk_id: usize, chunk_size: usize, num_chunks: usize) -> (f: ChunkFrame)
    requires
        chunk_in_grid(chunk_id as int, chunk_size as int, num_chunks as int),
    ensures
        f == plain_frame_of(chunk_id as int, chunk_size as int, num_chunks as int),
        f.wf(),
{
    proof {
        lemma_chunk_place(chunk_id as int, chunk_size as int, num_chunks as int);
    }
    let col: usize = chunk_id % num_chunks;
    let row: usize = chunk_id / num_chunks;
    ChunkFrame {
        side: chunk_size * num_chunks,
        chunk_size,
        offset_x: col * chunk_size,
        offset_z: row * chunk_size,
        top: false,
        bottom: false,
        left: false,
        right: false,
    }
}

/// Whether the chunk at `(row + d_row, col + d_col)` exists and is coarser
/// than the chunk at `(row, col)`; `d_row` and `d_col` are given plus one.
fn neighbour_is_coarser(
    lods: &Vec<usize>,
    num_chunks: usize,
    row: usize,
    col: usize,
    d_row_plus_one: usize,
    d_col_plus_one: usize,
) -> (r: bool)
    requires
        row < num_chunks,
        col < num_chunks,
        d_row_plus_one <= 2,
        d_col_plus_one <= 2,
        lods@.len() == num_chunks * num_chunks,
    ensures
        r == coarser_neighbour(
            lods@,
            num_chunks as int,
            row as int,
            col as int,
            d_row_plus_one - 1,
            d_col_plus_one - 1,
        ),
{
    if (d_row_plus_one == 0 && row == 0) || (d_col_plus_one == 0 && col == 0) {
        return false;
    }
    if (d_row_plus_one == 2 && row + 1 >= num_chunks) || (d_col_plus_one == 2 && col + 1
        >= num_chunks) {
        return false;
    }
    let r: usize = row + d_row_plus_one - 1;
    let c: usize = col + d_col_plus_one - 1;
    proof {
        lemma_grid_index(num_chunks as int, c as int, r as int);
        lemma_grid_index(num_chunks as int, col as int, row as int);
        assert(lods@.len() == lods.len());
    }
    lods[r * num_chunks + c] > lods[row * num_chunks + col]
}

/// The frame of a chunk, with a transition on each border whose neighbour is coarser.
pub fn frame_with_transitions(
    chunk_id: usize,
    chunk_size: usize,
    num_chunks: usize,
    lods: &Vec<usize>,
) -> (f: ChunkFrame)
    requires
        chunk_in_grid(chunk_id as int, chunk_size as int, num_chunks as int),
        lods@.len() == num_chunks * num_chunks,
    ensures
        f == frame_of(chunk_id as int, chunk_size as int, num_chunks as int, lods@),
        f.wf(),
{
    proof {
        lemma_chunk_place(chunk_id as int, chunk_size as int, num_chunks as int);
    }
    let col: usize = chunk_id % num_chunks;
    let row: usize = chunk_id / num_chunks;
    ChunkFrame {
        side: chunk_size * num_chunks,
        chunk_size,
        offset_x: col * chunk_size,
        offset_z: row * chunk_size,
        top: neighbour_is_coarser(lods, num_chunks, row, col, 0, 1),
        bottom: neighbour_is_coarser(lods, num_chunks, row, col, 2, 1),
        left: neighbour_is_coarser(lods, num_chunks, row, col, 1, 0),
        right: neighbour_is_coarser(lods, num_chunks, row, col, 1, 2),
    }
}

/// The lowest of the heights at the four corner columns of the cell `(x, z)`.
pub open spec fn column_low(heights: Seq<i32>, side: int, x: int, z: int) -> i32 {
    let a = sample_at(heights, side, x, z);
    let b = sample_at(heights, side, x + 1, z);
    let c = sample_at(heights, side, x, z + 1);
    let d = sample_at(heights, side, x + 1, z + 1);
    let ab = if a < b { a } else { b };
    let cd = if c < d { c } else { d };
    if ab < cd { ab } else { cd }
}

/// The highest of the heights at the four corner columns of the cell `(x, z)`.
pub open spec fn column_high(heights: Seq<i32>, side: int, x: int, z: int) -> i32 {
    let a = sample_at(heights, side, x, z);
    let b = sample_at(heights, side, x + 1, z);
    let c = sample_at(heights, side, x, z + 1);
    let d = sample_at(heights, side, x + 1, z + 1);
    let ab = if a > b { a } else { b };
    let cd = if c > d { c } else { d };
    if ab > cd { ab } else { cd }
}

/// The span of levels that can hold a surface in the cell `(x, z)`: from the
/// lowest to the highest of its four corner columns.
pub fn height_range(heights: &Vec<i32>, side: usize, x: usize, z: usize) -> (r: (i32, i32))
    requires
        side >= 1,
        x < side,
        z < side,
        heights@.len() == side * side,
    ensures
        r.0 == column_low(heights@, side as int, x as int, z as int),
        r.1 == column_high(heights@, side as int, x as int, z as int),
        r.0 <= r.1,
{
    let a: i32 = sample(heights, side, x, z);
    let b: i32 = sample(heights, side, x + 1, z);
    let c: i32 = sample(heights, side, x, z + 1);
    let d: i32 = sample(heights, side, x + 1, z + 1);
    let lo_ab: i32 = if a < b { a } else { b };
    let lo_cd: i32 = if c < d { c } else { d };
    let hi_ab: i32 = if a > b { a } else { b };
    let hi_cd: i32 = if c > d { c } else { d };
    (if lo_ab < lo_cd { lo_ab } else { lo_cd }, if hi_ab > hi_cd { hi_ab } else { hi_cd })
}

/// Whether corner `i` of the cell `(x, z)` at level `y` is solid: whether it
/// lies no higher than the height of its column.
pub open spec fn cell_corner_solid(heights: Seq<i32>, side: int, x: int, y: int, z: int, i: int) -> bool {
    y + corner_offset(i).1 <= sample_at(
        heights,
        side,
        x + corner_offset(i).0,
        z + corner_offset(i).2,
    )
}

/// The value of bit `i` of an occupancy code.
pub open spec fn corner_weight(i: int) -> int
    decreases i,
{
    if i <= 0 {
        1
    } else {
        2 * corner_weight(i - 1)
    }
}

/// The occupancy code of the first `n` corners of a cell: the sum of the
/// weights of those that are solid.
pub open spec fn code_prefix(heights: Seq<i32>, side: int, x: int, y: int, z: int, n: int) -> int
    decreases n,
{
    if n <= 0 {
        0
    } else {
        code_prefix(heights, side, x, y, z, n - 1) + if cell_corner_solid(
            heights,
            side,
            x,
            y,
            z,
            n - 1,
        ) {
            corner_weight(n - 1)
        } else {
            0
        }
    }
}

/// The occupancy code of the cell `(x, z)` at level `y`.
pub open spec fn cell_code(heights: Seq<i32>, side: int, x: int, y: int, z: int) -> u8 {
    code_prefix(heights, side, x, y, z, 8) as u8
}

proof fn lemma_code_prefix_bound(heights: Seq<i32>, side: int, x: int, y: int, z: int, n: int)
    requires
        0 <= n <= 8,
    ensures
        0 <= code_prefix(heights, side, x, y, z, n) < corner_weight(n),
        corner_weight(n) <= 256,
    decreases n,
{
    reveal_with_fuel(corner_weight, 10);
    if n > 0 {
        lemma_code_prefix_bound(heights, side, x, y, z, n - 1);
    }
}

/// The occupancy code of a cell says of each corner whether it is solid.
pub proof fn lemma_cell_code_corners(heights: Seq<i32>, side: int, x: int, y: int, z: int, i: int)
    requires
        0 <= i < 8,
    ensures
        corner_solid(cell_code(heights, side, x, y, z), i) == cell_corner_solid(
            heights,
            side,
            x,
            y,
            z,
            i,
        ),
{
    let b0: u8 = if cell_corner_solid(heights, side, x, y, z, 0) { 1 } else { 0 };
    let b1: u8 = if cell_corner_solid(heights, side, x, y, z, 1) { 1 } else { 0 };
    let b2: u8 = if cell_corner_solid(heights, side, x, y, z, 2) { 1 } else { 0 };
    let b3: u8 = if cell_corner_solid(heights, side, x, y, z, 3) { 1 } else { 0 };
    let b4: u8 = if cell_corner_solid(heights, side, x, y, z, 4) { 1 } else { 0 };
    let b5: u8 = if cell_corner_solid(heights, side, x, y, z, 5) { 1 } else { 0 };
    let b6: u8 = if cell_corner_solid(heights, side, x, y, z, 6) { 1 } else { 0 };
    let b7: u8 = if cell_corner_solid(heights, side, x, y, z, 7) { 1 } else { 0 };
    let code = cell_code(heights, side, x, y, z);
    assert(code == b0 + 2 * b1 + 4 * b2 + 8 * b3 + 16 * b4 + 32 * b5 + 64 * b6 + 128 * b7) by {
        reveal_with_fuel(corner_weight, 10);
        reveal_with_fuel(code_prefix, 10);
    }
    assert(code % 2 == b0 && (code / 2) % 2 == b1 && (code / 4) % 2 == b2 && (code / 8) % 2 == b3
        && (code / 16) % 2 == b4 && (code / 32) % 2 == b5 && (code / 64) % 2 == b6 && (code / 128)
        % 2 == b7) by (bit_vector)
        requires
            b0 <= 1,
            b1 <= 1,
            b2 <= 1,
            b3 <= 1,
            b4 <= 1,
            b5 <= 1,
            b6 <= 1,
            b7 <= 1,
            code == b0 + 2 * b1 + 4 * b2 + 8 * b3 + 16 * b4 + 32 * b5 + 64 * b6 + 128 * b7,
    ;
    reveal(corner_solid);
}

/// The occupancy code of the cell `(x, z)` at level `y`.
pub fn cell_code_of(heights: &Vec<i32>, side: usize, x: usize, y: i32, z: usize) -> (code: u8)
    requires
        side >= 1,
        x < side,
        z < side,
        heights@.len() == side * side,
    ensures
        code == cell_code(heights@, side as int, x as int, y as int, z as int),
{
    let mut code: u16 = 0;
    let mut weight: u16 = 1;
    let mut i: usize = 0;
    while i < 8
        invariant
            i <= 8,
            side >= 1,
            x < side,
            z < side,
            heights@.len() == side * side,
            weight == corner_weight(i as int),
            code == code_prefix(heights@, side as int, x as int, y as int, z as int, i as int),
            code < weight,
            weight <= 256,
        decreases 8 - i,
    {
        proof {
            lemma_code_prefix_bound(heights@, side as int, x as int, y as int, z as int, i + 1);
        }
        let o = corner_of(i);
        let h: i32 = sample(heights, side, x + o.0, z + o.2);
        if y as i64 + o.1 as i64 <= h as i64 {
            code = code + weight;
        }
        weight = weight * 2;
        i += 1;
    }
    code as u8
}

/// A vertex after the transition rule: on a border whose neighbour is
/// coarser, a vertex in the middle of a border edge moves to the middle of
/// the span `low..high` of its cell, half a unit up.
pub open spec fn flattened(v: Point3, f: ChunkFrame, low: int, high: int) -> Point3 {
    let on_top = f.top && v.z / 2 == 0 && v.x % 2 == 1;
    let on_bottom = f.bottom && v.z / 2 == f.chunk_size && v.x % 2 == 1;
    let on_left = f.left && v.x / 2 == 0 && v.z % 2 == 1;
    let on_right = f.right && v.x / 2 == f.chunk_size && v.z % 2 == 1;
    if low != high && (on_top || on_bottom || on_left || on_right) {
        Point3 { x: v.x, y: (low + high + 1) as i64, z: v.z }
    } else {
        v
    }
}

fn flatten(v: Point3, f: &ChunkFrame, low: i32, high: i32) -> (r: Point3)
    requires
        f.wf(),
        v.x >= 0,
        v.z >= 0,
    ensures
        r == flattened(v, *f, low as int, high as int),
{
    let on_top: bool = f.top && v.z / 2 == 0 && v.x % 2 == 1;
    let on_bottom: bool = f.bottom && v.z / 2 == f.chunk_size as i64 && v.x % 2 == 1;
    let on_left: bool = f.left && v.x / 2 == 0 && v.z % 2 == 1;
    let on_right: bool = f.right && v.x / 2 == f.chunk_size as i64 && v.z % 2 == 1;
    if low != high && (on_top || on_bottom || on_left || on_right) {
        Point3 { x: v.x, y: low as i64 + high as i64 + 1, z: v.z }
    } else {
        v
    }
}

/// Vertex `m` of the cell `(lx, lz)` of the chunk at level `y`: the midpoint
/// of the cube edge that entry `m` of the cell's row names, moved to the cell
/// and put through the transition rule.
pub open spec fn level_vertex(heights: Seq<i32>, f: ChunkFrame, lx: int, lz: int, y: int, m: int) -> Point3 {
    let gx = f.offset_x + lx;
    let gz = f.offset_z + lz;
    let code = cell_code(heights, f.side as int, gx, y, gz);
    let p = edge_midpoint(row_entry(TRI_TABLE[code as int], m));
    flattened(
        Point3 { x: (p.x + 2 * lx) as i64, y: (p.y + 2 * y) as i64, z: (p.z + 2 * lz) as i64 },
        f,
        column_low(heights, f.side as int, gx, gz) as int,
        column_high(heights, f.side as int, gx, gz) as int,
    )
}

/// The vertices of the cell `(lx, lz)` of the chunk at level `y`, three for each triangle.
pub open spec fn level_vertices(heights: Seq<i32>, f: ChunkFrame, lx: int, lz: int, y: int) -> Seq<Point3> {
    let code = cell_code(heights, f.side as int, f.offset_x + lx, y, f.offset_z + lz);
    Seq::new(
        (3 * triangle_count(TRI_TABLE[code as int])) as nat,
        |m: int| level_vertex(heights, f, lx, lz, y, m),
    )
}

/// The vertices of the lowest `levels` levels of the cell `(lx, lz)`, bottom up.
pub open spec fn column_vertices(heights: Seq<i32>, f: ChunkFrame, lx: int, lz: int, levels: int) -> Seq<Point3>
    decreases levels,
{
    if levels <= 0 {
        Seq::empty()
    } else {
        column_vertices(heights, f, lx, lz, levels - 1) + level_vertices(
            heights,
            f,
            lx,
            lz,
            column_low(heights, f.side as int, f.offset_x + lx, f.offset_z + lz) + levels - 1,
        )
    }
}

/// The vertices of the cell `(lx, lz)`: those of every level of its span.
pub open spec fn column_mesh(heights: Seq<i32>, f: ChunkFrame, lx: int, lz: int) -> Seq<Point3> {
    column_vertices(
        heights,
        f,
        lx,
        lz,
        column_high(heights, f.side as int, f.offset_x + lx, f.offset_z + lz) - column_low(
            heights,
            f.side as int,
            f.offset_x + lx,
            f.offset_z + lz,
        ) + 1,
    )
}

/// The vertices of the first `cells` cells with local column `lx`, in order of `lz`.
pub open spec fn strip_vertices(heights: Seq<i32>, f: ChunkFrame, lx: int, cells: int) -> Seq<Point3>
    decreases cells,
{
    if cells <= 0 {
        Seq::empty()
    } else {
        strip_vertices(heights, f, lx, cells - 1) + column_mesh(heights, f, lx, cells - 1)
    }
}

/// The vertices of the first `strips` columns of the chunk, in order of `lx`.
pub open spec fn chunk_vertices(heights: Seq<i32>, f: ChunkFrame, strips: int) -> Seq<Point3>
    decreases strips,
{
    if strips <= 0 {
        Seq::empty()
    } else {
        chunk_vertices(heights, f, strips - 1) + strip_vertices(
            heights,
            f,
            strips - 1,
            f.chunk_size as int,
        )
    }
}

/// The triangle list of a chunk at full detail: three vertices for each
/// triangle, cell by cell, `lx` outermost, then `lz`, then the level.
pub open spec fn chunk_mesh(heights: Seq<i32>, f: ChunkFrame) -> Seq<Point3> {
    chunk_vertices(heights, f, f.chunk_size as int)
}

/// A cell whose corners are all empty or all solid adds no vertex to the mesh.
pub proof fn lemma_uniform_cell_adds_nothing(heights: Seq<i32>, f: ChunkFrame, lx: int, lz: int, y: int)
    requires
        ({
            let code = cell_code(heights, f.side as int, f.offset_x + lx, y, f.offset_z + lz);
            code == 0 || code == 255
        }),
    ensures
        level_vertices(heights, f, lx, lz, y).len() == 0,
{
    let code = cell_code(heights, f.side as int, f.offset_x + lx, y, f.offset_z + lz);
    crate::tables::lemma_uniform_codes_are_empty(code);
}

/// Adds the vertices of one cell at one level.
fn push_level(
    verts: &mut Vec<Point3>,
    heights: &Vec<i32>,
    f: &ChunkFrame,
    lx: usize,
    lz: usize,
    y: i32,
    low: i32,
    high: i32,
)
    requires
        f.wf(),
        heights@.len() == f.side * f.side,
        lx < f.chunk_size,
        lz < f.chunk_size,
        low == column_low(heights@, f.side as int, f.offset_x + lx, f.offset_z + lz),
        high == column_high(heights@, f.side as int, f.offset_x + lx, f.offset_z + lz),
    ensures
        final(verts)@ == old(verts)@ + level_vertices(heights@, *f, lx as int, lz as int, y as int),
{
    let code: u8 = cell_code_of(heights, f.side, f.offset_x + lx, y, f.offset_z + lz);
    let tris = march(code);
    let ghost target = level_vertices(heights@, *f, lx as int, lz as int, y as int);
    let ghost row = TRI_TABLE[code as int];
    let mut t: usize = 0;
    while t < tris.len()
        invariant
            t <= tris@.len(),
            f.wf(),
            lx < f.chunk_size,
            lz < f.chunk_size,
            row == TRI_TABLE[code as int],
            code == cell_code(heights@, f.side as int, f.offset_x + lx, y as int, f.offset_z + lz),
            low == column_low(heights@, f.side as int, f.offset_x + lx, f.offset_z + lz),
            high == column_high(heights@, f.side as int, f.offset_x + lx, f.offset_z + lz),
            target == level_vertices(heights@, *f, lx as int, lz as int, y as int),
            tris@.len() == triangle_count(row),
            forall|s: int, k: int|
                0 <= s < tris@.len() && 0 <= k < 3 ==> (#[trigger] tris@[s].points@[k])
                    == edge_midpoint(row_entry(row, 3 * s + k)),
            verts@ == old(verts)@ + target.subrange(0, 3 * t),
        decreases tris@.len() - t,
    {
        let ghost before = verts@;
        let mut k: usize = 0;
        while k < 3
            invariant
                k <= 3,
                t < tris@.len(),
                f.wf(),
                lx < f.chunk_size,
                lz < f.chunk_size,
                row == TRI_TABLE[code as int],
                code == cell_code(
                    heights@,
                    f.side as int,
                    f.offset_x + lx,
                    y as int,
                    f.offset_z + lz,
                ),
                low == column_low(heights@, f.side as int, f.offset_x + lx, f.offset_z + lz),
                high == column_high(heights@, f.side as int, f.offset_x + lx, f.offset_z + lz),
                target == level_vertices(heights@, *f, lx as int, lz as int, y as int),
                tris@.len() == triangle_count(row),
                forall|s: int, k: int|
                    0 <= s < tris@.len() && 0 <= k < 3 ==> (#[trigger] tris@[s].points@[k])
                        == edge_midpoint(row_entry(row, 3 * s + k)),
                verts@ == old(verts)@ + target.subrange(0, 3 * t + k),
            decreases 3 - k,
        {
            let p: Point3 = tris[t].points[k];
            assert(p == tris@[t as int].points@[k as int]);
            assert(0 <= p.x <= 2 && 0 <= p.y <= 2 && 0 <= p.z <= 2);
            let v = Point3 {
                x: p.x + 2 * (lx as i64),
                y: p.y + 2 * (y as i64),
                z: p.z + 2 * (lz as i64),
            };
            let v = flatten(v, f, low, high);
            assert(v == target[3 * t + k]);
            verts.push(v);
            assert(verts@ =~= old(verts)@ + target.subrange(0, 3 * t + k + 1));
            k += 1;
        }
        t += 1;
    }
    assert(target.subrange(0, 3 * t as int) =~= target);
}

/// Adds the vertices of one cell: those of every level of its span.
fn push_column(verts: &mut Vec<Point3>, heights: &Vec<i32>, f: &ChunkFrame, lx: usize, lz: usize)
    requires
        f.wf(),
        heights@.len() == f.side * f.side,
        lx < f.chunk_size,
        lz < f.chunk_size,
    ensures
        final(verts)@ == old(verts)@ + column_mesh(heights@, *f, lx as int, lz as int),
{
    let range = height_range(heights, f.side, f.offset_x + lx, f.offset_z + lz);
    let low: i32 = range.0;
    let high: i32 = range.1;
    let mut y: i64 = low as i64;
    assert(column_vertices(heights@, *f, lx as int, lz as int, 0) =~= Seq::empty());
    assert(verts@ =~= old(verts)@ + column_vertices(heights@, *f, lx as int, lz as int, 0));
    while y <= high as i64
        invariant
            low <= y <= high + 1,
            f.wf(),
            heights@.len() == f.side * f.side,
            lx < f.chunk_size,
            lz < f.chunk_size,
            low == column_low(heights@, f.side as int, f.offset_x + lx, f.offset_z + lz),
            high == column_high(heights@, f.side as int, f.offset_x + lx, f.offset_z + lz),
            verts@ == old(verts)@ + column_vertices(heights@, *f, lx as int, lz as int, y - low),
        decreases high + 1 - y,
    {
        let ghost before = verts@;
        push_level(verts, heights, f, lx, lz, y as i32, low, high);
        proof {
            let done = column_vertices(heights@, *f, lx as int, lz as int, y - low);
            let more = level_vertices(heights@, *f, lx as int, lz as int, y as int);
            assert(column_vertices(heights@, *f, lx as int, lz as int, y + 1 - low) == done + more);
            assert(verts@ =~= old(verts)@ + (done + more));
        }
        y += 1;
    }
}

/// Adds the vertices of one column of cells of the chunk.
fn push_strip(verts: &mut Vec<Point3>, heights: &Vec<i32>, f: &ChunkFrame, lx: usize)
    requires
        f.wf(),
        heights@.len() == f.side * f.side,
        lx < f.chunk_size,
    ensures
        final(verts)@ == old(verts)@ + strip_vertices(
            heights@,
            *f,
            lx as int,
            f.chunk_size as int,
        ),
{
    let mut lz: usize = 0;
    assert(verts@ =~= old(verts)@ + strip_vertices(heights@, *f, lx as int, 0));
    while lz < f.chunk_size
        invariant
            lz <= f.chunk_size,
            f.wf(),
            heights@.len() == f.side * f.side,
            lx < f.chunk_size,
            verts@ == old(verts)@ + strip_vertices(heights@, *f, lx as int, lz as int),
        decreases f.chunk_size - lz,
    {
        push_column(verts, heights, f, lx, lz);
        proof {
            let done = strip_vertices(heights@, *f, lx as int, lz as int);
            let more = column_mesh(heights@, *f, lx as int, lz as int);
            assert(strip_vertices(heights@, *f, lx as int, lz + 1) == done + more);
            assert(verts@ =~= old(verts)@ + (done + more));
        }
        lz += 1;
    }
}

/// The triangle list of the chunk that `f` frames.
pub fn mesh_chunk(heights: &Vec<i32>, f: &ChunkFrame) -> (verts: Vec<Point3>)
    requires
        f.wf(),
        heights@.len() == f.side * f.side,
    ensures
        verts@ == chunk_mesh(heights@, *f),
{
    let mut verts: Vec<Point3> = Vec::new();
    let mut lx: usize = 0;
    assert(verts@ =~= chunk_vertices(heights@, *f, 0));
    while lx < f.chunk_size
        invariant
            lx <= f.chunk_size,
            f.wf(),
            heights@.len() == f.side * f.side,
            verts@ == chunk_vertices(heights@, *f, lx as int),
        decreases f.chunk_size - lx,
    {
        push_strip(&mut verts, heights, f, lx);
        lx += 1;
    }
    verts
}

/// The triangle list of chunk `chunk_id` at full detail, with the transition
/// rule on every border whose neighbouring chunk is coarser in `lod_list`.
pub fn generate_chunk_mesh_from_heightmap(
    heights: &Vec<i32>,
    chunk_id: usize,
    chunk_size: usize,
    num_chunks: usize,
    lod_list: &Vec<usize>,
) -> (verts: Vec<Point3>)
    requires
        chunk_in_grid(chunk_id as int, chunk_size as int, num_chunks as int),
        heights@.len() == (chunk_size * num_chunks) * (chunk_size * num_chunks),
        lod_list@.len() == num_chunks * num_chunks,
    ensures
        verts@ == chunk_mesh(
            heights@,
            frame_of(chunk_id as int, chunk_size as int, num_chunks as int, lod_list@),
        ),
{
    proof {
        lemma_chunk_place(chunk_id as int, chunk_size as int, num_chunks as int);
    }
    let f = frame_with_transitions(chunk_id, chunk_size, num_chunks, lod_list);
    mesh_chunk(heights, &f)
}

/// The triangle list of chunk `chunk_id` at full detail, taking no notice of
/// the neighbouring chunks.
pub fn generate_chunk_mesh_from_height_array(
    heights: &Vec<i32>,
    chunk_id: usize,
    chunk_size: usize,
    num_chunks: usize,
) -> (verts: Vec<Point3>)
    requires
        chunk_in_grid(chunk_id as int, chunk_size as int, num_chunks as int),
        heights@.len() == (chunk_size * num_chunks) * (chunk_size * num_chunks),
    ensures
        verts@ == chunk_mesh(
            heights@,
            plain_frame_of(chunk_id as int, chunk_size as int, num_chunks as int),
        ),
{
    proof {
        lemma_chunk_place(chunk_id as int, chunk_size as int, num_chunks as int);
    }
    let f = plain_frame(chunk_id, chunk_size, num_chunks);
    mesh_chunk(heights, &f)
}

/// The stride of a chunk at level of detail `lod`, for `lod` of at least 1:
/// 2 to the power `lod - 1`.
pub open spec fn lod_step(lod: int) -> int {
    two_to((lod - 1) as nat) as int
}

/// Number of quads along one side of a chunk at level of detail `lod`.
pub open spec fn lod_cells(chunk_size: int, lod: int) -> int {
    chunk_size / lod_step(lod)
}

/// The stride and the number of quads along a side, for a chunk of side
/// `chunk_size` at level of detail `lod`.  Where the stride exceeds the
/// chunk there is no quad, and the stride given is 1.
pub fn lod_stride(chunk_size: usize, lod: usize) -> (r: (usize, usize))
    requires
        chunk_size >= 1,
        chunk_size <= u32::MAX,
        lod >= 1,
    ensures
        r.1 == lod_cells(chunk_size as int, lod as int),
        r.1 > 0 ==> r.0 == lod_step(lod as int),
        r.1 == 0 ==> r.0 == 1,
        r.0 >= 1,
        r.1 * r.0 <= chunk_size,
{
    let mut step: u64 = 1;
    let mut k: usize = 1;
    while k < lod && step <= chunk_size as u64
        invariant
            1 <= k <= lod,
            step == two_to((k - 1) as nat),
            step <= 2 * chunk_size,
            chunk_size <= u32::MAX,
        decreases lod - k,
    {
        step = step * 2;
        k += 1;
    }
    proof {
        lemma_two_to_grows((k - 1) as nat, (lod - 1) as nat);
    }
    if step > chunk_size as u64 {
        proof {
            let big = lod_step(lod as int);
            assert(big > chunk_size);
            assert(chunk_size as int / big == 0) by (nonlinear_arith)
                requires
                    0 <= chunk_size < big,
            ;
        }
        (1, 0)
    } else {
        let step: usize = step as usize;
        let cells: usize = chunk_size / step;
        proof {
            assert(cells * step <= chunk_size && cells >= 1) by (nonlinear_arith)
                requires
                    cells == chunk_size as int / step as int,
                    1 <= step <= chunk_size,
            ;
        }
        (step, cells)
    }
}

/// Twice the height above the grid point `(x, z)` of the chunk, plus one: the
/// surface lies half a unit above the sample.
pub open spec fn lod_base(heights: Seq<i32>, f: ChunkFrame, step: int, x: int, z: int) -> int {
    2 * sample_at(heights, f.side as int, f.offset_x + x * step, f.offset_z + z * step) + 1
}

/// Whether the vertex `(x, z)` of a grid of `cells` quads a side is stitched
/// along x: an odd place on a border row whose neighbouring chunk is coarser.
pub open spec fn stitched_along_x(f: ChunkFrame, cells: int, x: int, z: int) -> bool {
    ((z == 0 && f.top) || (z == cells && f.bottom)) && x % 2 == 1 && 0 < x < cells
}

/// Whether the vertex `(x, z)` is stitched along z.
pub open spec fn stitched_along_z(f: ChunkFrame, cells: int, x: int, z: int) -> bool {
    ((x == 0 && f.left) || (x == cells && f.right)) && z % 2 == 1 && 0 < z < cells
}

/// Vertex `(x, z)` of the grid of a chunk at reduced detail.  A stitched
/// vertex lies midway between its two neighbours on the border.
pub open spec fn lod_vertex(heights: Seq<i32>, f: ChunkFrame, step: int, cells: int, x: int, z: int) -> Point3 {
    let y = if stitched_along_x(f, cells, x, z) {
        (lod_base(heights, f, step, x - 1, z) + lod_base(heights, f, step, x + 1, z)) / 2
    } else if stitched_along_z(f, cells, x, z) {
        (lod_base(heights, f, step, x, z - 1) + lod_base(heights, f, step, x, z + 1)) / 2
    } else {
        lod_base(heights, f, step, x, z)
    };
    Point3 { x: (2 * (x * step)) as i64, y: y as i64, z: (2 * (z * step)) as i64 }
}

/// The first `n` vertices of row `z` of the grid.
pub open spec fn lod_row(heights: Seq<i32>, f: ChunkFrame, step: int, cells: int, z: int, n: int) -> Seq<Point3>
    decreases n,
{
    if n <= 0 {
        Seq::empty()
    } else {
        lod_row(heights, f, step, cells, z, n - 1).push(
            lod_vertex(heights, f, step, cells, n - 1, z),
        )
    }
}

/// The first `rows` rows of the grid, each of `cells + 1` vertices.
pub open spec fn lod_rows(heights: Seq<i32>, f: ChunkFrame, step: int, cells: int, rows: int) -> Seq<Point3>
    decreases rows,
{
    if rows <= 0 {
        Seq::empty()
    } else {
        lod_rows(heights, f, step, cells, rows - 1) + lod_row(
            heights,
            f,
            step,
            cells,
            rows - 1,
            cells + 1,
        )
    }
}

/// The vertices of a chunk at reduced detail: `cells + 1` rows of `cells + 1` vertices.
pub open spec fn lod_vertices(heights: Seq<i32>, f: ChunkFrame, step: int, cells: int) -> Seq<Point3> {
    lod_rows(heights, f, step, cells, cells + 1)
}

/// The two triangles of the quad `(x, z)`: the places of their corners in the vertex list.
pub open spec fn lod_quad(cells: int, x: int, z: int) -> Seq<usize> {
    let v = z * (cells + 1) + x;
    seq![
        v as usize,
        (v + 1) as usize,
        (v + cells + 1) as usize,
        (v + 1) as usize,
        (v + cells + 2) as usize,
        (v + cells + 1) as usize,
    ]
}

/// The triangles of the first `n` quads of row `z`.
pub open spec fn lod_quad_row(cells: int, z: int, n: int) -> Seq<usize>
    decreases n,
{
    if n <= 0 {
        Seq::empty()
    } else {
        lod_quad_row(cells, z, n - 1) + lod_quad(cells, n - 1, z)
    }
}

/// The triangles of the first `rows` rows of quads.
pub open spec fn lod_quad_rows(cells: int, rows: int) -> Seq<usize>
    decreases rows,
{
    if rows <= 0 {
        Seq::empty()
    } else {
        lod_quad_rows(cells, rows - 1) + lod_quad_row(cells, rows - 1, cells)
    }
}

/// The index list of a chunk at reduced detail.
pub open spec fn lod_indices(cells: int) -> Seq<usize> {
    lod_quad_rows(cells, cells)
}

proof fn lemma_lod_row_lengths(heights: Seq<i32>, f: ChunkFrame, step: int, cells: int, z: int, n: int)
    requires
        0 <= n,
    ensures
        lod_row(heights, f, step, cells, z, n).len() == n,
        lod_quad_row(cells, z, n).len() == 6 * n,
    decreases n,
{
    if n > 0 {
        lemma_lod_row_lengths(heights, f, step, cells, z, n - 1);
    }
}

proof fn lemma_lod_lengths(heights: Seq<i32>, f: ChunkFrame, step: int, cells: int, n: int)
    requires
        0 <= n,
        0 <= cells,
    ensures
        lod_rows(heights, f, step, cells, n).len() == n * (cells + 1),
        lod_quad_rows(cells, n).len() == 6 * cells * n,
    decreases n,
{
    if n > 0 {
        lemma_lod_lengths(heights, f, step, cells, n - 1);
        lemma_lod_row_lengths(heights, f, step, cells, n - 1, cells + 1);
        lemma_lod_row_lengths(heights, f, step, cells, n - 1, cells);
        assert(n * (cells + 1) == (n - 1) * (cells + 1) + (cells + 1)) by (nonlinear_arith);
        assert(6 * cells * n == 6 * cells * (n - 1) + 6 * cells) by (nonlinear_arith);
    } else {
        assert(n * (cells + 1) == 0) by (nonlinear_arith)
            requires
                n == 0,
        ;
        assert(6 * cells * n == 0) by (nonlinear_arith)
            requires
                n == 0,
        ;
    }
}

/// Twice the height above the grid point `(x, z)` of the chunk, plus one.
fn base_of(heights: &Vec<i32>, f: &ChunkFrame, step: usize, cells: usize, x: usize, z: usize) -> (y: i64)
    requires
        f.wf(),
        heights@.len() == f.side * f.side,
        cells * step <= f.chunk_size,
        x <= cells,
        z <= cells,
    ensures
        y == lod_base(heights@, *f, step as int, x as int, z as int),
        x * step <= f.chunk_size,
        z * step <= f.chunk_size,
{
    proof {
        assert(x * step <= cells * step && z * step <= cells * step) by (nonlinear_arith)
            requires
                x <= cells,
                z <= cells,
                0 <= step,
        ;
    }
    let h: i32 = sample(heights, f.side, f.offset_x + x * step, f.offset_z + z * step);
    2 * (h as i64) + 1
}

/// Vertex `(x, z)` of the grid of a chunk at reduced detail.
fn vertex_of(heights: &Vec<i32>, f: &ChunkFrame, step: usize, cells: usize, x: usize, z: usize) -> (v:
    Point3)
    requires
        f.wf(),
        heights@.len() == f.side * f.side,
        cells * step <= f.chunk_size,
        x <= cells,
        z <= cells,
    ensures
        v == lod_vertex(heights@, *f, step as int, cells as int, x as int, z as int),
{
    let along_x: bool = ((z == 0 && f.top) || (z == cells && f.bottom)) && x % 2 == 1 && 0 < x && x
        < cells;
    let along_z: bool = ((x == 0 && f.left) || (x == cells && f.right)) && z % 2 == 1 && 0 < z && z
        < cells;
    let own: i64 = base_of(heights, f, step, cells, x, z);
    let y: i64 = if along_x {
        (base_of(heights, f, step, cells, x - 1, z) + base_of(heights, f, step, cells, x + 1, z)) / 2
    } else if along_z {
        (base_of(heights, f, step, cells, x, z - 1) + base_of(heights, f, step, cells, x, z + 1)) / 2
    } else {
        own
    };
    Point3 { x: 2 * ((x * step) as i64), y, z: 2 * ((z * step) as i64) }
}

/// The vertices of chunk `chunk_id` at its reduced level of detail, which is at least 1.
pub open spec fn lod_mesh_vertices(
    heights: Seq<i32>,
    chunk_id: int,
    chunk_size: int,
    num_chunks: int,
    lods: Seq<usize>,
) -> Seq<Point3> {
    let f = frame_of(chunk_id, chunk_size, num_chunks, lods);
    let lod = lods[chunk_id] as int;
    let cells = lod_cells(chunk_size, lod);
    lod_vertices(heights, f, if cells > 0 { lod_step(lod) } else { 1 }, cells)
}

/// The index list of a chunk of side `chunk_size` at level of detail `lod`.
pub open spec fn lod_mesh_indices(chunk_size: int, lod: int) -> Seq<usize> {
    lod_indices(lod_cells(chunk_size, lod))
}

/// Every index of a grid of quads names a vertex of the grid.
pub proof fn lemma_lod_indices_in_range(cells: int, rows: int, k: int)
    requires
        0 <= cells,
        0 <= rows <= cells,
        0 <= k < lod_quad_rows(cells, rows).len(),
    ensures
        0 <= lod_quad_rows(cells, rows)[k] < (cells + 1) * (cells + 1),
    decreases rows,
{
    if rows > 0 {
        let before = lod_quad_rows(cells, rows - 1);
        if k < before.len() {
            lemma_lod_indices_in_range(cells, rows - 1, k);
        } else {
            lemma_lod_quad_row_in_range(cells, rows - 1, cells, k - before.len());
        }
    }
}

proof fn lemma_lod_quad_row_in_range(cells: int, z: int, n: int, k: int)
    requires
        0 <= z < cells,
        0 <= n <= cells,
        0 <= k < lod_quad_row(cells, z, n).len(),
    ensures
        0 <= lod_quad_row(cells, z, n)[k] < (cells + 1) * (cells + 1),
    decreases n,
{
    if n > 0 {
        let before = lod_quad_row(cells, z, n - 1);
        if k < before.len() {
            lemma_lod_quad_row_in_range(cells, z, n - 1, k);
        } else {
            let x = n - 1;
            let v = z * (cells + 1) + x;
            assert(0 <= v && v + cells + 2 < (cells + 1) * (cells + 1)) by (nonlinear_arith)
                requires
                    0 <= z < cells,
                    0 <= x < cells,
                    v == z * (cells + 1) + x,
            ;
            let quad = lod_quad(cells, x, z);
            let j = k - before.len();
            assert(0 <= j < 6);
            assert(lod_quad_row(cells, z, n)[k] == quad[j]);
        }
    }
}

/// Rebuilds the vertex and index lists of chunk `chunk_id` at its reduced
/// level of detail: a regular grid of quads over heights sampled at the
/// chunk's stride, stitched on every border whose neighbouring chunk is
/// coarser.  Both lists are emptied first.
pub fn generate_chunk_lod_mesh(
    heights: &Vec<i32>,
    chunk_id: usize,
    chunk_size: usize,
    num_chunks: usize,
    lod_list: &Vec<usize>,
    indices_out: &mut Vec<usize>,
    vertices_out: &mut Vec<Point3>,
)
    requires
        chunk_in_grid(chunk_id as int, chunk_size as int, num_chunks as int),
        heights@.len() == (chunk_size * num_chunks) * (chunk_size * num_chunks),
        lod_list@.len() == num_chunks * num_chunks,
        lod_list@[chunk_id as int] >= 1,
        (chunk_size + 2) * (chunk_size + 2) <= usize::MAX,
    ensures
        final(vertices_out)@ == lod_mesh_vertices(
            heights@,
            chunk_id as int,
            chunk_size as int,
            num_chunks as int,
            lod_list@,
        ),
        final(indices_out)@ == lod_mesh_indices(chunk_size as int, lod_list@[chunk_id as int] as int),
        ({
            let cells = lod_cells(chunk_size as int, lod_list@[chunk_id as int] as int);
            &&& final(vertices_out)@.len() == (cells + 1) * (cells + 1)
            &&& final(indices_out)@.len() == 6 * cells * cells
            &&& forall|k: int|
                0 <= k < final(indices_out)@.len() ==> (#[trigger] final(indices_out)@[k])
                    < final(vertices_out)@.len()
        }),
{
    proof {
        lemma_chunk_place(chunk_id as int, chunk_size as int, num_chunks as int);
        assert(lod_list@.len() == lod_list.len());
    }
    let f = frame_with_transitions(chunk_id, chunk_size, num_chunks, lod_list);
    let stride = lod_stride(chunk_size, lod_list[chunk_id]);
    let step: usize = stride.0;
    let cells: usize = stride.1;
    proof {
        assert((cells + 2) * (cells + 2) <= (chunk_size + 2) * (chunk_size + 2)) by (nonlinear_arith)
            requires
                0 <= cells <= chunk_size,
        ;
        assert(cells + 2 <= (cells + 2) * (cells + 2)) by (nonlinear_arith)
            requires
                cells >= 0,
        ;
    }
    vertices_out.clear();
    indices_out.clear();
    let mut z: usize = 0;
    assert(vertices_out@ =~= lod_rows(heights@, f, step as int, cells as int, 0));
    while z < cells + 1
        invariant
            z <= cells + 1,
            cells + 2 <= usize::MAX,
            f.wf(),
            heights@.len() == f.side * f.side,
            cells * step <= f.chunk_size,
            vertices_out@ == lod_rows(heights@, f, step as int, cells as int, z as int),
        decreases cells + 1 - z,
    {
        let mut x: usize = 0;
        let ghost before = vertices_out@;
        assert(vertices_out@ =~= before + lod_row(
            heights@,
            f,
            step as int,
            cells as int,
            z as int,
            0,
        ));
        while x < cells + 1
            invariant
                x <= cells + 1,
                z <= cells,
                cells + 2 <= usize::MAX,
                f.wf(),
                heights@.len() == f.side * f.side,
                cells * step <= f.chunk_size,
                before == lod_rows(heights@, f, step as int, cells as int, z as int),
                vertices_out@ == before + lod_row(
                    heights@,
                    f,
                    step as int,
                    cells as int,
                    z as int,
                    x as int,
                ),
            decreases cells + 1 - x,
        {
            let v = vertex_of(heights, &f, step, cells, x, z);
            vertices_out.push(v);
            assert(vertices_out@ =~= before + lod_row(
                heights@,
                f,
                step as int,
                cells as int,
                z as int,
                x + 1,
            ));
            x += 1;
        }
        z += 1;
    }
    let mut z: usize = 0;
    assert(indices_out@ =~= lod_quad_rows(cells as int, 0));
    while z < cells
        invariant
            z <= cells,
            (cells + 2) * (cells + 2) <= usize::MAX,
            indices_out@ == lod_quad_rows(cells as int, z as int),
        decreases cells - z,
    {
        let mut x: usize = 0;
        let ghost before = indices_out@;
        assert(indices_out@ =~= before + lod_quad_row(cells as int, z as int, 0));
        while x < cells
            invariant
                x <= cells,
                z < cells,
                (cells + 2) * (cells + 2) <= usize::MAX,
                before == lod_quad_rows(cells as int, z as int),
                indices_out@ == before + lod_quad_row(cells as int, z as int, x as int),
            decreases cells - x,
        {
            proof {
                assert(z * (cells + 1) + x + cells + 2 <= (cells + 2) * (cells + 2))
                    by (nonlinear_arith)
                    requires
                        x < cells,
                        z < cells,
                ;
                assert(0 <= z * (cells + 1)) by (nonlinear_arith)
                    requires
                        0 <= z,
                        0 <= cells,
                ;
            }
            let v: usize = z * (cells + 1) + x;
            let ghost row_before = indices_out@;
            indices_out.push(v);
            indices_out.push(v + 1);
            indices_out.push(v + cells + 1);
            indices_out.push(v + 1);
            indices_out.push(v + cells + 2);
            indices_out.push(v + cells + 1);
            assert(indices_out@ =~= row_before + lod_quad(cells as int, x as int, z as int));
            assert(indices_out@ =~= before + lod_quad_row(cells as int, z as int, x + 1));
            x += 1;
        }
        z += 1;
    }
    proof {
        lemma_lod_lengths(heights@, f, step as int, cells as int, cells + 1);
        lemma_lod_lengths(heights@, f, step as int, cells as int, cells as int);
        assert forall|k: int| 0 <= k < indices_out@.len() implies (#[trigger] indices_out@[k])
            < vertices_out@.len() by {
            lemma_lod_indices_in_range(cells as int, cells as int, k);
        }
    }
}

/// Whether a vertex lies in the box of a chunk of side `chunk_size`: x and z
/// from 0 to the far side of the chunk and one cell more, y within the
/// span of the heights.  All in half units.
pub open spec fn in_chunk_box(p: Point3, chunk_size: int) -> bool {
    &&& 0 <= p.x <= 2 * chunk_size + 2
    &&& 0 <= p.z <= 2 * chunk_size + 2
    &&& 2 * i32::MIN <= p.y <= 2 * i32::MAX + 3
}

/// Whether every vertex of the list lies in the box of the chunk.
pub open spec fn all_in_box(points: Seq<Point3>, chunk_size: int) -> bool {
    forall|i: int| 0 <= i < points.len() ==> in_chunk_box(#[trigger] points[i], chunk_size)
}

/// The span of a cell lies within its four columns, so within `i32`.
proof fn lemma_level_in_box(heights: Seq<i32>, f: ChunkFrame, lx: int, lz: int, y: int)
    requires
        f.wf(),
        0 <= lx < f.chunk_size,
        0 <= lz < f.chunk_size,
        i32::MIN <= y <= i32::MAX,
    ensures
        all_in_box(level_vertices(heights, f, lx, lz, y), f.chunk_size as int),
{
    let code = cell_code(heights, f.side as int, f.offset_x + lx, y, f.offset_z + lz);
    let row = TRI_TABLE[code as int];
    crate::tables::lemma_table_fits(code);
    let points = level_vertices(heights, f, lx, lz, y);
    assert forall|m: int| 0 <= m < points.len() implies in_chunk_box(
        #[trigger] points[m],
        f.chunk_size as int,
    ) by {
        assert(crate::tables::entry_fits(row, code, m));
        let e = row_entry(row, m);
        assert(0 <= e < 12);
        let p = edge_midpoint(e);
        assert(0 <= p.x <= 2 && 0 <= p.y <= 2 && 0 <= p.z <= 2);
        assert(points[m] == level_vertex(heights, f, lx, lz, y, m));
    }
}

proof fn lemma_column_in_box(heights: Seq<i32>, f: ChunkFrame, lx: int, lz: int, levels: int)
    requires
        f.wf(),
        0 <= lx < f.chunk_size,
        0 <= lz < f.chunk_size,
        levels <= column_high(heights, f.side as int, f.offset_x + lx, f.offset_z + lz) - column_low(
            heights,
            f.side as int,
            f.offset_x + lx,
            f.offset_z + lz,
        ) + 1,
    ensures
        all_in_box(column_vertices(heights, f, lx, lz, levels), f.chunk_size as int),
    decreases levels,
{
    if levels > 0 {
        lemma_column_in_box(heights, f, lx, lz, levels - 1);
        lemma_level_in_box(
            heights,
            f,
            lx,
            lz,
            column_low(heights, f.side as int, f.offset_x + lx, f.offset_z + lz) + levels - 1,
        );
    }
}

proof fn lemma_strip_in_box(heights: Seq<i32>, f: ChunkFrame, lx: int, cells: int)
    requires
        f.wf(),
        0 <= lx < f.chunk_size,
        cells <= f.chunk_size,
    ensures
        all_in_box(strip_vertices(heights, f, lx, cells), f.chunk_size as int),
    decreases cells,
{
    if cells > 0 {
        lemma_strip_in_box(heights, f, lx, cells - 1);
        let lz = cells - 1;
        lemma_column_in_box(
            heights,
            f,
            lx,
            lz,
            column_high(heights, f.side as int, f.offset_x + lx, f.offset_z + lz) - column_low(
                heights,
                f.side as int,
                f.offset_x + lx,
                f.offset_z + lz,
            ) + 1,
        );
    }
}

proof fn lemma_chunk_vertices_in_box(heights: Seq<i32>, f: ChunkFrame, strips: int)
    requires
        f.wf(),
        strips <= f.chunk_size,
    ensures
        all_in_box(chunk_vertices(heights, f, strips), f.chunk_size as int),
    decreases strips,
{
    if strips > 0 {
        lemma_chunk_vertices_in_box(heights, f, strips - 1);
        lemma_strip_in_box(heights, f, strips - 1, f.chunk_size as int);
    }
}

/// Every vertex of the mesh of a chunk at full detail lies in the box of the chunk.
pub proof fn lemma_chunk_mesh_in_box(heights: Seq<i32>, f: ChunkFrame)
    requires
        f.wf(),
    ensures
        all_in_box(chunk_mesh(heights, f), f.chunk_size as int),
{
    lemma_chunk_vertices_in_box(heights, f, f.chunk_size as int);
}

proof fn lemma_lod_row_in_box(
    heights: Seq<i32>,
    f: ChunkFrame,
    step: int,
    cells: int,
    z: int,
    n: int,
)
    requires
        0 <= step,
        0 <= cells,
        cells * step <= f.chunk_size,
        f.chunk_size <= u32::MAX,
        0 <= z <= cells,
        n <= cells + 1,
    ensures
        all_in_box(lod_row(heights, f, step, cells, z, n), f.chunk_size as int),
    decreases n,
{
    if n > 0 {
        lemma_lod_row_in_box(heights, f, step, cells, z, n - 1);
        let x = n - 1;
        assert(0 <= x * step <= cells * step && 0 <= z * step <= cells * step) by (nonlinear_arith)
            requires
                0 <= x <= cells,
                0 <= z <= cells,
                0 <= step,
        ;
        let v = lod_vertex(heights, f, step, cells, x, z);
        assert(in_chunk_box(v, f.chunk_size as int));
    }
}

proof fn lemma_lod_rows_in_box(heights: Seq<i32>, f: ChunkFrame, step: int, cells: int, rows: int)
    requires
        0 <= step,
        0 <= cells,
        cells * step <= f.chunk_size,
        f.chunk_size <= u32::MAX,
        rows <= cells + 1,
    ensures
        all_in_box(lod_rows(heights, f, step, cells, rows), f.chunk_size as int),
    decreases rows,
{
    if rows > 0 {
        lemma_lod_rows_in_box(heights, f, step, cells, rows - 1);
        lemma_lod_row_in_box(heights, f, step, cells, rows - 1, cells + 1);
    }
}

/// Every vertex of the grid of a chunk at reduced detail lies in the box of the chunk.
pub proof fn lemma_lod_mesh_in_box(
    heights: Seq<i32>,
    chunk_id: int,
    chunk_size: int,
    num_chunks: int,
    lods: Seq<usize>,
)
    requires
        chunk_in_grid(chunk_id, chunk_size, num_chunks),
        lods[chunk_id] >= 1,
    ensures
        all_in_box(lod_mesh_vertices(heights, chunk_id, chunk_size, num_chunks, lods), chunk_size),
{
    let f = frame_of(chunk_id, chunk_size, num_chunks, lods);
    let lod = lods[chunk_id] as int;
    let cells = lod_cells(chunk_size, lod);
    let step = lod_step(lod);
    lemma_two_to_grows(0, (lod - 1) as nat);
    lemma_chunk_place(chunk_id, chunk_size, num_chunks);
    assert(0 <= cells && cells * step <= chunk_size) by (nonlinear_arith)
        requires
            cells == chunk_size / step,
            step >= 1,
            chunk_size >= 1,
    ;
    assert(chunk_size <= chunk_size * num_chunks) by (nonlinear_arith)
        requires
            chunk_size >= 1,
            num_chunks >= 1,
    ;
    let used = if cells > 0 { step } else { 1 };
    assert(cells * used <= chunk_size) by (nonlinear_arith)
        requires
            cells * step <= chunk_size,
            used == step || (cells == 0 && used == 1),
    ;
    lemma_lod_rows_in_box(heights, f, used, cells, cells + 1);
}

} // verus!
