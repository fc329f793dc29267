//! What a brush does to one cell, which cells a brush reaches, and which
//! neighbouring chunks an edited cell puts on a seam.

use crate::grid::{grid_at, lemma_grid_index};
use vstd::prelude::*;

verus! {

/// Whether `(x, z)` is a cell of a grid of side `side`.
pub open spec fn in_grid(side: int, x: int, z: int) -> bool {
    0 <= x < side && 0 <= z < side
}

/// Whether the step `(dx, dz)` stays within half of `radius`: a brush of
/// size `radius` is the disk of that diameter.
pub open spec fn in_disk(dx: int, dz: int, radius: int) -> bool {
    4 * (dx * dx + dz * dz) <= radius * radius
}

/// The steps that mirror `(x, z)` through the axes, in the order in which
/// the brush visits them.
pub open spec fn mirrored(x: int, z: int) -> Seq<(int, int)> {
    if x == 0 {
        if z == 0 {
            seq![(0int, 0int)]
        } else {
            seq![(0int, -z), (0int, z)]
        }
    } else if z == 0 {
        seq![(-x, 0int), (x, 0int)]
    } else {
        seq![(-x, -z), (x, -z), (-x, z), (x, z)]
    }
}

/// The cells of the grid among the first `n` mirror images of `(x, z)` about
/// `(gx, gz)`, each as `(column, height, row)`.
pub open spec fn ring_cells(
    heights: Seq<i32>,
    side: int,
    gx: int,
    gz: int,
    x: int,
    z: int,
    n: int,
) -> Seq<(i32, i32, i32)>
    decreases n,
{
    if n <= 0 {
        Seq::empty()
    } else {
        let rest = ring_cells(heights, side, gx, gz, x, z, n - 1);
        let o = mirrored(x, z)[n - 1];
        if in_grid(side, gx + o.0, gz + o.1) {
            rest.push(
                ((gx + o.0) as i32, grid_at(heights, side, gx + o.0, gz + o.1), (gz + o.1) as i32),
            )
        } else {
            rest
        }
    }
}

/// The cells that the brush reaches through the step `(x, z)`.
pub open spec fn brush_point(
    heights: Seq<i32>,
    side: int,
    gx: int,
    gz: int,
    radius: int,
    x: int,
    z: int,
) -> Seq<(i32, i32, i32)> {
    if in_disk(x, z, radius) {
        ring_cells(heights, side, gx, gz, x, z, mirrored(x, z).len() as int)
    } else {
        Seq::empty()
    }
}

/// The cells that the brush reaches through the steps `(0, z)` to `(n - 1, z)`.
pub open spec fn brush_row(
    heights: Seq<i32>,
    side: int,
    gx: int,
    gz: int,
    radius: int,
    z: int,
    n: int,
) -> Seq<(i32, i32, i32)>
    decreases n,
{
    if n <= 0 {
        Seq::empty()
    } else {
        brush_row(heights, side, gx, gz, radius, z, n - 1) + brush_point(
            heights,
            side,
            gx,
            gz,
            radius,
            n - 1,
            z,
        )
    }
}

/// The cells that the brush reaches through the first `n` rows of steps.
pub open spec fn brush_rows(heights: Seq<i32>, side: int, gx: int, gz: int, radius: int, n: int) -> Seq<
    (i32, i32, i32),
>
    decreases n,
{
    if n <= 0 {
        Seq::empty()
    } else {
        brush_rows(heights, side, gx, gz, radius, n - 1) + brush_row(
            heights,
            side,
            gx,
            gz,
            radius,
            n - 1,
            radius,
        )
    }
}

/// The cells of the grid that a brush of size `radius` at `(gx, gz)` reaches,
/// each once, as `(column, height, row)`.
pub open spec fn brush_cells(heights: Seq<i32>, side: int, gx: int, gz: int, radius: int) -> Seq<
    (i32, i32, i32),
> {
    brush_rows(heights, side, gx, gz, radius, radius)
}

/// Every cell that a brush reaches lies in the grid and carries its height.
pub open spec fn cells_of_grid(cells: Seq<(i32, i32, i32)>, heights: Seq<i32>, side: int) -> bool {
    forall|i: int|
        0 <= i < cells.len() ==> in_grid(side, (#[trigger] cells[i]).0 as int, cells[i].2 as int)
            && cells[i].1 == grid_at(heights, side, cells[i].0 as int, cells[i].2 as int)
}

proof fn lemma_ring_cells(heights: Seq<i32>, side: int, gx: int, gz: int, x: int, z: int, n: int)
    requires
        0 <= n <= mirrored(x, z).len(),
        side <= i32::MAX,
    ensures
        cells_of_grid(ring_cells(heights, side, gx, gz, x, z, n), heights, side),
    decreases n,
{
    if n > 0 {
        lemma_ring_cells(heights, side, gx, gz, x, z, n - 1);
    }
}

proof fn lemma_brush_row(heights: Seq<i32>, side: int, gx: int, gz: int, radius: int, z: int, n: int)
    requires
        side <= i32::MAX,
    ensures
        cells_of_grid(brush_row(heights, side, gx, gz, radius, z, n), heights, side),
    decreases n,
{
    if n > 0 {
        lemma_brush_row(heights, side, gx, gz, radius, z, n - 1);
        lemma_ring_cells(heights, side, gx, gz, n - 1, z, mirrored(n - 1, z).len() as int);
    }
}

/// Every cell that a brush reaches lies in the grid and carries its height.
pub proof fn lemma_brush_rows(heights: Seq<i32>, side: int, gx: int, gz: int, radius: int, n: int)
    requires
        side <= i32::MAX,
    ensures
        cells_of_grid(brush_rows(heights, side, gx, gz, radius, n), heights, side),
    decreases n,
{
    if n > 0 {
        lemma_brush_rows(heights, side, gx, gz, radius, n - 1);
        lemma_brush_row(heights, side, gx, gz, radius, n - 1, radius);
    }
}

/// Adds the cell at the step `(dx, dz)` from `(gx, gz)`, if the grid has it.
fn push_cell(
    cells: &mut Vec<(i32, i32, i32)>,
    heights: &Vec<i32>,
    side: usize,
    gx: i32,
    gz: i32,
    dx: i64,
    dz: i64,
)
    requires
        1 <= side <= i32::MAX,
        heights@.len() == side * side,
        -0x8000_0000 <= dx <= 0x8000_0000,
        -0x8000_0000 <= dz <= 0x8000_0000,
    ensures
        final(cells)@ == (if in_grid(side as int, gx + dx, gz + dz) {
            old(cells)@.push(
                ((gx + dx) as i32, grid_at(heights@, side as int, gx + dx, gz + dz), (gz + dz) as i32),
            )
        } else {
            old(cells)@
        }),
{
    let px: i64 = gx as i64 + dx;
    let pz: i64 = gz as i64 + dz;
    if px > -1 && pz > -1 && px < side as i64 && pz < side as i64 {
        proof {
            lemma_grid_index(side as int, px as int, pz as int);
            assert(heights@.len() == heights.len());
        }
        let h: i32 = heights[pz as usize * side + px as usize];
        cells.push((px as i32, h, pz as i32));
    }
}

/// The cells of the grid that a brush of size `radius` at `(gx, gz)` reaches,
/// each as `(column, height, row)`.
pub fn get_grid_positions_in_radius(
    heights: &Vec<i32>,
    side: usize,
    gx: i32,
    gz: i32,
    radius: i32,
) -> (cells: Vec<(i32, i32, i32)>)
    requires
        1 <= side <= i32::MAX,
        heights@.len() == side * side,
    ensures
        cells@ == brush_cells(heights@, side as int, gx as int, gz as int, radius as int),
        cells_of_grid(cells@, heights@, side as int),
{
    let mut cells: Vec<(i32, i32, i32)> = Vec::new();
    let r: i64 = radius as i64;
    proof {
        assert(0 <= r * r <= 0x8000_0000 * 0x8000_0000) by (nonlinear_arith)
            requires
                -0x8000_0000 <= r <= 0x8000_0000,
        ;
        lemma_brush_rows(heights@, side as int, gx as int, gz as int, radius as int, radius as int);
    }
    let limit: i64 = (r * r) / 4;
    let mut z: i64 = 0;
    assert(cells@ =~= brush_rows(heights@, side as int, gx as int, gz as int, radius as int, 0));
    while z < r
        invariant
            0 <= z,
            z <= r || r < 0,
            r < 0 ==> z == 0,
            r == radius,
            limit == (r * r) / 4,
            1 <= side <= i32::MAX,
            heights@.len() == side * side,
            cells@ == brush_rows(heights@, side as int, gx as int, gz as int, radius as int, z as int),
        decreases r - z,
    {
        let ghost done = cells@;
        let mut x: i64 = 0;
        assert(cells@ =~= done + brush_row(
            heights@,
            side as int,
            gx as int,
            gz as int,
            radius as int,
            z as int,
            0,
        ));
        while x < r
            invariant
                0 <= x <= r,
                0 <= z < r,
                r == radius,
                limit == (r * r) / 4,
                1 <= side <= i32::MAX,
                heights@.len() == side * side,
                done == brush_rows(
                    heights@,
                    side as int,
                    gx as int,
                    gz as int,
                    radius as int,
                    z as int,
                ),
                cells@ == done + brush_row(
                    heights@,
                    side as int,
                    gx as int,
                    gz as int,
                    radius as int,
                    z as int,
                    x as int,
                ),
            decreases r - x,
        {
            let ghost row_done = cells@;
            proof {
                assert(0 <= x * x <= 0x7fff_ffff * 0x7fff_ffff && 0 <= z * z <= 0x7fff_ffff
                    * 0x7fff_ffff) by (nonlinear_arith)
                    requires
                        0 <= x <= 0x7fff_ffff,
                        0 <= z <= 0x7fff_ffff,
                ;
            }
            if x * x + z * z <= limit {
                assert(in_disk(x as int, z as int, radius as int));
                reveal_with_fuel(ring_cells, 5);
                if x == 0 {
                    if z == 0 {
                        push_cell(&mut cells, heights, side, gx, gz, 0, 0);
                    } else {
                        push_cell(&mut cells, heights, side, gx, gz, 0, -z);
                        push_cell(&mut cells, heights, side, gx, gz, 0, z);
                    }
                } else if z == 0 {
                    push_cell(&mut cells, heights, side, gx, gz, -x, 0);
                    push_cell(&mut cells, heights, side, gx, gz, x, 0);
                } else {
                    push_cell(&mut cells, heights, side, gx, gz, -x, -z);
                    push_cell(&mut cells, heights, side, gx, gz, x, -z);
                    push_cell(&mut cells, heights, side, gx, gz, -x, z);
                    push_cell(&mut cells, heights, side, gx, gz, x, z);
                }
                assert(cells@ =~= row_done + brush_point(
                    heights@,
                    side as int,
                    gx as int,
                    gz as int,
                    radius as int,
                    x as int,
                    z as int,
                ));
            } else {
                assert(!in_disk(x as int, z as int, radius as int));
            }
            proof {
                let point = brush_point(
                    heights@,
                    side as int,
                    gx as int,
                    gz as int,
                    radius as int,
                    x as int,
                    z as int,
                );
                let row = brush_row(
                    heights@,
                    side as int,
                    gx as int,
                    gz as int,
                    radius as int,
                    z as int,
                    x as int,
                );
                assert(cells@ =~= done + (row + point));
            }
            x += 1;
        }
        z += 1;
    }
    proof {
        if r < 0 {
            assert(z == 0);
            assert(brush_rows(heights@, side as int, gx as int, gz as int, radius as int, radius as int)
                =~= brush_rows(heights@, side as int, gx as int, gz as int, radius as int, 0));
        } else {
            assert(z == radius);
        }
    }
    cells
}

/// A height held within the range of `i32`.
pub open spec fn clamp_height(v: int) -> i32 {
    if v < i32::MIN {
        i32::MIN
    } else if v > i32::MAX {
        i32::MAX
    } else {
        v as i32
    }
}

fn clamp_to_height(v: i64) -> (r: i32)
    ensures
        r == clamp_height(v as int),
{
    if v < i32::MIN as i64 {
        i32::MIN
    } else if v > i32::MAX as i64 {
        i32::MAX
    } else {
        v as i32
    }
}

/// The height that a directional brush gives a cell of height `current`.
///
/// Modes 0 and 1 raise or lower by `brush_height` (button 1 of mode 0 and
/// button 2 of mode 1 raise, the other two lower, never below 0), mode 2 sets
/// the height to `brush_height`, mode 3 lifts what lies below it, mode 4
/// levels what lies above it.  With the lock on, modes 0 to 2 touch only cells
/// at `locked_height`, where mode 2 raises by `brush_height`, and modes 3 and
/// 4 measure from `locked_height`.  Results are held within `i32`.
pub open spec fn directional_height(
    current: i32,
    mode: i32,
    brush_height: i32,
    button: i32,
    locked: bool,
    locked_height: i32,
) -> i32 {
    if (mode == 0 || mode == 1) && (!locked || current == locked_height) {
        if (mode == 0 && button == 1) || (mode == 1 && button == 2) {
            clamp_height(current + brush_height)
        } else if (mode == 1 && button == 1) || (mode == 0 && button == 2) {
            if current - brush_height < 0 {
                0
            } else {
                clamp_height(current - brush_height)
            }
        } else {
            current
        }
    } else if mode == 2 {
        if locked && current == locked_height {
            clamp_height(current + brush_height)
        } else if !locked {
            brush_height
        } else {
            current
        }
    } else if mode == 3 {
        if locked && current < locked_height + brush_height {
            clamp_height(locked_height + brush_height)
        } else if !locked && current < brush_height {
            brush_height
        } else {
            current
        }
    } else if mode == 4 {
        if locked && current > locked_height + brush_height {
            clamp_height(locked_height + brush_height)
        } else if !locked && current > brush_height {
            brush_height
        } else {
            current
        }
    } else {
        current
    }
}

/// The height that a directional brush gives a cell of height `current`.
pub fn brushed_height(
    current: i32,
    mode: i32,
    brush_height: i32,
    button: i32,
    locked: bool,
    locked_height: i32,
) -> (h: i32)
    ensures
        h == directional_height(current, mode, brush_height, button, locked, locked_height),
{
    let cur: i64 = current as i64;
    let brush: i64 = brush_height as i64;
    let lock: i64 = locked_height as i64;
    if (mode == 0 || mode == 1) && (!locked || current == locked_height) {
        if (mode == 0 && button == 1) || (mode == 1 && button == 2) {
            clamp_to_height(cur + brush)
        } else if (mode == 1 && button == 1) || (mode == 0 && button == 2) {
            if cur - brush < 0 {
                0
            } else {
                clamp_to_height(cur - brush)
            }
        } else {
            current
        }
    } else if mode == 2 {
        if locked && current == locked_height {
            clamp_to_height(cur + brush)
        } else if !locked {
            brush_height
        } else {
            current
        }
    } else if mode == 3 {
        if locked && cur < lock + brush {
            clamp_to_height(lock + brush)
        } else if !locked && current < brush_height {
            brush_height
        } else {
            current
        }
    } else if mode == 4 {
        if locked && cur > lock + brush {
            clamp_to_height(lock + brush)
        } else if !locked && current > brush_height {
            brush_height
        } else {
            current
        }
    } else {
        current
    }
}

/// The height that smoothing gives a cell of height `y` when the heights
/// around it sum to `total` over `count` cells: one unit towards their mean,
/// and unchanged where the mean is less than a unit away.
pub open spec fn smoothed_height(y: i32, total: int, count: int) -> int {
    if count * y + count <= total {
        y + 1
    } else if count * y - count >= total {
        y - 1
    } else {
        y as int
    }
}

/// Smoothing moves a height by at most one unit, towards the mean and never past it.
pub proof fn lemma_smoothing_is_gentle(y: i32, total: int, count: int)
    requires
        count >= 1,
    ensures
        ({
            let s = smoothed_height(y, total, count);
            &&& y - 1 <= s <= y + 1
            &&& s > y ==> count * s <= total
            &&& s < y ==> count * s >= total
            &&& s == y <==> -count < total - count * y < count
        }),
{
    assert(count * (y + 1) == count * y + count) by (nonlinear_arith);
    assert(count * (y - 1) == count * y - count) by (nonlinear_arith);
}

/// The height that smoothing gives a cell of height `y`.
pub fn smooth_step(y: i32, total: i128, count: usize) -> (h: i32)
    requires
        count >= 1,
        -0x8000_0000 * count <= total <= 0x7fff_ffff * count,
    ensures
        h == smoothed_height(y, total as int, count as int),
{
    let n: i128 = count as i128;
    proof {
        assert(-0x8000_0000 * count <= count * y <= 0x7fff_ffff * count) by (nonlinear_arith)
            requires
                -0x8000_0000 <= y <= 0x7fff_ffff,
                count >= 0,
        ;
    }
    let scaled: i128 = n * (y as i128);
    if scaled + n <= total {
        assert(y < 0x7fff_ffff) by (nonlinear_arith)
            requires
                count * y + count <= total,
                total <= 0x7fff_ffff * count,
                count >= 1,
        ;
        y + 1
    } else if scaled - n >= total {
        assert(y > -0x8000_0000) by (nonlinear_arith)
            requires
                count * y - count >= total,
                total >= -0x8000_0000 * count,
                count >= 1,
        ;
        y - 1
    } else {
        y
    }
}

/// The chunk that holds the cell `(x, z)`; chunks are numbered row by row.
pub open spec fn chunk_of(x: int, z: int, chunk_size: int, num_chunks: int) -> int {
    (z / chunk_size) * num_chunks + x / chunk_size
}

/// The step to the neighbouring chunk that a cell at place `p` in its chunk
/// puts on a seam: back from the first row or column, forward from the
/// second, where that neighbour exists.
pub open spec fn seam_step(p: int, chunk_size: int, num_chunks: int) -> int {
    if p % chunk_size == 0 && p / chunk_size > 0 {
        -1
    } else if p % chunk_size == 1 && p / chunk_size < num_chunks - 1 {
        1
    } else {
        0
    }
}

/// Whether an edit of the cell `(x, z)` puts chunk `chunk` on a seam: the
/// neighbours across the borders that the cell lies at, and across the corner
/// where it lies at two.
pub open spec fn on_seam_of(chunk: int, x: int, z: int, chunk_size: int, num_chunks: int) -> bool {
    let col = x / chunk_size;
    let row = z / chunk_size;
    let dx = seam_step(x, chunk_size, num_chunks);
    let dz = seam_step(z, chunk_size, num_chunks);
    ||| (dx != 0 && chunk == row * num_chunks + col + dx)
    ||| (dz != 0 && chunk == (row + dz) * num_chunks + col)
    ||| (dx != 0 && dz != 0 && chunk == (row + dz) * num_chunks + col + dx)
}

/// A cell of the grid lies in a chunk of the grid.
pub proof fn lemma_chunk_of(x: int, z: int, chunk_size: int, num_chunks: int)
    requires
        1 <= chunk_size,
        1 <= num_chunks,
        in_grid(chunk_size * num_chunks, x, z),
    ensures
        0 <= x / chunk_size < num_chunks,
        0 <= z / chunk_size < num_chunks,
        0 <= chunk_of(x, z, chunk_size, num_chunks) < num_chunks * num_chunks,
{
    assert(0 <= x / chunk_size < num_chunks) by (nonlinear_arith)
        requires
            0 <= x < chunk_size * num_chunks,
            1 <= chunk_size,
    ;
    assert(0 <= z / chunk_size < num_chunks) by (nonlinear_arith)
        requires
            0 <= z < chunk_size * num_chunks,
            1 <= chunk_size,
    ;
    lemma_grid_index(num_chunks, x / chunk_size, z / chunk_size);
}

/// The chunk that holds the cell `(x, z)`.
pub fn chunk_containing(x: usize, z: usize, chunk_size: usize, num_chunks: usize) -> (c: usize)
    requires
        1 <= chunk_size,
        1 <= num_chunks,
        in_grid(chunk_size * num_chunks, x as int, z as int),
        num_chunks * num_chunks <= usize::MAX,
    ensures
        c == chunk_of(x as int, z as int, chunk_size as int, num_chunks as int),
        c < num_chunks * num_chunks,
{
    proof {
        lemma_chunk_of(x as int, z as int, chunk_size as int, num_chunks as int);
        lemma_grid_index(num_chunks as int, x as int / chunk_size as int, z as int / chunk_size as int);
    }
    (z / chunk_size) * num_chunks + x / chunk_size
}

/// Marks the chunks that an edit of the cell `(x, z)` puts on a seam.
pub fn mark_seams(flags: &mut Vec<bool>, x: usize, z: usize, chunk_size: usize, num_chunks: usize)
    requires
        1 <= chunk_size,
        1 <= num_chunks,
        in_grid(chunk_size * num_chunks, x as int, z as int),
        old(flags)@.len() == num_chunks * num_chunks,
    ensures
        final(flags)@.len() == old(flags)@.len(),
        forall|c: int|
            0 <= c < old(flags)@.len() ==> final(flags)@[c] == (old(flags)@[c] || on_seam_of(
                c,
                x as int,
                z as int,
                chunk_size as int,
                num_chunks as int,
            )),
{
    proof {
        lemma_chunk_of(x as int, z as int, chunk_size as int, num_chunks as int);
        assert(flags@.len() == flags.len());
    }
    let col: usize = x / chunk_size;
    let row: usize = z / chunk_size;
    let x_back: bool = x % chunk_size == 0 && col > 0;
    let x_on: bool = !x_back && x % chunk_size == 1 && col < num_chunks - 1;
    let z_back: bool = z % chunk_size == 0 && row > 0;
    let z_on: bool = !z_back && z % chunk_size == 1 && row < num_chunks - 1;
    let side_col: usize = if x_back {
        col - 1
    } else if x_on {
        col + 1
    } else {
        col
    };
    let side_row: usize = if z_back {
        row - 1
    } else if z_on {
        row + 1
    } else {
        row
    };
    proof {
        lemma_grid_index(num_chunks as int, side_col as int, row as int);
        lemma_grid_index(num_chunks as int, col as int, side_row as int);
        lemma_grid_index(num_chunks as int, side_col as int, side_row as int);
    }
    if side_col != col {
        flags[row * num_chunks + side_col] = true;
    }
    if side_row != row {
        flags[side_row * num_chunks + col] = true;
    }
    if side_col != col && side_row != row {
        flags[side_row * num_chunks + side_col] = true;
    }
    proof {
        assert forall|c: int| 0 <= c < old(flags)@.len() implies flags@[c] == (old(flags)@[c]
            || on_seam_of(c, x as int, z as int, chunk_size as int, num_chunks as int)) by {
            let dx = seam_step(x as int, chunk_size as int, num_chunks as int);
            let dz = seam_step(z as int, chunk_size as int, num_chunks as int);
            assert(side_col == col + dx);
            assert(side_row == row + dz);
            assert((row + dz) * num_chunks == side_row * num_chunks);
        }
    }
}

} // verus!
