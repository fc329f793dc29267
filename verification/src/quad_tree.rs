//! A sparse quad-tree over a square grid of heights.
//!
//! A region that holds one height everywhere is a single leaf; a region that
//! does not is split into four quadrants of half the size.  After every
//! operation the tree is as small as its contents allow: no node keeps four
//! leaf children of equal height.

use crate::grid::{grid_at, lemma_grid_index, lemma_two_to_grows, two_to};
use crate::structs::Point3;
use vstd::prelude::*;

verus! {

/// Largest side length of a tree: coordinates are looked up as `i32`.
pub const MAX_TREE_SIZE: usize = 0x4000_0000;

/// Side lengths a tree can have: zero, or a power of two up to `MAX_TREE_SIZE`.
pub open spec fn is_tree_size(n: int) -> bool
    decreases n,
{
    n == 0 || n == 1 || (2 <= n <= MAX_TREE_SIZE && n % 2 == 0 && is_tree_size(n / 2))
}

/// The height that `cells` holds at `(x, z)`; 0 where it holds none.
pub open spec fn height_in(cells: Map<(int, int), i32>, x: int, z: int) -> i32 {
    if cells.dom().contains((x, z)) {
        cells[(x, z)]
    } else {
        0
    }
}

/// The square of side `size` at `(x0, z0)` holds one height everywhere.
pub open spec fn is_uniform(cells: Map<(int, int), i32>, x0: int, z0: int, size: nat) -> bool {
    forall|a: int, b: int|
        x0 <= a < x0 + size && z0 <= b < z0 + size ==> #[trigger] height_in(cells, a, b)
            == height_in(cells, x0, z0)
}

/// Number of nodes of the smallest quad-tree that stores `cells` on the
/// square of side `size` at `(x0, z0)`.
pub open spec fn canonical_nodes(cells: Map<(int, int), i32>, x0: int, z0: int, size: nat) -> nat
    decreases size,
{
    if size <= 1 || is_uniform(cells, x0, z0, size) {
        1
    } else {
        let half = size / 2;
        1 + canonical_nodes(cells, x0, z0, half) + canonical_nodes(cells, x0 + half, z0, half)
            + canonical_nodes(cells, x0, z0 + half, half) + canonical_nodes(
            cells,
            x0 + half,
            z0 + half,
            half,
        )
    }
}

/// Number of leaves of that smallest quad-tree.
pub open spec fn canonical_leaves(cells: Map<(int, int), i32>, x0: int, z0: int, size: nat) -> nat
    decreases size,
{
    if size <= 1 || is_uniform(cells, x0, z0, size) {
        1
    } else {
        let half = size / 2;
        canonical_leaves(cells, x0, z0, half) + canonical_leaves(cells, x0 + half, z0, half)
            + canonical_leaves(cells, x0, z0 + half, half) + canonical_leaves(
            cells,
            x0 + half,
            z0 + half,
            half,
        )
    }
}

/// The centers of the leaves of the smallest quad-tree that stores `cells` on
/// the square of side `size` at `(x0, z0)`, quadrant by quadrant: in half
/// units the x and z of the middle of the leaf, and twice its height as y.
pub open spec fn canonical_centers(cells: Map<(int, int), i32>, x0: int, z0: int, size: nat) -> Seq<
    Point3,
>
    decreases size,
{
    if size <= 1 || is_uniform(cells, x0, z0, size) {
        seq![
            Point3 {
                x: (2 * x0 + size) as i64,
                y: (2 * height_in(cells, x0, z0)) as i64,
                z: (2 * z0 + size) as i64,
            },
        ]
    } else {
        let half = size / 2;
        canonical_centers(cells, x0, z0, half) + canonical_centers(cells, x0 + half, z0, half)
            + canonical_centers(cells, x0, z0 + half, half) + canonical_centers(
            cells,
            x0 + half,
            z0 + half,
            half,
        )
    }
}

/// The cells after `height` is stored for `(x, z)` in a grid of side `side`:
/// outside the grid nothing is stored.
pub open spec fn insert_cell(cells: Map<(int, int), i32>, side: nat, x: int, z: int, height: i32) -> Map<
    (int, int),
    i32,
> {
    if 0 <= x < side && 0 <= z < side {
        cells.insert((x, z), height)
    } else {
        cells
    }
}

/// The cells after a sequence of inserts `(x, z, height)`, first to last.
pub open spec fn insert_all(cells: Map<(int, int), i32>, side: nat, ops: Seq<(int, int, i32)>) -> Map<
    (int, int),
    i32,
>
    decreases ops.len(),
{
    if ops.len() == 0 {
        cells
    } else {
        insert_cell(
            insert_all(cells, side, ops.drop_last()),
            side,
            ops.last().0,
            ops.last().1,
            ops.last().2,
        )
    }
}

/// Sum of the heights over the square of side `size` at `(x0, z0)`, for a
/// `size` that is a power of two.
pub open spec fn region_total(cells: Map<(int, int), i32>, x0: int, z0: int, size: nat) -> int
    decreases size,
{
    if size == 0 {
        0
    } else if size == 1 {
        height_in(cells, x0, z0) as int
    } else {
        let half = size / 2;
        region_total(cells, x0, z0, half) + region_total(cells, x0 + half, z0, half) + region_total(
            cells,
            x0,
            z0 + half,
            half,
        ) + region_total(cells, x0 + half, z0 + half, half)
    }
}

/// The square that a lookup at level of detail `lod` averages over: the
/// descent from the square of side `size` at `(x0, z0)` towards `(x, z)` stops
/// at the first square that holds one height or has a side of at most `2^lod`.
pub open spec fn lod_block(
    cells: Map<(int, int), i32>,
    x0: int,
    z0: int,
    size: nat,
    x: int,
    z: int,
    lod: nat,
) -> (int, int, nat)
    decreases size,
{
    if size <= 1 || size <= two_to(lod) || is_uniform(cells, x0, z0, size) {
        (x0, z0, size)
    } else {
        let half = size / 2;
        let x1 = if x >= x0 + half { x0 + half } else { x0 };
        let z1 = if z >= z0 + half { z0 + half } else { z0 };
        lod_block(cells, x1, z1, half, x, z, lod)
    }
}

/// The sum of the heights over a square and the number of its cells: their
/// quotient is the mean height.
#[derive(Clone, Copy, PartialEq, Eq, Debug)]
pub struct LodSample {
    pub total: i128,
    pub cells: u64,
}

/// Over a square of one height the total is that height times the number of cells.
proof fn lemma_uniform_total(cells: Map<(int, int), i32>, x0: int, z0: int, size: nat, h: i32)
    requires
        is_tree_size(size as int),
        forall|a: int, b: int|
            x0 <= a < x0 + size && z0 <= b < z0 + size ==> #[trigger] height_in(cells, a, b) == h,
    ensures
        region_total(cells, x0, z0, size) == h * (size * size),
    decreases size,
{
    if size == 0 {
        assert(h * (size * size) == 0) by (nonlinear_arith)
            requires
                size == 0,
        ;
    } else if size == 1 {
        assert(height_in(cells, x0, z0) == h);
        assert(h * (size * size) == h) by (nonlinear_arith)
            requires
                size == 1,
        ;
    } else {
        let half = size / 2;
        assert(size == 2 * half);
        lemma_uniform_total(cells, x0, z0, half, h);
        lemma_uniform_total(cells, x0 + half, z0, half, h);
        lemma_uniform_total(cells, x0, z0 + half, half, h);
        lemma_uniform_total(cells, x0 + half, z0 + half, half, h);
        assert(h * (half * half) + h * (half * half) + h * (half * half) + h * (half * half) == h
            * (size * size)) by (nonlinear_arith)
            requires
                size == 2 * half,
        ;
    }
}

/// The total over a square lies between the smallest and the largest `i32` times its cells.
proof fn lemma_total_bound(cells: Map<(int, int), i32>, x0: int, z0: int, size: nat)
    requires
        is_tree_size(size as int),
    ensures
        -0x8000_0000 * (size * size) <= region_total(cells, x0, z0, size) <= 0x8000_0000 * (size
            * size),
    decreases size,
{
    if size <= 1 {
        assert(size * size == size) by (nonlinear_arith)
            requires
                size == 0 || size == 1,
        ;
    } else {
        let half = size / 2;
        assert(size == 2 * half);
        lemma_total_bound(cells, x0, z0, half);
        lemma_total_bound(cells, x0 + half, z0, half);
        lemma_total_bound(cells, x0, z0 + half, half);
        lemma_total_bound(cells, x0 + half, z0 + half, half);
        assert(size * size == 4 * (half * half)) by (nonlinear_arith)
            requires
                size == 2 * half,
        ;
    }
}

/// Whether `size` is at most 2 to the power `lod`.
fn at_most_two_to(size: usize, lod: usize) -> (r: bool)
    requires
        size <= MAX_TREE_SIZE,
    ensures
        r == (size <= two_to(lod as nat)),
{
    let mut p: usize = 1;
    let mut k: usize = 0;
    while k < lod && p < size
        invariant
            k <= lod,
            p == two_to(k as nat),
            size <= MAX_TREE_SIZE,
            p <= 2 * MAX_TREE_SIZE,
        decreases lod - k,
    {
        p = p * 2;
        k = k + 1;
    }
    proof {
        lemma_two_to_grows(k as nat, lod as nat);
    }
    size <= p
}

struct Quad {
    x: usize,
    z: usize,
    size: usize,
    height: i32,
    children: Vec<Quad>,
}

impl Quad {
    spec fn contains_cell(&self, x: int, z: int) -> bool {
        self.x <= x < self.x + self.size && self.z <= z < self.z + self.size
    }

    spec fn divided(&self) -> bool {
        self.children@.len() == 4
    }

    /// Index of the quadrant that holds `(x, z)`: bit 0 is the x half, bit 1 the z half.
    spec fn quadrant(&self, x: int, z: int) -> int {
        (if x >= self.x + self.size / 2 { 1int } else { 0int })
            + (if z >= self.z + self.size / 2 { 2int } else { 0int })
    }

    /// All four children are leaves of one height.
    spec fn collapsible(&self) -> bool {
        &&& self.divided()
        &&& forall|q: int| 0 <= q < 4 ==> !(#[trigger] self.children@[q]).divided()
        &&& forall|q: int| 0 <= q < 4 ==> (#[trigger] self.children@[q]).height == self.children@[0].height
    }

    /// Everything the tree promises of a node but that it cannot be collapsed.
    spec fn wf_below(&self) -> bool
        decreases self,
    {
        &&& is_tree_size(self.size as int)
        &&& self.x + self.size <= MAX_TREE_SIZE
        &&& self.z + self.size <= MAX_TREE_SIZE
        &&& (self.children@.len() == 0 || self.children@.len() == 4)
        &&& self.divided() ==> {
            &&& self.size >= 2
            &&& forall|q: int| 0 <= q < 4 ==> {
                let c = #[trigger] self.children@[q];
                &&& c.wf_below()
                &&& !c.collapsible()
                &&& c.size == self.size / 2
                &&& c.x == self.x + (if q % 2 == 1 { self.size / 2 } else { 0 })
                &&& c.z == self.z + (if q >= 2 { self.size / 2 } else { 0 })
            }
        }
    }

    spec fn wf(&self) -> bool {
        self.wf_below() && !self.collapsible()
    }

    spec fn cell(&self, x: int, z: int) -> i32
        decreases self,
    {
        if !self.contains_cell(x, z) {
            0
        } else if !self.divided() {
            self.height
        } else {
            self.children@[self.quadrant(x, z)].cell(x, z)
        }
    }

    spec fn node_count(&self) -> nat
        decreases self,
    {
        if self.divided() {
            1 + self.children@[0].node_count() + self.children@[1].node_count()
                + self.children@[2].node_count() + self.children@[3].node_count()
        } else {
            1
        }
    }

    spec fn leaf_count(&self) -> nat
        decreases self,
    {
        if self.divided() {
            self.children@[0].leaf_count() + self.children@[1].leaf_count()
                + self.children@[2].leaf_count() + self.children@[3].leaf_count()
        } else {
            1
        }
    }

    fn contains_xz(&self, x: i32, z: i32) -> (r: bool)
        requires
            self.x + self.size <= MAX_TREE_SIZE,
            self.z + self.size <= MAX_TREE_SIZE,
        ensures
            r == self.contains_cell(x as int, z as int),
    {
        x >= 0 && z >= 0 && x as usize >= self.x && (x as usize) < self.x + self.size
            && z as usize >= self.z && (z as usize) < self.z + self.size
    }

    fn is_divided(&self) -> (r: bool)
        ensures
            r == self.divided(),
    {
        self.children.len() == 4
    }

    fn quadrant_of(&self, x: i32, z: i32) -> (q: usize)
        requires
            self.wf_below(),
            self.contains_cell(x as int, z as int),
        ensures
            q == self.quadrant(x as int, z as int),
            q < 4,
    {
        let half: usize = self.size / 2;
        let qx: usize = if x as usize >= self.x + half { 1 } else { 0 };
        let qz: usize = if z as usize >= self.z + half { 2 } else { 0 };
        qx + qz
    }

    /// The cells of this node, as a map over its own square.
    spec fn own_cells(&self) -> Map<(int, int), i32> {
        Map::new(
            |p: (int, int)| self.contains_cell(p.0, p.1),
            |p: (int, int)| self.cell(p.0, p.1),
        )
    }

    fn value_of(&self, x: i32, z: i32) -> (r: i32)
        requires
            self.wf_below(),
        ensures
            r == self.cell(x as int, z as int),
        decreases self.size,
    {
        if !self.contains_xz(x, z) {
            return 0;
        }
        if !self.is_divided() {
            return self.height;
        }
        let q: usize = self.quadrant_of(x, z);
        self.children[q].value_of(x, z)
    }

    fn count_nodes(&self) -> (r: usize)
        requires
            self.wf(),
            4 * self.size * self.size <= usize::MAX,
        ensures
            r == self.node_count(),
        decreases self.size,
    {
        if !self.is_divided() {
            return 1;
        }
        proof {
            self.lemma_canonical(self.own_cells());
            let half = self.size / 2;
            assert(4 * half * half <= 4 * self.size * self.size) by (nonlinear_arith)
                requires
                    0 <= half <= self.size,
            ;
        }
        let a: usize = self.children[0].count_nodes();
        let b: usize = self.children[1].count_nodes();
        let c: usize = self.children[2].count_nodes();
        let d: usize = self.children[3].count_nodes();
        1 + a + b + c + d
    }

    fn count_leaves(&self) -> (r: usize)
        requires
            self.wf(),
            4 * self.size * self.size <= usize::MAX,
        ensures
            r == self.leaf_count(),
        decreases self.size,
    {
        if !self.is_divided() {
            return 1;
        }
        proof {
            self.lemma_canonical(self.own_cells());
            let half = self.size / 2;
            assert(4 * half * half <= 4 * self.size * self.size) by (nonlinear_arith)
                requires
                    0 <= half <= self.size,
            ;
        }
        let a: usize = self.children[0].count_leaves();
        let b: usize = self.children[1].count_leaves();
        let c: usize = self.children[2].count_leaves();
        let d: usize = self.children[3].count_leaves();
        a + b + c + d
    }

    /// Sum of the heights over the node's square.
    fn total(&self, Ghost(cells): Ghost<Map<(int, int), i32>>) -> (r: i128)
        requires
            self.wf_below(),
            forall|a: int, b: int|
                self.contains_cell(a, b) ==> #[trigger] height_in(cells, a, b) == self.cell(a, b),
        ensures
            r == region_total(cells, self.x as int, self.z as int, self.size as nat),
        decreases self.size,
    {
        proof {
            lemma_total_bound(cells, self.x as int, self.z as int, self.size as nat);
            assert(0 <= self.size * self.size <= 0x4000_0000 * 0x4000_0000) by (nonlinear_arith)
                requires
                    0 <= self.size <= 0x4000_0000,
            ;
        }
        if !self.is_divided() {
            proof {
                lemma_uniform_total(
                    cells,
                    self.x as int,
                    self.z as int,
                    self.size as nat,
                    self.height,
                );
            }
            let area: i128 = (self.size as i128) * (self.size as i128);
            proof {
                assert(-0x8000_0000 * area <= self.height * area <= 0x8000_0000 * area)
                    by (nonlinear_arith)
                    requires
                        -0x8000_0000 <= self.height <= 0x8000_0000,
                        0 <= area,
                ;
            }
            return (self.height as i128) * area;
        }
        let ghost half = (self.size / 2) as nat;
        proof {
            assert forall|q: int, a: int, b: int|
                0 <= q < 4 && (#[trigger] self.children@[q]).contains_cell(a, b) implies #[trigger] height_in(
                cells,
                a,
                b,
            ) == self.children@[q].cell(a, b) by {
                self.lemma_child_cells(q, a, b);
            }
            lemma_total_bound(cells, self.x as int, self.z as int, half);
            lemma_total_bound(cells, self.x + half, self.z as int, half);
            lemma_total_bound(cells, self.x as int, self.z + half, half);
            lemma_total_bound(cells, self.x + half, self.z + half, half);
            assert(0 <= half * half <= 0x4000_0000 * 0x4000_0000) by (nonlinear_arith)
                requires
                    0 <= half <= 0x4000_0000,
            ;
        }
        let a: i128 = self.children[0].total(Ghost(cells));
        let b: i128 = self.children[1].total(Ghost(cells));
        let c: i128 = self.children[2].total(Ghost(cells));
        let d: i128 = self.children[3].total(Ghost(cells));
        a + b + c + d
    }

    /// The total and the cell count of the square that a lookup at `lod` averages over.
    fn lod_sample(&self, x: i32, z: i32, lod: usize, Ghost(cells): Ghost<Map<(int, int), i32>>) -> (r:
        LodSample)
        requires
            self.wf(),
            self.contains_cell(x as int, z as int),
            forall|a: int, b: int|
                self.contains_cell(a, b) ==> #[trigger] height_in(cells, a, b) == self.cell(a, b),
        ensures
            ({
                let block = lod_block(
                    cells,
                    self.x as int,
                    self.z as int,
                    self.size as nat,
                    x as int,
                    z as int,
                    lod as nat,
                );
                &&& r.total == region_total(cells, block.0, block.1, block.2)
                &&& r.cells == block.2 * block.2
            }),
        decreases self.size,
    {
        proof {
            self.lemma_canonical(cells);
        }
        if !self.is_divided() || at_most_two_to(self.size, lod) {
            proof {
                assert(0 <= self.size * self.size <= 0x4000_0000 * 0x4000_0000) by (nonlinear_arith)
                    requires
                        0 <= self.size <= 0x4000_0000,
                ;
            }
            return LodSample {
                total: self.total(Ghost(cells)),
                cells: (self.size as u64) * (self.size as u64),
            };
        }
        let q: usize = self.quadrant_of(x, z);
        proof {
            self.lemma_quadrant_contains(x as int, z as int);
            assert forall|a: int, b: int| self.children@[q as int].contains_cell(a, b) implies #[trigger] height_in(
                cells,
                a,
                b,
            ) == self.children@[q as int].cell(a, b) by {
                self.lemma_child_cells(q as int, a, b);
            }
        }
        self.children[q].lod_sample(x, z, lod, Ghost(cells))
    }

    /// The centers of the leaves of the subtree, each node before its
    /// quadrants: in half units the x and z of the middle of the leaf, and
    /// twice its height as y.
    spec fn centers(&self) -> Seq<Point3>
        decreases self,
    {
        if self.divided() {
            self.children@[0].centers() + self.children@[1].centers() + self.children@[2].centers()
                + self.children@[3].centers()
        } else {
            seq![
                Point3 {
                    x: (2 * self.x + self.size) as i64,
                    y: (2 * self.height) as i64,
                    z: (2 * self.z + self.size) as i64,
                },
            ]
        }
    }

    fn push_centers(&self, out: &mut Vec<Point3>)
        requires
            self.wf_below(),
        ensures
            final(out)@ == old(out)@ + self.centers(),
        decreases self.size,
    {
        if !self.is_divided() {
            out.push(
                Point3 {
                    x: 2 * (self.x as i64) + self.size as i64,
                    y: 2 * (self.height as i64),
                    z: 2 * (self.z as i64) + self.size as i64,
                },
            );
            assert(out@ =~= old(out)@ + self.centers());
            return ;
        }
        self.children[0].push_centers(out);
        self.children[1].push_centers(out);
        self.children[2].push_centers(out);
        self.children[3].push_centers(out);
        assert(out@ =~= old(out)@ + self.centers());
    }

    proof fn lemma_quadrant_contains(&self, x: int, z: int)
        requires
            self.wf_below(),
            self.divided(),
            self.contains_cell(x, z),
        ensures
            0 <= self.quadrant(x, z) < 4,
            self.children@[self.quadrant(x, z)].contains_cell(x, z),
    {
        let q = self.quadrant(x, z);
        let c = self.children@[q];
        assert(self.size % 2 == 0);
    }

    proof fn lemma_child_cells(&self, q: int, a: int, b: int)
        requires
            self.wf_below(),
            self.divided(),
            0 <= q < 4,
            self.children@[q].contains_cell(a, b),
        ensures
            self.contains_cell(a, b),
            self.quadrant(a, b) == q,
            self.cell(a, b) == self.children@[q].cell(a, b),
    {
        assert(self.size % 2 == 0);
    }

    /// The centers of a well-formed node are those of the smallest tree for its cells.
    proof fn lemma_centers(&self, cells: Map<(int, int), i32>)
        requires
            self.wf(),
            self.size >= 1,
            forall|a: int, b: int|
                self.contains_cell(a, b) ==> #[trigger] height_in(cells, a, b) == self.cell(a, b),
        ensures
            self.centers() == canonical_centers(
                cells,
                self.x as int,
                self.z as int,
                self.size as nat,
            ),
        decreases self.size,
    {
        self.lemma_canonical(cells);
        if self.divided() {
            let half = (self.size / 2) as nat;
            assert(self.size == 2 * half);
            assert forall|q: int| 0 <= q < 4 implies (#[trigger] self.children@[q]).centers()
                == canonical_centers(
                cells,
                self.children@[q].x as int,
                self.children@[q].z as int,
                half,
            ) by {
                let c = self.children@[q];
                assert forall|a: int, b: int| c.contains_cell(a, b) implies #[trigger] height_in(
                    cells,
                    a,
                    b,
                ) == c.cell(a, b) by {
                    self.lemma_child_cells(q, a, b);
                }
                c.lemma_centers(cells);
            }
            let c0 = self.children@[0];
            let c1 = self.children@[1];
            let c2 = self.children@[2];
            let c3 = self.children@[3];
            assert(c0.x == self.x && c0.z == self.z);
            assert(c1.x == self.x + half && c1.z == self.z);
            assert(c2.x == self.x && c2.z == self.z + half);
            assert(c3.x == self.x + half && c3.z == self.z + half);
        } else {
            assert(self.contains_cell(self.x as int, self.z as int));
            assert(self.cell(self.x as int, self.z as int) == self.height);
        }
    }

    proof fn lemma_centers_len(&self)
        requires
            self.wf_below(),
        ensures
            self.centers().len() == self.leaf_count(),
        decreases self.size,
    {
        if self.divided() {
            self.children@[0].lemma_centers_len();
            self.children@[1].lemma_centers_len();
            self.children@[2].lemma_centers_len();
            self.children@[3].lemma_centers_len();
        }
    }

    /// A well-formed node is the smallest tree for the cells it stores.
    proof fn lemma_canonical(&self, cells: Map<(int, int), i32>)
        requires
            self.wf(),
            forall|a: int, b: int|
                self.contains_cell(a, b) ==> #[trigger] height_in(cells, a, b) == self.cell(a, b),
        ensures
            self.node_count() == canonical_nodes(cells, self.x as int, self.z as int, self.size as nat),
            self.leaf_count() == canonical_leaves(
                cells,
                self.x as int,
                self.z as int,
                self.size as nat,
            ),
            self.divided() <==> !(self.size <= 1 || is_uniform(
                cells,
                self.x as int,
                self.z as int,
                self.size as nat,
            )),
            3 * self.node_count() + 1 <= 4 * self.size * self.size || self.size == 0,
            self.leaf_count() <= self.node_count(),
        decreases self.size,
    {
        let x0 = self.x as int;
        let z0 = self.z as int;
        let n = self.size as nat;
        if !self.divided() {
            if n >= 1 {
                assert(4 <= 4 * self.size * self.size) by (nonlinear_arith)
                    requires
                        self.size >= 1,
                ;
                assert(self.contains_cell(x0, z0));
                assert(is_uniform(cells, x0, z0, n));
            }
        } else {
            let half = (self.size / 2) as nat;
            assert(self.size == 2 * half);
            let hh = half * half;
            assert(4 * self.size * self.size == 16 * hh && 4 * half * half == 4 * hh)
                by (nonlinear_arith)
                requires
                    self.size == 2 * half,
                    hh == half * half,
            ;
            assert forall|q: int| 0 <= q < 4 implies {
                let c = #[trigger] self.children@[q];
                &&& c.node_count() == canonical_nodes(cells, c.x as int, c.z as int, half)
                &&& c.leaf_count() == canonical_leaves(cells, c.x as int, c.z as int, half)
                &&& (c.divided() <==> !(half <= 1 || is_uniform(cells, c.x as int, c.z as int, half)))
                &&& 3 * c.node_count() + 1 <= 4 * half * half
                &&& c.leaf_count() <= c.node_count()
            } by {
                let c = self.children@[q];
                assert forall|a: int, b: int| c.contains_cell(a, b) implies #[trigger] height_in(
                    cells,
                    a,
                    b,
                ) == c.cell(a, b) by {
                    self.lemma_child_cells(q, a, b);
                }
                c.lemma_canonical(cells);
            }
            let c0 = self.children@[0];
            let c1 = self.children@[1];
            let c2 = self.children@[2];
            let c3 = self.children@[3];
            if is_uniform(cells, x0, z0, n) {
                let h = height_in(cells, x0, z0);
                assert forall|q: int| 0 <= q < 4 implies !(#[trigger] self.children@[q]).divided()
                    && self.children@[q].height == h by {
                    let c = self.children@[q];
                    assert(c.contains_cell(c.x as int, c.z as int));
                    self.lemma_child_cells(q, c.x as int, c.z as int);
                    assert(height_in(cells, c.x as int, c.z as int) == h);
                    assert forall|a: int, b: int|
                        c.x <= a < c.x + half && c.z <= b < c.z + half implies #[trigger] height_in(
                        cells,
                        a,
                        b,
                    ) == height_in(cells, c.x as int, c.z as int) by {
                        assert(c.contains_cell(a, b));
                        self.lemma_child_cells(q, a, b);
                        assert(height_in(cells, a, b) == h);
                    }
                    assert(is_uniform(cells, c.x as int, c.z as int, half));
                    assert(c.cell(c.x as int, c.z as int) == c.height);
                }
                assert(self.collapsible());
            }
            assert(3 * c0.node_count() + 1 <= 4 * hh);
            assert(3 * c1.node_count() + 1 <= 4 * hh);
            assert(3 * c2.node_count() + 1 <= 4 * hh);
            assert(3 * c3.node_count() + 1 <= 4 * hh);
            assert(c0.x == x0 && c0.z == z0);
            assert(c1.x == x0 + half && c1.z == z0);
            assert(c2.x == x0 && c2.z == z0 + half);
            assert(c3.x == x0 + half && c3.z == z0 + half);
        }
    }

    /// Turns a leaf into four leaf quadrants of the same height.
    fn split(&mut self)
        requires
            old(self).wf_below(),
            !old(self).divided(),
            old(self).size >= 2,
        ensures
            final(self).wf_below(),
            final(self).divided(),
            final(self).x == old(self).x,
            final(self).z == old(self).z,
            final(self).size == old(self).size,
            final(self).height == old(self).height,
            forall|q: int|
                0 <= q < 4 ==> !(#[trigger] final(self).children@[q]).divided()
                    && final(self).children@[q].height == old(self).height,
            forall|a: int, b: int| final(self).cell(a, b) == old(self).cell(a, b),
    {
        let half: usize = self.size / 2;
        let h: i32 = self.height;
        let mut kids: Vec<Quad> = Vec::new();
        kids.push(Quad { x: self.x, z: self.z, size: half, height: h, children: Vec::new() });
        kids.push(Quad { x: self.x + half, z: self.z, size: half, height: h, children: Vec::new() });
        kids.push(Quad { x: self.x, z: self.z + half, size: half, height: h, children: Vec::new() });
        kids.push(
            Quad { x: self.x + half, z: self.z + half, size: half, height: h, children: Vec::new() },
        );
        self.children = kids;
        proof {
            assert(is_tree_size(half as int));
            assert(self.children@[0].wf_below());
            assert(self.children@[1].wf_below());
            assert(self.children@[2].wf_below());
            assert(self.children@[3].wf_below());
            assert(self.wf_below());
            assert forall|a: int, b: int| self.cell(a, b) == old(self).cell(a, b) by {
                if self.contains_cell(a, b) {
                    self.lemma_quadrant_contains(a, b);
                    let c = self.children@[self.quadrant(a, b)];
                    assert(c.cell(a, b) == h);
                }
            }
        }
    }

    /// Merges four leaf children of one height back into their parent.
    fn collapse(&mut self)
        requires
            old(self).wf_below(),
        ensures
            final(self).wf(),
            final(self).x == old(self).x,
            final(self).z == old(self).z,
            final(self).size == old(self).size,
            final(self).divided() ==> final(self).height == old(self).height,
            forall|a: int, b: int| final(self).cell(a, b) == old(self).cell(a, b),
    {
        if self.children.len() == 4 {
            let h: i32 = self.children[0].height;
            let can_collapse: bool = !self.children[0].is_divided() && !self.children[1].is_divided()
                && self.children[1].height == h && !self.children[2].is_divided()
                && self.children[2].height == h && !self.children[3].is_divided()
                && self.children[3].height == h;
            if can_collapse {
                proof {
                    assert forall|a: int, b: int| old(self).cell(a, b) == (if old(self).contains_cell(
                        a,
                        b,
                    ) {
                        h
                    } else {
                        0
                    }) by {
                        if old(self).contains_cell(a, b) {
                            old(self).lemma_quadrant_contains(a, b);
                            let c = old(self).children@[old(self).quadrant(a, b)];
                            assert(c.cell(a, b) == h);
                        }
                    }
                }
                self.height = h;
                self.children = Vec::new();
            } else {
                assert(!self.collapsible()) by {
                    if self.collapsible() {
                        assert(self.children@[1].height == h);
                        assert(self.children@[2].height == h);
                        assert(self.children@[3].height == h);
                    }
                }
            }
        }
    }

    /// Sets the cell `(x, z)` to `height`, if the node holds that cell.
    fn insert_at(&mut self, x: i32, z: i32, height: i32)
        requires
            old(self).wf(),
        ensures
            final(self).wf(),
            final(self).x == old(self).x,
            final(self).z == old(self).z,
            final(self).size == old(self).size,
            final(self).divided() ==> final(self).height == old(self).height,
            !old(self).contains_cell(x as int, z as int) ==> *final(self) == *old(self),
            forall|a: int, b: int|
                final(self).cell(a, b) == (if a == x && b == z && old(self).contains_cell(a, b) {
                    height
                } else {
                    old(self).cell(a, b)
                }),
        decreases old(self).size,
    {
        if !self.contains_xz(x, z) {
            return ;
        }
        if !self.is_divided() {
            if self.size == 1 || height == self.height {
                self.height = height;
                return ;
            }
            self.split();
        }
        let q: usize = self.quadrant_of(x, z);
        let ghost before = *self;
        proof {
            before.lemma_quadrant_contains(x as int, z as int);
        }
        self.children[q].insert_at(x, z, height);
        proof {
            assert(self.wf_below());
            assert forall|a: int, b: int|
                self.cell(a, b) == (if a == x && b == z && before.contains_cell(a, b) {
                    height
                } else {
                    before.cell(a, b)
                }) by {
                if before.contains_cell(a, b) {
                    before.lemma_quadrant_contains(a, b);
                }
            }
        }
        self.collapse();
    }
}

/// Whether the square of side `size` at `(x, z)` of the grid `heights` holds `first` everywhere.
fn region_holds(heights: &Vec<i32>, side: usize, x: usize, z: usize, size: usize, first: i32) -> (r:
    bool)
    requires
        x + size <= side,
        z + size <= side,
        heights@.len() == side * side,
    ensures
        r == forall|a: int, b: int|
            x <= a < x + size && z <= b < z + size ==> #[trigger] grid_at(heights@, side as int, a, b)
                == first,
{
    let mut b: usize = z;
    while b < z + size
        invariant
            z <= b <= z + size,
            x + size <= side,
            z + size <= side,
            heights@.len() == side * side,
            forall|a: int, bb: int|
                x <= a < x + size && z <= bb < b ==> #[trigger] grid_at(heights@, side as int, a, bb)
                    == first,
        decreases z + size - b,
    {
        let mut a: usize = x;
        while a < x + size
            invariant
                x <= a <= x + size,
                z <= b < z + size,
                x + size <= side,
                z + size <= side,
                heights@.len() == side * side,
                forall|aa: int, bb: int|
                    x <= aa < x + size && z <= bb < b ==> #[trigger] grid_at(
                        heights@,
                        side as int,
                        aa,
                        bb,
                    ) == first,
                forall|aa: int| x <= aa < a ==> #[trigger] grid_at(heights@, side as int, aa, b as int) == first,
            decreases x + size - a,
        {
            proof {
                lemma_grid_index(side as int, a as int, b as int);
                assert(heights@.len() == heights.len());
            }
            if heights[b * side + a] != first {
                assert(grid_at(heights@, side as int, a as int, b as int) != first);
                return false;
            }
            a += 1;
        }
        b += 1;
    }
    true
}

/// Builds the smallest tree for the square of side `size` at `(x, z)` of the grid `heights`.
fn build(heights: &Vec<i32>, side: usize, x: usize, z: usize, size: usize, base: i32) -> (node: Quad)
    requires
        is_tree_size(size as int),
        size >= 1,
        x + size <= side,
        z + size <= side,
        side <= MAX_TREE_SIZE,
        heights@.len() == side * side,
    ensures
        node.wf(),
        node.x == x,
        node.z == z,
        node.size == size,
        node.divided() ==> node.height == base,
        forall|a: int, b: int|
            node.contains_cell(a, b) ==> node.cell(a, b) == #[trigger] grid_at(
                heights@,
                side as int,
                a,
                b,
            ),
    decreases size,
{
    proof {
        lemma_grid_index(side as int, x as int, z as int);
        assert(heights@.len() == heights.len());
    }
    let first: i32 = heights[z * side + x];
    if size == 1 || region_holds(heights, side, x, z, size, first) {
        return Quad { x, z, size, height: first, children: Vec::new() };
    }
    let half: usize = size / 2;
    let mut kids: Vec<Quad> = Vec::new();
    kids.push(build(heights, side, x, z, half, base));
    kids.push(build(heights, side, x + half, z, half, base));
    kids.push(build(heights, side, x, z + half, half, base));
    kids.push(build(heights, side, x + half, z + half, half, base));
    let node = Quad { x, z, size, height: base, children: kids };
    proof {
        assert(node.wf_below());
        assert forall|a: int, b: int| node.contains_cell(a, b) implies node.cell(a, b)
            == #[trigger] grid_at(heights@, side as int, a, b) by {
            node.lemma_quadrant_contains(a, b);
            let c = node.children@[node.quadrant(a, b)];
            assert(c.cell(a, b) == grid_at(heights@, side as int, a, b));
        }
        if node.collapsible() {
            assert forall|a: int, b: int|
                x <= a < x + size && z <= b < z + size implies #[trigger] grid_at(
                heights@,
                side as int,
                a,
                b,
            ) == first by {
                assert(node.contains_cell(a, b));
                node.lemma_quadrant_contains(a, b);
                let c = node.children@[node.quadrant(a, b)];
                let c0 = node.children@[0];
                assert(!c.divided() && !c0.divided());
                assert(c.cell(a, b) == c.height);
                assert(c.cell(a, b) == grid_at(heights@, side as int, a, b));
                assert(c0.contains_cell(x as int, z as int));
                assert(c0.cell(x as int, z as int) == c0.height);
                assert(c0.cell(x as int, z as int) == grid_at(heights@, side as int, x as int, z as int));
                assert(c.height == c0.height);
            }
        }
    }
    node
}

/// What was inserted last is what a lookup gives: after any sequence of
/// inserts that ends with one inside the grid, the cell of that last insert
/// holds its height.
pub proof fn lemma_last_insert_is_read(
    cells: Map<(int, int), i32>,
    side: nat,
    ops: Seq<(int, int, i32)>,
)
    requires
        ops.len() > 0,
        0 <= ops.last().0 < side,
        0 <= ops.last().1 < side,
    ensures
        height_in(insert_all(cells, side, ops), ops.last().0, ops.last().1) == ops.last().2,
{
}

/// An insert changes no cell but its own.
pub proof fn lemma_insert_keeps_others(
    cells: Map<(int, int), i32>,
    side: nat,
    x: int,
    z: int,
    height: i32,
    a: int,
    b: int,
)
    requires
        a != x || b != z,
    ensures
        height_in(insert_cell(cells, side, x, z, height), a, b) == height_in(cells, a, b),
{
}

/// A grid that holds one height everywhere is stored as a single node.
pub proof fn lemma_uniform_grid_is_one_node(cells: Map<(int, int), i32>, side: nat, h: i32)
    requires
        forall|x: int, z: int| 0 <= x < side && 0 <= z < side ==> height_in(cells, x, z) == h,
    ensures
        canonical_nodes(cells, 0, 0, side) == 1,
        canonical_leaves(cells, 0, 0, side) == 1,
{
    if side > 1 {
        assert(is_uniform(cells, 0, 0, side));
    }
}

/// At level of detail 0 the mean is the height of the cell itself: the total
/// over the square that is averaged is that height times the number of its cells.
pub proof fn lemma_lod_zero_is_value(
    cells: Map<(int, int), i32>,
    x0: int,
    z0: int,
    size: nat,
    x: int,
    z: int,
)
    requires
        is_tree_size(size as int),
        x0 <= x < x0 + size,
        z0 <= z < z0 + size,
    ensures
        ({
            let block = lod_block(cells, x0, z0, size, x, z, 0);
            &&& block.2 >= 1
            &&& region_total(cells, block.0, block.1, block.2) == height_in(cells, x, z) * (block.2
                * block.2)
        }),
    decreases size,
{
    assert(two_to(0) == 1);
    if size <= 1 {
        lemma_uniform_total(cells, x0, z0, size, height_in(cells, x, z));
    } else if is_uniform(cells, x0, z0, size) {
        assert(height_in(cells, x, z) == height_in(cells, x0, z0));
        lemma_uniform_total(cells, x0, z0, size, height_in(cells, x, z));
    } else {
        let half = size / 2;
        assert(size == 2 * half);
        let x1 = if x >= x0 + half { x0 + half } else { x0 };
        let z1 = if z >= z0 + half { z0 + half } else { z0 };
        lemma_lod_zero_is_value(cells, x1, z1, half, x, z);
    }
}

/// A square grid of heights, stored as a quad-tree that splits only where heights differ.
pub struct QuadTree {
    size: usize,
    root: Quad,
}

impl View for QuadTree {
    type V = Map<(int, int), i32>;

    /// The height of every cell of the grid.
    open spec fn view(&self) -> Map<(int, int), i32> {
        Map::new(
            |p: (int, int)| 0 <= p.0 < self.side() && 0 <= p.1 < self.side(),
            |p: (int, int)| self.cell(p.0, p.1),
        )
    }
}

impl QuadTree {
    /// The invariant of the tree: it is the smallest quad-tree for its cells.
    pub closed spec fn wf(&self) -> bool {
        &&& self.root.wf()
        &&& self.root.x == 0
        &&& self.root.z == 0
        &&& self.root.size == self.size
        &&& self.size == 0 ==> self.root.height == 0
        &&& 4 * self.size * self.size <= usize::MAX
    }

    /// Side length of the grid.
    pub closed spec fn side(&self) -> nat {
        self.size as nat
    }

    /// The height stored for `(x, z)`; 0 outside the grid.
    pub closed spec fn cell(&self, x: int, z: int) -> i32 {
        self.root.cell(x, z)
    }

    /// The height the whole grid had when it last held a single height (0 for
    /// a new tree): `clear` spreads it over the grid.
    pub closed spec fn fill_height(&self) -> i32 {
        self.root.height
    }

    /// Outside the grid every lookup gives 0, and the view agrees with `cell`.
    pub proof fn lemma_cells(&self)
        requires
            self.wf(),
        ensures
            forall|x: int, z: int| height_in(self@, x, z) == self.cell(x, z),
            is_tree_size(self.side() as int),
            self.side() <= MAX_TREE_SIZE,
    {
    }

    proof fn lemma_root_canonical(&self)
        requires
            self.wf(),
        ensures
            self.root.node_count() == canonical_nodes(self@, 0, 0, self.side()),
            self.root.leaf_count() == canonical_leaves(self@, 0, 0, self.side()),
            self.root.divided() <==> !(self.side() <= 1 || is_uniform(self@, 0, 0, self.side())),
            self.root.node_count() <= usize::MAX,
            !self.root.divided() && self.side() >= 1 ==> self.root.height == height_in(self@, 0, 0),
    {
        self.lemma_cells();
        self.root.lemma_canonical(self@);
    }

    /// A tree over a grid of side `size` with height 0 everywhere.
    pub fn new(size: usize) -> (tree: Self)
        requires
            is_tree_size(size as int),
            4 * size * size <= usize::MAX,
        ensures
            tree.wf(),
            tree.side() == size,
            tree.fill_height() == 0,
            forall|x: int, z: int| tree.cell(x, z) == 0,
    {
        QuadTree { size, root: Quad { x: 0, z: 0, size, height: 0, children: Vec::new() } }
    }

    /// Number of nodes of the tree.
    pub fn len(&self) -> (n: usize)
        requires
            self.wf(),
        ensures
            n == canonical_nodes(self@, 0, 0, self.side()),
    {
        proof {
            self.lemma_root_canonical();
        }
        self.root.count_nodes()
    }

    /// Number of leaves of the tree.
    pub fn num_leaf_nodes(&self) -> (n: usize)
        requires
            self.wf(),
        ensures
            n == canonical_leaves(self@, 0, 0, self.side()),
    {
        proof {
            self.lemma_root_canonical();
        }
        self.root.count_leaves()
    }

    /// Makes the tree a single leaf again, of the height it last held as one.
    pub fn clear(&mut self)
        requires
            old(self).wf(),
        ensures
            final(self).wf(),
            final(self).side() == old(self).side(),
            final(self).fill_height() == old(self).fill_height(),
            forall|x: int, z: int|
                final(self).cell(x, z) == (if 0 <= x < old(self).side() && 0 <= z < old(self).side() {
                    old(self).fill_height()
                } else {
                    0
                }),
    {
        self.root.children = Vec::new();
    }

    /// The height stored for `(x, z)`; 0 outside the grid.
    pub fn value_at(&self, x: i32, z: i32) -> (h: i32)
        requires
            self.wf(),
        ensures
            h == height_in(self@, x as int, z as int),
    {
        proof {
            self.lemma_cells();
        }
        self.root.value_of(x, z)
    }

    /// Stores `height` for the cell `(x, z)`; outside the grid nothing changes.
    pub fn insert(&mut self, x: i32, z: i32, height: i32)
        requires
            old(self).wf(),
        ensures
            final(self).wf(),
            final(self).side() == old(self).side(),
            final(self)@ == (if 0 <= x < old(self).side() && 0 <= z < old(self).side() {
                old(self)@.insert((x as int, z as int), height)
            } else {
                old(self)@
            }),
            final(self).fill_height() == (if final(self).side() >= 1 && is_uniform(
                final(self)@,
                0,
                0,
                final(self).side(),
            ) {
                height_in(final(self)@, 0, 0)
            } else {
                old(self).fill_height()
            }),
    {
        self.root.insert_at(x, z, height);
        proof {
            self.lemma_root_canonical();
            old(self).lemma_root_canonical();
            if 0 <= x < old(self).side() && 0 <= z < old(self).side() {
                assert(self@ =~= old(self)@.insert((x as int, z as int), height));
            } else {
                assert(self@ =~= old(self)@);
            }
        }
    }

    /// The mean height around `(x, z)` at level of detail `lod`, as a total and
    /// a cell count: that of the smallest square of the tree that holds
    /// `(x, z)` and has one height or a side of at most `2^lod`.  Outside the
    /// grid the total is 0, over one cell.
    pub fn value_at_lod(&self, x: i32, z: i32, lod: usize) -> (r: LodSample)
        requires
            self.wf(),
        ensures
            0 <= x < self.side() && 0 <= z < self.side() ==> ({
                let block = lod_block(self@, 0, 0, self.side(), x as int, z as int, lod as nat);
                &&& r.total == region_total(self@, block.0, block.1, block.2)
                &&& r.cells == block.2 * block.2
            }),
            !(0 <= x < self.side() && 0 <= z < self.side()) ==> r.total == 0 && r.cells == 1,
    {
        if !self.root.contains_xz(x, z) {
            return LodSample { total: 0, cells: 1 };
        }
        proof {
            self.lemma_cells();
        }
        self.root.lod_sample(x, z, lod, Ghost(self@))
    }

    /// The centers of the leaves, quadrant by quadrant: in half units the x
    /// and z of the middle of each leaf, and twice its height as y.
    pub fn get_centers(&self) -> (centers: Vec<Point3>)
        requires
            self.wf(),
        ensures
            centers@ == canonical_centers(self@, 0, 0, self.side()),
            centers@.len() == canonical_leaves(self@, 0, 0, self.side()),
    {
        let mut centers: Vec<Point3> = Vec::new();
        self.root.push_centers(&mut centers);
        proof {
            self.lemma_root_canonical();
            self.root.lemma_centers_len();
            self.lemma_cells();
            if self.size >= 1 {
                self.root.lemma_centers(self@);
            } else {
                assert(!self.root.divided());
                assert(height_in(self@, 0, 0) == 0);
            }
            assert(centers@ =~= self.root.centers());
        }
        centers
    }

    /// The grid as a row-major array of `side * side` heights.
    pub fn to_heightmap(&self) -> (heights: Vec<i32>)
        requires
            self.wf(),
        ensures
            heights@.len() == self.side() * self.side(),
            forall|x: int, z: int|
                0 <= x < self.side() && 0 <= z < self.side() ==> #[trigger] grid_at(
                    heights@,
                    self.side() as int,
                    x,
                    z,
                ) == self.cell(x, z),
    {
        let n: usize = self.size;
        let mut heights: Vec<i32> = Vec::new();
        let mut z: usize = 0;
        while z < n
            invariant
                self.wf(),
                n == self.size,
                z <= n,
                heights@.len() == z * n,
                forall|a: int, b: int|
                    0 <= a < n && 0 <= b < z ==> #[trigger] grid_at(heights@, n as int, a, b)
                        == self.cell(a, b),
            decreases n - z,
        {
            let mut x: usize = 0;
            while x < n
                invariant
                    self.wf(),
                    n == self.size,
                    z < n,
                    x <= n,
                    heights@.len() == z * n + x,
                    forall|a: int, b: int|
                        0 <= a < n && 0 <= b < z ==> #[trigger] grid_at(heights@, n as int, a, b)
                            == self.cell(a, b),
                    forall|a: int| 0 <= a < x ==> #[trigger] grid_at(heights@, n as int, a, z as int) == self.cell(a, z as int),
                decreases n - x,
            {
                let ghost before = heights@;
                let h: i32 = self.root.value_of(x as i32, z as i32);
                heights.push(h);
                proof {
                    assert forall|a: int, b: int| 0 <= a < n && 0 <= b < z implies #[trigger] grid_at(
                        heights@,
                        n as int,
                        a,
                        b,
                    ) == self.cell(a, b) by {
                        lemma_grid_index(n as int, a, b);
                        assert(b * n + a < z * n) by (nonlinear_arith)
                            requires
                                0 <= a < n,
                                0 <= b < z,
                        ;
                        assert(grid_at(before, n as int, a, b) == self.cell(a, b));
                    }
                    assert forall|a: int| 0 <= a < x + 1 implies #[trigger] grid_at(
                        heights@,
                        n as int,
                        a,
                        z as int,
                    ) == self.cell(a, z as int) by {
                        if a < x {
                            assert(grid_at(before, n as int, a, z as int) == self.cell(a, z as int));
                        }
                    }
                }
                x += 1;
            }
            proof {
                assert((z + 1) * n == z * n + n) by (nonlinear_arith);
            }
            z += 1;
        }
        heights
    }

    /// Rebuilds the tree from a row-major array of `side * side` heights.
    pub fn from_heightmap(&mut self, heights: &Vec<i32>)
        requires
            old(self).wf(),
            heights@.len() == old(self).side() * old(self).side(),
        ensures
            final(self).wf(),
            final(self).side() == old(self).side(),
            forall|x: int, z: int|
                0 <= x < final(self).side() && 0 <= z < final(self).side() ==> final(self).cell(x, z)
                    == #[trigger] grid_at(heights@, final(self).side() as int, x, z),
            final(self).fill_height() == (if final(self).side() >= 1 && is_uniform(
                final(self)@,
                0,
                0,
                final(self).side(),
            ) {
                height_in(final(self)@, 0, 0)
            } else {
                old(self).fill_height()
            }),
    {
        if self.size >= 1 {
            proof {
                old(self).lemma_root_canonical();
            }
            let base: i32 = self.root.height;
            self.root = build(heights, self.size, 0, 0, self.size, base);
            proof {
                self.lemma_root_canonical();
            }
        }
    }
}

} // verus!
