//! A sparse oct-tree over a cube of color indices.
//!
//! A leaf holds one color for its whole cube.  Storing a different color in
//! a leaf larger than one cell splits it into eight octants of half the side,
//! again and again along the way to the cell, until the cell is a leaf of its
//! own.  Leaves are never merged again.

use crate::history::{color_place, lemma_color_place, palette_with};
use crate::quad_tree::{is_tree_size, MAX_TREE_SIZE};
use crate::structs::Color8;
use vstd::prelude::*;

verus! {

/// A cube of cells: its corner of least coordinates and its side.
pub struct Block {
    pub x: int,
    pub y: int,
    pub z: int,
    pub size: int,
}

impl Block {
    /// Whether the cell `(x, y, z)` lies in the cube.
    pub open spec fn holds(self, x: int, y: int, z: int) -> bool {
        self.x <= x < self.x + self.size && self.y <= y < self.y + self.size && self.z <= z
            < self.z + self.size
    }

    /// The octant of the cube that holds `(x, y, z)`.
    pub open spec fn octant_of(self, x: int, y: int, z: int) -> Block {
        let half = self.size / 2;
        Block {
            x: if x >= self.x + half { self.x + half } else { self.x },
            y: if y >= self.y + half { self.y + half } else { self.y },
            z: if z >= self.z + half { self.z + half } else { self.z },
            size: half,
        }
    }
}

/// The leaf that holds the cell `q` after the leaf `b` is split all the way
/// down to the cell `p`: an octant that parts `q` from `p`, or the cell `p` itself.
pub open spec fn split_leaf(b: Block, p: (int, int, int), q: (int, int, int)) -> Block
    decreases b.size,
{
    if b.size <= 1 {
        b
    } else if b.octant_of(p.0, p.1, p.2) == b.octant_of(q.0, q.1, q.2) {
        split_leaf(b.octant_of(p.0, p.1, p.2), p, q)
    } else {
        b.octant_of(q.0, q.1, q.2)
    }
}

/// How often a cube of side `size` is halved until its side is 1.
pub open spec fn halvings(size: int) -> nat
    decreases size,
{
    if size <= 1 {
        0
    } else {
        1 + halvings(size / 2)
    }
}

/// A node of the tree: a cube with one color, or with eight octants.
pub struct OctNode {
    x: usize,
    y: usize,
    z: usize,
    size: usize,
    children: Vec<OctNode>,
    color: usize,
}

impl OctNode {
    /// The cube of the node.
    pub closed spec fn block(&self) -> Block {
        Block { x: self.x as int, y: self.y as int, z: self.z as int, size: self.size as int }
    }

    /// Whether the node has octants.
    pub closed spec fn divided(&self) -> bool {
        self.children@.len() == 8
    }

    spec fn octant_index(&self, x: int, y: int, z: int) -> int {
        (if x >= self.x + self.size / 2 { 1int } else { 0int }) + (if z >= self.z + self.size / 2 {
            2int
        } else {
            0int
        }) + (if y >= self.y + self.size / 2 { 4int } else { 0int })
    }

    /// The invariant of a node, for a palette of `colors` colors.
    pub closed spec fn wf(&self, colors: int) -> bool
        decreases self,
    {
        &&& is_tree_size(self.size as int)
        &&& self.x + self.size <= MAX_TREE_SIZE
        &&& self.y + self.size <= MAX_TREE_SIZE
        &&& self.z + self.size <= MAX_TREE_SIZE
        &&& self.color < colors
        &&& (self.children@.len() == 0 || self.children@.len() == 8)
        &&& self.divided() ==> {
            &&& self.size >= 2
            &&& forall|q: int|
                0 <= q < 8 ==> {
                    let c = #[trigger] self.children@[q];
                    &&& c.wf(colors)
                    &&& c.size == self.size / 2
                    &&& c.x == self.x + (if q % 2 == 1 { self.size / 2 } else { 0 })
                    &&& c.z == self.z + (if (q / 2) % 2 == 1 { self.size / 2 } else { 0 })
                    &&& c.y == self.y + (if q >= 4 { self.size / 2 } else { 0 })
                }
        }
    }

    /// The color index stored for the cell `(x, y, z)`; 0 outside the cube.
    pub closed spec fn cell(&self, x: int, y: int, z: int) -> usize
        decreases self,
    {
        if !self.block().holds(x, y, z) {
            0
        } else if !self.divided() {
            self.color
        } else {
            self.children@[self.octant_index(x, y, z)].cell(x, y, z)
        }
    }

    /// The leaf that holds the cell `(x, y, z)` of the cube.
    pub closed spec fn leaf_of(&self, x: int, y: int, z: int) -> Block
        decreases self,
    {
        if !self.block().holds(x, y, z) || !self.divided() {
            self.block()
        } else {
            self.children@[self.octant_index(x, y, z)].leaf_of(x, y, z)
        }
    }

    /// Number of nodes of the subtree.
    pub closed spec fn node_count(&self) -> nat
        decreases self,
    {
        if self.divided() {
            1 + self.children@[0].node_count() + self.children@[1].node_count()
                + self.children@[2].node_count() + self.children@[3].node_count()
                + self.children@[4].node_count() + self.children@[5].node_count()
                + self.children@[6].node_count() + self.children@[7].node_count()
        } else {
            1
        }
    }

    /// Number of leaves of the subtree.
    pub closed spec fn leaf_count(&self) -> nat
        decreases self,
    {
        if self.divided() {
            self.children@[0].leaf_count() + self.children@[1].leaf_count()
                + self.children@[2].leaf_count() + self.children@[3].leaf_count()
                + self.children@[4].leaf_count() + self.children@[5].leaf_count()
                + self.children@[6].leaf_count() + self.children@[7].leaf_count()
        } else {
            1
        }
    }

    /// Whether the node has octants.
    pub fn is_divided(&self) -> (r: bool)
        ensures
            r == self.divided(),
    {
        self.children.len() == 8
    }

    /// Whether the cube of the node holds the cell `(x, y, z)`.
    pub fn contains(&self, x: i32, y: i32, z: i32) -> (r: bool)
        requires
            self.block().x + self.block().size <= MAX_TREE_SIZE,
            self.block().y + self.block().size <= MAX_TREE_SIZE,
            self.block().z + self.block().size <= MAX_TREE_SIZE,
        ensures
            r == self.block().holds(x as int, y as int, z as int),
    {
        x >= 0 && y >= 0 && z >= 0 && x as usize >= self.x && (x as usize) < self.x + self.size
            && y as usize >= self.y && (y as usize) < self.y + self.size && z as usize >= self.z && (
        z as usize) < self.z + self.size
    }

    fn octant(&self, x: i32, y: i32, z: i32) -> (q: usize)
        requires
            self.wf_bounds(),
            self.block().holds(x as int, y as int, z as int),
        ensures
            q == self.octant_index(x as int, y as int, z as int),
            q < 8,
    {
        let half: usize = self.size / 2;
        let qx: usize = if x as usize >= self.x + half { 1 } else { 0 };
        let qz: usize = if z as usize >= self.z + half { 2 } else { 0 };
        let qy: usize = if y as usize >= self.y + half { 4 } else { 0 };
        qx + qz + qy
    }

    spec fn wf_bounds(&self) -> bool {
        &&& self.x + self.size <= MAX_TREE_SIZE
        &&& self.y + self.size <= MAX_TREE_SIZE
        &&& self.z + self.size <= MAX_TREE_SIZE
    }

    proof fn lemma_octant(&self, colors: int, x: int, y: int, z: int)
        requires
            self.wf(colors),
            self.divided(),
            self.block().holds(x, y, z),
        ensures
            0 <= self.octant_index(x, y, z) < 8,
            self.children@[self.octant_index(x, y, z)].block() == self.block().octant_of(x, y, z),
            self.children@[self.octant_index(x, y, z)].block().holds(x, y, z),
            self.children@[self.octant_index(x, y, z)].wf(colors),
    {
        let q = self.octant_index(x, y, z);
        let c = self.children@[q];
        assert(self.size % 2 == 0);
    }

    fn value_of(&self, Ghost(colors): Ghost<int>, x: i32, y: i32, z: i32) -> (r: usize)
        requires
            self.wf(colors),
        ensures
            r == self.cell(x as int, y as int, z as int),
            r < colors,
        decreases self.size,
    {
        if !self.contains(x, y, z) {
            return 0;
        }
        if !self.is_divided() {
            return self.color;
        }
        proof {
            self.lemma_octant(colors, x as int, y as int, z as int);
        }
        let q: usize = self.octant(x, y, z);
        self.children[q].value_of(Ghost(colors), x, y, z)
    }

    /// Every cell of a node holds a color of the palette.
    proof fn lemma_cell_in_palette(&self, colors: int, x: int, y: int, z: int)
        requires
            self.wf(colors),
        ensures
            self.cell(x, y, z) < colors,
        decreases self.size,
    {
        if self.block().holds(x, y, z) && self.divided() {
            self.lemma_octant(colors, x, y, z);
            self.children@[self.octant_index(x, y, z)].lemma_cell_in_palette(colors, x, y, z);
        }
    }

    /// More colors in the palette leave a node in order.
    proof fn lemma_more_colors(&self, colors: int, more: int)
        requires
            self.wf(colors),
            colors <= more,
        ensures
            self.wf(more),
        decreases self,
    {
        if self.divided() {
            assert forall|q: int| 0 <= q < 8 implies (#[trigger] self.children@[q]).wf(more) by {
                self.children@[q].lemma_more_colors(colors, more);
            }
        }
    }

    /// The leaf of a cell of the cube lies in the cube and holds the cell.
    proof fn lemma_leaf_inside(&self, colors: int, x: int, y: int, z: int)
        requires
            self.wf(colors),
            self.block().holds(x, y, z),
        ensures
            self.leaf_of(x, y, z).holds(x, y, z),
            self.block().x <= self.leaf_of(x, y, z).x,
            self.block().y <= self.leaf_of(x, y, z).y,
            self.block().z <= self.leaf_of(x, y, z).z,
            self.leaf_of(x, y, z).x + self.leaf_of(x, y, z).size <= self.block().x
                + self.block().size,
            self.leaf_of(x, y, z).y + self.leaf_of(x, y, z).size <= self.block().y
                + self.block().size,
            self.leaf_of(x, y, z).z + self.leaf_of(x, y, z).size <= self.block().z
                + self.block().size,
            self.divided() ==> self.leaf_of(x, y, z).size < self.block().size,
        decreases self.size,
    {
        if self.divided() {
            self.lemma_octant(colors, x, y, z);
            let c = self.children@[self.octant_index(x, y, z)];
            c.lemma_leaf_inside(colors, x, y, z);
        }
    }

    /// Turns a leaf into eight leaf octants of the same color.
    fn split(&mut self, Ghost(colors): Ghost<int>)
        requires
            old(self).wf(colors),
            !old(self).divided(),
            old(self).size >= 2,
        ensures
            final(self).wf(colors),
            final(self).divided(),
            final(self).block() == old(self).block(),
            final(self).color == old(self).color,
            forall|q: int|
                0 <= q < 8 ==> !(#[trigger] final(self).children@[q]).divided()
                    && final(self).children@[q].color == old(self).color,
            final(self).node_count() == 9,
            final(self).leaf_count() == 8,
    {
        let half: usize = self.size / 2;
        let color: usize = self.color;
        let mut kids: Vec<OctNode> = Vec::new();
        let mut q: usize = 0;
        assert(is_tree_size(half as int));
        while q < 8
            invariant
                q <= 8,
                kids@.len() == q,
                half == self.size / 2,
                self.size >= 2,
                self.size % 2 == 0,
                is_tree_size(half as int),
                color == self.color,
                color < colors,
                self.wf_bounds(),
                forall|k: int|
                    0 <= k < q ==> {
                        let c = #[trigger] kids@[k];
                        &&& c.wf(colors)
                        &&& !c.divided()
                        &&& c.color == color
                        &&& c.size == half
                        &&& c.x == self.x + (if k % 2 == 1 { half } else { 0 })
                        &&& c.z == self.z + (if (k / 2) % 2 == 1 { half } else { 0 })
                        &&& c.y == self.y + (if k >= 4 { half } else { 0 })
                        &&& c.node_count() == 1
                        &&& c.leaf_count() == 1
                    },
            decreases 8 - q,
        {
            let child = OctNode {
                x: self.x + (if q % 2 == 1 { half } else { 0 }),
                y: self.y + (if q >= 4 { half } else { 0 }),
                z: self.z + (if (q / 2) % 2 == 1 { half } else { 0 }),
                size: half,
                children: Vec::new(),
                color,
            };
            assert(child.wf(colors));
            kids.push(child);
            q += 1;
        }
        self.children = kids;
    }

    /// Stores the color index `color` for the cell `(x, y, z)`, if the node holds that cell.
    #[verifier::rlimit(60)]
    fn insert_at(&mut self, Ghost(colors): Ghost<int>, x: i32, y: i32, z: i32, color: usize)
        requires
            old(self).wf(colors),
            color < colors,
        ensures
            final(self).wf(colors),
            final(self).block() == old(self).block(),
            forall|a: int, b: int, c: int|
                final(self).cell(a, b, c) == (if a == x && b == y && c == z && old(self).block().holds(
                    a,
                    b,
                    c,
                ) {
                    color
                } else {
                    old(self).cell(a, b, c)
                }),
            forall|a: int, b: int, c: int|
                final(self).leaf_of(a, b, c) == (if splits_at(*old(self), x as int, y as int, z as int, color)
                    && old(self).leaf_of(x as int, y as int, z as int).holds(a, b, c) {
                    split_leaf(
                        old(self).leaf_of(x as int, y as int, z as int),
                        (x as int, y as int, z as int),
                        (a, b, c),
                    )
                } else {
                    old(self).leaf_of(a, b, c)
                }),
            final(self).color == (if !old(self).divided() && !final(self).divided()
                && old(self).block().holds(x as int, y as int, z as int) {
                color
            } else {
                old(self).color
            }),
            final(self).node_count() == old(self).node_count() + (if splits_at(
                *old(self),
                x as int,
                y as int,
                z as int,
                color,
            ) {
                8 * halvings(old(self).leaf_of(x as int, y as int, z as int).size)
            } else {
                0
            }),
            final(self).leaf_count() == old(self).leaf_count() + (if splits_at(
                *old(self),
                x as int,
                y as int,
                z as int,
                color,
            ) {
                7 * halvings(old(self).leaf_of(x as int, y as int, z as int).size)
            } else {
                0
            }),
        decreases old(self).size,
    {
        if !self.contains(x, y, z) {
            return ;
        }
        let ghost p = (x as int, y as int, z as int);
        if !self.is_divided() {
            if self.size == 1 || color == self.color {
                self.color = color;
                proof {
                    assert(halvings(1) == 0);
                }
                return ;
            }
            self.split(Ghost(colors));
        }
        let ghost before = *self;
        proof {
            before.lemma_octant(colors, x as int, y as int, z as int);
        }
        let q: usize = self.octant(x, y, z);
        let ghost child_before = before.children@[q as int];
        self.children[q].insert_at(Ghost(colors), x, y, z, color);
        proof {
            let child_after = self.children@[q as int];
            assert(self.wf(colors));
            assert forall|a: int, b: int, c: int|
                self.cell(a, b, c) == (if a == x && b == y && c == z && old(self).block().holds(a, b, c) {
                    color
                } else {
                    old(self).cell(a, b, c)
                }) by {
                if before.block().holds(a, b, c) {
                    before.lemma_octant(colors, a, b, c);
                    let k = before.octant_index(a, b, c);
                    assert(self.children@[k].cell(a, b, c) == (if k == q {
                        child_after.cell(a, b, c)
                    } else {
                        before.children@[k].cell(a, b, c)
                    }));
                    if !old(self).divided() {
                        assert(before.children@[k].cell(a, b, c) == old(self).color);
                    }
                }
            }
            child_before.lemma_leaf_inside(colors, x as int, y as int, z as int);
            assert forall|a: int, b: int, c: int|
                self.leaf_of(a, b, c) == (if splits_at(*old(self), x as int, y as int, z as int, color)
                    && old(self).leaf_of(x as int, y as int, z as int).holds(a, b, c) {
                    split_leaf(old(self).leaf_of(x as int, y as int, z as int), p, (a, b, c))
                } else {
                    old(self).leaf_of(a, b, c)
                }) by {
                if before.block().holds(a, b, c) {
                    before.lemma_octant(colors, a, b, c);
                    let k = before.octant_index(a, b, c);
                    assert(self.leaf_of(a, b, c) == self.children@[k].leaf_of(a, b, c));
                    if k != q {
                        assert(self.children@[k] == before.children@[k]);
                        assert(!child_before.block().holds(a, b, c));
                    }
                    if !old(self).divided() {
                        assert(before.children@[k].leaf_of(a, b, c) == before.children@[k].block());
                        assert(child_before.cell(x as int, y as int, z as int) == old(self).color);
                        assert(child_before.leaf_of(x as int, y as int, z as int)
                            == child_before.block());
                    }
                }
            }
            if !old(self).divided() {
                assert(child_before.cell(x as int, y as int, z as int) == old(self).color);
                assert(child_before.leaf_of(x as int, y as int, z as int) == child_before.block());
                assert(halvings(old(self).size as int) == 1 + halvings(old(self).size as int / 2));
            }
            lemma_counts_after(before, *self, q as int);
        }
    }

    /// A node has at most two nodes for each of its cells.
    proof fn lemma_count_bound(&self, colors: int)
        requires
            self.wf(colors),
        ensures
            self.size >= 1 ==> 7 * self.node_count() + 1 <= 8 * (self.size * self.size * self.size),
            self.size == 0 ==> self.node_count() == 1,
            self.leaf_count() <= self.node_count(),
        decreases self.size,
    {
        if !self.divided() {
            if self.size >= 1 {
                assert(1 <= self.size * self.size * self.size) by (nonlinear_arith)
                    requires
                        self.size >= 1,
                ;
            }
        } else {
            let half = (self.size / 2) as int;
            assert(self.size == 2 * half);
            let cube = half * half * half;
            assert(self.size * self.size * self.size == 8 * cube) by (nonlinear_arith)
                requires
                    self.size == 2 * half,
                    cube == half * half * half,
            ;
            assert forall|q: int| 0 <= q < 8 implies 7 * (#[trigger] self.children@[q]).node_count()
                + 1 <= 8 * cube && self.children@[q].leaf_count()
                <= self.children@[q].node_count() by {
                self.children@[q].lemma_count_bound(colors);
            }
            assert(7 * self.children@[0].node_count() + 1 <= 8 * cube);
            assert(7 * self.children@[1].node_count() + 1 <= 8 * cube);
            assert(7 * self.children@[2].node_count() + 1 <= 8 * cube);
            assert(7 * self.children@[3].node_count() + 1 <= 8 * cube);
            assert(7 * self.children@[4].node_count() + 1 <= 8 * cube);
            assert(7 * self.children@[5].node_count() + 1 <= 8 * cube);
            assert(7 * self.children@[6].node_count() + 1 <= 8 * cube);
            assert(7 * self.children@[7].node_count() + 1 <= 8 * cube);
        }
    }

    fn count_nodes(&self, Ghost(colors): Ghost<int>) -> (r: usize)
        requires
            self.wf(colors),
            2 * (self.size * self.size * self.size) <= usize::MAX,
        ensures
            r == self.node_count(),
        decreases self.size,
    {
        if !self.is_divided() {
            return 1;
        }
        proof {
            self.lemma_count_bound(colors);
            let half = self.size / 2;
            assert(half * half * half <= self.size * self.size * self.size) by (nonlinear_arith)
                requires
                    0 <= half <= self.size,
            ;
            assert forall|q: int| 0 <= q < 8 implies (#[trigger] self.children@[q]).node_count()
                >= 1 by {
                self.children@[q].lemma_count_bound(colors);
            }
        }
        let mut total: usize = 1;
        let mut q: usize = 0;
        while q < 8
            invariant
                q <= 8,
                self.wf(colors),
                self.divided(),
                2 * ((self.size / 2) * (self.size / 2) * (self.size / 2)) <= usize::MAX,
                self.node_count() <= usize::MAX,
                total == partial_nodes(self.children@, q as int) + 1,
                total <= self.node_count(),
            decreases 8 - q,
        {
            proof {
                reveal_with_fuel(partial_nodes, 9);
                assert(self.node_count() == 1 + partial_nodes(self.children@, 8));
                lemma_partial_grows(self.children@, q + 1, 8);
            }
            let c: usize = self.children[q].count_nodes(Ghost(colors));
            total = total + c;
            q += 1;
        }
        proof {
            reveal_with_fuel(partial_nodes, 9);
        }
        total
    }

    fn count_leaves(&self, Ghost(colors): Ghost<int>) -> (r: usize)
        requires
            self.wf(colors),
            2 * (self.size * self.size * self.size) <= usize::MAX,
        ensures
            r == self.leaf_count(),
        decreases self.size,
    {
        if !self.is_divided() {
            return 1;
        }
        proof {
            self.lemma_count_bound(colors);
            let half = self.size / 2;
            assert(half * half * half <= self.size * self.size * self.size) by (nonlinear_arith)
                requires
                    0 <= half <= self.size,
            ;
        }
        let mut total: usize = 0;
        let mut q: usize = 0;
        while q < 8
            invariant
                q <= 8,
                self.wf(colors),
                self.divided(),
                2 * ((self.size / 2) * (self.size / 2) * (self.size / 2)) <= usize::MAX,
                self.leaf_count() <= usize::MAX,
                total == partial_leaves(self.children@, q as int),
                total <= self.leaf_count(),
            decreases 8 - q,
        {
            proof {
                reveal_with_fuel(partial_leaves, 9);
                assert(self.leaf_count() == partial_leaves(self.children@, 8));
                lemma_partial_grows(self.children@, q + 1, 8);
            }
            let c: usize = self.children[q].count_leaves(Ghost(colors));
            total = total + c;
            q += 1;
        }
        proof {
            reveal_with_fuel(partial_leaves, 9);
        }
        total
    }
}

/// Whether storing `color` for the cell `(x, y, z)` splits a leaf or sets a
/// cell of its own: whether the node holds the cell with another color.
pub open spec fn splits_at(node: OctNode, x: int, y: int, z: int, color: usize) -> bool {
    node.block().holds(x, y, z) && node.cell(x, y, z) != color
}

/// The counts of a node when one of its octants changes.
proof fn lemma_counts_after(before: OctNode, after: OctNode, q: int)
    requires
        before.divided(),
        after.divided(),
        0 <= q < 8,
        forall|k: int| 0 <= k < 8 && k != q ==> after.children@[k] == before.children@[k],
    ensures
        after.node_count() - after.children@[q].node_count() == before.node_count()
            - before.children@[q].node_count(),
        after.leaf_count() - after.children@[q].leaf_count() == before.leaf_count()
            - before.children@[q].leaf_count(),
{
    assert(after.children@[0] == before.children@[0] || q == 0);
    assert(after.children@[1] == before.children@[1] || q == 1);
    assert(after.children@[2] == before.children@[2] || q == 2);
    assert(after.children@[3] == before.children@[3] || q == 3);
    assert(after.children@[4] == before.children@[4] || q == 4);
    assert(after.children@[5] == before.children@[5] || q == 5);
    assert(after.children@[6] == before.children@[6] || q == 6);
    assert(after.children@[7] == before.children@[7] || q == 7);
}

/// Number of nodes of the first `n` subtrees.
spec fn partial_nodes(children: Seq<OctNode>, n: int) -> nat
    decreases n,
{
    if n <= 0 {
        0
    } else {
        partial_nodes(children, n - 1) + children[n - 1].node_count()
    }
}

/// Number of leaves of the first `n` subtrees.
spec fn partial_leaves(children: Seq<OctNode>, n: int) -> nat
    decreases n,
{
    if n <= 0 {
        0
    } else {
        partial_leaves(children, n - 1) + children[n - 1].leaf_count()
    }
}

proof fn lemma_partial_grows(children: Seq<OctNode>, a: int, b: int)
    requires
        a <= b,
    ensures
        partial_nodes(children, a) <= partial_nodes(children, b),
        partial_leaves(children, a) <= partial_leaves(children, b),
    decreases b - a,
{
    if a < b {
        lemma_partial_grows(children, a, b - 1);
    }
}

/// The color index that a cube of side `side`, stored layer by layer and row
/// by row, holds at `(x, y, z)`.
pub open spec fn cube_at(indices: Seq<usize>, side: int, x: int, y: int, z: int) -> usize {
    indices[(y * side + z) * side + x]
}

/// A cell of the cube has its place in the array.
pub proof fn lemma_cube_index(side: int, x: int, y: int, z: int)
    requires
        0 <= x < side,
        0 <= y < side,
        0 <= z < side,
    ensures
        0 <= y * side + z < side * side,
        0 <= (y * side + z) * side + x < side * side * side,
        0 <= (y * side + z) * side <= side * side * side - side,
        0 <= y * side <= side * side,
        side * side <= side * side * side,
{
    assert(side * side <= side * side * side) by (nonlinear_arith)
        requires
            side >= 1,
    ;
    crate::grid::lemma_grid_index(side, z, y);
    let row = y * side + z;
    assert(0 <= row * side <= (side * side - 1) * side) by (nonlinear_arith)
        requires
            0 <= row <= side * side - 1,
            0 < side,
    ;
    assert((side * side - 1) * side == side * side * side - side) by (nonlinear_arith);
}

/// Whether the block holds one color index everywhere in the cube `indices`.
pub open spec fn block_uniform(indices: Seq<usize>, side: int, b: Block) -> bool {
    forall|x: int, y: int, z: int|
        b.holds(x, y, z) ==> #[trigger] cube_at(indices, side, x, y, z) == cube_at(
            indices,
            side,
            b.x,
            b.y,
            b.z,
        )
}

/// The leaf that holds the cell `(x, y, z)` in the tree built from the cube
/// `indices`: the block is split until it holds one color index.
pub open spec fn built_leaf(indices: Seq<usize>, side: int, b: Block, x: int, y: int, z: int) -> Block
    decreases b.size,
{
    if b.size <= 1 || block_uniform(indices, side, b) {
        b
    } else {
        built_leaf(indices, side, b.octant_of(x, y, z), x, y, z)
    }
}

/// The octant of a block with number `q`: bit 0 of `q` is the x half, bit 1
/// the z half, bit 2 the y half.
pub open spec fn numbered_octant(b: Block, q: int) -> Block {
    let half = b.size / 2;
    Block {
        x: b.x + (if q % 2 == 1 { half } else { 0 }),
        y: b.y + (if q >= 4 { half } else { 0 }),
        z: b.z + (if (q / 2) % 2 == 1 { half } else { 0 }),
        size: half,
    }
}

/// Number of nodes of the tree built from the cube `indices` for the first `n` octants of `b`.
pub open spec fn built_nodes_of(indices: Seq<usize>, side: int, b: Block, n: int) -> nat
    decreases b.size, n,
{
    if n <= 0 || b.size <= 1 {
        0
    } else {
        built_nodes_of(indices, side, b, n - 1) + built_nodes(
            indices,
            side,
            numbered_octant(b, n - 1),
        )
    }
}

/// Number of nodes of the tree built from the cube `indices` for the block `b`.
pub open spec fn built_nodes(indices: Seq<usize>, side: int, b: Block) -> nat
    decreases b.size, 9int,
{
    if b.size <= 1 || block_uniform(indices, side, b) {
        1
    } else {
        1 + built_nodes_of(indices, side, b, 8)
    }
}

/// Whether the block of side `size` at `(x, y, z)` holds `first` everywhere.
fn block_holds(indices: &Vec<usize>, side: usize, x: usize, y: usize, z: usize, size: usize, first: usize) -> (r:
    bool)
    requires
        x + size <= side,
        y + size <= side,
        z + size <= side,
        indices@.len() == side * side * side,
    ensures
        r == forall|a: int, b: int, c: int|
            (Block { x: x as int, y: y as int, z: z as int, size: size as int }).holds(a, b, c)
                ==> #[trigger] cube_at(indices@, side as int, a, b, c) == first,
{
    let ghost block = Block { x: x as int, y: y as int, z: z as int, size: size as int };
    let mut b: usize = y;
    while b < y + size
        invariant
            y <= b <= y + size,
            x + size <= side,
            y + size <= side,
            z + size <= side,
            indices@.len() == side * side * side,
            block == (Block { x: x as int, y: y as int, z: z as int, size: size as int }),
            forall|a: int, bb: int, c: int|
                block.holds(a, bb, c) && bb < b ==> #[trigger] cube_at(indices@, side as int, a, bb, c)
                    == first,
        decreases y + size - b,
    {
        let mut c: usize = z;
        while c < z + size
            invariant
                z <= c <= z + size,
                y <= b < y + size,
                x + size <= side,
                y + size <= side,
                z + size <= side,
                indices@.len() == side * side * side,
                block == (Block { x: x as int, y: y as int, z: z as int, size: size as int }),
                forall|a: int, bb: int, cc: int|
                    block.holds(a, bb, cc) && bb < b ==> #[trigger] cube_at(
                        indices@,
                        side as int,
                        a,
                        bb,
                        cc,
                    ) == first,
                forall|a: int, cc: int|
                    block.holds(a, b as int, cc) && cc < c ==> #[trigger] cube_at(
                        indices@,
                        side as int,
                        a,
                        b as int,
                        cc,
                    ) == first,
            decreases z + size - c,
        {
            let mut a: usize = x;
            while a < x + size
                invariant
                    x <= a <= x + size,
                    z <= c < z + size,
                    y <= b < y + size,
                    x + size <= side,
                    y + size <= side,
                    z + size <= side,
                    indices@.len() == side * side * side,
                    block == (Block { x: x as int, y: y as int, z: z as int, size: size as int }),
                    forall|aa: int, bb: int, cc: int|
                        block.holds(aa, bb, cc) && bb < b ==> #[trigger] cube_at(
                            indices@,
                            side as int,
                            aa,
                            bb,
                            cc,
                        ) == first,
                    forall|aa: int, cc: int|
                        block.holds(aa, b as int, cc) && cc < c ==> #[trigger] cube_at(
                            indices@,
                            side as int,
                            aa,
                            b as int,
                            cc,
                        ) == first,
                    forall|aa: int|
                        x <= aa < a ==> #[trigger] cube_at(
                            indices@,
                            side as int,
                            aa,
                            b as int,
                            c as int,
                        ) == first,
                decreases x + size - a,
            {
                proof {
                    lemma_cube_index(side as int, a as int, b as int, c as int);
                    assert(indices@.len() == indices.len());
                }
                if indices[(b * side + c) * side + a] != first {
                    assert(block.holds(a as int, b as int, c as int));
                    assert(cube_at(indices@, side as int, a as int, b as int, c as int) != first);
                    return false;
                }
                a += 1;
            }
            c += 1;
        }
        b += 1;
    }
    true
}

/// Builds the tree for the block of side `size` at `(x, y, z)` of the cube `indices`.
fn build(
    indices: &Vec<usize>,
    Ghost(colors): Ghost<int>,
    side: usize,
    x: usize,
    y: usize,
    z: usize,
    size: usize,
    base: usize,
) -> (node: OctNode)
    requires
        is_tree_size(size as int),
        size >= 1,
        x + size <= side,
        y + size <= side,
        z + size <= side,
        side <= MAX_TREE_SIZE,
        indices@.len() == side * side * side,
        forall|i: int| 0 <= i < indices@.len() ==> (#[trigger] indices@[i]) < colors,
        base < colors,
    ensures
        node.wf(colors),
        node.block() == (Block { x: x as int, y: y as int, z: z as int, size: size as int }),
        node.divided() ==> node.color == base,
        forall|a: int, b: int, c: int|
            node.block().holds(a, b, c) ==> node.cell(a, b, c) == #[trigger] cube_at(
                indices@,
                side as int,
                a,
                b,
                c,
            ),
        forall|a: int, b: int, c: int|
            node.block().holds(a, b, c) ==> #[trigger] node.leaf_of(a, b, c) == built_leaf(
                indices@,
                side as int,
                node.block(),
                a,
                b,
                c,
            ),
        node.node_count() == built_nodes(indices@, side as int, node.block()),
    decreases size,
{
    let ghost block = Block { x: x as int, y: y as int, z: z as int, size: size as int };
    proof {
        lemma_cube_index(side as int, x as int, y as int, z as int);
        assert(indices@.len() == indices.len());
    }
    let first: usize = indices[(y * side + z) * side + x];
    assert(first == cube_at(indices@, side as int, x as int, y as int, z as int));
    if size == 1 || block_holds(indices, side, x, y, z, size, first) {
        let node = OctNode { x, y, z, size, children: Vec::new(), color: first };
        assert(size > 1 ==> block_uniform(indices@, side as int, block));
        return node;
    }
    assert(!block_uniform(indices@, side as int, block));
    let half: usize = size / 2;
    let mut kids: Vec<OctNode> = Vec::new();
    let mut q: usize = 0;
    assert(is_tree_size(half as int));
    while q < 8
        invariant
            q <= 8,
            kids@.len() == q,
            half == size / 2,
            size >= 2,
            size % 2 == 0,
            is_tree_size(half as int),
            x + size <= side,
            y + size <= side,
            z + size <= side,
            side <= MAX_TREE_SIZE,
            indices@.len() == side * side * side,
            forall|i: int| 0 <= i < indices@.len() ==> (#[trigger] indices@[i]) < colors,
            base < colors,
            block == (Block { x: x as int, y: y as int, z: z as int, size: size as int }),
            !block_uniform(indices@, side as int, block),
            forall|k: int|
                0 <= k < q ==> {
                    let c = #[trigger] kids@[k];
                    &&& c.wf(colors)
                    &&& c.block() == numbered_octant(block, k)
                    &&& c.node_count() == built_nodes(indices@, side as int, numbered_octant(block, k))
                    &&& forall|a: int, b: int, cc: int|
                        c.block().holds(a, b, cc) ==> c.cell(a, b, cc) == #[trigger] cube_at(
                            indices@,
                            side as int,
                            a,
                            b,
                            cc,
                        )
                    &&& forall|a: int, b: int, cc: int|
                        c.block().holds(a, b, cc) ==> #[trigger] c.leaf_of(a, b, cc) == built_leaf(
                            indices@,
                            side as int,
                            c.block(),
                            a,
                            b,
                            cc,
                        )
                },
        decreases 8 - q,
    {
        let child = build(
            indices,
            Ghost(colors),
            side,
            x + (if q % 2 == 1 { half } else { 0 }),
            y + (if q >= 4 { half } else { 0 }),
            z + (if (q / 2) % 2 == 1 { half } else { 0 }),
            half,
            base,
        );
        kids.push(child);
        q += 1;
    }
    let node = OctNode { x, y, z, size, children: kids, color: base };
    proof {
        assert(node.wf(colors));
        assert forall|a: int, b: int, c: int| node.block().holds(a, b, c) implies node.cell(a, b, c)
            == #[trigger] cube_at(indices@, side as int, a, b, c) by {
            node.lemma_octant(colors, a, b, c);
            let kid = node.children@[node.octant_index(a, b, c)];
            assert(kid.cell(a, b, c) == cube_at(indices@, side as int, a, b, c));
        }
        assert forall|a: int, b: int, c: int| node.block().holds(a, b, c) implies #[trigger] node.leaf_of(
            a,
            b,
            c,
        ) == built_leaf(indices@, side as int, node.block(), a, b, c) by {
            node.lemma_octant(colors, a, b, c);
            let kid = node.children@[node.octant_index(a, b, c)];
            assert(kid.leaf_of(a, b, c) == built_leaf(indices@, side as int, kid.block(), a, b, c));
        }
        assert(built_nodes_of(indices@, side as int, block, 0) == 0);
        assert(built_nodes_of(indices@, side as int, block, 1) == built_nodes_of(indices@, side as int, block, 0) + built_nodes(indices@, side as int, numbered_octant(block, 0)));
        assert(built_nodes_of(indices@, side as int, block, 2) == built_nodes_of(indices@, side as int, block, 1) + built_nodes(indices@, side as int, numbered_octant(block, 1)));
        assert(built_nodes_of(indices@, side as int, block, 3) == built_nodes_of(indices@, side as int, block, 2) + built_nodes(indices@, side as int, numbered_octant(block, 2)));
        assert(built_nodes_of(indices@, side as int, block, 4) == built_nodes_of(indices@, side as int, block, 3) + built_nodes(indices@, side as int, numbered_octant(block, 3)));
        assert(built_nodes_of(indices@, side as int, block, 5) == built_nodes_of(indices@, side as int, block, 4) + built_nodes(indices@, side as int, numbered_octant(block, 4)));
        assert(built_nodes_of(indices@, side as int, block, 6) == built_nodes_of(indices@, side as int, block, 5) + built_nodes(indices@, side as int, numbered_octant(block, 5)));
        assert(built_nodes_of(indices@, side as int, block, 7) == built_nodes_of(indices@, side as int, block, 6) + built_nodes(indices@, side as int, numbered_octant(block, 6)));
        assert(built_nodes_of(indices@, side as int, block, 8) == built_nodes_of(indices@, side as int, block, 7) + built_nodes(indices@, side as int, numbered_octant(block, 7)));
        assert(built_nodes(indices@, side as int, block) == 1 + built_nodes_of(indices@, side as int, block, 8));
        assert(node.children@[0].node_count() == built_nodes(indices@, side as int, numbered_octant(block, 0)));
        assert(node.children@[1].node_count() == built_nodes(indices@, side as int, numbered_octant(block, 1)));
        assert(node.children@[2].node_count() == built_nodes(indices@, side as int, numbered_octant(block, 2)));
        assert(node.children@[3].node_count() == built_nodes(indices@, side as int, numbered_octant(block, 3)));
        assert(node.children@[4].node_count() == built_nodes(indices@, side as int, numbered_octant(block, 4)));
        assert(node.children@[5].node_count() == built_nodes(indices@, side as int, numbered_octant(block, 5)));
        assert(node.children@[6].node_count() == built_nodes(indices@, side as int, numbered_octant(block, 6)));
        assert(node.children@[7].node_count() == built_nodes(indices@, side as int, numbered_octant(block, 7)));
    }
    node
}

/// A cube of colors, stored as an oct-tree over the places of the colors in a palette.
pub struct OctTree {
    color_list: Vec<Color8>,
    root: OctNode,
    size: usize,
}

impl OctTree {
    /// The invariant of the tree.
    pub closed spec fn wf(&self) -> bool {
        &&& self.root.wf(self.color_list@.len() as int)
        &&& self.root.x == 0
        &&& self.root.y == 0
        &&& self.root.z == 0
        &&& self.root.size == self.size
        &&& 2 * (self.size * self.size * self.size) <= usize::MAX
    }

    /// Side of the cube.
    pub closed spec fn side(&self) -> nat {
        self.size as nat
    }

    /// The colors in use.
    pub closed spec fn palette(&self) -> Seq<Color8> {
        self.color_list@
    }

    /// The whole cube.
    pub open spec fn cube(&self) -> Block {
        Block { x: 0, y: 0, z: 0, size: self.side() as int }
    }

    /// The place in the palette of the color of the cell `(x, y, z)`; 0 outside the cube.
    pub closed spec fn cell(&self, x: int, y: int, z: int) -> usize {
        self.root.cell(x, y, z)
    }

    /// The leaf that holds the cell `(x, y, z)` of the cube.
    pub closed spec fn leaf_of(&self, x: int, y: int, z: int) -> Block {
        self.root.leaf_of(x, y, z)
    }

    /// Number of nodes of the tree.
    pub closed spec fn node_count(&self) -> nat {
        self.root.node_count()
    }

    /// Number of leaves of the tree.
    pub closed spec fn leaf_count(&self) -> nat {
        self.root.leaf_count()
    }

    /// The place in the palette of the color that the root holds: `clear` spreads it over the cube.
    pub closed spec fn fill_index(&self) -> usize {
        self.root.color
    }

    /// The color of the cell `(x, y, z)`: transparent black outside the cube.
    pub open spec fn color_at(&self, x: int, y: int, z: int) -> Color8 {
        if self.cube().holds(x, y, z) {
            self.palette()[self.cell(x, y, z) as int]
        } else {
            Color8 { r: 0, g: 0, b: 0, a: 0 }
        }
    }

    /// Whether storing `color` for the cell `(x, y, z)` changes the tree:
    /// whether the cube holds the cell with another color index.
    pub open spec fn splits_for(&self, x: int, y: int, z: int, color: usize) -> bool {
        self.cube().holds(x, y, z) && self.cell(x, y, z) != color
    }

    /// Every cell holds a color of the palette, and the root is the whole cube.
    pub proof fn lemma_wf(&self)
        requires
            self.wf(),
        ensures
            forall|x: int, y: int, z: int| self.cell(x, y, z) < self.palette().len(),
            self.palette().len() >= 1,
            self.node_count() >= 1,
            self.node_count() == 1 ==> forall|x: int, y: int, z: int|
                self.cube().holds(x, y, z) ==> self.cell(x, y, z) == self.fill_index()
                    && self.leaf_of(x, y, z) == self.cube(),
    {
        assert forall|x: int, y: int, z: int| self.cell(x, y, z) < self.palette().len() by {
            self.root.lemma_cell_in_palette(self.color_list@.len() as int, x, y, z);
        }
        self.root.lemma_count_bound(self.color_list@.len() as int);
        if self.root.divided() {
            assert(self.root.children@[0].node_count() >= 1) by {
                self.root.children@[0].lemma_count_bound(self.color_list@.len() as int);
            }
        }
    }

    /// A tree over a cube of side `size`, transparent everywhere.
    pub fn new(size: usize) -> (tree: Self)
        requires
            is_tree_size(size as int),
            2 * (size * size * size) <= usize::MAX,
        ensures
            tree.wf(),
            tree.side() == size,
            tree.palette() == seq![Color8 { r: 0, g: 0, b: 0, a: 0 }],
            tree.fill_index() == 0,
            tree.node_count() == 1,
            tree.leaf_count() == 1,
            forall|x: int, y: int, z: int| tree.cell(x, y, z) == 0,
            forall|x: int, y: int, z: int| tree.leaf_of(x, y, z) == tree.cube(),
    {
        let color_list: Vec<Color8> = vec![Color8::new(0, 0, 0, 0)];
        assert(color_list@ =~= seq![Color8 { r: 0, g: 0, b: 0, a: 0 }]);
        OctTree {
            color_list,
            root: OctNode { x: 0, y: 0, z: 0, size, children: Vec::new(), color: 0 },
            size,
        }
    }

    /// The root of the tree.
    pub fn root(&self) -> (node: &OctNode)
        requires
            self.wf(),
        ensures
            node.block() == self.cube(),
            node.divided() == (self.node_count() > 1),
            self.side() <= MAX_TREE_SIZE,
            node.block().x + node.block().size <= MAX_TREE_SIZE,
            node.block().y + node.block().size <= MAX_TREE_SIZE,
            node.block().z + node.block().size <= MAX_TREE_SIZE,
    {
        proof {
            self.lemma_wf();
            if self.root.divided() {
                assert(self.root.children@[0].node_count() >= 1) by {
                    self.root.children@[0].lemma_count_bound(self.color_list@.len() as int);
                }
            }
        }
        &self.root
    }

    /// Number of nodes of the tree.
    pub fn len(&self) -> (n: usize)
        requires
            self.wf(),
        ensures
            n == self.node_count(),
    {
        self.root.count_nodes(Ghost(self.color_list@.len() as int))
    }

    /// Number of leaves of the tree.
    pub fn num_leaf_nodes(&self) -> (n: usize)
        requires
            self.wf(),
        ensures
            n == self.leaf_count(),
    {
        self.root.count_leaves(Ghost(self.color_list@.len() as int))
    }

    /// Makes the tree a single leaf again, of the color that the root holds.
    pub fn clear(&mut self)
        requires
            old(self).wf(),
        ensures
            final(self).wf(),
            final(self).side() == old(self).side(),
            final(self).palette() == old(self).palette(),
            final(self).fill_index() == old(self).fill_index(),
            final(self).node_count() == 1,
            final(self).leaf_count() == 1,
            forall|x: int, y: int, z: int|
                final(self).cell(x, y, z) == (if final(self).cube().holds(x, y, z) {
                    old(self).fill_index()
                } else {
                    0
                }),
            forall|x: int, y: int, z: int| final(self).leaf_of(x, y, z) == final(self).cube(),
    {
        self.root.children = Vec::new();
    }

    /// The color of the cell `(x, y, z)`; transparent black outside the cube.
    pub fn value_at(&self, x: i32, y: i32, z: i32) -> (color: Color8)
        requires
            self.wf(),
        ensures
            color == self.color_at(x as int, y as int, z as int),
    {
        if !self.root.contains(x, y, z) {
            return Color8::new(0, 0, 0, 0);
        }
        let place: usize = self.root.value_of(Ghost(self.color_list@.len() as int), x, y, z);
        self.color_list[place]
    }

    /// Stores `color8` for the cell `(x, y, z)`; outside the cube only the
    /// palette can change.  A color that the palette does not hold joins it.
    /// A leaf larger than the cell that holds another color is split down to
    /// the cell.
    pub fn insert(&mut self, x: i32, y: i32, z: i32, color8: Color8)
        requires
            old(self).wf(),
        ensures
            final(self).wf(),
            final(self).side() == old(self).side(),
            final(self).palette() == palette_with(old(self).palette(), color8),
            ({
                let place = color_place(old(self).palette(), color8) as usize;
                let p = (x as int, y as int, z as int);
                let splits = old(self).splits_for(p.0, p.1, p.2, place);
                let leaf = old(self).leaf_of(p.0, p.1, p.2);
                &&& forall|a: int, b: int, c: int|
                    final(self).cell(a, b, c) == (if a == x && b == y && c == z && old(self).cube().holds(
                        a,
                        b,
                        c,
                    ) {
                        place
                    } else {
                        old(self).cell(a, b, c)
                    })
                &&& forall|a: int, b: int, c: int|
                    final(self).leaf_of(a, b, c) == (if splits && leaf.holds(a, b, c) {
                        split_leaf(leaf, p, (a, b, c))
                    } else {
                        old(self).leaf_of(a, b, c)
                    })
                &&& final(self).node_count() == old(self).node_count() + (if splits {
                    8 * halvings(leaf.size)
                } else {
                    0
                })
                &&& final(self).leaf_count() == old(self).leaf_count() + (if splits {
                    7 * halvings(leaf.size)
                } else {
                    0
                })
                &&& final(self).fill_index() == (if old(self).node_count() == 1
                    && final(self).node_count() == 1 && old(self).cube().holds(p.0, p.1, p.2) {
                    place
                } else {
                    old(self).fill_index()
                })
            }),
    {
        proof {
            lemma_color_place(self.color_list@, color8);
            old(self).lemma_wf();
        }
        let mut place: usize = 0;
        while place < self.color_list.len() && !(self.color_list[place] == color8)
            invariant
                place <= self.color_list@.len(),
                self.color_list@ == old(self).color_list@,
                forall|j: int| 0 <= j < place ==> self.color_list@[j] != color8,
            decreases self.color_list@.len() - place,
        {
            place += 1;
        }
        assert(place == color_place(self.color_list@, color8));
        let ghost colors_before = self.color_list@.len() as int;
        if place == self.color_list.len() {
            self.color_list.push(color8);
        }
        proof {
            self.root.lemma_more_colors(colors_before, self.color_list@.len() as int);
        }
        self.root.insert_at(Ghost(self.color_list@.len() as int), x, y, z, place);
        proof {
            self.root.lemma_count_bound(self.color_list@.len() as int);
            if self.root.divided() {
                assert(self.root.children@[0].node_count() >= 1) by {
                    self.root.children@[0].lemma_count_bound(self.color_list@.len() as int);
                }
            }
            if old(self).root.divided() {
                assert(old(self).root.children@[0].node_count() >= 1) by {
                    old(self).root.children@[0].lemma_count_bound(colors_before);
                }
            }
        }
    }

    /// Rebuilds the tree from a cube of palette places, stored layer by layer
    /// and row by row, and takes `color_list` as palette.
    pub fn from_color_list(&mut self, indices: &Vec<usize>, color_list: Vec<Color8>)
        requires
            old(self).wf(),
            indices@.len() == old(self).side() * old(self).side() * old(self).side(),
            color_list@.len() >= 1,
            forall|i: int| 0 <= i < indices@.len() ==> (#[trigger] indices@[i]) < color_list@.len(),
        ensures
            final(self).wf(),
            final(self).side() == old(self).side(),
            final(self).palette() == color_list@,
            forall|x: int, y: int, z: int|
                final(self).cube().holds(x, y, z) ==> final(self).cell(x, y, z) == #[trigger] cube_at(
                    indices@,
                    final(self).side() as int,
                    x,
                    y,
                    z,
                ),
            forall|x: int, y: int, z: int|
                final(self).cube().holds(x, y, z) ==> #[trigger] final(self).leaf_of(x, y, z)
                    == built_leaf(indices@, final(self).side() as int, final(self).cube(), x, y, z),
            final(self).side() >= 1 ==> final(self).node_count() == built_nodes(
                indices@,
                final(self).side() as int,
                final(self).cube(),
            ),
    {
        self.color_list = color_list;
        if self.size >= 1 {
            self.root = build(
                indices,
                Ghost(self.color_list@.len() as int),
                self.size,
                0,
                0,
                0,
                self.size,
                0,
            );
        } else {
            self.root = OctNode { x: 0, y: 0, z: 0, size: 0, children: Vec::new(), color: 0 };
        }
    }
}

} // verus!
