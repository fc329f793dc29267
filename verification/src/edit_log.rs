//! The cells that a stroke has touched, each with the value it held before.

use std::collections::HashSet;
use vstd::prelude::*;

verus! {

broadcast use vstd::std_specs::hash::group_hash_axioms;

/// No cell occurs twice among the entries.
pub open spec fn distinct_cells<V>(entries: Seq<(usize, V)>) -> bool {
    forall|i: int, j: int| 0 <= i < j < entries.len() ==> entries[i].0 != entries[j].0
}

/// Every entry names a cell below `cells`.
pub open spec fn cells_below<V>(entries: Seq<(usize, V)>, cells: int) -> bool {
    forall|i: int| 0 <= i < entries.len() ==> (#[trigger] entries[i]).0 < cells
}

/// Some entry names `cell`.
pub open spec fn names_cell<V>(entries: Seq<(usize, V)>, cell: int) -> bool {
    exists|i: int| 0 <= i < entries.len() && (#[trigger] entries[i]).0 == cell
}

/// For each touched cell of a grid the value it held before the stroke, in
/// the order in which the cells were first touched.  A cell is recorded once.
pub struct EditLog<V> {
    entries: Vec<(usize, V)>,
    touched: HashSet<usize>,
    cells: usize,
}

impl<V: Copy> EditLog<V> {
    /// The entries `(cell, value before)`, oldest first.
    pub closed spec fn entries(&self) -> Seq<(usize, V)> {
        self.entries@
    }

    /// Number of cells of the grid that the log serves.
    pub closed spec fn cells(&self) -> nat {
        self.cells as nat
    }

    /// The invariant of the log: its entries name cells of the grid, none twice.
    pub closed spec fn wf(&self) -> bool {
        &&& cells_below(self.entries@, self.cells as int)
        &&& distinct_cells(self.entries@)
        &&& forall|c: usize| #[trigger] self.touched@.contains(c) <==> names_cell(self.entries@, c as int)
    }

    /// What the invariant says of the entries.
    pub proof fn lemma_wf(&self)
        requires
            self.wf(),
        ensures
            cells_below(self.entries(), self.cells() as int),
            distinct_cells(self.entries()),
    {
    }

    /// An empty log for a grid of `cells` cells.
    pub fn new(cells: usize) -> (log: Self)
        ensures
            log.wf(),
            log.entries() == Seq::<(usize, V)>::empty(),
            log.cells() == cells,
    {
        EditLog { entries: Vec::new(), touched: HashSet::new(), cells }
    }

    /// Whether `cell` has an entry.
    pub fn contains_key(&self, cell: usize) -> (r: bool)
        requires
            self.wf(),
        ensures
            r == names_cell(self.entries(), cell as int),
    {
        self.touched.contains(&cell)
    }

    /// Number of entries.
    pub fn len(&self) -> (n: usize)
        ensures
            n == self.entries().len(),
    {
        self.entries.len()
    }

    /// Records `value` for `cell`, which has no entry yet.
    pub fn insert(&mut self, cell: usize, value: V)
        requires
            old(self).wf(),
            cell < old(self).cells(),
            !names_cell(old(self).entries(), cell as int),
        ensures
            final(self).wf(),
            final(self).entries() == old(self).entries().push((cell, value)),
            final(self).cells() == old(self).cells(),
    {
        self.entries.push((cell, value));
        self.touched.insert(cell);
        proof {
            let before = old(self).entries@;
            let after = self.entries@;
            assert(after[before.len() as int].0 == cell);
            assert forall|c: usize| #[trigger] self.touched@.contains(c) <==> names_cell(
                after,
                c as int,
            ) by {
                if c != cell {
                    if names_cell(before, c as int) {
                        let i = choose|i: int| 0 <= i < before.len() && (#[trigger] before[i]).0 == c;
                        assert(after[i].0 == c);
                    }
                    if names_cell(after, c as int) {
                        let i = choose|i: int| 0 <= i < after.len() && (#[trigger] after[i]).0 == c;
                        assert(before[i].0 == c);
                    }
                }
            }
            assert forall|i: int, j: int| 0 <= i < j < after.len() implies after[i].0
                != after[j].0 by {
                if j == before.len() {
                    assert(before[i].0 == after[i].0);
                }
            }
        }
    }

    /// Forgets every entry.
    pub fn clear(&mut self)
        requires
            old(self).wf(),
        ensures
            final(self).wf(),
            final(self).entries() == Seq::<(usize, V)>::empty(),
            final(self).cells() == old(self).cells(),
    {
        self.touched.clear();
        self.entries = Vec::new();
    }

    /// The entries, oldest first.
    pub fn to_vec(&self) -> (v: Vec<(usize, V)>)
        ensures
            v@ == self.entries(),
    {
        let mut v: Vec<(usize, V)> = Vec::new();
        let mut i: usize = 0;
        while i < self.entries.len()
            invariant
                i <= self.entries@.len(),
                v@ == self.entries@.subrange(0, i as int),
            decreases self.entries@.len() - i,
        {
            v.push(self.entries[i]);
            assert(v@ =~= self.entries@.subrange(0, i + 1));
            i += 1;
        }
        assert(self.entries@.subrange(0, i as int) =~= self.entries@);
        v
    }
}

} // verus!
