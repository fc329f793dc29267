//! The set of chunks that wait on a seam.

use crate::brush::{in_grid, lemma_chunk_of, on_seam_of, seam_step};
use crate::grid::lemma_grid_index;
use std::collections::HashSet;
use vstd::prelude::*;

verus! {

/// Puts the chunks that an edit of the cell `(x, z)` puts on a seam into `seam`.
pub fn mark_seams_in(seam: &mut HashSet<usize>, x: usize, z: usize, chunk_size: usize, num_chunks: usize)
    requires
        1 <= chunk_size,
        1 <= num_chunks,
        in_grid(chunk_size * num_chunks, x as int, z as int),
        num_chunks * num_chunks <= usize::MAX,
    ensures
        forall|c: usize|
            final(seam)@.contains(c) <==> (old(seam)@.contains(c) || on_seam_of(
                c as int,
                x as int,
                z as int,
                chunk_size as int,
                num_chunks as int,
            )),
{
    broadcast use vstd::std_specs::hash::group_hash_axioms;

    proof {
        lemma_chunk_of(x as int, z as int, chunk_size as int, num_chunks as int);
    }
    let col: usize = x / chunk_size;
    let row: usize = z / chunk_size;
    let x_back: bool = x % chunk_size == 0 && col > 0;
    let x_on: bool = !x_back && x % chunk_size == 1 && col < num_chunks - 1;
    let z_back: bool = z % chunk_size == 0 && row > 0;
    let z_on: bool = !z_back && z % chunk_size == 1 && row < num_chunks - 1;
    let side_col: usize = if x_back {
        col - 1
    } else if x_on {
        col + 1
    } else {
        col
    };
    let side_row: usize = if z_back {
        row - 1
    } else if z_on {
        row + 1
    } else {
        row
    };
    proof {
        lemma_grid_index(num_chunks as int, side_col as int, row as int);
        lemma_grid_index(num_chunks as int, col as int, side_row as int);
        lemma_grid_index(num_chunks as int, side_col as int, side_row as int);
    }
    if side_col != col {
        seam.insert(row * num_chunks + side_col);
    }
    if side_row != row {
        seam.insert(side_row * num_chunks + col);
    }
    if side_col != col && side_row != row {
        seam.insert(side_row * num_chunks + side_col);
    }
    proof {
        assert forall|c: usize|
            seam@.contains(c) <==> (old(seam)@.contains(c) || on_seam_of(
                c as int,
                x as int,
                z as int,
                chunk_size as int,
                num_chunks as int,
            )) by {
            let dx = seam_step(x as int, chunk_size as int, num_chunks as int);
            let dz = seam_step(z as int, chunk_size as int, num_chunks as int);
            assert(side_col == col + dx);
            assert(side_row == row + dz);
            assert((row + dz) * num_chunks == side_row * num_chunks);
        }
    }
}

} // verus!
