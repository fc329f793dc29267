//! Row-major square grids.

use vstd::prelude::*;

verus! {

/// The height that a row-major grid of side `side` holds at `(x, z)`.
pub open spec fn grid_at(heights: Seq<i32>, side: int, x: int, z: int) -> i32 {
    heights[z * side + x]
}

/// A cell of the grid has its place in the array.
pub proof fn lemma_grid_index(side: int, x: int, z: int)
    requires
        0 <= x < side,
        0 <= z < side,
    ensures
        0 <= z * side + x < side * side,
        0 <= z * side <= side * side - side,
        0 <= side * side,
{
    assert(0 <= z * side <= (side - 1) * side) by (nonlinear_arith)
        requires
            0 <= z <= side - 1,
            0 < side,
    ;
    assert((side - 1) * side == side * side - side) by (nonlinear_arith);
}

/// 2 to the power `k`.
pub open spec fn two_to(k: nat) -> nat
    decreases k,
{
    if k == 0 {
        1
    } else {
        2 * two_to((k - 1) as nat)
    }
}

/// Powers of two grow with the exponent.
pub proof fn lemma_two_to_grows(a: nat, b: nat)
    requires
        a <= b,
    ensures
        1 <= two_to(a) <= two_to(b),
    decreases b,
{
    if a < b {
        lemma_two_to_grows(a, (b - 1) as nat);
    } else if a > 0 {
        lemma_two_to_grows((a - 1) as nat, (a - 1) as nat);
    }
}

/// A grid whose cells fit in an array has a side below 2^32.
pub proof fn lemma_side_bound(side: int)
    requires
        0 <= side,
        side * side <= u64::MAX,
    ensures
        side <= u32::MAX,
{
    if side > u32::MAX {
        assert(side * side >= 0x1_0000_0000 * 0x1_0000_0000) by (nonlinear_arith)
            requires
                side >= 0x1_0000_0000,
        ;
    }
}

/// The height that the grid holds at `(x, z)`, read at the last row or
/// column where `x` or `z` lies beyond it.
pub open spec fn sample_at(heights: Seq<i32>, side: int, x: int, z: int) -> i32 {
    grid_at(
        heights,
        side,
        if x > side - 1 {
            side - 1
        } else {
            x
        },
        if z > side - 1 {
            side - 1
        } else {
            z
        },
    )
}

/// Reads the grid at `(x, z)`, at the last row or column where `x` or `z` lies beyond it.
pub fn sample(heights: &Vec<i32>, side: usize, x: usize, z: usize) -> (h: i32)
    requires
        side >= 1,
        heights@.len() == side * side,
    ensures
        h == sample_at(heights@, side as int, x as int, z as int),
{
    let cx: usize = if x > side - 1 {
        side - 1
    } else {
        x
    };
    let cz: usize = if z > side - 1 {
        side - 1
    } else {
        z
    };
    proof {
        lemma_grid_index(side as int, cx as int, cz as int);
        assert(heights@.len() == heights.len());
    }
    heights[cz * side + cx]
}

} // verus!
