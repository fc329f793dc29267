//! The triangle table, checked row by row: each row is evaluated against its
//! own occupancy code.

use crate::tables::{
    corner_solid, dot, edge_check, entry_check, faces_inward, row_checks, row_entry, triangle_check,
    triangle_normal, TRI_TABLE,
};
use vstd::prelude::*;

verus! {

#[verifier::spinoff_prover]
proof fn lemma_row_0()
    ensures
        row_checks(TRI_TABLE[0], 0),
{
    reveal(row_entry);
    reveal(faces_inward);
    reveal(dot);
    reveal(triangle_normal);
    reveal(corner_solid);
    reveal(entry_check);
    reveal(triangle_check);
    reveal(edge_check);
    assert(TRI_TABLE[0] == 0xffffffffffffffffu64);
    assert(entry_check(0xffffffffffffffffu64, 0, 0));
    assert(entry_check(0xffffffffffffffffu64, 0, 1));
    assert(entry_check(0xffffffffffffffffu64, 0, 2));
    assert(entry_check(0xffffffffffffffffu64, 0, 3));
    assert(entry_check(0xffffffffffffffffu64, 0, 4));
    assert(entry_check(0xffffffffffffffffu64, 0, 5));
    assert(entry_check(0xffffffffffffffffu64, 0, 6));
    assert(entry_check(0xffffffffffffffffu64, 0, 7));
    assert(entry_check(0xffffffffffffffffu64, 0, 8));
    assert(entry_check(0xffffffffffffffffu64, 0, 9));
    assert(entry_check(0xffffffffffffffffu64, 0, 10));
    assert(entry_check(0xffffffffffffffffu64, 0, 11));
    assert(entry_check(0xffffffffffffffffu64, 0, 12));
    assert(entry_check(0xffffffffffffffffu64, 0, 13));
    assert(entry_check(0xffffffffffffffffu64, 0, 14));
    assert(entry_check(0xffffffffffffffffu64, 0, 15));
    assert(triangle_check(0xffffffffffffffffu64, 0, 0));
    assert(triangle_check(0xffffffffffffffffu64, 0, 1));
    assert(triangle_check(0xffffffffffffffffu64, 0, 2));
    assert(triangle_check(0xffffffffffffffffu64, 0, 3));
    assert(triangle_check(0xffffffffffffffffu64, 0, 4));
    assert(edge_check(0xffffffffffffffffu64, 0, 0));
    assert(edge_check(0xffffffffffffffffu64, 0, 1));
    assert(edge_check(0xffffffffffffffffu64, 0, 2));
    assert(edge_check(0xffffffffffffffffu64, 0, 3));
    assert(edge_check(0xffffffffffffffffu64, 0, 4));
    assert(edge_check(0xffffffffffffffffu64, 0, 5));
    assert(edge_check(0xffffffffffffffffu64, 0, 6));
    assert(edge_check(0xffffffffffffffffu64, 0, 7));
    assert(edge_check(0xffffffffffffffffu64, 0, 8));
    assert(edge_check(0xffffffffffffffffu64, 0, 9));
    assert(edge_check(0xffffffffffffffffu64, 0, 10));
    assert(edge_check(0xffffffffffffffffu64, 0, 11));
}

#[verifier::spinoff_prover]
proof fn lemma_row_1()
    ensures
        row_checks(TRI_TABLE[1], 1),
{
    reveal(row_entry);
    reveal(faces_inward);
    reveal(dot);
    reveal(triangle_normal);
    reveal(corner_solid);
    reveal(entry_check);
    reveal(triangle_check);
    reveal(edge_check);
    assert(TRI_TABLE[1] == 0xfffffffffffff830u64);
    assert(entry_check(0xfffffffffffff830u64, 1, 0));
    assert(entry_check(0xfffffffffffff830u64, 1, 1));
    assert(entry_check(0xfffffffffffff830u64, 1, 2));
    assert(entry_check(0xfffffffffffff830u64, 1, 3));
    assert(entry_check(0xfffffffffffff830u64, 1, 4));
    assert(entry_check(0xfffffffffffff830u64, 1, 5));
    assert(entry_check(0xfffffffffffff830u64, 1, 6));
    assert(entry_check(0xfffffffffffff830u64, 1, 7));
    assert(entry_check(0xfffffffffffff830u64, 1, 8));
    assert(entry_check(0xfffffffffffff830u64, 1, 9));
    assert(entry_check(0xfffffffffffff830u64, 1, 10));
    assert(entry_check(0xfffffffffffff830u64, 1, 11));
    assert(entry_check(0xfffffffffffff830u64, 1, 12));
    assert(entry_check(0xfffffffffffff830u64, 1, 13));
    assert(entry_check(0xfffffffffffff830u64, 1, 14));
    assert(entry_check(0xfffffffffffff830u64, 1, 15));
    assert(triangle_check(0xfffffffffffff830u64, 1, 0));
    assert(triangle_check(0xfffffffffffff830u64, 1, 1));
    assert(triangle_check(0xfffffffffffff830u64, 1, 2));
    assert(triangle_check(0xfffffffffffff830u64, 1, 3));
    assert(triangle_check(0xfffffffffffff830u64, 1, 4));
    assert(edge_check(0xfffffffffffff830u64, 1, 0));
    assert(edge_check(0xfffffffffffff830u64, 1, 1));
    assert(edge_check(0xfffffffffffff830u64, 1, 2));
    assert(edge_check(0xfffffffffffff830u64, 1, 3));
    assert(edge_check(0xfffffffffffff830u64, 1, 4));
    assert(edge_check(0xfffffffffffff830u64, 1, 5));
    assert(edge_check(0xfffffffffffff830u64, 1, 6));
    assert(edge_check(0xfffffffffffff830u64, 1, 7));
    assert(edge_check(0xfffffffffffff830u64, 1, 8));
    assert(edge_check(0xfffffffffffff830u64, 1, 9));
    assert(edge_check(0xfffffffffffff830u64, 1, 10));
    assert(edge_check(0xfffffffffffff830u64, 1, 11));
}

#[verifier::spinoff_prover]
proof fn lemma_row_2()
    ensures
        row_checks(TRI_TABLE[2], 2),
{
    reveal(row_entry);
    reveal(faces_inward);
    reveal(dot);
    reveal(triangle_normal);
    reveal(corner_solid);
    reveal(entry_check);
    reveal(triangle_check);
    reveal(edge_check);
    assert(TRI_TABLE[2] == 0xfffffffffffff019u64);
    assert(entry_check(0xfffffffffffff019u64, 2, 0));
    assert(entry_check(0xfffffffffffff019u64, 2, 1));
    assert(entry_check(0xfffffffffffff019u64, 2, 2));
    assert(entry_check(0xfffffffffffff019u64, 2, 3));
    assert(entry_check(0xfffffffffffff019u64, 2, 4));
    assert(entry_check(0xfffffffffffff019u64, 2, 5));
    assert(entry_check(0xfffffffffffff019u64, 2, 6));
    assert(entry_check(0xfffffffffffff019u64, 2, 7));
    assert(entry_check(0xfffffffffffff019u64, 2, 8));
    assert(entry_check(0xfffffffffffff019u64, 2, 9));
    assert(entry_check(0xfffffffffffff019u64, 2, 10));
    assert(entry_check(0xfffffffffffff019u64, 2, 11));
    assert(entry_check(0xfffffffffffff019u64, 2, 12));
    assert(entry_check(0xfffffffffffff019u64, 2, 13));
    assert(entry_check(0xfffffffffffff019u64, 2, 14));
    assert(entry_check(0xfffffffffffff019u64, 2, 15));
    assert(triangle_check(0xfffffffffffff019u64, 2, 0));
    assert(triangle_check(0xfffffffffffff019u64, 2, 1));
    assert(triangle_check(0xfffffffffffff019u64, 2, 2));
    assert(triangle_check(0xfffffffffffff019u64, 2, 3));
    assert(triangle_check(0xfffffffffffff019u64, 2, 4));
    assert(edge_check(0xfffffffffffff019u64, 2, 0));
    assert(edge_check(0xfffffffffffff019u64, 2, 1));
    assert(edge_check(0xfffffffffffff019u64, 2, 2));
    assert(edge_check(0xfffffffffffff019u64, 2, 3));
    assert(edge_check(0xfffffffffffff019u64, 2, 4));
    assert(edge_check(0xfffffffffffff019u64, 2, 5));
    assert(edge_check(0xfffffffffffff019u64, 2, 6));
    assert(edge_check(0xfffffffffffff019u64, 2, 7));
    assert(edge_check(0xfffffffffffff019u64, 2, 8));
    assert(edge_check(0xfffffffffffff019u64, 2, 9));
    assert(edge_check(0xfffffffffffff019u64, 2, 10));
    assert(edge_check(0xfffffffffffff019u64, 2, 11));
}

#[verifier::spinoff_prover]
proof fn lemma_row_3()
    ensures
        row_checks(TRI_TABLE[3], 3),
{
    reveal(row_entry);
    reveal(faces_inward);
    reveal(dot);
    reveal(triangle_normal);
    reveal(corner_solid);
    reveal(entry_check);
    reveal(triangle_check);
    reveal(edge_check);
    assert(TRI_TABLE[3] == 0xffffffffff193983u64);
    assert(entry_check(0xffffffffff193983u64, 3, 0));
    assert(entry_check(0xffffffffff193983u64, 3, 1));
    assert(entry_check(0xffffffffff193983u64, 3, 2));
    assert(entry_check(0xffffffffff193983u64, 3, 3));
    assert(entry_check(0xffffffffff193983u64, 3, 4));
    assert(entry_check(0xffffffffff193983u64, 3, 5));
    assert(entry_check(0xffffffffff193983u64, 3, 6));
    assert(entry_check(0xffffffffff193983u64, 3, 7));
    assert(entry_check(0xffffffffff193983u64, 3, 8));
    assert(entry_check(0xffffffffff193983u64, 3, 9));
    assert(entry_check(0xffffffffff193983u64, 3, 10));
    assert(entry_check(0xffffffffff193983u64, 3, 11));
    assert(entry_check(0xffffffffff193983u64, 3, 12));
    assert(entry_check(0xffffffffff193983u64, 3, 13));
    assert(entry_check(0xffffffffff193983u64, 3, 14));
    assert(entry_check(0xffffffffff193983u64, 3, 15));
    assert(triangle_check(0xffffffffff193983u64, 3, 0));
    assert(triangle_check(0xffffffffff193983u64, 3, 1));
    assert(triangle_check(0xffffffffff193983u64, 3, 2));
    assert(triangle_check(0xffffffffff193983u64, 3, 3));
    assert(triangle_check(0xffffffffff193983u64, 3, 4));
    assert(edge_check(0xffffffffff193983u64, 3, 0));
    assert(edge_check(0xffffffffff193983u64, 3, 1));
    assert(edge_check(0xffffffffff193983u64, 3, 2));
    assert(edge_check(0xffffffffff193983u64, 3, 3));
    assert(edge_check(0xffffffffff193983u64, 3, 4));
    assert(edge_check(0xffffffffff193983u64, 3, 5));
    assert(edge_check(0xffffffffff193983u64, 3, 6));
    assert(edge_check(0xffffffffff193983u64, 3, 7));
    assert(edge_check(0xffffffffff193983u64, 3, 8));
    assert(edge_check(0xffffffffff193983u64, 3, 9));
    assert(edge_check(0xffffffffff193983u64, 3, 10));
    assert(edge_check(0xffffffffff193983u64, 3, 11));
}

#[verifier::spinoff_prover]
proof fn lemma_row_4()
    ensures
        row_checks(TRI_TABLE[4], 4),
{
    reveal(row_entry);
    reveal(faces_inward);
    reveal(dot);
    reveal(triangle_normal);
    reveal(corner_solid);
    reveal(entry_check);
    reveal(triangle_check);
    reveal(edge_check);
    assert(TRI_TABLE[4] == 0xfffffffffffff2a1u64);
    assert(entry_check(0xfffffffffffff2a1u64, 4, 0));
    assert(entry_check(0xfffffffffffff2a1u64, 4, 1));
    assert(entry_check(0xfffffffffffff2a1u64, 4, 2));
    assert(entry_check(0xfffffffffffff2a1u64, 4, 3));
    assert(entry_check(0xfffffffffffff2a1u64, 4, 4));
    assert(entry_check(0xfffffffffffff2a1u64, 4, 5));
    assert(entry_check(0xfffffffffffff2a1u64, 4, 6));
    assert(entry_check(0xfffffffffffff2a1u64, 4, 7));
    assert(entry_check(0xfffffffffffff2a1u64, 4, 8));
    assert(entry_check(0xfffffffffffff2a1u64, 4, 9));
    assert(entry_check(0xfffffffffffff2a1u64, 4, 10));
    assert(entry_check(0xfffffffffffff2a1u64, 4, 11));
    assert(entry_check(0xfffffffffffff2a1u64, 4, 12));
    assert(entry_check(0xfffffffffffff2a1u64, 4, 13));
    assert(entry_check(0xfffffffffffff2a1u64, 4, 14));
    assert(entry_check(0xfffffffffffff2a1u64, 4, 15));
    assert(triangle_check(0xfffffffffffff2a1u64, 4, 0));
    assert(triangle_check(0xfffffffffffff2a1u64, 4, 1));
    assert(triangle_check(0xfffffffffffff2a1u64, 4, 2));
    assert(triangle_check(0xfffffffffffff2a1u64, 4, 3));
    assert(triangle_check(0xfffffffffffff2a1u64, 4, 4));
    assert(edge_check(0xfffffffffffff2a1u64, 4, 0));
    assert(edge_check(0xfffffffffffff2a1u64, 4, 1));
    assert(edge_check(0xfffffffffffff2a1u64, 4, 2));
    assert(edge_check(0xfffffffffffff2a1u64, 4, 3));
    assert(edge_check(0xfffffffffffff2a1u64, 4, 4));
    assert(edge_check(0xfffffffffffff2a1u64, 4, 5));
    assert(edge_check(0xfffffffffffff2a1u64, 4, 6));
    assert(edge_check(0xfffffffffffff2a1u64, 4, 7));
    assert(edge_check(0xfffffffffffff2a1u64, 4, 8));
    assert(edge_check(0xfffffffffffff2a1u64, 4, 9));
    assert(edge_check(0xfffffffffffff2a1u64, 4, 10));
    assert(edge_check(0xfffffffffffff2a1u64, 4, 11));
}

#[verifier::spinoff_prover]
proof fn lemma_row_5()
    ensures
        row_checks(TRI_TABLE[5], 5),
{
    reveal(row_entry);
    reveal(faces_inward);
    reveal(dot);
    reveal(triangle_normal);
    reveal(corner_solid);
    reveal(entry_check);
    reveal(triangle_check);
    reveal(edge_check);
    assert(TRI_TABLE[5] == 0xffffffffff2a1830u64);
    assert(entry_check(0xffffffffff2a1830u64, 5, 0));
    assert(entry_check(0xffffffffff2a1830u64, 5, 1));
    assert(entry_check(0xffffffffff2a1830u64, 5, 2));
    assert(entry_check(0xffffffffff2a1830u64, 5, 3));
    assert(entry_check(0xffffffffff2a1830u64, 5, 4));
    assert(entry_check(0xffffffffff2a1830u64, 5, 5));
    assert(entry_check(0xffffffffff2a1830u64, 5, 6));
    assert(entry_check(0xffffffffff2a1830u64, 5, 7));
    assert(entry_check(0xffffffffff2a1830u64, 5, 8));
    assert(entry_check(0xffffffffff2a1830u64, 5, 9));
    assert(entry_check(0xffffffffff2a1830u64, 5, 10));
    assert(entry_check(0xffffffffff2a1830u64, 5, 11));
    assert(entry_check(0xffffffffff2a1830u64, 5, 12));
    assert(entry_check(0xffffffffff2a1830u64, 5, 13));
    assert(entry_check(0xffffffffff2a1830u64, 5, 14));
    assert(entry_check(0xffffffffff2a1830u64, 5, 15));
    assert(triangle_check(0xffffffffff2a1830u64, 5, 0));
    assert(triangle_check(0xffffffffff2a1830u64, 5, 1));
    assert(triangle_check(0xffffffffff2a1830u64, 5, 2));
    assert(triangle_check(0xffffffffff2a1830u64, 5, 3));
    assert(triangle_check(0xffffffffff2a1830u64, 5, 4));
    assert(edge_check(0xffffffffff2a1830u64, 5, 0));
    assert(edge_check(0xffffffffff2a1830u64, 5, 1));
    assert(edge_check(0xffffffffff2a1830u64, 5, 2));
    assert(edge_check(0xffffffffff2a1830u64, 5, 3));
    assert(edge_check(0xffffffffff2a1830u64, 5, 4));
    assert(edge_check(0xffffffffff2a1830u64, 5, 5));
    assert(edge_check(0xffffffffff2a1830u64, 5, 6));
    assert(edge_check(0xffffffffff2a1830u64, 5, 7));
    assert(edge_check(0xffffffffff2a1830u64, 5, 8));
    assert(edge_check(0xffffffffff2a1830u64, 5, 9));
    assert(edge_check(0xffffffffff2a1830u64, 5, 10));
    assert(edge_check(0xffffffffff2a1830u64, 5, 11));
}

#[verifier::spinoff_prover]
proof fn lemma_row_6()
    ensures
        row_checks(TRI_TABLE[6], 6),
{
    reveal(row_entry);
    reveal(faces_inward);
    reveal(dot);
    reveal(triangle_normal);
    reveal(corner_solid);
    reveal(entry_check);
    reveal(triangle_check);
    reveal(edge_check);
    assert(TRI_TABLE[6] == 0xffffffffff0292a9u64);
    assert(entry_check(0xffffffffff0292a9u64, 6, 0));
    assert(entry_check(0xffffffffff0292a9u64, 6, 1));
    assert(entry_check(0xffffffffff0292a9u64, 6, 2));
    assert(entry_check(0xffffffffff0292a9u64, 6, 3));
    assert(entry_check(0xffffffffff0292a9u64, 6, 4));
    assert(entry_check(0xffffffffff0292a9u64, 6, 5));
    assert(entry_check(0xffffffffff0292a9u64, 6, 6));
    assert(entry_check(0xffffffffff0292a9u64, 6, 7));
    assert(entry_check(0xffffffffff0292a9u64, 6, 8));
    assert(entry_check(0xffffffffff0292a9u64, 6, 9));
    assert(entry_check(0xffffffffff0292a9u64, 6, 10));
    assert(entry_check(0xffffffffff0292a9u64, 6, 11));
    assert(entry_check(0xffffffffff0292a9u64, 6, 12));
    assert(entry_check(0xffffffffff0292a9u64, 6, 13));
    assert(entry_check(0xffffffffff0292a9u64, 6, 14));
    assert(entry_check(0xffffffffff0292a9u64, 6, 15));
    assert(triangle_check(0xffffffffff0292a9u64, 6, 0));
    assert(triangle_check(0xffffffffff0292a9u64, 6, 1));
    assert(triangle_check(0xffffffffff0292a9u64, 6, 2));
    assert(triangle_check(0xffffffffff0292a9u64, 6, 3));
    assert(triangle_check(0xffffffffff0292a9u64, 6, 4));
    assert(edge_check(0xffffffffff0292a9u64, 6, 0));
    assert(edge_check(0xffffffffff0292a9u64, 6, 1));
    assert(edge_check(0xffffffffff0292a9u64, 6, 2));
    assert(edge_check(0xffffffffff0292a9u64, 6, 3));
    assert(edge_check(0xffffffffff0292a9u64, 6, 4));
    assert(edge_check(0xffffffffff0292a9u64, 6, 5));
    assert(edge_check(0xffffffffff0292a9u64, 6, 6));
    assert(edge_check(0xffffffffff0292a9u64, 6, 7));
    assert(edge_check(0xffffffffff0292a9u64, 6, 8));
    assert(edge_check(0xffffffffff0292a9u64, 6, 9));
    assert(edge_check(0xffffffffff0292a9u64, 6, 10));
    assert(edge_check(0xffffffffff0292a9u64, 6, 11));
}

#[verifier::spinoff_prover]
proof fn lemma_row_7()
    ensures
        row_checks(TRI_TABLE[7], 7),
{
    reveal(row_entry);
    reveal(faces_inward);
    reveal(dot);
    reveal(triangle_normal);
    reveal(corner_solid);
    reveal(entry_check);
    reveal(triangle_check);
    reveal(edge_check);
    assert(TRI_TABLE[7] == 0xfffffff3282a8a98u64);
    assert(entry_check(0xfffffff3282a8a98u64, 7, 0));
    assert(entry_check(0xfffffff3282a8a98u64, 7, 1));
    assert(entry_check(0xfffffff3282a8a98u64, 7, 2));
    assert(entry_check(0xfffffff3282a8a98u64, 7, 3));
    assert(entry_check(0xfffffff3282a8a98u64, 7, 4));
    assert(entry_check(0xfffffff3282a8a98u64, 7, 5));
    assert(entry_check(0xfffffff3282a8a98u64, 7, 6));
    assert(entry_check(0xfffffff3282a8a98u64, 7, 7));
    assert(entry_check(0xfffffff3282a8a98u64, 7, 8));
    assert(entry_check(0xfffffff3282a8a98u64, 7, 9));
    assert(entry_check(0xfffffff3282a8a98u64, 7, 10));
    assert(entry_check(0xfffffff3282a8a98u64, 7, 11));
    assert(entry_check(0xfffffff3282a8a98u64, 7, 12));
    assert(entry_check(0xfffffff3282a8a98u64, 7, 13));
    assert(entry_check(0xfffffff3282a8a98u64, 7, 14));
    assert(entry_check(0xfffffff3282a8a98u64, 7, 15));
    assert(triangle_check(0xfffffff3282a8a98u64, 7, 0));
    assert(triangle_check(0xfffffff3282a8a98u64, 7, 1));
    assert(triangle_check(0xfffffff3282a8a98u64, 7, 2));
    assert(triangle_check(0xfffffff3282a8a98u64, 7, 3));
    assert(triangle_check(0xfffffff3282a8a98u64, 7, 4));
    assert(edge_check(0xfffffff3282a8a98u64, 7, 0));
    assert(edge_check(0xfffffff3282a8a98u64, 7, 1));
    assert(edge_check(0xfffffff3282a8a98u64, 7, 2));
    assert(edge_check(0xfffffff3282a8a98u64, 7, 3));
    assert(edge_check(0xfffffff3282a8a98u64, 7, 4));
    assert(edge_check(0xfffffff3282a8a98u64, 7, 5));
    assert(edge_check(0xfffffff3282a8a98u64, 7, 6));
    assert(edge_check(0xfffffff3282a8a98u64, 7, 7));
    assert(edge_check(0xfffffff3282a8a98u64, 7, 8));
    assert(edge_check(0xfffffff3282a8a98u64, 7, 9));
    assert(edge_check(0xfffffff3282a8a98u64, 7, 10));
    assert(edge_check(0xfffffff3282a8a98u64, 7, 11));
}

#[verifier::spinoff_prover]
proof fn lemma_row_8()
    ensures
        row_checks(TRI_TABLE[8], 8),
{
    reveal(row_entry);
    reveal(faces_inward);
    reveal(dot);
    reveal(triangle_normal);
    reveal(corner_solid);
    reveal(entry_check);
    reveal(triangle_check);
    reveal(edge_check);
    assert(TRI_TABLE[8] == 0xfffffffffffff23bu64);
    assert(entry_check(0xfffffffffffff23bu64, 8, 0));
    assert(entry_check(0xfffffffffffff23bu64, 8, 1));
    assert(entry_check(0xfffffffffffff23bu64, 8, 2));
    assert(entry_check(0xfffffffffffff23bu64, 8, 3));
    assert(entry_check(0xfffffffffffff23bu64, 8, 4));
    assert(entry_check(0xfffffffffffff23bu64, 8, 5));
    assert(entry_check(0xfffffffffffff23bu64, 8, 6));
    assert(entry_check(0xfffffffffffff23bu64, 8, 7));
    assert(entry_check(0xfffffffffffff23bu64, 8, 8));
    assert(entry_check(0xfffffffffffff23bu64, 8, 9));
    assert(entry_check(0xfffffffffffff23bu64, 8, 10));
    assert(entry_check(0xfffffffffffff23bu64, 8, 11));
    assert(entry_check(0xfffffffffffff23bu64, 8, 12));
    assert(entry_check(0xfffffffffffff23bu64, 8, 13));
    assert(entry_check(0xfffffffffffff23bu64, 8, 14));
    assert(entry_check(0xfffffffffffff23bu64, 8, 15));
    assert(triangle_check(0xfffffffffffff23bu64, 8, 0));
    assert(triangle_check(0xfffffffffffff23bu64, 8, 1));
    assert(triangle_check(0xfffffffffffff23bu64, 8, 2));
    assert(triangle_check(0xfffffffffffff23bu64, 8, 3));
    assert(triangle_check(0xfffffffffffff23bu64, 8, 4));
    assert(edge_check(0xfffffffffffff23bu64, 8, 0));
    assert(edge_check(0xfffffffffffff23bu64, 8, 1));
    assert(edge_check(0xfffffffffffff23bu64, 8, 2));
    assert(edge_check(0xfffffffffffff23bu64, 8, 3));
    assert(edge_check(0xfffffffffffff23bu64, 8, 4));
    assert(edge_check(0xfffffffffffff23bu64, 8, 5));
    assert(edge_check(0xfffffffffffff23bu64, 8, 6));
    assert(edge_check(0xfffffffffffff23bu64, 8, 7));
    assert(edge_check(0xfffffffffffff23bu64, 8, 8));
    assert(edge_check(0xfffffffffffff23bu64, 8, 9));
    assert(edge_check(0xfffffffffffff23bu64, 8, 10));
    assert(edge_check(0xfffffffffffff23bu64, 8, 11));
}

#[verifier::spinoff_prover]
proof fn lemma_row_9()
    ensures
        row_checks(TRI_TABLE[9], 9),
{
    reveal(row_entry);
    reveal(faces_inward);
    reveal(dot);
    reveal(triangle_normal);
    reveal(corner_solid);
    reveal(entry_check);
    reveal(triangle_check);
    reveal(edge_check);
    assert(TRI_TABLE[9] == 0xffffffffff8b0b20u64);
    assert(entry_check(0xffffffffff8b0b20u64, 9, 0));
    assert(entry_check(0xffffffffff8b0b20u64, 9, 1));
    assert(entry_check(0xffffffffff8b0b20u64, 9, 2));
    assert(entry_check(0xffffffffff8b0b20u64, 9, 3));
    assert(entry_check(0xffffffffff8b0b20u64, 9, 4));
    assert(entry_check(0xffffffffff8b0b20u64, 9, 5));
    assert(entry_check(0xffffffffff8b0b20u64, 9, 6));
    assert(entry_check(0xffffffffff8b0b20u64, 9, 7));
    assert(entry_check(0xffffffffff8b0b20u64, 9, 8));
    assert(entry_check(0xffffffffff8b0b20u64, 9, 9));
    assert(entry_check(0xffffffffff8b0b20u64, 9, 10));
    assert(entry_check(0xffffffffff8b0b20u64, 9, 11));
    assert(entry_check(0xffffffffff8b0b20u64, 9, 12));
    assert(entry_check(0xffffffffff8b0b20u64, 9, 13));
    assert(entry_check(0xffffffffff8b0b20u64, 9, 14));
    assert(entry_check(0xffffffffff8b0b20u64, 9, 15));
    assert(triangle_check(0xffffffffff8b0b20u64, 9, 0));
    assert(triangle_check(0xffffffffff8b0b20u64, 9, 1));
    assert(triangle_check(0xffffffffff8b0b20u64, 9, 2));
    assert(triangle_check(0xffffffffff8b0b20u64, 9, 3));
    assert(triangle_check(0xffffffffff8b0b20u64, 9, 4));
    assert(edge_check(0xffffffffff8b0b20u64, 9, 0));
    assert(edge_check(0xffffffffff8b0b20u64, 9, 1));
    assert(edge_check(0xffffffffff8b0b20u64, 9, 2));
    assert(edge_check(0xffffffffff8b0b20u64, 9, 3));
    assert(edge_check(0xffffffffff8b0b20u64, 9, 4));
    assert(edge_check(0xffffffffff8b0b20u64, 9, 5));
    assert(edge_check(0xffffffffff8b0b20u64, 9, 6));
    assert(edge_check(0xffffffffff8b0b20u64, 9, 7));
    assert(edge_check(0xffffffffff8b0b20u64, 9, 8));
    assert(edge_check(0xffffffffff8b0b20u64, 9, 9));
    assert(edge_check(0xffffffffff8b0b20u64, 9, 10));
    assert(edge_check(0xffffffffff8b0b20u64, 9, 11));
}

#[verifier::spinoff_prover]
proof fn lemma_row_10()
    ensures
        row_checks(TRI_TABLE[10], 10),
{
    reveal(row_entry);
    reveal(faces_inward);
    reveal(dot);
    reveal(triangle_normal);
    reveal(corner_solid);
    reveal(entry_check);
    reveal(triangle_check);
    reveal(edge_check);
    assert(TRI_TABLE[10] == 0xffffffffff23b019u64);
    assert(entry_check(0xffffffffff23b019u64, 10, 0));
    assert(entry_check(0xffffffffff23b019u64, 10, 1));
    assert(entry_check(0xffffffffff23b019u64, 10, 2));
    assert(entry_check(0xffffffffff23b019u64, 10, 3));
    assert(entry_check(0xffffffffff23b019u64, 10, 4));
    assert(entry_check(0xffffffffff23b019u64, 10, 5));
    assert(entry_check(0xffffffffff23b019u64, 10, 6));
    assert(entry_check(0xffffffffff23b019u64, 10, 7));
    assert(entry_check(0xffffffffff23b019u64, 10, 8));
    assert(entry_check(0xffffffffff23b019u64, 10, 9));
    assert(entry_check(0xffffffffff23b019u64, 10, 10));
    assert(entry_check(0xffffffffff23b019u64, 10, 11));
    assert(entry_check(0xffffffffff23b019u64, 10, 12));
    assert(entry_check(0xffffffffff23b019u64, 10, 13));
    assert(entry_check(0xffffffffff23b019u64, 10, 14));
    assert(entry_check(0xffffffffff23b019u64, 10, 15));
    assert(triangle_check(0xffffffffff23b019u64, 10, 0));
    assert(triangle_check(0xffffffffff23b019u64, 10, 1));
    assert(triangle_check(0xffffffffff23b019u64, 10, 2));
    assert(triangle_check(0xffffffffff23b019u64, 10, 3));
    assert(triangle_check(0xffffffffff23b019u64, 10, 4));
    assert(edge_check(0xffffffffff23b019u64, 10, 0));
    assert(edge_check(0xffffffffff23b019u64, 10, 1));
    assert(edge_check(0xffffffffff23b019u64, 10, 2));
    assert(edge_check(0xffffffffff23b019u64, 10, 3));
    assert(edge_check(0xffffffffff23b019u64, 10, 4));
    assert(edge_check(0xffffffffff23b019u64, 10, 5));
    assert(edge_check(0xffffffffff23b019u64, 10, 6));
    assert(edge_check(0xffffffffff23b019u64, 10, 7));
    assert(edge_check(0xffffffffff23b019u64, 10, 8));
    assert(edge_check(0xffffffffff23b019u64, 10, 9));
    assert(edge_check(0xffffffffff23b019u64, 10, 10));
    assert(edge_check(0xffffffffff23b019u64, 10, 11));
}

#[verifier::spinoff_prover]
proof fn lemma_row_11()
    ensures
        row_checks(TRI_TABLE[11], 11),
{
    reveal(row_entry);
    reveal(faces_inward);
    reveal(dot);
    reveal(triangle_normal);
    reveal(corner_solid);
    reveal(entry_check);
    reveal(triangle_check);
    reveal(edge_check);
    assert(TRI_TABLE[11] == 0xfffffff21b19b98bu64);
    assert(entry_check(0xfffffff21b19b98bu64, 11, 0));
    assert(entry_check(0xfffffff21b19b98bu64, 11, 1));
    assert(entry_check(0xfffffff21b19b98bu64, 11, 2));
    assert(entry_check(0xfffffff21b19b98bu64, 11, 3));
    assert(entry_check(0xfffffff21b19b98bu64, 11, 4));
    assert(entry_check(0xfffffff21b19b98bu64, 11, 5));
    assert(entry_check(0xfffffff21b19b98bu64, 11, 6));
    assert(entry_check(0xfffffff21b19b98bu64, 11, 7));
    assert(entry_check(0xfffffff21b19b98bu64, 11, 8));
    assert(entry_check(0xfffffff21b19b98bu64, 11, 9));
    assert(entry_check(0xfffffff21b19b98bu64, 11, 10));
    assert(entry_check(0xfffffff21b19b98bu64, 11, 11));
    assert(entry_check(0xfffffff21b19b98bu64, 11, 12));
    assert(entry_check(0xfffffff21b19b98bu64, 11, 13));
    assert(entry_check(0xfffffff21b19b98bu64, 11, 14));
    assert(entry_check(0xfffffff21b19b98bu64, 11, 15));
    assert(triangle_check(0xfffffff21b19b98bu64, 11, 0));
    assert(triangle_check(0xfffffff21b19b98bu64, 11, 1));
    assert(triangle_check(0xfffffff21b19b98bu64, 11, 2));
    assert(triangle_check(0xfffffff21b19b98bu64, 11, 3));
    assert(triangle_check(0xfffffff21b19b98bu64, 11, 4));
    assert(edge_check(0xfffffff21b19b98bu64, 11, 0));
    assert(edge_check(0xfffffff21b19b98bu64, 11, 1));
    assert(edge_check(0xfffffff21b19b98bu64, 11, 2));
    assert(edge_check(0xfffffff21b19b98bu64, 11, 3));
    assert(edge_check(0xfffffff21b19b98bu64, 11, 4));
    assert(edge_check(0xfffffff21b19b98bu64, 11, 5));
    assert(edge_check(0xfffffff21b19b98bu64, 11, 6));
    assert(edge_check(0xfffffff21b19b98bu64, 11, 7));
    assert(edge_check(0xfffffff21b19b98bu64, 11, 8));
    assert(edge_check(0xfffffff21b19b98bu64, 11, 9));
    assert(edge_check(0xfffffff21b19b98bu64, 11, 10));
    assert(edge_check(0xfffffff21b19b98bu64, 11, 11));
}

#[verifier::spinoff_prover]
proof fn lemma_row_12()
    ensures
        row_checks(TRI_TABLE[12], 12),
{
    reveal(row_entry);
    reveal(faces_inward);
    reveal(dot);
    reveal(triangle_normal);
    reveal(corner_solid);
    reveal(entry_check);
    reveal(triangle_check);
    reveal(edge_check);
    assert(TRI_TABLE[12] == 0xffffffffff3b1ba1u64);
    assert(entry_check(0xffffffffff3b1ba1u64, 12, 0));
    assert(entry_check(0xffffffffff3b1ba1u64, 12, 1));
    assert(entry_check(0xffffffffff3b1ba1u64, 12, 2));
    assert(entry_check(0xffffffffff3b1ba1u64, 12, 3));
    assert(entry_check(0xffffffffff3b1ba1u64, 12, 4));
    assert(entry_check(0xffffffffff3b1ba1u64, 12, 5));
    assert(entry_check(0xffffffffff3b1ba1u64, 12, 6));
    assert(entry_check(0xffffffffff3b1ba1u64, 12, 7));
    assert(entry_check(0xffffffffff3b1ba1u64, 12, 8));
    assert(entry_check(0xffffffffff3b1ba1u64, 12, 9));
    assert(entry_check(0xffffffffff3b1ba1u64, 12, 10));
    assert(entry_check(0xffffffffff3b1ba1u64, 12, 11));
    assert(entry_check(0xffffffffff3b1ba1u64, 12, 12));
    assert(entry_check(0xffffffffff3b1ba1u64, 12, 13));
    assert(entry_check(0xffffffffff3b1ba1u64, 12, 14));
    assert(entry_check(0xffffffffff3b1ba1u64, 12, 15));
    assert(triangle_check(0xffffffffff3b1ba1u64, 12, 0));
    assert(triangle_check(0xffffffffff3b1ba1u64, 12, 1));
    assert(triangle_check(0xffffffffff3b1ba1u64, 12, 2));
    assert(triangle_check(0xffffffffff3b1ba1u64, 12, 3));
    assert(triangle_check(0xffffffffff3b1ba1u64, 12, 4));
    assert(edge_check(0xffffffffff3b1ba1u64, 12, 0));
    assert(edge_check(0xffffffffff3b1ba1u64, 12, 1));
    assert(edge_check(0xffffffffff3b1ba1u64, 12, 2));
    assert(edge_check(0xffffffffff3b1ba1u64, 12, 3));
    assert(edge_check(0xffffffffff3b1ba1u64, 12, 4));
    assert(edge_check(0xffffffffff3b1ba1u64, 12, 5));
    assert(edge_check(0xffffffffff3b1ba1u64, 12, 6));
    assert(edge_check(0xffffffffff3b1ba1u64, 12, 7));
    assert(edge_check(0xffffffffff3b1ba1u64, 12, 8));
    assert(edge_check(0xffffffffff3b1ba1u64, 12, 9));
    assert(edge_check(0xffffffffff3b1ba1u64, 12, 10));
    assert(edge_check(0xffffffffff3b1ba1u64, 12, 11));
}

#[verifier::spinoff_prover]
proof fn lemma_row_13()
    ensures
        row_checks(TRI_TABLE[13], 13),
{
    reveal(row_entry);
    reveal(faces_inward);
    reveal(dot);
    reveal(triangle_normal);
    reveal(corner_solid);
    reveal(entry_check);
    reveal(triangle_check);
    reveal(edge_check);
    assert(TRI_TABLE[13] == 0xfffffff10a08a8bau64);
    assert(entry_check(0xfffffff10a08a8bau64, 13, 0));
    assert(entry_check(0xfffffff10a08a8bau64, 13, 1));
    assert(entry_check(0xfffffff10a08a8bau64, 13, 2));
    assert(entry_check(0xfffffff10a08a8bau64, 13, 3));
    assert(entry_check(0xfffffff10a08a8bau64, 13, 4));
    assert(entry_check(0xfffffff10a08a8bau64, 13, 5));
    assert(entry_check(0xfffffff10a08a8bau64, 13, 6));
    assert(entry_check(0xfffffff10a08a8bau64, 13, 7));
    assert(entry_check(0xfffffff10a08a8bau64, 13, 8));
    assert(entry_check(0xfffffff10a08a8bau64, 13, 9));
    assert(entry_check(0xfffffff10a08a8bau64, 13, 10));
    assert(entry_check(0xfffffff10a08a8bau64, 13, 11));
    assert(entry_check(0xfffffff10a08a8bau64, 13, 12));
    assert(entry_check(0xfffffff10a08a8bau64, 13, 13));
    assert(entry_check(0xfffffff10a08a8bau64, 13, 14));
    assert(entry_check(0xfffffff10a08a8bau64, 13, 15));
    assert(triangle_check(0xfffffff10a08a8bau64, 13, 0));
    assert(triangle_check(0xfffffff10a08a8bau64, 13, 1));
    assert(triangle_check(0xfffffff10a08a8bau64, 13, 2));
    assert(triangle_check(0xfffffff10a08a8bau64, 13, 3));
    assert(triangle_check(0xfffffff10a08a8bau64, 13, 4));
    assert(edge_check(0xfffffff10a08a8bau64, 13, 0));
    assert(edge_check(0xfffffff10a08a8bau64, 13, 1));
    assert(edge_check(0xfffffff10a08a8bau64, 13, 2));
    assert(edge_check(0xfffffff10a08a8bau64, 13, 3));
    assert(edge_check(0xfffffff10a08a8bau64, 13, 4));
    assert(edge_check(0xfffffff10a08a8bau64, 13, 5));
    assert(edge_check(0xfffffff10a08a8bau64, 13, 6));
    assert(edge_check(0xfffffff10a08a8bau64, 13, 7));
    assert(edge_check(0xfffffff10a08a8bau64, 13, 8));
    assert(edge_check(0xfffffff10a08a8bau64, 13, 9));
    assert(edge_check(0xfffffff10a08a8bau64, 13, 10));
    assert(edge_check(0xfffffff10a08a8bau64, 13, 11));
}

#[verifier::spinoff_prover]
proof fn lemma_row_14()
    ensures
        row_checks(TRI_TABLE[14], 14),
{
    reveal(row_entry);
    reveal(faces_inward);
    reveal(dot);
    reveal(triangle_normal);
    reveal(corner_solid);
    reveal(entry_check);
    reveal(triangle_check);
    reveal(edge_check);
    assert(TRI_TABLE[14] == 0xfffffff0393b9ba9u64);
    assert(entry_check(0xfffffff0393b9ba9u64, 14, 0));
    assert(entry_check(0xfffffff0393b9ba9u64, 14, 1));
    assert(entry_check(0xfffffff0393b9ba9u64, 14, 2));
    assert(entry_check(0xfffffff0393b9ba9u64, 14, 3));
    assert(entry_check(0xfffffff0393b9ba9u64, 14, 4));
    assert(entry_check(0xfffffff0393b9ba9u64, 14, 5));
    assert(entry_check(0xfffffff0393b9ba9u64, 14, 6));
    assert(entry_check(0xfffffff0393b9ba9u64, 14, 7));
    assert(entry_check(0xfffffff0393b9ba9u64, 14, 8));
    assert(entry_check(0xfffffff0393b9ba9u64, 14, 9));
    assert(entry_check(0xfffffff0393b9ba9u64, 14, 10));
    assert(entry_check(0xfffffff0393b9ba9u64, 14, 11));
    assert(entry_check(0xfffffff0393b9ba9u64, 14, 12));
    assert(entry_check(0xfffffff0393b9ba9u64, 14, 13));
    assert(entry_check(0xfffffff0393b9ba9u64, 14, 14));
    assert(entry_check(0xfffffff0393b9ba9u64, 14, 15));
    assert(triangle_check(0xfffffff0393b9ba9u64, 14, 0));
    assert(triangle_check(0xfffffff0393b9ba9u64, 14, 1));
    assert(triangle_check(0xfffffff0393b9ba9u64, 14, 2));
    assert(triangle_check(0xfffffff0393b9ba9u64, 14, 3));
    assert(triangle_check(0xfffffff0393b9ba9u64, 14, 4));
    assert(edge_check(0xfffffff0393b9ba9u64, 14, 0));
    assert(edge_check(0xfffffff0393b9ba9u64, 14, 1));
    assert(edge_check(0xfffffff0393b9ba9u64, 14, 2));
    assert(edge_check(0xfffffff0393b9ba9u64, 14, 3));
    assert(edge_check(0xfffffff0393b9ba9u64, 14, 4));
    assert(edge_check(0xfffffff0393b9ba9u64, 14, 5));
    assert(edge_check(0xfffffff0393b9ba9u64, 14, 6));
    assert(edge_check(0xfffffff0393b9ba9u64, 14, 7));
    assert(edge_check(0xfffffff0393b9ba9u64, 14, 8));
    assert(edge_check(0xfffffff0393b9ba9u64, 14, 9));
    assert(edge_check(0xfffffff0393b9ba9u64, 14, 10));
    assert(edge_check(0xfffffff0393b9ba9u64, 14, 11));
}

#[verifier::spinoff_prover]
proof fn lemma_row_15()
    ensures
        row_checks(TRI_TABLE[15], 15),
{
    reveal(row_entry);
    reveal(faces_inward);
    reveal(dot);
    reveal(triangle_normal);
    reveal(corner_solid);
    reveal(entry_check);
    reveal(triangle_check);
    reveal(edge_check);
    assert(TRI_TABLE[15] == 0xffffffffff8b9ba9u64);
    assert(entry_check(0xffffffffff8b9ba9u64, 15, 0));
    assert(entry_check(0xffffffffff8b9ba9u64, 15, 1));
    assert(entry_check(0xffffffffff8b9ba9u64, 15, 2));
    assert(entry_check(0xffffffffff8b9ba9u64, 15, 3));
    assert(entry_check(0xffffffffff8b9ba9u64, 15, 4));
    assert(entry_check(0xffffffffff8b9ba9u64, 15, 5));
    assert(entry_check(0xffffffffff8b9ba9u64, 15, 6));
    assert(entry_check(0xffffffffff8b9ba9u64, 15, 7));
    assert(entry_check(0xffffffffff8b9ba9u64, 15, 8));
    assert(entry_check(0xffffffffff8b9ba9u64, 15, 9));
    assert(entry_check(0xffffffffff8b9ba9u64, 15, 10));
    assert(entry_check(0xffffffffff8b9ba9u64, 15, 11));
    assert(entry_check(0xffffffffff8b9ba9u64, 15, 12));
    assert(entry_check(0xffffffffff8b9ba9u64, 15, 13));
    assert(entry_check(0xffffffffff8b9ba9u64, 15, 14));
    assert(entry_check(0xffffffffff8b9ba9u64, 15, 15));
    assert(triangle_check(0xffffffffff8b9ba9u64, 15, 0));
    assert(triangle_check(0xffffffffff8b9ba9u64, 15, 1));
    assert(triangle_check(0xffffffffff8b9ba9u64, 15, 2));
    assert(triangle_check(0xffffffffff8b9ba9u64, 15, 3));
    assert(triangle_check(0xffffffffff8b9ba9u64, 15, 4));
    assert(edge_check(0xffffffffff8b9ba9u64, 15, 0));
    assert(edge_check(0xffffffffff8b9ba9u64, 15, 1));
    assert(edge_check(0xffffffffff8b9ba9u64, 15, 2));
    assert(edge_check(0xffffffffff8b9ba9u64, 15, 3));
    assert(edge_check(0xffffffffff8b9ba9u64, 15, 4));
    assert(edge_check(0xffffffffff8b9ba9u64, 15, 5));
    assert(edge_check(0xffffffffff8b9ba9u64, 15, 6));
    assert(edge_check(0xffffffffff8b9ba9u64, 15, 7));
    assert(edge_check(0xffffffffff8b9ba9u64, 15, 8));
    assert(edge_check(0xffffffffff8b9ba9u64, 15, 9));
    assert(edge_check(0xffffffffff8b9ba9u64, 15, 10));
    assert(edge_check(0xffffffffff8b9ba9u64, 15, 11));
}

#[verifier::spinoff_prover]
proof fn lemma_row_16()
    ensures
        row_checks(TRI_TABLE[16], 16),
{
    reveal(row_entry);
    reveal(faces_inward);
    reveal(dot);
    reveal(triangle_normal);
    reveal(corner_solid);
    reveal(entry_check);
    reveal(triangle_check);
    reveal(edge_check);
    assert(TRI_TABLE[16] == 0xfffffffffffff478u64);
    assert(entry_check(0xfffffffffffff478u64, 16, 0));
    assert(entry_check(0xfffffffffffff478u64, 16, 1));
    assert(entry_check(0xfffffffffffff478u64, 16, 2));
    assert(entry_check(0xfffffffffffff478u64, 16, 3));
    assert(entry_check(0xfffffffffffff478u64, 16, 4));
    assert(entry_check(0xfffffffffffff478u64, 16, 5));
    assert(entry_check(0xfffffffffffff478u64, 16, 6));
    assert(entry_check(0xfffffffffffff478u64, 16, 7));
    assert(entry_check(0xfffffffffffff478u64, 16, 8));
    assert(entry_check(0xfffffffffffff478u64, 16, 9));
    assert(entry_check(0xfffffffffffff478u64, 16, 10));
    assert(entry_check(0xfffffffffffff478u64, 16, 11));
    assert(entry_check(0xfffffffffffff478u64, 16, 12));
    assert(entry_check(0xfffffffffffff478u64, 16, 13));
    assert(entry_check(0xfffffffffffff478u64, 16, 14));
    assert(entry_check(0xfffffffffffff478u64, 16, 15));
    assert(triangle_check(0xfffffffffffff478u64, 16, 0));
    assert(triangle_check(0xfffffffffffff478u64, 16, 1));
    assert(triangle_check(0xfffffffffffff478u64, 16, 2));
    assert(triangle_check(0xfffffffffffff478u64, 16, 3));
    assert(triangle_check(0xfffffffffffff478u64, 16, 4));
    assert(edge_check(0xfffffffffffff478u64, 16, 0));
    assert(edge_check(0xfffffffffffff478u64, 16, 1));
    assert(edge_check(0xfffffffffffff478u64, 16, 2));
    assert(edge_check(0xfffffffffffff478u64, 16, 3));
    assert(edge_check(0xfffffffffffff478u64, 16, 4));
    assert(edge_check(0xfffffffffffff478u64, 16, 5));
    assert(edge_check(0xfffffffffffff478u64, 16, 6));
    assert(edge_check(0xfffffffffffff478u64, 16, 7));
    assert(edge_check(0xfffffffffffff478u64, 16, 8));
    assert(edge_check(0xfffffffffffff478u64, 16, 9));
    assert(edge_check(0xfffffffffffff478u64, 16, 10));
    assert(edge_check(0xfffffffffffff478u64, 16, 11));
}

#[verifier::spinoff_prover]
proof fn lemma_row_17()
    ensures
        row_checks(TRI_TABLE[17], 17),
{
    reveal(row_entry);
    reveal(faces_inward);
    reveal(dot);
    reveal(triangle_normal);
    reveal(corner_solid);
    reveal(entry_check);
    reveal(triangle_check);
    reveal(edge_check);
    assert(TRI_TABLE[17] == 0xffffffffff470730u64);
    assert(entry_check(0xffffffffff470730u64, 17, 0));
    assert(entry_check(0xffffffffff470730u64, 17, 1));
    assert(entry_check(0xffffffffff470730u64, 17, 2));
    assert(entry_check(0xffffffffff470730u64, 17, 3));
    assert(entry_check(0xffffffffff470730u64, 17, 4));
    assert(entry_check(0xffffffffff470730u64, 17, 5));
    assert(entry_check(0xffffffffff470730u64, 17, 6));
    assert(entry_check(0xffffffffff470730u64, 17, 7));
    assert(entry_check(0xffffffffff470730u64, 17, 8));
    assert(entry_check(0xffffffffff470730u64, 17, 9));
    assert(entry_check(0xffffffffff470730u64, 17, 10));
    assert(entry_check(0xffffffffff470730u64, 17, 11));
    assert(entry_check(0xffffffffff470730u64, 17, 12));
    assert(entry_check(0xffffffffff470730u64, 17, 13));
    assert(entry_check(0xffffffffff470730u64, 17, 14));
    assert(entry_check(0xffffffffff470730u64, 17, 15));
    assert(triangle_check(0xffffffffff470730u64, 17, 0));
    assert(triangle_check(0xffffffffff470730u64, 17, 1));
    assert(triangle_check(0xffffffffff470730u64, 17, 2));
    assert(triangle_check(0xffffffffff470730u64, 17, 3));
    assert(triangle_check(0xffffffffff470730u64, 17, 4));
    assert(edge_check(0xffffffffff470730u64, 17, 0));
    assert(edge_check(0xffffffffff470730u64, 17, 1));
    assert(edge_check(0xffffffffff470730u64, 17, 2));
    assert(edge_check(0xffffffffff470730u64, 17, 3));
    assert(edge_check(0xffffffffff470730u64, 17, 4));
    assert(edge_check(0xffffffffff470730u64, 17, 5));
    assert(edge_check(0xffffffffff470730u64, 17, 6));
    assert(edge_check(0xffffffffff470730u64, 17, 7));
    assert(edge_check(0xffffffffff470730u64, 17, 8));
    assert(edge_check(0xffffffffff470730u64, 17, 9));
    assert(edge_check(0xffffffffff470730u64, 17, 10));
    assert(edge_check(0xffffffffff470730u64, 17, 11));
}

#[verifier::spinoff_prover]
proof fn lemma_row_18()
    ensures
        row_checks(TRI_TABLE[18], 18),
{
    reveal(row_entry);
    reveal(faces_inward);
    reveal(dot);
    reveal(triangle_normal);
    reveal(corner_solid);
    reveal(entry_check);
    reveal(triangle_check);
    reveal(edge_check);
    assert(TRI_TABLE[18] == 0xffffffffff478019u64);
    assert(entry_check(0xffffffffff478019u64, 18, 0));
    assert(entry_check(0xffffffffff478019u64, 18, 1));
    assert(entry_check(0xffffffffff478019u64, 18, 2));
    assert(entry_check(0xffffffffff478019u64, 18, 3));
    assert(entry_check(0xffffffffff478019u64, 18, 4));
    assert(entry_check(0xffffffffff478019u64, 18, 5));
    assert(entry_check(0xffffffffff478019u64, 18, 6));
    assert(entry_check(0xffffffffff478019u64, 18, 7));
    assert(entry_check(0xffffffffff478019u64, 18, 8));
    assert(entry_check(0xffffffffff478019u64, 18, 9));
    assert(entry_check(0xffffffffff478019u64, 18, 10));
    assert(entry_check(0xffffffffff478019u64, 18, 11));
    assert(entry_check(0xffffffffff478019u64, 18, 12));
    assert(entry_check(0xffffffffff478019u64, 18, 13));
    assert(entry_check(0xffffffffff478019u64, 18, 14));
    assert(entry_check(0xffffffffff478019u64, 18, 15));
    assert(triangle_check(0xffffffffff478019u64, 18, 0));
    assert(triangle_check(0xffffffffff478019u64, 18, 1));
    assert(triangle_check(0xffffffffff478019u64, 18, 2));
    assert(triangle_check(0xffffffffff478019u64, 18, 3));
    assert(triangle_check(0xffffffffff478019u64, 18, 4));
    assert(edge_check(0xffffffffff478019u64, 18, 0));
    assert(edge_check(0xffffffffff478019u64, 18, 1));
    assert(edge_check(0xffffffffff478019u64, 18, 2));
    assert(edge_check(0xffffffffff478019u64, 18, 3));
    assert(edge_check(0xffffffffff478019u64, 18, 4));
    assert(edge_check(0xffffffffff478019u64, 18, 5));
    assert(edge_check(0xffffffffff478019u64, 18, 6));
    assert(edge_check(0xffffffffff478019u64, 18, 7));
    assert(edge_check(0xffffffffff478019u64, 18, 8));
    assert(edge_check(0xffffffffff478019u64, 18, 9));
    assert(edge_check(0xffffffffff478019u64, 18, 10));
    assert(edge_check(0xffffffffff478019u64, 18, 11));
}

#[verifier::spinoff_prover]
proof fn lemma_row_19()
    ensures
        row_checks(TRI_TABLE[19], 19),
{
    reveal(row_entry);
    reveal(faces_inward);
    reveal(dot);
    reveal(triangle_normal);
    reveal(corner_solid);
    reveal(entry_check);
    reveal(triangle_check);
    reveal(edge_check);
    assert(TRI_TABLE[19] == 0xfffffff317197947u64);
    assert(entry_check(0xfffffff317197947u64, 19, 0));
    assert(entry_check(0xfffffff317197947u64, 19, 1));
    assert(entry_check(0xfffffff317197947u64, 19, 2));
    assert(entry_check(0xfffffff317197947u64, 19, 3));
    assert(entry_check(0xfffffff317197947u64, 19, 4));
    assert(entry_check(0xfffffff317197947u64, 19, 5));
    assert(entry_check(0xfffffff317197947u64, 19, 6));
    assert(entry_check(0xfffffff317197947u64, 19, 7));
    assert(entry_check(0xfffffff317197947u64, 19, 8));
    assert(entry_check(0xfffffff317197947u64, 19, 9));
    assert(entry_check(0xfffffff317197947u64, 19, 10));
    assert(entry_check(0xfffffff317197947u64, 19, 11));
    assert(entry_check(0xfffffff317197947u64, 19, 12));
    assert(entry_check(0xfffffff317197947u64, 19, 13));
    assert(entry_check(0xfffffff317197947u64, 19, 14));
    assert(entry_check(0xfffffff317197947u64, 19, 15));
    assert(triangle_check(0xfffffff317197947u64, 19, 0));
    assert(triangle_check(0xfffffff317197947u64, 19, 1));
    assert(triangle_check(0xfffffff317197947u64, 19, 2));
    assert(triangle_check(0xfffffff317197947u64, 19, 3));
    assert(triangle_check(0xfffffff317197947u64, 19, 4));
    assert(edge_check(0xfffffff317197947u64, 19, 0));
    assert(edge_check(0xfffffff317197947u64, 19, 1));
    assert(edge_check(0xfffffff317197947u64, 19, 2));
    assert(edge_check(0xfffffff317197947u64, 19, 3));
    assert(edge_check(0xfffffff317197947u64, 19, 4));
    assert(edge_check(0xfffffff317197947u64, 19, 5));
    assert(edge_check(0xfffffff317197947u64, 19, 6));
    assert(edge_check(0xfffffff317197947u64, 19, 7));
    assert(edge_check(0xfffffff317197947u64, 19, 8));
    assert(edge_check(0xfffffff317197947u64, 19, 9));
    assert(edge_check(0xfffffff317197947u64, 19, 10));
    assert(edge_check(0xfffffff317197947u64, 19, 11));
}

#[verifier::spinoff_prover]
proof fn lemma_row_20()
    ensures
        row_checks(TRI_TABLE[20], 20),
{
    reveal(row_entry);
    reveal(faces_inward);
    reveal(dot);
    reveal(triangle_normal);
    reveal(corner_solid);
    reveal(entry_check);
    reveal(triangle_check);
    reveal(edge_check);
    assert(TRI_TABLE[20] == 0xffffffffff4782a1u64);
    assert(entry_check(0xffffffffff4782a1u64, 20, 0));
    assert(entry_check(0xffffffffff4782a1u64, 20, 1));
    assert(entry_check(0xffffffffff4782a1u64, 20, 2));
    assert(entry_check(0xffffffffff4782a1u64, 20, 3));
    assert(entry_check(0xffffffffff4782a1u64, 20, 4));
    assert(entry_check(0xffffffffff4782a1u64, 20, 5));
    assert(entry_check(0xffffffffff4782a1u64, 20, 6));
    assert(entry_check(0xffffffffff4782a1u64, 20, 7));
    assert(entry_check(0xffffffffff4782a1u64, 20, 8));
    assert(entry_check(0xffffffffff4782a1u64, 20, 9));
    assert(entry_check(0xffffffffff4782a1u64, 20, 10));
    assert(entry_check(0xffffffffff4782a1u64, 20, 11));
    assert(entry_check(0xffffffffff4782a1u64, 20, 12));
    assert(entry_check(0xffffffffff4782a1u64, 20, 13));
    assert(entry_check(0xffffffffff4782a1u64, 20, 14));
    assert(entry_check(0xffffffffff4782a1u64, 20, 15));
    assert(triangle_check(0xffffffffff4782a1u64, 20, 0));
    assert(triangle_check(0xffffffffff4782a1u64, 20, 1));
    assert(triangle_check(0xffffffffff4782a1u64, 20, 2));
    assert(triangle_check(0xffffffffff4782a1u64, 20, 3));
    assert(triangle_check(0xffffffffff4782a1u64, 20, 4));
    assert(edge_check(0xffffffffff4782a1u64, 20, 0));
    assert(edge_check(0xffffffffff4782a1u64, 20, 1));
    assert(edge_check(0xffffffffff4782a1u64, 20, 2));
    assert(edge_check(0xffffffffff4782a1u64, 20, 3));
    assert(edge_check(0xffffffffff4782a1u64, 20, 4));
    assert(edge_check(0xffffffffff4782a1u64, 20, 5));
    assert(edge_check(0xffffffffff4782a1u64, 20, 6));
    assert(edge_check(0xffffffffff4782a1u64, 20, 7));
    assert(edge_check(0xffffffffff4782a1u64, 20, 8));
    assert(edge_check(0xffffffffff4782a1u64, 20, 9));
    assert(edge_check(0xffffffffff4782a1u64, 20, 10));
    assert(edge_check(0xffffffffff4782a1u64, 20, 11));
}

#[verifier::spinoff_prover]
proof fn lemma_row_21()
    ensures
        row_checks(TRI_TABLE[21], 21),
{
    reveal(row_entry);
    reveal(faces_inward);
    reveal(dot);
    reveal(triangle_normal);
    reveal(corner_solid);
    reveal(entry_check);
    reveal(triangle_check);
    reveal(edge_check);
    assert(TRI_TABLE[21] == 0xfffffff2a1470730u64);
    assert(entry_check(0xfffffff2a1470730u64, 21, 0));
    assert(entry_check(0xfffffff2a1470730u64, 21, 1));
    assert(entry_check(0xfffffff2a1470730u64, 21, 2));
    assert(entry_check(0xfffffff2a1470730u64, 21, 3));
    assert(entry_check(0xfffffff2a1470730u64, 21, 4));
    assert(entry_check(0xfffffff2a1470730u64, 21, 5));
    assert(entry_check(0xfffffff2a1470730u64, 21, 6));
    assert(entry_check(0xfffffff2a1470730u64, 21, 7));
    assert(entry_check(0xfffffff2a1470730u64, 21, 8));
    assert(entry_check(0xfffffff2a1470730u64, 21, 9));
    assert(entry_check(0xfffffff2a1470730u64, 21, 10));
    assert(entry_check(0xfffffff2a1470730u64, 21, 11));
    assert(entry_check(0xfffffff2a1470730u64, 21, 12));
    assert(entry_check(0xfffffff2a1470730u64, 21, 13));
    assert(entry_check(0xfffffff2a1470730u64, 21, 14));
    assert(entry_check(0xfffffff2a1470730u64, 21, 15));
    assert(triangle_check(0xfffffff2a1470730u64, 21, 0));
    assert(triangle_check(0xfffffff2a1470730u64, 21, 1));
    assert(triangle_check(0xfffffff2a1470730u64, 21, 2));
    assert(triangle_check(0xfffffff2a1470730u64, 21, 3));
    assert(triangle_check(0xfffffff2a1470730u64, 21, 4));
    assert(edge_check(0xfffffff2a1470730u64, 21, 0));
    assert(edge_check(0xfffffff2a1470730u64, 21, 1));
    assert(edge_check(0xfffffff2a1470730u64, 21, 2));
    assert(edge_check(0xfffffff2a1470730u64, 21, 3));
    assert(edge_check(0xfffffff2a1470730u64, 21, 4));
    assert(edge_check(0xfffffff2a1470730u64, 21, 5));
    assert(edge_check(0xfffffff2a1470730u64, 21, 6));
    assert(edge_check(0xfffffff2a1470730u64, 21, 7));
    assert(edge_check(0xfffffff2a1470730u64, 21, 8));
    assert(edge_check(0xfffffff2a1470730u64, 21, 9));
    assert(edge_check(0xfffffff2a1470730u64, 21, 10));
    assert(edge_check(0xfffffff2a1470730u64, 21, 11));
}

#[verifier::spinoff_prover]
proof fn lemma_row_22()
    ensures
        row_checks(TRI_TABLE[22], 22),
{
    reveal(row_entry);
    reveal(faces_inward);
    reveal(dot);
    reveal(triangle_normal);
    reveal(corner_solid);
    reveal(entry_check);
    reveal(triangle_check);
    reveal(edge_check);
    assert(TRI_TABLE[22] == 0xfffffff4780292a9u64);
    assert(entry_check(0xfffffff4780292a9u64, 22, 0));
    assert(entry_check(0xfffffff4780292a9u64, 22, 1));
    assert(entry_check(0xfffffff4780292a9u64, 22, 2));
    assert(entry_check(0xfffffff4780292a9u64, 22, 3));
    assert(entry_check(0xfffffff4780292a9u64, 22, 4));
    assert(entry_check(0xfffffff4780292a9u64, 22, 5));
    assert(entry_check(0xfffffff4780292a9u64, 22, 6));
    assert(entry_check(0xfffffff4780292a9u64, 22, 7));
    assert(entry_check(0xfffffff4780292a9u64, 22, 8));
    assert(entry_check(0xfffffff4780292a9u64, 22, 9));
    assert(entry_check(0xfffffff4780292a9u64, 22, 10));
    assert(entry_check(0xfffffff4780292a9u64, 22, 11));
    assert(entry_check(0xfffffff4780292a9u64, 22, 12));
    assert(entry_check(0xfffffff4780292a9u64, 22, 13));
    assert(entry_check(0xfffffff4780292a9u64, 22, 14));
    assert(entry_check(0xfffffff4780292a9u64, 22, 15));
    assert(triangle_check(0xfffffff4780292a9u64, 22, 0));
    assert(triangle_check(0xfffffff4780292a9u64, 22, 1));
    assert(triangle_check(0xfffffff4780292a9u64, 22, 2));
    assert(triangle_check(0xfffffff4780292a9u64, 22, 3));
    assert(triangle_check(0xfffffff4780292a9u64, 22, 4));
    assert(edge_check(0xfffffff4780292a9u64, 22, 0));
    assert(edge_check(0xfffffff4780292a9u64, 22, 1));
    assert(edge_check(0xfffffff4780292a9u64, 22, 2));
    assert(edge_check(0xfffffff4780292a9u64, 22, 3));
    assert(edge_check(0xfffffff4780292a9u64, 22, 4));
    assert(edge_check(0xfffffff4780292a9u64, 22, 5));
    assert(edge_check(0xfffffff4780292a9u64, 22, 6));
    assert(edge_check(0xfffffff4780292a9u64, 22, 7));
    assert(edge_check(0xfffffff4780292a9u64, 22, 8));
    assert(edge_check(0xfffffff4780292a9u64, 22, 9));
    assert(edge_check(0xfffffff4780292a9u64, 22, 10));
    assert(edge_check(0xfffffff4780292a9u64, 22, 11));
}

#[verifier::spinoff_prover]
proof fn lemma_row_23()
    ensures
        row_checks(TRI_TABLE[23], 23),
{
    reveal(row_entry);
    reveal(faces_inward);
    reveal(dot);
    reveal(triangle_normal);
    reveal(corner_solid);
    reveal(entry_check);
    reveal(triangle_check);
    reveal(edge_check);
    assert(TRI_TABLE[23] == 0xffff2a3a93943473u64);
    assert(entry_check(0xffff2a3a93943473u64, 23, 0));
    assert(entry_check(0xffff2a3a93943473u64, 23, 1));
    assert(entry_check(0xffff2a3a93943473u64, 23, 2));
    assert(entry_check(0xffff2a3a93943473u64, 23, 3));
    assert(entry_check(0xffff2a3a93943473u64, 23, 4));
    assert(entry_check(0xffff2a3a93943473u64, 23, 5));
    assert(entry_check(0xffff2a3a93943473u64, 23, 6));
    assert(entry_check(0xffff2a3a93943473u64, 23, 7));
    assert(entry_check(0xffff2a3a93943473u64, 23, 8));
    assert(entry_check(0xffff2a3a93943473u64, 23, 9));
    assert(entry_check(0xffff2a3a93943473u64, 23, 10));
    assert(entry_check(0xffff2a3a93943473u64, 23, 11));
    assert(entry_check(0xffff2a3a93943473u64, 23, 12));
    assert(entry_check(0xffff2a3a93943473u64, 23, 13));
    assert(entry_check(0xffff2a3a93943473u64, 23, 14));
    assert(entry_check(0xffff2a3a93943473u64, 23, 15));
    assert(triangle_check(0xffff2a3a93943473u64, 23, 0));
    assert(triangle_check(0xffff2a3a93943473u64, 23, 1));
    assert(triangle_check(0xffff2a3a93943473u64, 23, 2));
    assert(triangle_check(0xffff2a3a93943473u64, 23, 3));
    assert(triangle_check(0xffff2a3a93943473u64, 23, 4));
    assert(edge_check(0xffff2a3a93943473u64, 23, 0));
    assert(edge_check(0xffff2a3a93943473u64, 23, 1));
    assert(edge_check(0xffff2a3a93943473u64, 23, 2));
    assert(edge_check(0xffff2a3a93943473u64, 23, 3));
    assert(edge_check(0xffff2a3a93943473u64, 23, 4));
    assert(edge_check(0xffff2a3a93943473u64, 23, 5));
    assert(edge_check(0xffff2a3a93943473u64, 23, 6));
    assert(edge_check(0xffff2a3a93943473u64, 23, 7));
    assert(edge_check(0xffff2a3a93943473u64, 23, 8));
    assert(edge_check(0xffff2a3a93943473u64, 23, 9));
    assert(edge_check(0xffff2a3a93943473u64, 23, 10));
    assert(edge_check(0xffff2a3a93943473u64, 23, 11));
}

#[verifier::spinoff_prover]
proof fn lemma_row_24()
    ensures
        row_checks(TRI_TABLE[24], 24),
{
    reveal(row_entry);
    reveal(faces_inward);
    reveal(dot);
    reveal(triangle_normal);
    reveal(corner_solid);
    reveal(entry_check);
    reveal(triangle_check);
    reveal(edge_check);
    assert(TRI_TABLE[24] == 0xffffffffff47823bu64);
    assert(entry_check(0xffffffffff47823bu64, 24, 0));
    assert(entry_check(0xffffffffff47823bu64, 24, 1));
    assert(entry_check(0xffffffffff47823bu64, 24, 2));
    assert(entry_check(0xffffffffff47823bu64, 24, 3));
    assert(entry_check(0xffffffffff47823bu64, 24, 4));
    assert(entry_check(0xffffffffff47823bu64, 24, 5));
    assert(entry_check(0xffffffffff47823bu64, 24, 6));
    assert(entry_check(0xffffffffff47823bu64, 24, 7));
    assert(entry_check(0xffffffffff47823bu64, 24, 8));
    assert(entry_check(0xffffffffff47823bu64, 24, 9));
    assert(entry_check(0xffffffffff47823bu64, 24, 10));
    assert(entry_check(0xffffffffff47823bu64, 24, 11));
    assert(entry_check(0xffffffffff47823bu64, 24, 12));
    assert(entry_check(0xffffffffff47823bu64, 24, 13));
    assert(entry_check(0xffffffffff47823bu64, 24, 14));
    assert(entry_check(0xffffffffff47823bu64, 24, 15));
    assert(triangle_check(0xffffffffff47823bu64, 24, 0));
    assert(triangle_check(0xffffffffff47823bu64, 24, 1));
    assert(triangle_check(0xffffffffff47823bu64, 24, 2));
    assert(triangle_check(0xffffffffff47823bu64, 24, 3));
    assert(triangle_check(0xffffffffff47823bu64, 24, 4));
    assert(edge_check(0xffffffffff47823bu64, 24, 0));
    assert(edge_check(0xffffffffff47823bu64, 24, 1));
    assert(edge_check(0xffffffffff47823bu64, 24, 2));
    assert(edge_check(0xffffffffff47823bu64, 24, 3));
    assert(edge_check(0xffffffffff47823bu64, 24, 4));
    assert(edge_check(0xffffffffff47823bu64, 24, 5));
    assert(edge_check(0xffffffffff47823bu64, 24, 6));
    assert(edge_check(0xffffffffff47823bu64, 24, 7));
    assert(edge_check(0xffffffffff47823bu64, 24, 8));
    assert(edge_check(0xffffffffff47823bu64, 24, 9));
    assert(edge_check(0xffffffffff47823bu64, 24, 10));
    assert(edge_check(0xffffffffff47823bu64, 24, 11));
}

#[verifier::spinoff_prover]
proof fn lemma_row_25()
    ensures
        row_checks(TRI_TABLE[25], 25),
{
    reveal(row_entry);
    reveal(faces_inward);
    reveal(dot);
    reveal(triangle_normal);
    reveal(corner_solid);
    reveal(entry_check);
    reveal(triangle_check);
    reveal(edge_check);
    assert(TRI_TABLE[25] == 0xfffffff0424727b2u64);
    assert(entry_check(0xfffffff0424727b2u64, 25, 0));
    assert(entry_check(0xfffffff0424727b2u64, 25, 1));
    assert(entry_check(0xfffffff0424727b2u64, 25, 2));
    assert(entry_check(0xfffffff0424727b2u64, 25, 3));
    assert(entry_check(0xfffffff0424727b2u64, 25, 4));
    assert(entry_check(0xfffffff0424727b2u64, 25, 5));
    assert(entry_check(0xfffffff0424727b2u64, 25, 6));
    assert(entry_check(0xfffffff0424727b2u64, 25, 7));
    assert(entry_check(0xfffffff0424727b2u64, 25, 8));
    assert(entry_check(0xfffffff0424727b2u64, 25, 9));
    assert(entry_check(0xfffffff0424727b2u64, 25, 10));
    assert(entry_check(0xfffffff0424727b2u64, 25, 11));
    assert(entry_check(0xfffffff0424727b2u64, 25, 12));
    assert(entry_check(0xfffffff0424727b2u64, 25, 13));
    assert(entry_check(0xfffffff0424727b2u64, 25, 14));
    assert(entry_check(0xfffffff0424727b2u64, 25, 15));
    assert(triangle_check(0xfffffff0424727b2u64, 25, 0));
    assert(triangle_check(0xfffffff0424727b2u64, 25, 1));
    assert(triangle_check(0xfffffff0424727b2u64, 25, 2));
    assert(triangle_check(0xfffffff0424727b2u64, 25, 3));
    assert(triangle_check(0xfffffff0424727b2u64, 25, 4));
    assert(edge_check(0xfffffff0424727b2u64, 25, 0));
    assert(edge_check(0xfffffff0424727b2u64, 25, 1));
    assert(edge_check(0xfffffff0424727b2u64, 25, 2));
    assert(edge_check(0xfffffff0424727b2u64, 25, 3));
    assert(edge_check(0xfffffff0424727b2u64, 25, 4));
    assert(edge_check(0xfffffff0424727b2u64, 25, 5));
    assert(edge_check(0xfffffff0424727b2u64, 25, 6));
    assert(edge_check(0xfffffff0424727b2u64, 25, 7));
    assert(edge_check(0xfffffff0424727b2u64, 25, 8));
    assert(edge_check(0xfffffff0424727b2u64, 25, 9));
    assert(edge_check(0xfffffff0424727b2u64, 25, 10));
    assert(edge_check(0xfffffff0424727b2u64, 25, 11));
}

#[verifier::spinoff_prover]
proof fn lemma_row_26()
    ensures
        row_checks(TRI_TABLE[26], 26),
{
    reveal(row_entry);
    reveal(faces_inward);
    reveal(dot);
    reveal(triangle_normal);
    reveal(corner_solid);
    reveal(entry_check);
    reveal(triangle_check);
    reveal(edge_check);
    assert(TRI_TABLE[26] == 0xfffffff47823b019u64);
    assert(entry_check(0xfffffff47823b019u64, 26, 0));
    assert(entry_check(0xfffffff47823b019u64, 26, 1));
    assert(entry_check(0xfffffff47823b019u64, 26, 2));
    assert(entry_check(0xfffffff47823b019u64, 26, 3));
    assert(entry_check(0xfffffff47823b019u64, 26, 4));
    assert(entry_check(0xfffffff47823b019u64, 26, 5));
    assert(entry_check(0xfffffff47823b019u64, 26, 6));
    assert(entry_check(0xfffffff47823b019u64, 26, 7));
    assert(entry_check(0xfffffff47823b019u64, 26, 8));
    assert(entry_check(0xfffffff47823b019u64, 26, 9));
    assert(entry_check(0xfffffff47823b019u64, 26, 10));
    assert(entry_check(0xfffffff47823b019u64, 26, 11));
    assert(entry_check(0xfffffff47823b019u64, 26, 12));
    assert(entry_check(0xfffffff47823b019u64, 26, 13));
    assert(entry_check(0xfffffff47823b019u64, 26, 14));
    assert(entry_check(0xfffffff47823b019u64, 26, 15));
    assert(triangle_check(0xfffffff47823b019u64, 26, 0));
    assert(triangle_check(0xfffffff47823b019u64, 26, 1));
    assert(triangle_check(0xfffffff47823b019u64, 26, 2));
    assert(triangle_check(0xfffffff47823b019u64, 26, 3));
    assert(triangle_check(0xfffffff47823b019u64, 26, 4));
    assert(edge_check(0xfffffff47823b019u64, 26, 0));
    assert(edge_check(0xfffffff47823b019u64, 26, 1));
    assert(edge_check(0xfffffff47823b019u64, 26, 2));
    assert(edge_check(0xfffffff47823b019u64, 26, 3));
    assert(edge_check(0xfffffff47823b019u64, 26, 4));
    assert(edge_check(0xfffffff47823b019u64, 26, 5));
    assert(edge_check(0xfffffff47823b019u64, 26, 6));
    assert(edge_check(0xfffffff47823b019u64, 26, 7));
    assert(edge_check(0xfffffff47823b019u64, 26, 8));
    assert(edge_check(0xfffffff47823b019u64, 26, 9));
    assert(edge_check(0xfffffff47823b019u64, 26, 10));
    assert(edge_check(0xfffffff47823b019u64, 26, 11));
}

#[verifier::spinoff_prover]
proof fn lemma_row_27()
    ensures
        row_checks(TRI_TABLE[27], 27),
{
    reveal(row_entry);
    reveal(faces_inward);
    reveal(dot);
    reveal(triangle_normal);
    reveal(corner_solid);
    reveal(entry_check);
    reveal(triangle_check);
    reveal(edge_check);
    assert(TRI_TABLE[27] == 0xffff1929424727b2u64);
    assert(entry_check(0xffff1929424727b2u64, 27, 0));
    assert(entry_check(0xffff1929424727b2u64, 27, 1));
    assert(entry_check(0xffff1929424727b2u64, 27, 2));
    assert(entry_check(0xffff1929424727b2u64, 27, 3));
    assert(entry_check(0xffff1929424727b2u64, 27, 4));
    assert(entry_check(0xffff1929424727b2u64, 27, 5));
    assert(entry_check(0xffff1929424727b2u64, 27, 6));
    assert(entry_check(0xffff1929424727b2u64, 27, 7));
    assert(entry_check(0xffff1929424727b2u64, 27, 8));
    assert(entry_check(0xffff1929424727b2u64, 27, 9));
    assert(entry_check(0xffff1929424727b2u64, 27, 10));
    assert(entry_check(0xffff1929424727b2u64, 27, 11));
    assert(entry_check(0xffff1929424727b2u64, 27, 12));
    assert(entry_check(0xffff1929424727b2u64, 27, 13));
    assert(entry_check(0xffff1929424727b2u64, 27, 14));
    assert(entry_check(0xffff1929424727b2u64, 27, 15));
    assert(triangle_check(0xffff1929424727b2u64, 27, 0));
    assert(triangle_check(0xffff1929424727b2u64, 27, 1));
    assert(triangle_check(0xffff1929424727b2u64, 27, 2));
    assert(triangle_check(0xffff1929424727b2u64, 27, 3));
    assert(triangle_check(0xffff1929424727b2u64, 27, 4));
    assert(edge_check(0xffff1929424727b2u64, 27, 0));
    assert(edge_check(0xffff1929424727b2u64, 27, 1));
    assert(edge_check(0xffff1929424727b2u64, 27, 2));
    assert(edge_check(0xffff1929424727b2u64, 27, 3));
    assert(edge_check(0xffff1929424727b2u64, 27, 4));
    assert(edge_check(0xffff1929424727b2u64, 27, 5));
    assert(edge_check(0xffff1929424727b2u64, 27, 6));
    assert(edge_check(0xffff1929424727b2u64, 27, 7));
    assert(edge_check(0xffff1929424727b2u64, 27, 8));
    assert(edge_check(0xffff1929424727b2u64, 27, 9));
    assert(edge_check(0xffff1929424727b2u64, 27, 10));
    assert(edge_check(0xffff1929424727b2u64, 27, 11));
}

#[verifier::spinoff_prover]
proof fn lemma_row_28()
    ensures
        row_checks(TRI_TABLE[28], 28),
{
    reveal(row_entry);
    reveal(faces_inward);
    reveal(dot);
    reveal(triangle_normal);
    reveal(corner_solid);
    reveal(entry_check);
    reveal(triangle_check);
    reveal(edge_check);
    assert(TRI_TABLE[28] == 0xfffffff4783b1ba1u64);
    assert(entry_check(0xfffffff4783b1ba1u64, 28, 0));
    assert(entry_check(0xfffffff4783b1ba1u64, 28, 1));
    assert(entry_check(0xfffffff4783b1ba1u64, 28, 2));
    assert(entry_check(0xfffffff4783b1ba1u64, 28, 3));
    assert(entry_check(0xfffffff4783b1ba1u64, 28, 4));
    assert(entry_check(0xfffffff4783b1ba1u64, 28, 5));
    assert(entry_check(0xfffffff4783b1ba1u64, 28, 6));
    assert(entry_check(0xfffffff4783b1ba1u64, 28, 7));
    assert(entry_check(0xfffffff4783b1ba1u64, 28, 8));
    assert(entry_check(0xfffffff4783b1ba1u64, 28, 9));
    assert(entry_check(0xfffffff4783b1ba1u64, 28, 10));
    assert(entry_check(0xfffffff4783b1ba1u64, 28, 11));
    assert(entry_check(0xfffffff4783b1ba1u64, 28, 12));
    assert(entry_check(0xfffffff4783b1ba1u64, 28, 13));
    assert(entry_check(0xfffffff4783b1ba1u64, 28, 14));
    assert(entry_check(0xfffffff4783b1ba1u64, 28, 15));
    assert(triangle_check(0xfffffff4783b1ba1u64, 28, 0));
    assert(triangle_check(0xfffffff4783b1ba1u64, 28, 1));
    assert(triangle_check(0xfffffff4783b1ba1u64, 28, 2));
    assert(triangle_check(0xfffffff4783b1ba1u64, 28, 3));
    assert(triangle_check(0xfffffff4783b1ba1u64, 28, 4));
    assert(edge_check(0xfffffff4783b1ba1u64, 28, 0));
    assert(edge_check(0xfffffff4783b1ba1u64, 28, 1));
    assert(edge_check(0xfffffff4783b1ba1u64, 28, 2));
    assert(edge_check(0xfffffff4783b1ba1u64, 28, 3));
    assert(edge_check(0xfffffff4783b1ba1u64, 28, 4));
    assert(edge_check(0xfffffff4783b1ba1u64, 28, 5));
    assert(edge_check(0xfffffff4783b1ba1u64, 28, 6));
    assert(edge_check(0xfffffff4783b1ba1u64, 28, 7));
    assert(edge_check(0xfffffff4783b1ba1u64, 28, 8));
    assert(edge_check(0xfffffff4783b1ba1u64, 28, 9));
    assert(edge_check(0xfffffff4783b1ba1u64, 28, 10));
    assert(edge_check(0xfffffff4783b1ba1u64, 28, 11));
}

#[verifier::spinoff_prover]
proof fn lemma_row_29()
    ensures
        row_checks(TRI_TABLE[29], 29),
{
    reveal(row_entry);
    reveal(faces_inward);
    reveal(dot);
    reveal(triangle_normal);
    reveal(corner_solid);
    reveal(entry_check);
    reveal(triangle_check);
    reveal(edge_check);
    assert(TRI_TABLE[29] == 0xffff4707b0ba0a10u64);
    assert(entry_check(0xffff4707b0ba0a10u64, 29, 0));
    assert(entry_check(0xffff4707b0ba0a10u64, 29, 1));
    assert(entry_check(0xffff4707b0ba0a10u64, 29, 2));
    assert(entry_check(0xffff4707b0ba0a10u64, 29, 3));
    assert(entry_check(0xffff4707b0ba0a10u64, 29, 4));
    assert(entry_check(0xffff4707b0ba0a10u64, 29, 5));
    assert(entry_check(0xffff4707b0ba0a10u64, 29, 6));
    assert(entry_check(0xffff4707b0ba0a10u64, 29, 7));
    assert(entry_check(0xffff4707b0ba0a10u64, 29, 8));
    assert(entry_check(0xffff4707b0ba0a10u64, 29, 9));
    assert(entry_check(0xffff4707b0ba0a10u64, 29, 10));
    assert(entry_check(0xffff4707b0ba0a10u64, 29, 11));
    assert(entry_check(0xffff4707b0ba0a10u64, 29, 12));
    assert(entry_check(0xffff4707b0ba0a10u64, 29, 13));
    assert(entry_check(0xffff4707b0ba0a10u64, 29, 14));
    assert(entry_check(0xffff4707b0ba0a10u64, 29, 15));
    assert(triangle_check(0xffff4707b0ba0a10u64, 29, 0));
    assert(triangle_check(0xffff4707b0ba0a10u64, 29, 1));
    assert(triangle_check(0xffff4707b0ba0a10u64, 29, 2));
    assert(triangle_check(0xffff4707b0ba0a10u64, 29, 3));
    assert(triangle_check(0xffff4707b0ba0a10u64, 29, 4));
    assert(edge_check(0xffff4707b0ba0a10u64, 29, 0));
    assert(edge_check(0xffff4707b0ba0a10u64, 29, 1));
    assert(edge_check(0xffff4707b0ba0a10u64, 29, 2));
    assert(edge_check(0xffff4707b0ba0a10u64, 29, 3));
    assert(edge_check(0xffff4707b0ba0a10u64, 29, 4));
    assert(edge_check(0xffff4707b0ba0a10u64, 29, 5));
    assert(edge_check(0xffff4707b0ba0a10u64, 29, 6));
    assert(edge_check(0xffff4707b0ba0a10u64, 29, 7));
    assert(edge_check(0xffff4707b0ba0a10u64, 29, 8));
    assert(edge_check(0xffff4707b0ba0a10u64, 29, 9));
    assert(edge_check(0xffff4707b0ba0a10u64, 29, 10));
    assert(edge_check(0xffff4707b0ba0a10u64, 29, 11));
}

#[verifier::spinoff_prover]
proof fn lemma_row_30()
    ensures
        row_checks(TRI_TABLE[30], 30),
{
    reveal(row_entry);
    reveal(faces_inward);
    reveal(dot);
    reveal(triangle_normal);
    reveal(corner_solid);
    reveal(entry_check);
    reveal(triangle_check);
    reveal(edge_check);
    assert(TRI_TABLE[30] == 0xffff4780393b9ba9u64);
    assert(entry_check(0xffff4780393b9ba9u64, 30, 0));
    assert(entry_check(0xffff4780393b9ba9u64, 30, 1));
    assert(entry_check(0xffff4780393b9ba9u64, 30, 2));
    assert(entry_check(0xffff4780393b9ba9u64, 30, 3));
    assert(entry_check(0xffff4780393b9ba9u64, 30, 4));
    assert(entry_check(0xffff4780393b9ba9u64, 30, 5));
    assert(entry_check(0xffff4780393b9ba9u64, 30, 6));
    assert(entry_check(0xffff4780393b9ba9u64, 30, 7));
    assert(entry_check(0xffff4780393b9ba9u64, 30, 8));
    assert(entry_check(0xffff4780393b9ba9u64, 30, 9));
    assert(entry_check(0xffff4780393b9ba9u64, 30, 10));
    assert(entry_check(0xffff4780393b9ba9u64, 30, 11));
    assert(entry_check(0xffff4780393b9ba9u64, 30, 12));
    assert(entry_check(0xffff4780393b9ba9u64, 30, 13));
    assert(entry_check(0xffff4780393b9ba9u64, 30, 14));
    assert(entry_check(0xffff4780393b9ba9u64, 30, 15));
    assert(triangle_check(0xffff4780393b9ba9u64, 30, 0));
    assert(triangle_check(0xffff4780393b9ba9u64, 30, 1));
    assert(triangle_check(0xffff4780393b9ba9u64, 30, 2));
    assert(triangle_check(0xffff4780393b9ba9u64, 30, 3));
    assert(triangle_check(0xffff4780393b9ba9u64, 30, 4));
    assert(edge_check(0xffff4780393b9ba9u64, 30, 0));
    assert(edge_check(0xffff4780393b9ba9u64, 30, 1));
    assert(edge_check(0xffff4780393b9ba9u64, 30, 2));
    assert(edge_check(0xffff4780393b9ba9u64, 30, 3));
    assert(edge_check(0xffff4780393b9ba9u64, 30, 4));
    assert(edge_check(0xffff4780393b9ba9u64, 30, 5));
    assert(edge_check(0xffff4780393b9ba9u64, 30, 6));
    assert(edge_check(0xffff4780393b9ba9u64, 30, 7));
    assert(edge_check(0xffff4780393b9ba9u64, 30, 8));
    assert(edge_check(0xffff4780393b9ba9u64, 30, 9));
    assert(edge_check(0xffff4780393b9ba9u64, 30, 10));
    assert(edge_check(0xffff4780393b9ba9u64, 30, 11));
}

#[verifier::spinoff_prover]
proof fn lemma_row_31()
    ensures
        row_checks(TRI_TABLE[31], 31),
{
    reveal(row_entry);
    reveal(faces_inward);
    reveal(dot);
    reveal(triangle_normal);
    reveal(corner_solid);
    reveal(entry_check);
    reveal(triangle_check);
    reveal(edge_check);
    assert(TRI_TABLE[31] == 0xfffffff4797b9ba9u64);
    assert(entry_check(0xfffffff4797b9ba9u64, 31, 0));
    assert(entry_check(0xfffffff4797b9ba9u64, 31, 1));
    assert(entry_check(0xfffffff4797b9ba9u64, 31, 2));
    assert(entry_check(0xfffffff4797b9ba9u64, 31, 3));
    assert(entry_check(0xfffffff4797b9ba9u64, 31, 4));
    assert(entry_check(0xfffffff4797b9ba9u64, 31, 5));
    assert(entry_check(0xfffffff4797b9ba9u64, 31, 6));
    assert(entry_check(0xfffffff4797b9ba9u64, 31, 7));
    assert(entry_check(0xfffffff4797b9ba9u64, 31, 8));
    assert(entry_check(0xfffffff4797b9ba9u64, 31, 9));
    assert(entry_check(0xfffffff4797b9ba9u64, 31, 10));
    assert(entry_check(0xfffffff4797b9ba9u64, 31, 11));
    assert(entry_check(0xfffffff4797b9ba9u64, 31, 12));
    assert(entry_check(0xfffffff4797b9ba9u64, 31, 13));
    assert(entry_check(0xfffffff4797b9ba9u64, 31, 14));
    assert(entry_check(0xfffffff4797b9ba9u64, 31, 15));
    assert(triangle_check(0xfffffff4797b9ba9u64, 31, 0));
    assert(triangle_check(0xfffffff4797b9ba9u64, 31, 1));
    assert(triangle_check(0xfffffff4797b9ba9u64, 31, 2));
    assert(triangle_check(0xfffffff4797b9ba9u64, 31, 3));
    assert(triangle_check(0xfffffff4797b9ba9u64, 31, 4));
    assert(edge_check(0xfffffff4797b9ba9u64, 31, 0));
    assert(edge_check(0xfffffff4797b9ba9u64, 31, 1));
    assert(edge_check(0xfffffff4797b9ba9u64, 31, 2));
    assert(edge_check(0xfffffff4797b9ba9u64, 31, 3));
    assert(edge_check(0xfffffff4797b9ba9u64, 31, 4));
    assert(edge_check(0xfffffff4797b9ba9u64, 31, 5));
    assert(edge_check(0xfffffff4797b9ba9u64, 31, 6));
    assert(edge_check(0xfffffff4797b9ba9u64, 31, 7));
    assert(edge_check(0xfffffff4797b9ba9u64, 31, 8));
    assert(edge_check(0xfffffff4797b9ba9u64, 31, 9));
    assert(edge_check(0xfffffff4797b9ba9u64, 31, 10));
    assert(edge_check(0xfffffff4797b9ba9u64, 31, 11));
}

#[verifier::spinoff_prover]
proof fn lemma_row_32()
    ensures
        row_checks(TRI_TABLE[32], 32),
{
    reveal(row_entry);
    reveal(faces_inward);
    reveal(dot);
    reveal(triangle_normal);
    reveal(corner_solid);
    reveal(entry_check);
    reveal(triangle_check);
    reveal(edge_check);
    assert(TRI_TABLE[32] == 0xfffffffffffff954u64);
    assert(entry_check(0xfffffffffffff954u64, 32, 0));
    assert(entry_check(0xfffffffffffff954u64, 32, 1));
    assert(entry_check(0xfffffffffffff954u64, 32, 2));
    assert(entry_check(0xfffffffffffff954u64, 32, 3));
    assert(entry_check(0xfffffffffffff954u64, 32, 4));
    assert(entry_check(0xfffffffffffff954u64, 32, 5));
    assert(entry_check(0xfffffffffffff954u64, 32, 6));
    assert(entry_check(0xfffffffffffff954u64, 32, 7));
    assert(entry_check(0xfffffffffffff954u64, 32, 8));
    assert(entry_check(0xfffffffffffff954u64, 32, 9));
    assert(entry_check(0xfffffffffffff954u64, 32, 10));
    assert(entry_check(0xfffffffffffff954u64, 32, 11));
    assert(entry_check(0xfffffffffffff954u64, 32, 12));
    assert(entry_check(0xfffffffffffff954u64, 32, 13));
    assert(entry_check(0xfffffffffffff954u64, 32, 14));
    assert(entry_check(0xfffffffffffff954u64, 32, 15));
    assert(triangle_check(0xfffffffffffff954u64, 32, 0));
    assert(triangle_check(0xfffffffffffff954u64, 32, 1));
    assert(triangle_check(0xfffffffffffff954u64, 32, 2));
    assert(triangle_check(0xfffffffffffff954u64, 32, 3));
    assert(triangle_check(0xfffffffffffff954u64, 32, 4));
    assert(edge_check(0xfffffffffffff954u64, 32, 0));
    assert(edge_check(0xfffffffffffff954u64, 32, 1));
    assert(edge_check(0xfffffffffffff954u64, 32, 2));
    assert(edge_check(0xfffffffffffff954u64, 32, 3));
    assert(edge_check(0xfffffffffffff954u64, 32, 4));
    assert(edge_check(0xfffffffffffff954u64, 32, 5));
    assert(edge_check(0xfffffffffffff954u64, 32, 6));
    assert(edge_check(0xfffffffffffff954u64, 32, 7));
    assert(edge_check(0xfffffffffffff954u64, 32, 8));
    assert(edge_check(0xfffffffffffff954u64, 32, 9));
    assert(edge_check(0xfffffffffffff954u64, 32, 10));
    assert(edge_check(0xfffffffffffff954u64, 32, 11));
}

#[verifier::spinoff_prover]
proof fn lemma_row_33()
    ensures
        row_checks(TRI_TABLE[33], 33),
{
    reveal(row_entry);
    reveal(faces_inward);
    reveal(dot);
    reveal(triangle_normal);
    reveal(corner_solid);
    reveal(entry_check);
    reveal(triangle_check);
    reveal(edge_check);
    assert(TRI_TABLE[33] == 0xffffffffff954830u64);
    assert(entry_check(0xffffffffff954830u64, 33, 0));
    assert(entry_check(0xffffffffff954830u64, 33, 1));
    assert(entry_check(0xffffffffff954830u64, 33, 2));
    assert(entry_check(0xffffffffff954830u64, 33, 3));
    assert(entry_check(0xffffffffff954830u64, 33, 4));
    assert(entry_check(0xffffffffff954830u64, 33, 5));
    assert(entry_check(0xffffffffff954830u64, 33, 6));
    assert(entry_check(0xffffffffff954830u64, 33, 7));
    assert(entry_check(0xffffffffff954830u64, 33, 8));
    assert(entry_check(0xffffffffff954830u64, 33, 9));
    assert(entry_check(0xffffffffff954830u64, 33, 10));
    assert(entry_check(0xffffffffff954830u64, 33, 11));
    assert(entry_check(0xffffffffff954830u64, 33, 12));
    assert(entry_check(0xffffffffff954830u64, 33, 13));
    assert(entry_check(0xffffffffff954830u64, 33, 14));
    assert(entry_check(0xffffffffff954830u64, 33, 15));
    assert(triangle_check(0xffffffffff954830u64, 33, 0));
    assert(triangle_check(0xffffffffff954830u64, 33, 1));
    assert(triangle_check(0xffffffffff954830u64, 33, 2));
    assert(triangle_check(0xffffffffff954830u64, 33, 3));
    assert(triangle_check(0xffffffffff954830u64, 33, 4));
    assert(edge_check(0xffffffffff954830u64, 33, 0));
    assert(edge_check(0xffffffffff954830u64, 33, 1));
    assert(edge_check(0xffffffffff954830u64, 33, 2));
    assert(edge_check(0xffffffffff954830u64, 33, 3));
    assert(edge_check(0xffffffffff954830u64, 33, 4));
    assert(edge_check(0xffffffffff954830u64, 33, 5));
    assert(edge_check(0xffffffffff954830u64, 33, 6));
    assert(edge_check(0xffffffffff954830u64, 33, 7));
    assert(edge_check(0xffffffffff954830u64, 33, 8));
    assert(edge_check(0xffffffffff954830u64, 33, 9));
    assert(edge_check(0xffffffffff954830u64, 33, 10));
    assert(edge_check(0xffffffffff954830u64, 33, 11));
}

#[verifier::spinoff_prover]
proof fn lemma_row_34()
    ensures
        row_checks(TRI_TABLE[34], 34),
{
    reveal(row_entry);
    reveal(faces_inward);
    reveal(dot);
    reveal(triangle_normal);
    reveal(corner_solid);
    reveal(entry_check);
    reveal(triangle_check);
    reveal(edge_check);
    assert(TRI_TABLE[34] == 0xffffffffff014154u64);
    assert(entry_check(0xffffffffff014154u64, 34, 0));
    assert(entry_check(0xffffffffff014154u64, 34, 1));
    assert(entry_check(0xffffffffff014154u64, 34, 2));
    assert(entry_check(0xffffffffff014154u64, 34, 3));
    assert(entry_check(0xffffffffff014154u64, 34, 4));
    assert(entry_check(0xffffffffff014154u64, 34, 5));
    assert(entry_check(0xffffffffff014154u64, 34, 6));
    assert(entry_check(0xffffffffff014154u64, 34, 7));
    assert(entry_check(0xffffffffff014154u64, 34, 8));
    assert(entry_check(0xffffffffff014154u64, 34, 9));
    assert(entry_check(0xffffffffff014154u64, 34, 10));
    assert(entry_check(0xffffffffff014154u64, 34, 11));
    assert(entry_check(0xffffffffff014154u64, 34, 12));
    assert(entry_check(0xffffffffff014154u64, 34, 13));
    assert(entry_check(0xffffffffff014154u64, 34, 14));
    assert(entry_check(0xffffffffff014154u64, 34, 15));
    assert(triangle_check(0xffffffffff014154u64, 34, 0));
    assert(triangle_check(0xffffffffff014154u64, 34, 1));
    assert(triangle_check(0xffffffffff014154u64, 34, 2));
    assert(triangle_check(0xffffffffff014154u64, 34, 3));
    assert(triangle_check(0xffffffffff014154u64, 34, 4));
    assert(edge_check(0xffffffffff014154u64, 34, 0));
    assert(edge_check(0xffffffffff014154u64, 34, 1));
    assert(edge_check(0xffffffffff014154u64, 34, 2));
    assert(edge_check(0xffffffffff014154u64, 34, 3));
    assert(edge_check(0xffffffffff014154u64, 34, 4));
    assert(edge_check(0xffffffffff014154u64, 34, 5));
    assert(edge_check(0xffffffffff014154u64, 34, 6));
    assert(edge_check(0xffffffffff014154u64, 34, 7));
    assert(edge_check(0xffffffffff014154u64, 34, 8));
    assert(edge_check(0xffffffffff014154u64, 34, 9));
    assert(edge_check(0xffffffffff014154u64, 34, 10));
    assert(edge_check(0xffffffffff014154u64, 34, 11));
}

#[verifier::spinoff_prover]
proof fn lemma_row_35()
    ensures
        row_checks(TRI_TABLE[35], 35),
{
    reveal(row_entry);
    reveal(faces_inward);
    reveal(dot);
    reveal(triangle_normal);
    reveal(corner_solid);
    reveal(entry_check);
    reveal(triangle_check);
    reveal(edge_check);
    assert(TRI_TABLE[35] == 0xfffffff153543483u64);
    assert(entry_check(0xfffffff153543483u64, 35, 0));
    assert(entry_check(0xfffffff153543483u64, 35, 1));
    assert(entry_check(0xfffffff153543483u64, 35, 2));
    assert(entry_check(0xfffffff153543483u64, 35, 3));
    assert(entry_check(0xfffffff153543483u64, 35, 4));
    assert(entry_check(0xfffffff153543483u64, 35, 5));
    assert(entry_check(0xfffffff153543483u64, 35, 6));
    assert(entry_check(0xfffffff153543483u64, 35, 7));
    assert(entry_check(0xfffffff153543483u64, 35, 8));
    assert(entry_check(0xfffffff153543483u64, 35, 9));
    assert(entry_check(0xfffffff153543483u64, 35, 10));
    assert(entry_check(0xfffffff153543483u64, 35, 11));
    assert(entry_check(0xfffffff153543483u64, 35, 12));
    assert(entry_check(0xfffffff153543483u64, 35, 13));
    assert(entry_check(0xfffffff153543483u64, 35, 14));
    assert(entry_check(0xfffffff153543483u64, 35, 15));
    assert(triangle_check(0xfffffff153543483u64, 35, 0));
    assert(triangle_check(0xfffffff153543483u64, 35, 1));
    assert(triangle_check(0xfffffff153543483u64, 35, 2));
    assert(triangle_check(0xfffffff153543483u64, 35, 3));
    assert(triangle_check(0xfffffff153543483u64, 35, 4));
    assert(edge_check(0xfffffff153543483u64, 35, 0));
    assert(edge_check(0xfffffff153543483u64, 35, 1));
    assert(edge_check(0xfffffff153543483u64, 35, 2));
    assert(edge_check(0xfffffff153543483u64, 35, 3));
    assert(edge_check(0xfffffff153543483u64, 35, 4));
    assert(edge_check(0xfffffff153543483u64, 35, 5));
    assert(edge_check(0xfffffff153543483u64, 35, 6));
    assert(edge_check(0xfffffff153543483u64, 35, 7));
    assert(edge_check(0xfffffff153543483u64, 35, 8));
    assert(edge_check(0xfffffff153543483u64, 35, 9));
    assert(edge_check(0xfffffff153543483u64, 35, 10));
    assert(edge_check(0xfffffff153543483u64, 35, 11));
}

#[verifier::spinoff_prover]
proof fn lemma_row_36()
    ensures
        row_checks(TRI_TABLE[36], 36),
{
    reveal(row_entry);
    reveal(faces_inward);
    reveal(dot);
    reveal(triangle_normal);
    reveal(corner_solid);
    reveal(entry_check);
    reveal(triangle_check);
    reveal(edge_check);
    assert(TRI_TABLE[36] == 0xffffffffff9542a1u64);
    assert(entry_check(0xffffffffff9542a1u64, 36, 0));
    assert(entry_check(0xffffffffff9542a1u64, 36, 1));
    assert(entry_check(0xffffffffff9542a1u64, 36, 2));
    assert(entry_check(0xffffffffff9542a1u64, 36, 3));
    assert(entry_check(0xffffffffff9542a1u64, 36, 4));
    assert(entry_check(0xffffffffff9542a1u64, 36, 5));
    assert(entry_check(0xffffffffff9542a1u64, 36, 6));
    assert(entry_check(0xffffffffff9542a1u64, 36, 7));
    assert(entry_check(0xffffffffff9542a1u64, 36, 8));
    assert(entry_check(0xffffffffff9542a1u64, 36, 9));
    assert(entry_check(0xffffffffff9542a1u64, 36, 10));
    assert(entry_check(0xffffffffff9542a1u64, 36, 11));
    assert(entry_check(0xffffffffff9542a1u64, 36, 12));
    assert(entry_check(0xffffffffff9542a1u64, 36, 13));
    assert(entry_check(0xffffffffff9542a1u64, 36, 14));
    assert(entry_check(0xffffffffff9542a1u64, 36, 15));
    assert(triangle_check(0xffffffffff9542a1u64, 36, 0));
    assert(triangle_check(0xffffffffff9542a1u64, 36, 1));
    assert(triangle_check(0xffffffffff9542a1u64, 36, 2));
    assert(triangle_check(0xffffffffff9542a1u64, 36, 3));
    assert(triangle_check(0xffffffffff9542a1u64, 36, 4));
    assert(edge_check(0xffffffffff9542a1u64, 36, 0));
    assert(edge_check(0xffffffffff9542a1u64, 36, 1));
    assert(edge_check(0xffffffffff9542a1u64, 36, 2));
    assert(edge_check(0xffffffffff9542a1u64, 36, 3));
    assert(edge_check(0xffffffffff9542a1u64, 36, 4));
    assert(edge_check(0xffffffffff9542a1u64, 36, 5));
    assert(edge_check(0xffffffffff9542a1u64, 36, 6));
    assert(edge_check(0xffffffffff9542a1u64, 36, 7));
    assert(edge_check(0xffffffffff9542a1u64, 36, 8));
    assert(edge_check(0xffffffffff9542a1u64, 36, 9));
    assert(edge_check(0xffffffffff9542a1u64, 36, 10));
    assert(edge_check(0xffffffffff9542a1u64, 36, 11));
}

#[verifier::spinoff_prover]
proof fn lemma_row_37()
    ensures
        row_checks(TRI_TABLE[37], 37),
{
    reveal(row_entry);
    reveal(faces_inward);
    reveal(dot);
    reveal(triangle_normal);
    reveal(corner_solid);
    reveal(entry_check);
    reveal(triangle_check);
    reveal(edge_check);
    assert(TRI_TABLE[37] == 0xfffffff9542a1830u64);
    assert(entry_check(0xfffffff9542a1830u64, 37, 0));
    assert(entry_check(0xfffffff9542a1830u64, 37, 1));
    assert(entry_check(0xfffffff9542a1830u64, 37, 2));
    assert(entry_check(0xfffffff9542a1830u64, 37, 3));
    assert(entry_check(0xfffffff9542a1830u64, 37, 4));
    assert(entry_check(0xfffffff9542a1830u64, 37, 5));
    assert(entry_check(0xfffffff9542a1830u64, 37, 6));
    assert(entry_check(0xfffffff9542a1830u64, 37, 7));
    assert(entry_check(0xfffffff9542a1830u64, 37, 8));
    assert(entry_check(0xfffffff9542a1830u64, 37, 9));
    assert(entry_check(0xfffffff9542a1830u64, 37, 10));
    assert(entry_check(0xfffffff9542a1830u64, 37, 11));
    assert(entry_check(0xfffffff9542a1830u64, 37, 12));
    assert(entry_check(0xfffffff9542a1830u64, 37, 13));
    assert(entry_check(0xfffffff9542a1830u64, 37, 14));
    assert(entry_check(0xfffffff9542a1830u64, 37, 15));
    assert(triangle_check(0xfffffff9542a1830u64, 37, 0));
    assert(triangle_check(0xfffffff9542a1830u64, 37, 1));
    assert(triangle_check(0xfffffff9542a1830u64, 37, 2));
    assert(triangle_check(0xfffffff9542a1830u64, 37, 3));
    assert(triangle_check(0xfffffff9542a1830u64, 37, 4));
    assert(edge_check(0xfffffff9542a1830u64, 37, 0));
    assert(edge_check(0xfffffff9542a1830u64, 37, 1));
    assert(edge_check(0xfffffff9542a1830u64, 37, 2));
    assert(edge_check(0xfffffff9542a1830u64, 37, 3));
    assert(edge_check(0xfffffff9542a1830u64, 37, 4));
    assert(edge_check(0xfffffff9542a1830u64, 37, 5));
    assert(edge_check(0xfffffff9542a1830u64, 37, 6));
    assert(edge_check(0xfffffff9542a1830u64, 37, 7));
    assert(edge_check(0xfffffff9542a1830u64, 37, 8));
    assert(edge_check(0xfffffff9542a1830u64, 37, 9));
    assert(edge_check(0xfffffff9542a1830u64, 37, 10));
    assert(edge_check(0xfffffff9542a1830u64, 37, 11));
}

#[verifier::spinoff_prover]
proof fn lemma_row_38()
    ensures
        row_checks(TRI_TABLE[38], 38),
{
    reveal(row_entry);
    reveal(faces_inward);
    reveal(dot);
    reveal(triangle_normal);
    reveal(corner_solid);
    reveal(entry_check);
    reveal(triangle_check);
    reveal(edge_check);
    assert(TRI_TABLE[38] == 0xfffffff0242a4a54u64);
    assert(entry_check(0xfffffff0242a4a54u64, 38, 0));
    assert(entry_check(0xfffffff0242a4a54u64, 38, 1));
    assert(entry_check(0xfffffff0242a4a54u64, 38, 2));
    assert(entry_check(0xfffffff0242a4a54u64, 38, 3));
    assert(entry_check(0xfffffff0242a4a54u64, 38, 4));
    assert(entry_check(0xfffffff0242a4a54u64, 38, 5));
    assert(entry_check(0xfffffff0242a4a54u64, 38, 6));
    assert(entry_check(0xfffffff0242a4a54u64, 38, 7));
    assert(entry_check(0xfffffff0242a4a54u64, 38, 8));
    assert(entry_check(0xfffffff0242a4a54u64, 38, 9));
    assert(entry_check(0xfffffff0242a4a54u64, 38, 10));
    assert(entry_check(0xfffffff0242a4a54u64, 38, 11));
    assert(entry_check(0xfffffff0242a4a54u64, 38, 12));
    assert(entry_check(0xfffffff0242a4a54u64, 38, 13));
    assert(entry_check(0xfffffff0242a4a54u64, 38, 14));
    assert(entry_check(0xfffffff0242a4a54u64, 38, 15));
    assert(triangle_check(0xfffffff0242a4a54u64, 38, 0));
    assert(triangle_check(0xfffffff0242a4a54u64, 38, 1));
    assert(triangle_check(0xfffffff0242a4a54u64, 38, 2));
    assert(triangle_check(0xfffffff0242a4a54u64, 38, 3));
    assert(triangle_check(0xfffffff0242a4a54u64, 38, 4));
    assert(edge_check(0xfffffff0242a4a54u64, 38, 0));
    assert(edge_check(0xfffffff0242a4a54u64, 38, 1));
    assert(edge_check(0xfffffff0242a4a54u64, 38, 2));
    assert(edge_check(0xfffffff0242a4a54u64, 38, 3));
    assert(edge_check(0xfffffff0242a4a54u64, 38, 4));
    assert(edge_check(0xfffffff0242a4a54u64, 38, 5));
    assert(edge_check(0xfffffff0242a4a54u64, 38, 6));
    assert(edge_check(0xfffffff0242a4a54u64, 38, 7));
    assert(edge_check(0xfffffff0242a4a54u64, 38, 8));
    assert(edge_check(0xfffffff0242a4a54u64, 38, 9));
    assert(edge_check(0xfffffff0242a4a54u64, 38, 10));
    assert(edge_check(0xfffffff0242a4a54u64, 38, 11));
}

#[verifier::spinoff_prover]
proof fn lemma_row_39()
    ensures
        row_checks(TRI_TABLE[39], 39),
{
    reveal(row_entry);
    reveal(faces_inward);
    reveal(dot);
    reveal(triangle_normal);
    reveal(corner_solid);
    reveal(entry_check);
    reveal(triangle_check);
    reveal(edge_check);
    assert(TRI_TABLE[39] == 0xffffa52542482832u64);
    assert(entry_check(0xffffa52542482832u64, 39, 0));
    assert(entry_check(0xffffa52542482832u64, 39, 1));
    assert(entry_check(0xffffa52542482832u64, 39, 2));
    assert(entry_check(0xffffa52542482832u64, 39, 3));
    assert(entry_check(0xffffa52542482832u64, 39, 4));
    assert(entry_check(0xffffa52542482832u64, 39, 5));
    assert(entry_check(0xffffa52542482832u64, 39, 6));
    assert(entry_check(0xffffa52542482832u64, 39, 7));
    assert(entry_check(0xffffa52542482832u64, 39, 8));
    assert(entry_check(0xffffa52542482832u64, 39, 9));
    assert(entry_check(0xffffa52542482832u64, 39, 10));
    assert(entry_check(0xffffa52542482832u64, 39, 11));
    assert(entry_check(0xffffa52542482832u64, 39, 12));
    assert(entry_check(0xffffa52542482832u64, 39, 13));
    assert(entry_check(0xffffa52542482832u64, 39, 14));
    assert(entry_check(0xffffa52542482832u64, 39, 15));
    assert(triangle_check(0xffffa52542482832u64, 39, 0));
    assert(triangle_check(0xffffa52542482832u64, 39, 1));
    assert(triangle_check(0xffffa52542482832u64, 39, 2));
    assert(triangle_check(0xffffa52542482832u64, 39, 3));
    assert(triangle_check(0xffffa52542482832u64, 39, 4));
    assert(edge_check(0xffffa52542482832u64, 39, 0));
    assert(edge_check(0xffffa52542482832u64, 39, 1));
    assert(edge_check(0xffffa52542482832u64, 39, 2));
    assert(edge_check(0xffffa52542482832u64, 39, 3));
    assert(edge_check(0xffffa52542482832u64, 39, 4));
    assert(edge_check(0xffffa52542482832u64, 39, 5));
    assert(edge_check(0xffffa52542482832u64, 39, 6));
    assert(edge_check(0xffffa52542482832u64, 39, 7));
    assert(edge_check(0xffffa52542482832u64, 39, 8));
    assert(edge_check(0xffffa52542482832u64, 39, 9));
    assert(edge_check(0xffffa52542482832u64, 39, 10));
    assert(edge_check(0xffffa52542482832u64, 39, 11));
}

#[verifier::spinoff_prover]
proof fn lemma_row_40()
    ensures
        row_checks(TRI_TABLE[40], 40),
{
    reveal(row_entry);
    reveal(faces_inward);
    reveal(dot);
    reveal(triangle_normal);
    reveal(corner_solid);
    reveal(entry_check);
    reveal(triangle_check);
    reveal(edge_check);
    assert(TRI_TABLE[40] == 0xffffffffff95423bu64);
    assert(entry_check(0xffffffffff95423bu64, 40, 0));
    assert(entry_check(0xffffffffff95423bu64, 40, 1));
    assert(entry_check(0xffffffffff95423bu64, 40, 2));
    assert(entry_check(0xffffffffff95423bu64, 40, 3));
    assert(entry_check(0xffffffffff95423bu64, 40, 4));
    assert(entry_check(0xffffffffff95423bu64, 40, 5));
    assert(entry_check(0xffffffffff95423bu64, 40, 6));
    assert(entry_check(0xffffffffff95423bu64, 40, 7));
    assert(entry_check(0xffffffffff95423bu64, 40, 8));
    assert(entry_check(0xffffffffff95423bu64, 40, 9));
    assert(entry_check(0xffffffffff95423bu64, 40, 10));
    assert(entry_check(0xffffffffff95423bu64, 40, 11));
    assert(entry_check(0xffffffffff95423bu64, 40, 12));
    assert(entry_check(0xffffffffff95423bu64, 40, 13));
    assert(entry_check(0xffffffffff95423bu64, 40, 14));
    assert(entry_check(0xffffffffff95423bu64, 40, 15));
    assert(triangle_check(0xffffffffff95423bu64, 40, 0));
    assert(triangle_check(0xffffffffff95423bu64, 40, 1));
    assert(triangle_check(0xffffffffff95423bu64, 40, 2));
    assert(triangle_check(0xffffffffff95423bu64, 40, 3));
    assert(triangle_check(0xffffffffff95423bu64, 40, 4));
    assert(edge_check(0xffffffffff95423bu64, 40, 0));
    assert(edge_check(0xffffffffff95423bu64, 40, 1));
    assert(edge_check(0xffffffffff95423bu64, 40, 2));
    assert(edge_check(0xffffffffff95423bu64, 40, 3));
    assert(edge_check(0xffffffffff95423bu64, 40, 4));
    assert(edge_check(0xffffffffff95423bu64, 40, 5));
    assert(edge_check(0xffffffffff95423bu64, 40, 6));
    assert(edge_check(0xffffffffff95423bu64, 40, 7));
    assert(edge_check(0xffffffffff95423bu64, 40, 8));
    assert(edge_check(0xffffffffff95423bu64, 40, 9));
    assert(edge_check(0xffffffffff95423bu64, 40, 10));
    assert(edge_check(0xffffffffff95423bu64, 40, 11));
}

#[verifier::spinoff_prover]
proof fn lemma_row_41()
    ensures
        row_checks(TRI_TABLE[41], 41),
{
    reveal(row_entry);
    reveal(faces_inward);
    reveal(dot);
    reveal(triangle_normal);
    reveal(corner_solid);
    reveal(entry_check);
    reveal(triangle_check);
    reveal(edge_check);
    assert(TRI_TABLE[41] == 0xfffffff9548b0b20u64);
    assert(entry_check(0xfffffff9548b0b20u64, 41, 0));
    assert(entry_check(0xfffffff9548b0b20u64, 41, 1));
    assert(entry_check(0xfffffff9548b0b20u64, 41, 2));
    assert(entry_check(0xfffffff9548b0b20u64, 41, 3));
    assert(entry_check(0xfffffff9548b0b20u64, 41, 4));
    assert(entry_check(0xfffffff9548b0b20u64, 41, 5));
    assert(entry_check(0xfffffff9548b0b20u64, 41, 6));
    assert(entry_check(0xfffffff9548b0b20u64, 41, 7));
    assert(entry_check(0xfffffff9548b0b20u64, 41, 8));
    assert(entry_check(0xfffffff9548b0b20u64, 41, 9));
    assert(entry_check(0xfffffff9548b0b20u64, 41, 10));
    assert(entry_check(0xfffffff9548b0b20u64, 41, 11));
    assert(entry_check(0xfffffff9548b0b20u64, 41, 12));
    assert(entry_check(0xfffffff9548b0b20u64, 41, 13));
    assert(entry_check(0xfffffff9548b0b20u64, 41, 14));
    assert(entry_check(0xfffffff9548b0b20u64, 41, 15));
    assert(triangle_check(0xfffffff9548b0b20u64, 41, 0));
    assert(triangle_check(0xfffffff9548b0b20u64, 41, 1));
    assert(triangle_check(0xfffffff9548b0b20u64, 41, 2));
    assert(triangle_check(0xfffffff9548b0b20u64, 41, 3));
    assert(triangle_check(0xfffffff9548b0b20u64, 41, 4));
    assert(edge_check(0xfffffff9548b0b20u64, 41, 0));
    assert(edge_check(0xfffffff9548b0b20u64, 41, 1));
    assert(edge_check(0xfffffff9548b0b20u64, 41, 2));
    assert(edge_check(0xfffffff9548b0b20u64, 41, 3));
    assert(edge_check(0xfffffff9548b0b20u64, 41, 4));
    assert(edge_check(0xfffffff9548b0b20u64, 41, 5));
    assert(edge_check(0xfffffff9548b0b20u64, 41, 6));
    assert(edge_check(0xfffffff9548b0b20u64, 41, 7));
    assert(edge_check(0xfffffff9548b0b20u64, 41, 8));
    assert(edge_check(0xfffffff9548b0b20u64, 41, 9));
    assert(edge_check(0xfffffff9548b0b20u64, 41, 10));
    assert(edge_check(0xfffffff9548b0b20u64, 41, 11));
}

#[verifier::spinoff_prover]
proof fn lemma_row_42()
    ensures
        row_checks(TRI_TABLE[42], 42),
{
    reveal(row_entry);
    reveal(faces_inward);
    reveal(dot);
    reveal(triangle_normal);
    reveal(corner_solid);
    reveal(entry_check);
    reveal(triangle_check);
    reveal(edge_check);
    assert(TRI_TABLE[42] == 0xfffffff23b014154u64);
    assert(entry_check(0xfffffff23b014154u64, 42, 0));
    assert(entry_check(0xfffffff23b014154u64, 42, 1));
    assert(entry_check(0xfffffff23b014154u64, 42, 2));
    assert(entry_check(0xfffffff23b014154u64, 42, 3));
    assert(entry_check(0xfffffff23b014154u64, 42, 4));
    assert(entry_check(0xfffffff23b014154u64, 42, 5));
    assert(entry_check(0xfffffff23b014154u64, 42, 6));
    assert(entry_check(0xfffffff23b014154u64, 42, 7));
    assert(entry_check(0xfffffff23b014154u64, 42, 8));
    assert(entry_check(0xfffffff23b014154u64, 42, 9));
    assert(entry_check(0xfffffff23b014154u64, 42, 10));
    assert(entry_check(0xfffffff23b014154u64, 42, 11));
    assert(entry_check(0xfffffff23b014154u64, 42, 12));
    assert(entry_check(0xfffffff23b014154u64, 42, 13));
    assert(entry_check(0xfffffff23b014154u64, 42, 14));
    assert(entry_check(0xfffffff23b014154u64, 42, 15));
    assert(triangle_check(0xfffffff23b014154u64, 42, 0));
    assert(triangle_check(0xfffffff23b014154u64, 42, 1));
    assert(triangle_check(0xfffffff23b014154u64, 42, 2));
    assert(triangle_check(0xfffffff23b014154u64, 42, 3));
    assert(triangle_check(0xfffffff23b014154u64, 42, 4));
    assert(edge_check(0xfffffff23b014154u64, 42, 0));
    assert(edge_check(0xfffffff23b014154u64, 42, 1));
    assert(edge_check(0xfffffff23b014154u64, 42, 2));
    assert(edge_check(0xfffffff23b014154u64, 42, 3));
    assert(edge_check(0xfffffff23b014154u64, 42, 4));
    assert(edge_check(0xfffffff23b014154u64, 42, 5));
    assert(edge_check(0xfffffff23b014154u64, 42, 6));
    assert(edge_check(0xfffffff23b014154u64, 42, 7));
    assert(edge_check(0xfffffff23b014154u64, 42, 8));
    assert(edge_check(0xfffffff23b014154u64, 42, 9));
    assert(edge_check(0xfffffff23b014154u64, 42, 10));
    assert(edge_check(0xfffffff23b014154u64, 42, 11));
}

#[verifier::spinoff_prover]
proof fn lemma_row_43()
    ensures
        row_checks(TRI_TABLE[43], 43),
{
    reveal(row_entry);
    reveal(faces_inward);
    reveal(dot);
    reveal(triangle_normal);
    reveal(corner_solid);
    reveal(entry_check);
    reveal(triangle_check);
    reveal(edge_check);
    assert(TRI_TABLE[43] == 0xffff21b15b54b48bu64);
    assert(entry_check(0xffff21b15b54b48bu64, 43, 0));
    assert(entry_check(0xffff21b15b54b48bu64, 43, 1));
    assert(entry_check(0xffff21b15b54b48bu64, 43, 2));
    assert(entry_check(0xffff21b15b54b48bu64, 43, 3));
    assert(entry_check(0xffff21b15b54b48bu64, 43, 4));
    assert(entry_check(0xffff21b15b54b48bu64, 43, 5));
    assert(entry_check(0xffff21b15b54b48bu64, 43, 6));
    assert(entry_check(0xffff21b15b54b48bu64, 43, 7));
    assert(entry_check(0xffff21b15b54b48bu64, 43, 8));
    assert(entry_check(0xffff21b15b54b48bu64, 43, 9));
    assert(entry_check(0xffff21b15b54b48bu64, 43, 10));
    assert(entry_check(0xffff21b15b54b48bu64, 43, 11));
    assert(entry_check(0xffff21b15b54b48bu64, 43, 12));
    assert(entry_check(0xffff21b15b54b48bu64, 43, 13));
    assert(entry_check(0xffff21b15b54b48bu64, 43, 14));
    assert(entry_check(0xffff21b15b54b48bu64, 43, 15));
    assert(triangle_check(0xffff21b15b54b48bu64, 43, 0));
    assert(triangle_check(0xffff21b15b54b48bu64, 43, 1));
    assert(triangle_check(0xffff21b15b54b48bu64, 43, 2));
    assert(triangle_check(0xffff21b15b54b48bu64, 43, 3));
    assert(triangle_check(0xffff21b15b54b48bu64, 43, 4));
    assert(edge_check(0xffff21b15b54b48bu64, 43, 0));
    assert(edge_check(0xffff21b15b54b48bu64, 43, 1));
    assert(edge_check(0xffff21b15b54b48bu64, 43, 2));
    assert(edge_check(0xffff21b15b54b48bu64, 43, 3));
    assert(edge_check(0xffff21b15b54b48bu64, 43, 4));
    assert(edge_check(0xffff21b15b54b48bu64, 43, 5));
    assert(edge_check(0xffff21b15b54b48bu64, 43, 6));
    assert(edge_check(0xffff21b15b54b48bu64, 43, 7));
    assert(edge_check(0xffff21b15b54b48bu64, 43, 8));
    assert(edge_check(0xffff21b15b54b48bu64, 43, 9));
    assert(edge_check(0xffff21b15b54b48bu64, 43, 10));
    assert(edge_check(0xffff21b15b54b48bu64, 43, 11));
}

#[verifier::spinoff_prover]
proof fn lemma_row_44()
    ensures
        row_checks(TRI_TABLE[44], 44),
{
    reveal(row_entry);
    reveal(faces_inward);
    reveal(dot);
    reveal(triangle_normal);
    reveal(corner_solid);
    reveal(entry_check);
    reveal(triangle_check);
    reveal(edge_check);
    assert(TRI_TABLE[44] == 0xfffffff9543b1ba1u64);
    assert(entry_check(0xfffffff9543b1ba1u64, 44, 0));
    assert(entry_check(0xfffffff9543b1ba1u64, 44, 1));
    assert(entry_check(0xfffffff9543b1ba1u64, 44, 2));
    assert(entry_check(0xfffffff9543b1ba1u64, 44, 3));
    assert(entry_check(0xfffffff9543b1ba1u64, 44, 4));
    assert(entry_check(0xfffffff9543b1ba1u64, 44, 5));
    assert(entry_check(0xfffffff9543b1ba1u64, 44, 6));
    assert(entry_check(0xfffffff9543b1ba1u64, 44, 7));
    assert(entry_check(0xfffffff9543b1ba1u64, 44, 8));
    assert(entry_check(0xfffffff9543b1ba1u64, 44, 9));
    assert(entry_check(0xfffffff9543b1ba1u64, 44, 10));
    assert(entry_check(0xfffffff9543b1ba1u64, 44, 11));
    assert(entry_check(0xfffffff9543b1ba1u64, 44, 12));
    assert(entry_check(0xfffffff9543b1ba1u64, 44, 13));
    assert(entry_check(0xfffffff9543b1ba1u64, 44, 14));
    assert(entry_check(0xfffffff9543b1ba1u64, 44, 15));
    assert(triangle_check(0xfffffff9543b1ba1u64, 44, 0));
    assert(triangle_check(0xfffffff9543b1ba1u64, 44, 1));
    assert(triangle_check(0xfffffff9543b1ba1u64, 44, 2));
    assert(triangle_check(0xfffffff9543b1ba1u64, 44, 3));
    assert(triangle_check(0xfffffff9543b1ba1u64, 44, 4));
    assert(edge_check(0xfffffff9543b1ba1u64, 44, 0));
    assert(edge_check(0xfffffff9543b1ba1u64, 44, 1));
    assert(edge_check(0xfffffff9543b1ba1u64, 44, 2));
    assert(edge_check(0xfffffff9543b1ba1u64, 44, 3));
    assert(edge_check(0xfffffff9543b1ba1u64, 44, 4));
    assert(edge_check(0xfffffff9543b1ba1u64, 44, 5));
    assert(edge_check(0xfffffff9543b1ba1u64, 44, 6));
    assert(edge_check(0xfffffff9543b1ba1u64, 44, 7));
    assert(edge_check(0xfffffff9543b1ba1u64, 44, 8));
    assert(edge_check(0xfffffff9543b1ba1u64, 44, 9));
    assert(edge_check(0xfffffff9543b1ba1u64, 44, 10));
    assert(edge_check(0xfffffff9543b1ba1u64, 44, 11));
}

#[verifier::spinoff_prover]
proof fn lemma_row_45()
    ensures
        row_checks(TRI_TABLE[45], 45),
{
    reveal(row_entry);
    reveal(faces_inward);
    reveal(dot);
    reveal(triangle_normal);
    reveal(corner_solid);
    reveal(entry_check);
    reveal(triangle_check);
    reveal(edge_check);
    assert(TRI_TABLE[45] == 0xffff95410a08a8bau64);
    assert(entry_check(0xffff95410a08a8bau64, 45, 0));
    assert(entry_check(0xffff95410a08a8bau64, 45, 1));
    assert(entry_check(0xffff95410a08a8bau64, 45, 2));
    assert(entry_check(0xffff95410a08a8bau64, 45, 3));
    assert(entry_check(0xffff95410a08a8bau64, 45, 4));
    assert(entry_check(0xffff95410a08a8bau64, 45, 5));
    assert(entry_check(0xffff95410a08a8bau64, 45, 6));
    assert(entry_check(0xffff95410a08a8bau64, 45, 7));
    assert(entry_check(0xffff95410a08a8bau64, 45, 8));
    assert(entry_check(0xffff95410a08a8bau64, 45, 9));
    assert(entry_check(0xffff95410a08a8bau64, 45, 10));
    assert(entry_check(0xffff95410a08a8bau64, 45, 11));
    assert(entry_check(0xffff95410a08a8bau64, 45, 12));
    assert(entry_check(0xffff95410a08a8bau64, 45, 13));
    assert(entry_check(0xffff95410a08a8bau64, 45, 14));
    assert(entry_check(0xffff95410a08a8bau64, 45, 15));
    assert(triangle_check(0xffff95410a08a8bau64, 45, 0));
    assert(triangle_check(0xffff95410a08a8bau64, 45, 1));
    assert(triangle_check(0xffff95410a08a8bau64, 45, 2));
    assert(triangle_check(0xffff95410a08a8bau64, 45, 3));
    assert(triangle_check(0xffff95410a08a8bau64, 45, 4));
    assert(edge_check(0xffff95410a08a8bau64, 45, 0));
    assert(edge_check(0xffff95410a08a8bau64, 45, 1));
    assert(edge_check(0xffff95410a08a8bau64, 45, 2));
    assert(edge_check(0xffff95410a08a8bau64, 45, 3));
    assert(edge_check(0xffff95410a08a8bau64, 45, 4));
    assert(edge_check(0xffff95410a08a8bau64, 45, 5));
    assert(edge_check(0xffff95410a08a8bau64, 45, 6));
    assert(edge_check(0xffff95410a08a8bau64, 45, 7));
    assert(edge_check(0xffff95410a08a8bau64, 45, 8));
    assert(edge_check(0xffff95410a08a8bau64, 45, 9));
    assert(edge_check(0xffff95410a08a8bau64, 45, 10));
    assert(edge_check(0xffff95410a08a8bau64, 45, 11));
}

#[verifier::spinoff_prover]
proof fn lemma_row_46()
    ensures
        row_checks(TRI_TABLE[46], 46),
{
    reveal(row_entry);
    reveal(faces_inward);
    reveal(dot);
    reveal(triangle_normal);
    reveal(corner_solid);
    reveal(entry_check);
    reveal(triangle_check);
    reveal(edge_check);
    assert(TRI_TABLE[46] == 0xffff0343b4ba4a54u64);
    assert(entry_check(0xffff0343b4ba4a54u64, 46, 0));
    assert(entry_check(0xffff0343b4ba4a54u64, 46, 1));
    assert(entry_check(0xffff0343b4ba4a54u64, 46, 2));
    assert(entry_check(0xffff0343b4ba4a54u64, 46, 3));
    assert(entry_check(0xffff0343b4ba4a54u64, 46, 4));
    assert(entry_check(0xffff0343b4ba4a54u64, 46, 5));
    assert(entry_check(0xffff0343b4ba4a54u64, 46, 6));
    assert(entry_check(0xffff0343b4ba4a54u64, 46, 7));
    assert(entry_check(0xffff0343b4ba4a54u64, 46, 8));
    assert(entry_check(0xffff0343b4ba4a54u64, 46, 9));
    assert(entry_check(0xffff0343b4ba4a54u64, 46, 10));
    assert(entry_check(0xffff0343b4ba4a54u64, 46, 11));
    assert(entry_check(0xffff0343b4ba4a54u64, 46, 12));
    assert(entry_check(0xffff0343b4ba4a54u64, 46, 13));
    assert(entry_check(0xffff0343b4ba4a54u64, 46, 14));
    assert(entry_check(0xffff0343b4ba4a54u64, 46, 15));
    assert(triangle_check(0xffff0343b4ba4a54u64, 46, 0));
    assert(triangle_check(0xffff0343b4ba4a54u64, 46, 1));
    assert(triangle_check(0xffff0343b4ba4a54u64, 46, 2));
    assert(triangle_check(0xffff0343b4ba4a54u64, 46, 3));
    assert(triangle_check(0xffff0343b4ba4a54u64, 46, 4));
    assert(edge_check(0xffff0343b4ba4a54u64, 46, 0));
    assert(edge_check(0xffff0343b4ba4a54u64, 46, 1));
    assert(edge_check(0xffff0343b4ba4a54u64, 46, 2));
    assert(edge_check(0xffff0343b4ba4a54u64, 46, 3));
    assert(edge_check(0xffff0343b4ba4a54u64, 46, 4));
    assert(edge_check(0xffff0343b4ba4a54u64, 46, 5));
    assert(edge_check(0xffff0343b4ba4a54u64, 46, 6));
    assert(edge_check(0xffff0343b4ba4a54u64, 46, 7));
    assert(edge_check(0xffff0343b4ba4a54u64, 46, 8));
    assert(edge_check(0xffff0343b4ba4a54u64, 46, 9));
    assert(edge_check(0xffff0343b4ba4a54u64, 46, 10));
    assert(edge_check(0xffff0343b4ba4a54u64, 46, 11));
}

#[verifier::spinoff_prover]
proof fn lemma_row_47()
    ensures
        row_checks(TRI_TABLE[47], 47),
{
    reveal(row_entry);
    reveal(faces_inward);
    reveal(dot);
    reveal(triangle_normal);
    reveal(corner_solid);
    reveal(entry_check);
    reveal(triangle_check);
    reveal(edge_check);
    assert(TRI_TABLE[47] == 0xfffffff54a48a8bau64);
    assert(entry_check(0xfffffff54a48a8bau64, 47, 0));
    assert(entry_check(0xfffffff54a48a8bau64, 47, 1));
    assert(entry_check(0xfffffff54a48a8bau64, 47, 2));
    assert(entry_check(0xfffffff54a48a8bau64, 47, 3));
    assert(entry_check(0xfffffff54a48a8bau64, 47, 4));
    assert(entry_check(0xfffffff54a48a8bau64, 47, 5));
    assert(entry_check(0xfffffff54a48a8bau64, 47, 6));
    assert(entry_check(0xfffffff54a48a8bau64, 47, 7));
    assert(entry_check(0xfffffff54a48a8bau64, 47, 8));
    assert(entry_check(0xfffffff54a48a8bau64, 47, 9));
    assert(entry_check(0xfffffff54a48a8bau64, 47, 10));
    assert(entry_check(0xfffffff54a48a8bau64, 47, 11));
    assert(entry_check(0xfffffff54a48a8bau64, 47, 12));
    assert(entry_check(0xfffffff54a48a8bau64, 47, 13));
    assert(entry_check(0xfffffff54a48a8bau64, 47, 14));
    assert(entry_check(0xfffffff54a48a8bau64, 47, 15));
    assert(triangle_check(0xfffffff54a48a8bau64, 47, 0));
    assert(triangle_check(0xfffffff54a48a8bau64, 47, 1));
    assert(triangle_check(0xfffffff54a48a8bau64, 47, 2));
    assert(triangle_check(0xfffffff54a48a8bau64, 47, 3));
    assert(triangle_check(0xfffffff54a48a8bau64, 47, 4));
    assert(edge_check(0xfffffff54a48a8bau64, 47, 0));
    assert(edge_check(0xfffffff54a48a8bau64, 47, 1));
    assert(edge_check(0xfffffff54a48a8bau64, 47, 2));
    assert(edge_check(0xfffffff54a48a8bau64, 47, 3));
    assert(edge_check(0xfffffff54a48a8bau64, 47, 4));
    assert(edge_check(0xfffffff54a48a8bau64, 47, 5));
    assert(edge_check(0xfffffff54a48a8bau64, 47, 6));
    assert(edge_check(0xfffffff54a48a8bau64, 47, 7));
    assert(edge_check(0xfffffff54a48a8bau64, 47, 8));
    assert(edge_check(0xfffffff54a48a8bau64, 47, 9));
    assert(edge_check(0xfffffff54a48a8bau64, 47, 10));
    assert(edge_check(0xfffffff54a48a8bau64, 47, 11));
}

#[verifier::spinoff_prover]
proof fn lemma_row_48()
    ensures
        row_checks(TRI_TABLE[48], 48),
{
    reveal(row_entry);
    reveal(faces_inward);
    reveal(dot);
    reveal(triangle_normal);
    reveal(corner_solid);
    reveal(entry_check);
    reveal(triangle_check);
    reveal(edge_check);
    assert(TRI_TABLE[48] == 0xffffffffff785895u64);
    assert(entry_check(0xffffffffff785895u64, 48, 0));
    assert(entry_check(0xffffffffff785895u64, 48, 1));
    assert(entry_check(0xffffffffff785895u64, 48, 2));
    assert(entry_check(0xffffffffff785895u64, 48, 3));
    assert(entry_check(0xffffffffff785895u64, 48, 4));
    assert(entry_check(0xffffffffff785895u64, 48, 5));
    assert(entry_check(0xffffffffff785895u64, 48, 6));
    assert(entry_check(0xffffffffff785895u64, 48, 7));
    assert(entry_check(0xffffffffff785895u64, 48, 8));
    assert(entry_check(0xffffffffff785895u64, 48, 9));
    assert(entry_check(0xffffffffff785895u64, 48, 10));
    assert(entry_check(0xffffffffff785895u64, 48, 11));
    assert(entry_check(0xffffffffff785895u64, 48, 12));
    assert(entry_check(0xffffffffff785895u64, 48, 13));
    assert(entry_check(0xffffffffff785895u64, 48, 14));
    assert(entry_check(0xffffffffff785895u64, 48, 15));
    assert(triangle_check(0xffffffffff785895u64, 48, 0));
    assert(triangle_check(0xffffffffff785895u64, 48, 1));
    assert(triangle_check(0xffffffffff785895u64, 48, 2));
    assert(triangle_check(0xffffffffff785895u64, 48, 3));
    assert(triangle_check(0xffffffffff785895u64, 48, 4));
    assert(edge_check(0xffffffffff785895u64, 48, 0));
    assert(edge_check(0xffffffffff785895u64, 48, 1));
    assert(edge_check(0xffffffffff785895u64, 48, 2));
    assert(edge_check(0xffffffffff785895u64, 48, 3));
    assert(edge_check(0xffffffffff785895u64, 48, 4));
    assert(edge_check(0xffffffffff785895u64, 48, 5));
    assert(edge_check(0xffffffffff785895u64, 48, 6));
    assert(edge_check(0xffffffffff785895u64, 48, 7));
    assert(edge_check(0xffffffffff785895u64, 48, 8));
    assert(edge_check(0xffffffffff785895u64, 48, 9));
    assert(edge_check(0xffffffffff785895u64, 48, 10));
    assert(edge_check(0xffffffffff785895u64, 48, 11));
}

#[verifier::spinoff_prover]
proof fn lemma_row_49()
    ensures
        row_checks(TRI_TABLE[49], 49),
{
    reveal(row_entry);
    reveal(faces_inward);
    reveal(dot);
    reveal(triangle_normal);
    reveal(corner_solid);
    reveal(entry_check);
    reveal(triangle_check);
    reveal(edge_check);
    assert(TRI_TABLE[49] == 0xfffffff093953573u64);
    assert(entry_check(0xfffffff093953573u64, 49, 0));
    assert(entry_check(0xfffffff093953573u64, 49, 1));
    assert(entry_check(0xfffffff093953573u64, 49, 2));
    assert(entry_check(0xfffffff093953573u64, 49, 3));
    assert(entry_check(0xfffffff093953573u64, 49, 4));
    assert(entry_check(0xfffffff093953573u64, 49, 5));
    assert(entry_check(0xfffffff093953573u64, 49, 6));
    assert(entry_check(0xfffffff093953573u64, 49, 7));
    assert(entry_check(0xfffffff093953573u64, 49, 8));
    assert(entry_check(0xfffffff093953573u64, 49, 9));
    assert(entry_check(0xfffffff093953573u64, 49, 10));
    assert(entry_check(0xfffffff093953573u64, 49, 11));
    assert(entry_check(0xfffffff093953573u64, 49, 12));
    assert(entry_check(0xfffffff093953573u64, 49, 13));
    assert(entry_check(0xfffffff093953573u64, 49, 14));
    assert(entry_check(0xfffffff093953573u64, 49, 15));
    assert(triangle_check(0xfffffff093953573u64, 49, 0));
    assert(triangle_check(0xfffffff093953573u64, 49, 1));
    assert(triangle_check(0xfffffff093953573u64, 49, 2));
    assert(triangle_check(0xfffffff093953573u64, 49, 3));
    assert(triangle_check(0xfffffff093953573u64, 49, 4));
    assert(edge_check(0xfffffff093953573u64, 49, 0));
    assert(edge_check(0xfffffff093953573u64, 49, 1));
    assert(edge_check(0xfffffff093953573u64, 49, 2));
    assert(edge_check(0xfffffff093953573u64, 49, 3));
    assert(edge_check(0xfffffff093953573u64, 49, 4));
    assert(edge_check(0xfffffff093953573u64, 49, 5));
    assert(edge_check(0xfffffff093953573u64, 49, 6));
    assert(edge_check(0xfffffff093953573u64, 49, 7));
    assert(edge_check(0xfffffff093953573u64, 49, 8));
    assert(edge_check(0xfffffff093953573u64, 49, 9));
    assert(edge_check(0xfffffff093953573u64, 49, 10));
    assert(edge_check(0xfffffff093953573u64, 49, 11));
}

#[verifier::spinoff_prover]
proof fn lemma_row_50()
    ensures
        row_checks(TRI_TABLE[50], 50),
{
    reveal(row_entry);
    reveal(faces_inward);
    reveal(dot);
    reveal(triangle_normal);
    reveal(corner_solid);
    reveal(entry_check);
    reveal(triangle_check);
    reveal(edge_check);
    assert(TRI_TABLE[50] == 0xfffffff807017157u64);
    assert(entry_check(0xfffffff807017157u64, 50, 0));
    assert(entry_check(0xfffffff807017157u64, 50, 1));
    assert(entry_check(0xfffffff807017157u64, 50, 2));
    assert(entry_check(0xfffffff807017157u64, 50, 3));
    assert(entry_check(0xfffffff807017157u64, 50, 4));
    assert(entry_check(0xfffffff807017157u64, 50, 5));
    assert(entry_check(0xfffffff807017157u64, 50, 6));
    assert(entry_check(0xfffffff807017157u64, 50, 7));
    assert(entry_check(0xfffffff807017157u64, 50, 8));
    assert(entry_check(0xfffffff807017157u64, 50, 9));
    assert(entry_check(0xfffffff807017157u64, 50, 10));
    assert(entry_check(0xfffffff807017157u64, 50, 11));
    assert(entry_check(0xfffffff807017157u64, 50, 12));
    assert(entry_check(0xfffffff807017157u64, 50, 13));
    assert(entry_check(0xfffffff807017157u64, 50, 14));
    assert(entry_check(0xfffffff807017157u64, 50, 15));
    assert(triangle_check(0xfffffff807017157u64, 50, 0));
    assert(triangle_check(0xfffffff807017157u64, 50, 1));
    assert(triangle_check(0xfffffff807017157u64, 50, 2));
    assert(triangle_check(0xfffffff807017157u64, 50, 3));
    assert(triangle_check(0xfffffff807017157u64, 50, 4));
    assert(edge_check(0xfffffff807017157u64, 50, 0));
    assert(edge_check(0xfffffff807017157u64, 50, 1));
    assert(edge_check(0xfffffff807017157u64, 50, 2));
    assert(edge_check(0xfffffff807017157u64, 50, 3));
    assert(edge_check(0xfffffff807017157u64, 50, 4));
    assert(edge_check(0xfffffff807017157u64, 50, 5));
    assert(edge_check(0xfffffff807017157u64, 50, 6));
    assert(edge_check(0xfffffff807017157u64, 50, 7));
    assert(edge_check(0xfffffff807017157u64, 50, 8));
    assert(edge_check(0xfffffff807017157u64, 50, 9));
    assert(edge_check(0xfffffff807017157u64, 50, 10));
    assert(edge_check(0xfffffff807017157u64, 50, 11));
}

#[verifier::spinoff_prover]
proof fn lemma_row_51()
    ensures
        row_checks(TRI_TABLE[51], 51),
{
    reveal(row_entry);
    reveal(faces_inward);
    reveal(dot);
    reveal(triangle_normal);
    reveal(corner_solid);
    reveal(entry_check);
    reveal(triangle_check);
    reveal(edge_check);
    assert(TRI_TABLE[51] == 0xffffffffff153573u64);
    assert(entry_check(0xffffffffff153573u64, 51, 0));
    assert(entry_check(0xffffffffff153573u64, 51, 1));
    assert(entry_check(0xffffffffff153573u64, 51, 2));
    assert(entry_check(0xffffffffff153573u64, 51, 3));
    assert(entry_check(0xffffffffff153573u64, 51, 4));
    assert(entry_check(0xffffffffff153573u64, 51, 5));
    assert(entry_check(0xffffffffff153573u64, 51, 6));
    assert(entry_check(0xffffffffff153573u64, 51, 7));
    assert(entry_check(0xffffffffff153573u64, 51, 8));
    assert(entry_check(0xffffffffff153573u64, 51, 9));
    assert(entry_check(0xffffffffff153573u64, 51, 10));
    assert(entry_check(0xffffffffff153573u64, 51, 11));
    assert(entry_check(0xffffffffff153573u64, 51, 12));
    assert(entry_check(0xffffffffff153573u64, 51, 13));
    assert(entry_check(0xffffffffff153573u64, 51, 14));
    assert(entry_check(0xffffffffff153573u64, 51, 15));
    assert(triangle_check(0xffffffffff153573u64, 51, 0));
    assert(triangle_check(0xffffffffff153573u64, 51, 1));
    assert(triangle_check(0xffffffffff153573u64, 51, 2));
    assert(triangle_check(0xffffffffff153573u64, 51, 3));
    assert(triangle_check(0xffffffffff153573u64, 51, 4));
    assert(edge_check(0xffffffffff153573u64, 51, 0));
    assert(edge_check(0xffffffffff153573u64, 51, 1));
    assert(edge_check(0xffffffffff153573u64, 51, 2));
    assert(edge_check(0xffffffffff153573u64, 51, 3));
    assert(edge_check(0xffffffffff153573u64, 51, 4));
    assert(edge_check(0xffffffffff153573u64, 51, 5));
    assert(edge_check(0xffffffffff153573u64, 51, 6));
    assert(edge_check(0xffffffffff153573u64, 51, 7));
    assert(edge_check(0xffffffffff153573u64, 51, 8));
    assert(edge_check(0xffffffffff153573u64, 51, 9));
    assert(edge_check(0xffffffffff153573u64, 51, 10));
    assert(edge_check(0xffffffffff153573u64, 51, 11));
}

#[verifier::spinoff_prover]
proof fn lemma_row_52()
    ensures
        row_checks(TRI_TABLE[52], 52),
{
    reveal(row_entry);
    reveal(faces_inward);
    reveal(dot);
    reveal(triangle_normal);
    reveal(corner_solid);
    reveal(entry_check);
    reveal(triangle_check);
    reveal(edge_check);
    assert(TRI_TABLE[52] == 0xfffffff7858952a1u64);
    assert(entry_check(0xfffffff7858952a1u64, 52, 0));
    assert(entry_check(0xfffffff7858952a1u64, 52, 1));
    assert(entry_check(0xfffffff7858952a1u64, 52, 2));
    assert(entry_check(0xfffffff7858952a1u64, 52, 3));
    assert(entry_check(0xfffffff7858952a1u64, 52, 4));
    assert(entry_check(0xfffffff7858952a1u64, 52, 5));
    assert(entry_check(0xfffffff7858952a1u64, 52, 6));
    assert(entry_check(0xfffffff7858952a1u64, 52, 7));
    assert(entry_check(0xfffffff7858952a1u64, 52, 8));
    assert(entry_check(0xfffffff7858952a1u64, 52, 9));
    assert(entry_check(0xfffffff7858952a1u64, 52, 10));
    assert(entry_check(0xfffffff7858952a1u64, 52, 11));
    assert(entry_check(0xfffffff7858952a1u64, 52, 12));
    assert(entry_check(0xfffffff7858952a1u64, 52, 13));
    assert(entry_check(0xfffffff7858952a1u64, 52, 14));
    assert(entry_check(0xfffffff7858952a1u64, 52, 15));
    assert(triangle_check(0xfffffff7858952a1u64, 52, 0));
    assert(triangle_check(0xfffffff7858952a1u64, 52, 1));
    assert(triangle_check(0xfffffff7858952a1u64, 52, 2));
    assert(triangle_check(0xfffffff7858952a1u64, 52, 3));
    assert(triangle_check(0xfffffff7858952a1u64, 52, 4));
    assert(edge_check(0xfffffff7858952a1u64, 52, 0));
    assert(edge_check(0xfffffff7858952a1u64, 52, 1));
    assert(edge_check(0xfffffff7858952a1u64, 52, 2));
    assert(edge_check(0xfffffff7858952a1u64, 52, 3));
    assert(edge_check(0xfffffff7858952a1u64, 52, 4));
    assert(edge_check(0xfffffff7858952a1u64, 52, 5));
    assert(edge_check(0xfffffff7858952a1u64, 52, 6));
    assert(edge_check(0xfffffff7858952a1u64, 52, 7));
    assert(edge_check(0xfffffff7858952a1u64, 52, 8));
    assert(edge_check(0xfffffff7858952a1u64, 52, 9));
    assert(edge_check(0xfffffff7858952a1u64, 52, 10));
    assert(edge_check(0xfffffff7858952a1u64, 52, 11));
}

#[verifier::spinoff_prover]
proof fn lemma_row_53()
    ensures
        row_checks(TRI_TABLE[53], 53),
{
    reveal(row_entry);
    reveal(faces_inward);
    reveal(dot);
    reveal(triangle_normal);
    reveal(corner_solid);
    reveal(entry_check);
    reveal(triangle_check);
    reveal(edge_check);
    assert(TRI_TABLE[53] == 0xffff2a1093953573u64);
    assert(entry_check(0xffff2a1093953573u64, 53, 0));
    assert(entry_check(0xffff2a1093953573u64, 53, 1));
    assert(entry_check(0xffff2a1093953573u64, 53, 2));
    assert(entry_check(0xffff2a1093953573u64, 53, 3));
    assert(entry_check(0xffff2a1093953573u64, 53, 4));
    assert(entry_check(0xffff2a1093953573u64, 53, 5));
    assert(entry_check(0xffff2a1093953573u64, 53, 6));
    assert(entry_check(0xffff2a1093953573u64, 53, 7));
    assert(entry_check(0xffff2a1093953573u64, 53, 8));
    assert(entry_check(0xffff2a1093953573u64, 53, 9));
    assert(entry_check(0xffff2a1093953573u64, 53, 10));
    assert(entry_check(0xffff2a1093953573u64, 53, 11));
    assert(entry_check(0xffff2a1093953573u64, 53, 12));
    assert(entry_check(0xffff2a1093953573u64, 53, 13));
    assert(entry_check(0xffff2a1093953573u64, 53, 14));
    assert(entry_check(0xffff2a1093953573u64, 53, 15));
    assert(triangle_check(0xffff2a1093953573u64, 53, 0));
    assert(triangle_check(0xffff2a1093953573u64, 53, 1));
    assert(triangle_check(0xffff2a1093953573u64, 53, 2));
    assert(triangle_check(0xffff2a1093953573u64, 53, 3));
    assert(triangle_check(0xffff2a1093953573u64, 53, 4));
    assert(edge_check(0xffff2a1093953573u64, 53, 0));
    assert(edge_check(0xffff2a1093953573u64, 53, 1));
    assert(edge_check(0xffff2a1093953573u64, 53, 2));
    assert(edge_check(0xffff2a1093953573u64, 53, 3));
    assert(edge_check(0xffff2a1093953573u64, 53, 4));
    assert(edge_check(0xffff2a1093953573u64, 53, 5));
    assert(edge_check(0xffff2a1093953573u64, 53, 6));
    assert(edge_check(0xffff2a1093953573u64, 53, 7));
    assert(edge_check(0xffff2a1093953573u64, 53, 8));
    assert(edge_check(0xffff2a1093953573u64, 53, 9));
    assert(edge_check(0xffff2a1093953573u64, 53, 10));
    assert(edge_check(0xffff2a1093953573u64, 53, 11));
}

#[verifier::spinoff_prover]
proof fn lemma_row_54()
    ensures
        row_checks(TRI_TABLE[54], 54),
{
    reveal(row_entry);
    reveal(faces_inward);
    reveal(dot);
    reveal(triangle_normal);
    reveal(corner_solid);
    reveal(entry_check);
    reveal(triangle_check);
    reveal(edge_check);
    assert(TRI_TABLE[54] == 0xffff8070272a7a57u64);
    assert(entry_check(0xffff8070272a7a57u64, 54, 0));
    assert(entry_check(0xffff8070272a7a57u64, 54, 1));
    assert(entry_check(0xffff8070272a7a57u64, 54, 2));
    assert(entry_check(0xffff8070272a7a57u64, 54, 3));
    assert(entry_check(0xffff8070272a7a57u64, 54, 4));
    assert(entry_check(0xffff8070272a7a57u64, 54, 5));
    assert(entry_check(0xffff8070272a7a57u64, 54, 6));
    assert(entry_check(0xffff8070272a7a57u64, 54, 7));
    assert(entry_check(0xffff8070272a7a57u64, 54, 8));
    assert(entry_check(0xffff8070272a7a57u64, 54, 9));
    assert(entry_check(0xffff8070272a7a57u64, 54, 10));
    assert(entry_check(0xffff8070272a7a57u64, 54, 11));
    assert(entry_check(0xffff8070272a7a57u64, 54, 12));
    assert(entry_check(0xffff8070272a7a57u64, 54, 13));
    assert(entry_check(0xffff8070272a7a57u64, 54, 14));
    assert(entry_check(0xffff8070272a7a57u64, 54, 15));
    assert(triangle_check(0xffff8070272a7a57u64, 54, 0));
    assert(triangle_check(0xffff8070272a7a57u64, 54, 1));
    assert(triangle_check(0xffff8070272a7a57u64, 54, 2));
    assert(triangle_check(0xffff8070272a7a57u64, 54, 3));
    assert(triangle_check(0xffff8070272a7a57u64, 54, 4));
    assert(edge_check(0xffff8070272a7a57u64, 54, 0));
    assert(edge_check(0xffff8070272a7a57u64, 54, 1));
    assert(edge_check(0xffff8070272a7a57u64, 54, 2));
    assert(edge_check(0xffff8070272a7a57u64, 54, 3));
    assert(edge_check(0xffff8070272a7a57u64, 54, 4));
    assert(edge_check(0xffff8070272a7a57u64, 54, 5));
    assert(edge_check(0xffff8070272a7a57u64, 54, 6));
    assert(edge_check(0xffff8070272a7a57u64, 54, 7));
    assert(edge_check(0xffff8070272a7a57u64, 54, 8));
    assert(edge_check(0xffff8070272a7a57u64, 54, 9));
    assert(edge_check(0xffff8070272a7a57u64, 54, 10));
    assert(edge_check(0xffff8070272a7a57u64, 54, 11));
}

#[verifier::spinoff_prover]
proof fn lemma_row_55()
    ensures
        row_checks(TRI_TABLE[55], 55),
{
    reveal(row_entry);
    reveal(faces_inward);
    reveal(dot);
    reveal(triangle_normal);
    reveal(corner_solid);
    reveal(entry_check);
    reveal(triangle_check);
    reveal(edge_check);
    assert(TRI_TABLE[55] == 0xfffffff2a3a53573u64);
    assert(entry_check(0xfffffff2a3a53573u64, 55, 0));
    assert(entry_check(0xfffffff2a3a53573u64, 55, 1));
    assert(entry_check(0xfffffff2a3a53573u64, 55, 2));
    assert(entry_check(0xfffffff2a3a53573u64, 55, 3));
    assert(entry_check(0xfffffff2a3a53573u64, 55, 4));
    assert(entry_check(0xfffffff2a3a53573u64, 55, 5));
    assert(entry_check(0xfffffff2a3a53573u64, 55, 6));
    assert(entry_check(0xfffffff2a3a53573u64, 55, 7));
    assert(entry_check(0xfffffff2a3a53573u64, 55, 8));
    assert(entry_check(0xfffffff2a3a53573u64, 55, 9));
    assert(entry_check(0xfffffff2a3a53573u64, 55, 10));
    assert(entry_check(0xfffffff2a3a53573u64, 55, 11));
    assert(entry_check(0xfffffff2a3a53573u64, 55, 12));
    assert(entry_check(0xfffffff2a3a53573u64, 55, 13));
    assert(entry_check(0xfffffff2a3a53573u64, 55, 14));
    assert(entry_check(0xfffffff2a3a53573u64, 55, 15));
    assert(triangle_check(0xfffffff2a3a53573u64, 55, 0));
    assert(triangle_check(0xfffffff2a3a53573u64, 55, 1));
    assert(triangle_check(0xfffffff2a3a53573u64, 55, 2));
    assert(triangle_check(0xfffffff2a3a53573u64, 55, 3));
    assert(triangle_check(0xfffffff2a3a53573u64, 55, 4));
    assert(edge_check(0xfffffff2a3a53573u64, 55, 0));
    assert(edge_check(0xfffffff2a3a53573u64, 55, 1));
    assert(edge_check(0xfffffff2a3a53573u64, 55, 2));
    assert(edge_check(0xfffffff2a3a53573u64, 55, 3));
    assert(edge_check(0xfffffff2a3a53573u64, 55, 4));
    assert(edge_check(0xfffffff2a3a53573u64, 55, 5));
    assert(edge_check(0xfffffff2a3a53573u64, 55, 6));
    assert(edge_check(0xfffffff2a3a53573u64, 55, 7));
    assert(edge_check(0xfffffff2a3a53573u64, 55, 8));
    assert(edge_check(0xfffffff2a3a53573u64, 55, 9));
    assert(edge_check(0xfffffff2a3a53573u64, 55, 10));
    assert(edge_check(0xfffffff2a3a53573u64, 55, 11));
}

#[verifier::spinoff_prover]
proof fn lemma_row_56()
    ensures
        row_checks(TRI_TABLE[56], 56),
{
    reveal(row_entry);
    reveal(faces_inward);
    reveal(dot);
    reveal(triangle_normal);
    reveal(corner_solid);
    reveal(entry_check);
    reveal(triangle_check);
    reveal(edge_check);
    assert(TRI_TABLE[56] == 0xfffffff78589523bu64);
    assert(entry_check(0xfffffff78589523bu64, 56, 0));
    assert(entry_check(0xfffffff78589523bu64, 56, 1));
    assert(entry_check(0xfffffff78589523bu64, 56, 2));
    assert(entry_check(0xfffffff78589523bu64, 56, 3));
    assert(entry_check(0xfffffff78589523bu64, 56, 4));
    assert(entry_check(0xfffffff78589523bu64, 56, 5));
    assert(entry_check(0xfffffff78589523bu64, 56, 6));
    assert(entry_check(0xfffffff78589523bu64, 56, 7));
    assert(entry_check(0xfffffff78589523bu64, 56, 8));
    assert(entry_check(0xfffffff78589523bu64, 56, 9));
    assert(entry_check(0xfffffff78589523bu64, 56, 10));
    assert(entry_check(0xfffffff78589523bu64, 56, 11));
    assert(entry_check(0xfffffff78589523bu64, 56, 12));
    assert(entry_check(0xfffffff78589523bu64, 56, 13));
    assert(entry_check(0xfffffff78589523bu64, 56, 14));
    assert(entry_check(0xfffffff78589523bu64, 56, 15));
    assert(triangle_check(0xfffffff78589523bu64, 56, 0));
    assert(triangle_check(0xfffffff78589523bu64, 56, 1));
    assert(triangle_check(0xfffffff78589523bu64, 56, 2));
    assert(triangle_check(0xfffffff78589523bu64, 56, 3));
    assert(triangle_check(0xfffffff78589523bu64, 56, 4));
    assert(edge_check(0xfffffff78589523bu64, 56, 0));
    assert(edge_check(0xfffffff78589523bu64, 56, 1));
    assert(edge_check(0xfffffff78589523bu64, 56, 2));
    assert(edge_check(0xfffffff78589523bu64, 56, 3));
    assert(edge_check(0xfffffff78589523bu64, 56, 4));
    assert(edge_check(0xfffffff78589523bu64, 56, 5));
    assert(edge_check(0xfffffff78589523bu64, 56, 6));
    assert(edge_check(0xfffffff78589523bu64, 56, 7));
    assert(edge_check(0xfffffff78589523bu64, 56, 8));
    assert(edge_check(0xfffffff78589523bu64, 56, 9));
    assert(edge_check(0xfffffff78589523bu64, 56, 10));
    assert(edge_check(0xfffffff78589523bu64, 56, 11));
}

#[verifier::spinoff_prover]
proof fn lemma_row_57()
    ensures
        row_checks(TRI_TABLE[57], 57),
{
    reveal(row_entry);
    reveal(faces_inward);
    reveal(dot);
    reveal(triangle_normal);
    reveal(corner_solid);
    reveal(entry_check);
    reveal(triangle_check);
    reveal(edge_check);
    assert(TRI_TABLE[57] == 0xffff9505707b0b20u64);
    assert(entry_check(0xffff9505707b0b20u64, 57, 0));
    assert(entry_check(0xffff9505707b0b20u64, 57, 1));
    assert(entry_check(0xffff9505707b0b20u64, 57, 2));
    assert(entry_check(0xffff9505707b0b20u64, 57, 3));
    assert(entry_check(0xffff9505707b0b20u64, 57, 4));
    assert(entry_check(0xffff9505707b0b20u64, 57, 5));
    assert(entry_check(0xffff9505707b0b20u64, 57, 6));
    assert(entry_check(0xffff9505707b0b20u64, 57, 7));
    assert(entry_check(0xffff9505707b0b20u64, 57, 8));
    assert(entry_check(0xffff9505707b0b20u64, 57, 9));
    assert(entry_check(0xffff9505707b0b20u64, 57, 10));
    assert(entry_check(0xffff9505707b0b20u64, 57, 11));
    assert(entry_check(0xffff9505707b0b20u64, 57, 12));
    assert(entry_check(0xffff9505707b0b20u64, 57, 13));
    assert(entry_check(0xffff9505707b0b20u64, 57, 14));
    assert(entry_check(0xffff9505707b0b20u64, 57, 15));
    assert(triangle_check(0xffff9505707b0b20u64, 57, 0));
    assert(triangle_check(0xffff9505707b0b20u64, 57, 1));
    assert(triangle_check(0xffff9505707b0b20u64, 57, 2));
    assert(triangle_check(0xffff9505707b0b20u64, 57, 3));
    assert(triangle_check(0xffff9505707b0b20u64, 57, 4));
    assert(edge_check(0xffff9505707b0b20u64, 57, 0));
    assert(edge_check(0xffff9505707b0b20u64, 57, 1));
    assert(edge_check(0xffff9505707b0b20u64, 57, 2));
    assert(edge_check(0xffff9505707b0b20u64, 57, 3));
    assert(edge_check(0xffff9505707b0b20u64, 57, 4));
    assert(edge_check(0xffff9505707b0b20u64, 57, 5));
    assert(edge_check(0xffff9505707b0b20u64, 57, 6));
    assert(edge_check(0xffff9505707b0b20u64, 57, 7));
    assert(edge_check(0xffff9505707b0b20u64, 57, 8));
    assert(edge_check(0xffff9505707b0b20u64, 57, 9));
    assert(edge_check(0xffff9505707b0b20u64, 57, 10));
    assert(edge_check(0xffff9505707b0b20u64, 57, 11));
}

#[verifier::spinoff_prover]
proof fn lemma_row_58()
    ensures
        row_checks(TRI_TABLE[58], 58),
{
    reveal(row_entry);
    reveal(faces_inward);
    reveal(dot);
    reveal(triangle_normal);
    reveal(corner_solid);
    reveal(entry_check);
    reveal(triangle_check);
    reveal(edge_check);
    assert(TRI_TABLE[58] == 0xffff23b807017157u64);
    assert(entry_check(0xffff23b807017157u64, 58, 0));
    assert(entry_check(0xffff23b807017157u64, 58, 1));
    assert(entry_check(0xffff23b807017157u64, 58, 2));
    assert(entry_check(0xffff23b807017157u64, 58, 3));
    assert(entry_check(0xffff23b807017157u64, 58, 4));
    assert(entry_check(0xffff23b807017157u64, 58, 5));
    assert(entry_check(0xffff23b807017157u64, 58, 6));
    assert(entry_check(0xffff23b807017157u64, 58, 7));
    assert(entry_check(0xffff23b807017157u64, 58, 8));
    assert(entry_check(0xffff23b807017157u64, 58, 9));
    assert(entry_check(0xffff23b807017157u64, 58, 10));
    assert(entry_check(0xffff23b807017157u64, 58, 11));
    assert(entry_check(0xffff23b807017157u64, 58, 12));
    assert(entry_check(0xffff23b807017157u64, 58, 13));
    assert(entry_check(0xffff23b807017157u64, 58, 14));
    assert(entry_check(0xffff23b807017157u64, 58, 15));
    assert(triangle_check(0xffff23b807017157u64, 58, 0));
    assert(triangle_check(0xffff23b807017157u64, 58, 1));
    assert(triangle_check(0xffff23b807017157u64, 58, 2));
    assert(triangle_check(0xffff23b807017157u64, 58, 3));
    assert(triangle_check(0xffff23b807017157u64, 58, 4));
    assert(edge_check(0xffff23b807017157u64, 58, 0));
    assert(edge_check(0xffff23b807017157u64, 58, 1));
    assert(edge_check(0xffff23b807017157u64, 58, 2));
    assert(edge_check(0xffff23b807017157u64, 58, 3));
    assert(edge_check(0xffff23b807017157u64, 58, 4));
    assert(edge_check(0xffff23b807017157u64, 58, 5));
    assert(edge_check(0xffff23b807017157u64, 58, 6));
    assert(edge_check(0xffff23b807017157u64, 58, 7));
    assert(edge_check(0xffff23b807017157u64, 58, 8));
    assert(edge_check(0xffff23b807017157u64, 58, 9));
    assert(edge_check(0xffff23b807017157u64, 58, 10));
    assert(edge_check(0xffff23b807017157u64, 58, 11));
}

#[verifier::spinoff_prover]
proof fn lemma_row_59()
    ensures
        row_checks(TRI_TABLE[59], 59),
{
    reveal(row_entry);
    reveal(faces_inward);
    reveal(dot);
    reveal(triangle_normal);
    reveal(corner_solid);
    reveal(entry_check);
    reveal(triangle_check);
    reveal(edge_check);
    assert(TRI_TABLE[59] == 0xfffffffb27217157u64);
    assert(entry_check(0xfffffffb27217157u64, 59, 0));
    assert(entry_check(0xfffffffb27217157u64, 59, 1));
    assert(entry_check(0xfffffffb27217157u64, 59, 2));
    assert(entry_check(0xfffffffb27217157u64, 59, 3));
    assert(entry_check(0xfffffffb27217157u64, 59, 4));
    assert(entry_check(0xfffffffb27217157u64, 59, 5));
    assert(entry_check(0xfffffffb27217157u64, 59, 6));
    assert(entry_check(0xfffffffb27217157u64, 59, 7));
    assert(entry_check(0xfffffffb27217157u64, 59, 8));
    assert(entry_check(0xfffffffb27217157u64, 59, 9));
    assert(entry_check(0xfffffffb27217157u64, 59, 10));
    assert(entry_check(0xfffffffb27217157u64, 59, 11));
    assert(entry_check(0xfffffffb27217157u64, 59, 12));
    assert(entry_check(0xfffffffb27217157u64, 59, 13));
    assert(entry_check(0xfffffffb27217157u64, 59, 14));
    assert(entry_check(0xfffffffb27217157u64, 59, 15));
    assert(triangle_check(0xfffffffb27217157u64, 59, 0));
    assert(triangle_check(0xfffffffb27217157u64, 59, 1));
    assert(triangle_check(0xfffffffb27217157u64, 59, 2));
    assert(triangle_check(0xfffffffb27217157u64, 59, 3));
    assert(triangle_check(0xfffffffb27217157u64, 59, 4));
    assert(edge_check(0xfffffffb27217157u64, 59, 0));
    assert(edge_check(0xfffffffb27217157u64, 59, 1));
    assert(edge_check(0xfffffffb27217157u64, 59, 2));
    assert(edge_check(0xfffffffb27217157u64, 59, 3));
    assert(edge_check(0xfffffffb27217157u64, 59, 4));
    assert(edge_check(0xfffffffb27217157u64, 59, 5));
    assert(edge_check(0xfffffffb27217157u64, 59, 6));
    assert(edge_check(0xfffffffb27217157u64, 59, 7));
    assert(edge_check(0xfffffffb27217157u64, 59, 8));
    assert(edge_check(0xfffffffb27217157u64, 59, 9));
    assert(edge_check(0xfffffffb27217157u64, 59, 10));
    assert(edge_check(0xfffffffb27217157u64, 59, 11));
}

#[verifier::spinoff_prover]
proof fn lemma_row_60()
    ensures
        row_checks(TRI_TABLE[60], 60),
{
    reveal(row_entry);
    reveal(faces_inward);
    reveal(dot);
    reveal(triangle_normal);
    reveal(corner_solid);
    reveal(entry_check);
    reveal(triangle_check);
    reveal(edge_check);
    assert(TRI_TABLE[60] == 0xffff7858953b1ba1u64);
    assert(entry_check(0xffff7858953b1ba1u64, 60, 0));
    assert(entry_check(0xffff7858953b1ba1u64, 60, 1));
    assert(entry_check(0xffff7858953b1ba1u64, 60, 2));
    assert(entry_check(0xffff7858953b1ba1u64, 60, 3));
    assert(entry_check(0xffff7858953b1ba1u64, 60, 4));
    assert(entry_check(0xffff7858953b1ba1u64, 60, 5));
    assert(entry_check(0xffff7858953b1ba1u64, 60, 6));
    assert(entry_check(0xffff7858953b1ba1u64, 60, 7));
    assert(entry_check(0xffff7858953b1ba1u64, 60, 8));
    assert(entry_check(0xffff7858953b1ba1u64, 60, 9));
    assert(entry_check(0xffff7858953b1ba1u64, 60, 10));
    assert(entry_check(0xffff7858953b1ba1u64, 60, 11));
    assert(entry_check(0xffff7858953b1ba1u64, 60, 12));
    assert(entry_check(0xffff7858953b1ba1u64, 60, 13));
    assert(entry_check(0xffff7858953b1ba1u64, 60, 14));
    assert(entry_check(0xffff7858953b1ba1u64, 60, 15));
    assert(triangle_check(0xffff7858953b1ba1u64, 60, 0));
    assert(triangle_check(0xffff7858953b1ba1u64, 60, 1));
    assert(triangle_check(0xffff7858953b1ba1u64, 60, 2));
    assert(triangle_check(0xffff7858953b1ba1u64, 60, 3));
    assert(triangle_check(0xffff7858953b1ba1u64, 60, 4));
    assert(edge_check(0xffff7858953b1ba1u64, 60, 0));
    assert(edge_check(0xffff7858953b1ba1u64, 60, 1));
    assert(edge_check(0xffff7858953b1ba1u64, 60, 2));
    assert(edge_check(0xffff7858953b1ba1u64, 60, 3));
    assert(edge_check(0xffff7858953b1ba1u64, 60, 4));
    assert(edge_check(0xffff7858953b1ba1u64, 60, 5));
    assert(edge_check(0xffff7858953b1ba1u64, 60, 6));
    assert(edge_check(0xffff7858953b1ba1u64, 60, 7));
    assert(edge_check(0xffff7858953b1ba1u64, 60, 8));
    assert(edge_check(0xffff7858953b1ba1u64, 60, 9));
    assert(edge_check(0xffff7858953b1ba1u64, 60, 10));
    assert(edge_check(0xffff7858953b1ba1u64, 60, 11));
}

#[verifier::spinoff_prover]
proof fn lemma_row_61()
    ensures
        row_checks(TRI_TABLE[61], 61),
{
    reveal(row_entry);
    reveal(faces_inward);
    reveal(dot);
    reveal(triangle_normal);
    reveal(corner_solid);
    reveal(entry_check);
    reveal(triangle_check);
    reveal(edge_check);
    assert(TRI_TABLE[61] == 0xf9505707b0ba0a10u64);
    assert(entry_check(0xf9505707b0ba0a10u64, 61, 0));
    assert(entry_check(0xf9505707b0ba0a10u64, 61, 1));
    assert(entry_check(0xf9505707b0ba0a10u64, 61, 2));
    assert(entry_check(0xf9505707b0ba0a10u64, 61, 3));
    assert(entry_check(0xf9505707b0ba0a10u64, 61, 4));
    assert(entry_check(0xf9505707b0ba0a10u64, 61, 5));
    assert(entry_check(0xf9505707b0ba0a10u64, 61, 6));
    assert(entry_check(0xf9505707b0ba0a10u64, 61, 7));
    assert(entry_check(0xf9505707b0ba0a10u64, 61, 8));
    assert(entry_check(0xf9505707b0ba0a10u64, 61, 9));
    assert(entry_check(0xf9505707b0ba0a10u64, 61, 10));
    assert(entry_check(0xf9505707b0ba0a10u64, 61, 11));
    assert(entry_check(0xf9505707b0ba0a10u64, 61, 12));
    assert(entry_check(0xf9505707b0ba0a10u64, 61, 13));
    assert(entry_check(0xf9505707b0ba0a10u64, 61, 14));
    assert(entry_check(0xf9505707b0ba0a10u64, 61, 15));
    assert(triangle_check(0xf9505707b0ba0a10u64, 61, 0));
    assert(triangle_check(0xf9505707b0ba0a10u64, 61, 1));
    assert(triangle_check(0xf9505707b0ba0a10u64, 61, 2));
    assert(triangle_check(0xf9505707b0ba0a10u64, 61, 3));
    assert(triangle_check(0xf9505707b0ba0a10u64, 61, 4));
    assert(edge_check(0xf9505707b0ba0a10u64, 61, 0));
    assert(edge_check(0xf9505707b0ba0a10u64, 61, 1));
    assert(edge_check(0xf9505707b0ba0a10u64, 61, 2));
    assert(edge_check(0xf9505707b0ba0a10u64, 61, 3));
    assert(edge_check(0xf9505707b0ba0a10u64, 61, 4));
    assert(edge_check(0xf9505707b0ba0a10u64, 61, 5));
    assert(edge_check(0xf9505707b0ba0a10u64, 61, 6));
    assert(edge_check(0xf9505707b0ba0a10u64, 61, 7));
    assert(edge_check(0xf9505707b0ba0a10u64, 61, 8));
    assert(edge_check(0xf9505707b0ba0a10u64, 61, 9));
    assert(edge_check(0xf9505707b0ba0a10u64, 61, 10));
    assert(edge_check(0xf9505707b0ba0a10u64, 61, 11));
}

#[verifier::spinoff_prover]
proof fn lemma_row_62()
    ensures
        row_checks(TRI_TABLE[62], 62),
{
    reveal(row_entry);
    reveal(faces_inward);
    reveal(dot);
    reveal(triangle_normal);
    reveal(corner_solid);
    reveal(entry_check);
    reveal(triangle_check);
    reveal(edge_check);
    assert(TRI_TABLE[62] == 0xf3b0ba0a50570780u64);
    assert(entry_check(0xf3b0ba0a50570780u64, 62, 0));
    assert(entry_check(0xf3b0ba0a50570780u64, 62, 1));
    assert(entry_check(0xf3b0ba0a50570780u64, 62, 2));
    assert(entry_check(0xf3b0ba0a50570780u64, 62, 3));
    assert(entry_check(0xf3b0ba0a50570780u64, 62, 4));
    assert(entry_check(0xf3b0ba0a50570780u64, 62, 5));
    assert(entry_check(0xf3b0ba0a50570780u64, 62, 6));
    assert(entry_check(0xf3b0ba0a50570780u64, 62, 7));
    assert(entry_check(0xf3b0ba0a50570780u64, 62, 8));
    assert(entry_check(0xf3b0ba0a50570780u64, 62, 9));
    assert(entry_check(0xf3b0ba0a50570780u64, 62, 10));
    assert(entry_check(0xf3b0ba0a50570780u64, 62, 11));
    assert(entry_check(0xf3b0ba0a50570780u64, 62, 12));
    assert(entry_check(0xf3b0ba0a50570780u64, 62, 13));
    assert(entry_check(0xf3b0ba0a50570780u64, 62, 14));
    assert(entry_check(0xf3b0ba0a50570780u64, 62, 15));
    assert(triangle_check(0xf3b0ba0a50570780u64, 62, 0));
    assert(triangle_check(0xf3b0ba0a50570780u64, 62, 1));
    assert(triangle_check(0xf3b0ba0a50570780u64, 62, 2));
    assert(triangle_check(0xf3b0ba0a50570780u64, 62, 3));
    assert(triangle_check(0xf3b0ba0a50570780u64, 62, 4));
    assert(edge_check(0xf3b0ba0a50570780u64, 62, 0));
    assert(edge_check(0xf3b0ba0a50570780u64, 62, 1));
    assert(edge_check(0xf3b0ba0a50570780u64, 62, 2));
    assert(edge_check(0xf3b0ba0a50570780u64, 62, 3));
    assert(edge_check(0xf3b0ba0a50570780u64, 62, 4));
    assert(edge_check(0xf3b0ba0a50570780u64, 62, 5));
    assert(edge_check(0xf3b0ba0a50570780u64, 62, 6));
    assert(edge_check(0xf3b0ba0a50570780u64, 62, 7));
    assert(edge_check(0xf3b0ba0a50570780u64, 62, 8));
    assert(edge_check(0xf3b0ba0a50570780u64, 62, 9));
    assert(edge_check(0xf3b0ba0a50570780u64, 62, 10));
    assert(edge_check(0xf3b0ba0a50570780u64, 62, 11));
}

#[verifier::spinoff_prover]
proof fn lemma_row_63()
    ensures
        row_checks(TRI_TABLE[63], 63),
{
    reveal(row_entry);
    reveal(faces_inward);
    reveal(dot);
    reveal(triangle_normal);
    reveal(corner_solid);
    reveal(entry_check);
    reveal(triangle_check);
    reveal(edge_check);
    assert(TRI_TABLE[63] == 0xffffffffff7b5ba5u64);
    assert(entry_check(0xffffffffff7b5ba5u64, 63, 0));
    assert(entry_check(0xffffffffff7b5ba5u64, 63, 1));
    assert(entry_check(0xffffffffff7b5ba5u64, 63, 2));
    assert(entry_check(0xffffffffff7b5ba5u64, 63, 3));
    assert(entry_check(0xffffffffff7b5ba5u64, 63, 4));
    assert(entry_check(0xffffffffff7b5ba5u64, 63, 5));
    assert(entry_check(0xffffffffff7b5ba5u64, 63, 6));
    assert(entry_check(0xffffffffff7b5ba5u64, 63, 7));
    assert(entry_check(0xffffffffff7b5ba5u64, 63, 8));
    assert(entry_check(0xffffffffff7b5ba5u64, 63, 9));
    assert(entry_check(0xffffffffff7b5ba5u64, 63, 10));
    assert(entry_check(0xffffffffff7b5ba5u64, 63, 11));
    assert(entry_check(0xffffffffff7b5ba5u64, 63, 12));
    assert(entry_check(0xffffffffff7b5ba5u64, 63, 13));
    assert(entry_check(0xffffffffff7b5ba5u64, 63, 14));
    assert(entry_check(0xffffffffff7b5ba5u64, 63, 15));
    assert(triangle_check(0xffffffffff7b5ba5u64, 63, 0));
    assert(triangle_check(0xffffffffff7b5ba5u64, 63, 1));
    assert(triangle_check(0xffffffffff7b5ba5u64, 63, 2));
    assert(triangle_check(0xffffffffff7b5ba5u64, 63, 3));
    assert(triangle_check(0xffffffffff7b5ba5u64, 63, 4));
    assert(edge_check(0xffffffffff7b5ba5u64, 63, 0));
    assert(edge_check(0xffffffffff7b5ba5u64, 63, 1));
    assert(edge_check(0xffffffffff7b5ba5u64, 63, 2));
    assert(edge_check(0xffffffffff7b5ba5u64, 63, 3));
    assert(edge_check(0xffffffffff7b5ba5u64, 63, 4));
    assert(edge_check(0xffffffffff7b5ba5u64, 63, 5));
    assert(edge_check(0xffffffffff7b5ba5u64, 63, 6));
    assert(edge_check(0xffffffffff7b5ba5u64, 63, 7));
    assert(edge_check(0xffffffffff7b5ba5u64, 63, 8));
    assert(edge_check(0xffffffffff7b5ba5u64, 63, 9));
    assert(edge_check(0xffffffffff7b5ba5u64, 63, 10));
    assert(edge_check(0xffffffffff7b5ba5u64, 63, 11));
}

#[verifier::spinoff_prover]
proof fn lemma_row_64()
    ensures
        row_checks(TRI_TABLE[64], 64),
{
    reveal(row_entry);
    reveal(faces_inward);
    reveal(dot);
    reveal(triangle_normal);
    reveal(corner_solid);
    reveal(entry_check);
    reveal(triangle_check);
    reveal(edge_check);
    assert(TRI_TABLE[64] == 0xfffffffffffff5a6u64);
    assert(entry_check(0xfffffffffffff5a6u64, 64, 0));
    assert(entry_check(0xfffffffffffff5a6u64, 64, 1));
    assert(entry_check(0xfffffffffffff5a6u64, 64, 2));
    assert(entry_check(0xfffffffffffff5a6u64, 64, 3));
    assert(entry_check(0xfffffffffffff5a6u64, 64, 4));
    assert(entry_check(0xfffffffffffff5a6u64, 64, 5));
    assert(entry_check(0xfffffffffffff5a6u64, 64, 6));
    assert(entry_check(0xfffffffffffff5a6u64, 64, 7));
    assert(entry_check(0xfffffffffffff5a6u64, 64, 8));
    assert(entry_check(0xfffffffffffff5a6u64, 64, 9));
    assert(entry_check(0xfffffffffffff5a6u64, 64, 10));
    assert(entry_check(0xfffffffffffff5a6u64, 64, 11));
    assert(entry_check(0xfffffffffffff5a6u64, 64, 12));
    assert(entry_check(0xfffffffffffff5a6u64, 64, 13));
    assert(entry_check(0xfffffffffffff5a6u64, 64, 14));
    assert(entry_check(0xfffffffffffff5a6u64, 64, 15));
    assert(triangle_check(0xfffffffffffff5a6u64, 64, 0));
    assert(triangle_check(0xfffffffffffff5a6u64, 64, 1));
    assert(triangle_check(0xfffffffffffff5a6u64, 64, 2));
    assert(triangle_check(0xfffffffffffff5a6u64, 64, 3));
    assert(triangle_check(0xfffffffffffff5a6u64, 64, 4));
    assert(edge_check(0xfffffffffffff5a6u64, 64, 0));
    assert(edge_check(0xfffffffffffff5a6u64, 64, 1));
    assert(edge_check(0xfffffffffffff5a6u64, 64, 2));
    assert(edge_check(0xfffffffffffff5a6u64, 64, 3));
    assert(edge_check(0xfffffffffffff5a6u64, 64, 4));
    assert(edge_check(0xfffffffffffff5a6u64, 64, 5));
    assert(edge_check(0xfffffffffffff5a6u64, 64, 6));
    assert(edge_check(0xfffffffffffff5a6u64, 64, 7));
    assert(edge_check(0xfffffffffffff5a6u64, 64, 8));
    assert(edge_check(0xfffffffffffff5a6u64, 64, 9));
    assert(edge_check(0xfffffffffffff5a6u64, 64, 10));
    assert(edge_check(0xfffffffffffff5a6u64, 64, 11));
}

#[verifier::spinoff_prover]
proof fn lemma_row_65()
    ensures
        row_checks(TRI_TABLE[65], 65),
{
    reveal(row_entry);
    reveal(faces_inward);
    reveal(dot);
    reveal(triangle_normal);
    reveal(corner_solid);
    reveal(entry_check);
    reveal(triangle_check);
    reveal(edge_check);
    assert(TRI_TABLE[65] == 0xffffffffff5a6830u64);
    assert(entry_check(0xffffffffff5a6830u64, 65, 0));
    assert(entry_check(0xffffffffff5a6830u64, 65, 1));
    assert(entry_check(0xffffffffff5a6830u64, 65, 2));
    assert(entry_check(0xffffffffff5a6830u64, 65, 3));
    assert(entry_check(0xffffffffff5a6830u64, 65, 4));
    assert(entry_check(0xffffffffff5a6830u64, 65, 5));
    assert(entry_check(0xffffffffff5a6830u64, 65, 6));
    assert(entry_check(0xffffffffff5a6830u64, 65, 7));
    assert(entry_check(0xffffffffff5a6830u64, 65, 8));
    assert(entry_check(0xffffffffff5a6830u64, 65, 9));
    assert(entry_check(0xffffffffff5a6830u64, 65, 10));
    assert(entry_check(0xffffffffff5a6830u64, 65, 11));
    assert(entry_check(0xffffffffff5a6830u64, 65, 12));
    assert(entry_check(0xffffffffff5a6830u64, 65, 13));
    assert(entry_check(0xffffffffff5a6830u64, 65, 14));
    assert(entry_check(0xffffffffff5a6830u64, 65, 15));
    assert(triangle_check(0xffffffffff5a6830u64, 65, 0));
    assert(triangle_check(0xffffffffff5a6830u64, 65, 1));
    assert(triangle_check(0xffffffffff5a6830u64, 65, 2));
    assert(triangle_check(0xffffffffff5a6830u64, 65, 3));
    assert(triangle_check(0xffffffffff5a6830u64, 65, 4));
    assert(edge_check(0xffffffffff5a6830u64, 65, 0));
    assert(edge_check(0xffffffffff5a6830u64, 65, 1));
    assert(edge_check(0xffffffffff5a6830u64, 65, 2));
    assert(edge_check(0xffffffffff5a6830u64, 65, 3));
    assert(edge_check(0xffffffffff5a6830u64, 65, 4));
    assert(edge_check(0xffffffffff5a6830u64, 65, 5));
    assert(edge_check(0xffffffffff5a6830u64, 65, 6));
    assert(edge_check(0xffffffffff5a6830u64, 65, 7));
    assert(edge_check(0xffffffffff5a6830u64, 65, 8));
    assert(edge_check(0xffffffffff5a6830u64, 65, 9));
    assert(edge_check(0xffffffffff5a6830u64, 65, 10));
    assert(edge_check(0xffffffffff5a6830u64, 65, 11));
}

#[verifier::spinoff_prover]
proof fn lemma_row_66()
    ensures
        row_checks(TRI_TABLE[66], 66),
{
    reveal(row_entry);
    reveal(faces_inward);
    reveal(dot);
    reveal(triangle_normal);
    reveal(corner_solid);
    reveal(entry_check);
    reveal(triangle_check);
    reveal(edge_check);
    assert(TRI_TABLE[66] == 0xffffffffff5a6019u64);
    assert(entry_check(0xffffffffff5a6019u64, 66, 0));
    assert(entry_check(0xffffffffff5a6019u64, 66, 1));
    assert(entry_check(0xffffffffff5a6019u64, 66, 2));
    assert(entry_check(0xffffffffff5a6019u64, 66, 3));
    assert(entry_check(0xffffffffff5a6019u64, 66, 4));
    assert(entry_check(0xffffffffff5a6019u64, 66, 5));
    assert(entry_check(0xffffffffff5a6019u64, 66, 6));
    assert(entry_check(0xffffffffff5a6019u64, 66, 7));
    assert(entry_check(0xffffffffff5a6019u64, 66, 8));
    assert(entry_check(0xffffffffff5a6019u64, 66, 9));
    assert(entry_check(0xffffffffff5a6019u64, 66, 10));
    assert(entry_check(0xffffffffff5a6019u64, 66, 11));
    assert(entry_check(0xffffffffff5a6019u64, 66, 12));
    assert(entry_check(0xffffffffff5a6019u64, 66, 13));
    assert(entry_check(0xffffffffff5a6019u64, 66, 14));
    assert(entry_check(0xffffffffff5a6019u64, 66, 15));
    assert(triangle_check(0xffffffffff5a6019u64, 66, 0));
    assert(triangle_check(0xffffffffff5a6019u64, 66, 1));
    assert(triangle_check(0xffffffffff5a6019u64, 66, 2));
    assert(triangle_check(0xffffffffff5a6019u64, 66, 3));
    assert(triangle_check(0xffffffffff5a6019u64, 66, 4));
    assert(edge_check(0xffffffffff5a6019u64, 66, 0));
    assert(edge_check(0xffffffffff5a6019u64, 66, 1));
    assert(edge_check(0xffffffffff5a6019u64, 66, 2));
    assert(edge_check(0xffffffffff5a6019u64, 66, 3));
    assert(edge_check(0xffffffffff5a6019u64, 66, 4));
    assert(edge_check(0xffffffffff5a6019u64, 66, 5));
    assert(edge_check(0xffffffffff5a6019u64, 66, 6));
    assert(edge_check(0xffffffffff5a6019u64, 66, 7));
    assert(edge_check(0xffffffffff5a6019u64, 66, 8));
    assert(edge_check(0xffffffffff5a6019u64, 66, 9));
    assert(edge_check(0xffffffffff5a6019u64, 66, 10));
    assert(edge_check(0xffffffffff5a6019u64, 66, 11));
}

#[verifier::spinoff_prover]
proof fn lemma_row_67()
    ensures
        row_checks(TRI_TABLE[67], 67),
{
    reveal(row_entry);
    reveal(faces_inward);
    reveal(dot);
    reveal(triangle_normal);
    reveal(corner_solid);
    reveal(entry_check);
    reveal(triangle_check);
    reveal(edge_check);
    assert(TRI_TABLE[67] == 0xfffffff5a6193983u64);
    assert(entry_check(0xfffffff5a6193983u64, 67, 0));
    assert(entry_check(0xfffffff5a6193983u64, 67, 1));
    assert(entry_check(0xfffffff5a6193983u64, 67, 2));
    assert(entry_check(0xfffffff5a6193983u64, 67, 3));
    assert(entry_check(0xfffffff5a6193983u64, 67, 4));
    assert(entry_check(0xfffffff5a6193983u64, 67, 5));
    assert(entry_check(0xfffffff5a6193983u64, 67, 6));
    assert(entry_check(0xfffffff5a6193983u64, 67, 7));
    assert(entry_check(0xfffffff5a6193983u64, 67, 8));
    assert(entry_check(0xfffffff5a6193983u64, 67, 9));
    assert(entry_check(0xfffffff5a6193983u64, 67, 10));
    assert(entry_check(0xfffffff5a6193983u64, 67, 11));
    assert(entry_check(0xfffffff5a6193983u64, 67, 12));
    assert(entry_check(0xfffffff5a6193983u64, 67, 13));
    assert(entry_check(0xfffffff5a6193983u64, 67, 14));
    assert(entry_check(0xfffffff5a6193983u64, 67, 15));
    assert(triangle_check(0xfffffff5a6193983u64, 67, 0));
    assert(triangle_check(0xfffffff5a6193983u64, 67, 1));
    assert(triangle_check(0xfffffff5a6193983u64, 67, 2));
    assert(triangle_check(0xfffffff5a6193983u64, 67, 3));
    assert(triangle_check(0xfffffff5a6193983u64, 67, 4));
    assert(edge_check(0xfffffff5a6193983u64, 67, 0));
    assert(edge_check(0xfffffff5a6193983u64, 67, 1));
    assert(edge_check(0xfffffff5a6193983u64, 67, 2));
    assert(edge_check(0xfffffff5a6193983u64, 67, 3));
    assert(edge_check(0xfffffff5a6193983u64, 67, 4));
    assert(edge_check(0xfffffff5a6193983u64, 67, 5));
    assert(edge_check(0xfffffff5a6193983u64, 67, 6));
    assert(edge_check(0xfffffff5a6193983u64, 67, 7));
    assert(edge_check(0xfffffff5a6193983u64, 67, 8));
    assert(edge_check(0xfffffff5a6193983u64, 67, 9));
    assert(edge_check(0xfffffff5a6193983u64, 67, 10));
    assert(edge_check(0xfffffff5a6193983u64, 67, 11));
}

#[verifier::spinoff_prover]
proof fn lemma_row_68()
    ensures
        row_checks(TRI_TABLE[68], 68),
{
    reveal(row_entry);
    reveal(faces_inward);
    reveal(dot);
    reveal(triangle_normal);
    reveal(corner_solid);
    reveal(entry_check);
    reveal(triangle_check);
    reveal(edge_check);
    assert(TRI_TABLE[68] == 0xffffffffff261651u64);
    assert(entry_check(0xffffffffff261651u64, 68, 0));
    assert(entry_check(0xffffffffff261651u64, 68, 1));
    assert(entry_check(0xffffffffff261651u64, 68, 2));
    assert(entry_check(0xffffffffff261651u64, 68, 3));
    assert(entry_check(0xffffffffff261651u64, 68, 4));
    assert(entry_check(0xffffffffff261651u64, 68, 5));
    assert(entry_check(0xffffffffff261651u64, 68, 6));
    assert(entry_check(0xffffffffff261651u64, 68, 7));
    assert(entry_check(0xffffffffff261651u64, 68, 8));
    assert(entry_check(0xffffffffff261651u64, 68, 9));
    assert(entry_check(0xffffffffff261651u64, 68, 10));
    assert(entry_check(0xffffffffff261651u64, 68, 11));
    assert(entry_check(0xffffffffff261651u64, 68, 12));
    assert(entry_check(0xffffffffff261651u64, 68, 13));
    assert(entry_check(0xffffffffff261651u64, 68, 14));
    assert(entry_check(0xffffffffff261651u64, 68, 15));
    assert(triangle_check(0xffffffffff261651u64, 68, 0));
    assert(triangle_check(0xffffffffff261651u64, 68, 1));
    assert(triangle_check(0xffffffffff261651u64, 68, 2));
    assert(triangle_check(0xffffffffff261651u64, 68, 3));
    assert(triangle_check(0xffffffffff261651u64, 68, 4));
    assert(edge_check(0xffffffffff261651u64, 68, 0));
    assert(edge_check(0xffffffffff261651u64, 68, 1));
    assert(edge_check(0xffffffffff261651u64, 68, 2));
    assert(edge_check(0xffffffffff261651u64, 68, 3));
    assert(edge_check(0xffffffffff261651u64, 68, 4));
    assert(edge_check(0xffffffffff261651u64, 68, 5));
    assert(edge_check(0xffffffffff261651u64, 68, 6));
    assert(edge_check(0xffffffffff261651u64, 68, 7));
    assert(edge_check(0xffffffffff261651u64, 68, 8));
    assert(edge_check(0xffffffffff261651u64, 68, 9));
    assert(edge_check(0xffffffffff261651u64, 68, 10));
    assert(edge_check(0xffffffffff261651u64, 68, 11));
}

#[verifier::spinoff_prover]
proof fn lemma_row_69()
    ensures
        row_checks(TRI_TABLE[69], 69),
{
    reveal(row_entry);
    reveal(faces_inward);
    reveal(dot);
    reveal(triangle_normal);
    reveal(corner_solid);
    reveal(entry_check);
    reveal(triangle_check);
    reveal(edge_check);
    assert(TRI_TABLE[69] == 0xfffffff261651830u64);
    assert(entry_check(0xfffffff261651830u64, 69, 0));
    assert(entry_check(0xfffffff261651830u64, 69, 1));
    assert(entry_check(0xfffffff261651830u64, 69, 2));
    assert(entry_check(0xfffffff261651830u64, 69, 3));
    assert(entry_check(0xfffffff261651830u64, 69, 4));
    assert(entry_check(0xfffffff261651830u64, 69, 5));
    assert(entry_check(0xfffffff261651830u64, 69, 6));
    assert(entry_check(0xfffffff261651830u64, 69, 7));
    assert(entry_check(0xfffffff261651830u64, 69, 8));
    assert(entry_check(0xfffffff261651830u64, 69, 9));
    assert(entry_check(0xfffffff261651830u64, 69, 10));
    assert(entry_check(0xfffffff261651830u64, 69, 11));
    assert(entry_check(0xfffffff261651830u64, 69, 12));
    assert(entry_check(0xfffffff261651830u64, 69, 13));
    assert(entry_check(0xfffffff261651830u64, 69, 14));
    assert(entry_check(0xfffffff261651830u64, 69, 15));
    assert(triangle_check(0xfffffff261651830u64, 69, 0));
    assert(triangle_check(0xfffffff261651830u64, 69, 1));
    assert(triangle_check(0xfffffff261651830u64, 69, 2));
    assert(triangle_check(0xfffffff261651830u64, 69, 3));
    assert(triangle_check(0xfffffff261651830u64, 69, 4));
    assert(edge_check(0xfffffff261651830u64, 69, 0));
    assert(edge_check(0xfffffff261651830u64, 69, 1));
    assert(edge_check(0xfffffff261651830u64, 69, 2));
    assert(edge_check(0xfffffff261651830u64, 69, 3));
    assert(edge_check(0xfffffff261651830u64, 69, 4));
    assert(edge_check(0xfffffff261651830u64, 69, 5));
    assert(edge_check(0xfffffff261651830u64, 69, 6));
    assert(edge_check(0xfffffff261651830u64, 69, 7));
    assert(edge_check(0xfffffff261651830u64, 69, 8));
    assert(edge_check(0xfffffff261651830u64, 69, 9));
    assert(edge_check(0xfffffff261651830u64, 69, 10));
    assert(edge_check(0xfffffff261651830u64, 69, 11));
}

#[verifier::spinoff_prover]
proof fn lemma_row_70()
    ensures
        row_checks(TRI_TABLE[70], 70),
{
    reveal(row_entry);
    reveal(faces_inward);
    reveal(dot);
    reveal(triangle_normal);
    reveal(corner_solid);
    reveal(entry_check);
    reveal(triangle_check);
    reveal(edge_check);
    assert(TRI_TABLE[70] == 0xfffffff596906026u64);
    assert(entry_check(0xfffffff596906026u64, 70, 0));
    assert(entry_check(0xfffffff596906026u64, 70, 1));
    assert(entry_check(0xfffffff596906026u64, 70, 2));
    assert(entry_check(0xfffffff596906026u64, 70, 3));
    assert(entry_check(0xfffffff596906026u64, 70, 4));
    assert(entry_check(0xfffffff596906026u64, 70, 5));
    assert(entry_check(0xfffffff596906026u64, 70, 6));
    assert(entry_check(0xfffffff596906026u64, 70, 7));
    assert(entry_check(0xfffffff596906026u64, 70, 8));
    assert(entry_check(0xfffffff596906026u64, 70, 9));
    assert(entry_check(0xfffffff596906026u64, 70, 10));
    assert(entry_check(0xfffffff596906026u64, 70, 11));
    assert(entry_check(0xfffffff596906026u64, 70, 12));
    assert(entry_check(0xfffffff596906026u64, 70, 13));
    assert(entry_check(0xfffffff596906026u64, 70, 14));
    assert(entry_check(0xfffffff596906026u64, 70, 15));
    assert(triangle_check(0xfffffff596906026u64, 70, 0));
    assert(triangle_check(0xfffffff596906026u64, 70, 1));
    assert(triangle_check(0xfffffff596906026u64, 70, 2));
    assert(triangle_check(0xfffffff596906026u64, 70, 3));
    assert(triangle_check(0xfffffff596906026u64, 70, 4));
    assert(edge_check(0xfffffff596906026u64, 70, 0));
    assert(edge_check(0xfffffff596906026u64, 70, 1));
    assert(edge_check(0xfffffff596906026u64, 70, 2));
    assert(edge_check(0xfffffff596906026u64, 70, 3));
    assert(edge_check(0xfffffff596906026u64, 70, 4));
    assert(edge_check(0xfffffff596906026u64, 70, 5));
    assert(edge_check(0xfffffff596906026u64, 70, 6));
    assert(edge_check(0xfffffff596906026u64, 70, 7));
    assert(edge_check(0xfffffff596906026u64, 70, 8));
    assert(edge_check(0xfffffff596906026u64, 70, 9));
    assert(edge_check(0xfffffff596906026u64, 70, 10));
    assert(edge_check(0xfffffff596906026u64, 70, 11));
}

#[verifier::spinoff_prover]
proof fn lemma_row_71()
    ensures
        row_checks(TRI_TABLE[71], 71),
{
    reveal(row_entry);
    reveal(faces_inward);
    reveal(dot);
    reveal(triangle_normal);
    reveal(corner_solid);
    reveal(entry_check);
    reveal(triangle_check);
    reveal(edge_check);
    assert(TRI_TABLE[71] == 0xffff652592982832u64);
    assert(entry_check(0xffff652592982832u64, 71, 0));
    assert(entry_check(0xffff652592982832u64, 71, 1));
    assert(entry_check(0xffff652592982832u64, 71, 2));
    assert(entry_check(0xffff652592982832u64, 71, 3));
    assert(entry_check(0xffff652592982832u64, 71, 4));
    assert(entry_check(0xffff652592982832u64, 71, 5));
    assert(entry_check(0xffff652592982832u64, 71, 6));
    assert(entry_check(0xffff652592982832u64, 71, 7));
    assert(entry_check(0xffff652592982832u64, 71, 8));
    assert(entry_check(0xffff652592982832u64, 71, 9));
    assert(entry_check(0xffff652592982832u64, 71, 10));
    assert(entry_check(0xffff652592982832u64, 71, 11));
    assert(entry_check(0xffff652592982832u64, 71, 12));
    assert(entry_check(0xffff652592982832u64, 71, 13));
    assert(entry_check(0xffff652592982832u64, 71, 14));
    assert(entry_check(0xffff652592982832u64, 71, 15));
    assert(triangle_check(0xffff652592982832u64, 71, 0));
    assert(triangle_check(0xffff652592982832u64, 71, 1));
    assert(triangle_check(0xffff652592982832u64, 71, 2));
    assert(triangle_check(0xffff652592982832u64, 71, 3));
    assert(triangle_check(0xffff652592982832u64, 71, 4));
    assert(edge_check(0xffff652592982832u64, 71, 0));
    assert(edge_check(0xffff652592982832u64, 71, 1));
    assert(edge_check(0xffff652592982832u64, 71, 2));
    assert(edge_check(0xffff652592982832u64, 71, 3));
    assert(edge_check(0xffff652592982832u64, 71, 4));
    assert(edge_check(0xffff652592982832u64, 71, 5));
    assert(edge_check(0xffff652592982832u64, 71, 6));
    assert(edge_check(0xffff652592982832u64, 71, 7));
    assert(edge_check(0xffff652592982832u64, 71, 8));
    assert(edge_check(0xffff652592982832u64, 71, 9));
    assert(edge_check(0xffff652592982832u64, 71, 10));
    assert(edge_check(0xffff652592982832u64, 71, 11));
}

#[verifier::spinoff_prover]
proof fn lemma_row_72()
    ensures
        row_checks(TRI_TABLE[72], 72),
{
    reveal(row_entry);
    reveal(faces_inward);
    reveal(dot);
    reveal(triangle_normal);
    reveal(corner_solid);
    reveal(entry_check);
    reveal(triangle_check);
    reveal(edge_check);
    assert(TRI_TABLE[72] == 0xffffffffff5a623bu64);
    assert(entry_check(0xffffffffff5a623bu64, 72, 0));
    assert(entry_check(0xffffffffff5a623bu64, 72, 1));
    assert(entry_check(0xffffffffff5a623bu64, 72, 2));
    assert(entry_check(0xffffffffff5a623bu64, 72, 3));
    assert(entry_check(0xffffffffff5a623bu64, 72, 4));
    assert(entry_check(0xffffffffff5a623bu64, 72, 5));
    assert(entry_check(0xffffffffff5a623bu64, 72, 6));
    assert(entry_check(0xffffffffff5a623bu64, 72, 7));
    assert(entry_check(0xffffffffff5a623bu64, 72, 8));
    assert(entry_check(0xffffffffff5a623bu64, 72, 9));
    assert(entry_check(0xffffffffff5a623bu64, 72, 10));
    assert(entry_check(0xffffffffff5a623bu64, 72, 11));
    assert(entry_check(0xffffffffff5a623bu64, 72, 12));
    assert(entry_check(0xffffffffff5a623bu64, 72, 13));
    assert(entry_check(0xffffffffff5a623bu64, 72, 14));
    assert(entry_check(0xffffffffff5a623bu64, 72, 15));
    assert(triangle_check(0xffffffffff5a623bu64, 72, 0));
    assert(triangle_check(0xffffffffff5a623bu64, 72, 1));
    assert(triangle_check(0xffffffffff5a623bu64, 72, 2));
    assert(triangle_check(0xffffffffff5a623bu64, 72, 3));
    assert(triangle_check(0xffffffffff5a623bu64, 72, 4));
    assert(edge_check(0xffffffffff5a623bu64, 72, 0));
    assert(edge_check(0xffffffffff5a623bu64, 72, 1));
    assert(edge_check(0xffffffffff5a623bu64, 72, 2));
    assert(edge_check(0xffffffffff5a623bu64, 72, 3));
    assert(edge_check(0xffffffffff5a623bu64, 72, 4));
    assert(edge_check(0xffffffffff5a623bu64, 72, 5));
    assert(edge_check(0xffffffffff5a623bu64, 72, 6));
    assert(edge_check(0xffffffffff5a623bu64, 72, 7));
    assert(edge_check(0xffffffffff5a623bu64, 72, 8));
    assert(edge_check(0xffffffffff5a623bu64, 72, 9));
    assert(edge_check(0xffffffffff5a623bu64, 72, 10));
    assert(edge_check(0xffffffffff5a623bu64, 72, 11));
}

#[verifier::spinoff_prover]
proof fn lemma_row_73()
    ensures
        row_checks(TRI_TABLE[73], 73),
{
    reveal(row_entry);
    reveal(faces_inward);
    reveal(dot);
    reveal(triangle_normal);
    reveal(corner_solid);
    reveal(entry_check);
    reveal(triangle_check);
    reveal(edge_check);
    assert(TRI_TABLE[73] == 0xfffffff5a68b0b20u64);
    assert(entry_check(0xfffffff5a68b0b20u64, 73, 0));
    assert(entry_check(0xfffffff5a68b0b20u64, 73, 1));
    assert(entry_check(0xfffffff5a68b0b20u64, 73, 2));
    assert(entry_check(0xfffffff5a68b0b20u64, 73, 3));
    assert(entry_check(0xfffffff5a68b0b20u64, 73, 4));
    assert(entry_check(0xfffffff5a68b0b20u64, 73, 5));
    assert(entry_check(0xfffffff5a68b0b20u64, 73, 6));
    assert(entry_check(0xfffffff5a68b0b20u64, 73, 7));
    assert(entry_check(0xfffffff5a68b0b20u64, 73, 8));
    assert(entry_check(0xfffffff5a68b0b20u64, 73, 9));
    assert(entry_check(0xfffffff5a68b0b20u64, 73, 10));
    assert(entry_check(0xfffffff5a68b0b20u64, 73, 11));
    assert(entry_check(0xfffffff5a68b0b20u64, 73, 12));
    assert(entry_check(0xfffffff5a68b0b20u64, 73, 13));
    assert(entry_check(0xfffffff5a68b0b20u64, 73, 14));
    assert(entry_check(0xfffffff5a68b0b20u64, 73, 15));
    assert(triangle_check(0xfffffff5a68b0b20u64, 73, 0));
    assert(triangle_check(0xfffffff5a68b0b20u64, 73, 1));
    assert(triangle_check(0xfffffff5a68b0b20u64, 73, 2));
    assert(triangle_check(0xfffffff5a68b0b20u64, 73, 3));
    assert(triangle_check(0xfffffff5a68b0b20u64, 73, 4));
    assert(edge_check(0xfffffff5a68b0b20u64, 73, 0));
    assert(edge_check(0xfffffff5a68b0b20u64, 73, 1));
    assert(edge_check(0xfffffff5a68b0b20u64, 73, 2));
    assert(edge_check(0xfffffff5a68b0b20u64, 73, 3));
    assert(edge_check(0xfffffff5a68b0b20u64, 73, 4));
    assert(edge_check(0xfffffff5a68b0b20u64, 73, 5));
    assert(edge_check(0xfffffff5a68b0b20u64, 73, 6));
    assert(edge_check(0xfffffff5a68b0b20u64, 73, 7));
    assert(edge_check(0xfffffff5a68b0b20u64, 73, 8));
    assert(edge_check(0xfffffff5a68b0b20u64, 73, 9));
    assert(edge_check(0xfffffff5a68b0b20u64, 73, 10));
    assert(edge_check(0xfffffff5a68b0b20u64, 73, 11));
}

#[verifier::spinoff_prover]
proof fn lemma_row_74()
    ensures
        row_checks(TRI_TABLE[74], 74),
{
    reveal(row_entry);
    reveal(faces_inward);
    reveal(dot);
    reveal(triangle_normal);
    reveal(corner_solid);
    reveal(entry_check);
    reveal(triangle_check);
    reveal(edge_check);
    assert(TRI_TABLE[74] == 0xfffffff5a623b019u64);
    assert(entry_check(0xfffffff5a623b019u64, 74, 0));
    assert(entry_check(0xfffffff5a623b019u64, 74, 1));
    assert(entry_check(0xfffffff5a623b019u64, 74, 2));
    assert(entry_check(0xfffffff5a623b019u64, 74, 3));
    assert(entry_check(0xfffffff5a623b019u64, 74, 4));
    assert(entry_check(0xfffffff5a623b019u64, 74, 5));
    assert(entry_check(0xfffffff5a623b019u64, 74, 6));
    assert(entry_check(0xfffffff5a623b019u64, 74, 7));
    assert(entry_check(0xfffffff5a623b019u64, 74, 8));
    assert(entry_check(0xfffffff5a623b019u64, 74, 9));
    assert(entry_check(0xfffffff5a623b019u64, 74, 10));
    assert(entry_check(0xfffffff5a623b019u64, 74, 11));
    assert(entry_check(0xfffffff5a623b019u64, 74, 12));
    assert(entry_check(0xfffffff5a623b019u64, 74, 13));
    assert(entry_check(0xfffffff5a623b019u64, 74, 14));
    assert(entry_check(0xfffffff5a623b019u64, 74, 15));
    assert(triangle_check(0xfffffff5a623b019u64, 74, 0));
    assert(triangle_check(0xfffffff5a623b019u64, 74, 1));
    assert(triangle_check(0xfffffff5a623b019u64, 74, 2));
    assert(triangle_check(0xfffffff5a623b019u64, 74, 3));
    assert(triangle_check(0xfffffff5a623b019u64, 74, 4));
    assert(edge_check(0xfffffff5a623b019u64, 74, 0));
    assert(edge_check(0xfffffff5a623b019u64, 74, 1));
    assert(edge_check(0xfffffff5a623b019u64, 74, 2));
    assert(edge_check(0xfffffff5a623b019u64, 74, 3));
    assert(edge_check(0xfffffff5a623b019u64, 74, 4));
    assert(edge_check(0xfffffff5a623b019u64, 74, 5));
    assert(edge_check(0xfffffff5a623b019u64, 74, 6));
    assert(edge_check(0xfffffff5a623b019u64, 74, 7));
    assert(edge_check(0xfffffff5a623b019u64, 74, 8));
    assert(edge_check(0xfffffff5a623b019u64, 74, 9));
    assert(edge_check(0xfffffff5a623b019u64, 74, 10));
    assert(edge_check(0xfffffff5a623b019u64, 74, 11));
}

#[verifier::spinoff_prover]
proof fn lemma_row_75()
    ensures
        row_checks(TRI_TABLE[75], 75),
{
    reveal(row_entry);
    reveal(faces_inward);
    reveal(dot);
    reveal(triangle_normal);
    reveal(corner_solid);
    reveal(entry_check);
    reveal(triangle_check);
    reveal(edge_check);
    assert(TRI_TABLE[75] == 0xffff5a621b19b98bu64);
    assert(entry_check(0xffff5a621b19b98bu64, 75, 0));
    assert(entry_check(0xffff5a621b19b98bu64, 75, 1));
    assert(entry_check(0xffff5a621b19b98bu64, 75, 2));
    assert(entry_check(0xffff5a621b19b98bu64, 75, 3));
    assert(entry_check(0xffff5a621b19b98bu64, 75, 4));
    assert(entry_check(0xffff5a621b19b98bu64, 75, 5));
    assert(entry_check(0xffff5a621b19b98bu64, 75, 6));
    assert(entry_check(0xffff5a621b19b98bu64, 75, 7));
    assert(entry_check(0xffff5a621b19b98bu64, 75, 8));
    assert(entry_check(0xffff5a621b19b98bu64, 75, 9));
    assert(entry_check(0xffff5a621b19b98bu64, 75, 10));
    assert(entry_check(0xffff5a621b19b98bu64, 75, 11));
    assert(entry_check(0xffff5a621b19b98bu64, 75, 12));
    assert(entry_check(0xffff5a621b19b98bu64, 75, 13));
    assert(entry_check(0xffff5a621b19b98bu64, 75, 14));
    assert(entry_check(0xffff5a621b19b98bu64, 75, 15));
    assert(triangle_check(0xffff5a621b19b98bu64, 75, 0));
    assert(triangle_check(0xffff5a621b19b98bu64, 75, 1));
    assert(triangle_check(0xffff5a621b19b98bu64, 75, 2));
    assert(triangle_check(0xffff5a621b19b98bu64, 75, 3));
    assert(triangle_check(0xffff5a621b19b98bu64, 75, 4));
    assert(edge_check(0xffff5a621b19b98bu64, 75, 0));
    assert(edge_check(0xffff5a621b19b98bu64, 75, 1));
    assert(edge_check(0xffff5a621b19b98bu64, 75, 2));
    assert(edge_check(0xffff5a621b19b98bu64, 75, 3));
    assert(edge_check(0xffff5a621b19b98bu64, 75, 4));
    assert(edge_check(0xffff5a621b19b98bu64, 75, 5));
    assert(edge_check(0xffff5a621b19b98bu64, 75, 6));
    assert(edge_check(0xffff5a621b19b98bu64, 75, 7));
    assert(edge_check(0xffff5a621b19b98bu64, 75, 8));
    assert(edge_check(0xffff5a621b19b98bu64, 75, 9));
    assert(edge_check(0xffff5a621b19b98bu64, 75, 10));
    assert(edge_check(0xffff5a621b19b98bu64, 75, 11));
}

#[verifier::spinoff_prover]
proof fn lemma_row_76()
    ensures
        row_checks(TRI_TABLE[76], 76),
{
    reveal(row_entry);
    reveal(faces_inward);
    reveal(dot);
    reveal(triangle_normal);
    reveal(corner_solid);
    reveal(entry_check);
    reveal(triangle_check);
    reveal(edge_check);
    assert(TRI_TABLE[76] == 0xfffffff1353b5b65u64);
    assert(entry_check(0xfffffff1353b5b65u64, 76, 0));
    assert(entry_check(0xfffffff1353b5b65u64, 76, 1));
    assert(entry_check(0xfffffff1353b5b65u64, 76, 2));
    assert(entry_check(0xfffffff1353b5b65u64, 76, 3));
    assert(entry_check(0xfffffff1353b5b65u64, 76, 4));
    assert(entry_check(0xfffffff1353b5b65u64, 76, 5));
    assert(entry_check(0xfffffff1353b5b65u64, 76, 6));
    assert(entry_check(0xfffffff1353b5b65u64, 76, 7));
    assert(entry_check(0xfffffff1353b5b65u64, 76, 8));
    assert(entry_check(0xfffffff1353b5b65u64, 76, 9));
    assert(entry_check(0xfffffff1353b5b65u64, 76, 10));
    assert(entry_check(0xfffffff1353b5b65u64, 76, 11));
    assert(entry_check(0xfffffff1353b5b65u64, 76, 12));
    assert(entry_check(0xfffffff1353b5b65u64, 76, 13));
    assert(entry_check(0xfffffff1353b5b65u64, 76, 14));
    assert(entry_check(0xfffffff1353b5b65u64, 76, 15));
    assert(triangle_check(0xfffffff1353b5b65u64, 76, 0));
    assert(triangle_check(0xfffffff1353b5b65u64, 76, 1));
    assert(triangle_check(0xfffffff1353b5b65u64, 76, 2));
    assert(triangle_check(0xfffffff1353b5b65u64, 76, 3));
    assert(triangle_check(0xfffffff1353b5b65u64, 76, 4));
    assert(edge_check(0xfffffff1353b5b65u64, 76, 0));
    assert(edge_check(0xfffffff1353b5b65u64, 76, 1));
    assert(edge_check(0xfffffff1353b5b65u64, 76, 2));
    assert(edge_check(0xfffffff1353b5b65u64, 76, 3));
    assert(edge_check(0xfffffff1353b5b65u64, 76, 4));
    assert(edge_check(0xfffffff1353b5b65u64, 76, 5));
    assert(edge_check(0xfffffff1353b5b65u64, 76, 6));
    assert(edge_check(0xfffffff1353b5b65u64, 76, 7));
    assert(edge_check(0xfffffff1353b5b65u64, 76, 8));
    assert(edge_check(0xfffffff1353b5b65u64, 76, 9));
    assert(edge_check(0xfffffff1353b5b65u64, 76, 10));
    assert(edge_check(0xfffffff1353b5b65u64, 76, 11));
}

#[verifier::spinoff_prover]
proof fn lemma_row_77()
    ensures
        row_checks(TRI_TABLE[77], 77),
{
    reveal(row_entry);
    reveal(faces_inward);
    reveal(dot);
    reveal(triangle_normal);
    reveal(corner_solid);
    reveal(entry_check);
    reveal(triangle_check);
    reveal(edge_check);
    assert(TRI_TABLE[77] == 0xffff0818b1b61651u64);
    assert(entry_check(0xffff0818b1b61651u64, 77, 0));
    assert(entry_check(0xffff0818b1b61651u64, 77, 1));
    assert(entry_check(0xffff0818b1b61651u64, 77, 2));
    assert(entry_check(0xffff0818b1b61651u64, 77, 3));
    assert(entry_check(0xffff0818b1b61651u64, 77, 4));
    assert(entry_check(0xffff0818b1b61651u64, 77, 5));
    assert(entry_check(0xffff0818b1b61651u64, 77, 6));
    assert(entry_check(0xffff0818b1b61651u64, 77, 7));
    assert(entry_check(0xffff0818b1b61651u64, 77, 8));
    assert(entry_check(0xffff0818b1b61651u64, 77, 9));
    assert(entry_check(0xffff0818b1b61651u64, 77, 10));
    assert(entry_check(0xffff0818b1b61651u64, 77, 11));
    assert(entry_check(0xffff0818b1b61651u64, 77, 12));
    assert(entry_check(0xffff0818b1b61651u64, 77, 13));
    assert(entry_check(0xffff0818b1b61651u64, 77, 14));
    assert(entry_check(0xffff0818b1b61651u64, 77, 15));
    assert(triangle_check(0xffff0818b1b61651u64, 77, 0));
    assert(triangle_check(0xffff0818b1b61651u64, 77, 1));
    assert(triangle_check(0xffff0818b1b61651u64, 77, 2));
    assert(triangle_check(0xffff0818b1b61651u64, 77, 3));
    assert(triangle_check(0xffff0818b1b61651u64, 77, 4));
    assert(edge_check(0xffff0818b1b61651u64, 77, 0));
    assert(edge_check(0xffff0818b1b61651u64, 77, 1));
    assert(edge_check(0xffff0818b1b61651u64, 77, 2));
    assert(edge_check(0xffff0818b1b61651u64, 77, 3));
    assert(edge_check(0xffff0818b1b61651u64, 77, 4));
    assert(edge_check(0xffff0818b1b61651u64, 77, 5));
    assert(edge_check(0xffff0818b1b61651u64, 77, 6));
    assert(edge_check(0xffff0818b1b61651u64, 77, 7));
    assert(edge_check(0xffff0818b1b61651u64, 77, 8));
    assert(edge_check(0xffff0818b1b61651u64, 77, 9));
    assert(edge_check(0xffff0818b1b61651u64, 77, 10));
    assert(edge_check(0xffff0818b1b61651u64, 77, 11));
}

#[verifier::spinoff_prover]
proof fn lemma_row_78()
    ensures
        row_checks(TRI_TABLE[78], 78),
{
    reveal(row_entry);
    reveal(faces_inward);
    reveal(dot);
    reveal(triangle_normal);
    reveal(corner_solid);
    reveal(entry_check);
    reveal(triangle_check);
    reveal(edge_check);
    assert(TRI_TABLE[78] == 0xffff0393b9b69659u64);
    assert(entry_check(0xffff0393b9b69659u64, 78, 0));
    assert(entry_check(0xffff0393b9b69659u64, 78, 1));
    assert(entry_check(0xffff0393b9b69659u64, 78, 2));
    assert(entry_check(0xffff0393b9b69659u64, 78, 3));
    assert(entry_check(0xffff0393b9b69659u64, 78, 4));
    assert(entry_check(0xffff0393b9b69659u64, 78, 5));
    assert(entry_check(0xffff0393b9b69659u64, 78, 6));
    assert(entry_check(0xffff0393b9b69659u64, 78, 7));
    assert(entry_check(0xffff0393b9b69659u64, 78, 8));
    assert(entry_check(0xffff0393b9b69659u64, 78, 9));
    assert(entry_check(0xffff0393b9b69659u64, 78, 10));
    assert(entry_check(0xffff0393b9b69659u64, 78, 11));
    assert(entry_check(0xffff0393b9b69659u64, 78, 12));
    assert(entry_check(0xffff0393b9b69659u64, 78, 13));
    assert(entry_check(0xffff0393b9b69659u64, 78, 14));
    assert(entry_check(0xffff0393b9b69659u64, 78, 15));
    assert(triangle_check(0xffff0393b9b69659u64, 78, 0));
    assert(triangle_check(0xffff0393b9b69659u64, 78, 1));
    assert(triangle_check(0xffff0393b9b69659u64, 78, 2));
    assert(triangle_check(0xffff0393b9b69659u64, 78, 3));
    assert(triangle_check(0xffff0393b9b69659u64, 78, 4));
    assert(edge_check(0xffff0393b9b69659u64, 78, 0));
    assert(edge_check(0xffff0393b9b69659u64, 78, 1));
    assert(edge_check(0xffff0393b9b69659u64, 78, 2));
    assert(edge_check(0xffff0393b9b69659u64, 78, 3));
    assert(edge_check(0xffff0393b9b69659u64, 78, 4));
    assert(edge_check(0xffff0393b9b69659u64, 78, 5));
    assert(edge_check(0xffff0393b9b69659u64, 78, 6));
    assert(edge_check(0xffff0393b9b69659u64, 78, 7));
    assert(edge_check(0xffff0393b9b69659u64, 78, 8));
    assert(edge_check(0xffff0393b9b69659u64, 78, 9));
    assert(edge_check(0xffff0393b9b69659u64, 78, 10));
    assert(edge_check(0xffff0393b9b69659u64, 78, 11));
}

#[verifier::spinoff_prover]
proof fn lemma_row_79()
    ensures
        row_checks(TRI_TABLE[79], 79),
{
    reveal(row_entry);
    reveal(faces_inward);
    reveal(dot);
    reveal(triangle_normal);
    reveal(corner_solid);
    reveal(entry_check);
    reveal(triangle_check);
    reveal(edge_check);
    assert(TRI_TABLE[79] == 0xfffffff65b59b98bu64);
    assert(entry_check(0xfffffff65b59b98bu64, 79, 0));
    assert(entry_check(0xfffffff65b59b98bu64, 79, 1));
    assert(entry_check(0xfffffff65b59b98bu64, 79, 2));
    assert(entry_check(0xfffffff65b59b98bu64, 79, 3));
    assert(entry_check(0xfffffff65b59b98bu64, 79, 4));
    assert(entry_check(0xfffffff65b59b98bu64, 79, 5));
    assert(entry_check(0xfffffff65b59b98bu64, 79, 6));
    assert(entry_check(0xfffffff65b59b98bu64, 79, 7));
    assert(entry_check(0xfffffff65b59b98bu64, 79, 8));
    assert(entry_check(0xfffffff65b59b98bu64, 79, 9));
    assert(entry_check(0xfffffff65b59b98bu64, 79, 10));
    assert(entry_check(0xfffffff65b59b98bu64, 79, 11));
    assert(entry_check(0xfffffff65b59b98bu64, 79, 12));
    assert(entry_check(0xfffffff65b59b98bu64, 79, 13));
    assert(entry_check(0xfffffff65b59b98bu64, 79, 14));
    assert(entry_check(0xfffffff65b59b98bu64, 79, 15));
    assert(triangle_check(0xfffffff65b59b98bu64, 79, 0));
    assert(triangle_check(0xfffffff65b59b98bu64, 79, 1));
    assert(triangle_check(0xfffffff65b59b98bu64, 79, 2));
    assert(triangle_check(0xfffffff65b59b98bu64, 79, 3));
    assert(triangle_check(0xfffffff65b59b98bu64, 79, 4));
    assert(edge_check(0xfffffff65b59b98bu64, 79, 0));
    assert(edge_check(0xfffffff65b59b98bu64, 79, 1));
    assert(edge_check(0xfffffff65b59b98bu64, 79, 2));
    assert(edge_check(0xfffffff65b59b98bu64, 79, 3));
    assert(edge_check(0xfffffff65b59b98bu64, 79, 4));
    assert(edge_check(0xfffffff65b59b98bu64, 79, 5));
    assert(edge_check(0xfffffff65b59b98bu64, 79, 6));
    assert(edge_check(0xfffffff65b59b98bu64, 79, 7));
    assert(edge_check(0xfffffff65b59b98bu64, 79, 8));
    assert(edge_check(0xfffffff65b59b98bu64, 79, 9));
    assert(edge_check(0xfffffff65b59b98bu64, 79, 10));
    assert(edge_check(0xfffffff65b59b98bu64, 79, 11));
}

#[verifier::spinoff_prover]
proof fn lemma_row_80()
    ensures
        row_checks(TRI_TABLE[80], 80),
{
    reveal(row_entry);
    reveal(faces_inward);
    reveal(dot);
    reveal(triangle_normal);
    reveal(corner_solid);
    reveal(entry_check);
    reveal(triangle_check);
    reveal(edge_check);
    assert(TRI_TABLE[80] == 0xffffffffff5a6478u64);
    assert(entry_check(0xffffffffff5a6478u64, 80, 0));
    assert(entry_check(0xffffffffff5a6478u64, 80, 1));
    assert(entry_check(0xffffffffff5a6478u64, 80, 2));
    assert(entry_check(0xffffffffff5a6478u64, 80, 3));
    assert(entry_check(0xffffffffff5a6478u64, 80, 4));
    assert(entry_check(0xffffffffff5a6478u64, 80, 5));
    assert(entry_check(0xffffffffff5a6478u64, 80, 6));
    assert(entry_check(0xffffffffff5a6478u64, 80, 7));
    assert(entry_check(0xffffffffff5a6478u64, 80, 8));
    assert(entry_check(0xffffffffff5a6478u64, 80, 9));
    assert(entry_check(0xffffffffff5a6478u64, 80, 10));
    assert(entry_check(0xffffffffff5a6478u64, 80, 11));
    assert(entry_check(0xffffffffff5a6478u64, 80, 12));
    assert(entry_check(0xffffffffff5a6478u64, 80, 13));
    assert(entry_check(0xffffffffff5a6478u64, 80, 14));
    assert(entry_check(0xffffffffff5a6478u64, 80, 15));
    assert(triangle_check(0xffffffffff5a6478u64, 80, 0));
    assert(triangle_check(0xffffffffff5a6478u64, 80, 1));
    assert(triangle_check(0xffffffffff5a6478u64, 80, 2));
    assert(triangle_check(0xffffffffff5a6478u64, 80, 3));
    assert(triangle_check(0xffffffffff5a6478u64, 80, 4));
    assert(edge_check(0xffffffffff5a6478u64, 80, 0));
    assert(edge_check(0xffffffffff5a6478u64, 80, 1));
    assert(edge_check(0xffffffffff5a6478u64, 80, 2));
    assert(edge_check(0xffffffffff5a6478u64, 80, 3));
    assert(edge_check(0xffffffffff5a6478u64, 80, 4));
    assert(edge_check(0xffffffffff5a6478u64, 80, 5));
    assert(edge_check(0xffffffffff5a6478u64, 80, 6));
    assert(edge_check(0xffffffffff5a6478u64, 80, 7));
    assert(edge_check(0xffffffffff5a6478u64, 80, 8));
    assert(edge_check(0xffffffffff5a6478u64, 80, 9));
    assert(edge_check(0xffffffffff5a6478u64, 80, 10));
    assert(edge_check(0xffffffffff5a6478u64, 80, 11));
}

#[verifier::spinoff_prover]
proof fn lemma_row_81()
    ensures
        row_checks(TRI_TABLE[81], 81),
{
    reveal(row_entry);
    reveal(faces_inward);
    reveal(dot);
    reveal(triangle_normal);
    reveal(corner_solid);
    reveal(entry_check);
    reveal(triangle_check);
    reveal(edge_check);
    assert(TRI_TABLE[81] == 0xfffffff5a6470730u64);
    assert(entry_check(0xfffffff5a6470730u64, 81, 0));
    assert(entry_check(0xfffffff5a6470730u64, 81, 1));
    assert(entry_check(0xfffffff5a6470730u64, 81, 2));
    assert(entry_check(0xfffffff5a6470730u64, 81, 3));
    assert(entry_check(0xfffffff5a6470730u64, 81, 4));
    assert(entry_check(0xfffffff5a6470730u64, 81, 5));
    assert(entry_check(0xfffffff5a6470730u64, 81, 6));
    assert(entry_check(0xfffffff5a6470730u64, 81, 7));
    assert(entry_check(0xfffffff5a6470730u64, 81, 8));
    assert(entry_check(0xfffffff5a6470730u64, 81, 9));
    assert(entry_check(0xfffffff5a6470730u64, 81, 10));
    assert(entry_check(0xfffffff5a6470730u64, 81, 11));
    assert(entry_check(0xfffffff5a6470730u64, 81, 12));
    assert(entry_check(0xfffffff5a6470730u64, 81, 13));
    assert(entry_check(0xfffffff5a6470730u64, 81, 14));
    assert(entry_check(0xfffffff5a6470730u64, 81, 15));
    assert(triangle_check(0xfffffff5a6470730u64, 81, 0));
    assert(triangle_check(0xfffffff5a6470730u64, 81, 1));
    assert(triangle_check(0xfffffff5a6470730u64, 81, 2));
    assert(triangle_check(0xfffffff5a6470730u64, 81, 3));
    assert(triangle_check(0xfffffff5a6470730u64, 81, 4));
    assert(edge_check(0xfffffff5a6470730u64, 81, 0));
    assert(edge_check(0xfffffff5a6470730u64, 81, 1));
    assert(edge_check(0xfffffff5a6470730u64, 81, 2));
    assert(edge_check(0xfffffff5a6470730u64, 81, 3));
    assert(edge_check(0xfffffff5a6470730u64, 81, 4));
    assert(edge_check(0xfffffff5a6470730u64, 81, 5));
    assert(edge_check(0xfffffff5a6470730u64, 81, 6));
    assert(edge_check(0xfffffff5a6470730u64, 81, 7));
    assert(edge_check(0xfffffff5a6470730u64, 81, 8));
    assert(edge_check(0xfffffff5a6470730u64, 81, 9));
    assert(edge_check(0xfffffff5a6470730u64, 81, 10));
    assert(edge_check(0xfffffff5a6470730u64, 81, 11));
}

#[verifier::spinoff_prover]
proof fn lemma_row_82()
    ensures
        row_checks(TRI_TABLE[82], 82),
{
    reveal(row_entry);
    reveal(faces_inward);
    reveal(dot);
    reveal(triangle_normal);
    reveal(corner_solid);
    reveal(entry_check);
    reveal(triangle_check);
    reveal(edge_check);
    assert(TRI_TABLE[82] == 0xfffffff5a6478019u64);
    assert(entry_check(0xfffffff5a6478019u64, 82, 0));
    assert(entry_check(0xfffffff5a6478019u64, 82, 1));
    assert(entry_check(0xfffffff5a6478019u64, 82, 2));
    assert(entry_check(0xfffffff5a6478019u64, 82, 3));
    assert(entry_check(0xfffffff5a6478019u64, 82, 4));
    assert(entry_check(0xfffffff5a6478019u64, 82, 5));
    assert(entry_check(0xfffffff5a6478019u64, 82, 6));
    assert(entry_check(0xfffffff5a6478019u64, 82, 7));
    assert(entry_check(0xfffffff5a6478019u64, 82, 8));
    assert(entry_check(0xfffffff5a6478019u64, 82, 9));
    assert(entry_check(0xfffffff5a6478019u64, 82, 10));
    assert(entry_check(0xfffffff5a6478019u64, 82, 11));
    assert(entry_check(0xfffffff5a6478019u64, 82, 12));
    assert(entry_check(0xfffffff5a6478019u64, 82, 13));
    assert(entry_check(0xfffffff5a6478019u64, 82, 14));
    assert(entry_check(0xfffffff5a6478019u64, 82, 15));
    assert(triangle_check(0xfffffff5a6478019u64, 82, 0));
    assert(triangle_check(0xfffffff5a6478019u64, 82, 1));
    assert(triangle_check(0xfffffff5a6478019u64, 82, 2));
    assert(triangle_check(0xfffffff5a6478019u64, 82, 3));
    assert(triangle_check(0xfffffff5a6478019u64, 82, 4));
    assert(edge_check(0xfffffff5a6478019u64, 82, 0));
    assert(edge_check(0xfffffff5a6478019u64, 82, 1));
    assert(edge_check(0xfffffff5a6478019u64, 82, 2));
    assert(edge_check(0xfffffff5a6478019u64, 82, 3));
    assert(edge_check(0xfffffff5a6478019u64, 82, 4));
    assert(edge_check(0xfffffff5a6478019u64, 82, 5));
    assert(edge_check(0xfffffff5a6478019u64, 82, 6));
    assert(edge_check(0xfffffff5a6478019u64, 82, 7));
    assert(edge_check(0xfffffff5a6478019u64, 82, 8));
    assert(edge_check(0xfffffff5a6478019u64, 82, 9));
    assert(edge_check(0xfffffff5a6478019u64, 82, 10));
    assert(edge_check(0xfffffff5a6478019u64, 82, 11));
}

#[verifier::spinoff_prover]
proof fn lemma_row_83()
    ensures
        row_checks(TRI_TABLE[83], 83),
{
    reveal(row_entry);
    reveal(faces_inward);
    reveal(dot);
    reveal(triangle_normal);
    reveal(corner_solid);
    reveal(entry_check);
    reveal(triangle_check);
    reveal(edge_check);
    assert(TRI_TABLE[83] == 0xffff5a6317197947u64);
    assert(entry_check(0xffff5a6317197947u64, 83, 0));
    assert(entry_check(0xffff5a6317197947u64, 83, 1));
    assert(entry_check(0xffff5a6317197947u64, 83, 2));
    assert(entry_check(0xffff5a6317197947u64, 83, 3));
    assert(entry_check(0xffff5a6317197947u64, 83, 4));
    assert(entry_check(0xffff5a6317197947u64, 83, 5));
    assert(entry_check(0xffff5a6317197947u64, 83, 6));
    assert(entry_check(0xffff5a6317197947u64, 83, 7));
    assert(entry_check(0xffff5a6317197947u64, 83, 8));
    assert(entry_check(0xffff5a6317197947u64, 83, 9));
    assert(entry_check(0xffff5a6317197947u64, 83, 10));
    assert(entry_check(0xffff5a6317197947u64, 83, 11));
    assert(entry_check(0xffff5a6317197947u64, 83, 12));
    assert(entry_check(0xffff5a6317197947u64, 83, 13));
    assert(entry_check(0xffff5a6317197947u64, 83, 14));
    assert(entry_check(0xffff5a6317197947u64, 83, 15));
    assert(triangle_check(0xffff5a6317197947u64, 83, 0));
    assert(triangle_check(0xffff5a6317197947u64, 83, 1));
    assert(triangle_check(0xffff5a6317197947u64, 83, 2));
    assert(triangle_check(0xffff5a6317197947u64, 83, 3));
    assert(triangle_check(0xffff5a6317197947u64, 83, 4));
    assert(edge_check(0xffff5a6317197947u64, 83, 0));
    assert(edge_check(0xffff5a6317197947u64, 83, 1));
    assert(edge_check(0xffff5a6317197947u64, 83, 2));
    assert(edge_check(0xffff5a6317197947u64, 83, 3));
    assert(edge_check(0xffff5a6317197947u64, 83, 4));
    assert(edge_check(0xffff5a6317197947u64, 83, 5));
    assert(edge_check(0xffff5a6317197947u64, 83, 6));
    assert(edge_check(0xffff5a6317197947u64, 83, 7));
    assert(edge_check(0xffff5a6317197947u64, 83, 8));
    assert(edge_check(0xffff5a6317197947u64, 83, 9));
    assert(edge_check(0xffff5a6317197947u64, 83, 10));
    assert(edge_check(0xffff5a6317197947u64, 83, 11));
}

#[verifier::spinoff_prover]
proof fn lemma_row_84()
    ensures
        row_checks(TRI_TABLE[84], 84),
{
    reveal(row_entry);
    reveal(faces_inward);
    reveal(dot);
    reveal(triangle_normal);
    reveal(corner_solid);
    reveal(entry_check);
    reveal(triangle_check);
    reveal(edge_check);
    assert(TRI_TABLE[84] == 0xfffffff478261651u64);
    assert(entry_check(0xfffffff478261651u64, 84, 0));
    assert(entry_check(0xfffffff478261651u64, 84, 1));
    assert(entry_check(0xfffffff478261651u64, 84, 2));
    assert(entry_check(0xfffffff478261651u64, 84, 3));
    assert(entry_check(0xfffffff478261651u64, 84, 4));
    assert(entry_check(0xfffffff478261651u64, 84, 5));
    assert(entry_check(0xfffffff478261651u64, 84, 6));
    assert(entry_check(0xfffffff478261651u64, 84, 7));
    assert(entry_check(0xfffffff478261651u64, 84, 8));
    assert(entry_check(0xfffffff478261651u64, 84, 9));
    assert(entry_check(0xfffffff478261651u64, 84, 10));
    assert(entry_check(0xfffffff478261651u64, 84, 11));
    assert(entry_check(0xfffffff478261651u64, 84, 12));
    assert(entry_check(0xfffffff478261651u64, 84, 13));
    assert(entry_check(0xfffffff478261651u64, 84, 14));
    assert(entry_check(0xfffffff478261651u64, 84, 15));
    assert(triangle_check(0xfffffff478261651u64, 84, 0));
    assert(triangle_check(0xfffffff478261651u64, 84, 1));
    assert(triangle_check(0xfffffff478261651u64, 84, 2));
    assert(triangle_check(0xfffffff478261651u64, 84, 3));
    assert(triangle_check(0xfffffff478261651u64, 84, 4));
    assert(edge_check(0xfffffff478261651u64, 84, 0));
    assert(edge_check(0xfffffff478261651u64, 84, 1));
    assert(edge_check(0xfffffff478261651u64, 84, 2));
    assert(edge_check(0xfffffff478261651u64, 84, 3));
    assert(edge_check(0xfffffff478261651u64, 84, 4));
    assert(edge_check(0xfffffff478261651u64, 84, 5));
    assert(edge_check(0xfffffff478261651u64, 84, 6));
    assert(edge_check(0xfffffff478261651u64, 84, 7));
    assert(edge_check(0xfffffff478261651u64, 84, 8));
    assert(edge_check(0xfffffff478261651u64, 84, 9));
    assert(edge_check(0xfffffff478261651u64, 84, 10));
    assert(edge_check(0xfffffff478261651u64, 84, 11));
}

#[verifier::spinoff_prover]
proof fn lemma_row_85()
    ensures
        row_checks(TRI_TABLE[85], 85),
{
    reveal(row_entry);
    reveal(faces_inward);
    reveal(dot);
    reveal(triangle_normal);
    reveal(corner_solid);
    reveal(entry_check);
    reveal(triangle_check);
    reveal(edge_check);
    assert(TRI_TABLE[85] == 0xffff261651470730u64);
    assert(entry_check(0xffff261651470730u64, 85, 0));
    assert(entry_check(0xffff261651470730u64, 85, 1));
    assert(entry_check(0xffff261651470730u64, 85, 2));
    assert(entry_check(0xffff261651470730u64, 85, 3));
    assert(entry_check(0xffff261651470730u64, 85, 4));
    assert(entry_check(0xffff261651470730u64, 85, 5));
    assert(entry_check(0xffff261651470730u64, 85, 6));
    assert(entry_check(0xffff261651470730u64, 85, 7));
    assert(entry_check(0xffff261651470730u64, 85, 8));
    assert(entry_check(0xffff261651470730u64, 85, 9));
    assert(entry_check(0xffff261651470730u64, 85, 10));
    assert(entry_check(0xffff261651470730u64, 85, 11));
    assert(entry_check(0xffff261651470730u64, 85, 12));
    assert(entry_check(0xffff261651470730u64, 85, 13));
    assert(entry_check(0xffff261651470730u64, 85, 14));
    assert(entry_check(0xffff261651470730u64, 85, 15));
    assert(triangle_check(0xffff261651470730u64, 85, 0));
    assert(triangle_check(0xffff261651470730u64, 85, 1));
    assert(triangle_check(0xffff261651470730u64, 85, 2));
    assert(triangle_check(0xffff261651470730u64, 85, 3));
    assert(triangle_check(0xffff261651470730u64, 85, 4));
    assert(edge_check(0xffff261651470730u64, 85, 0));
    assert(edge_check(0xffff261651470730u64, 85, 1));
    assert(edge_check(0xffff261651470730u64, 85, 2));
    assert(edge_check(0xffff261651470730u64, 85, 3));
    assert(edge_check(0xffff261651470730u64, 85, 4));
    assert(edge_check(0xffff261651470730u64, 85, 5));
    assert(edge_check(0xffff261651470730u64, 85, 6));
    assert(edge_check(0xffff261651470730u64, 85, 7));
    assert(edge_check(0xffff261651470730u64, 85, 8));
    assert(edge_check(0xffff261651470730u64, 85, 9));
    assert(edge_check(0xffff261651470730u64, 85, 10));
    assert(edge_check(0xffff261651470730u64, 85, 11));
}

#[verifier::spinoff_prover]
proof fn lemma_row_86()
    ensures
        row_checks(TRI_TABLE[86], 86),
{
    reveal(row_entry);
    reveal(faces_inward);
    reveal(dot);
    reveal(triangle_normal);
    reveal(corner_solid);
    reveal(entry_check);
    reveal(triangle_check);
    reveal(edge_check);
    assert(TRI_TABLE[86] == 0xffff478596906026u64);
    assert(entry_check(0xffff478596906026u64, 86, 0));
    assert(entry_check(0xffff478596906026u64, 86, 1));
    assert(entry_check(0xffff478596906026u64, 86, 2));
    assert(entry_check(0xffff478596906026u64, 86, 3));
    assert(entry_check(0xffff478596906026u64, 86, 4));
    assert(entry_check(0xffff478596906026u64, 86, 5));
    assert(entry_check(0xffff478596906026u64, 86, 6));
    assert(entry_check(0xffff478596906026u64, 86, 7));
    assert(entry_check(0xffff478596906026u64, 86, 8));
    assert(entry_check(0xffff478596906026u64, 86, 9));
    assert(entry_check(0xffff478596906026u64, 86, 10));
    assert(entry_check(0xffff478596906026u64, 86, 11));
    assert(entry_check(0xffff478596906026u64, 86, 12));
    assert(entry_check(0xffff478596906026u64, 86, 13));
    assert(entry_check(0xffff478596906026u64, 86, 14));
    assert(entry_check(0xffff478596906026u64, 86, 15));
    assert(triangle_check(0xffff478596906026u64, 86, 0));
    assert(triangle_check(0xffff478596906026u64, 86, 1));
    assert(triangle_check(0xffff478596906026u64, 86, 2));
    assert(triangle_check(0xffff478596906026u64, 86, 3));
    assert(triangle_check(0xffff478596906026u64, 86, 4));
    assert(edge_check(0xffff478596906026u64, 86, 0));
    assert(edge_check(0xffff478596906026u64, 86, 1));
    assert(edge_check(0xffff478596906026u64, 86, 2));
    assert(edge_check(0xffff478596906026u64, 86, 3));
    assert(edge_check(0xffff478596906026u64, 86, 4));
    assert(edge_check(0xffff478596906026u64, 86, 5));
    assert(edge_check(0xffff478596906026u64, 86, 6));
    assert(edge_check(0xffff478596906026u64, 86, 7));
    assert(edge_check(0xffff478596906026u64, 86, 8));
    assert(edge_check(0xffff478596906026u64, 86, 9));
    assert(edge_check(0xffff478596906026u64, 86, 10));
    assert(edge_check(0xffff478596906026u64, 86, 11));
}

#[verifier::spinoff_prover]
proof fn lemma_row_87()
    ensures
        row_checks(TRI_TABLE[87], 87),
{
    reveal(row_entry);
    reveal(faces_inward);
    reveal(dot);
    reveal(triangle_normal);
    reveal(corner_solid);
    reveal(entry_check);
    reveal(triangle_check);
    reveal(edge_check);
    assert(TRI_TABLE[87] == 0xf479739329269659u64);
    assert(entry_check(0xf479739329269659u64, 87, 0));
    assert(entry_check(0xf479739329269659u64, 87, 1));
    assert(entry_check(0xf479739329269659u64, 87, 2));
    assert(entry_check(0xf479739329269659u64, 87, 3));
    assert(entry_check(0xf479739329269659u64, 87, 4));
    assert(entry_check(0xf479739329269659u64, 87, 5));
    assert(entry_check(0xf479739329269659u64, 87, 6));
    assert(entry_check(0xf479739329269659u64, 87, 7));
    assert(entry_check(0xf479739329269659u64, 87, 8));
    assert(entry_check(0xf479739329269659u64, 87, 9));
    assert(entry_check(0xf479739329269659u64, 87, 10));
    assert(entry_check(0xf479739329269659u64, 87, 11));
    assert(entry_check(0xf479739329269659u64, 87, 12));
    assert(entry_check(0xf479739329269659u64, 87, 13));
    assert(entry_check(0xf479739329269659u64, 87, 14));
    assert(entry_check(0xf479739329269659u64, 87, 15));
    assert(triangle_check(0xf479739329269659u64, 87, 0));
    assert(triangle_check(0xf479739329269659u64, 87, 1));
    assert(triangle_check(0xf479739329269659u64, 87, 2));
    assert(triangle_check(0xf479739329269659u64, 87, 3));
    assert(triangle_check(0xf479739329269659u64, 87, 4));
    assert(edge_check(0xf479739329269659u64, 87, 0));
    assert(edge_check(0xf479739329269659u64, 87, 1));
    assert(edge_check(0xf479739329269659u64, 87, 2));
    assert(edge_check(0xf479739329269659u64, 87, 3));
    assert(edge_check(0xf479739329269659u64, 87, 4));
    assert(edge_check(0xf479739329269659u64, 87, 5));
    assert(edge_check(0xf479739329269659u64, 87, 6));
    assert(edge_check(0xf479739329269659u64, 87, 7));
    assert(edge_check(0xf479739329269659u64, 87, 8));
    assert(edge_check(0xf479739329269659u64, 87, 9));
    assert(edge_check(0xf479739329269659u64, 87, 10));
    assert(edge_check(0xf479739329269659u64, 87, 11));
}

#[verifier::spinoff_prover]
proof fn lemma_row_88()
    ensures
        row_checks(TRI_TABLE[88], 88),
{
    reveal(row_entry);
    reveal(faces_inward);
    reveal(dot);
    reveal(triangle_normal);
    reveal(corner_solid);
    reveal(entry_check);
    reveal(triangle_check);
    reveal(edge_check);
    assert(TRI_TABLE[88] == 0xfffffff5a647823bu64);
    assert(entry_check(0xfffffff5a647823bu64, 88, 0));
    assert(entry_check(0xfffffff5a647823bu64, 88, 1));
    assert(entry_check(0xfffffff5a647823bu64, 88, 2));
    assert(entry_check(0xfffffff5a647823bu64, 88, 3));
    assert(entry_check(0xfffffff5a647823bu64, 88, 4));
    assert(entry_check(0xfffffff5a647823bu64, 88, 5));
    assert(entry_check(0xfffffff5a647823bu64, 88, 6));
    assert(entry_check(0xfffffff5a647823bu64, 88, 7));
    assert(entry_check(0xfffffff5a647823bu64, 88, 8));
    assert(entry_check(0xfffffff5a647823bu64, 88, 9));
    assert(entry_check(0xfffffff5a647823bu64, 88, 10));
    assert(entry_check(0xfffffff5a647823bu64, 88, 11));
    assert(entry_check(0xfffffff5a647823bu64, 88, 12));
    assert(entry_check(0xfffffff5a647823bu64, 88, 13));
    assert(entry_check(0xfffffff5a647823bu64, 88, 14));
    assert(entry_check(0xfffffff5a647823bu64, 88, 15));
    assert(triangle_check(0xfffffff5a647823bu64, 88, 0));
    assert(triangle_check(0xfffffff5a647823bu64, 88, 1));
    assert(triangle_check(0xfffffff5a647823bu64, 88, 2));
    assert(triangle_check(0xfffffff5a647823bu64, 88, 3));
    assert(triangle_check(0xfffffff5a647823bu64, 88, 4));
    assert(edge_check(0xfffffff5a647823bu64, 88, 0));
    assert(edge_check(0xfffffff5a647823bu64, 88, 1));
    assert(edge_check(0xfffffff5a647823bu64, 88, 2));
    assert(edge_check(0xfffffff5a647823bu64, 88, 3));
    assert(edge_check(0xfffffff5a647823bu64, 88, 4));
    assert(edge_check(0xfffffff5a647823bu64, 88, 5));
    assert(edge_check(0xfffffff5a647823bu64, 88, 6));
    assert(edge_check(0xfffffff5a647823bu64, 88, 7));
    assert(edge_check(0xfffffff5a647823bu64, 88, 8));
    assert(edge_check(0xfffffff5a647823bu64, 88, 9));
    assert(edge_check(0xfffffff5a647823bu64, 88, 10));
    assert(edge_check(0xfffffff5a647823bu64, 88, 11));
}

#[verifier::spinoff_prover]
proof fn lemma_row_89()
    ensures
        row_checks(TRI_TABLE[89], 89),
{
    reveal(row_entry);
    reveal(faces_inward);
    reveal(dot);
    reveal(triangle_normal);
    reveal(corner_solid);
    reveal(entry_check);
    reveal(triangle_check);
    reveal(edge_check);
    assert(TRI_TABLE[89] == 0xffff5a60424727b2u64);
    assert(entry_check(0xffff5a60424727b2u64, 89, 0));
    assert(entry_check(0xffff5a60424727b2u64, 89, 1));
    assert(entry_check(0xffff5a60424727b2u64, 89, 2));
    assert(entry_check(0xffff5a60424727b2u64, 89, 3));
    assert(entry_check(0xffff5a60424727b2u64, 89, 4));
    assert(entry_check(0xffff5a60424727b2u64, 89, 5));
    assert(entry_check(0xffff5a60424727b2u64, 89, 6));
    assert(entry_check(0xffff5a60424727b2u64, 89, 7));
    assert(entry_check(0xffff5a60424727b2u64, 89, 8));
    assert(entry_check(0xffff5a60424727b2u64, 89, 9));
    assert(entry_check(0xffff5a60424727b2u64, 89, 10));
    assert(entry_check(0xffff5a60424727b2u64, 89, 11));
    assert(entry_check(0xffff5a60424727b2u64, 89, 12));
    assert(entry_check(0xffff5a60424727b2u64, 89, 13));
    assert(entry_check(0xffff5a60424727b2u64, 89, 14));
    assert(entry_check(0xffff5a60424727b2u64, 89, 15));
    assert(triangle_check(0xffff5a60424727b2u64, 89, 0));
    assert(triangle_check(0xffff5a60424727b2u64, 89, 1));
    assert(triangle_check(0xffff5a60424727b2u64, 89, 2));
    assert(triangle_check(0xffff5a60424727b2u64, 89, 3));
    assert(triangle_check(0xffff5a60424727b2u64, 89, 4));
    assert(edge_check(0xffff5a60424727b2u64, 89, 0));
    assert(edge_check(0xffff5a60424727b2u64, 89, 1));
    assert(edge_check(0xffff5a60424727b2u64, 89, 2));
    assert(edge_check(0xffff5a60424727b2u64, 89, 3));
    assert(edge_check(0xffff5a60424727b2u64, 89, 4));
    assert(edge_check(0xffff5a60424727b2u64, 89, 5));
    assert(edge_check(0xffff5a60424727b2u64, 89, 6));
    assert(edge_check(0xffff5a60424727b2u64, 89, 7));
    assert(edge_check(0xffff5a60424727b2u64, 89, 8));
    assert(edge_check(0xffff5a60424727b2u64, 89, 9));
    assert(edge_check(0xffff5a60424727b2u64, 89, 10));
    assert(edge_check(0xffff5a60424727b2u64, 89, 11));
}

#[verifier::spinoff_prover]
proof fn lemma_row_90()
    ensures
        row_checks(TRI_TABLE[90], 90),
{
    reveal(row_entry);
    reveal(faces_inward);
    reveal(dot);
    reveal(triangle_normal);
    reveal(corner_solid);
    reveal(entry_check);
    reveal(triangle_check);
    reveal(edge_check);
    assert(TRI_TABLE[90] == 0xffff5a647823b019u64);
    assert(entry_check(0xffff5a647823b019u64, 90, 0));
    assert(entry_check(0xffff5a647823b019u64, 90, 1));
    assert(entry_check(0xffff5a647823b019u64, 90, 2));
    assert(entry_check(0xffff5a647823b019u64, 90, 3));
    assert(entry_check(0xffff5a647823b019u64, 90, 4));
    assert(entry_check(0xffff5a647823b019u64, 90, 5));
    assert(entry_check(0xffff5a647823b019u64, 90, 6));
    assert(entry_check(0xffff5a647823b019u64, 90, 7));
    assert(entry_check(0xffff5a647823b019u64, 90, 8));
    assert(entry_check(0xffff5a647823b019u64, 90, 9));
    assert(entry_check(0xffff5a647823b019u64, 90, 10));
    assert(entry_check(0xffff5a647823b019u64, 90, 11));
    assert(entry_check(0xffff5a647823b019u64, 90, 12));
    assert(entry_check(0xffff5a647823b019u64, 90, 13));
    assert(entry_check(0xffff5a647823b019u64, 90, 14));
    assert(entry_check(0xffff5a647823b019u64, 90, 15));
    assert(triangle_check(0xffff5a647823b019u64, 90, 0));
    assert(triangle_check(0xffff5a647823b019u64, 90, 1));
    assert(triangle_check(0xffff5a647823b019u64, 90, 2));
    assert(triangle_check(0xffff5a647823b019u64, 90, 3));
    assert(triangle_check(0xffff5a647823b019u64, 90, 4));
    assert(edge_check(0xffff5a647823b019u64, 90, 0));
    assert(edge_check(0xffff5a647823b019u64, 90, 1));
    assert(edge_check(0xffff5a647823b019u64, 90, 2));
    assert(edge_check(0xffff5a647823b019u64, 90, 3));
    assert(edge_check(0xffff5a647823b019u64, 90, 4));
    assert(edge_check(0xffff5a647823b019u64, 90, 5));
    assert(edge_check(0xffff5a647823b019u64, 90, 6));
    assert(edge_check(0xffff5a647823b019u64, 90, 7));
    assert(edge_check(0xffff5a647823b019u64, 90, 8));
    assert(edge_check(0xffff5a647823b019u64, 90, 9));
    assert(edge_check(0xffff5a647823b019u64, 90, 10));
    assert(edge_check(0xffff5a647823b019u64, 90, 11));
}

#[verifier::spinoff_prover]
proof fn lemma_row_91()
    ensures
        row_checks(TRI_TABLE[91], 91),
{
    reveal(row_entry);
    reveal(faces_inward);
    reveal(dot);
    reveal(triangle_normal);
    reveal(corner_solid);
    reveal(entry_check);
    reveal(triangle_check);
    reveal(edge_check);
    assert(TRI_TABLE[91] == 0xf5a61929424727b2u64);
    assert(entry_check(0xf5a61929424727b2u64, 91, 0));
    assert(entry_check(0xf5a61929424727b2u64, 91, 1));
    assert(entry_check(0xf5a61929424727b2u64, 91, 2));
    assert(entry_check(0xf5a61929424727b2u64, 91, 3));
    assert(entry_check(0xf5a61929424727b2u64, 91, 4));
    assert(entry_check(0xf5a61929424727b2u64, 91, 5));
    assert(entry_check(0xf5a61929424727b2u64, 91, 6));
    assert(entry_check(0xf5a61929424727b2u64, 91, 7));
    assert(entry_check(0xf5a61929424727b2u64, 91, 8));
    assert(entry_check(0xf5a61929424727b2u64, 91, 9));
    assert(entry_check(0xf5a61929424727b2u64, 91, 10));
    assert(entry_check(0xf5a61929424727b2u64, 91, 11));
    assert(entry_check(0xf5a61929424727b2u64, 91, 12));
    assert(entry_check(0xf5a61929424727b2u64, 91, 13));
    assert(entry_check(0xf5a61929424727b2u64, 91, 14));
    assert(entry_check(0xf5a61929424727b2u64, 91, 15));
    assert(triangle_check(0xf5a61929424727b2u64, 91, 0));
    assert(triangle_check(0xf5a61929424727b2u64, 91, 1));
    assert(triangle_check(0xf5a61929424727b2u64, 91, 2));
    assert(triangle_check(0xf5a61929424727b2u64, 91, 3));
    assert(triangle_check(0xf5a61929424727b2u64, 91, 4));
    assert(edge_check(0xf5a61929424727b2u64, 91, 0));
    assert(edge_check(0xf5a61929424727b2u64, 91, 1));
    assert(edge_check(0xf5a61929424727b2u64, 91, 2));
    assert(edge_check(0xf5a61929424727b2u64, 91, 3));
    assert(edge_check(0xf5a61929424727b2u64, 91, 4));
    assert(edge_check(0xf5a61929424727b2u64, 91, 5));
    assert(edge_check(0xf5a61929424727b2u64, 91, 6));
    assert(edge_check(0xf5a61929424727b2u64, 91, 7));
    assert(edge_check(0xf5a61929424727b2u64, 91, 8));
    assert(edge_check(0xf5a61929424727b2u64, 91, 9));
    assert(edge_check(0xf5a61929424727b2u64, 91, 10));
    assert(edge_check(0xf5a61929424727b2u64, 91, 11));
}

#[verifier::spinoff_prover]
proof fn lemma_row_92()
    ensures
        row_checks(TRI_TABLE[92], 92),
{
    reveal(row_entry);
    reveal(faces_inward);
    reveal(dot);
    reveal(triangle_normal);
    reveal(corner_solid);
    reveal(entry_check);
    reveal(triangle_check);
    reveal(edge_check);
    assert(TRI_TABLE[92] == 0xffff4781353b5b65u64);
    assert(entry_check(0xffff4781353b5b65u64, 92, 0));
    assert(entry_check(0xffff4781353b5b65u64, 92, 1));
    assert(entry_check(0xffff4781353b5b65u64, 92, 2));
    assert(entry_check(0xffff4781353b5b65u64, 92, 3));
    assert(entry_check(0xffff4781353b5b65u64, 92, 4));
    assert(entry_check(0xffff4781353b5b65u64, 92, 5));
    assert(entry_check(0xffff4781353b5b65u64, 92, 6));
    assert(entry_check(0xffff4781353b5b65u64, 92, 7));
    assert(entry_check(0xffff4781353b5b65u64, 92, 8));
    assert(entry_check(0xffff4781353b5b65u64, 92, 9));
    assert(entry_check(0xffff4781353b5b65u64, 92, 10));
    assert(entry_check(0xffff4781353b5b65u64, 92, 11));
    assert(entry_check(0xffff4781353b5b65u64, 92, 12));
    assert(entry_check(0xffff4781353b5b65u64, 92, 13));
    assert(entry_check(0xffff4781353b5b65u64, 92, 14));
    assert(entry_check(0xffff4781353b5b65u64, 92, 15));
    assert(triangle_check(0xffff4781353b5b65u64, 92, 0));
    assert(triangle_check(0xffff4781353b5b65u64, 92, 1));
    assert(triangle_check(0xffff4781353b5b65u64, 92, 2));
    assert(triangle_check(0xffff4781353b5b65u64, 92, 3));
    assert(triangle_check(0xffff4781353b5b65u64, 92, 4));
    assert(edge_check(0xffff4781353b5b65u64, 92, 0));
    assert(edge_check(0xffff4781353b5b65u64, 92, 1));
    assert(edge_check(0xffff4781353b5b65u64, 92, 2));
    assert(edge_check(0xffff4781353b5b65u64, 92, 3));
    assert(edge_check(0xffff4781353b5b65u64, 92, 4));
    assert(edge_check(0xffff4781353b5b65u64, 92, 5));
    assert(edge_check(0xffff4781353b5b65u64, 92, 6));
    assert(edge_check(0xffff4781353b5b65u64, 92, 7));
    assert(edge_check(0xffff4781353b5b65u64, 92, 8));
    assert(edge_check(0xffff4781353b5b65u64, 92, 9));
    assert(edge_check(0xffff4781353b5b65u64, 92, 10));
    assert(edge_check(0xffff4781353b5b65u64, 92, 11));
}

#[verifier::spinoff_prover]
proof fn lemma_row_93()
    ensures
        row_checks(TRI_TABLE[93], 93),
{
    reveal(row_entry);
    reveal(faces_inward);
    reveal(dot);
    reveal(triangle_normal);
    reveal(corner_solid);
    reveal(entry_check);
    reveal(triangle_check);
    reveal(edge_check);
    assert(TRI_TABLE[93] == 0xf65b51b10b04b47bu64);
    assert(entry_check(0xf65b51b10b04b47bu64, 93, 0));
    assert(entry_check(0xf65b51b10b04b47bu64, 93, 1));
    assert(entry_check(0xf65b51b10b04b47bu64, 93, 2));
    assert(entry_check(0xf65b51b10b04b47bu64, 93, 3));
    assert(entry_check(0xf65b51b10b04b47bu64, 93, 4));
    assert(entry_check(0xf65b51b10b04b47bu64, 93, 5));
    assert(entry_check(0xf65b51b10b04b47bu64, 93, 6));
    assert(entry_check(0xf65b51b10b04b47bu64, 93, 7));
    assert(entry_check(0xf65b51b10b04b47bu64, 93, 8));
    assert(entry_check(0xf65b51b10b04b47bu64, 93, 9));
    assert(entry_check(0xf65b51b10b04b47bu64, 93, 10));
    assert(entry_check(0xf65b51b10b04b47bu64, 93, 11));
    assert(entry_check(0xf65b51b10b04b47bu64, 93, 12));
    assert(entry_check(0xf65b51b10b04b47bu64, 93, 13));
    assert(entry_check(0xf65b51b10b04b47bu64, 93, 14));
    assert(entry_check(0xf65b51b10b04b47bu64, 93, 15));
    assert(triangle_check(0xf65b51b10b04b47bu64, 93, 0));
    assert(triangle_check(0xf65b51b10b04b47bu64, 93, 1));
    assert(triangle_check(0xf65b51b10b04b47bu64, 93, 2));
    assert(triangle_check(0xf65b51b10b04b47bu64, 93, 3));
    assert(triangle_check(0xf65b51b10b04b47bu64, 93, 4));
    assert(edge_check(0xf65b51b10b04b47bu64, 93, 0));
    assert(edge_check(0xf65b51b10b04b47bu64, 93, 1));
    assert(edge_check(0xf65b51b10b04b47bu64, 93, 2));
    assert(edge_check(0xf65b51b10b04b47bu64, 93, 3));
    assert(edge_check(0xf65b51b10b04b47bu64, 93, 4));
    assert(edge_check(0xf65b51b10b04b47bu64, 93, 5));
    assert(edge_check(0xf65b51b10b04b47bu64, 93, 6));
    assert(edge_check(0xf65b51b10b04b47bu64, 93, 7));
    assert(edge_check(0xf65b51b10b04b47bu64, 93, 8));
    assert(edge_check(0xf65b51b10b04b47bu64, 93, 9));
    assert(edge_check(0xf65b51b10b04b47bu64, 93, 10));
    assert(edge_check(0xf65b51b10b04b47bu64, 93, 11));
}

#[verifier::spinoff_prover]
proof fn lemma_row_94()
    ensures
        row_checks(TRI_TABLE[94], 94),
{
    reveal(row_entry);
    reveal(faces_inward);
    reveal(dot);
    reveal(triangle_normal);
    reveal(corner_solid);
    reveal(entry_check);
    reveal(triangle_check);
    reveal(edge_check);
    assert(TRI_TABLE[94] == 0xf4780393b9b69659u64);
    assert(entry_check(0xf4780393b9b69659u64, 94, 0));
    assert(entry_check(0xf4780393b9b69659u64, 94, 1));
    assert(entry_check(0xf4780393b9b69659u64, 94, 2));
    assert(entry_check(0xf4780393b9b69659u64, 94, 3));
    assert(entry_check(0xf4780393b9b69659u64, 94, 4));
    assert(entry_check(0xf4780393b9b69659u64, 94, 5));
    assert(entry_check(0xf4780393b9b69659u64, 94, 6));
    assert(entry_check(0xf4780393b9b69659u64, 94, 7));
    assert(entry_check(0xf4780393b9b69659u64, 94, 8));
    assert(entry_check(0xf4780393b9b69659u64, 94, 9));
    assert(entry_check(0xf4780393b9b69659u64, 94, 10));
    assert(entry_check(0xf4780393b9b69659u64, 94, 11));
    assert(entry_check(0xf4780393b9b69659u64, 94, 12));
    assert(entry_check(0xf4780393b9b69659u64, 94, 13));
    assert(entry_check(0xf4780393b9b69659u64, 94, 14));
    assert(entry_check(0xf4780393b9b69659u64, 94, 15));
    assert(triangle_check(0xf4780393b9b69659u64, 94, 0));
    assert(triangle_check(0xf4780393b9b69659u64, 94, 1));
    assert(triangle_check(0xf4780393b9b69659u64, 94, 2));
    assert(triangle_check(0xf4780393b9b69659u64, 94, 3));
    assert(triangle_check(0xf4780393b9b69659u64, 94, 4));
    assert(edge_check(0xf4780393b9b69659u64, 94, 0));
    assert(edge_check(0xf4780393b9b69659u64, 94, 1));
    assert(edge_check(0xf4780393b9b69659u64, 94, 2));
    assert(edge_check(0xf4780393b9b69659u64, 94, 3));
    assert(edge_check(0xf4780393b9b69659u64, 94, 4));
    assert(edge_check(0xf4780393b9b69659u64, 94, 5));
    assert(edge_check(0xf4780393b9b69659u64, 94, 6));
    assert(edge_check(0xf4780393b9b69659u64, 94, 7));
    assert(edge_check(0xf4780393b9b69659u64, 94, 8));
    assert(edge_check(0xf4780393b9b69659u64, 94, 9));
    assert(edge_check(0xf4780393b9b69659u64, 94, 10));
    assert(edge_check(0xf4780393b9b69659u64, 94, 11));
}

#[verifier::spinoff_prover]
proof fn lemma_row_95()
    ensures
        row_checks(TRI_TABLE[95], 95),
{
    reveal(row_entry);
    reveal(faces_inward);
    reveal(dot);
    reveal(triangle_normal);
    reveal(corner_solid);
    reveal(entry_check);
    reveal(triangle_check);
    reveal(edge_check);
    assert(TRI_TABLE[95] == 0xffff4797b9b69659u64);
    assert(entry_check(0xffff4797b9b69659u64, 95, 0));
    assert(entry_check(0xffff4797b9b69659u64, 95, 1));
    assert(entry_check(0xffff4797b9b69659u64, 95, 2));
    assert(entry_check(0xffff4797b9b69659u64, 95, 3));
    assert(entry_check(0xffff4797b9b69659u64, 95, 4));
    assert(entry_check(0xffff4797b9b69659u64, 95, 5));
    assert(entry_check(0xffff4797b9b69659u64, 95, 6));
    assert(entry_check(0xffff4797b9b69659u64, 95, 7));
    assert(entry_check(0xffff4797b9b69659u64, 95, 8));
    assert(entry_check(0xffff4797b9b69659u64, 95, 9));
    assert(entry_check(0xffff4797b9b69659u64, 95, 10));
    assert(entry_check(0xffff4797b9b69659u64, 95, 11));
    assert(entry_check(0xffff4797b9b69659u64, 95, 12));
    assert(entry_check(0xffff4797b9b69659u64, 95, 13));
    assert(entry_check(0xffff4797b9b69659u64, 95, 14));
    assert(entry_check(0xffff4797b9b69659u64, 95, 15));
    assert(triangle_check(0xffff4797b9b69659u64, 95, 0));
    assert(triangle_check(0xffff4797b9b69659u64, 95, 1));
    assert(triangle_check(0xffff4797b9b69659u64, 95, 2));
    assert(triangle_check(0xffff4797b9b69659u64, 95, 3));
    assert(triangle_check(0xffff4797b9b69659u64, 95, 4));
    assert(edge_check(0xffff4797b9b69659u64, 95, 0));
    assert(edge_check(0xffff4797b9b69659u64, 95, 1));
    assert(edge_check(0xffff4797b9b69659u64, 95, 2));
    assert(edge_check(0xffff4797b9b69659u64, 95, 3));
    assert(edge_check(0xffff4797b9b69659u64, 95, 4));
    assert(edge_check(0xffff4797b9b69659u64, 95, 5));
    assert(edge_check(0xffff4797b9b69659u64, 95, 6));
    assert(edge_check(0xffff4797b9b69659u64, 95, 7));
    assert(edge_check(0xffff4797b9b69659u64, 95, 8));
    assert(edge_check(0xffff4797b9b69659u64, 95, 9));
    assert(edge_check(0xffff4797b9b69659u64, 95, 10));
    assert(edge_check(0xffff4797b9b69659u64, 95, 11));
}

#[verifier::spinoff_prover]
proof fn lemma_row_96()
    ensures
        row_checks(TRI_TABLE[96], 96),
{
    reveal(row_entry);
    reveal(faces_inward);
    reveal(dot);
    reveal(triangle_normal);
    reveal(corner_solid);
    reveal(entry_check);
    reveal(triangle_check);
    reveal(edge_check);
    assert(TRI_TABLE[96] == 0xffffffffff9a4a64u64);
    assert(entry_check(0xffffffffff9a4a64u64, 96, 0));
    assert(entry_check(0xffffffffff9a4a64u64, 96, 1));
    assert(entry_check(0xffffffffff9a4a64u64, 96, 2));
    assert(entry_check(0xffffffffff9a4a64u64, 96, 3));
    assert(entry_check(0xffffffffff9a4a64u64, 96, 4));
    assert(entry_check(0xffffffffff9a4a64u64, 96, 5));
    assert(entry_check(0xffffffffff9a4a64u64, 96, 6));
    assert(entry_check(0xffffffffff9a4a64u64, 96, 7));
    assert(entry_check(0xffffffffff9a4a64u64, 96, 8));
    assert(entry_check(0xffffffffff9a4a64u64, 96, 9));
    assert(entry_check(0xffffffffff9a4a64u64, 96, 10));
    assert(entry_check(0xffffffffff9a4a64u64, 96, 11));
    assert(entry_check(0xffffffffff9a4a64u64, 96, 12));
    assert(entry_check(0xffffffffff9a4a64u64, 96, 13));
    assert(entry_check(0xffffffffff9a4a64u64, 96, 14));
    assert(entry_check(0xffffffffff9a4a64u64, 96, 15));
    assert(triangle_check(0xffffffffff9a4a64u64, 96, 0));
    assert(triangle_check(0xffffffffff9a4a64u64, 96, 1));
    assert(triangle_check(0xffffffffff9a4a64u64, 96, 2));
    assert(triangle_check(0xffffffffff9a4a64u64, 96, 3));
    assert(triangle_check(0xffffffffff9a4a64u64, 96, 4));
    assert(edge_check(0xffffffffff9a4a64u64, 96, 0));
    assert(edge_check(0xffffffffff9a4a64u64, 96, 1));
    assert(edge_check(0xffffffffff9a4a64u64, 96, 2));
    assert(edge_check(0xffffffffff9a4a64u64, 96, 3));
    assert(edge_check(0xffffffffff9a4a64u64, 96, 4));
    assert(edge_check(0xffffffffff9a4a64u64, 96, 5));
    assert(edge_check(0xffffffffff9a4a64u64, 96, 6));
    assert(edge_check(0xffffffffff9a4a64u64, 96, 7));
    assert(edge_check(0xffffffffff9a4a64u64, 96, 8));
    assert(edge_check(0xffffffffff9a4a64u64, 96, 9));
    assert(edge_check(0xffffffffff9a4a64u64, 96, 10));
    assert(edge_check(0xffffffffff9a4a64u64, 96, 11));
}

#[verifier::spinoff_prover]
proof fn lemma_row_97()
    ensures
        row_checks(TRI_TABLE[97], 97),
{
    reveal(row_entry);
    reveal(faces_inward);
    reveal(dot);
    reveal(triangle_normal);
    reveal(corner_solid);
    reveal(entry_check);
    reveal(triangle_check);
    reveal(edge_check);
    assert(TRI_TABLE[97] == 0xfffffff9a4a64830u64);
    assert(entry_check(0xfffffff9a4a64830u64, 97, 0));
    assert(entry_check(0xfffffff9a4a64830u64, 97, 1));
    assert(entry_check(0xfffffff9a4a64830u64, 97, 2));
    assert(entry_check(0xfffffff9a4a64830u64, 97, 3));
    assert(entry_check(0xfffffff9a4a64830u64, 97, 4));
    assert(entry_check(0xfffffff9a4a64830u64, 97, 5));
    assert(entry_check(0xfffffff9a4a64830u64, 97, 6));
    assert(entry_check(0xfffffff9a4a64830u64, 97, 7));
    assert(entry_check(0xfffffff9a4a64830u64, 97, 8));
    assert(entry_check(0xfffffff9a4a64830u64, 97, 9));
    assert(entry_check(0xfffffff9a4a64830u64, 97, 10));
    assert(entry_check(0xfffffff9a4a64830u64, 97, 11));
    assert(entry_check(0xfffffff9a4a64830u64, 97, 12));
    assert(entry_check(0xfffffff9a4a64830u64, 97, 13));
    assert(entry_check(0xfffffff9a4a64830u64, 97, 14));
    assert(entry_check(0xfffffff9a4a64830u64, 97, 15));
    assert(triangle_check(0xfffffff9a4a64830u64, 97, 0));
    assert(triangle_check(0xfffffff9a4a64830u64, 97, 1));
    assert(triangle_check(0xfffffff9a4a64830u64, 97, 2));
    assert(triangle_check(0xfffffff9a4a64830u64, 97, 3));
    assert(triangle_check(0xfffffff9a4a64830u64, 97, 4));
    assert(edge_check(0xfffffff9a4a64830u64, 97, 0));
    assert(edge_check(0xfffffff9a4a64830u64, 97, 1));
    assert(edge_check(0xfffffff9a4a64830u64, 97, 2));
    assert(edge_check(0xfffffff9a4a64830u64, 97, 3));
    assert(edge_check(0xfffffff9a4a64830u64, 97, 4));
    assert(edge_check(0xfffffff9a4a64830u64, 97, 5));
    assert(edge_check(0xfffffff9a4a64830u64, 97, 6));
    assert(edge_check(0xfffffff9a4a64830u64, 97, 7));
    assert(edge_check(0xfffffff9a4a64830u64, 97, 8));
    assert(edge_check(0xfffffff9a4a64830u64, 97, 9));
    assert(edge_check(0xfffffff9a4a64830u64, 97, 10));
    assert(edge_check(0xfffffff9a4a64830u64, 97, 11));
}

#[verifier::spinoff_prover]
proof fn lemma_row_98()
    ensures
        row_checks(TRI_TABLE[98], 98),
{
    reveal(row_entry);
    reveal(faces_inward);
    reveal(dot);
    reveal(triangle_normal);
    reveal(corner_solid);
    reveal(entry_check);
    reveal(triangle_check);
    reveal(edge_check);
    assert(TRI_TABLE[98] == 0xfffffff4060161a6u64);
    assert(entry_check(0xfffffff4060161a6u64, 98, 0));
    assert(entry_check(0xfffffff4060161a6u64, 98, 1));
    assert(entry_check(0xfffffff4060161a6u64, 98, 2));
    assert(entry_check(0xfffffff4060161a6u64, 98, 3));
    assert(entry_check(0xfffffff4060161a6u64, 98, 4));
    assert(entry_check(0xfffffff4060161a6u64, 98, 5));
    assert(entry_check(0xfffffff4060161a6u64, 98, 6));
    assert(entry_check(0xfffffff4060161a6u64, 98, 7));
    assert(entry_check(0xfffffff4060161a6u64, 98, 8));
    assert(entry_check(0xfffffff4060161a6u64, 98, 9));
    assert(entry_check(0xfffffff4060161a6u64, 98, 10));
    assert(entry_check(0xfffffff4060161a6u64, 98, 11));
    assert(entry_check(0xfffffff4060161a6u64, 98, 12));
    assert(entry_check(0xfffffff4060161a6u64, 98, 13));
    assert(entry_check(0xfffffff4060161a6u64, 98, 14));
    assert(entry_check(0xfffffff4060161a6u64, 98, 15));
    assert(triangle_check(0xfffffff4060161a6u64, 98, 0));
    assert(triangle_check(0xfffffff4060161a6u64, 98, 1));
    assert(triangle_check(0xfffffff4060161a6u64, 98, 2));
    assert(triangle_check(0xfffffff4060161a6u64, 98, 3));
    assert(triangle_check(0xfffffff4060161a6u64, 98, 4));
    assert(edge_check(0xfffffff4060161a6u64, 98, 0));
    assert(edge_check(0xfffffff4060161a6u64, 98, 1));
    assert(edge_check(0xfffffff4060161a6u64, 98, 2));
    assert(edge_check(0xfffffff4060161a6u64, 98, 3));
    assert(edge_check(0xfffffff4060161a6u64, 98, 4));
    assert(edge_check(0xfffffff4060161a6u64, 98, 5));
    assert(edge_check(0xfffffff4060161a6u64, 98, 6));
    assert(edge_check(0xfffffff4060161a6u64, 98, 7));
    assert(edge_check(0xfffffff4060161a6u64, 98, 8));
    assert(edge_check(0xfffffff4060161a6u64, 98, 9));
    assert(edge_check(0xfffffff4060161a6u64, 98, 10));
    assert(edge_check(0xfffffff4060161a6u64, 98, 11));
}

#[verifier::spinoff_prover]
proof fn lemma_row_99()
    ensures
        row_checks(TRI_TABLE[99], 99),
{
    reveal(row_entry);
    reveal(faces_inward);
    reveal(dot);
    reveal(triangle_normal);
    reveal(corner_solid);
    reveal(entry_check);
    reveal(triangle_check);
    reveal(edge_check);
    assert(TRI_TABLE[99] == 0xffff1a3a63643483u64);
    assert(entry_check(0xffff1a3a63643483u64, 99, 0));
    assert(entry_check(0xffff1a3a63643483u64, 99, 1));
    assert(entry_check(0xffff1a3a63643483u64, 99, 2));
    assert(entry_check(0xffff1a3a63643483u64, 99, 3));
    assert(entry_check(0xffff1a3a63643483u64, 99, 4));
    assert(entry_check(0xffff1a3a63643483u64, 99, 5));
    assert(entry_check(0xffff1a3a63643483u64, 99, 6));
    assert(entry_check(0xffff1a3a63643483u64, 99, 7));
    assert(entry_check(0xffff1a3a63643483u64, 99, 8));
    assert(entry_check(0xffff1a3a63643483u64, 99, 9));
    assert(entry_check(0xffff1a3a63643483u64, 99, 10));
    assert(entry_check(0xffff1a3a63643483u64, 99, 11));
    assert(entry_check(0xffff1a3a63643483u64, 99, 12));
    assert(entry_check(0xffff1a3a63643483u64, 99, 13));
    assert(entry_check(0xffff1a3a63643483u64, 99, 14));
    assert(entry_check(0xffff1a3a63643483u64, 99, 15));
    assert(triangle_check(0xffff1a3a63643483u64, 99, 0));
    assert(triangle_check(0xffff1a3a63643483u64, 99, 1));
    assert(triangle_check(0xffff1a3a63643483u64, 99, 2));
    assert(triangle_check(0xffff1a3a63643483u64, 99, 3));
    assert(triangle_check(0xffff1a3a63643483u64, 99, 4));
    assert(edge_check(0xffff1a3a63643483u64, 99, 0));
    assert(edge_check(0xffff1a3a63643483u64, 99, 1));
    assert(edge_check(0xffff1a3a63643483u64, 99, 2));
    assert(edge_check(0xffff1a3a63643483u64, 99, 3));
    assert(edge_check(0xffff1a3a63643483u64, 99, 4));
    assert(edge_check(0xffff1a3a63643483u64, 99, 5));
    assert(edge_check(0xffff1a3a63643483u64, 99, 6));
    assert(edge_check(0xffff1a3a63643483u64, 99, 7));
    assert(edge_check(0xffff1a3a63643483u64, 99, 8));
    assert(edge_check(0xffff1a3a63643483u64, 99, 9));
    assert(edge_check(0xffff1a3a63643483u64, 99, 10));
    assert(edge_check(0xffff1a3a63643483u64, 99, 11));
}

#[verifier::spinoff_prover]
proof fn lemma_row_100()
    ensures
        row_checks(TRI_TABLE[100], 100),
{
    reveal(row_entry);
    reveal(faces_inward);
    reveal(dot);
    reveal(triangle_normal);
    reveal(corner_solid);
    reveal(entry_check);
    reveal(triangle_check);
    reveal(edge_check);
    assert(TRI_TABLE[100] == 0xfffffff914124264u64);
    assert(entry_check(0xfffffff914124264u64, 100, 0));
    assert(entry_check(0xfffffff914124264u64, 100, 1));
    assert(entry_check(0xfffffff914124264u64, 100, 2));
    assert(entry_check(0xfffffff914124264u64, 100, 3));
    assert(entry_check(0xfffffff914124264u64, 100, 4));
    assert(entry_check(0xfffffff914124264u64, 100, 5));
    assert(entry_check(0xfffffff914124264u64, 100, 6));
    assert(entry_check(0xfffffff914124264u64, 100, 7));
    assert(entry_check(0xfffffff914124264u64, 100, 8));
    assert(entry_check(0xfffffff914124264u64, 100, 9));
    assert(entry_check(0xfffffff914124264u64, 100, 10));
    assert(entry_check(0xfffffff914124264u64, 100, 11));
    assert(entry_check(0xfffffff914124264u64, 100, 12));
    assert(entry_check(0xfffffff914124264u64, 100, 13));
    assert(entry_check(0xfffffff914124264u64, 100, 14));
    assert(entry_check(0xfffffff914124264u64, 100, 15));
    assert(triangle_check(0xfffffff914124264u64, 100, 0));
    assert(triangle_check(0xfffffff914124264u64, 100, 1));
    assert(triangle_check(0xfffffff914124264u64, 100, 2));
    assert(triangle_check(0xfffffff914124264u64, 100, 3));
    assert(triangle_check(0xfffffff914124264u64, 100, 4));
    assert(edge_check(0xfffffff914124264u64, 100, 0));
    assert(edge_check(0xfffffff914124264u64, 100, 1));
    assert(edge_check(0xfffffff914124264u64, 100, 2));
    assert(edge_check(0xfffffff914124264u64, 100, 3));
    assert(edge_check(0xfffffff914124264u64, 100, 4));
    assert(edge_check(0xfffffff914124264u64, 100, 5));
    assert(edge_check(0xfffffff914124264u64, 100, 6));
    assert(edge_check(0xfffffff914124264u64, 100, 7));
    assert(edge_check(0xfffffff914124264u64, 100, 8));
    assert(edge_check(0xfffffff914124264u64, 100, 9));
    assert(edge_check(0xfffffff914124264u64, 100, 10));
    assert(edge_check(0xfffffff914124264u64, 100, 11));
}

#[verifier::spinoff_prover]
proof fn lemma_row_101()
    ensures
        row_checks(TRI_TABLE[101], 101),
{
    reveal(row_entry);
    reveal(faces_inward);
    reveal(dot);
    reveal(triangle_normal);
    reveal(corner_solid);
    reveal(entry_check);
    reveal(triangle_check);
    reveal(edge_check);
    assert(TRI_TABLE[101] == 0xffff914124264830u64);
    assert(entry_check(0xffff914124264830u64, 101, 0));
    assert(entry_check(0xffff914124264830u64, 101, 1));
    assert(entry_check(0xffff914124264830u64, 101, 2));
    assert(entry_check(0xffff914124264830u64, 101, 3));
    assert(entry_check(0xffff914124264830u64, 101, 4));
    assert(entry_check(0xffff914124264830u64, 101, 5));
    assert(entry_check(0xffff914124264830u64, 101, 6));
    assert(entry_check(0xffff914124264830u64, 101, 7));
    assert(entry_check(0xffff914124264830u64, 101, 8));
    assert(entry_check(0xffff914124264830u64, 101, 9));
    assert(entry_check(0xffff914124264830u64, 101, 10));
    assert(entry_check(0xffff914124264830u64, 101, 11));
    assert(entry_check(0xffff914124264830u64, 101, 12));
    assert(entry_check(0xffff914124264830u64, 101, 13));
    assert(entry_check(0xffff914124264830u64, 101, 14));
    assert(entry_check(0xffff914124264830u64, 101, 15));
    assert(triangle_check(0xffff914124264830u64, 101, 0));
    assert(triangle_check(0xffff914124264830u64, 101, 1));
    assert(triangle_check(0xffff914124264830u64, 101, 2));
    assert(triangle_check(0xffff914124264830u64, 101, 3));
    assert(triangle_check(0xffff914124264830u64, 101, 4));
    assert(edge_check(0xffff914124264830u64, 101, 0));
    assert(edge_check(0xffff914124264830u64, 101, 1));
    assert(edge_check(0xffff914124264830u64, 101, 2));
    assert(edge_check(0xffff914124264830u64, 101, 3));
    assert(edge_check(0xffff914124264830u64, 101, 4));
    assert(edge_check(0xffff914124264830u64, 101, 5));
    assert(edge_check(0xffff914124264830u64, 101, 6));
    assert(edge_check(0xffff914124264830u64, 101, 7));
    assert(edge_check(0xffff914124264830u64, 101, 8));
    assert(edge_check(0xffff914124264830u64, 101, 9));
    assert(edge_check(0xffff914124264830u64, 101, 10));
    assert(edge_check(0xffff914124264830u64, 101, 11));
}

#[verifier::spinoff_prover]
proof fn lemma_row_102()
    ensures
        row_checks(TRI_TABLE[102], 102),
{
    reveal(row_entry);
    reveal(faces_inward);
    reveal(dot);
    reveal(triangle_normal);
    reveal(corner_solid);
    reveal(entry_check);
    reveal(triangle_check);
    reveal(edge_check);
    assert(TRI_TABLE[102] == 0xffffffffff024264u64);
    assert(entry_check(0xffffffffff024264u64, 102, 0));
    assert(entry_check(0xffffffffff024264u64, 102, 1));
    assert(entry_check(0xffffffffff024264u64, 102, 2));
    assert(entry_check(0xffffffffff024264u64, 102, 3));
    assert(entry_check(0xffffffffff024264u64, 102, 4));
    assert(entry_check(0xffffffffff024264u64, 102, 5));
    assert(entry_check(0xffffffffff024264u64, 102, 6));
    assert(entry_check(0xffffffffff024264u64, 102, 7));
    assert(entry_check(0xffffffffff024264u64, 102, 8));
    assert(entry_check(0xffffffffff024264u64, 102, 9));
    assert(entry_check(0xffffffffff024264u64, 102, 10));
    assert(entry_check(0xffffffffff024264u64, 102, 11));
    assert(entry_check(0xffffffffff024264u64, 102, 12));
    assert(entry_check(0xffffffffff024264u64, 102, 13));
    assert(entry_check(0xffffffffff024264u64, 102, 14));
    assert(entry_check(0xffffffffff024264u64, 102, 15));
    assert(triangle_check(0xffffffffff024264u64, 102, 0));
    assert(triangle_check(0xffffffffff024264u64, 102, 1));
    assert(triangle_check(0xffffffffff024264u64, 102, 2));
    assert(triangle_check(0xffffffffff024264u64, 102, 3));
    assert(triangle_check(0xffffffffff024264u64, 102, 4));
    assert(edge_check(0xffffffffff024264u64, 102, 0));
    assert(edge_check(0xffffffffff024264u64, 102, 1));
    assert(edge_check(0xffffffffff024264u64, 102, 2));
    assert(edge_check(0xffffffffff024264u64, 102, 3));
    assert(edge_check(0xffffffffff024264u64, 102, 4));
    assert(edge_check(0xffffffffff024264u64, 102, 5));
    assert(edge_check(0xffffffffff024264u64, 102, 6));
    assert(edge_check(0xffffffffff024264u64, 102, 7));
    assert(edge_check(0xffffffffff024264u64, 102, 8));
    assert(edge_check(0xffffffffff024264u64, 102, 9));
    assert(edge_check(0xffffffffff024264u64, 102, 10));
    assert(edge_check(0xffffffffff024264u64, 102, 11));
}

#[verifier::spinoff_prover]
proof fn lemma_row_103()
    ensures
        row_checks(TRI_TABLE[103], 103),
{
    reveal(row_entry);
    reveal(faces_inward);
    reveal(dot);
    reveal(triangle_normal);
    reveal(corner_solid);
    reveal(entry_check);
    reveal(triangle_check);
    reveal(edge_check);
    assert(TRI_TABLE[103] == 0xfffffff642482832u64);
    assert(entry_check(0xfffffff642482832u64, 103, 0));
    assert(entry_check(0xfffffff642482832u64, 103, 1));
    assert(entry_check(0xfffffff642482832u64, 103, 2));
    assert(entry_check(0xfffffff642482832u64, 103, 3));
    assert(entry_check(0xfffffff642482832u64, 103, 4));
    assert(entry_check(0xfffffff642482832u64, 103, 5));
    assert(entry_check(0xfffffff642482832u64, 103, 6));
    assert(entry_check(0xfffffff642482832u64, 103, 7));
    assert(entry_check(0xfffffff642482832u64, 103, 8));
    assert(entry_check(0xfffffff642482832u64, 103, 9));
    assert(entry_check(0xfffffff642482832u64, 103, 10));
    assert(entry_check(0xfffffff642482832u64, 103, 11));
    assert(entry_check(0xfffffff642482832u64, 103, 12));
    assert(entry_check(0xfffffff642482832u64, 103, 13));
    assert(entry_check(0xfffffff642482832u64, 103, 14));
    assert(entry_check(0xfffffff642482832u64, 103, 15));
    assert(triangle_check(0xfffffff642482832u64, 103, 0));
    assert(triangle_check(0xfffffff642482832u64, 103, 1));
    assert(triangle_check(0xfffffff642482832u64, 103, 2));
    assert(triangle_check(0xfffffff642482832u64, 103, 3));
    assert(triangle_check(0xfffffff642482832u64, 103, 4));
    assert(edge_check(0xfffffff642482832u64, 103, 0));
    assert(edge_check(0xfffffff642482832u64, 103, 1));
    assert(edge_check(0xfffffff642482832u64, 103, 2));
    assert(edge_check(0xfffffff642482832u64, 103, 3));
    assert(edge_check(0xfffffff642482832u64, 103, 4));
    assert(edge_check(0xfffffff642482832u64, 103, 5));
    assert(edge_check(0xfffffff642482832u64, 103, 6));
    assert(edge_check(0xfffffff642482832u64, 103, 7));
    assert(edge_check(0xfffffff642482832u64, 103, 8));
    assert(edge_check(0xfffffff642482832u64, 103, 9));
    assert(edge_check(0xfffffff642482832u64, 103, 10));
    assert(edge_check(0xfffffff642482832u64, 103, 11));
}

#[verifier::spinoff_prover]
proof fn lemma_row_104()
    ensures
        row_checks(TRI_TABLE[104], 104),
{
    reveal(row_entry);
    reveal(faces_inward);
    reveal(dot);
    reveal(triangle_normal);
    reveal(corner_solid);
    reveal(entry_check);
    reveal(triangle_check);
    reveal(edge_check);
    assert(TRI_TABLE[104] == 0xfffffff9a4a6423bu64);
    assert(entry_check(0xfffffff9a4a6423bu64, 104, 0));
    assert(entry_check(0xfffffff9a4a6423bu64, 104, 1));
    assert(entry_check(0xfffffff9a4a6423bu64, 104, 2));
    assert(entry_check(0xfffffff9a4a6423bu64, 104, 3));
    assert(entry_check(0xfffffff9a4a6423bu64, 104, 4));
    assert(entry_check(0xfffffff9a4a6423bu64, 104, 5));
    assert(entry_check(0xfffffff9a4a6423bu64, 104, 6));
    assert(entry_check(0xfffffff9a4a6423bu64, 104, 7));
    assert(entry_check(0xfffffff9a4a6423bu64, 104, 8));
    assert(entry_check(0xfffffff9a4a6423bu64, 104, 9));
    assert(entry_check(0xfffffff9a4a6423bu64, 104, 10));
    assert(entry_check(0xfffffff9a4a6423bu64, 104, 11));
    assert(entry_check(0xfffffff9a4a6423bu64, 104, 12));
    assert(entry_check(0xfffffff9a4a6423bu64, 104, 13));
    assert(entry_check(0xfffffff9a4a6423bu64, 104, 14));
    assert(entry_check(0xfffffff9a4a6423bu64, 104, 15));
    assert(triangle_check(0xfffffff9a4a6423bu64, 104, 0));
    assert(triangle_check(0xfffffff9a4a6423bu64, 104, 1));
    assert(triangle_check(0xfffffff9a4a6423bu64, 104, 2));
    assert(triangle_check(0xfffffff9a4a6423bu64, 104, 3));
    assert(triangle_check(0xfffffff9a4a6423bu64, 104, 4));
    assert(edge_check(0xfffffff9a4a6423bu64, 104, 0));
    assert(edge_check(0xfffffff9a4a6423bu64, 104, 1));
    assert(edge_check(0xfffffff9a4a6423bu64, 104, 2));
    assert(edge_check(0xfffffff9a4a6423bu64, 104, 3));
    assert(edge_check(0xfffffff9a4a6423bu64, 104, 4));
    assert(edge_check(0xfffffff9a4a6423bu64, 104, 5));
    assert(edge_check(0xfffffff9a4a6423bu64, 104, 6));
    assert(edge_check(0xfffffff9a4a6423bu64, 104, 7));
    assert(edge_check(0xfffffff9a4a6423bu64, 104, 8));
    assert(edge_check(0xfffffff9a4a6423bu64, 104, 9));
    assert(edge_check(0xfffffff9a4a6423bu64, 104, 10));
    assert(edge_check(0xfffffff9a4a6423bu64, 104, 11));
}

#[verifier::spinoff_prover]
proof fn lemma_row_105()
    ensures
        row_checks(TRI_TABLE[105], 105),
{
    reveal(row_entry);
    reveal(faces_inward);
    reveal(dot);
    reveal(triangle_normal);
    reveal(corner_solid);
    reveal(entry_check);
    reveal(triangle_check);
    reveal(edge_check);
    assert(TRI_TABLE[105] == 0xffff9a4a648b0b20u64);
    assert(entry_check(0xffff9a4a648b0b20u64, 105, 0));
    assert(entry_check(0xffff9a4a648b0b20u64, 105, 1));
    assert(entry_check(0xffff9a4a648b0b20u64, 105, 2));
    assert(entry_check(0xffff9a4a648b0b20u64, 105, 3));
    assert(entry_check(0xffff9a4a648b0b20u64, 105, 4));
    assert(entry_check(0xffff9a4a648b0b20u64, 105, 5));
    assert(entry_check(0xffff9a4a648b0b20u64, 105, 6));
    assert(entry_check(0xffff9a4a648b0b20u64, 105, 7));
    assert(entry_check(0xffff9a4a648b0b20u64, 105, 8));
    assert(entry_check(0xffff9a4a648b0b20u64, 105, 9));
    assert(entry_check(0xffff9a4a648b0b20u64, 105, 10));
    assert(entry_check(0xffff9a4a648b0b20u64, 105, 11));
    assert(entry_check(0xffff9a4a648b0b20u64, 105, 12));
    assert(entry_check(0xffff9a4a648b0b20u64, 105, 13));
    assert(entry_check(0xffff9a4a648b0b20u64, 105, 14));
    assert(entry_check(0xffff9a4a648b0b20u64, 105, 15));
    assert(triangle_check(0xffff9a4a648b0b20u64, 105, 0));
    assert(triangle_check(0xffff9a4a648b0b20u64, 105, 1));
    assert(triangle_check(0xffff9a4a648b0b20u64, 105, 2));
    assert(triangle_check(0xffff9a4a648b0b20u64, 105, 3));
    assert(triangle_check(0xffff9a4a648b0b20u64, 105, 4));
    assert(edge_check(0xffff9a4a648b0b20u64, 105, 0));
    assert(edge_check(0xffff9a4a648b0b20u64, 105, 1));
    assert(edge_check(0xffff9a4a648b0b20u64, 105, 2));
    assert(edge_check(0xffff9a4a648b0b20u64, 105, 3));
    assert(edge_check(0xffff9a4a648b0b20u64, 105, 4));
    assert(edge_check(0xffff9a4a648b0b20u64, 105, 5));
    assert(edge_check(0xffff9a4a648b0b20u64, 105, 6));
    assert(edge_check(0xffff9a4a648b0b20u64, 105, 7));
    assert(edge_check(0xffff9a4a648b0b20u64, 105, 8));
    assert(edge_check(0xffff9a4a648b0b20u64, 105, 9));
    assert(edge_check(0xffff9a4a648b0b20u64, 105, 10));
    assert(edge_check(0xffff9a4a648b0b20u64, 105, 11));
}

#[verifier::spinoff_prover]
proof fn lemma_row_106()
    ensures
        row_checks(TRI_TABLE[106], 106),
{
    reveal(row_entry);
    reveal(faces_inward);
    reveal(dot);
    reveal(triangle_normal);
    reveal(corner_solid);
    reveal(entry_check);
    reveal(triangle_check);
    reveal(edge_check);
    assert(TRI_TABLE[106] == 0xffff23b4060161a6u64);
    assert(entry_check(0xffff23b4060161a6u64, 106, 0));
    assert(entry_check(0xffff23b4060161a6u64, 106, 1));
    assert(entry_check(0xffff23b4060161a6u64, 106, 2));
    assert(entry_check(0xffff23b4060161a6u64, 106, 3));
    assert(entry_check(0xffff23b4060161a6u64, 106, 4));
    assert(entry_check(0xffff23b4060161a6u64, 106, 5));
    assert(entry_check(0xffff23b4060161a6u64, 106, 6));
    assert(entry_check(0xffff23b4060161a6u64, 106, 7));
    assert(entry_check(0xffff23b4060161a6u64, 106, 8));
    assert(entry_check(0xffff23b4060161a6u64, 106, 9));
    assert(entry_check(0xffff23b4060161a6u64, 106, 10));
    assert(entry_check(0xffff23b4060161a6u64, 106, 11));
    assert(entry_check(0xffff23b4060161a6u64, 106, 12));
    assert(entry_check(0xffff23b4060161a6u64, 106, 13));
    assert(entry_check(0xffff23b4060161a6u64, 106, 14));
    assert(entry_check(0xffff23b4060161a6u64, 106, 15));
    assert(triangle_check(0xffff23b4060161a6u64, 106, 0));
    assert(triangle_check(0xffff23b4060161a6u64, 106, 1));
    assert(triangle_check(0xffff23b4060161a6u64, 106, 2));
    assert(triangle_check(0xffff23b4060161a6u64, 106, 3));
    assert(triangle_check(0xffff23b4060161a6u64, 106, 4));
    assert(edge_check(0xffff23b4060161a6u64, 106, 0));
    assert(edge_check(0xffff23b4060161a6u64, 106, 1));
    assert(edge_check(0xffff23b4060161a6u64, 106, 2));
    assert(edge_check(0xffff23b4060161a6u64, 106, 3));
    assert(edge_check(0xffff23b4060161a6u64, 106, 4));
    assert(edge_check(0xffff23b4060161a6u64, 106, 5));
    assert(edge_check(0xffff23b4060161a6u64, 106, 6));
    assert(edge_check(0xffff23b4060161a6u64, 106, 7));
    assert(edge_check(0xffff23b4060161a6u64, 106, 8));
    assert(edge_check(0xffff23b4060161a6u64, 106, 9));
    assert(edge_check(0xffff23b4060161a6u64, 106, 10));
    assert(edge_check(0xffff23b4060161a6u64, 106, 11));
}

#[verifier::spinoff_prover]
proof fn lemma_row_107()
    ensures
        row_checks(TRI_TABLE[107], 107),
{
    reveal(row_entry);
    reveal(faces_inward);
    reveal(dot);
    reveal(triangle_normal);
    reveal(corner_solid);
    reveal(entry_check);
    reveal(triangle_check);
    reveal(edge_check);
    assert(TRI_TABLE[107] == 0xfa616414818b1b21u64);
    assert(entry_check(0xfa616414818b1b21u64, 107, 0));
    assert(entry_check(0xfa616414818b1b21u64, 107, 1));
    assert(entry_check(0xfa616414818b1b21u64, 107, 2));
    assert(entry_check(0xfa616414818b1b21u64, 107, 3));
    assert(entry_check(0xfa616414818b1b21u64, 107, 4));
    assert(entry_check(0xfa616414818b1b21u64, 107, 5));
    assert(entry_check(0xfa616414818b1b21u64, 107, 6));
    assert(entry_check(0xfa616414818b1b21u64, 107, 7));
    assert(entry_check(0xfa616414818b1b21u64, 107, 8));
    assert(entry_check(0xfa616414818b1b21u64, 107, 9));
    assert(entry_check(0xfa616414818b1b21u64, 107, 10));
    assert(entry_check(0xfa616414818b1b21u64, 107, 11));
    assert(entry_check(0xfa616414818b1b21u64, 107, 12));
    assert(entry_check(0xfa616414818b1b21u64, 107, 13));
    assert(entry_check(0xfa616414818b1b21u64, 107, 14));
    assert(entry_check(0xfa616414818b1b21u64, 107, 15));
    assert(triangle_check(0xfa616414818b1b21u64, 107, 0));
    assert(triangle_check(0xfa616414818b1b21u64, 107, 1));
    assert(triangle_check(0xfa616414818b1b21u64, 107, 2));
    assert(triangle_check(0xfa616414818b1b21u64, 107, 3));
    assert(triangle_check(0xfa616414818b1b21u64, 107, 4));
    assert(edge_check(0xfa616414818b1b21u64, 107, 0));
    assert(edge_check(0xfa616414818b1b21u64, 107, 1));
    assert(edge_check(0xfa616414818b1b21u64, 107, 2));
    assert(edge_check(0xfa616414818b1b21u64, 107, 3));
    assert(edge_check(0xfa616414818b1b21u64, 107, 4));
    assert(edge_check(0xfa616414818b1b21u64, 107, 5));
    assert(edge_check(0xfa616414818b1b21u64, 107, 6));
    assert(edge_check(0xfa616414818b1b21u64, 107, 7));
    assert(edge_check(0xfa616414818b1b21u64, 107, 8));
    assert(edge_check(0xfa616414818b1b21u64, 107, 9));
    assert(edge_check(0xfa616414818b1b21u64, 107, 10));
    assert(edge_check(0xfa616414818b1b21u64, 107, 11));
}

#[verifier::spinoff_prover]
proof fn lemma_row_108()
    ensures
        row_checks(TRI_TABLE[108], 108),
{
    reveal(row_entry);
    reveal(faces_inward);
    reveal(dot);
    reveal(triangle_normal);
    reveal(corner_solid);
    reveal(entry_check);
    reveal(triangle_check);
    reveal(edge_check);
    assert(TRI_TABLE[108] == 0xffff3b1b61641491u64);
    assert(entry_check(0xffff3b1b61641491u64, 108, 0));
    assert(entry_check(0xffff3b1b61641491u64, 108, 1));
    assert(entry_check(0xffff3b1b61641491u64, 108, 2));
    assert(entry_check(0xffff3b1b61641491u64, 108, 3));
    assert(entry_check(0xffff3b1b61641491u64, 108, 4));
    assert(entry_check(0xffff3b1b61641491u64, 108, 5));
    assert(entry_check(0xffff3b1b61641491u64, 108, 6));
    assert(entry_check(0xffff3b1b61641491u64, 108, 7));
    assert(entry_check(0xffff3b1b61641491u64, 108, 8));
    assert(entry_check(0xffff3b1b61641491u64, 108, 9));
    assert(entry_check(0xffff3b1b61641491u64, 108, 10));
    assert(entry_check(0xffff3b1b61641491u64, 108, 11));
    assert(entry_check(0xffff3b1b61641491u64, 108, 12));
    assert(entry_check(0xffff3b1b61641491u64, 108, 13));
    assert(entry_check(0xffff3b1b61641491u64, 108, 14));
    assert(entry_check(0xffff3b1b61641491u64, 108, 15));
    assert(triangle_check(0xffff3b1b61641491u64, 108, 0));
    assert(triangle_check(0xffff3b1b61641491u64, 108, 1));
    assert(triangle_check(0xffff3b1b61641491u64, 108, 2));
    assert(triangle_check(0xffff3b1b61641491u64, 108, 3));
    assert(triangle_check(0xffff3b1b61641491u64, 108, 4));
    assert(edge_check(0xffff3b1b61641491u64, 108, 0));
    assert(edge_check(0xffff3b1b61641491u64, 108, 1));
    assert(edge_check(0xffff3b1b61641491u64, 108, 2));
    assert(edge_check(0xffff3b1b61641491u64, 108, 3));
    assert(edge_check(0xffff3b1b61641491u64, 108, 4));
    assert(edge_check(0xffff3b1b61641491u64, 108, 5));
    assert(edge_check(0xffff3b1b61641491u64, 108, 6));
    assert(edge_check(0xffff3b1b61641491u64, 108, 7));
    assert(edge_check(0xffff3b1b61641491u64, 108, 8));
    assert(edge_check(0xffff3b1b61641491u64, 108, 9));
    assert(edge_check(0xffff3b1b61641491u64, 108, 10));
    assert(edge_check(0xffff3b1b61641491u64, 108, 11));
}

#[verifier::spinoff_prover]
proof fn lemma_row_109()
    ensures
        row_checks(TRI_TABLE[109], 109),
{
    reveal(row_entry);
    reveal(faces_inward);
    reveal(dot);
    reveal(triangle_normal);
    reveal(corner_solid);
    reveal(entry_check);
    reveal(triangle_check);
    reveal(edge_check);
    assert(TRI_TABLE[109] == 0xf0818b1b61641491u64);
    assert(entry_check(0xf0818b1b61641491u64, 109, 0));
    assert(entry_check(0xf0818b1b61641491u64, 109, 1));
    assert(entry_check(0xf0818b1b61641491u64, 109, 2));
    assert(entry_check(0xf0818b1b61641491u64, 109, 3));
    assert(entry_check(0xf0818b1b61641491u64, 109, 4));
    assert(entry_check(0xf0818b1b61641491u64, 109, 5));
    assert(entry_check(0xf0818b1b61641491u64, 109, 6));
    assert(entry_check(0xf0818b1b61641491u64, 109, 7));
    assert(entry_check(0xf0818b1b61641491u64, 109, 8));
    assert(entry_check(0xf0818b1b61641491u64, 109, 9));
    assert(entry_check(0xf0818b1b61641491u64, 109, 10));
    assert(entry_check(0xf0818b1b61641491u64, 109, 11));
    assert(entry_check(0xf0818b1b61641491u64, 109, 12));
    assert(entry_check(0xf0818b1b61641491u64, 109, 13));
    assert(entry_check(0xf0818b1b61641491u64, 109, 14));
    assert(entry_check(0xf0818b1b61641491u64, 109, 15));
    assert(triangle_check(0xf0818b1b61641491u64, 109, 0));
    assert(triangle_check(0xf0818b1b61641491u64, 109, 1));
    assert(triangle_check(0xf0818b1b61641491u64, 109, 2));
    assert(triangle_check(0xf0818b1b61641491u64, 109, 3));
    assert(triangle_check(0xf0818b1b61641491u64, 109, 4));
    assert(edge_check(0xf0818b1b61641491u64, 109, 0));
    assert(edge_check(0xf0818b1b61641491u64, 109, 1));
    assert(edge_check(0xf0818b1b61641491u64, 109, 2));
    assert(edge_check(0xf0818b1b61641491u64, 109, 3));
    assert(edge_check(0xf0818b1b61641491u64, 109, 4));
    assert(edge_check(0xf0818b1b61641491u64, 109, 5));
    assert(edge_check(0xf0818b1b61641491u64, 109, 6));
    assert(edge_check(0xf0818b1b61641491u64, 109, 7));
    assert(edge_check(0xf0818b1b61641491u64, 109, 8));
    assert(edge_check(0xf0818b1b61641491u64, 109, 9));
    assert(edge_check(0xf0818b1b61641491u64, 109, 10));
    assert(edge_check(0xf0818b1b61641491u64, 109, 11));
}

#[verifier::spinoff_prover]
proof fn lemma_row_110()
    ensures
        row_checks(TRI_TABLE[110], 110),
{
    reveal(row_entry);
    reveal(faces_inward);
    reveal(dot);
    reveal(triangle_normal);
    reveal(corner_solid);
    reveal(entry_check);
    reveal(triangle_check);
    reveal(edge_check);
    assert(TRI_TABLE[110] == 0xfffffff4060363b6u64);
    assert(entry_check(0xfffffff4060363b6u64, 110, 0));
    assert(entry_check(0xfffffff4060363b6u64, 110, 1));
    assert(entry_check(0xfffffff4060363b6u64, 110, 2));
    assert(entry_check(0xfffffff4060363b6u64, 110, 3));
    assert(entry_check(0xfffffff4060363b6u64, 110, 4));
    assert(entry_check(0xfffffff4060363b6u64, 110, 5));
    assert(entry_check(0xfffffff4060363b6u64, 110, 6));
    assert(entry_check(0xfffffff4060363b6u64, 110, 7));
    assert(entry_check(0xfffffff4060363b6u64, 110, 8));
    assert(entry_check(0xfffffff4060363b6u64, 110, 9));
    assert(entry_check(0xfffffff4060363b6u64, 110, 10));
    assert(entry_check(0xfffffff4060363b6u64, 110, 11));
    assert(entry_check(0xfffffff4060363b6u64, 110, 12));
    assert(entry_check(0xfffffff4060363b6u64, 110, 13));
    assert(entry_check(0xfffffff4060363b6u64, 110, 14));
    assert(entry_check(0xfffffff4060363b6u64, 110, 15));
    assert(triangle_check(0xfffffff4060363b6u64, 110, 0));
    assert(triangle_check(0xfffffff4060363b6u64, 110, 1));
    assert(triangle_check(0xfffffff4060363b6u64, 110, 2));
    assert(triangle_check(0xfffffff4060363b6u64, 110, 3));
    assert(triangle_check(0xfffffff4060363b6u64, 110, 4));
    assert(edge_check(0xfffffff4060363b6u64, 110, 0));
    assert(edge_check(0xfffffff4060363b6u64, 110, 1));
    assert(edge_check(0xfffffff4060363b6u64, 110, 2));
    assert(edge_check(0xfffffff4060363b6u64, 110, 3));
    assert(edge_check(0xfffffff4060363b6u64, 110, 4));
    assert(edge_check(0xfffffff4060363b6u64, 110, 5));
    assert(edge_check(0xfffffff4060363b6u64, 110, 6));
    assert(edge_check(0xfffffff4060363b6u64, 110, 7));
    assert(edge_check(0xfffffff4060363b6u64, 110, 8));
    assert(edge_check(0xfffffff4060363b6u64, 110, 9));
    assert(edge_check(0xfffffff4060363b6u64, 110, 10));
    assert(edge_check(0xfffffff4060363b6u64, 110, 11));
}

#[verifier::spinoff_prover]
proof fn lemma_row_111()
    ensures
        row_checks(TRI_TABLE[111], 111),
{
    reveal(row_entry);
    reveal(faces_inward);
    reveal(dot);
    reveal(triangle_normal);
    reveal(corner_solid);
    reveal(entry_check);
    reveal(triangle_check);
    reveal(edge_check);
    assert(TRI_TABLE[111] == 0xffffffffff8b4b64u64);
    assert(entry_check(0xffffffffff8b4b64u64, 111, 0));
    assert(entry_check(0xffffffffff8b4b64u64, 111, 1));
    assert(entry_check(0xffffffffff8b4b64u64, 111, 2));
    assert(entry_check(0xffffffffff8b4b64u64, 111, 3));
    assert(entry_check(0xffffffffff8b4b64u64, 111, 4));
    assert(entry_check(0xffffffffff8b4b64u64, 111, 5));
    assert(entry_check(0xffffffffff8b4b64u64, 111, 6));
    assert(entry_check(0xffffffffff8b4b64u64, 111, 7));
    assert(entry_check(0xffffffffff8b4b64u64, 111, 8));
    assert(entry_check(0xffffffffff8b4b64u64, 111, 9));
    assert(entry_check(0xffffffffff8b4b64u64, 111, 10));
    assert(entry_check(0xffffffffff8b4b64u64, 111, 11));
    assert(entry_check(0xffffffffff8b4b64u64, 111, 12));
    assert(entry_check(0xffffffffff8b4b64u64, 111, 13));
    assert(entry_check(0xffffffffff8b4b64u64, 111, 14));
    assert(entry_check(0xffffffffff8b4b64u64, 111, 15));
    assert(triangle_check(0xffffffffff8b4b64u64, 111, 0));
    assert(triangle_check(0xffffffffff8b4b64u64, 111, 1));
    assert(triangle_check(0xffffffffff8b4b64u64, 111, 2));
    assert(triangle_check(0xffffffffff8b4b64u64, 111, 3));
    assert(triangle_check(0xffffffffff8b4b64u64, 111, 4));
    assert(edge_check(0xffffffffff8b4b64u64, 111, 0));
    assert(edge_check(0xffffffffff8b4b64u64, 111, 1));
    assert(edge_check(0xffffffffff8b4b64u64, 111, 2));
    assert(edge_check(0xffffffffff8b4b64u64, 111, 3));
    assert(edge_check(0xffffffffff8b4b64u64, 111, 4));
    assert(edge_check(0xffffffffff8b4b64u64, 111, 5));
    assert(edge_check(0xffffffffff8b4b64u64, 111, 6));
    assert(edge_check(0xffffffffff8b4b64u64, 111, 7));
    assert(edge_check(0xffffffffff8b4b64u64, 111, 8));
    assert(edge_check(0xffffffffff8b4b64u64, 111, 9));
    assert(edge_check(0xffffffffff8b4b64u64, 111, 10));
    assert(edge_check(0xffffffffff8b4b64u64, 111, 11));
}

#[verifier::spinoff_prover]
proof fn lemma_row_112()
    ensures
        row_checks(TRI_TABLE[112], 112),
{
    reveal(row_entry);
    reveal(faces_inward);
    reveal(dot);
    reveal(triangle_normal);
    reveal(corner_solid);
    reveal(entry_check);
    reveal(triangle_check);
    reveal(edge_check);
    assert(TRI_TABLE[112] == 0xfffffff67a78a89au64);
    assert(entry_check(0xfffffff67a78a89au64, 112, 0));
    assert(entry_check(0xfffffff67a78a89au64, 112, 1));
    assert(entry_check(0xfffffff67a78a89au64, 112, 2));
    assert(entry_check(0xfffffff67a78a89au64, 112, 3));
    assert(entry_check(0xfffffff67a78a89au64, 112, 4));
    assert(entry_check(0xfffffff67a78a89au64, 112, 5));
    assert(entry_check(0xfffffff67a78a89au64, 112, 6));
    assert(entry_check(0xfffffff67a78a89au64, 112, 7));
    assert(entry_check(0xfffffff67a78a89au64, 112, 8));
    assert(entry_check(0xfffffff67a78a89au64, 112, 9));
    assert(entry_check(0xfffffff67a78a89au64, 112, 10));
    assert(entry_check(0xfffffff67a78a89au64, 112, 11));
    assert(entry_check(0xfffffff67a78a89au64, 112, 12));
    assert(entry_check(0xfffffff67a78a89au64, 112, 13));
    assert(entry_check(0xfffffff67a78a89au64, 112, 14));
    assert(entry_check(0xfffffff67a78a89au64, 112, 15));
    assert(triangle_check(0xfffffff67a78a89au64, 112, 0));
    assert(triangle_check(0xfffffff67a78a89au64, 112, 1));
    assert(triangle_check(0xfffffff67a78a89au64, 112, 2));
    assert(triangle_check(0xfffffff67a78a89au64, 112, 3));
    assert(triangle_check(0xfffffff67a78a89au64, 112, 4));
    assert(edge_check(0xfffffff67a78a89au64, 112, 0));
    assert(edge_check(0xfffffff67a78a89au64, 112, 1));
    assert(edge_check(0xfffffff67a78a89au64, 112, 2));
    assert(edge_check(0xfffffff67a78a89au64, 112, 3));
    assert(edge_check(0xfffffff67a78a89au64, 112, 4));
    assert(edge_check(0xfffffff67a78a89au64, 112, 5));
    assert(edge_check(0xfffffff67a78a89au64, 112, 6));
    assert(edge_check(0xfffffff67a78a89au64, 112, 7));
    assert(edge_check(0xfffffff67a78a89au64, 112, 8));
    assert(edge_check(0xfffffff67a78a89au64, 112, 9));
    assert(edge_check(0xfffffff67a78a89au64, 112, 10));
    assert(edge_check(0xfffffff67a78a89au64, 112, 11));
}

#[verifier::spinoff_prover]
proof fn lemma_row_113()
    ensures
        row_checks(TRI_TABLE[113], 113),
{
    reveal(row_entry);
    reveal(faces_inward);
    reveal(dot);
    reveal(triangle_normal);
    reveal(corner_solid);
    reveal(entry_check);
    reveal(triangle_check);
    reveal(edge_check);
    assert(TRI_TABLE[113] == 0xffff0939a3a63673u64);
    assert(entry_check(0xffff0939a3a63673u64, 113, 0));
    assert(entry_check(0xffff0939a3a63673u64, 113, 1));
    assert(entry_check(0xffff0939a3a63673u64, 113, 2));
    assert(entry_check(0xffff0939a3a63673u64, 113, 3));
    assert(entry_check(0xffff0939a3a63673u64, 113, 4));
    assert(entry_check(0xffff0939a3a63673u64, 113, 5));
    assert(entry_check(0xffff0939a3a63673u64, 113, 6));
    assert(entry_check(0xffff0939a3a63673u64, 113, 7));
    assert(entry_check(0xffff0939a3a63673u64, 113, 8));
    assert(entry_check(0xffff0939a3a63673u64, 113, 9));
    assert(entry_check(0xffff0939a3a63673u64, 113, 10));
    assert(entry_check(0xffff0939a3a63673u64, 113, 11));
    assert(entry_check(0xffff0939a3a63673u64, 113, 12));
    assert(entry_check(0xffff0939a3a63673u64, 113, 13));
    assert(entry_check(0xffff0939a3a63673u64, 113, 14));
    assert(entry_check(0xffff0939a3a63673u64, 113, 15));
    assert(triangle_check(0xffff0939a3a63673u64, 113, 0));
    assert(triangle_check(0xffff0939a3a63673u64, 113, 1));
    assert(triangle_check(0xffff0939a3a63673u64, 113, 2));
    assert(triangle_check(0xffff0939a3a63673u64, 113, 3));
    assert(triangle_check(0xffff0939a3a63673u64, 113, 4));
    assert(edge_check(0xffff0939a3a63673u64, 113, 0));
    assert(edge_check(0xffff0939a3a63673u64, 113, 1));
    assert(edge_check(0xffff0939a3a63673u64, 113, 2));
    assert(edge_check(0xffff0939a3a63673u64, 113, 3));
    assert(edge_check(0xffff0939a3a63673u64, 113, 4));
    assert(edge_check(0xffff0939a3a63673u64, 113, 5));
    assert(edge_check(0xffff0939a3a63673u64, 113, 6));
    assert(edge_check(0xffff0939a3a63673u64, 113, 7));
    assert(edge_check(0xffff0939a3a63673u64, 113, 8));
    assert(edge_check(0xffff0939a3a63673u64, 113, 9));
    assert(edge_check(0xffff0939a3a63673u64, 113, 10));
    assert(edge_check(0xffff0939a3a63673u64, 113, 11));
}

#[verifier::spinoff_prover]
proof fn lemma_row_114()
    ensures
        row_checks(TRI_TABLE[114], 114),
{
    reveal(row_entry);
    reveal(faces_inward);
    reveal(dot);
    reveal(triangle_normal);
    reveal(corner_solid);
    reveal(entry_check);
    reveal(triangle_check);
    reveal(edge_check);
    assert(TRI_TABLE[114] == 0xffff0181a8a68678u64);
    assert(entry_check(0xffff0181a8a68678u64, 114, 0));
    assert(entry_check(0xffff0181a8a68678u64, 114, 1));
    assert(entry_check(0xffff0181a8a68678u64, 114, 2));
    assert(entry_check(0xffff0181a8a68678u64, 114, 3));
    assert(entry_check(0xffff0181a8a68678u64, 114, 4));
    assert(entry_check(0xffff0181a8a68678u64, 114, 5));
    assert(entry_check(0xffff0181a8a68678u64, 114, 6));
    assert(entry_check(0xffff0181a8a68678u64, 114, 7));
    assert(entry_check(0xffff0181a8a68678u64, 114, 8));
    assert(entry_check(0xffff0181a8a68678u64, 114, 9));
    assert(entry_check(0xffff0181a8a68678u64, 114, 10));
    assert(entry_check(0xffff0181a8a68678u64, 114, 11));
    assert(entry_check(0xffff0181a8a68678u64, 114, 12));
    assert(entry_check(0xffff0181a8a68678u64, 114, 13));
    assert(entry_check(0xffff0181a8a68678u64, 114, 14));
    assert(entry_check(0xffff0181a8a68678u64, 114, 15));
    assert(triangle_check(0xffff0181a8a68678u64, 114, 0));
    assert(triangle_check(0xffff0181a8a68678u64, 114, 1));
    assert(triangle_check(0xffff0181a8a68678u64, 114, 2));
    assert(triangle_check(0xffff0181a8a68678u64, 114, 3));
    assert(triangle_check(0xffff0181a8a68678u64, 114, 4));
    assert(edge_check(0xffff0181a8a68678u64, 114, 0));
    assert(edge_check(0xffff0181a8a68678u64, 114, 1));
    assert(edge_check(0xffff0181a8a68678u64, 114, 2));
    assert(edge_check(0xffff0181a8a68678u64, 114, 3));
    assert(edge_check(0xffff0181a8a68678u64, 114, 4));
    assert(edge_check(0xffff0181a8a68678u64, 114, 5));
    assert(edge_check(0xffff0181a8a68678u64, 114, 6));
    assert(edge_check(0xffff0181a8a68678u64, 114, 7));
    assert(edge_check(0xffff0181a8a68678u64, 114, 8));
    assert(edge_check(0xffff0181a8a68678u64, 114, 9));
    assert(edge_check(0xffff0181a8a68678u64, 114, 10));
    assert(edge_check(0xffff0181a8a68678u64, 114, 11));
}

#[verifier::spinoff_prover]
proof fn lemma_row_115()
    ensures
        row_checks(TRI_TABLE[115], 115),
{
    reveal(row_entry);
    reveal(faces_inward);
    reveal(dot);
    reveal(triangle_normal);
    reveal(corner_solid);
    reveal(entry_check);
    reveal(triangle_check);
    reveal(edge_check);
    assert(TRI_TABLE[115] == 0xfffffff3171a7a67u64);
    assert(entry_check(0xfffffff3171a7a67u64, 115, 0));
    assert(entry_check(0xfffffff3171a7a67u64, 115, 1));
    assert(entry_check(0xfffffff3171a7a67u64, 115, 2));
    assert(entry_check(0xfffffff3171a7a67u64, 115, 3));
    assert(entry_check(0xfffffff3171a7a67u64, 115, 4));
    assert(entry_check(0xfffffff3171a7a67u64, 115, 5));
    assert(entry_check(0xfffffff3171a7a67u64, 115, 6));
    assert(entry_check(0xfffffff3171a7a67u64, 115, 7));
    assert(entry_check(0xfffffff3171a7a67u64, 115, 8));
    assert(entry_check(0xfffffff3171a7a67u64, 115, 9));
    assert(entry_check(0xfffffff3171a7a67u64, 115, 10));
    assert(entry_check(0xfffffff3171a7a67u64, 115, 11));
    assert(entry_check(0xfffffff3171a7a67u64, 115, 12));
    assert(entry_check(0xfffffff3171a7a67u64, 115, 13));
    assert(entry_check(0xfffffff3171a7a67u64, 115, 14));
    assert(entry_check(0xfffffff3171a7a67u64, 115, 15));
    assert(triangle_check(0xfffffff3171a7a67u64, 115, 0));
    assert(triangle_check(0xfffffff3171a7a67u64, 115, 1));
    assert(triangle_check(0xfffffff3171a7a67u64, 115, 2));
    assert(triangle_check(0xfffffff3171a7a67u64, 115, 3));
    assert(triangle_check(0xfffffff3171a7a67u64, 115, 4));
    assert(edge_check(0xfffffff3171a7a67u64, 115, 0));
    assert(edge_check(0xfffffff3171a7a67u64, 115, 1));
    assert(edge_check(0xfffffff3171a7a67u64, 115, 2));
    assert(edge_check(0xfffffff3171a7a67u64, 115, 3));
    assert(edge_check(0xfffffff3171a7a67u64, 115, 4));
    assert(edge_check(0xfffffff3171a7a67u64, 115, 5));
    assert(edge_check(0xfffffff3171a7a67u64, 115, 6));
    assert(edge_check(0xfffffff3171a7a67u64, 115, 7));
    assert(edge_check(0xfffffff3171a7a67u64, 115, 8));
    assert(edge_check(0xfffffff3171a7a67u64, 115, 9));
    assert(edge_check(0xfffffff3171a7a67u64, 115, 10));
    assert(edge_check(0xfffffff3171a7a67u64, 115, 11));
}

#[verifier::spinoff_prover]
proof fn lemma_row_116()
    ensures
        row_checks(TRI_TABLE[116], 116),
{
    reveal(row_entry);
    reveal(faces_inward);
    reveal(dot);
    reveal(triangle_normal);
    reveal(corner_solid);
    reveal(entry_check);
    reveal(triangle_check);
    reveal(edge_check);
    assert(TRI_TABLE[116] == 0xffff129269679789u64);
    assert(entry_check(0xffff129269679789u64, 116, 0));
    assert(entry_check(0xffff129269679789u64, 116, 1));
    assert(entry_check(0xffff129269679789u64, 116, 2));
    assert(entry_check(0xffff129269679789u64, 116, 3));
    assert(entry_check(0xffff129269679789u64, 116, 4));
    assert(entry_check(0xffff129269679789u64, 116, 5));
    assert(entry_check(0xffff129269679789u64, 116, 6));
    assert(entry_check(0xffff129269679789u64, 116, 7));
    assert(entry_check(0xffff129269679789u64, 116, 8));
    assert(entry_check(0xffff129269679789u64, 116, 9));
    assert(entry_check(0xffff129269679789u64, 116, 10));
    assert(entry_check(0xffff129269679789u64, 116, 11));
    assert(entry_check(0xffff129269679789u64, 116, 12));
    assert(entry_check(0xffff129269679789u64, 116, 13));
    assert(entry_check(0xffff129269679789u64, 116, 14));
    assert(entry_check(0xffff129269679789u64, 116, 15));
    assert(triangle_check(0xffff129269679789u64, 116, 0));
    assert(triangle_check(0xffff129269679789u64, 116, 1));
    assert(triangle_check(0xffff129269679789u64, 116, 2));
    assert(triangle_check(0xffff129269679789u64, 116, 3));
    assert(triangle_check(0xffff129269679789u64, 116, 4));
    assert(edge_check(0xffff129269679789u64, 116, 0));
    assert(edge_check(0xffff129269679789u64, 116, 1));
    assert(edge_check(0xffff129269679789u64, 116, 2));
    assert(edge_check(0xffff129269679789u64, 116, 3));
    assert(edge_check(0xffff129269679789u64, 116, 4));
    assert(edge_check(0xffff129269679789u64, 116, 5));
    assert(edge_check(0xffff129269679789u64, 116, 6));
    assert(edge_check(0xffff129269679789u64, 116, 7));
    assert(edge_check(0xffff129269679789u64, 116, 8));
    assert(edge_check(0xffff129269679789u64, 116, 9));
    assert(edge_check(0xffff129269679789u64, 116, 10));
    assert(edge_check(0xffff129269679789u64, 116, 11));
}

#[verifier::spinoff_prover]
proof fn lemma_row_117()
    ensures
        row_checks(TRI_TABLE[117], 117),
{
    reveal(row_entry);
    reveal(faces_inward);
    reveal(dot);
    reveal(triangle_normal);
    reveal(corner_solid);
    reveal(entry_check);
    reveal(triangle_check);
    reveal(edge_check);
    assert(TRI_TABLE[117] == 0xf129269679739309u64);
    assert(entry_check(0xf129269679739309u64, 117, 0));
    assert(entry_check(0xf129269679739309u64, 117, 1));
    assert(entry_check(0xf129269679739309u64, 117, 2));
    assert(entry_check(0xf129269679739309u64, 117, 3));
    assert(entry_check(0xf129269679739309u64, 117, 4));
    assert(entry_check(0xf129269679739309u64, 117, 5));
    assert(entry_check(0xf129269679739309u64, 117, 6));
    assert(entry_check(0xf129269679739309u64, 117, 7));
    assert(entry_check(0xf129269679739309u64, 117, 8));
    assert(entry_check(0xf129269679739309u64, 117, 9));
    assert(entry_check(0xf129269679739309u64, 117, 10));
    assert(entry_check(0xf129269679739309u64, 117, 11));
    assert(entry_check(0xf129269679739309u64, 117, 12));
    assert(entry_check(0xf129269679739309u64, 117, 13));
    assert(entry_check(0xf129269679739309u64, 117, 14));
    assert(entry_check(0xf129269679739309u64, 117, 15));
    assert(triangle_check(0xf129269679739309u64, 117, 0));
    assert(triangle_check(0xf129269679739309u64, 117, 1));
    assert(triangle_check(0xf129269679739309u64, 117, 2));
    assert(triangle_check(0xf129269679739309u64, 117, 3));
    assert(triangle_check(0xf129269679739309u64, 117, 4));
    assert(edge_check(0xf129269679739309u64, 117, 0));
    assert(edge_check(0xf129269679739309u64, 117, 1));
    assert(edge_check(0xf129269679739309u64, 117, 2));
    assert(edge_check(0xf129269679739309u64, 117, 3));
    assert(edge_check(0xf129269679739309u64, 117, 4));
    assert(edge_check(0xf129269679739309u64, 117, 5));
    assert(edge_check(0xf129269679739309u64, 117, 6));
    assert(edge_check(0xf129269679739309u64, 117, 7));
    assert(edge_check(0xf129269679739309u64, 117, 8));
    assert(edge_check(0xf129269679739309u64, 117, 9));
    assert(edge_check(0xf129269679739309u64, 117, 10));
    assert(edge_check(0xf129269679739309u64, 117, 11));
}

#[verifier::spinoff_prover]
proof fn lemma_row_118()
    ensures
        row_checks(TRI_TABLE[118], 118),
{
    reveal(row_entry);
    reveal(faces_inward);
    reveal(dot);
    reveal(triangle_normal);
    reveal(corner_solid);
    reveal(entry_check);
    reveal(triangle_check);
    reveal(edge_check);
    assert(TRI_TABLE[118] == 0xfffffff786806026u64);
    assert(entry_check(0xfffffff786806026u64, 118, 0));
    assert(entry_check(0xfffffff786806026u64, 118, 1));
    assert(entry_check(0xfffffff786806026u64, 118, 2));
    assert(entry_check(0xfffffff786806026u64, 118, 3));
    assert(entry_check(0xfffffff786806026u64, 118, 4));
    assert(entry_check(0xfffffff786806026u64, 118, 5));
    assert(entry_check(0xfffffff786806026u64, 118, 6));
    assert(entry_check(0xfffffff786806026u64, 118, 7));
    assert(entry_check(0xfffffff786806026u64, 118, 8));
    assert(entry_check(0xfffffff786806026u64, 118, 9));
    assert(entry_check(0xfffffff786806026u64, 118, 10));
    assert(entry_check(0xfffffff786806026u64, 118, 11));
    assert(entry_check(0xfffffff786806026u64, 118, 12));
    assert(entry_check(0xfffffff786806026u64, 118, 13));
    assert(entry_check(0xfffffff786806026u64, 118, 14));
    assert(entry_check(0xfffffff786806026u64, 118, 15));
    assert(triangle_check(0xfffffff786806026u64, 118, 0));
    assert(triangle_check(0xfffffff786806026u64, 118, 1));
    assert(triangle_check(0xfffffff786806026u64, 118, 2));
    assert(triangle_check(0xfffffff786806026u64, 118, 3));
    assert(triangle_check(0xfffffff786806026u64, 118, 4));
    assert(edge_check(0xfffffff786806026u64, 118, 0));
    assert(edge_check(0xfffffff786806026u64, 118, 1));
    assert(edge_check(0xfffffff786806026u64, 118, 2));
    assert(edge_check(0xfffffff786806026u64, 118, 3));
    assert(edge_check(0xfffffff786806026u64, 118, 4));
    assert(edge_check(0xfffffff786806026u64, 118, 5));
    assert(edge_check(0xfffffff786806026u64, 118, 6));
    assert(edge_check(0xfffffff786806026u64, 118, 7));
    assert(edge_check(0xfffffff786806026u64, 118, 8));
    assert(edge_check(0xfffffff786806026u64, 118, 9));
    assert(edge_check(0xfffffff786806026u64, 118, 10));
    assert(edge_check(0xfffffff786806026u64, 118, 11));
}

#[verifier::spinoff_prover]
proof fn lemma_row_119()
    ensures
        row_checks(TRI_TABLE[119], 119),
{
    reveal(row_entry);
    reveal(faces_inward);
    reveal(dot);
    reveal(triangle_normal);
    reveal(corner_solid);
    reveal(entry_check);
    reveal(triangle_check);
    reveal(edge_check);
    assert(TRI_TABLE[119] == 0xffffffffff672732u64);
    assert(entry_check(0xffffffffff672732u64, 119, 0));
    assert(entry_check(0xffffffffff672732u64, 119, 1));
    assert(entry_check(0xffffffffff672732u64, 119, 2));
    assert(entry_check(0xffffffffff672732u64, 119, 3));
    assert(entry_check(0xffffffffff672732u64, 119, 4));
    assert(entry_check(0xffffffffff672732u64, 119, 5));
    assert(entry_check(0xffffffffff672732u64, 119, 6));
    assert(entry_check(0xffffffffff672732u64, 119, 7));
    assert(entry_check(0xffffffffff672732u64, 119, 8));
    assert(entry_check(0xffffffffff672732u64, 119, 9));
    assert(entry_check(0xffffffffff672732u64, 119, 10));
    assert(entry_check(0xffffffffff672732u64, 119, 11));
    assert(entry_check(0xffffffffff672732u64, 119, 12));
    assert(entry_check(0xffffffffff672732u64, 119, 13));
    assert(entry_check(0xffffffffff672732u64, 119, 14));
    assert(entry_check(0xffffffffff672732u64, 119, 15));
    assert(triangle_check(0xffffffffff672732u64, 119, 0));
    assert(triangle_check(0xffffffffff672732u64, 119, 1));
    assert(triangle_check(0xffffffffff672732u64, 119, 2));
    assert(triangle_check(0xffffffffff672732u64, 119, 3));
    assert(triangle_check(0xffffffffff672732u64, 119, 4));
    assert(edge_check(0xffffffffff672732u64, 119, 0));
    assert(edge_check(0xffffffffff672732u64, 119, 1));
    assert(edge_check(0xffffffffff672732u64, 119, 2));
    assert(edge_check(0xffffffffff672732u64, 119, 3));
    assert(edge_check(0xffffffffff672732u64, 119, 4));
    assert(edge_check(0xffffffffff672732u64, 119, 5));
    assert(edge_check(0xffffffffff672732u64, 119, 6));
    assert(edge_check(0xffffffffff672732u64, 119, 7));
    assert(edge_check(0xffffffffff672732u64, 119, 8));
    assert(edge_check(0xffffffffff672732u64, 119, 9));
    assert(edge_check(0xffffffffff672732u64, 119, 10));
    assert(edge_check(0xffffffffff672732u64, 119, 11));
}

#[verifier::spinoff_prover]
proof fn lemma_row_120()
    ensures
        row_checks(TRI_TABLE[120], 120),
{
    reveal(row_entry);
    reveal(faces_inward);
    reveal(dot);
    reveal(triangle_normal);
    reveal(corner_solid);
    reveal(entry_check);
    reveal(triangle_check);
    reveal(edge_check);
    assert(TRI_TABLE[120] == 0xffff67a78a89a23bu64);
    assert(entry_check(0xffff67a78a89a23bu64, 120, 0));
    assert(entry_check(0xffff67a78a89a23bu64, 120, 1));
    assert(entry_check(0xffff67a78a89a23bu64, 120, 2));
    assert(entry_check(0xffff67a78a89a23bu64, 120, 3));
    assert(entry_check(0xffff67a78a89a23bu64, 120, 4));
    assert(entry_check(0xffff67a78a89a23bu64, 120, 5));
    assert(entry_check(0xffff67a78a89a23bu64, 120, 6));
    assert(entry_check(0xffff67a78a89a23bu64, 120, 7));
    assert(entry_check(0xffff67a78a89a23bu64, 120, 8));
    assert(entry_check(0xffff67a78a89a23bu64, 120, 9));
    assert(entry_check(0xffff67a78a89a23bu64, 120, 10));
    assert(entry_check(0xffff67a78a89a23bu64, 120, 11));
    assert(entry_check(0xffff67a78a89a23bu64, 120, 12));
    assert(entry_check(0xffff67a78a89a23bu64, 120, 13));
    assert(entry_check(0xffff67a78a89a23bu64, 120, 14));
    assert(entry_check(0xffff67a78a89a23bu64, 120, 15));
    assert(triangle_check(0xffff67a78a89a23bu64, 120, 0));
    assert(triangle_check(0xffff67a78a89a23bu64, 120, 1));
    assert(triangle_check(0xffff67a78a89a23bu64, 120, 2));
    assert(triangle_check(0xffff67a78a89a23bu64, 120, 3));
    assert(triangle_check(0xffff67a78a89a23bu64, 120, 4));
    assert(edge_check(0xffff67a78a89a23bu64, 120, 0));
    assert(edge_check(0xffff67a78a89a23bu64, 120, 1));
    assert(edge_check(0xffff67a78a89a23bu64, 120, 2));
    assert(edge_check(0xffff67a78a89a23bu64, 120, 3));
    assert(edge_check(0xffff67a78a89a23bu64, 120, 4));
    assert(edge_check(0xffff67a78a89a23bu64, 120, 5));
    assert(edge_check(0xffff67a78a89a23bu64, 120, 6));
    assert(edge_check(0xffff67a78a89a23bu64, 120, 7));
    assert(edge_check(0xffff67a78a89a23bu64, 120, 8));
    assert(edge_check(0xffff67a78a89a23bu64, 120, 9));
    assert(edge_check(0xffff67a78a89a23bu64, 120, 10));
    assert(edge_check(0xffff67a78a89a23bu64, 120, 11));
}

#[verifier::spinoff_prover]
proof fn lemma_row_121()
    ensures
        row_checks(TRI_TABLE[121], 121),
{
    reveal(row_entry);
    reveal(faces_inward);
    reveal(dot);
    reveal(triangle_normal);
    reveal(corner_solid);
    reveal(entry_check);
    reveal(triangle_check);
    reveal(edge_check);
    assert(TRI_TABLE[121] == 0xfb272070979a7a67u64);
    assert(entry_check(0xfb272070979a7a67u64, 121, 0));
    assert(entry_check(0xfb272070979a7a67u64, 121, 1));
    assert(entry_check(0xfb272070979a7a67u64, 121, 2));
    assert(entry_check(0xfb272070979a7a67u64, 121, 3));
    assert(entry_check(0xfb272070979a7a67u64, 121, 4));
    assert(entry_check(0xfb272070979a7a67u64, 121, 5));
    assert(entry_check(0xfb272070979a7a67u64, 121, 6));
    assert(entry_check(0xfb272070979a7a67u64, 121, 7));
    assert(entry_check(0xfb272070979a7a67u64, 121, 8));
    assert(entry_check(0xfb272070979a7a67u64, 121, 9));
    assert(entry_check(0xfb272070979a7a67u64, 121, 10));
    assert(entry_check(0xfb272070979a7a67u64, 121, 11));
    assert(entry_check(0xfb272070979a7a67u64, 121, 12));
    assert(entry_check(0xfb272070979a7a67u64, 121, 13));
    assert(entry_check(0xfb272070979a7a67u64, 121, 14));
    assert(entry_check(0xfb272070979a7a67u64, 121, 15));
    assert(triangle_check(0xfb272070979a7a67u64, 121, 0));
    assert(triangle_check(0xfb272070979a7a67u64, 121, 1));
    assert(triangle_check(0xfb272070979a7a67u64, 121, 2));
    assert(triangle_check(0xfb272070979a7a67u64, 121, 3));
    assert(triangle_check(0xfb272070979a7a67u64, 121, 4));
    assert(edge_check(0xfb272070979a7a67u64, 121, 0));
    assert(edge_check(0xfb272070979a7a67u64, 121, 1));
    assert(edge_check(0xfb272070979a7a67u64, 121, 2));
    assert(edge_check(0xfb272070979a7a67u64, 121, 3));
    assert(edge_check(0xfb272070979a7a67u64, 121, 4));
    assert(edge_check(0xfb272070979a7a67u64, 121, 5));
    assert(edge_check(0xfb272070979a7a67u64, 121, 6));
    assert(edge_check(0xfb272070979a7a67u64, 121, 7));
    assert(edge_check(0xfb272070979a7a67u64, 121, 8));
    assert(edge_check(0xfb272070979a7a67u64, 121, 9));
    assert(edge_check(0xfb272070979a7a67u64, 121, 10));
    assert(edge_check(0xfb272070979a7a67u64, 121, 11));
}

#[verifier::spinoff_prover]
proof fn lemma_row_122()
    ensures
        row_checks(TRI_TABLE[122], 122),
{
    reveal(row_entry);
    reveal(faces_inward);
    reveal(dot);
    reveal(triangle_normal);
    reveal(corner_solid);
    reveal(entry_check);
    reveal(triangle_check);
    reveal(edge_check);
    assert(TRI_TABLE[122] == 0xf23b0181a8a68678u64);
    assert(entry_check(0xf23b0181a8a68678u64, 122, 0));
    assert(entry_check(0xf23b0181a8a68678u64, 122, 1));
    assert(entry_check(0xf23b0181a8a68678u64, 122, 2));
    assert(entry_check(0xf23b0181a8a68678u64, 122, 3));
    assert(entry_check(0xf23b0181a8a68678u64, 122, 4));
    assert(entry_check(0xf23b0181a8a68678u64, 122, 5));
    assert(entry_check(0xf23b0181a8a68678u64, 122, 6));
    assert(entry_check(0xf23b0181a8a68678u64, 122, 7));
    assert(entry_check(0xf23b0181a8a68678u64, 122, 8));
    assert(entry_check(0xf23b0181a8a68678u64, 122, 9));
    assert(entry_check(0xf23b0181a8a68678u64, 122, 10));
    assert(entry_check(0xf23b0181a8a68678u64, 122, 11));
    assert(entry_check(0xf23b0181a8a68678u64, 122, 12));
    assert(entry_check(0xf23b0181a8a68678u64, 122, 13));
    assert(entry_check(0xf23b0181a8a68678u64, 122, 14));
    assert(entry_check(0xf23b0181a8a68678u64, 122, 15));
    assert(triangle_check(0xf23b0181a8a68678u64, 122, 0));
    assert(triangle_check(0xf23b0181a8a68678u64, 122, 1));
    assert(triangle_check(0xf23b0181a8a68678u64, 122, 2));
    assert(triangle_check(0xf23b0181a8a68678u64, 122, 3));
    assert(triangle_check(0xf23b0181a8a68678u64, 122, 4));
    assert(edge_check(0xf23b0181a8a68678u64, 122, 0));
    assert(edge_check(0xf23b0181a8a68678u64, 122, 1));
    assert(edge_check(0xf23b0181a8a68678u64, 122, 2));
    assert(edge_check(0xf23b0181a8a68678u64, 122, 3));
    assert(edge_check(0xf23b0181a8a68678u64, 122, 4));
    assert(edge_check(0xf23b0181a8a68678u64, 122, 5));
    assert(edge_check(0xf23b0181a8a68678u64, 122, 6));
    assert(edge_check(0xf23b0181a8a68678u64, 122, 7));
    assert(edge_check(0xf23b0181a8a68678u64, 122, 8));
    assert(edge_check(0xf23b0181a8a68678u64, 122, 9));
    assert(edge_check(0xf23b0181a8a68678u64, 122, 10));
    assert(edge_check(0xf23b0181a8a68678u64, 122, 11));
}

#[verifier::spinoff_prover]
proof fn lemma_row_123()
    ensures
        row_checks(TRI_TABLE[123], 123),
{
    reveal(row_entry);
    reveal(faces_inward);
    reveal(dot);
    reveal(triangle_normal);
    reveal(corner_solid);
    reveal(entry_check);
    reveal(triangle_check);
    reveal(edge_check);
    assert(TRI_TABLE[123] == 0xffffb272171a7a67u64);
    assert(entry_check(0xffffb272171a7a67u64, 123, 0));
    assert(entry_check(0xffffb272171a7a67u64, 123, 1));
    assert(entry_check(0xffffb272171a7a67u64, 123, 2));
    assert(entry_check(0xffffb272171a7a67u64, 123, 3));
    assert(entry_check(0xffffb272171a7a67u64, 123, 4));
    assert(entry_check(0xffffb272171a7a67u64, 123, 5));
    assert(entry_check(0xffffb272171a7a67u64, 123, 6));
    assert(entry_check(0xffffb272171a7a67u64, 123, 7));
    assert(entry_check(0xffffb272171a7a67u64, 123, 8));
    assert(entry_check(0xffffb272171a7a67u64, 123, 9));
    assert(entry_check(0xffffb272171a7a67u64, 123, 10));
    assert(entry_check(0xffffb272171a7a67u64, 123, 11));
    assert(entry_check(0xffffb272171a7a67u64, 123, 12));
    assert(entry_check(0xffffb272171a7a67u64, 123, 13));
    assert(entry_check(0xffffb272171a7a67u64, 123, 14));
    assert(entry_check(0xffffb272171a7a67u64, 123, 15));
    assert(triangle_check(0xffffb272171a7a67u64, 123, 0));
    assert(triangle_check(0xffffb272171a7a67u64, 123, 1));
    assert(triangle_check(0xffffb272171a7a67u64, 123, 2));
    assert(triangle_check(0xffffb272171a7a67u64, 123, 3));
    assert(triangle_check(0xffffb272171a7a67u64, 123, 4));
    assert(edge_check(0xffffb272171a7a67u64, 123, 0));
    assert(edge_check(0xffffb272171a7a67u64, 123, 1));
    assert(edge_check(0xffffb272171a7a67u64, 123, 2));
    assert(edge_check(0xffffb272171a7a67u64, 123, 3));
    assert(edge_check(0xffffb272171a7a67u64, 123, 4));
    assert(edge_check(0xffffb272171a7a67u64, 123, 5));
    assert(edge_check(0xffffb272171a7a67u64, 123, 6));
    assert(edge_check(0xffffb272171a7a67u64, 123, 7));
    assert(edge_check(0xffffb272171a7a67u64, 123, 8));
    assert(edge_check(0xffffb272171a7a67u64, 123, 9));
    assert(edge_check(0xffffb272171a7a67u64, 123, 10));
    assert(edge_check(0xffffb272171a7a67u64, 123, 11));
}

#[verifier::spinoff_prover]
proof fn lemma_row_124()
    ensures
        row_checks(TRI_TABLE[124], 124),
{
    reveal(row_entry);
    reveal(faces_inward);
    reveal(dot);
    reveal(triangle_normal);
    reveal(corner_solid);
    reveal(entry_check);
    reveal(triangle_check);
    reveal(edge_check);
    assert(TRI_TABLE[124] == 0xf7868969161363b6u64);
    assert(entry_check(0xf7868969161363b6u64, 124, 0));
    assert(entry_check(0xf7868969161363b6u64, 124, 1));
    assert(entry_check(0xf7868969161363b6u64, 124, 2));
    assert(entry_check(0xf7868969161363b6u64, 124, 3));
    assert(entry_check(0xf7868969161363b6u64, 124, 4));
    assert(entry_check(0xf7868969161363b6u64, 124, 5));
    assert(entry_check(0xf7868969161363b6u64, 124, 6));
    assert(entry_check(0xf7868969161363b6u64, 124, 7));
    assert(entry_check(0xf7868969161363b6u64, 124, 8));
    assert(entry_check(0xf7868969161363b6u64, 124, 9));
    assert(entry_check(0xf7868969161363b6u64, 124, 10));
    assert(entry_check(0xf7868969161363b6u64, 124, 11));
    assert(entry_check(0xf7868969161363b6u64, 124, 12));
    assert(entry_check(0xf7868969161363b6u64, 124, 13));
    assert(entry_check(0xf7868969161363b6u64, 124, 14));
    assert(entry_check(0xf7868969161363b6u64, 124, 15));
    assert(triangle_check(0xf7868969161363b6u64, 124, 0));
    assert(triangle_check(0xf7868969161363b6u64, 124, 1));
    assert(triangle_check(0xf7868969161363b6u64, 124, 2));
    assert(triangle_check(0xf7868969161363b6u64, 124, 3));
    assert(triangle_check(0xf7868969161363b6u64, 124, 4));
    assert(edge_check(0xf7868969161363b6u64, 124, 0));
    assert(edge_check(0xf7868969161363b6u64, 124, 1));
    assert(edge_check(0xf7868969161363b6u64, 124, 2));
    assert(edge_check(0xf7868969161363b6u64, 124, 3));
    assert(edge_check(0xf7868969161363b6u64, 124, 4));
    assert(edge_check(0xf7868969161363b6u64, 124, 5));
    assert(edge_check(0xf7868969161363b6u64, 124, 6));
    assert(edge_check(0xf7868969161363b6u64, 124, 7));
    assert(edge_check(0xf7868969161363b6u64, 124, 8));
    assert(edge_check(0xf7868969161363b6u64, 124, 9));
    assert(edge_check(0xf7868969161363b6u64, 124, 10));
    assert(edge_check(0xf7868969161363b6u64, 124, 11));
}

#[verifier::spinoff_prover]
proof fn lemma_row_125()
    ensures
        row_checks(TRI_TABLE[125], 125),
{
    reveal(row_entry);
    reveal(faces_inward);
    reveal(dot);
    reveal(triangle_normal);
    reveal(corner_solid);
    reveal(entry_check);
    reveal(triangle_check);
    reveal(edge_check);
    assert(TRI_TABLE[125] == 0xffffffffff67b910u64);
    assert(entry_check(0xffffffffff67b910u64, 125, 0));
    assert(entry_check(0xffffffffff67b910u64, 125, 1));
    assert(entry_check(0xffffffffff67b910u64, 125, 2));
    assert(entry_check(0xffffffffff67b910u64, 125, 3));
    assert(entry_check(0xffffffffff67b910u64, 125, 4));
    assert(entry_check(0xffffffffff67b910u64, 125, 5));
    assert(entry_check(0xffffffffff67b910u64, 125, 6));
    assert(entry_check(0xffffffffff67b910u64, 125, 7));
    assert(entry_check(0xffffffffff67b910u64, 125, 8));
    assert(entry_check(0xffffffffff67b910u64, 125, 9));
    assert(entry_check(0xffffffffff67b910u64, 125, 10));
    assert(entry_check(0xffffffffff67b910u64, 125, 11));
    assert(entry_check(0xffffffffff67b910u64, 125, 12));
    assert(entry_check(0xffffffffff67b910u64, 125, 13));
    assert(entry_check(0xffffffffff67b910u64, 125, 14));
    assert(entry_check(0xffffffffff67b910u64, 125, 15));
    assert(triangle_check(0xffffffffff67b910u64, 125, 0));
    assert(triangle_check(0xffffffffff67b910u64, 125, 1));
    assert(triangle_check(0xffffffffff67b910u64, 125, 2));
    assert(triangle_check(0xffffffffff67b910u64, 125, 3));
    assert(triangle_check(0xffffffffff67b910u64, 125, 4));
    assert(edge_check(0xffffffffff67b910u64, 125, 0));
    assert(edge_check(0xffffffffff67b910u64, 125, 1));
    assert(edge_check(0xffffffffff67b910u64, 125, 2));
    assert(edge_check(0xffffffffff67b910u64, 125, 3));
    assert(edge_check(0xffffffffff67b910u64, 125, 4));
    assert(edge_check(0xffffffffff67b910u64, 125, 5));
    assert(edge_check(0xffffffffff67b910u64, 125, 6));
    assert(edge_check(0xffffffffff67b910u64, 125, 7));
    assert(edge_check(0xffffffffff67b910u64, 125, 8));
    assert(edge_check(0xffffffffff67b910u64, 125, 9));
    assert(edge_check(0xffffffffff67b910u64, 125, 10));
    assert(edge_check(0xffffffffff67b910u64, 125, 11));
}

#[verifier::spinoff_prover]
proof fn lemma_row_126()
    ensures
        row_checks(TRI_TABLE[126], 126),
{
    reveal(row_entry);
    reveal(faces_inward);
    reveal(dot);
    reveal(triangle_normal);
    reveal(corner_solid);
    reveal(entry_check);
    reveal(triangle_check);
    reveal(edge_check);
    assert(TRI_TABLE[126] == 0xffff7868060363b6u64);
    assert(entry_check(0xffff7868060363b6u64, 126, 0));
    assert(entry_check(0xffff7868060363b6u64, 126, 1));
    assert(entry_check(0xffff7868060363b6u64, 126, 2));
    assert(entry_check(0xffff7868060363b6u64, 126, 3));
    assert(entry_check(0xffff7868060363b6u64, 126, 4));
    assert(entry_check(0xffff7868060363b6u64, 126, 5));
    assert(entry_check(0xffff7868060363b6u64, 126, 6));
    assert(entry_check(0xffff7868060363b6u64, 126, 7));
    assert(entry_check(0xffff7868060363b6u64, 126, 8));
    assert(entry_check(0xffff7868060363b6u64, 126, 9));
    assert(entry_check(0xffff7868060363b6u64, 126, 10));
    assert(entry_check(0xffff7868060363b6u64, 126, 11));
    assert(entry_check(0xffff7868060363b6u64, 126, 12));
    assert(entry_check(0xffff7868060363b6u64, 126, 13));
    assert(entry_check(0xffff7868060363b6u64, 126, 14));
    assert(entry_check(0xffff7868060363b6u64, 126, 15));
    assert(triangle_check(0xffff7868060363b6u64, 126, 0));
    assert(triangle_check(0xffff7868060363b6u64, 126, 1));
    assert(triangle_check(0xffff7868060363b6u64, 126, 2));
    assert(triangle_check(0xffff7868060363b6u64, 126, 3));
    assert(triangle_check(0xffff7868060363b6u64, 126, 4));
    assert(edge_check(0xffff7868060363b6u64, 126, 0));
    assert(edge_check(0xffff7868060363b6u64, 126, 1));
    assert(edge_check(0xffff7868060363b6u64, 126, 2));
    assert(edge_check(0xffff7868060363b6u64, 126, 3));
    assert(edge_check(0xffff7868060363b6u64, 126, 4));
    assert(edge_check(0xffff7868060363b6u64, 126, 5));
    assert(edge_check(0xffff7868060363b6u64, 126, 6));
    assert(edge_check(0xffff7868060363b6u64, 126, 7));
    assert(edge_check(0xffff7868060363b6u64, 126, 8));
    assert(edge_check(0xffff7868060363b6u64, 126, 9));
    assert(edge_check(0xffff7868060363b6u64, 126, 10));
    assert(edge_check(0xffff7868060363b6u64, 126, 11));
}

#[verifier::spinoff_prover]
proof fn lemma_row_127()
    ensures
        row_checks(TRI_TABLE[127], 127),
{
    reveal(row_entry);
    reveal(faces_inward);
    reveal(dot);
    reveal(triangle_normal);
    reveal(corner_solid);
    reveal(entry_check);
    reveal(triangle_check);
    reveal(edge_check);
    assert(TRI_TABLE[127] == 0xfffffffffffff67bu64);
    assert(entry_check(0xfffffffffffff67bu64, 127, 0));
    assert(entry_check(0xfffffffffffff67bu64, 127, 1));
    assert(entry_check(0xfffffffffffff67bu64, 127, 2));
    assert(entry_check(0xfffffffffffff67bu64, 127, 3));
    assert(entry_check(0xfffffffffffff67bu64, 127, 4));
    assert(entry_check(0xfffffffffffff67bu64, 127, 5));
    assert(entry_check(0xfffffffffffff67bu64, 127, 6));
    assert(entry_check(0xfffffffffffff67bu64, 127, 7));
    assert(entry_check(0xfffffffffffff67bu64, 127, 8));
    assert(entry_check(0xfffffffffffff67bu64, 127, 9));
    assert(entry_check(0xfffffffffffff67bu64, 127, 10));
    assert(entry_check(0xfffffffffffff67bu64, 127, 11));
    assert(entry_check(0xfffffffffffff67bu64, 127, 12));
    assert(entry_check(0xfffffffffffff67bu64, 127, 13));
    assert(entry_check(0xfffffffffffff67bu64, 127, 14));
    assert(entry_check(0xfffffffffffff67bu64, 127, 15));
    assert(triangle_check(0xfffffffffffff67bu64, 127, 0));
    assert(triangle_check(0xfffffffffffff67bu64, 127, 1));
    assert(triangle_check(0xfffffffffffff67bu64, 127, 2));
    assert(triangle_check(0xfffffffffffff67bu64, 127, 3));
    assert(triangle_check(0xfffffffffffff67bu64, 127, 4));
    assert(edge_check(0xfffffffffffff67bu64, 127, 0));
    assert(edge_check(0xfffffffffffff67bu64, 127, 1));
    assert(edge_check(0xfffffffffffff67bu64, 127, 2));
    assert(edge_check(0xfffffffffffff67bu64, 127, 3));
    assert(edge_check(0xfffffffffffff67bu64, 127, 4));
    assert(edge_check(0xfffffffffffff67bu64, 127, 5));
    assert(edge_check(0xfffffffffffff67bu64, 127, 6));
    assert(edge_check(0xfffffffffffff67bu64, 127, 7));
    assert(edge_check(0xfffffffffffff67bu64, 127, 8));
    assert(edge_check(0xfffffffffffff67bu64, 127, 9));
    assert(edge_check(0xfffffffffffff67bu64, 127, 10));
    assert(edge_check(0xfffffffffffff67bu64, 127, 11));
}

#[verifier::spinoff_prover]
proof fn lemma_row_128()
    ensures
        row_checks(TRI_TABLE[128], 128),
{
    reveal(row_entry);
    reveal(faces_inward);
    reveal(dot);
    reveal(triangle_normal);
    reveal(corner_solid);
    reveal(entry_check);
    reveal(triangle_check);
    reveal(edge_check);
    assert(TRI_TABLE[128] == 0xfffffffffffffb76u64);
    assert(entry_check(0xfffffffffffffb76u64, 128, 0));
    assert(entry_check(0xfffffffffffffb76u64, 128, 1));
    assert(entry_check(0xfffffffffffffb76u64, 128, 2));
    assert(entry_check(0xfffffffffffffb76u64, 128, 3));
    assert(entry_check(0xfffffffffffffb76u64, 128, 4));
    assert(entry_check(0xfffffffffffffb76u64, 128, 5));
    assert(entry_check(0xfffffffffffffb76u64, 128, 6));
    assert(entry_check(0xfffffffffffffb76u64, 128, 7));
    assert(entry_check(0xfffffffffffffb76u64, 128, 8));
    assert(entry_check(0xfffffffffffffb76u64, 128, 9));
    assert(entry_check(0xfffffffffffffb76u64, 128, 10));
    assert(entry_check(0xfffffffffffffb76u64, 128, 11));
    assert(entry_check(0xfffffffffffffb76u64, 128, 12));
    assert(entry_check(0xfffffffffffffb76u64, 128, 13));
    assert(entry_check(0xfffffffffffffb76u64, 128, 14));
    assert(entry_check(0xfffffffffffffb76u64, 128, 15));
    assert(triangle_check(0xfffffffffffffb76u64, 128, 0));
    assert(triangle_check(0xfffffffffffffb76u64, 128, 1));
    assert(triangle_check(0xfffffffffffffb76u64, 128, 2));
    assert(triangle_check(0xfffffffffffffb76u64, 128, 3));
    assert(triangle_check(0xfffffffffffffb76u64, 128, 4));
    assert(edge_check(0xfffffffffffffb76u64, 128, 0));
    assert(edge_check(0xfffffffffffffb76u64, 128, 1));
    assert(edge_check(0xfffffffffffffb76u64, 128, 2));
    assert(edge_check(0xfffffffffffffb76u64, 128, 3));
    assert(edge_check(0xfffffffffffffb76u64, 128, 4));
    assert(edge_check(0xfffffffffffffb76u64, 128, 5));
    assert(edge_check(0xfffffffffffffb76u64, 128, 6));
    assert(edge_check(0xfffffffffffffb76u64, 128, 7));
    assert(edge_check(0xfffffffffffffb76u64, 128, 8));
    assert(edge_check(0xfffffffffffffb76u64, 128, 9));
    assert(edge_check(0xfffffffffffffb76u64, 128, 10));
    assert(edge_check(0xfffffffffffffb76u64, 128, 11));
}

#[verifier::spinoff_prover]
proof fn lemma_row_129()
    ensures
        row_checks(TRI_TABLE[129], 129),
{
    reveal(row_entry);
    reveal(faces_inward);
    reveal(dot);
    reveal(triangle_normal);
    reveal(corner_solid);
    reveal(entry_check);
    reveal(triangle_check);
    reveal(edge_check);
    assert(TRI_TABLE[129] == 0xffffffffffb76830u64);
    assert(entry_check(0xffffffffffb76830u64, 129, 0));
    assert(entry_check(0xffffffffffb76830u64, 129, 1));
    assert(entry_check(0xffffffffffb76830u64, 129, 2));
    assert(entry_check(0xffffffffffb76830u64, 129, 3));
    assert(entry_check(0xffffffffffb76830u64, 129, 4));
    assert(entry_check(0xffffffffffb76830u64, 129, 5));
    assert(entry_check(0xffffffffffb76830u64, 129, 6));
    assert(entry_check(0xffffffffffb76830u64, 129, 7));
    assert(entry_check(0xffffffffffb76830u64, 129, 8));
    assert(entry_check(0xffffffffffb76830u64, 129, 9));
    assert(entry_check(0xffffffffffb76830u64, 129, 10));
    assert(entry_check(0xffffffffffb76830u64, 129, 11));
    assert(entry_check(0xffffffffffb76830u64, 129, 12));
    assert(entry_check(0xffffffffffb76830u64, 129, 13));
    assert(entry_check(0xffffffffffb76830u64, 129, 14));
    assert(entry_check(0xffffffffffb76830u64, 129, 15));
    assert(triangle_check(0xffffffffffb76830u64, 129, 0));
    assert(triangle_check(0xffffffffffb76830u64, 129, 1));
    assert(triangle_check(0xffffffffffb76830u64, 129, 2));
    assert(triangle_check(0xffffffffffb76830u64, 129, 3));
    assert(triangle_check(0xffffffffffb76830u64, 129, 4));
    assert(edge_check(0xffffffffffb76830u64, 129, 0));
    assert(edge_check(0xffffffffffb76830u64, 129, 1));
    assert(edge_check(0xffffffffffb76830u64, 129, 2));
    assert(edge_check(0xffffffffffb76830u64, 129, 3));
    assert(edge_check(0xffffffffffb76830u64, 129, 4));
    assert(edge_check(0xffffffffffb76830u64, 129, 5));
    assert(edge_check(0xffffffffffb76830u64, 129, 6));
    assert(edge_check(0xffffffffffb76830u64, 129, 7));
    assert(edge_check(0xffffffffffb76830u64, 129, 8));
    assert(edge_check(0xffffffffffb76830u64, 129, 9));
    assert(edge_check(0xffffffffffb76830u64, 129, 10));
    assert(edge_check(0xffffffffffb76830u64, 129, 11));
}

#[verifier::spinoff_prover]
proof fn lemma_row_130()
    ensures
        row_checks(TRI_TABLE[130], 130),
{
    reveal(row_entry);
    reveal(faces_inward);
    reveal(dot);
    reveal(triangle_normal);
    reveal(corner_solid);
    reveal(entry_check);
    reveal(triangle_check);
    reveal(edge_check);
    assert(TRI_TABLE[130] == 0xffffffffffb76019u64);
    assert(entry_check(0xffffffffffb76019u64, 130, 0));
    assert(entry_check(0xffffffffffb76019u64, 130, 1));
    assert(entry_check(0xffffffffffb76019u64, 130, 2));
    assert(entry_check(0xffffffffffb76019u64, 130, 3));
    assert(entry_check(0xffffffffffb76019u64, 130, 4));
    assert(entry_check(0xffffffffffb76019u64, 130, 5));
    assert(entry_check(0xffffffffffb76019u64, 130, 6));
    assert(entry_check(0xffffffffffb76019u64, 130, 7));
    assert(entry_check(0xffffffffffb76019u64, 130, 8));
    assert(entry_check(0xffffffffffb76019u64, 130, 9));
    assert(entry_check(0xffffffffffb76019u64, 130, 10));
    assert(entry_check(0xffffffffffb76019u64, 130, 11));
    assert(entry_check(0xffffffffffb76019u64, 130, 12));
    assert(entry_check(0xffffffffffb76019u64, 130, 13));
    assert(entry_check(0xffffffffffb76019u64, 130, 14));
    assert(entry_check(0xffffffffffb76019u64, 130, 15));
    assert(triangle_check(0xffffffffffb76019u64, 130, 0));
    assert(triangle_check(0xffffffffffb76019u64, 130, 1));
    assert(triangle_check(0xffffffffffb76019u64, 130, 2));
    assert(triangle_check(0xffffffffffb76019u64, 130, 3));
    assert(triangle_check(0xffffffffffb76019u64, 130, 4));
    assert(edge_check(0xffffffffffb76019u64, 130, 0));
    assert(edge_check(0xffffffffffb76019u64, 130, 1));
    assert(edge_check(0xffffffffffb76019u64, 130, 2));
    assert(edge_check(0xffffffffffb76019u64, 130, 3));
    assert(edge_check(0xffffffffffb76019u64, 130, 4));
    assert(edge_check(0xffffffffffb76019u64, 130, 5));
    assert(edge_check(0xffffffffffb76019u64, 130, 6));
    assert(edge_check(0xffffffffffb76019u64, 130, 7));
    assert(edge_check(0xffffffffffb76019u64, 130, 8));
    assert(edge_check(0xffffffffffb76019u64, 130, 9));
    assert(edge_check(0xffffffffffb76019u64, 130, 10));
    assert(edge_check(0xffffffffffb76019u64, 130, 11));
}

#[verifier::spinoff_prover]
proof fn lemma_row_131()
    ensures
        row_checks(TRI_TABLE[131], 131),
{
    reveal(row_entry);
    reveal(faces_inward);
    reveal(dot);
    reveal(triangle_normal);
    reveal(corner_solid);
    reveal(entry_check);
    reveal(triangle_check);
    reveal(edge_check);
    assert(TRI_TABLE[131] == 0xfffffffb76193983u64);
    assert(entry_check(0xfffffffb76193983u64, 131, 0));
    assert(entry_check(0xfffffffb76193983u64, 131, 1));
    assert(entry_check(0xfffffffb76193983u64, 131, 2));
    assert(entry_check(0xfffffffb76193983u64, 131, 3));
    assert(entry_check(0xfffffffb76193983u64, 131, 4));
    assert(entry_check(0xfffffffb76193983u64, 131, 5));
    assert(entry_check(0xfffffffb76193983u64, 131, 6));
    assert(entry_check(0xfffffffb76193983u64, 131, 7));
    assert(entry_check(0xfffffffb76193983u64, 131, 8));
    assert(entry_check(0xfffffffb76193983u64, 131, 9));
    assert(entry_check(0xfffffffb76193983u64, 131, 10));
    assert(entry_check(0xfffffffb76193983u64, 131, 11));
    assert(entry_check(0xfffffffb76193983u64, 131, 12));
    assert(entry_check(0xfffffffb76193983u64, 131, 13));
    assert(entry_check(0xfffffffb76193983u64, 131, 14));
    assert(entry_check(0xfffffffb76193983u64, 131, 15));
    assert(triangle_check(0xfffffffb76193983u64, 131, 0));
    assert(triangle_check(0xfffffffb76193983u64, 131, 1));
    assert(triangle_check(0xfffffffb76193983u64, 131, 2));
    assert(triangle_check(0xfffffffb76193983u64, 131, 3));
    assert(triangle_check(0xfffffffb76193983u64, 131, 4));
    assert(edge_check(0xfffffffb76193983u64, 131, 0));
    assert(edge_check(0xfffffffb76193983u64, 131, 1));
    assert(edge_check(0xfffffffb76193983u64, 131, 2));
    assert(edge_check(0xfffffffb76193983u64, 131, 3));
    assert(edge_check(0xfffffffb76193983u64, 131, 4));
    assert(edge_check(0xfffffffb76193983u64, 131, 5));
    assert(edge_check(0xfffffffb76193983u64, 131, 6));
    assert(edge_check(0xfffffffb76193983u64, 131, 7));
    assert(edge_check(0xfffffffb76193983u64, 131, 8));
    assert(edge_check(0xfffffffb76193983u64, 131, 9));
    assert(edge_check(0xfffffffb76193983u64, 131, 10));
    assert(edge_check(0xfffffffb76193983u64, 131, 11));
}

#[verifier::spinoff_prover]
proof fn lemma_row_132()
    ensures
        row_checks(TRI_TABLE[132], 132),
{
    reveal(row_entry);
    reveal(faces_inward);
    reveal(dot);
    reveal(triangle_normal);
    reveal(corner_solid);
    reveal(entry_check);
    reveal(triangle_check);
    reveal(edge_check);
    assert(TRI_TABLE[132] == 0xffffffffffb762a1u64);
    assert(entry_check(0xffffffffffb762a1u64, 132, 0));
    assert(entry_check(0xffffffffffb762a1u64, 132, 1));
    assert(entry_check(0xffffffffffb762a1u64, 132, 2));
    assert(entry_check(0xffffffffffb762a1u64, 132, 3));
    assert(entry_check(0xffffffffffb762a1u64, 132, 4));
    assert(entry_check(0xffffffffffb762a1u64, 132, 5));
    assert(entry_check(0xffffffffffb762a1u64, 132, 6));
    assert(entry_check(0xffffffffffb762a1u64, 132, 7));
    assert(entry_check(0xffffffffffb762a1u64, 132, 8));
    assert(entry_check(0xffffffffffb762a1u64, 132, 9));
    assert(entry_check(0xffffffffffb762a1u64, 132, 10));
    assert(entry_check(0xffffffffffb762a1u64, 132, 11));
    assert(entry_check(0xffffffffffb762a1u64, 132, 12));
    assert(entry_check(0xffffffffffb762a1u64, 132, 13));
    assert(entry_check(0xffffffffffb762a1u64, 132, 14));
    assert(entry_check(0xffffffffffb762a1u64, 132, 15));
    assert(triangle_check(0xffffffffffb762a1u64, 132, 0));
    assert(triangle_check(0xffffffffffb762a1u64, 132, 1));
    assert(triangle_check(0xffffffffffb762a1u64, 132, 2));
    assert(triangle_check(0xffffffffffb762a1u64, 132, 3));
    assert(triangle_check(0xffffffffffb762a1u64, 132, 4));
    assert(edge_check(0xffffffffffb762a1u64, 132, 0));
    assert(edge_check(0xffffffffffb762a1u64, 132, 1));
    assert(edge_check(0xffffffffffb762a1u64, 132, 2));
    assert(edge_check(0xffffffffffb762a1u64, 132, 3));
    assert(edge_check(0xffffffffffb762a1u64, 132, 4));
    assert(edge_check(0xffffffffffb762a1u64, 132, 5));
    assert(edge_check(0xffffffffffb762a1u64, 132, 6));
    assert(edge_check(0xffffffffffb762a1u64, 132, 7));
    assert(edge_check(0xffffffffffb762a1u64, 132, 8));
    assert(edge_check(0xffffffffffb762a1u64, 132, 9));
    assert(edge_check(0xffffffffffb762a1u64, 132, 10));
    assert(edge_check(0xffffffffffb762a1u64, 132, 11));
}

#[verifier::spinoff_prover]
proof fn lemma_row_133()
    ensures
        row_checks(TRI_TABLE[133], 133),
{
    reveal(row_entry);
    reveal(faces_inward);
    reveal(dot);
    reveal(triangle_normal);
    reveal(corner_solid);
    reveal(entry_check);
    reveal(triangle_check);
    reveal(edge_check);
    assert(TRI_TABLE[133] == 0xfffffffb762a1830u64);
    assert(entry_check(0xfffffffb762a1830u64, 133, 0));
    assert(entry_check(0xfffffffb762a1830u64, 133, 1));
    assert(entry_check(0xfffffffb762a1830u64, 133, 2));
    assert(entry_check(0xfffffffb762a1830u64, 133, 3));
    assert(entry_check(0xfffffffb762a1830u64, 133, 4));
    assert(entry_check(0xfffffffb762a1830u64, 133, 5));
    assert(entry_check(0xfffffffb762a1830u64, 133, 6));
    assert(entry_check(0xfffffffb762a1830u64, 133, 7));
    assert(entry_check(0xfffffffb762a1830u64, 133, 8));
    assert(entry_check(0xfffffffb762a1830u64, 133, 9));
    assert(entry_check(0xfffffffb762a1830u64, 133, 10));
    assert(entry_check(0xfffffffb762a1830u64, 133, 11));
    assert(entry_check(0xfffffffb762a1830u64, 133, 12));
    assert(entry_check(0xfffffffb762a1830u64, 133, 13));
    assert(entry_check(0xfffffffb762a1830u64, 133, 14));
    assert(entry_check(0xfffffffb762a1830u64, 133, 15));
    assert(triangle_check(0xfffffffb762a1830u64, 133, 0));
    assert(triangle_check(0xfffffffb762a1830u64, 133, 1));
    assert(triangle_check(0xfffffffb762a1830u64, 133, 2));
    assert(triangle_check(0xfffffffb762a1830u64, 133, 3));
    assert(triangle_check(0xfffffffb762a1830u64, 133, 4));
    assert(edge_check(0xfffffffb762a1830u64, 133, 0));
    assert(edge_check(0xfffffffb762a1830u64, 133, 1));
    assert(edge_check(0xfffffffb762a1830u64, 133, 2));
    assert(edge_check(0xfffffffb762a1830u64, 133, 3));
    assert(edge_check(0xfffffffb762a1830u64, 133, 4));
    assert(edge_check(0xfffffffb762a1830u64, 133, 5));
    assert(edge_check(0xfffffffb762a1830u64, 133, 6));
    assert(edge_check(0xfffffffb762a1830u64, 133, 7));
    assert(edge_check(0xfffffffb762a1830u64, 133, 8));
    assert(edge_check(0xfffffffb762a1830u64, 133, 9));
    assert(edge_check(0xfffffffb762a1830u64, 133, 10));
    assert(edge_check(0xfffffffb762a1830u64, 133, 11));
}

#[verifier::spinoff_prover]
proof fn lemma_row_134()
    ensures
        row_checks(TRI_TABLE[134], 134),
{
    reveal(row_entry);
    reveal(faces_inward);
    reveal(dot);
    reveal(triangle_normal);
    reveal(corner_solid);
    reveal(entry_check);
    reveal(triangle_check);
    reveal(edge_check);
    assert(TRI_TABLE[134] == 0xfffffffb760292a9u64);
    assert(entry_check(0xfffffffb760292a9u64, 134, 0));
    assert(entry_check(0xfffffffb760292a9u64, 134, 1));
    assert(entry_check(0xfffffffb760292a9u64, 134, 2));
    assert(entry_check(0xfffffffb760292a9u64, 134, 3));
    assert(entry_check(0xfffffffb760292a9u64, 134, 4));
    assert(entry_check(0xfffffffb760292a9u64, 134, 5));
    assert(entry_check(0xfffffffb760292a9u64, 134, 6));
    assert(entry_check(0xfffffffb760292a9u64, 134, 7));
    assert(entry_check(0xfffffffb760292a9u64, 134, 8));
    assert(entry_check(0xfffffffb760292a9u64, 134, 9));
    assert(entry_check(0xfffffffb760292a9u64, 134, 10));
    assert(entry_check(0xfffffffb760292a9u64, 134, 11));
    assert(entry_check(0xfffffffb760292a9u64, 134, 12));
    assert(entry_check(0xfffffffb760292a9u64, 134, 13));
    assert(entry_check(0xfffffffb760292a9u64, 134, 14));
    assert(entry_check(0xfffffffb760292a9u64, 134, 15));
    assert(triangle_check(0xfffffffb760292a9u64, 134, 0));
    assert(triangle_check(0xfffffffb760292a9u64, 134, 1));
    assert(triangle_check(0xfffffffb760292a9u64, 134, 2));
    assert(triangle_check(0xfffffffb760292a9u64, 134, 3));
    assert(triangle_check(0xfffffffb760292a9u64, 134, 4));
    assert(edge_check(0xfffffffb760292a9u64, 134, 0));
    assert(edge_check(0xfffffffb760292a9u64, 134, 1));
    assert(edge_check(0xfffffffb760292a9u64, 134, 2));
    assert(edge_check(0xfffffffb760292a9u64, 134, 3));
    assert(edge_check(0xfffffffb760292a9u64, 134, 4));
    assert(edge_check(0xfffffffb760292a9u64, 134, 5));
    assert(edge_check(0xfffffffb760292a9u64, 134, 6));
    assert(edge_check(0xfffffffb760292a9u64, 134, 7));
    assert(edge_check(0xfffffffb760292a9u64, 134, 8));
    assert(edge_check(0xfffffffb760292a9u64, 134, 9));
    assert(edge_check(0xfffffffb760292a9u64, 134, 10));
    assert(edge_check(0xfffffffb760292a9u64, 134, 11));
}

#[verifier::spinoff_prover]
proof fn lemma_row_135()
    ensures
        row_checks(TRI_TABLE[135], 135),
{
    reveal(row_entry);
    reveal(faces_inward);
    reveal(dot);
    reveal(triangle_normal);
    reveal(corner_solid);
    reveal(entry_check);
    reveal(triangle_check);
    reveal(edge_check);
    assert(TRI_TABLE[135] == 0xffffb763282a8a98u64);
    assert(entry_check(0xffffb763282a8a98u64, 135, 0));
    assert(entry_check(0xffffb763282a8a98u64, 135, 1));
    assert(entry_check(0xffffb763282a8a98u64, 135, 2));
    assert(entry_check(0xffffb763282a8a98u64, 135, 3));
    assert(entry_check(0xffffb763282a8a98u64, 135, 4));
    assert(entry_check(0xffffb763282a8a98u64, 135, 5));
    assert(entry_check(0xffffb763282a8a98u64, 135, 6));
    assert(entry_check(0xffffb763282a8a98u64, 135, 7));
    assert(entry_check(0xffffb763282a8a98u64, 135, 8));
    assert(entry_check(0xffffb763282a8a98u64, 135, 9));
    assert(entry_check(0xffffb763282a8a98u64, 135, 10));
    assert(entry_check(0xffffb763282a8a98u64, 135, 11));
    assert(entry_check(0xffffb763282a8a98u64, 135, 12));
    assert(entry_check(0xffffb763282a8a98u64, 135, 13));
    assert(entry_check(0xffffb763282a8a98u64, 135, 14));
    assert(entry_check(0xffffb763282a8a98u64, 135, 15));
    assert(triangle_check(0xffffb763282a8a98u64, 135, 0));
    assert(triangle_check(0xffffb763282a8a98u64, 135, 1));
    assert(triangle_check(0xffffb763282a8a98u64, 135, 2));
    assert(triangle_check(0xffffb763282a8a98u64, 135, 3));
    assert(triangle_check(0xffffb763282a8a98u64, 135, 4));
    assert(edge_check(0xffffb763282a8a98u64, 135, 0));
    assert(edge_check(0xffffb763282a8a98u64, 135, 1));
    assert(edge_check(0xffffb763282a8a98u64, 135, 2));
    assert(edge_check(0xffffb763282a8a98u64, 135, 3));
    assert(edge_check(0xffffb763282a8a98u64, 135, 4));
    assert(edge_check(0xffffb763282a8a98u64, 135, 5));
    assert(edge_check(0xffffb763282a8a98u64, 135, 6));
    assert(edge_check(0xffffb763282a8a98u64, 135, 7));
    assert(edge_check(0xffffb763282a8a98u64, 135, 8));
    assert(edge_check(0xffffb763282a8a98u64, 135, 9));
    assert(edge_check(0xffffb763282a8a98u64, 135, 10));
    assert(edge_check(0xffffb763282a8a98u64, 135, 11));
}

#[verifier::spinoff_prover]
proof fn lemma_row_136()
    ensures
        row_checks(TRI_TABLE[136], 136),
{
    reveal(row_entry);
    reveal(faces_inward);
    reveal(dot);
    reveal(triangle_normal);
    reveal(corner_solid);
    reveal(entry_check);
    reveal(triangle_check);
    reveal(edge_check);
    assert(TRI_TABLE[136] == 0xffffffffff236376u64);
    assert(entry_check(0xffffffffff236376u64, 136, 0));
    assert(entry_check(0xffffffffff236376u64, 136, 1));
    assert(entry_check(0xffffffffff236376u64, 136, 2));
    assert(entry_check(0xffffffffff236376u64, 136, 3));
    assert(entry_check(0xffffffffff236376u64, 136, 4));
    assert(entry_check(0xffffffffff236376u64, 136, 5));
    assert(entry_check(0xffffffffff236376u64, 136, 6));
    assert(entry_check(0xffffffffff236376u64, 136, 7));
    assert(entry_check(0xffffffffff236376u64, 136, 8));
    assert(entry_check(0xffffffffff236376u64, 136, 9));
    assert(entry_check(0xffffffffff236376u64, 136, 10));
    assert(entry_check(0xffffffffff236376u64, 136, 11));
    assert(entry_check(0xffffffffff236376u64, 136, 12));
    assert(entry_check(0xffffffffff236376u64, 136, 13));
    assert(entry_check(0xffffffffff236376u64, 136, 14));
    assert(entry_check(0xffffffffff236376u64, 136, 15));
    assert(triangle_check(0xffffffffff236376u64, 136, 0));
    assert(triangle_check(0xffffffffff236376u64, 136, 1));
    assert(triangle_check(0xffffffffff236376u64, 136, 2));
    assert(triangle_check(0xffffffffff236376u64, 136, 3));
    assert(triangle_check(0xffffffffff236376u64, 136, 4));
    assert(edge_check(0xffffffffff236376u64, 136, 0));
    assert(edge_check(0xffffffffff236376u64, 136, 1));
    assert(edge_check(0xffffffffff236376u64, 136, 2));
    assert(edge_check(0xffffffffff236376u64, 136, 3));
    assert(edge_check(0xffffffffff236376u64, 136, 4));
    assert(edge_check(0xffffffffff236376u64, 136, 5));
    assert(edge_check(0xffffffffff236376u64, 136, 6));
    assert(edge_check(0xffffffffff236376u64, 136, 7));
    assert(edge_check(0xffffffffff236376u64, 136, 8));
    assert(edge_check(0xffffffffff236376u64, 136, 9));
    assert(edge_check(0xffffffffff236376u64, 136, 10));
    assert(edge_check(0xffffffffff236376u64, 136, 11));
}

#[verifier::spinoff_prover]
proof fn lemma_row_137()
    ensures
        row_checks(TRI_TABLE[137], 137),
{
    reveal(row_entry);
    reveal(faces_inward);
    reveal(dot);
    reveal(triangle_normal);
    reveal(corner_solid);
    reveal(entry_check);
    reveal(triangle_check);
    reveal(edge_check);
    assert(TRI_TABLE[137] == 0xfffffff870760620u64);
    assert(entry_check(0xfffffff870760620u64, 137, 0));
    assert(entry_check(0xfffffff870760620u64, 137, 1));
    assert(entry_check(0xfffffff870760620u64, 137, 2));
    assert(entry_check(0xfffffff870760620u64, 137, 3));
    assert(entry_check(0xfffffff870760620u64, 137, 4));
    assert(entry_check(0xfffffff870760620u64, 137, 5));
    assert(entry_check(0xfffffff870760620u64, 137, 6));
    assert(entry_check(0xfffffff870760620u64, 137, 7));
    assert(entry_check(0xfffffff870760620u64, 137, 8));
    assert(entry_check(0xfffffff870760620u64, 137, 9));
    assert(entry_check(0xfffffff870760620u64, 137, 10));
    assert(entry_check(0xfffffff870760620u64, 137, 11));
    assert(entry_check(0xfffffff870760620u64, 137, 12));
    assert(entry_check(0xfffffff870760620u64, 137, 13));
    assert(entry_check(0xfffffff870760620u64, 137, 14));
    assert(entry_check(0xfffffff870760620u64, 137, 15));
    assert(triangle_check(0xfffffff870760620u64, 137, 0));
    assert(triangle_check(0xfffffff870760620u64, 137, 1));
    assert(triangle_check(0xfffffff870760620u64, 137, 2));
    assert(triangle_check(0xfffffff870760620u64, 137, 3));
    assert(triangle_check(0xfffffff870760620u64, 137, 4));
    assert(edge_check(0xfffffff870760620u64, 137, 0));
    assert(edge_check(0xfffffff870760620u64, 137, 1));
    assert(edge_check(0xfffffff870760620u64, 137, 2));
    assert(edge_check(0xfffffff870760620u64, 137, 3));
    assert(edge_check(0xfffffff870760620u64, 137, 4));
    assert(edge_check(0xfffffff870760620u64, 137, 5));
    assert(edge_check(0xfffffff870760620u64, 137, 6));
    assert(edge_check(0xfffffff870760620u64, 137, 7));
    assert(edge_check(0xfffffff870760620u64, 137, 8));
    assert(edge_check(0xfffffff870760620u64, 137, 9));
    assert(edge_check(0xfffffff870760620u64, 137, 10));
    assert(edge_check(0xfffffff870760620u64, 137, 11));
}

#[verifier::spinoff_prover]
proof fn lemma_row_138()
    ensures
        row_checks(TRI_TABLE[138], 138),
{
    reveal(row_entry);
    reveal(faces_inward);
    reveal(dot);
    reveal(triangle_normal);
    reveal(corner_solid);
    reveal(entry_check);
    reveal(triangle_check);
    reveal(edge_check);
    assert(TRI_TABLE[138] == 0xfffffff236376019u64);
    assert(entry_check(0xfffffff236376019u64, 138, 0));
    assert(entry_check(0xfffffff236376019u64, 138, 1));
    assert(entry_check(0xfffffff236376019u64, 138, 2));
    assert(entry_check(0xfffffff236376019u64, 138, 3));
    assert(entry_check(0xfffffff236376019u64, 138, 4));
    assert(entry_check(0xfffffff236376019u64, 138, 5));
    assert(entry_check(0xfffffff236376019u64, 138, 6));
    assert(entry_check(0xfffffff236376019u64, 138, 7));
    assert(entry_check(0xfffffff236376019u64, 138, 8));
    assert(entry_check(0xfffffff236376019u64, 138, 9));
    assert(entry_check(0xfffffff236376019u64, 138, 10));
    assert(entry_check(0xfffffff236376019u64, 138, 11));
    assert(entry_check(0xfffffff236376019u64, 138, 12));
    assert(entry_check(0xfffffff236376019u64, 138, 13));
    assert(entry_check(0xfffffff236376019u64, 138, 14));
    assert(entry_check(0xfffffff236376019u64, 138, 15));
    assert(triangle_check(0xfffffff236376019u64, 138, 0));
    assert(triangle_check(0xfffffff236376019u64, 138, 1));
    assert(triangle_check(0xfffffff236376019u64, 138, 2));
    assert(triangle_check(0xfffffff236376019u64, 138, 3));
    assert(triangle_check(0xfffffff236376019u64, 138, 4));
    assert(edge_check(0xfffffff236376019u64, 138, 0));
    assert(edge_check(0xfffffff236376019u64, 138, 1));
    assert(edge_check(0xfffffff236376019u64, 138, 2));
    assert(edge_check(0xfffffff236376019u64, 138, 3));
    assert(edge_check(0xfffffff236376019u64, 138, 4));
    assert(edge_check(0xfffffff236376019u64, 138, 5));
    assert(edge_check(0xfffffff236376019u64, 138, 6));
    assert(edge_check(0xfffffff236376019u64, 138, 7));
    assert(edge_check(0xfffffff236376019u64, 138, 8));
    assert(edge_check(0xfffffff236376019u64, 138, 9));
    assert(edge_check(0xfffffff236376019u64, 138, 10));
    assert(edge_check(0xfffffff236376019u64, 138, 11));
}

#[verifier::spinoff_prover]
proof fn lemma_row_139()
    ensures
        row_checks(TRI_TABLE[139], 139),
{
    reveal(row_entry);
    reveal(faces_inward);
    reveal(dot);
    reveal(triangle_normal);
    reveal(corner_solid);
    reveal(entry_check);
    reveal(triangle_check);
    reveal(edge_check);
    assert(TRI_TABLE[139] == 0xffff192982872762u64);
    assert(entry_check(0xffff192982872762u64, 139, 0));
    assert(entry_check(0xffff192982872762u64, 139, 1));
    assert(entry_check(0xffff192982872762u64, 139, 2));
    assert(entry_check(0xffff192982872762u64, 139, 3));
    assert(entry_check(0xffff192982872762u64, 139, 4));
    assert(entry_check(0xffff192982872762u64, 139, 5));
    assert(entry_check(0xffff192982872762u64, 139, 6));
    assert(entry_check(0xffff192982872762u64, 139, 7));
    assert(entry_check(0xffff192982872762u64, 139, 8));
    assert(entry_check(0xffff192982872762u64, 139, 9));
    assert(entry_check(0xffff192982872762u64, 139, 10));
    assert(entry_check(0xffff192982872762u64, 139, 11));
    assert(entry_check(0xffff192982872762u64, 139, 12));
    assert(entry_check(0xffff192982872762u64, 139, 13));
    assert(entry_check(0xffff192982872762u64, 139, 14));
    assert(entry_check(0xffff192982872762u64, 139, 15));
    assert(triangle_check(0xffff192982872762u64, 139, 0));
    assert(triangle_check(0xffff192982872762u64, 139, 1));
    assert(triangle_check(0xffff192982872762u64, 139, 2));
    assert(triangle_check(0xffff192982872762u64, 139, 3));
    assert(triangle_check(0xffff192982872762u64, 139, 4));
    assert(edge_check(0xffff192982872762u64, 139, 0));
    assert(edge_check(0xffff192982872762u64, 139, 1));
    assert(edge_check(0xffff192982872762u64, 139, 2));
    assert(edge_check(0xffff192982872762u64, 139, 3));
    assert(edge_check(0xffff192982872762u64, 139, 4));
    assert(edge_check(0xffff192982872762u64, 139, 5));
    assert(edge_check(0xffff192982872762u64, 139, 6));
    assert(edge_check(0xffff192982872762u64, 139, 7));
    assert(edge_check(0xffff192982872762u64, 139, 8));
    assert(edge_check(0xffff192982872762u64, 139, 9));
    assert(edge_check(0xffff192982872762u64, 139, 10));
    assert(edge_check(0xffff192982872762u64, 139, 11));
}

#[verifier::spinoff_prover]
proof fn lemma_row_140()
    ensures
        row_checks(TRI_TABLE[140], 140),
{
    reveal(row_entry);
    reveal(faces_inward);
    reveal(dot);
    reveal(triangle_normal);
    reveal(corner_solid);
    reveal(entry_check);
    reveal(triangle_check);
    reveal(edge_check);
    assert(TRI_TABLE[140] == 0xfffffff3717616a1u64);
    assert(entry_check(0xfffffff3717616a1u64, 140, 0));
    assert(entry_check(0xfffffff3717616a1u64, 140, 1));
    assert(entry_check(0xfffffff3717616a1u64, 140, 2));
    assert(entry_check(0xfffffff3717616a1u64, 140, 3));
    assert(entry_check(0xfffffff3717616a1u64, 140, 4));
    assert(entry_check(0xfffffff3717616a1u64, 140, 5));
    assert(entry_check(0xfffffff3717616a1u64, 140, 6));
    assert(entry_check(0xfffffff3717616a1u64, 140, 7));
    assert(entry_check(0xfffffff3717616a1u64, 140, 8));
    assert(entry_check(0xfffffff3717616a1u64, 140, 9));
    assert(entry_check(0xfffffff3717616a1u64, 140, 10));
    assert(entry_check(0xfffffff3717616a1u64, 140, 11));
    assert(entry_check(0xfffffff3717616a1u64, 140, 12));
    assert(entry_check(0xfffffff3717616a1u64, 140, 13));
    assert(entry_check(0xfffffff3717616a1u64, 140, 14));
    assert(entry_check(0xfffffff3717616a1u64, 140, 15));
    assert(triangle_check(0xfffffff3717616a1u64, 140, 0));
    assert(triangle_check(0xfffffff3717616a1u64, 140, 1));
    assert(triangle_check(0xfffffff3717616a1u64, 140, 2));
    assert(triangle_check(0xfffffff3717616a1u64, 140, 3));
    assert(triangle_check(0xfffffff3717616a1u64, 140, 4));
    assert(edge_check(0xfffffff3717616a1u64, 140, 0));
    assert(edge_check(0xfffffff3717616a1u64, 140, 1));
    assert(edge_check(0xfffffff3717616a1u64, 140, 2));
    assert(edge_check(0xfffffff3717616a1u64, 140, 3));
    assert(edge_check(0xfffffff3717616a1u64, 140, 4));
    assert(edge_check(0xfffffff3717616a1u64, 140, 5));
    assert(edge_check(0xfffffff3717616a1u64, 140, 6));
    assert(edge_check(0xfffffff3717616a1u64, 140, 7));
    assert(edge_check(0xfffffff3717616a1u64, 140, 8));
    assert(edge_check(0xfffffff3717616a1u64, 140, 9));
    assert(edge_check(0xfffffff3717616a1u64, 140, 10));
    assert(edge_check(0xfffffff3717616a1u64, 140, 11));
}

#[verifier::spinoff_prover]
proof fn lemma_row_141()
    ensures
        row_checks(TRI_TABLE[141], 141),
{
    reveal(row_entry);
    reveal(faces_inward);
    reveal(dot);
    reveal(triangle_normal);
    reveal(corner_solid);
    reveal(entry_check);
    reveal(triangle_check);
    reveal(edge_check);
    assert(TRI_TABLE[141] == 0xffff8707606a0a10u64);
    assert(entry_check(0xffff8707606a0a10u64, 141, 0));
    assert(entry_check(0xffff8707606a0a10u64, 141, 1));
    assert(entry_check(0xffff8707606a0a10u64, 141, 2));
    assert(entry_check(0xffff8707606a0a10u64, 141, 3));
    assert(entry_check(0xffff8707606a0a10u64, 141, 4));
    assert(entry_check(0xffff8707606a0a10u64, 141, 5));
    assert(entry_check(0xffff8707606a0a10u64, 141, 6));
    assert(entry_check(0xffff8707606a0a10u64, 141, 7));
    assert(entry_check(0xffff8707606a0a10u64, 141, 8));
    assert(entry_check(0xffff8707606a0a10u64, 141, 9));
    assert(entry_check(0xffff8707606a0a10u64, 141, 10));
    assert(entry_check(0xffff8707606a0a10u64, 141, 11));
    assert(entry_check(0xffff8707606a0a10u64, 141, 12));
    assert(entry_check(0xffff8707606a0a10u64, 141, 13));
    assert(entry_check(0xffff8707606a0a10u64, 141, 14));
    assert(entry_check(0xffff8707606a0a10u64, 141, 15));
    assert(triangle_check(0xffff8707606a0a10u64, 141, 0));
    assert(triangle_check(0xffff8707606a0a10u64, 141, 1));
    assert(triangle_check(0xffff8707606a0a10u64, 141, 2));
    assert(triangle_check(0xffff8707606a0a10u64, 141, 3));
    assert(triangle_check(0xffff8707606a0a10u64, 141, 4));
    assert(edge_check(0xffff8707606a0a10u64, 141, 0));
    assert(edge_check(0xffff8707606a0a10u64, 141, 1));
    assert(edge_check(0xffff8707606a0a10u64, 141, 2));
    assert(edge_check(0xffff8707606a0a10u64, 141, 3));
    assert(edge_check(0xffff8707606a0a10u64, 141, 4));
    assert(edge_check(0xffff8707606a0a10u64, 141, 5));
    assert(edge_check(0xffff8707606a0a10u64, 141, 6));
    assert(edge_check(0xffff8707606a0a10u64, 141, 7));
    assert(edge_check(0xffff8707606a0a10u64, 141, 8));
    assert(edge_check(0xffff8707606a0a10u64, 141, 9));
    assert(edge_check(0xffff8707606a0a10u64, 141, 10));
    assert(edge_check(0xffff8707606a0a10u64, 141, 11));
}

#[verifier::spinoff_prover]
proof fn lemma_row_142()
    ensures
        row_checks(TRI_TABLE[142], 142),
{
    reveal(row_entry);
    reveal(faces_inward);
    reveal(dot);
    reveal(triangle_normal);
    reveal(corner_solid);
    reveal(entry_check);
    reveal(triangle_check);
    reveal(edge_check);
    assert(TRI_TABLE[142] == 0xffff0393797696a9u64);
    assert(entry_check(0xffff0393797696a9u64, 142, 0));
    assert(entry_check(0xffff0393797696a9u64, 142, 1));
    assert(entry_check(0xffff0393797696a9u64, 142, 2));
    assert(entry_check(0xffff0393797696a9u64, 142, 3));
    assert(entry_check(0xffff0393797696a9u64, 142, 4));
    assert(entry_check(0xffff0393797696a9u64, 142, 5));
    assert(entry_check(0xffff0393797696a9u64, 142, 6));
    assert(entry_check(0xffff0393797696a9u64, 142, 7));
    assert(entry_check(0xffff0393797696a9u64, 142, 8));
    assert(entry_check(0xffff0393797696a9u64, 142, 9));
    assert(entry_check(0xffff0393797696a9u64, 142, 10));
    assert(entry_check(0xffff0393797696a9u64, 142, 11));
    assert(entry_check(0xffff0393797696a9u64, 142, 12));
    assert(entry_check(0xffff0393797696a9u64, 142, 13));
    assert(entry_check(0xffff0393797696a9u64, 142, 14));
    assert(entry_check(0xffff0393797696a9u64, 142, 15));
    assert(triangle_check(0xffff0393797696a9u64, 142, 0));
    assert(triangle_check(0xffff0393797696a9u64, 142, 1));
    assert(triangle_check(0xffff0393797696a9u64, 142, 2));
    assert(triangle_check(0xffff0393797696a9u64, 142, 3));
    assert(triangle_check(0xffff0393797696a9u64, 142, 4));
    assert(edge_check(0xffff0393797696a9u64, 142, 0));
    assert(edge_check(0xffff0393797696a9u64, 142, 1));
    assert(edge_check(0xffff0393797696a9u64, 142, 2));
    assert(edge_check(0xffff0393797696a9u64, 142, 3));
    assert(edge_check(0xffff0393797696a9u64, 142, 4));
    assert(edge_check(0xffff0393797696a9u64, 142, 5));
    assert(edge_check(0xffff0393797696a9u64, 142, 6));
    assert(edge_check(0xffff0393797696a9u64, 142, 7));
    assert(edge_check(0xffff0393797696a9u64, 142, 8));
    assert(edge_check(0xffff0393797696a9u64, 142, 9));
    assert(edge_check(0xffff0393797696a9u64, 142, 10));
    assert(edge_check(0xffff0393797696a9u64, 142, 11));
}

#[verifier::spinoff_prover]
proof fn lemma_row_143()
    ensures
        row_checks(TRI_TABLE[143], 143),
{
    reveal(row_entry);
    reveal(faces_inward);
    reveal(dot);
    reveal(triangle_normal);
    reveal(corner_solid);
    reveal(entry_check);
    reveal(triangle_check);
    reveal(edge_check);
    assert(TRI_TABLE[143] == 0xfffffff7686a8a98u64);
    assert(entry_check(0xfffffff7686a8a98u64, 143, 0));
    assert(entry_check(0xfffffff7686a8a98u64, 143, 1));
    assert(entry_check(0xfffffff7686a8a98u64, 143, 2));
    assert(entry_check(0xfffffff7686a8a98u64, 143, 3));
    assert(entry_check(0xfffffff7686a8a98u64, 143, 4));
    assert(entry_check(0xfffffff7686a8a98u64, 143, 5));
    assert(entry_check(0xfffffff7686a8a98u64, 143, 6));
    assert(entry_check(0xfffffff7686a8a98u64, 143, 7));
    assert(entry_check(0xfffffff7686a8a98u64, 143, 8));
    assert(entry_check(0xfffffff7686a8a98u64, 143, 9));
    assert(entry_check(0xfffffff7686a8a98u64, 143, 10));
    assert(entry_check(0xfffffff7686a8a98u64, 143, 11));
    assert(entry_check(0xfffffff7686a8a98u64, 143, 12));
    assert(entry_check(0xfffffff7686a8a98u64, 143, 13));
    assert(entry_check(0xfffffff7686a8a98u64, 143, 14));
    assert(entry_check(0xfffffff7686a8a98u64, 143, 15));
    assert(triangle_check(0xfffffff7686a8a98u64, 143, 0));
    assert(triangle_check(0xfffffff7686a8a98u64, 143, 1));
    assert(triangle_check(0xfffffff7686a8a98u64, 143, 2));
    assert(triangle_check(0xfffffff7686a8a98u64, 143, 3));
    assert(triangle_check(0xfffffff7686a8a98u64, 143, 4));
    assert(edge_check(0xfffffff7686a8a98u64, 143, 0));
    assert(edge_check(0xfffffff7686a8a98u64, 143, 1));
    assert(edge_check(0xfffffff7686a8a98u64, 143, 2));
    assert(edge_check(0xfffffff7686a8a98u64, 143, 3));
    assert(edge_check(0xfffffff7686a8a98u64, 143, 4));
    assert(edge_check(0xfffffff7686a8a98u64, 143, 5));
    assert(edge_check(0xfffffff7686a8a98u64, 143, 6));
    assert(edge_check(0xfffffff7686a8a98u64, 143, 7));
    assert(edge_check(0xfffffff7686a8a98u64, 143, 8));
    assert(edge_check(0xfffffff7686a8a98u64, 143, 9));
    assert(edge_check(0xfffffff7686a8a98u64, 143, 10));
    assert(edge_check(0xfffffff7686a8a98u64, 143, 11));
}

#[verifier::spinoff_prover]
proof fn lemma_row_144()
    ensures
        row_checks(TRI_TABLE[144], 144),
{
    reveal(row_entry);
    reveal(faces_inward);
    reveal(dot);
    reveal(triangle_normal);
    reveal(corner_solid);
    reveal(entry_check);
    reveal(triangle_check);
    reveal(edge_check);
    assert(TRI_TABLE[144] == 0xffffffffff4686b8u64);
    assert(entry_check(0xffffffffff4686b8u64, 144, 0));
    assert(entry_check(0xffffffffff4686b8u64, 144, 1));
    assert(entry_check(0xffffffffff4686b8u64, 144, 2));
    assert(entry_check(0xffffffffff4686b8u64, 144, 3));
    assert(entry_check(0xffffffffff4686b8u64, 144, 4));
    assert(entry_check(0xffffffffff4686b8u64, 144, 5));
    assert(entry_check(0xffffffffff4686b8u64, 144, 6));
    assert(entry_check(0xffffffffff4686b8u64, 144, 7));
    assert(entry_check(0xffffffffff4686b8u64, 144, 8));
    assert(entry_check(0xffffffffff4686b8u64, 144, 9));
    assert(entry_check(0xffffffffff4686b8u64, 144, 10));
    assert(entry_check(0xffffffffff4686b8u64, 144, 11));
    assert(entry_check(0xffffffffff4686b8u64, 144, 12));
    assert(entry_check(0xffffffffff4686b8u64, 144, 13));
    assert(entry_check(0xffffffffff4686b8u64, 144, 14));
    assert(entry_check(0xffffffffff4686b8u64, 144, 15));
    assert(triangle_check(0xffffffffff4686b8u64, 144, 0));
    assert(triangle_check(0xffffffffff4686b8u64, 144, 1));
    assert(triangle_check(0xffffffffff4686b8u64, 144, 2));
    assert(triangle_check(0xffffffffff4686b8u64, 144, 3));
    assert(triangle_check(0xffffffffff4686b8u64, 144, 4));
    assert(edge_check(0xffffffffff4686b8u64, 144, 0));
    assert(edge_check(0xffffffffff4686b8u64, 144, 1));
    assert(edge_check(0xffffffffff4686b8u64, 144, 2));
    assert(edge_check(0xffffffffff4686b8u64, 144, 3));
    assert(edge_check(0xffffffffff4686b8u64, 144, 4));
    assert(edge_check(0xffffffffff4686b8u64, 144, 5));
    assert(edge_check(0xffffffffff4686b8u64, 144, 6));
    assert(edge_check(0xffffffffff4686b8u64, 144, 7));
    assert(edge_check(0xffffffffff4686b8u64, 144, 8));
    assert(edge_check(0xffffffffff4686b8u64, 144, 9));
    assert(edge_check(0xffffffffff4686b8u64, 144, 10));
    assert(edge_check(0xffffffffff4686b8u64, 144, 11));
}

#[verifier::spinoff_prover]
proof fn lemma_row_145()
    ensures
        row_checks(TRI_TABLE[145], 145),
{
    reveal(row_entry);
    reveal(faces_inward);
    reveal(dot);
    reveal(triangle_normal);
    reveal(corner_solid);
    reveal(entry_check);
    reveal(triangle_check);
    reveal(edge_check);
    assert(TRI_TABLE[145] == 0xfffffff4606b0b30u64);
    assert(entry_check(0xfffffff4606b0b30u64, 145, 0));
    assert(entry_check(0xfffffff4606b0b30u64, 145, 1));
    assert(entry_check(0xfffffff4606b0b30u64, 145, 2));
    assert(entry_check(0xfffffff4606b0b30u64, 145, 3));
    assert(entry_check(0xfffffff4606b0b30u64, 145, 4));
    assert(entry_check(0xfffffff4606b0b30u64, 145, 5));
    assert(entry_check(0xfffffff4606b0b30u64, 145, 6));
    assert(entry_check(0xfffffff4606b0b30u64, 145, 7));
    assert(entry_check(0xfffffff4606b0b30u64, 145, 8));
    assert(entry_check(0xfffffff4606b0b30u64, 145, 9));
    assert(entry_check(0xfffffff4606b0b30u64, 145, 10));
    assert(entry_check(0xfffffff4606b0b30u64, 145, 11));
    assert(entry_check(0xfffffff4606b0b30u64, 145, 12));
    assert(entry_check(0xfffffff4606b0b30u64, 145, 13));
    assert(entry_check(0xfffffff4606b0b30u64, 145, 14));
    assert(entry_check(0xfffffff4606b0b30u64, 145, 15));
    assert(triangle_check(0xfffffff4606b0b30u64, 145, 0));
    assert(triangle_check(0xfffffff4606b0b30u64, 145, 1));
    assert(triangle_check(0xfffffff4606b0b30u64, 145, 2));
    assert(triangle_check(0xfffffff4606b0b30u64, 145, 3));
    assert(triangle_check(0xfffffff4606b0b30u64, 145, 4));
    assert(edge_check(0xfffffff4606b0b30u64, 145, 0));
    assert(edge_check(0xfffffff4606b0b30u64, 145, 1));
    assert(edge_check(0xfffffff4606b0b30u64, 145, 2));
    assert(edge_check(0xfffffff4606b0b30u64, 145, 3));
    assert(edge_check(0xfffffff4606b0b30u64, 145, 4));
    assert(edge_check(0xfffffff4606b0b30u64, 145, 5));
    assert(edge_check(0xfffffff4606b0b30u64, 145, 6));
    assert(edge_check(0xfffffff4606b0b30u64, 145, 7));
    assert(edge_check(0xfffffff4606b0b30u64, 145, 8));
    assert(edge_check(0xfffffff4606b0b30u64, 145, 9));
    assert(edge_check(0xfffffff4606b0b30u64, 145, 10));
    assert(edge_check(0xfffffff4606b0b30u64, 145, 11));
}

#[verifier::spinoff_prover]
proof fn lemma_row_146()
    ensures
        row_checks(TRI_TABLE[146], 146),
{
    reveal(row_entry);
    reveal(faces_inward);
    reveal(dot);
    reveal(triangle_normal);
    reveal(corner_solid);
    reveal(entry_check);
    reveal(triangle_check);
    reveal(edge_check);
    assert(TRI_TABLE[146] == 0xfffffff4686b8019u64);
    assert(entry_check(0xfffffff4686b8019u64, 146, 0));
    assert(entry_check(0xfffffff4686b8019u64, 146, 1));
    assert(entry_check(0xfffffff4686b8019u64, 146, 2));
    assert(entry_check(0xfffffff4686b8019u64, 146, 3));
    assert(entry_check(0xfffffff4686b8019u64, 146, 4));
    assert(entry_check(0xfffffff4686b8019u64, 146, 5));
    assert(entry_check(0xfffffff4686b8019u64, 146, 6));
    assert(entry_check(0xfffffff4686b8019u64, 146, 7));
    assert(entry_check(0xfffffff4686b8019u64, 146, 8));
    assert(entry_check(0xfffffff4686b8019u64, 146, 9));
    assert(entry_check(0xfffffff4686b8019u64, 146, 10));
    assert(entry_check(0xfffffff4686b8019u64, 146, 11));
    assert(entry_check(0xfffffff4686b8019u64, 146, 12));
    assert(entry_check(0xfffffff4686b8019u64, 146, 13));
    assert(entry_check(0xfffffff4686b8019u64, 146, 14));
    assert(entry_check(0xfffffff4686b8019u64, 146, 15));
    assert(triangle_check(0xfffffff4686b8019u64, 146, 0));
    assert(triangle_check(0xfffffff4686b8019u64, 146, 1));
    assert(triangle_check(0xfffffff4686b8019u64, 146, 2));
    assert(triangle_check(0xfffffff4686b8019u64, 146, 3));
    assert(triangle_check(0xfffffff4686b8019u64, 146, 4));
    assert(edge_check(0xfffffff4686b8019u64, 146, 0));
    assert(edge_check(0xfffffff4686b8019u64, 146, 1));
    assert(edge_check(0xfffffff4686b8019u64, 146, 2));
    assert(edge_check(0xfffffff4686b8019u64, 146, 3));
    assert(edge_check(0xfffffff4686b8019u64, 146, 4));
    assert(edge_check(0xfffffff4686b8019u64, 146, 5));
    assert(edge_check(0xfffffff4686b8019u64, 146, 6));
    assert(edge_check(0xfffffff4686b8019u64, 146, 7));
    assert(edge_check(0xfffffff4686b8019u64, 146, 8));
    assert(edge_check(0xfffffff4686b8019u64, 146, 9));
    assert(edge_check(0xfffffff4686b8019u64, 146, 10));
    assert(edge_check(0xfffffff4686b8019u64, 146, 11));
}

#[verifier::spinoff_prover]
proof fn lemma_row_147()
    ensures
        row_checks(TRI_TABLE[147], 147),
{
    reveal(row_entry);
    reveal(faces_inward);
    reveal(dot);
    reveal(triangle_normal);
    reveal(corner_solid);
    reveal(entry_check);
    reveal(triangle_check);
    reveal(edge_check);
    assert(TRI_TABLE[147] == 0xffff1939434636b3u64);
    assert(entry_check(0xffff1939434636b3u64, 147, 0));
    assert(entry_check(0xffff1939434636b3u64, 147, 1));
    assert(entry_check(0xffff1939434636b3u64, 147, 2));
    assert(entry_check(0xffff1939434636b3u64, 147, 3));
    assert(entry_check(0xffff1939434636b3u64, 147, 4));
    assert(entry_check(0xffff1939434636b3u64, 147, 5));
    assert(entry_check(0xffff1939434636b3u64, 147, 6));
    assert(entry_check(0xffff1939434636b3u64, 147, 7));
    assert(entry_check(0xffff1939434636b3u64, 147, 8));
    assert(entry_check(0xffff1939434636b3u64, 147, 9));
    assert(entry_check(0xffff1939434636b3u64, 147, 10));
    assert(entry_check(0xffff1939434636b3u64, 147, 11));
    assert(entry_check(0xffff1939434636b3u64, 147, 12));
    assert(entry_check(0xffff1939434636b3u64, 147, 13));
    assert(entry_check(0xffff1939434636b3u64, 147, 14));
    assert(entry_check(0xffff1939434636b3u64, 147, 15));
    assert(triangle_check(0xffff1939434636b3u64, 147, 0));
    assert(triangle_check(0xffff1939434636b3u64, 147, 1));
    assert(triangle_check(0xffff1939434636b3u64, 147, 2));
    assert(triangle_check(0xffff1939434636b3u64, 147, 3));
    assert(triangle_check(0xffff1939434636b3u64, 147, 4));
    assert(edge_check(0xffff1939434636b3u64, 147, 0));
    assert(edge_check(0xffff1939434636b3u64, 147, 1));
    assert(edge_check(0xffff1939434636b3u64, 147, 2));
    assert(edge_check(0xffff1939434636b3u64, 147, 3));
    assert(edge_check(0xffff1939434636b3u64, 147, 4));
    assert(edge_check(0xffff1939434636b3u64, 147, 5));
    assert(edge_check(0xffff1939434636b3u64, 147, 6));
    assert(edge_check(0xffff1939434636b3u64, 147, 7));
    assert(edge_check(0xffff1939434636b3u64, 147, 8));
    assert(edge_check(0xffff1939434636b3u64, 147, 9));
    assert(edge_check(0xffff1939434636b3u64, 147, 10));
    assert(edge_check(0xffff1939434636b3u64, 147, 11));
}

#[verifier::spinoff_prover]
proof fn lemma_row_148()
    ensures
        row_checks(TRI_TABLE[148], 148),
{
    reveal(row_entry);
    reveal(faces_inward);
    reveal(dot);
    reveal(triangle_normal);
    reveal(corner_solid);
    reveal(entry_check);
    reveal(triangle_check);
    reveal(edge_check);
    assert(TRI_TABLE[148] == 0xfffffff4686b82a1u64);
    assert(entry_check(0xfffffff4686b82a1u64, 148, 0));
    assert(entry_check(0xfffffff4686b82a1u64, 148, 1));
    assert(entry_check(0xfffffff4686b82a1u64, 148, 2));
    assert(entry_check(0xfffffff4686b82a1u64, 148, 3));
    assert(entry_check(0xfffffff4686b82a1u64, 148, 4));
    assert(entry_check(0xfffffff4686b82a1u64, 148, 5));
    assert(entry_check(0xfffffff4686b82a1u64, 148, 6));
    assert(entry_check(0xfffffff4686b82a1u64, 148, 7));
    assert(entry_check(0xfffffff4686b82a1u64, 148, 8));
    assert(entry_check(0xfffffff4686b82a1u64, 148, 9));
    assert(entry_check(0xfffffff4686b82a1u64, 148, 10));
    assert(entry_check(0xfffffff4686b82a1u64, 148, 11));
    assert(entry_check(0xfffffff4686b82a1u64, 148, 12));
    assert(entry_check(0xfffffff4686b82a1u64, 148, 13));
    assert(entry_check(0xfffffff4686b82a1u64, 148, 14));
    assert(entry_check(0xfffffff4686b82a1u64, 148, 15));
    assert(triangle_check(0xfffffff4686b82a1u64, 148, 0));
    assert(triangle_check(0xfffffff4686b82a1u64, 148, 1));
    assert(triangle_check(0xfffffff4686b82a1u64, 148, 2));
    assert(triangle_check(0xfffffff4686b82a1u64, 148, 3));
    assert(triangle_check(0xfffffff4686b82a1u64, 148, 4));
    assert(edge_check(0xfffffff4686b82a1u64, 148, 0));
    assert(edge_check(0xfffffff4686b82a1u64, 148, 1));
    assert(edge_check(0xfffffff4686b82a1u64, 148, 2));
    assert(edge_check(0xfffffff4686b82a1u64, 148, 3));
    assert(edge_check(0xfffffff4686b82a1u64, 148, 4));
    assert(edge_check(0xfffffff4686b82a1u64, 148, 5));
    assert(edge_check(0xfffffff4686b82a1u64, 148, 6));
    assert(edge_check(0xfffffff4686b82a1u64, 148, 7));
    assert(edge_check(0xfffffff4686b82a1u64, 148, 8));
    assert(edge_check(0xfffffff4686b82a1u64, 148, 9));
    assert(edge_check(0xfffffff4686b82a1u64, 148, 10));
    assert(edge_check(0xfffffff4686b82a1u64, 148, 11));
}

#[verifier::spinoff_prover]
proof fn lemma_row_149()
    ensures
        row_checks(TRI_TABLE[149], 149),
{
    reveal(row_entry);
    reveal(faces_inward);
    reveal(dot);
    reveal(triangle_normal);
    reveal(corner_solid);
    reveal(entry_check);
    reveal(triangle_check);
    reveal(edge_check);
    assert(TRI_TABLE[149] == 0xffff2a14606b0b30u64);
    assert(entry_check(0xffff2a14606b0b30u64, 149, 0));
    assert(entry_check(0xffff2a14606b0b30u64, 149, 1));
    assert(entry_check(0xffff2a14606b0b30u64, 149, 2));
    assert(entry_check(0xffff2a14606b0b30u64, 149, 3));
    assert(entry_check(0xffff2a14606b0b30u64, 149, 4));
    assert(entry_check(0xffff2a14606b0b30u64, 149, 5));
    assert(entry_check(0xffff2a14606b0b30u64, 149, 6));
    assert(entry_check(0xffff2a14606b0b30u64, 149, 7));
    assert(entry_check(0xffff2a14606b0b30u64, 149, 8));
    assert(entry_check(0xffff2a14606b0b30u64, 149, 9));
    assert(entry_check(0xffff2a14606b0b30u64, 149, 10));
    assert(entry_check(0xffff2a14606b0b30u64, 149, 11));
    assert(entry_check(0xffff2a14606b0b30u64, 149, 12));
    assert(entry_check(0xffff2a14606b0b30u64, 149, 13));
    assert(entry_check(0xffff2a14606b0b30u64, 149, 14));
    assert(entry_check(0xffff2a14606b0b30u64, 149, 15));
    assert(triangle_check(0xffff2a14606b0b30u64, 149, 0));
    assert(triangle_check(0xffff2a14606b0b30u64, 149, 1));
    assert(triangle_check(0xffff2a14606b0b30u64, 149, 2));
    assert(triangle_check(0xffff2a14606b0b30u64, 149, 3));
    assert(triangle_check(0xffff2a14606b0b30u64, 149, 4));
    assert(edge_check(0xffff2a14606b0b30u64, 149, 0));
    assert(edge_check(0xffff2a14606b0b30u64, 149, 1));
    assert(edge_check(0xffff2a14606b0b30u64, 149, 2));
    assert(edge_check(0xffff2a14606b0b30u64, 149, 3));
    assert(edge_check(0xffff2a14606b0b30u64, 149, 4));
    assert(edge_check(0xffff2a14606b0b30u64, 149, 5));
    assert(edge_check(0xffff2a14606b0b30u64, 149, 6));
    assert(edge_check(0xffff2a14606b0b30u64, 149, 7));
    assert(edge_check(0xffff2a14606b0b30u64, 149, 8));
    assert(edge_check(0xffff2a14606b0b30u64, 149, 9));
    assert(edge_check(0xffff2a14606b0b30u64, 149, 10));
    assert(edge_check(0xffff2a14606b0b30u64, 149, 11));
}

#[verifier::spinoff_prover]
proof fn lemma_row_150()
    ensures
        row_checks(TRI_TABLE[150], 150),
{
    reveal(row_entry);
    reveal(faces_inward);
    reveal(dot);
    reveal(triangle_normal);
    reveal(corner_solid);
    reveal(entry_check);
    reveal(triangle_check);
    reveal(edge_check);
    assert(TRI_TABLE[150] == 0xffff4686b80292a9u64);
    assert(entry_check(0xffff4686b80292a9u64, 150, 0));
    assert(entry_check(0xffff4686b80292a9u64, 150, 1));
    assert(entry_check(0xffff4686b80292a9u64, 150, 2));
    assert(entry_check(0xffff4686b80292a9u64, 150, 3));
    assert(entry_check(0xffff4686b80292a9u64, 150, 4));
    assert(entry_check(0xffff4686b80292a9u64, 150, 5));
    assert(entry_check(0xffff4686b80292a9u64, 150, 6));
    assert(entry_check(0xffff4686b80292a9u64, 150, 7));
    assert(entry_check(0xffff4686b80292a9u64, 150, 8));
    assert(entry_check(0xffff4686b80292a9u64, 150, 9));
    assert(entry_check(0xffff4686b80292a9u64, 150, 10));
    assert(entry_check(0xffff4686b80292a9u64, 150, 11));
    assert(entry_check(0xffff4686b80292a9u64, 150, 12));
    assert(entry_check(0xffff4686b80292a9u64, 150, 13));
    assert(entry_check(0xffff4686b80292a9u64, 150, 14));
    assert(entry_check(0xffff4686b80292a9u64, 150, 15));
    assert(triangle_check(0xffff4686b80292a9u64, 150, 0));
    assert(triangle_check(0xffff4686b80292a9u64, 150, 1));
    assert(triangle_check(0xffff4686b80292a9u64, 150, 2));
    assert(triangle_check(0xffff4686b80292a9u64, 150, 3));
    assert(triangle_check(0xffff4686b80292a9u64, 150, 4));
    assert(edge_check(0xffff4686b80292a9u64, 150, 0));
    assert(edge_check(0xffff4686b80292a9u64, 150, 1));
    assert(edge_check(0xffff4686b80292a9u64, 150, 2));
    assert(edge_check(0xffff4686b80292a9u64, 150, 3));
    assert(edge_check(0xffff4686b80292a9u64, 150, 4));
    assert(edge_check(0xffff4686b80292a9u64, 150, 5));
    assert(edge_check(0xffff4686b80292a9u64, 150, 6));
    assert(edge_check(0xffff4686b80292a9u64, 150, 7));
    assert(edge_check(0xffff4686b80292a9u64, 150, 8));
    assert(edge_check(0xffff4686b80292a9u64, 150, 9));
    assert(edge_check(0xffff4686b80292a9u64, 150, 10));
    assert(edge_check(0xffff4686b80292a9u64, 150, 11));
}

#[verifier::spinoff_prover]
proof fn lemma_row_151()
    ensures
        row_checks(TRI_TABLE[151], 151),
{
    reveal(row_entry);
    reveal(faces_inward);
    reveal(dot);
    reveal(triangle_normal);
    reveal(corner_solid);
    reveal(entry_check);
    reveal(triangle_check);
    reveal(edge_check);
    assert(TRI_TABLE[151] == 0xf2a3a939434636b3u64);
    assert(entry_check(0xf2a3a939434636b3u64, 151, 0));
    assert(entry_check(0xf2a3a939434636b3u64, 151, 1));
    assert(entry_check(0xf2a3a939434636b3u64, 151, 2));
    assert(entry_check(0xf2a3a939434636b3u64, 151, 3));
    assert(entry_check(0xf2a3a939434636b3u64, 151, 4));
    assert(entry_check(0xf2a3a939434636b3u64, 151, 5));
    assert(entry_check(0xf2a3a939434636b3u64, 151, 6));
    assert(entry_check(0xf2a3a939434636b3u64, 151, 7));
    assert(entry_check(0xf2a3a939434636b3u64, 151, 8));
    assert(entry_check(0xf2a3a939434636b3u64, 151, 9));
    assert(entry_check(0xf2a3a939434636b3u64, 151, 10));
    assert(entry_check(0xf2a3a939434636b3u64, 151, 11));
    assert(entry_check(0xf2a3a939434636b3u64, 151, 12));
    assert(entry_check(0xf2a3a939434636b3u64, 151, 13));
    assert(entry_check(0xf2a3a939434636b3u64, 151, 14));
    assert(entry_check(0xf2a3a939434636b3u64, 151, 15));
    assert(triangle_check(0xf2a3a939434636b3u64, 151, 0));
    assert(triangle_check(0xf2a3a939434636b3u64, 151, 1));
    assert(triangle_check(0xf2a3a939434636b3u64, 151, 2));
    assert(triangle_check(0xf2a3a939434636b3u64, 151, 3));
    assert(triangle_check(0xf2a3a939434636b3u64, 151, 4));
    assert(edge_check(0xf2a3a939434636b3u64, 151, 0));
    assert(edge_check(0xf2a3a939434636b3u64, 151, 1));
    assert(edge_check(0xf2a3a939434636b3u64, 151, 2));
    assert(edge_check(0xf2a3a939434636b3u64, 151, 3));
    assert(edge_check(0xf2a3a939434636b3u64, 151, 4));
    assert(edge_check(0xf2a3a939434636b3u64, 151, 5));
    assert(edge_check(0xf2a3a939434636b3u64, 151, 6));
    assert(edge_check(0xf2a3a939434636b3u64, 151, 7));
    assert(edge_check(0xf2a3a939434636b3u64, 151, 8));
    assert(edge_check(0xf2a3a939434636b3u64, 151, 9));
    assert(edge_check(0xf2a3a939434636b3u64, 151, 10));
    assert(edge_check(0xf2a3a939434636b3u64, 151, 11));
}

#[verifier::spinoff_prover]
proof fn lemma_row_152()
    ensures
        row_checks(TRI_TABLE[152], 152),
{
    reveal(row_entry);
    reveal(faces_inward);
    reveal(dot);
    reveal(triangle_normal);
    reveal(corner_solid);
    reveal(entry_check);
    reveal(triangle_check);
    reveal(edge_check);
    assert(TRI_TABLE[152] == 0xfffffff624234384u64);
    assert(entry_check(0xfffffff624234384u64, 152, 0));
    assert(entry_check(0xfffffff624234384u64, 152, 1));
    assert(entry_check(0xfffffff624234384u64, 152, 2));
    assert(entry_check(0xfffffff624234384u64, 152, 3));
    assert(entry_check(0xfffffff624234384u64, 152, 4));
    assert(entry_check(0xfffffff624234384u64, 152, 5));
    assert(entry_check(0xfffffff624234384u64, 152, 6));
    assert(entry_check(0xfffffff624234384u64, 152, 7));
    assert(entry_check(0xfffffff624234384u64, 152, 8));
    assert(entry_check(0xfffffff624234384u64, 152, 9));
    assert(entry_check(0xfffffff624234384u64, 152, 10));
    assert(entry_check(0xfffffff624234384u64, 152, 11));
    assert(entry_check(0xfffffff624234384u64, 152, 12));
    assert(entry_check(0xfffffff624234384u64, 152, 13));
    assert(entry_check(0xfffffff624234384u64, 152, 14));
    assert(entry_check(0xfffffff624234384u64, 152, 15));
    assert(triangle_check(0xfffffff624234384u64, 152, 0));
    assert(triangle_check(0xfffffff624234384u64, 152, 1));
    assert(triangle_check(0xfffffff624234384u64, 152, 2));
    assert(triangle_check(0xfffffff624234384u64, 152, 3));
    assert(triangle_check(0xfffffff624234384u64, 152, 4));
    assert(edge_check(0xfffffff624234384u64, 152, 0));
    assert(edge_check(0xfffffff624234384u64, 152, 1));
    assert(edge_check(0xfffffff624234384u64, 152, 2));
    assert(edge_check(0xfffffff624234384u64, 152, 3));
    assert(edge_check(0xfffffff624234384u64, 152, 4));
    assert(edge_check(0xfffffff624234384u64, 152, 5));
    assert(edge_check(0xfffffff624234384u64, 152, 6));
    assert(edge_check(0xfffffff624234384u64, 152, 7));
    assert(edge_check(0xfffffff624234384u64, 152, 8));
    assert(edge_check(0xfffffff624234384u64, 152, 9));
    assert(edge_check(0xfffffff624234384u64, 152, 10));
    assert(edge_check(0xfffffff624234384u64, 152, 11));
}

#[verifier::spinoff_prover]
proof fn lemma_row_153()
    ensures
        row_checks(TRI_TABLE[153], 153),
{
    reveal(row_entry);
    reveal(faces_inward);
    reveal(dot);
    reveal(triangle_normal);
    reveal(corner_solid);
    reveal(entry_check);
    reveal(triangle_check);
    reveal(edge_check);
    assert(TRI_TABLE[153] == 0xffffffffff460620u64);
    assert(entry_check(0xffffffffff460620u64, 153, 0));
    assert(entry_check(0xffffffffff460620u64, 153, 1));
    assert(entry_check(0xffffffffff460620u64, 153, 2));
    assert(entry_check(0xffffffffff460620u64, 153, 3));
    assert(entry_check(0xffffffffff460620u64, 153, 4));
    assert(entry_check(0xffffffffff460620u64, 153, 5));
    assert(entry_check(0xffffffffff460620u64, 153, 6));
    assert(entry_check(0xffffffffff460620u64, 153, 7));
    assert(entry_check(0xffffffffff460620u64, 153, 8));
    assert(entry_check(0xffffffffff460620u64, 153, 9));
    assert(entry_check(0xffffffffff460620u64, 153, 10));
    assert(entry_check(0xffffffffff460620u64, 153, 11));
    assert(entry_check(0xffffffffff460620u64, 153, 12));
    assert(entry_check(0xffffffffff460620u64, 153, 13));
    assert(entry_check(0xffffffffff460620u64, 153, 14));
    assert(entry_check(0xffffffffff460620u64, 153, 15));
    assert(triangle_check(0xffffffffff460620u64, 153, 0));
    assert(triangle_check(0xffffffffff460620u64, 153, 1));
    assert(triangle_check(0xffffffffff460620u64, 153, 2));
    assert(triangle_check(0xffffffffff460620u64, 153, 3));
    assert(triangle_check(0xffffffffff460620u64, 153, 4));
    assert(edge_check(0xffffffffff460620u64, 153, 0));
    assert(edge_check(0xffffffffff460620u64, 153, 1));
    assert(edge_check(0xffffffffff460620u64, 153, 2));
    assert(edge_check(0xffffffffff460620u64, 153, 3));
    assert(edge_check(0xffffffffff460620u64, 153, 4));
    assert(edge_check(0xffffffffff460620u64, 153, 5));
    assert(edge_check(0xffffffffff460620u64, 153, 6));
    assert(edge_check(0xffffffffff460620u64, 153, 7));
    assert(edge_check(0xffffffffff460620u64, 153, 8));
    assert(edge_check(0xffffffffff460620u64, 153, 9));
    assert(edge_check(0xffffffffff460620u64, 153, 10));
    assert(edge_check(0xffffffffff460620u64, 153, 11));
}

#[verifier::spinoff_prover]
proof fn lemma_row_154()
    ensures
        row_checks(TRI_TABLE[154], 154),
{
    reveal(row_entry);
    reveal(faces_inward);
    reveal(dot);
    reveal(triangle_normal);
    reveal(corner_solid);
    reveal(entry_check);
    reveal(triangle_check);
    reveal(edge_check);
    assert(TRI_TABLE[154] == 0xffff624234384019u64);
    assert(entry_check(0xffff624234384019u64, 154, 0));
    assert(entry_check(0xffff624234384019u64, 154, 1));
    assert(entry_check(0xffff624234384019u64, 154, 2));
    assert(entry_check(0xffff624234384019u64, 154, 3));
    assert(entry_check(0xffff624234384019u64, 154, 4));
    assert(entry_check(0xffff624234384019u64, 154, 5));
    assert(entry_check(0xffff624234384019u64, 154, 6));
    assert(entry_check(0xffff624234384019u64, 154, 7));
    assert(entry_check(0xffff624234384019u64, 154, 8));
    assert(entry_check(0xffff624234384019u64, 154, 9));
    assert(entry_check(0xffff624234384019u64, 154, 10));
    assert(entry_check(0xffff624234384019u64, 154, 11));
    assert(entry_check(0xffff624234384019u64, 154, 12));
    assert(entry_check(0xffff624234384019u64, 154, 13));
    assert(entry_check(0xffff624234384019u64, 154, 14));
    assert(entry_check(0xffff624234384019u64, 154, 15));
    assert(triangle_check(0xffff624234384019u64, 154, 0));
    assert(triangle_check(0xffff624234384019u64, 154, 1));
    assert(triangle_check(0xffff624234384019u64, 154, 2));
    assert(triangle_check(0xffff624234384019u64, 154, 3));
    assert(triangle_check(0xffff624234384019u64, 154, 4));
    assert(edge_check(0xffff624234384019u64, 154, 0));
    assert(edge_check(0xffff624234384019u64, 154, 1));
    assert(edge_check(0xffff624234384019u64, 154, 2));
    assert(edge_check(0xffff624234384019u64, 154, 3));
    assert(edge_check(0xffff624234384019u64, 154, 4));
    assert(edge_check(0xffff624234384019u64, 154, 5));
    assert(edge_check(0xffff624234384019u64, 154, 6));
    assert(edge_check(0xffff624234384019u64, 154, 7));
    assert(edge_check(0xffff624234384019u64, 154, 8));
    assert(edge_check(0xffff624234384019u64, 154, 9));
    assert(edge_check(0xffff624234384019u64, 154, 10));
    assert(edge_check(0xffff624234384019u64, 154, 11));
}

#[verifier::spinoff_prover]
proof fn lemma_row_155()
    ensures
        row_checks(TRI_TABLE[155], 155),
{
    reveal(row_entry);
    reveal(faces_inward);
    reveal(dot);
    reveal(triangle_normal);
    reveal(corner_solid);
    reveal(entry_check);
    reveal(triangle_check);
    reveal(edge_check);
    assert(TRI_TABLE[155] == 0xfffffff192942462u64);
    assert(entry_check(0xfffffff192942462u64, 155, 0));
    assert(entry_check(0xfffffff192942462u64, 155, 1));
    assert(entry_check(0xfffffff192942462u64, 155, 2));
    assert(entry_check(0xfffffff192942462u64, 155, 3));
    assert(entry_check(0xfffffff192942462u64, 155, 4));
    assert(entry_check(0xfffffff192942462u64, 155, 5));
    assert(entry_check(0xfffffff192942462u64, 155, 6));
    assert(entry_check(0xfffffff192942462u64, 155, 7));
    assert(entry_check(0xfffffff192942462u64, 155, 8));
    assert(entry_check(0xfffffff192942462u64, 155, 9));
    assert(entry_check(0xfffffff192942462u64, 155, 10));
    assert(entry_check(0xfffffff192942462u64, 155, 11));
    assert(entry_check(0xfffffff192942462u64, 155, 12));
    assert(entry_check(0xfffffff192942462u64, 155, 13));
    assert(entry_check(0xfffffff192942462u64, 155, 14));
    assert(entry_check(0xfffffff192942462u64, 155, 15));
    assert(triangle_check(0xfffffff192942462u64, 155, 0));
    assert(triangle_check(0xfffffff192942462u64, 155, 1));
    assert(triangle_check(0xfffffff192942462u64, 155, 2));
    assert(triangle_check(0xfffffff192942462u64, 155, 3));
    assert(triangle_check(0xfffffff192942462u64, 155, 4));
    assert(edge_check(0xfffffff192942462u64, 155, 0));
    assert(edge_check(0xfffffff192942462u64, 155, 1));
    assert(edge_check(0xfffffff192942462u64, 155, 2));
    assert(edge_check(0xfffffff192942462u64, 155, 3));
    assert(edge_check(0xfffffff192942462u64, 155, 4));
    assert(edge_check(0xfffffff192942462u64, 155, 5));
    assert(edge_check(0xfffffff192942462u64, 155, 6));
    assert(edge_check(0xfffffff192942462u64, 155, 7));
    assert(edge_check(0xfffffff192942462u64, 155, 8));
    assert(edge_check(0xfffffff192942462u64, 155, 9));
    assert(edge_check(0xfffffff192942462u64, 155, 10));
    assert(edge_check(0xfffffff192942462u64, 155, 11));
}

#[verifier::spinoff_prover]
proof fn lemma_row_156()
    ensures
        row_checks(TRI_TABLE[156], 156),
{
    reveal(row_entry);
    reveal(faces_inward);
    reveal(dot);
    reveal(triangle_normal);
    reveal(corner_solid);
    reveal(entry_check);
    reveal(triangle_check);
    reveal(edge_check);
    assert(TRI_TABLE[156] == 0xffff3818414616a1u64);
    assert(entry_check(0xffff3818414616a1u64, 156, 0));
    assert(entry_check(0xffff3818414616a1u64, 156, 1));
    assert(entry_check(0xffff3818414616a1u64, 156, 2));
    assert(entry_check(0xffff3818414616a1u64, 156, 3));
    assert(entry_check(0xffff3818414616a1u64, 156, 4));
    assert(entry_check(0xffff3818414616a1u64, 156, 5));
    assert(entry_check(0xffff3818414616a1u64, 156, 6));
    assert(entry_check(0xffff3818414616a1u64, 156, 7));
    assert(entry_check(0xffff3818414616a1u64, 156, 8));
    assert(entry_check(0xffff3818414616a1u64, 156, 9));
    assert(entry_check(0xffff3818414616a1u64, 156, 10));
    assert(entry_check(0xffff3818414616a1u64, 156, 11));
    assert(entry_check(0xffff3818414616a1u64, 156, 12));
    assert(entry_check(0xffff3818414616a1u64, 156, 13));
    assert(entry_check(0xffff3818414616a1u64, 156, 14));
    assert(entry_check(0xffff3818414616a1u64, 156, 15));
    assert(triangle_check(0xffff3818414616a1u64, 156, 0));
    assert(triangle_check(0xffff3818414616a1u64, 156, 1));
    assert(triangle_check(0xffff3818414616a1u64, 156, 2));
    assert(triangle_check(0xffff3818414616a1u64, 156, 3));
    assert(triangle_check(0xffff3818414616a1u64, 156, 4));
    assert(edge_check(0xffff3818414616a1u64, 156, 0));
    assert(edge_check(0xffff3818414616a1u64, 156, 1));
    assert(edge_check(0xffff3818414616a1u64, 156, 2));
    assert(edge_check(0xffff3818414616a1u64, 156, 3));
    assert(edge_check(0xffff3818414616a1u64, 156, 4));
    assert(edge_check(0xffff3818414616a1u64, 156, 5));
    assert(edge_check(0xffff3818414616a1u64, 156, 6));
    assert(edge_check(0xffff3818414616a1u64, 156, 7));
    assert(edge_check(0xffff3818414616a1u64, 156, 8));
    assert(edge_check(0xffff3818414616a1u64, 156, 9));
    assert(edge_check(0xffff3818414616a1u64, 156, 10));
    assert(edge_check(0xffff3818414616a1u64, 156, 11));
}

#[verifier::spinoff_prover]
proof fn lemma_row_157()
    ensures
        row_checks(TRI_TABLE[157], 157),
{
    reveal(row_entry);
    reveal(faces_inward);
    reveal(dot);
    reveal(triangle_normal);
    reveal(corner_solid);
    reveal(entry_check);
    reveal(triangle_check);
    reveal(edge_check);
    assert(TRI_TABLE[157] == 0xfffffff4606a0a10u64);
    assert(entry_check(0xfffffff4606a0a10u64, 157, 0));
    assert(entry_check(0xfffffff4606a0a10u64, 157, 1));
    assert(entry_check(0xfffffff4606a0a10u64, 157, 2));
    assert(entry_check(0xfffffff4606a0a10u64, 157, 3));
    assert(entry_check(0xfffffff4606a0a10u64, 157, 4));
    assert(entry_check(0xfffffff4606a0a10u64, 157, 5));
    assert(entry_check(0xfffffff4606a0a10u64, 157, 6));
    assert(entry_check(0xfffffff4606a0a10u64, 157, 7));
    assert(entry_check(0xfffffff4606a0a10u64, 157, 8));
    assert(entry_check(0xfffffff4606a0a10u64, 157, 9));
    assert(entry_check(0xfffffff4606a0a10u64, 157, 10));
    assert(entry_check(0xfffffff4606a0a10u64, 157, 11));
    assert(entry_check(0xfffffff4606a0a10u64, 157, 12));
    assert(entry_check(0xfffffff4606a0a10u64, 157, 13));
    assert(entry_check(0xfffffff4606a0a10u64, 157, 14));
    assert(entry_check(0xfffffff4606a0a10u64, 157, 15));
    assert(triangle_check(0xfffffff4606a0a10u64, 157, 0));
    assert(triangle_check(0xfffffff4606a0a10u64, 157, 1));
    assert(triangle_check(0xfffffff4606a0a10u64, 157, 2));
    assert(triangle_check(0xfffffff4606a0a10u64, 157, 3));
    assert(triangle_check(0xfffffff4606a0a10u64, 157, 4));
    assert(edge_check(0xfffffff4606a0a10u64, 157, 0));
    assert(edge_check(0xfffffff4606a0a10u64, 157, 1));
    assert(edge_check(0xfffffff4606a0a10u64, 157, 2));
    assert(edge_check(0xfffffff4606a0a10u64, 157, 3));
    assert(edge_check(0xfffffff4606a0a10u64, 157, 4));
    assert(edge_check(0xfffffff4606a0a10u64, 157, 5));
    assert(edge_check(0xfffffff4606a0a10u64, 157, 6));
    assert(edge_check(0xfffffff4606a0a10u64, 157, 7));
    assert(edge_check(0xfffffff4606a0a10u64, 157, 8));
    assert(edge_check(0xfffffff4606a0a10u64, 157, 9));
    assert(edge_check(0xfffffff4606a0a10u64, 157, 10));
    assert(edge_check(0xfffffff4606a0a10u64, 157, 11));
}

#[verifier::spinoff_prover]
proof fn lemma_row_158()
    ensures
        row_checks(TRI_TABLE[158], 158),
{
    reveal(row_entry);
    reveal(faces_inward);
    reveal(dot);
    reveal(triangle_normal);
    reveal(corner_solid);
    reveal(entry_check);
    reveal(triangle_check);
    reveal(edge_check);
    assert(TRI_TABLE[158] == 0xf8434636a3a93903u64);
    assert(entry_check(0xf8434636a3a93903u64, 158, 0));
    assert(entry_check(0xf8434636a3a93903u64, 158, 1));
    assert(entry_check(0xf8434636a3a93903u64, 158, 2));
    assert(entry_check(0xf8434636a3a93903u64, 158, 3));
    assert(entry_check(0xf8434636a3a93903u64, 158, 4));
    assert(entry_check(0xf8434636a3a93903u64, 158, 5));
    assert(entry_check(0xf8434636a3a93903u64, 158, 6));
    assert(entry_check(0xf8434636a3a93903u64, 158, 7));
    assert(entry_check(0xf8434636a3a93903u64, 158, 8));
    assert(entry_check(0xf8434636a3a93903u64, 158, 9));
    assert(entry_check(0xf8434636a3a93903u64, 158, 10));
    assert(entry_check(0xf8434636a3a93903u64, 158, 11));
    assert(entry_check(0xf8434636a3a93903u64, 158, 12));
    assert(entry_check(0xf8434636a3a93903u64, 158, 13));
    assert(entry_check(0xf8434636a3a93903u64, 158, 14));
    assert(entry_check(0xf8434636a3a93903u64, 158, 15));
    assert(triangle_check(0xf8434636a3a93903u64, 158, 0));
    assert(triangle_check(0xf8434636a3a93903u64, 158, 1));
    assert(triangle_check(0xf8434636a3a93903u64, 158, 2));
    assert(triangle_check(0xf8434636a3a93903u64, 158, 3));
    assert(triangle_check(0xf8434636a3a93903u64, 158, 4));
    assert(edge_check(0xf8434636a3a93903u64, 158, 0));
    assert(edge_check(0xf8434636a3a93903u64, 158, 1));
    assert(edge_check(0xf8434636a3a93903u64, 158, 2));
    assert(edge_check(0xf8434636a3a93903u64, 158, 3));
    assert(edge_check(0xf8434636a3a93903u64, 158, 4));
    assert(edge_check(0xf8434636a3a93903u64, 158, 5));
    assert(edge_check(0xf8434636a3a93903u64, 158, 6));
    assert(edge_check(0xf8434636a3a93903u64, 158, 7));
    assert(edge_check(0xf8434636a3a93903u64, 158, 8));
    assert(edge_check(0xf8434636a3a93903u64, 158, 9));
    assert(edge_check(0xf8434636a3a93903u64, 158, 10));
    assert(edge_check(0xf8434636a3a93903u64, 158, 11));
}

#[verifier::spinoff_prover]
proof fn lemma_row_159()
    ensures
        row_checks(TRI_TABLE[159], 159),
{
    reveal(row_entry);
    reveal(faces_inward);
    reveal(dot);
    reveal(triangle_normal);
    reveal(corner_solid);
    reveal(entry_check);
    reveal(triangle_check);
    reveal(edge_check);
    assert(TRI_TABLE[159] == 0xffffffffff4696a9u64);
    assert(entry_check(0xffffffffff4696a9u64, 159, 0));
    assert(entry_check(0xffffffffff4696a9u64, 159, 1));
    assert(entry_check(0xffffffffff4696a9u64, 159, 2));
    assert(entry_check(0xffffffffff4696a9u64, 159, 3));
    assert(entry_check(0xffffffffff4696a9u64, 159, 4));
    assert(entry_check(0xffffffffff4696a9u64, 159, 5));
    assert(entry_check(0xffffffffff4696a9u64, 159, 6));
    assert(entry_check(0xffffffffff4696a9u64, 159, 7));
    assert(entry_check(0xffffffffff4696a9u64, 159, 8));
    assert(entry_check(0xffffffffff4696a9u64, 159, 9));
    assert(entry_check(0xffffffffff4696a9u64, 159, 10));
    assert(entry_check(0xffffffffff4696a9u64, 159, 11));
    assert(entry_check(0xffffffffff4696a9u64, 159, 12));
    assert(entry_check(0xffffffffff4696a9u64, 159, 13));
    assert(entry_check(0xffffffffff4696a9u64, 159, 14));
    assert(entry_check(0xffffffffff4696a9u64, 159, 15));
    assert(triangle_check(0xffffffffff4696a9u64, 159, 0));
    assert(triangle_check(0xffffffffff4696a9u64, 159, 1));
    assert(triangle_check(0xffffffffff4696a9u64, 159, 2));
    assert(triangle_check(0xffffffffff4696a9u64, 159, 3));
    assert(triangle_check(0xffffffffff4696a9u64, 159, 4));
    assert(edge_check(0xffffffffff4696a9u64, 159, 0));
    assert(edge_check(0xffffffffff4696a9u64, 159, 1));
    assert(edge_check(0xffffffffff4696a9u64, 159, 2));
    assert(edge_check(0xffffffffff4696a9u64, 159, 3));
    assert(edge_check(0xffffffffff4696a9u64, 159, 4));
    assert(edge_check(0xffffffffff4696a9u64, 159, 5));
    assert(edge_check(0xffffffffff4696a9u64, 159, 6));
    assert(edge_check(0xffffffffff4696a9u64, 159, 7));
    assert(edge_check(0xffffffffff4696a9u64, 159, 8));
    assert(edge_check(0xffffffffff4696a9u64, 159, 9));
    assert(edge_check(0xffffffffff4696a9u64, 159, 10));
    assert(edge_check(0xffffffffff4696a9u64, 159, 11));
}

#[verifier::spinoff_prover]
proof fn lemma_row_160()
    ensures
        row_checks(TRI_TABLE[160], 160),
{
    reveal(row_entry);
    reveal(faces_inward);
    reveal(dot);
    reveal(triangle_normal);
    reveal(corner_solid);
    reveal(entry_check);
    reveal(triangle_check);
    reveal(edge_check);
    assert(TRI_TABLE[160] == 0xffffffffffb76954u64);
    assert(entry_check(0xffffffffffb76954u64, 160, 0));
    assert(entry_check(0xffffffffffb76954u64, 160, 1));
    assert(entry_check(0xffffffffffb76954u64, 160, 2));
    assert(entry_check(0xffffffffffb76954u64, 160, 3));
    assert(entry_check(0xffffffffffb76954u64, 160, 4));
    assert(entry_check(0xffffffffffb76954u64, 160, 5));
    assert(entry_check(0xffffffffffb76954u64, 160, 6));
    assert(entry_check(0xffffffffffb76954u64, 160, 7));
    assert(entry_check(0xffffffffffb76954u64, 160, 8));
    assert(entry_check(0xffffffffffb76954u64, 160, 9));
    assert(entry_check(0xffffffffffb76954u64, 160, 10));
    assert(entry_check(0xffffffffffb76954u64, 160, 11));
    assert(entry_check(0xffffffffffb76954u64, 160, 12));
    assert(entry_check(0xffffffffffb76954u64, 160, 13));
    assert(entry_check(0xffffffffffb76954u64, 160, 14));
    assert(entry_check(0xffffffffffb76954u64, 160, 15));
    assert(triangle_check(0xffffffffffb76954u64, 160, 0));
    assert(triangle_check(0xffffffffffb76954u64, 160, 1));
    assert(triangle_check(0xffffffffffb76954u64, 160, 2));
    assert(triangle_check(0xffffffffffb76954u64, 160, 3));
    assert(triangle_check(0xffffffffffb76954u64, 160, 4));
    assert(edge_check(0xffffffffffb76954u64, 160, 0));
    assert(edge_check(0xffffffffffb76954u64, 160, 1));
    assert(edge_check(0xffffffffffb76954u64, 160, 2));
    assert(edge_check(0xffffffffffb76954u64, 160, 3));
    assert(edge_check(0xffffffffffb76954u64, 160, 4));
    assert(edge_check(0xffffffffffb76954u64, 160, 5));
    assert(edge_check(0xffffffffffb76954u64, 160, 6));
    assert(edge_check(0xffffffffffb76954u64, 160, 7));
    assert(edge_check(0xffffffffffb76954u64, 160, 8));
    assert(edge_check(0xffffffffffb76954u64, 160, 9));
    assert(edge_check(0xffffffffffb76954u64, 160, 10));
    assert(edge_check(0xffffffffffb76954u64, 160, 11));
}

#[verifier::spinoff_prover]
proof fn lemma_row_161()
    ensures
        row_checks(TRI_TABLE[161], 161),
{
    reveal(row_entry);
    reveal(faces_inward);
    reveal(dot);
    reveal(triangle_normal);
    reveal(corner_solid);
    reveal(entry_check);
    reveal(triangle_check);
    reveal(edge_check);
    assert(TRI_TABLE[161] == 0xfffffffb76954830u64);
    assert(entry_check(0xfffffffb76954830u64, 161, 0));
    assert(entry_check(0xfffffffb76954830u64, 161, 1));
    assert(entry_check(0xfffffffb76954830u64, 161, 2));
    assert(entry_check(0xfffffffb76954830u64, 161, 3));
    assert(entry_check(0xfffffffb76954830u64, 161, 4));
    assert(entry_check(0xfffffffb76954830u64, 161, 5));
    assert(entry_check(0xfffffffb76954830u64, 161, 6));
    assert(entry_check(0xfffffffb76954830u64, 161, 7));
    assert(entry_check(0xfffffffb76954830u64, 161, 8));
    assert(entry_check(0xfffffffb76954830u64, 161, 9));
    assert(entry_check(0xfffffffb76954830u64, 161, 10));
    assert(entry_check(0xfffffffb76954830u64, 161, 11));
    assert(entry_check(0xfffffffb76954830u64, 161, 12));
    assert(entry_check(0xfffffffb76954830u64, 161, 13));
    assert(entry_check(0xfffffffb76954830u64, 161, 14));
    assert(entry_check(0xfffffffb76954830u64, 161, 15));
    assert(triangle_check(0xfffffffb76954830u64, 161, 0));
    assert(triangle_check(0xfffffffb76954830u64, 161, 1));
    assert(triangle_check(0xfffffffb76954830u64, 161, 2));
    assert(triangle_check(0xfffffffb76954830u64, 161, 3));
    assert(triangle_check(0xfffffffb76954830u64, 161, 4));
    assert(edge_check(0xfffffffb76954830u64, 161, 0));
    assert(edge_check(0xfffffffb76954830u64, 161, 1));
    assert(edge_check(0xfffffffb76954830u64, 161, 2));
    assert(edge_check(0xfffffffb76954830u64, 161, 3));
    assert(edge_check(0xfffffffb76954830u64, 161, 4));
    assert(edge_check(0xfffffffb76954830u64, 161, 5));
    assert(edge_check(0xfffffffb76954830u64, 161, 6));
    assert(edge_check(0xfffffffb76954830u64, 161, 7));
    assert(edge_check(0xfffffffb76954830u64, 161, 8));
    assert(edge_check(0xfffffffb76954830u64, 161, 9));
    assert(edge_check(0xfffffffb76954830u64, 161, 10));
    assert(edge_check(0xfffffffb76954830u64, 161, 11));
}

#[verifier::spinoff_prover]
proof fn lemma_row_162()
    ensures
        row_checks(TRI_TABLE[162], 162),
{
    reveal(row_entry);
    reveal(faces_inward);
    reveal(dot);
    reveal(triangle_normal);
    reveal(corner_solid);
    reveal(entry_check);
    reveal(triangle_check);
    reveal(edge_check);
    assert(TRI_TABLE[162] == 0xfffffffb76014154u64);
    assert(entry_check(0xfffffffb76014154u64, 162, 0));
    assert(entry_check(0xfffffffb76014154u64, 162, 1));
    assert(entry_check(0xfffffffb76014154u64, 162, 2));
    assert(entry_check(0xfffffffb76014154u64, 162, 3));
    assert(entry_check(0xfffffffb76014154u64, 162, 4));
    assert(entry_check(0xfffffffb76014154u64, 162, 5));
    assert(entry_check(0xfffffffb76014154u64, 162, 6));
    assert(entry_check(0xfffffffb76014154u64, 162, 7));
    assert(entry_check(0xfffffffb76014154u64, 162, 8));
    assert(entry_check(0xfffffffb76014154u64, 162, 9));
    assert(entry_check(0xfffffffb76014154u64, 162, 10));
    assert(entry_check(0xfffffffb76014154u64, 162, 11));
    assert(entry_check(0xfffffffb76014154u64, 162, 12));
    assert(entry_check(0xfffffffb76014154u64, 162, 13));
    assert(entry_check(0xfffffffb76014154u64, 162, 14));
    assert(entry_check(0xfffffffb76014154u64, 162, 15));
    assert(triangle_check(0xfffffffb76014154u64, 162, 0));
    assert(triangle_check(0xfffffffb76014154u64, 162, 1));
    assert(triangle_check(0xfffffffb76014154u64, 162, 2));
    assert(triangle_check(0xfffffffb76014154u64, 162, 3));
    assert(triangle_check(0xfffffffb76014154u64, 162, 4));
    assert(edge_check(0xfffffffb76014154u64, 162, 0));
    assert(edge_check(0xfffffffb76014154u64, 162, 1));
    assert(edge_check(0xfffffffb76014154u64, 162, 2));
    assert(edge_check(0xfffffffb76014154u64, 162, 3));
    assert(edge_check(0xfffffffb76014154u64, 162, 4));
    assert(edge_check(0xfffffffb76014154u64, 162, 5));
    assert(edge_check(0xfffffffb76014154u64, 162, 6));
    assert(edge_check(0xfffffffb76014154u64, 162, 7));
    assert(edge_check(0xfffffffb76014154u64, 162, 8));
    assert(edge_check(0xfffffffb76014154u64, 162, 9));
    assert(edge_check(0xfffffffb76014154u64, 162, 10));
    assert(edge_check(0xfffffffb76014154u64, 162, 11));
}

#[verifier::spinoff_prover]
proof fn lemma_row_163()
    ensures
        row_checks(TRI_TABLE[163], 163),
{
    reveal(row_entry);
    reveal(faces_inward);
    reveal(dot);
    reveal(triangle_normal);
    reveal(corner_solid);
    reveal(entry_check);
    reveal(triangle_check);
    reveal(edge_check);
    assert(TRI_TABLE[163] == 0xffffb76153543483u64);
    assert(entry_check(0xffffb76153543483u64, 163, 0));
    assert(entry_check(0xffffb76153543483u64, 163, 1));
    assert(entry_check(0xffffb76153543483u64, 163, 2));
    assert(entry_check(0xffffb76153543483u64, 163, 3));
    assert(entry_check(0xffffb76153543483u64, 163, 4));
    assert(entry_check(0xffffb76153543483u64, 163, 5));
    assert(entry_check(0xffffb76153543483u64, 163, 6));
    assert(entry_check(0xffffb76153543483u64, 163, 7));
    assert(entry_check(0xffffb76153543483u64, 163, 8));
    assert(entry_check(0xffffb76153543483u64, 163, 9));
    assert(entry_check(0xffffb76153543483u64, 163, 10));
    assert(entry_check(0xffffb76153543483u64, 163, 11));
    assert(entry_check(0xffffb76153543483u64, 163, 12));
    assert(entry_check(0xffffb76153543483u64, 163, 13));
    assert(entry_check(0xffffb76153543483u64, 163, 14));
    assert(entry_check(0xffffb76153543483u64, 163, 15));
    assert(triangle_check(0xffffb76153543483u64, 163, 0));
    assert(triangle_check(0xffffb76153543483u64, 163, 1));
    assert(triangle_check(0xffffb76153543483u64, 163, 2));
    assert(triangle_check(0xffffb76153543483u64, 163, 3));
    assert(triangle_check(0xffffb76153543483u64, 163, 4));
    assert(edge_check(0xffffb76153543483u64, 163, 0));
    assert(edge_check(0xffffb76153543483u64, 163, 1));
    assert(edge_check(0xffffb76153543483u64, 163, 2));
    assert(edge_check(0xffffb76153543483u64, 163, 3));
    assert(edge_check(0xffffb76153543483u64, 163, 4));
    assert(edge_check(0xffffb76153543483u64, 163, 5));
    assert(edge_check(0xffffb76153543483u64, 163, 6));
    assert(edge_check(0xffffb76153543483u64, 163, 7));
    assert(edge_check(0xffffb76153543483u64, 163, 8));
    assert(edge_check(0xffffb76153543483u64, 163, 9));
    assert(edge_check(0xffffb76153543483u64, 163, 10));
    assert(edge_check(0xffffb76153543483u64, 163, 11));
}

#[verifier::spinoff_prover]
proof fn lemma_row_164()
    ensures
        row_checks(TRI_TABLE[164], 164),
{
    reveal(row_entry);
    reveal(faces_inward);
    reveal(dot);
    reveal(triangle_normal);
    reveal(corner_solid);
    reveal(entry_check);
    reveal(triangle_check);
    reveal(edge_check);
    assert(TRI_TABLE[164] == 0xfffffffb769542a1u64);
    assert(entry_check(0xfffffffb769542a1u64, 164, 0));
    assert(entry_check(0xfffffffb769542a1u64, 164, 1));
    assert(entry_check(0xfffffffb769542a1u64, 164, 2));
    assert(entry_check(0xfffffffb769542a1u64, 164, 3));
    assert(entry_check(0xfffffffb769542a1u64, 164, 4));
    assert(entry_check(0xfffffffb769542a1u64, 164, 5));
    assert(entry_check(0xfffffffb769542a1u64, 164, 6));
    assert(entry_check(0xfffffffb769542a1u64, 164, 7));
    assert(entry_check(0xfffffffb769542a1u64, 164, 8));
    assert(entry_check(0xfffffffb769542a1u64, 164, 9));
    assert(entry_check(0xfffffffb769542a1u64, 164, 10));
    assert(entry_check(0xfffffffb769542a1u64, 164, 11));
    assert(entry_check(0xfffffffb769542a1u64, 164, 12));
    assert(entry_check(0xfffffffb769542a1u64, 164, 13));
    assert(entry_check(0xfffffffb769542a1u64, 164, 14));
    assert(entry_check(0xfffffffb769542a1u64, 164, 15));
    assert(triangle_check(0xfffffffb769542a1u64, 164, 0));
    assert(triangle_check(0xfffffffb769542a1u64, 164, 1));
    assert(triangle_check(0xfffffffb769542a1u64, 164, 2));
    assert(triangle_check(0xfffffffb769542a1u64, 164, 3));
    assert(triangle_check(0xfffffffb769542a1u64, 164, 4));
    assert(edge_check(0xfffffffb769542a1u64, 164, 0));
    assert(edge_check(0xfffffffb769542a1u64, 164, 1));
    assert(edge_check(0xfffffffb769542a1u64, 164, 2));
    assert(edge_check(0xfffffffb769542a1u64, 164, 3));
    assert(edge_check(0xfffffffb769542a1u64, 164, 4));
    assert(edge_check(0xfffffffb769542a1u64, 164, 5));
    assert(edge_check(0xfffffffb769542a1u64, 164, 6));
    assert(edge_check(0xfffffffb769542a1u64, 164, 7));
    assert(edge_check(0xfffffffb769542a1u64, 164, 8));
    assert(edge_check(0xfffffffb769542a1u64, 164, 9));
    assert(edge_check(0xfffffffb769542a1u64, 164, 10));
    assert(edge_check(0xfffffffb769542a1u64, 164, 11));
}

#[verifier::spinoff_prover]
proof fn lemma_row_165()
    ensures
        row_checks(TRI_TABLE[165], 165),
{
    reveal(row_entry);
    reveal(faces_inward);
    reveal(dot);
    reveal(triangle_normal);
    reveal(corner_solid);
    reveal(entry_check);
    reveal(triangle_check);
    reveal(edge_check);
    assert(TRI_TABLE[165] == 0xffffb769542a1830u64);
    assert(entry_check(0xffffb769542a1830u64, 165, 0));
    assert(entry_check(0xffffb769542a1830u64, 165, 1));
    assert(entry_check(0xffffb769542a1830u64, 165, 2));
    assert(entry_check(0xffffb769542a1830u64, 165, 3));
    assert(entry_check(0xffffb769542a1830u64, 165, 4));
    assert(entry_check(0xffffb769542a1830u64, 165, 5));
    assert(entry_check(0xffffb769542a1830u64, 165, 6));
    assert(entry_check(0xffffb769542a1830u64, 165, 7));
    assert(entry_check(0xffffb769542a1830u64, 165, 8));
    assert(entry_check(0xffffb769542a1830u64, 165, 9));
    assert(entry_check(0xffffb769542a1830u64, 165, 10));
    assert(entry_check(0xffffb769542a1830u64, 165, 11));
    assert(entry_check(0xffffb769542a1830u64, 165, 12));
    assert(entry_check(0xffffb769542a1830u64, 165, 13));
    assert(entry_check(0xffffb769542a1830u64, 165, 14));
    assert(entry_check(0xffffb769542a1830u64, 165, 15));
    assert(triangle_check(0xffffb769542a1830u64, 165, 0));
    assert(triangle_check(0xffffb769542a1830u64, 165, 1));
    assert(triangle_check(0xffffb769542a1830u64, 165, 2));
    assert(triangle_check(0xffffb769542a1830u64, 165, 3));
    assert(triangle_check(0xffffb769542a1830u64, 165, 4));
    assert(edge_check(0xffffb769542a1830u64, 165, 0));
    assert(edge_check(0xffffb769542a1830u64, 165, 1));
    assert(edge_check(0xffffb769542a1830u64, 165, 2));
    assert(edge_check(0xffffb769542a1830u64, 165, 3));
    assert(edge_check(0xffffb769542a1830u64, 165, 4));
    assert(edge_check(0xffffb769542a1830u64, 165, 5));
    assert(edge_check(0xffffb769542a1830u64, 165, 6));
    assert(edge_check(0xffffb769542a1830u64, 165, 7));
    assert(edge_check(0xffffb769542a1830u64, 165, 8));
    assert(edge_check(0xffffb769542a1830u64, 165, 9));
    assert(edge_check(0xffffb769542a1830u64, 165, 10));
    assert(edge_check(0xffffb769542a1830u64, 165, 11));
}

#[verifier::spinoff_prover]
proof fn lemma_row_166()
    ensures
        row_checks(TRI_TABLE[166], 166),
{
    reveal(row_entry);
    reveal(faces_inward);
    reveal(dot);
    reveal(triangle_normal);
    reveal(corner_solid);
    reveal(entry_check);
    reveal(triangle_check);
    reveal(edge_check);
    assert(TRI_TABLE[166] == 0xffffb760242a4a54u64);
    assert(entry_check(0xffffb760242a4a54u64, 166, 0));
    assert(entry_check(0xffffb760242a4a54u64, 166, 1));
    assert(entry_check(0xffffb760242a4a54u64, 166, 2));
    assert(entry_check(0xffffb760242a4a54u64, 166, 3));
    assert(entry_check(0xffffb760242a4a54u64, 166, 4));
    assert(entry_check(0xffffb760242a4a54u64, 166, 5));
    assert(entry_check(0xffffb760242a4a54u64, 166, 6));
    assert(entry_check(0xffffb760242a4a54u64, 166, 7));
    assert(entry_check(0xffffb760242a4a54u64, 166, 8));
    assert(entry_check(0xffffb760242a4a54u64, 166, 9));
    assert(entry_check(0xffffb760242a4a54u64, 166, 10));
    assert(entry_check(0xffffb760242a4a54u64, 166, 11));
    assert(entry_check(0xffffb760242a4a54u64, 166, 12));
    assert(entry_check(0xffffb760242a4a54u64, 166, 13));
    assert(entry_check(0xffffb760242a4a54u64, 166, 14));
    assert(entry_check(0xffffb760242a4a54u64, 166, 15));
    assert(triangle_check(0xffffb760242a4a54u64, 166, 0));
    assert(triangle_check(0xffffb760242a4a54u64, 166, 1));
    assert(triangle_check(0xffffb760242a4a54u64, 166, 2));
    assert(triangle_check(0xffffb760242a4a54u64, 166, 3));
    assert(triangle_check(0xffffb760242a4a54u64, 166, 4));
    assert(edge_check(0xffffb760242a4a54u64, 166, 0));
    assert(edge_check(0xffffb760242a4a54u64, 166, 1));
    assert(edge_check(0xffffb760242a4a54u64, 166, 2));
    assert(edge_check(0xffffb760242a4a54u64, 166, 3));
    assert(edge_check(0xffffb760242a4a54u64, 166, 4));
    assert(edge_check(0xffffb760242a4a54u64, 166, 5));
    assert(edge_check(0xffffb760242a4a54u64, 166, 6));
    assert(edge_check(0xffffb760242a4a54u64, 166, 7));
    assert(edge_check(0xffffb760242a4a54u64, 166, 8));
    assert(edge_check(0xffffb760242a4a54u64, 166, 9));
    assert(edge_check(0xffffb760242a4a54u64, 166, 10));
    assert(edge_check(0xffffb760242a4a54u64, 166, 11));
}

#[verifier::spinoff_prover]
proof fn lemma_row_167()
    ensures
        row_checks(TRI_TABLE[167], 167),
{
    reveal(row_entry);
    reveal(faces_inward);
    reveal(dot);
    reveal(triangle_normal);
    reveal(corner_solid);
    reveal(entry_check);
    reveal(triangle_check);
    reveal(edge_check);
    assert(TRI_TABLE[167] == 0xfb76a52542482832u64);
    assert(entry_check(0xfb76a52542482832u64, 167, 0));
    assert(entry_check(0xfb76a52542482832u64, 167, 1));
    assert(entry_check(0xfb76a52542482832u64, 167, 2));
    assert(entry_check(0xfb76a52542482832u64, 167, 3));
    assert(entry_check(0xfb76a52542482832u64, 167, 4));
    assert(entry_check(0xfb76a52542482832u64, 167, 5));
    assert(entry_check(0xfb76a52542482832u64, 167, 6));
    assert(entry_check(0xfb76a52542482832u64, 167, 7));
    assert(entry_check(0xfb76a52542482832u64, 167, 8));
    assert(entry_check(0xfb76a52542482832u64, 167, 9));
    assert(entry_check(0xfb76a52542482832u64, 167, 10));
    assert(entry_check(0xfb76a52542482832u64, 167, 11));
    assert(entry_check(0xfb76a52542482832u64, 167, 12));
    assert(entry_check(0xfb76a52542482832u64, 167, 13));
    assert(entry_check(0xfb76a52542482832u64, 167, 14));
    assert(entry_check(0xfb76a52542482832u64, 167, 15));
    assert(triangle_check(0xfb76a52542482832u64, 167, 0));
    assert(triangle_check(0xfb76a52542482832u64, 167, 1));
    assert(triangle_check(0xfb76a52542482832u64, 167, 2));
    assert(triangle_check(0xfb76a52542482832u64, 167, 3));
    assert(triangle_check(0xfb76a52542482832u64, 167, 4));
    assert(edge_check(0xfb76a52542482832u64, 167, 0));
    assert(edge_check(0xfb76a52542482832u64, 167, 1));
    assert(edge_check(0xfb76a52542482832u64, 167, 2));
    assert(edge_check(0xfb76a52542482832u64, 167, 3));
    assert(edge_check(0xfb76a52542482832u64, 167, 4));
    assert(edge_check(0xfb76a52542482832u64, 167, 5));
    assert(edge_check(0xfb76a52542482832u64, 167, 6));
    assert(edge_check(0xfb76a52542482832u64, 167, 7));
    assert(edge_check(0xfb76a52542482832u64, 167, 8));
    assert(edge_check(0xfb76a52542482832u64, 167, 9));
    assert(edge_check(0xfb76a52542482832u64, 167, 10));
    assert(edge_check(0xfb76a52542482832u64, 167, 11));
}

#[verifier::spinoff_prover]
proof fn lemma_row_168()
    ensures
        row_checks(TRI_TABLE[168], 168),
{
    reveal(row_entry);
    reveal(faces_inward);
    reveal(dot);
    reveal(triangle_normal);
    reveal(corner_solid);
    reveal(entry_check);
    reveal(triangle_check);
    reveal(edge_check);
    assert(TRI_TABLE[168] == 0xfffffff954236376u64);
    assert(entry_check(0xfffffff954236376u64, 168, 0));
    assert(entry_check(0xfffffff954236376u64, 168, 1));
    assert(entry_check(0xfffffff954236376u64, 168, 2));
    assert(entry_check(0xfffffff954236376u64, 168, 3));
    assert(entry_check(0xfffffff954236376u64, 168, 4));
    assert(entry_check(0xfffffff954236376u64, 168, 5));
    assert(entry_check(0xfffffff954236376u64, 168, 6));
    assert(entry_check(0xfffffff954236376u64, 168, 7));
    assert(entry_check(0xfffffff954236376u64, 168, 8));
    assert(entry_check(0xfffffff954236376u64, 168, 9));
    assert(entry_check(0xfffffff954236376u64, 168, 10));
    assert(entry_check(0xfffffff954236376u64, 168, 11));
    assert(entry_check(0xfffffff954236376u64, 168, 12));
    assert(entry_check(0xfffffff954236376u64, 168, 13));
    assert(entry_check(0xfffffff954236376u64, 168, 14));
    assert(entry_check(0xfffffff954236376u64, 168, 15));
    assert(triangle_check(0xfffffff954236376u64, 168, 0));
    assert(triangle_check(0xfffffff954236376u64, 168, 1));
    assert(triangle_check(0xfffffff954236376u64, 168, 2));
    assert(triangle_check(0xfffffff954236376u64, 168, 3));
    assert(triangle_check(0xfffffff954236376u64, 168, 4));
    assert(edge_check(0xfffffff954236376u64, 168, 0));
    assert(edge_check(0xfffffff954236376u64, 168, 1));
    assert(edge_check(0xfffffff954236376u64, 168, 2));
    assert(edge_check(0xfffffff954236376u64, 168, 3));
    assert(edge_check(0xfffffff954236376u64, 168, 4));
    assert(edge_check(0xfffffff954236376u64, 168, 5));
    assert(edge_check(0xfffffff954236376u64, 168, 6));
    assert(edge_check(0xfffffff954236376u64, 168, 7));
    assert(edge_check(0xfffffff954236376u64, 168, 8));
    assert(edge_check(0xfffffff954236376u64, 168, 9));
    assert(edge_check(0xfffffff954236376u64, 168, 10));
    assert(edge_check(0xfffffff954236376u64, 168, 11));
}

#[verifier::spinoff_prover]
proof fn lemma_row_169()
    ensures
        row_checks(TRI_TABLE[169], 169),
{
    reveal(row_entry);
    reveal(faces_inward);
    reveal(dot);
    reveal(triangle_normal);
    reveal(corner_solid);
    reveal(entry_check);
    reveal(triangle_check);
    reveal(edge_check);
    assert(TRI_TABLE[169] == 0xffff954870760620u64);
    assert(entry_check(0xffff954870760620u64, 169, 0));
    assert(entry_check(0xffff954870760620u64, 169, 1));
    assert(entry_check(0xffff954870760620u64, 169, 2));
    assert(entry_check(0xffff954870760620u64, 169, 3));
    assert(entry_check(0xffff954870760620u64, 169, 4));
    assert(entry_check(0xffff954870760620u64, 169, 5));
    assert(entry_check(0xffff954870760620u64, 169, 6));
    assert(entry_check(0xffff954870760620u64, 169, 7));
    assert(entry_check(0xffff954870760620u64, 169, 8));
    assert(entry_check(0xffff954870760620u64, 169, 9));
    assert(entry_check(0xffff954870760620u64, 169, 10));
    assert(entry_check(0xffff954870760620u64, 169, 11));
    assert(entry_check(0xffff954870760620u64, 169, 12));
    assert(entry_check(0xffff954870760620u64, 169, 13));
    assert(entry_check(0xffff954870760620u64, 169, 14));
    assert(entry_check(0xffff954870760620u64, 169, 15));
    assert(triangle_check(0xffff954870760620u64, 169, 0));
    assert(triangle_check(0xffff954870760620u64, 169, 1));
    assert(triangle_check(0xffff954870760620u64, 169, 2));
    assert(triangle_check(0xffff954870760620u64, 169, 3));
    assert(triangle_check(0xffff954870760620u64, 169, 4));
    assert(edge_check(0xffff954870760620u64, 169, 0));
    assert(edge_check(0xffff954870760620u64, 169, 1));
    assert(edge_check(0xffff954870760620u64, 169, 2));
    assert(edge_check(0xffff954870760620u64, 169, 3));
    assert(edge_check(0xffff954870760620u64, 169, 4));
    assert(edge_check(0xffff954870760620u64, 169, 5));
    assert(edge_check(0xffff954870760620u64, 169, 6));
    assert(edge_check(0xffff954870760620u64, 169, 7));
    assert(edge_check(0xffff954870760620u64, 169, 8));
    assert(edge_check(0xffff954870760620u64, 169, 9));
    assert(edge_check(0xffff954870760620u64, 169, 10));
    assert(edge_check(0xffff954870760620u64, 169, 11));
}

#[verifier::spinoff_prover]
proof fn lemma_row_170()
    ensures
        row_checks(TRI_TABLE[170], 170),
{
    reveal(row_entry);
    reveal(faces_inward);
    reveal(dot);
    reveal(triangle_normal);
    reveal(corner_solid);
    reveal(entry_check);
    reveal(triangle_check);
    reveal(edge_check);
    assert(TRI_TABLE[170] == 0xffff236376014154u64);
    assert(entry_check(0xffff236376014154u64, 170, 0));
    assert(entry_check(0xffff236376014154u64, 170, 1));
    assert(entry_check(0xffff236376014154u64, 170, 2));
    assert(entry_check(0xffff236376014154u64, 170, 3));
    assert(entry_check(0xffff236376014154u64, 170, 4));
    assert(entry_check(0xffff236376014154u64, 170, 5));
    assert(entry_check(0xffff236376014154u64, 170, 6));
    assert(entry_check(0xffff236376014154u64, 170, 7));
    assert(entry_check(0xffff236376014154u64, 170, 8));
    assert(entry_check(0xffff236376014154u64, 170, 9));
    assert(entry_check(0xffff236376014154u64, 170, 10));
    assert(entry_check(0xffff236376014154u64, 170, 11));
    assert(entry_check(0xffff236376014154u64, 170, 12));
    assert(entry_check(0xffff236376014154u64, 170, 13));
    assert(entry_check(0xffff236376014154u64, 170, 14));
    assert(entry_check(0xffff236376014154u64, 170, 15));
    assert(triangle_check(0xffff236376014154u64, 170, 0));
    assert(triangle_check(0xffff236376014154u64, 170, 1));
    assert(triangle_check(0xffff236376014154u64, 170, 2));
    assert(triangle_check(0xffff236376014154u64, 170, 3));
    assert(triangle_check(0xffff236376014154u64, 170, 4));
    assert(edge_check(0xffff236376014154u64, 170, 0));
    assert(edge_check(0xffff236376014154u64, 170, 1));
    assert(edge_check(0xffff236376014154u64, 170, 2));
    assert(edge_check(0xffff236376014154u64, 170, 3));
    assert(edge_check(0xffff236376014154u64, 170, 4));
    assert(edge_check(0xffff236376014154u64, 170, 5));
    assert(edge_check(0xffff236376014154u64, 170, 6));
    assert(edge_check(0xffff236376014154u64, 170, 7));
    assert(edge_check(0xffff236376014154u64, 170, 8));
    assert(edge_check(0xffff236376014154u64, 170, 9));
    assert(edge_check(0xffff236376014154u64, 170, 10));
    assert(edge_check(0xffff236376014154u64, 170, 11));
}

#[verifier::spinoff_prover]
proof fn lemma_row_171()
    ensures
        row_checks(TRI_TABLE[171], 171),
{
    reveal(row_entry);
    reveal(faces_inward);
    reveal(dot);
    reveal(triangle_normal);
    reveal(corner_solid);
    reveal(entry_check);
    reveal(triangle_check);
    reveal(edge_check);
    assert(TRI_TABLE[171] == 0xf768628218158548u64);
    assert(entry_check(0xf768628218158548u64, 171, 0));
    assert(entry_check(0xf768628218158548u64, 171, 1));
    assert(entry_check(0xf768628218158548u64, 171, 2));
    assert(entry_check(0xf768628218158548u64, 171, 3));
    assert(entry_check(0xf768628218158548u64, 171, 4));
    assert(entry_check(0xf768628218158548u64, 171, 5));
    assert(entry_check(0xf768628218158548u64, 171, 6));
    assert(entry_check(0xf768628218158548u64, 171, 7));
    assert(entry_check(0xf768628218158548u64, 171, 8));
    assert(entry_check(0xf768628218158548u64, 171, 9));
    assert(entry_check(0xf768628218158548u64, 171, 10));
    assert(entry_check(0xf768628218158548u64, 171, 11));
    assert(entry_check(0xf768628218158548u64, 171, 12));
    assert(entry_check(0xf768628218158548u64, 171, 13));
    assert(entry_check(0xf768628218158548u64, 171, 14));
    assert(entry_check(0xf768628218158548u64, 171, 15));
    assert(triangle_check(0xf768628218158548u64, 171, 0));
    assert(triangle_check(0xf768628218158548u64, 171, 1));
    assert(triangle_check(0xf768628218158548u64, 171, 2));
    assert(triangle_check(0xf768628218158548u64, 171, 3));
    assert(triangle_check(0xf768628218158548u64, 171, 4));
    assert(edge_check(0xf768628218158548u64, 171, 0));
    assert(edge_check(0xf768628218158548u64, 171, 1));
    assert(edge_check(0xf768628218158548u64, 171, 2));
    assert(edge_check(0xf768628218158548u64, 171, 3));
    assert(edge_check(0xf768628218158548u64, 171, 4));
    assert(edge_check(0xf768628218158548u64, 171, 5));
    assert(edge_check(0xf768628218158548u64, 171, 6));
    assert(edge_check(0xf768628218158548u64, 171, 7));
    assert(edge_check(0xf768628218158548u64, 171, 8));
    assert(edge_check(0xf768628218158548u64, 171, 9));
    assert(edge_check(0xf768628218158548u64, 171, 10));
    assert(edge_check(0xf768628218158548u64, 171, 11));
}

#[verifier::spinoff_prover]
proof fn lemma_row_172()
    ensures
        row_checks(TRI_TABLE[172], 172),
{
    reveal(row_entry);
    reveal(faces_inward);
    reveal(dot);
    reveal(triangle_normal);
    reveal(corner_solid);
    reveal(entry_check);
    reveal(triangle_check);
    reveal(edge_check);
    assert(TRI_TABLE[172] == 0xffff9543717616a1u64);
    assert(entry_check(0xffff9543717616a1u64, 172, 0));
    assert(entry_check(0xffff9543717616a1u64, 172, 1));
    assert(entry_check(0xffff9543717616a1u64, 172, 2));
    assert(entry_check(0xffff9543717616a1u64, 172, 3));
    assert(entry_check(0xffff9543717616a1u64, 172, 4));
    assert(entry_check(0xffff9543717616a1u64, 172, 5));
    assert(entry_check(0xffff9543717616a1u64, 172, 6));
    assert(entry_check(0xffff9543717616a1u64, 172, 7));
    assert(entry_check(0xffff9543717616a1u64, 172, 8));
    assert(entry_check(0xffff9543717616a1u64, 172, 9));
    assert(entry_check(0xffff9543717616a1u64, 172, 10));
    assert(entry_check(0xffff9543717616a1u64, 172, 11));
    assert(entry_check(0xffff9543717616a1u64, 172, 12));
    assert(entry_check(0xffff9543717616a1u64, 172, 13));
    assert(entry_check(0xffff9543717616a1u64, 172, 14));
    assert(entry_check(0xffff9543717616a1u64, 172, 15));
    assert(triangle_check(0xffff9543717616a1u64, 172, 0));
    assert(triangle_check(0xffff9543717616a1u64, 172, 1));
    assert(triangle_check(0xffff9543717616a1u64, 172, 2));
    assert(triangle_check(0xffff9543717616a1u64, 172, 3));
    assert(triangle_check(0xffff9543717616a1u64, 172, 4));
    assert(edge_check(0xffff9543717616a1u64, 172, 0));
    assert(edge_check(0xffff9543717616a1u64, 172, 1));
    assert(edge_check(0xffff9543717616a1u64, 172, 2));
    assert(edge_check(0xffff9543717616a1u64, 172, 3));
    assert(edge_check(0xffff9543717616a1u64, 172, 4));
    assert(edge_check(0xffff9543717616a1u64, 172, 5));
    assert(edge_check(0xffff9543717616a1u64, 172, 6));
    assert(edge_check(0xffff9543717616a1u64, 172, 7));
    assert(edge_check(0xffff9543717616a1u64, 172, 8));
    assert(edge_check(0xffff9543717616a1u64, 172, 9));
    assert(edge_check(0xffff9543717616a1u64, 172, 10));
    assert(edge_check(0xffff9543717616a1u64, 172, 11));
}

#[verifier::spinoff_prover]
proof fn lemma_row_173()
    ensures
        row_checks(TRI_TABLE[173], 173),
{
    reveal(row_entry);
    reveal(faces_inward);
    reveal(dot);
    reveal(triangle_normal);
    reveal(corner_solid);
    reveal(entry_check);
    reveal(triangle_check);
    reveal(edge_check);
    assert(TRI_TABLE[173] == 0xf9548707606a0a10u64);
    assert(entry_check(0xf9548707606a0a10u64, 173, 0));
    assert(entry_check(0xf9548707606a0a10u64, 173, 1));
    assert(entry_check(0xf9548707606a0a10u64, 173, 2));
    assert(entry_check(0xf9548707606a0a10u64, 173, 3));
    assert(entry_check(0xf9548707606a0a10u64, 173, 4));
    assert(entry_check(0xf9548707606a0a10u64, 173, 5));
    assert(entry_check(0xf9548707606a0a10u64, 173, 6));
    assert(entry_check(0xf9548707606a0a10u64, 173, 7));
    assert(entry_check(0xf9548707606a0a10u64, 173, 8));
    assert(entry_check(0xf9548707606a0a10u64, 173, 9));
    assert(entry_check(0xf9548707606a0a10u64, 173, 10));
    assert(entry_check(0xf9548707606a0a10u64, 173, 11));
    assert(entry_check(0xf9548707606a0a10u64, 173, 12));
    assert(entry_check(0xf9548707606a0a10u64, 173, 13));
    assert(entry_check(0xf9548707606a0a10u64, 173, 14));
    assert(entry_check(0xf9548707606a0a10u64, 173, 15));
    assert(triangle_check(0xf9548707606a0a10u64, 173, 0));
    assert(triangle_check(0xf9548707606a0a10u64, 173, 1));
    assert(triangle_check(0xf9548707606a0a10u64, 173, 2));
    assert(triangle_check(0xf9548707606a0a10u64, 173, 3));
    assert(triangle_check(0xf9548707606a0a10u64, 173, 4));
    assert(edge_check(0xf9548707606a0a10u64, 173, 0));
    assert(edge_check(0xf9548707606a0a10u64, 173, 1));
    assert(edge_check(0xf9548707606a0a10u64, 173, 2));
    assert(edge_check(0xf9548707606a0a10u64, 173, 3));
    assert(edge_check(0xf9548707606a0a10u64, 173, 4));
    assert(edge_check(0xf9548707606a0a10u64, 173, 5));
    assert(edge_check(0xf9548707606a0a10u64, 173, 6));
    assert(edge_check(0xf9548707606a0a10u64, 173, 7));
    assert(edge_check(0xf9548707606a0a10u64, 173, 8));
    assert(edge_check(0xf9548707606a0a10u64, 173, 9));
    assert(edge_check(0xf9548707606a0a10u64, 173, 10));
    assert(edge_check(0xf9548707606a0a10u64, 173, 11));
}

#[verifier::spinoff_prover]
proof fn lemma_row_174()
    ensures
        row_checks(TRI_TABLE[174], 174),
{
    reveal(row_entry);
    reveal(faces_inward);
    reveal(dot);
    reveal(triangle_normal);
    reveal(corner_solid);
    reveal(entry_check);
    reveal(triangle_check);
    reveal(edge_check);
    assert(TRI_TABLE[174] == 0xf54a40a03a37a76au64);
    assert(entry_check(0xf54a40a03a37a76au64, 174, 0));
    assert(entry_check(0xf54a40a03a37a76au64, 174, 1));
    assert(entry_check(0xf54a40a03a37a76au64, 174, 2));
    assert(entry_check(0xf54a40a03a37a76au64, 174, 3));
    assert(entry_check(0xf54a40a03a37a76au64, 174, 4));
    assert(entry_check(0xf54a40a03a37a76au64, 174, 5));
    assert(entry_check(0xf54a40a03a37a76au64, 174, 6));
    assert(entry_check(0xf54a40a03a37a76au64, 174, 7));
    assert(entry_check(0xf54a40a03a37a76au64, 174, 8));
    assert(entry_check(0xf54a40a03a37a76au64, 174, 9));
    assert(entry_check(0xf54a40a03a37a76au64, 174, 10));
    assert(entry_check(0xf54a40a03a37a76au64, 174, 11));
    assert(entry_check(0xf54a40a03a37a76au64, 174, 12));
    assert(entry_check(0xf54a40a03a37a76au64, 174, 13));
    assert(entry_check(0xf54a40a03a37a76au64, 174, 14));
    assert(entry_check(0xf54a40a03a37a76au64, 174, 15));
    assert(triangle_check(0xf54a40a03a37a76au64, 174, 0));
    assert(triangle_check(0xf54a40a03a37a76au64, 174, 1));
    assert(triangle_check(0xf54a40a03a37a76au64, 174, 2));
    assert(triangle_check(0xf54a40a03a37a76au64, 174, 3));
    assert(triangle_check(0xf54a40a03a37a76au64, 174, 4));
    assert(edge_check(0xf54a40a03a37a76au64, 174, 0));
    assert(edge_check(0xf54a40a03a37a76au64, 174, 1));
    assert(edge_check(0xf54a40a03a37a76au64, 174, 2));
    assert(edge_check(0xf54a40a03a37a76au64, 174, 3));
    assert(edge_check(0xf54a40a03a37a76au64, 174, 4));
    assert(edge_check(0xf54a40a03a37a76au64, 174, 5));
    assert(edge_check(0xf54a40a03a37a76au64, 174, 6));
    assert(edge_check(0xf54a40a03a37a76au64, 174, 7));
    assert(edge_check(0xf54a40a03a37a76au64, 174, 8));
    assert(edge_check(0xf54a40a03a37a76au64, 174, 9));
    assert(edge_check(0xf54a40a03a37a76au64, 174, 10));
    assert(edge_check(0xf54a40a03a37a76au64, 174, 11));
}

#[verifier::spinoff_prover]
proof fn lemma_row_175()
    ensures
        row_checks(TRI_TABLE[175], 175),
{
    reveal(row_entry);
    reveal(faces_inward);
    reveal(dot);
    reveal(triangle_normal);
    reveal(corner_solid);
    reveal(entry_check);
    reveal(triangle_check);
    reveal(edge_check);
    assert(TRI_TABLE[175] == 0xffff54a48a87a76au64);
    assert(entry_check(0xffff54a48a87a76au64, 175, 0));
    assert(entry_check(0xffff54a48a87a76au64, 175, 1));
    assert(entry_check(0xffff54a48a87a76au64, 175, 2));
    assert(entry_check(0xffff54a48a87a76au64, 175, 3));
    assert(entry_check(0xffff54a48a87a76au64, 175, 4));
    assert(entry_check(0xffff54a48a87a76au64, 175, 5));
    assert(entry_check(0xffff54a48a87a76au64, 175, 6));
    assert(entry_check(0xffff54a48a87a76au64, 175, 7));
    assert(entry_check(0xffff54a48a87a76au64, 175, 8));
    assert(entry_check(0xffff54a48a87a76au64, 175, 9));
    assert(entry_check(0xffff54a48a87a76au64, 175, 10));
    assert(entry_check(0xffff54a48a87a76au64, 175, 11));
    assert(entry_check(0xffff54a48a87a76au64, 175, 12));
    assert(entry_check(0xffff54a48a87a76au64, 175, 13));
    assert(entry_check(0xffff54a48a87a76au64, 175, 14));
    assert(entry_check(0xffff54a48a87a76au64, 175, 15));
    assert(triangle_check(0xffff54a48a87a76au64, 175, 0));
    assert(triangle_check(0xffff54a48a87a76au64, 175, 1));
    assert(triangle_check(0xffff54a48a87a76au64, 175, 2));
    assert(triangle_check(0xffff54a48a87a76au64, 175, 3));
    assert(triangle_check(0xffff54a48a87a76au64, 175, 4));
    assert(edge_check(0xffff54a48a87a76au64, 175, 0));
    assert(edge_check(0xffff54a48a87a76au64, 175, 1));
    assert(edge_check(0xffff54a48a87a76au64, 175, 2));
    assert(edge_check(0xffff54a48a87a76au64, 175, 3));
    assert(edge_check(0xffff54a48a87a76au64, 175, 4));
    assert(edge_check(0xffff54a48a87a76au64, 175, 5));
    assert(edge_check(0xffff54a48a87a76au64, 175, 6));
    assert(edge_check(0xffff54a48a87a76au64, 175, 7));
    assert(edge_check(0xffff54a48a87a76au64, 175, 8));
    assert(edge_check(0xffff54a48a87a76au64, 175, 9));
    assert(edge_check(0xffff54a48a87a76au64, 175, 10));
    assert(edge_check(0xffff54a48a87a76au64, 175, 11));
}

#[verifier::spinoff_prover]
proof fn lemma_row_176()
    ensures
        row_checks(TRI_TABLE[176], 176),
{
    reveal(row_entry);
    reveal(faces_inward);
    reveal(dot);
    reveal(triangle_normal);
    reveal(corner_solid);
    reveal(entry_check);
    reveal(triangle_check);
    reveal(edge_check);
    assert(TRI_TABLE[176] == 0xfffffff5696b9b89u64);
    assert(entry_check(0xfffffff5696b9b89u64, 176, 0));
    assert(entry_check(0xfffffff5696b9b89u64, 176, 1));
    assert(entry_check(0xfffffff5696b9b89u64, 176, 2));
    assert(entry_check(0xfffffff5696b9b89u64, 176, 3));
    assert(entry_check(0xfffffff5696b9b89u64, 176, 4));
    assert(entry_check(0xfffffff5696b9b89u64, 176, 5));
    assert(entry_check(0xfffffff5696b9b89u64, 176, 6));
    assert(entry_check(0xfffffff5696b9b89u64, 176, 7));
    assert(entry_check(0xfffffff5696b9b89u64, 176, 8));
    assert(entry_check(0xfffffff5696b9b89u64, 176, 9));
    assert(entry_check(0xfffffff5696b9b89u64, 176, 10));
    assert(entry_check(0xfffffff5696b9b89u64, 176, 11));
    assert(entry_check(0xfffffff5696b9b89u64, 176, 12));
    assert(entry_check(0xfffffff5696b9b89u64, 176, 13));
    assert(entry_check(0xfffffff5696b9b89u64, 176, 14));
    assert(entry_check(0xfffffff5696b9b89u64, 176, 15));
    assert(triangle_check(0xfffffff5696b9b89u64, 176, 0));
    assert(triangle_check(0xfffffff5696b9b89u64, 176, 1));
    assert(triangle_check(0xfffffff5696b9b89u64, 176, 2));
    assert(triangle_check(0xfffffff5696b9b89u64, 176, 3));
    assert(triangle_check(0xfffffff5696b9b89u64, 176, 4));
    assert(edge_check(0xfffffff5696b9b89u64, 176, 0));
    assert(edge_check(0xfffffff5696b9b89u64, 176, 1));
    assert(edge_check(0xfffffff5696b9b89u64, 176, 2));
    assert(edge_check(0xfffffff5696b9b89u64, 176, 3));
    assert(edge_check(0xfffffff5696b9b89u64, 176, 4));
    assert(edge_check(0xfffffff5696b9b89u64, 176, 5));
    assert(edge_check(0xfffffff5696b9b89u64, 176, 6));
    assert(edge_check(0xfffffff5696b9b89u64, 176, 7));
    assert(edge_check(0xfffffff5696b9b89u64, 176, 8));
    assert(edge_check(0xfffffff5696b9b89u64, 176, 9));
    assert(edge_check(0xfffffff5696b9b89u64, 176, 10));
    assert(edge_check(0xfffffff5696b9b89u64, 176, 11));
}

#[verifier::spinoff_prover]
proof fn lemma_row_177()
    ensures
        row_checks(TRI_TABLE[177], 177),
{
    reveal(row_entry);
    reveal(faces_inward);
    reveal(dot);
    reveal(triangle_normal);
    reveal(corner_solid);
    reveal(entry_check);
    reveal(triangle_check);
    reveal(edge_check);
    assert(TRI_TABLE[177] == 0xffff9505606b0b30u64);
    assert(entry_check(0xffff9505606b0b30u64, 177, 0));
    assert(entry_check(0xffff9505606b0b30u64, 177, 1));
    assert(entry_check(0xffff9505606b0b30u64, 177, 2));
    assert(entry_check(0xffff9505606b0b30u64, 177, 3));
    assert(entry_check(0xffff9505606b0b30u64, 177, 4));
    assert(entry_check(0xffff9505606b0b30u64, 177, 5));
    assert(entry_check(0xffff9505606b0b30u64, 177, 6));
    assert(entry_check(0xffff9505606b0b30u64, 177, 7));
    assert(entry_check(0xffff9505606b0b30u64, 177, 8));
    assert(entry_check(0xffff9505606b0b30u64, 177, 9));
    assert(entry_check(0xffff9505606b0b30u64, 177, 10));
    assert(entry_check(0xffff9505606b0b30u64, 177, 11));
    assert(entry_check(0xffff9505606b0b30u64, 177, 12));
    assert(entry_check(0xffff9505606b0b30u64, 177, 13));
    assert(entry_check(0xffff9505606b0b30u64, 177, 14));
    assert(entry_check(0xffff9505606b0b30u64, 177, 15));
    assert(triangle_check(0xffff9505606b0b30u64, 177, 0));
    assert(triangle_check(0xffff9505606b0b30u64, 177, 1));
    assert(triangle_check(0xffff9505606b0b30u64, 177, 2));
    assert(triangle_check(0xffff9505606b0b30u64, 177, 3));
    assert(triangle_check(0xffff9505606b0b30u64, 177, 4));
    assert(edge_check(0xffff9505606b0b30u64, 177, 0));
    assert(edge_check(0xffff9505606b0b30u64, 177, 1));
    assert(edge_check(0xffff9505606b0b30u64, 177, 2));
    assert(edge_check(0xffff9505606b0b30u64, 177, 3));
    assert(edge_check(0xffff9505606b0b30u64, 177, 4));
    assert(edge_check(0xffff9505606b0b30u64, 177, 5));
    assert(edge_check(0xffff9505606b0b30u64, 177, 6));
    assert(edge_check(0xffff9505606b0b30u64, 177, 7));
    assert(edge_check(0xffff9505606b0b30u64, 177, 8));
    assert(edge_check(0xffff9505606b0b30u64, 177, 9));
    assert(edge_check(0xffff9505606b0b30u64, 177, 10));
    assert(edge_check(0xffff9505606b0b30u64, 177, 11));
}

#[verifier::spinoff_prover]
proof fn lemma_row_178()
    ensures
        row_checks(TRI_TABLE[178], 178),
{
    reveal(row_entry);
    reveal(faces_inward);
    reveal(dot);
    reveal(triangle_normal);
    reveal(corner_solid);
    reveal(entry_check);
    reveal(triangle_check);
    reveal(edge_check);
    assert(TRI_TABLE[178] == 0xffff0181585686b8u64);
    assert(entry_check(0xffff0181585686b8u64, 178, 0));
    assert(entry_check(0xffff0181585686b8u64, 178, 1));
    assert(entry_check(0xffff0181585686b8u64, 178, 2));
    assert(entry_check(0xffff0181585686b8u64, 178, 3));
    assert(entry_check(0xffff0181585686b8u64, 178, 4));
    assert(entry_check(0xffff0181585686b8u64, 178, 5));
    assert(entry_check(0xffff0181585686b8u64, 178, 6));
    assert(entry_check(0xffff0181585686b8u64, 178, 7));
    assert(entry_check(0xffff0181585686b8u64, 178, 8));
    assert(entry_check(0xffff0181585686b8u64, 178, 9));
    assert(entry_check(0xffff0181585686b8u64, 178, 10));
    assert(entry_check(0xffff0181585686b8u64, 178, 11));
    assert(entry_check(0xffff0181585686b8u64, 178, 12));
    assert(entry_check(0xffff0181585686b8u64, 178, 13));
    assert(entry_check(0xffff0181585686b8u64, 178, 14));
    assert(entry_check(0xffff0181585686b8u64, 178, 15));
    assert(triangle_check(0xffff0181585686b8u64, 178, 0));
    assert(triangle_check(0xffff0181585686b8u64, 178, 1));
    assert(triangle_check(0xffff0181585686b8u64, 178, 2));
    assert(triangle_check(0xffff0181585686b8u64, 178, 3));
    assert(triangle_check(0xffff0181585686b8u64, 178, 4));
    assert(edge_check(0xffff0181585686b8u64, 178, 0));
    assert(edge_check(0xffff0181585686b8u64, 178, 1));
    assert(edge_check(0xffff0181585686b8u64, 178, 2));
    assert(edge_check(0xffff0181585686b8u64, 178, 3));
    assert(edge_check(0xffff0181585686b8u64, 178, 4));
    assert(edge_check(0xffff0181585686b8u64, 178, 5));
    assert(edge_check(0xffff0181585686b8u64, 178, 6));
    assert(edge_check(0xffff0181585686b8u64, 178, 7));
    assert(edge_check(0xffff0181585686b8u64, 178, 8));
    assert(edge_check(0xffff0181585686b8u64, 178, 9));
    assert(edge_check(0xffff0181585686b8u64, 178, 10));
    assert(edge_check(0xffff0181585686b8u64, 178, 11));
}

#[verifier::spinoff_prover]
proof fn lemma_row_179()
    ensures
        row_checks(TRI_TABLE[179], 179),
{
    reveal(row_entry);
    reveal(faces_inward);
    reveal(dot);
    reveal(triangle_normal);
    reveal(corner_solid);
    reveal(entry_check);
    reveal(triangle_check);
    reveal(edge_check);
    assert(TRI_TABLE[179] == 0xfffffff1535636b3u64);
    assert(entry_check(0xfffffff1535636b3u64, 179, 0));
    assert(entry_check(0xfffffff1535636b3u64, 179, 1));
    assert(entry_check(0xfffffff1535636b3u64, 179, 2));
    assert(entry_check(0xfffffff1535636b3u64, 179, 3));
    assert(entry_check(0xfffffff1535636b3u64, 179, 4));
    assert(entry_check(0xfffffff1535636b3u64, 179, 5));
    assert(entry_check(0xfffffff1535636b3u64, 179, 6));
    assert(entry_check(0xfffffff1535636b3u64, 179, 7));
    assert(entry_check(0xfffffff1535636b3u64, 179, 8));
    assert(entry_check(0xfffffff1535636b3u64, 179, 9));
    assert(entry_check(0xfffffff1535636b3u64, 179, 10));
    assert(entry_check(0xfffffff1535636b3u64, 179, 11));
    assert(entry_check(0xfffffff1535636b3u64, 179, 12));
    assert(entry_check(0xfffffff1535636b3u64, 179, 13));
    assert(entry_check(0xfffffff1535636b3u64, 179, 14));
    assert(entry_check(0xfffffff1535636b3u64, 179, 15));
    assert(triangle_check(0xfffffff1535636b3u64, 179, 0));
    assert(triangle_check(0xfffffff1535636b3u64, 179, 1));
    assert(triangle_check(0xfffffff1535636b3u64, 179, 2));
    assert(triangle_check(0xfffffff1535636b3u64, 179, 3));
    assert(triangle_check(0xfffffff1535636b3u64, 179, 4));
    assert(edge_check(0xfffffff1535636b3u64, 179, 0));
    assert(edge_check(0xfffffff1535636b3u64, 179, 1));
    assert(edge_check(0xfffffff1535636b3u64, 179, 2));
    assert(edge_check(0xfffffff1535636b3u64, 179, 3));
    assert(edge_check(0xfffffff1535636b3u64, 179, 4));
    assert(edge_check(0xfffffff1535636b3u64, 179, 5));
    assert(edge_check(0xfffffff1535636b3u64, 179, 6));
    assert(edge_check(0xfffffff1535636b3u64, 179, 7));
    assert(edge_check(0xfffffff1535636b3u64, 179, 8));
    assert(edge_check(0xfffffff1535636b3u64, 179, 9));
    assert(edge_check(0xfffffff1535636b3u64, 179, 10));
    assert(edge_check(0xfffffff1535636b3u64, 179, 11));
}

#[verifier::spinoff_prover]
proof fn lemma_row_180()
    ensures
        row_checks(TRI_TABLE[180], 180),
{
    reveal(row_entry);
    reveal(faces_inward);
    reveal(dot);
    reveal(triangle_normal);
    reveal(corner_solid);
    reveal(entry_check);
    reveal(triangle_check);
    reveal(edge_check);
    assert(TRI_TABLE[180] == 0xffff5696b9b892a1u64);
    assert(entry_check(0xffff5696b9b892a1u64, 180, 0));
    assert(entry_check(0xffff5696b9b892a1u64, 180, 1));
    assert(entry_check(0xffff5696b9b892a1u64, 180, 2));
    assert(entry_check(0xffff5696b9b892a1u64, 180, 3));
    assert(entry_check(0xffff5696b9b892a1u64, 180, 4));
    assert(entry_check(0xffff5696b9b892a1u64, 180, 5));
    assert(entry_check(0xffff5696b9b892a1u64, 180, 6));
    assert(entry_check(0xffff5696b9b892a1u64, 180, 7));
    assert(entry_check(0xffff5696b9b892a1u64, 180, 8));
    assert(entry_check(0xffff5696b9b892a1u64, 180, 9));
    assert(entry_check(0xffff5696b9b892a1u64, 180, 10));
    assert(entry_check(0xffff5696b9b892a1u64, 180, 11));
    assert(entry_check(0xffff5696b9b892a1u64, 180, 12));
    assert(entry_check(0xffff5696b9b892a1u64, 180, 13));
    assert(entry_check(0xffff5696b9b892a1u64, 180, 14));
    assert(entry_check(0xffff5696b9b892a1u64, 180, 15));
    assert(triangle_check(0xffff5696b9b892a1u64, 180, 0));
    assert(triangle_check(0xffff5696b9b892a1u64, 180, 1));
    assert(triangle_check(0xffff5696b9b892a1u64, 180, 2));
    assert(triangle_check(0xffff5696b9b892a1u64, 180, 3));
    assert(triangle_check(0xffff5696b9b892a1u64, 180, 4));
    assert(edge_check(0xffff5696b9b892a1u64, 180, 0));
    assert(edge_check(0xffff5696b9b892a1u64, 180, 1));
    assert(edge_check(0xffff5696b9b892a1u64, 180, 2));
    assert(edge_check(0xffff5696b9b892a1u64, 180, 3));
    assert(edge_check(0xffff5696b9b892a1u64, 180, 4));
    assert(edge_check(0xffff5696b9b892a1u64, 180, 5));
    assert(edge_check(0xffff5696b9b892a1u64, 180, 6));
    assert(edge_check(0xffff5696b9b892a1u64, 180, 7));
    assert(edge_check(0xffff5696b9b892a1u64, 180, 8));
    assert(edge_check(0xffff5696b9b892a1u64, 180, 9));
    assert(edge_check(0xffff5696b9b892a1u64, 180, 10));
    assert(edge_check(0xffff5696b9b892a1u64, 180, 11));
}

#[verifier::spinoff_prover]
proof fn lemma_row_181()
    ensures
        row_checks(TRI_TABLE[181], 181),
{
    reveal(row_entry);
    reveal(faces_inward);
    reveal(dot);
    reveal(triangle_normal);
    reveal(corner_solid);
    reveal(entry_check);
    reveal(triangle_check);
    reveal(edge_check);
    assert(TRI_TABLE[181] == 0xf2a19505606b0b30u64);
    assert(entry_check(0xf2a19505606b0b30u64, 181, 0));
    assert(entry_check(0xf2a19505606b0b30u64, 181, 1));
    assert(entry_check(0xf2a19505606b0b30u64, 181, 2));
    assert(entry_check(0xf2a19505606b0b30u64, 181, 3));
    assert(entry_check(0xf2a19505606b0b30u64, 181, 4));
    assert(entry_check(0xf2a19505606b0b30u64, 181, 5));
    assert(entry_check(0xf2a19505606b0b30u64, 181, 6));
    assert(entry_check(0xf2a19505606b0b30u64, 181, 7));
    assert(entry_check(0xf2a19505606b0b30u64, 181, 8));
    assert(entry_check(0xf2a19505606b0b30u64, 181, 9));
    assert(entry_check(0xf2a19505606b0b30u64, 181, 10));
    assert(entry_check(0xf2a19505606b0b30u64, 181, 11));
    assert(entry_check(0xf2a19505606b0b30u64, 181, 12));
    assert(entry_check(0xf2a19505606b0b30u64, 181, 13));
    assert(entry_check(0xf2a19505606b0b30u64, 181, 14));
    assert(entry_check(0xf2a19505606b0b30u64, 181, 15));
    assert(triangle_check(0xf2a19505606b0b30u64, 181, 0));
    assert(triangle_check(0xf2a19505606b0b30u64, 181, 1));
    assert(triangle_check(0xf2a19505606b0b30u64, 181, 2));
    assert(triangle_check(0xf2a19505606b0b30u64, 181, 3));
    assert(triangle_check(0xf2a19505606b0b30u64, 181, 4));
    assert(edge_check(0xf2a19505606b0b30u64, 181, 0));
    assert(edge_check(0xf2a19505606b0b30u64, 181, 1));
    assert(edge_check(0xf2a19505606b0b30u64, 181, 2));
    assert(edge_check(0xf2a19505606b0b30u64, 181, 3));
    assert(edge_check(0xf2a19505606b0b30u64, 181, 4));
    assert(edge_check(0xf2a19505606b0b30u64, 181, 5));
    assert(edge_check(0xf2a19505606b0b30u64, 181, 6));
    assert(edge_check(0xf2a19505606b0b30u64, 181, 7));
    assert(edge_check(0xf2a19505606b0b30u64, 181, 8));
    assert(edge_check(0xf2a19505606b0b30u64, 181, 9));
    assert(edge_check(0xf2a19505606b0b30u64, 181, 10));
    assert(edge_check(0xf2a19505606b0b30u64, 181, 11));
}

#[verifier::spinoff_prover]
proof fn lemma_row_182()
    ensures
        row_checks(TRI_TABLE[182], 182),
{
    reveal(row_entry);
    reveal(faces_inward);
    reveal(dot);
    reveal(triangle_normal);
    reveal(corner_solid);
    reveal(entry_check);
    reveal(triangle_check);
    reveal(edge_check);
    assert(TRI_TABLE[182] == 0xf6b5b858050252a5u64);
    assert(entry_check(0xf6b5b858050252a5u64, 182, 0));
    assert(entry_check(0xf6b5b858050252a5u64, 182, 1));
    assert(entry_check(0xf6b5b858050252a5u64, 182, 2));
    assert(entry_check(0xf6b5b858050252a5u64, 182, 3));
    assert(entry_check(0xf6b5b858050252a5u64, 182, 4));
    assert(entry_check(0xf6b5b858050252a5u64, 182, 5));
    assert(entry_check(0xf6b5b858050252a5u64, 182, 6));
    assert(entry_check(0xf6b5b858050252a5u64, 182, 7));
    assert(entry_check(0xf6b5b858050252a5u64, 182, 8));
    assert(entry_check(0xf6b5b858050252a5u64, 182, 9));
    assert(entry_check(0xf6b5b858050252a5u64, 182, 10));
    assert(entry_check(0xf6b5b858050252a5u64, 182, 11));
    assert(entry_check(0xf6b5b858050252a5u64, 182, 12));
    assert(entry_check(0xf6b5b858050252a5u64, 182, 13));
    assert(entry_check(0xf6b5b858050252a5u64, 182, 14));
    assert(entry_check(0xf6b5b858050252a5u64, 182, 15));
    assert(triangle_check(0xf6b5b858050252a5u64, 182, 0));
    assert(triangle_check(0xf6b5b858050252a5u64, 182, 1));
    assert(triangle_check(0xf6b5b858050252a5u64, 182, 2));
    assert(triangle_check(0xf6b5b858050252a5u64, 182, 3));
    assert(triangle_check(0xf6b5b858050252a5u64, 182, 4));
    assert(edge_check(0xf6b5b858050252a5u64, 182, 0));
    assert(edge_check(0xf6b5b858050252a5u64, 182, 1));
    assert(edge_check(0xf6b5b858050252a5u64, 182, 2));
    assert(edge_check(0xf6b5b858050252a5u64, 182, 3));
    assert(edge_check(0xf6b5b858050252a5u64, 182, 4));
    assert(edge_check(0xf6b5b858050252a5u64, 182, 5));
    assert(edge_check(0xf6b5b858050252a5u64, 182, 6));
    assert(edge_check(0xf6b5b858050252a5u64, 182, 7));
    assert(edge_check(0xf6b5b858050252a5u64, 182, 8));
    assert(edge_check(0xf6b5b858050252a5u64, 182, 9));
    assert(edge_check(0xf6b5b858050252a5u64, 182, 10));
    assert(edge_check(0xf6b5b858050252a5u64, 182, 11));
}

#[verifier::spinoff_prover]
proof fn lemma_row_183()
    ensures
        row_checks(TRI_TABLE[183], 183),
{
    reveal(row_entry);
    reveal(faces_inward);
    reveal(dot);
    reveal(triangle_normal);
    reveal(corner_solid);
    reveal(entry_check);
    reveal(triangle_check);
    reveal(edge_check);
    assert(TRI_TABLE[183] == 0xffff2a3a535636b3u64);
    assert(entry_check(0xffff2a3a535636b3u64, 183, 0));
    assert(entry_check(0xffff2a3a535636b3u64, 183, 1));
    assert(entry_check(0xffff2a3a535636b3u64, 183, 2));
    assert(entry_check(0xffff2a3a535636b3u64, 183, 3));
    assert(entry_check(0xffff2a3a535636b3u64, 183, 4));
    assert(entry_check(0xffff2a3a535636b3u64, 183, 5));
    assert(entry_check(0xffff2a3a535636b3u64, 183, 6));
    assert(entry_check(0xffff2a3a535636b3u64, 183, 7));
    assert(entry_check(0xffff2a3a535636b3u64, 183, 8));
    assert(entry_check(0xffff2a3a535636b3u64, 183, 9));
    assert(entry_check(0xffff2a3a535636b3u64, 183, 10));
    assert(entry_check(0xffff2a3a535636b3u64, 183, 11));
    assert(entry_check(0xffff2a3a535636b3u64, 183, 12));
    assert(entry_check(0xffff2a3a535636b3u64, 183, 13));
    assert(entry_check(0xffff2a3a535636b3u64, 183, 14));
    assert(entry_check(0xffff2a3a535636b3u64, 183, 15));
    assert(triangle_check(0xffff2a3a535636b3u64, 183, 0));
    assert(triangle_check(0xffff2a3a535636b3u64, 183, 1));
    assert(triangle_check(0xffff2a3a535636b3u64, 183, 2));
    assert(triangle_check(0xffff2a3a535636b3u64, 183, 3));
    assert(triangle_check(0xffff2a3a535636b3u64, 183, 4));
    assert(edge_check(0xffff2a3a535636b3u64, 183, 0));
    assert(edge_check(0xffff2a3a535636b3u64, 183, 1));
    assert(edge_check(0xffff2a3a535636b3u64, 183, 2));
    assert(edge_check(0xffff2a3a535636b3u64, 183, 3));
    assert(edge_check(0xffff2a3a535636b3u64, 183, 4));
    assert(edge_check(0xffff2a3a535636b3u64, 183, 5));
    assert(edge_check(0xffff2a3a535636b3u64, 183, 6));
    assert(edge_check(0xffff2a3a535636b3u64, 183, 7));
    assert(edge_check(0xffff2a3a535636b3u64, 183, 8));
    assert(edge_check(0xffff2a3a535636b3u64, 183, 9));
    assert(edge_check(0xffff2a3a535636b3u64, 183, 10));
    assert(edge_check(0xffff2a3a535636b3u64, 183, 11));
}

#[verifier::spinoff_prover]
proof fn lemma_row_184()
    ensures
        row_checks(TRI_TABLE[184], 184),
{
    reveal(row_entry);
    reveal(faces_inward);
    reveal(dot);
    reveal(triangle_normal);
    reveal(corner_solid);
    reveal(entry_check);
    reveal(triangle_check);
    reveal(edge_check);
    assert(TRI_TABLE[184] == 0xffff236386896956u64);
    assert(entry_check(0xffff236386896956u64, 184, 0));
    assert(entry_check(0xffff236386896956u64, 184, 1));
    assert(entry_check(0xffff236386896956u64, 184, 2));
    assert(entry_check(0xffff236386896956u64, 184, 3));
    assert(entry_check(0xffff236386896956u64, 184, 4));
    assert(entry_check(0xffff236386896956u64, 184, 5));
    assert(entry_check(0xffff236386896956u64, 184, 6));
    assert(entry_check(0xffff236386896956u64, 184, 7));
    assert(entry_check(0xffff236386896956u64, 184, 8));
    assert(entry_check(0xffff236386896956u64, 184, 9));
    assert(entry_check(0xffff236386896956u64, 184, 10));
    assert(entry_check(0xffff236386896956u64, 184, 11));
    assert(entry_check(0xffff236386896956u64, 184, 12));
    assert(entry_check(0xffff236386896956u64, 184, 13));
    assert(entry_check(0xffff236386896956u64, 184, 14));
    assert(entry_check(0xffff236386896956u64, 184, 15));
    assert(triangle_check(0xffff236386896956u64, 184, 0));
    assert(triangle_check(0xffff236386896956u64, 184, 1));
    assert(triangle_check(0xffff236386896956u64, 184, 2));
    assert(triangle_check(0xffff236386896956u64, 184, 3));
    assert(triangle_check(0xffff236386896956u64, 184, 4));
    assert(edge_check(0xffff236386896956u64, 184, 0));
    assert(edge_check(0xffff236386896956u64, 184, 1));
    assert(edge_check(0xffff236386896956u64, 184, 2));
    assert(edge_check(0xffff236386896956u64, 184, 3));
    assert(edge_check(0xffff236386896956u64, 184, 4));
    assert(edge_check(0xffff236386896956u64, 184, 5));
    assert(edge_check(0xffff236386896956u64, 184, 6));
    assert(edge_check(0xffff236386896956u64, 184, 7));
    assert(edge_check(0xffff236386896956u64, 184, 8));
    assert(edge_check(0xffff236386896956u64, 184, 9));
    assert(edge_check(0xffff236386896956u64, 184, 10));
    assert(edge_check(0xffff236386896956u64, 184, 11));
}

#[verifier::spinoff_prover]
proof fn lemma_row_185()
    ensures
        row_checks(TRI_TABLE[185], 185),
{
    reveal(row_entry);
    reveal(faces_inward);
    reveal(dot);
    reveal(triangle_normal);
    reveal(corner_solid);
    reveal(entry_check);
    reveal(triangle_check);
    reveal(edge_check);
    assert(TRI_TABLE[185] == 0xfffffff950560620u64);
    assert(entry_check(0xfffffff950560620u64, 185, 0));
    assert(entry_check(0xfffffff950560620u64, 185, 1));
    assert(entry_check(0xfffffff950560620u64, 185, 2));
    assert(entry_check(0xfffffff950560620u64, 185, 3));
    assert(entry_check(0xfffffff950560620u64, 185, 4));
    assert(entry_check(0xfffffff950560620u64, 185, 5));
    assert(entry_check(0xfffffff950560620u64, 185, 6));
    assert(entry_check(0xfffffff950560620u64, 185, 7));
    assert(entry_check(0xfffffff950560620u64, 185, 8));
    assert(entry_check(0xfffffff950560620u64, 185, 9));
    assert(entry_check(0xfffffff950560620u64, 185, 10));
    assert(entry_check(0xfffffff950560620u64, 185, 11));
    assert(entry_check(0xfffffff950560620u64, 185, 12));
    assert(entry_check(0xfffffff950560620u64, 185, 13));
    assert(entry_check(0xfffffff950560620u64, 185, 14));
    assert(entry_check(0xfffffff950560620u64, 185, 15));
    assert(triangle_check(0xfffffff950560620u64, 185, 0));
    assert(triangle_check(0xfffffff950560620u64, 185, 1));
    assert(triangle_check(0xfffffff950560620u64, 185, 2));
    assert(triangle_check(0xfffffff950560620u64, 185, 3));
    assert(triangle_check(0xfffffff950560620u64, 185, 4));
    assert(edge_check(0xfffffff950560620u64, 185, 0));
    assert(edge_check(0xfffffff950560620u64, 185, 1));
    assert(edge_check(0xfffffff950560620u64, 185, 2));
    assert(edge_check(0xfffffff950560620u64, 185, 3));
    assert(edge_check(0xfffffff950560620u64, 185, 4));
    assert(edge_check(0xfffffff950560620u64, 185, 5));
    assert(edge_check(0xfffffff950560620u64, 185, 6));
    assert(edge_check(0xfffffff950560620u64, 185, 7));
    assert(edge_check(0xfffffff950560620u64, 185, 8));
    assert(edge_check(0xfffffff950560620u64, 185, 9));
    assert(edge_check(0xfffffff950560620u64, 185, 10));
    assert(edge_check(0xfffffff950560620u64, 185, 11));
}

#[verifier::spinoff_prover]
proof fn lemma_row_186()
    ensures
        row_checks(TRI_TABLE[186], 186),
{
    reveal(row_entry);
    reveal(faces_inward);
    reveal(dot);
    reveal(triangle_normal);
    reveal(corner_solid);
    reveal(entry_check);
    reveal(triangle_check);
    reveal(edge_check);
    assert(TRI_TABLE[186] == 0xf018158568628238u64);
    assert(entry_check(0xf018158568628238u64, 186, 0));
    assert(entry_check(0xf018158568628238u64, 186, 1));
    assert(entry_check(0xf018158568628238u64, 186, 2));
    assert(entry_check(0xf018158568628238u64, 186, 3));
    assert(entry_check(0xf018158568628238u64, 186, 4));
    assert(entry_check(0xf018158568628238u64, 186, 5));
    assert(entry_check(0xf018158568628238u64, 186, 6));
    assert(entry_check(0xf018158568628238u64, 186, 7));
    assert(entry_check(0xf018158568628238u64, 186, 8));
    assert(entry_check(0xf018158568628238u64, 186, 9));
    assert(entry_check(0xf018158568628238u64, 186, 10));
    assert(entry_check(0xf018158568628238u64, 186, 11));
    assert(entry_check(0xf018158568628238u64, 186, 12));
    assert(entry_check(0xf018158568628238u64, 186, 13));
    assert(entry_check(0xf018158568628238u64, 186, 14));
    assert(entry_check(0xf018158568628238u64, 186, 15));
    assert(triangle_check(0xf018158568628238u64, 186, 0));
    assert(triangle_check(0xf018158568628238u64, 186, 1));
    assert(triangle_check(0xf018158568628238u64, 186, 2));
    assert(triangle_check(0xf018158568628238u64, 186, 3));
    assert(triangle_check(0xf018158568628238u64, 186, 4));
    assert(edge_check(0xf018158568628238u64, 186, 0));
    assert(edge_check(0xf018158568628238u64, 186, 1));
    assert(edge_check(0xf018158568628238u64, 186, 2));
    assert(edge_check(0xf018158568628238u64, 186, 3));
    assert(edge_check(0xf018158568628238u64, 186, 4));
    assert(edge_check(0xf018158568628238u64, 186, 5));
    assert(edge_check(0xf018158568628238u64, 186, 6));
    assert(edge_check(0xf018158568628238u64, 186, 7));
    assert(edge_check(0xf018158568628238u64, 186, 8));
    assert(edge_check(0xf018158568628238u64, 186, 9));
    assert(edge_check(0xf018158568628238u64, 186, 10));
    assert(edge_check(0xf018158568628238u64, 186, 11));
}

#[verifier::spinoff_prover]
proof fn lemma_row_187()
    ensures
        row_checks(TRI_TABLE[187], 187),
{
    reveal(row_entry);
    reveal(faces_inward);
    reveal(dot);
    reveal(triangle_normal);
    reveal(corner_solid);
    reveal(entry_check);
    reveal(triangle_check);
    reveal(edge_check);
    assert(TRI_TABLE[187] == 0xffffffffff152562u64);
    assert(entry_check(0xffffffffff152562u64, 187, 0));
    assert(entry_check(0xffffffffff152562u64, 187, 1));
    assert(entry_check(0xffffffffff152562u64, 187, 2));
    assert(entry_check(0xffffffffff152562u64, 187, 3));
    assert(entry_check(0xffffffffff152562u64, 187, 4));
    assert(entry_check(0xffffffffff152562u64, 187, 5));
    assert(entry_check(0xffffffffff152562u64, 187, 6));
    assert(entry_check(0xffffffffff152562u64, 187, 7));
    assert(entry_check(0xffffffffff152562u64, 187, 8));
    assert(entry_check(0xffffffffff152562u64, 187, 9));
    assert(entry_check(0xffffffffff152562u64, 187, 10));
    assert(entry_check(0xffffffffff152562u64, 187, 11));
    assert(entry_check(0xffffffffff152562u64, 187, 12));
    assert(entry_check(0xffffffffff152562u64, 187, 13));
    assert(entry_check(0xffffffffff152562u64, 187, 14));
    assert(entry_check(0xffffffffff152562u64, 187, 15));
    assert(triangle_check(0xffffffffff152562u64, 187, 0));
    assert(triangle_check(0xffffffffff152562u64, 187, 1));
    assert(triangle_check(0xffffffffff152562u64, 187, 2));
    assert(triangle_check(0xffffffffff152562u64, 187, 3));
    assert(triangle_check(0xffffffffff152562u64, 187, 4));
    assert(edge_check(0xffffffffff152562u64, 187, 0));
    assert(edge_check(0xffffffffff152562u64, 187, 1));
    assert(edge_check(0xffffffffff152562u64, 187, 2));
    assert(edge_check(0xffffffffff152562u64, 187, 3));
    assert(edge_check(0xffffffffff152562u64, 187, 4));
    assert(edge_check(0xffffffffff152562u64, 187, 5));
    assert(edge_check(0xffffffffff152562u64, 187, 6));
    assert(edge_check(0xffffffffff152562u64, 187, 7));
    assert(edge_check(0xffffffffff152562u64, 187, 8));
    assert(edge_check(0xffffffffff152562u64, 187, 9));
    assert(edge_check(0xffffffffff152562u64, 187, 10));
    assert(edge_check(0xffffffffff152562u64, 187, 11));
}

#[verifier::spinoff_prover]
proof fn lemma_row_188()
    ensures
        row_checks(TRI_TABLE[188], 188),
{
    reveal(row_entry);
    reveal(faces_inward);
    reveal(dot);
    reveal(triangle_normal);
    reveal(corner_solid);
    reveal(entry_check);
    reveal(triangle_check);
    reveal(edge_check);
    assert(TRI_TABLE[188] == 0xfa16136386896956u64);
    assert(entry_check(0xfa16136386896956u64, 188, 0));
    assert(entry_check(0xfa16136386896956u64, 188, 1));
    assert(entry_check(0xfa16136386896956u64, 188, 2));
    assert(entry_check(0xfa16136386896956u64, 188, 3));
    assert(entry_check(0xfa16136386896956u64, 188, 4));
    assert(entry_check(0xfa16136386896956u64, 188, 5));
    assert(entry_check(0xfa16136386896956u64, 188, 6));
    assert(entry_check(0xfa16136386896956u64, 188, 7));
    assert(entry_check(0xfa16136386896956u64, 188, 8));
    assert(entry_check(0xfa16136386896956u64, 188, 9));
    assert(entry_check(0xfa16136386896956u64, 188, 10));
    assert(entry_check(0xfa16136386896956u64, 188, 11));
    assert(entry_check(0xfa16136386896956u64, 188, 12));
    assert(entry_check(0xfa16136386896956u64, 188, 13));
    assert(entry_check(0xfa16136386896956u64, 188, 14));
    assert(entry_check(0xfa16136386896956u64, 188, 15));
    assert(triangle_check(0xfa16136386896956u64, 188, 0));
    assert(triangle_check(0xfa16136386896956u64, 188, 1));
    assert(triangle_check(0xfa16136386896956u64, 188, 2));
    assert(triangle_check(0xfa16136386896956u64, 188, 3));
    assert(triangle_check(0xfa16136386896956u64, 188, 4));
    assert(edge_check(0xfa16136386896956u64, 188, 0));
    assert(edge_check(0xfa16136386896956u64, 188, 1));
    assert(edge_check(0xfa16136386896956u64, 188, 2));
    assert(edge_check(0xfa16136386896956u64, 188, 3));
    assert(edge_check(0xfa16136386896956u64, 188, 4));
    assert(edge_check(0xfa16136386896956u64, 188, 5));
    assert(edge_check(0xfa16136386896956u64, 188, 6));
    assert(edge_check(0xfa16136386896956u64, 188, 7));
    assert(edge_check(0xfa16136386896956u64, 188, 8));
    assert(edge_check(0xfa16136386896956u64, 188, 9));
    assert(edge_check(0xfa16136386896956u64, 188, 10));
    assert(edge_check(0xfa16136386896956u64, 188, 11));
}

#[verifier::spinoff_prover]
proof fn lemma_row_189()
    ensures
        row_checks(TRI_TABLE[189], 189),
{
    reveal(row_entry);
    reveal(faces_inward);
    reveal(dot);
    reveal(triangle_normal);
    reveal(corner_solid);
    reveal(entry_check);
    reveal(triangle_check);
    reveal(edge_check);
    assert(TRI_TABLE[189] == 0xffff9505606a0a10u64);
    assert(entry_check(0xffff9505606a0a10u64, 189, 0));
    assert(entry_check(0xffff9505606a0a10u64, 189, 1));
    assert(entry_check(0xffff9505606a0a10u64, 189, 2));
    assert(entry_check(0xffff9505606a0a10u64, 189, 3));
    assert(entry_check(0xffff9505606a0a10u64, 189, 4));
    assert(entry_check(0xffff9505606a0a10u64, 189, 5));
    assert(entry_check(0xffff9505606a0a10u64, 189, 6));
    assert(entry_check(0xffff9505606a0a10u64, 189, 7));
    assert(entry_check(0xffff9505606a0a10u64, 189, 8));
    assert(entry_check(0xffff9505606a0a10u64, 189, 9));
    assert(entry_check(0xffff9505606a0a10u64, 189, 10));
    assert(entry_check(0xffff9505606a0a10u64, 189, 11));
    assert(entry_check(0xffff9505606a0a10u64, 189, 12));
    assert(entry_check(0xffff9505606a0a10u64, 189, 13));
    assert(entry_check(0xffff9505606a0a10u64, 189, 14));
    assert(entry_check(0xffff9505606a0a10u64, 189, 15));
    assert(triangle_check(0xffff9505606a0a10u64, 189, 0));
    assert(triangle_check(0xffff9505606a0a10u64, 189, 1));
    assert(triangle_check(0xffff9505606a0a10u64, 189, 2));
    assert(triangle_check(0xffff9505606a0a10u64, 189, 3));
    assert(triangle_check(0xffff9505606a0a10u64, 189, 4));
    assert(edge_check(0xffff9505606a0a10u64, 189, 0));
    assert(edge_check(0xffff9505606a0a10u64, 189, 1));
    assert(edge_check(0xffff9505606a0a10u64, 189, 2));
    assert(edge_check(0xffff9505606a0a10u64, 189, 3));
    assert(edge_check(0xffff9505606a0a10u64, 189, 4));
    assert(edge_check(0xffff9505606a0a10u64, 189, 5));
    assert(edge_check(0xffff9505606a0a10u64, 189, 6));
    assert(edge_check(0xffff9505606a0a10u64, 189, 7));
    assert(edge_check(0xffff9505606a0a10u64, 189, 8));
    assert(edge_check(0xffff9505606a0a10u64, 189, 9));
    assert(edge_check(0xffff9505606a0a10u64, 189, 10));
    assert(edge_check(0xffff9505606a0a10u64, 189, 11));
}

#[verifier::spinoff_prover]
proof fn lemma_row_190()
    ensures
        row_checks(TRI_TABLE[190], 190),
{
    reveal(row_entry);
    reveal(faces_inward);
    reveal(dot);
    reveal(triangle_normal);
    reveal(corner_solid);
    reveal(entry_check);
    reveal(triangle_check);
    reveal(edge_check);
    assert(TRI_TABLE[190] == 0xffffffffff6a5038u64);
    assert(entry_check(0xffffffffff6a5038u64, 190, 0));
    assert(entry_check(0xffffffffff6a5038u64, 190, 1));
    assert(entry_check(0xffffffffff6a5038u64, 190, 2));
    assert(entry_check(0xffffffffff6a5038u64, 190, 3));
    assert(entry_check(0xffffffffff6a5038u64, 190, 4));
    assert(entry_check(0xffffffffff6a5038u64, 190, 5));
    assert(entry_check(0xffffffffff6a5038u64, 190, 6));
    assert(entry_check(0xffffffffff6a5038u64, 190, 7));
    assert(entry_check(0xffffffffff6a5038u64, 190, 8));
    assert(entry_check(0xffffffffff6a5038u64, 190, 9));
    assert(entry_check(0xffffffffff6a5038u64, 190, 10));
    assert(entry_check(0xffffffffff6a5038u64, 190, 11));
    assert(entry_check(0xffffffffff6a5038u64, 190, 12));
    assert(entry_check(0xffffffffff6a5038u64, 190, 13));
    assert(entry_check(0xffffffffff6a5038u64, 190, 14));
    assert(entry_check(0xffffffffff6a5038u64, 190, 15));
    assert(triangle_check(0xffffffffff6a5038u64, 190, 0));
    assert(triangle_check(0xffffffffff6a5038u64, 190, 1));
    assert(triangle_check(0xffffffffff6a5038u64, 190, 2));
    assert(triangle_check(0xffffffffff6a5038u64, 190, 3));
    assert(triangle_check(0xffffffffff6a5038u64, 190, 4));
    assert(edge_check(0xffffffffff6a5038u64, 190, 0));
    assert(edge_check(0xffffffffff6a5038u64, 190, 1));
    assert(edge_check(0xffffffffff6a5038u64, 190, 2));
    assert(edge_check(0xffffffffff6a5038u64, 190, 3));
    assert(edge_check(0xffffffffff6a5038u64, 190, 4));
    assert(edge_check(0xffffffffff6a5038u64, 190, 5));
    assert(edge_check(0xffffffffff6a5038u64, 190, 6));
    assert(edge_check(0xffffffffff6a5038u64, 190, 7));
    assert(edge_check(0xffffffffff6a5038u64, 190, 8));
    assert(edge_check(0xffffffffff6a5038u64, 190, 9));
    assert(edge_check(0xffffffffff6a5038u64, 190, 10));
    assert(edge_check(0xffffffffff6a5038u64, 190, 11));
}

#[verifier::spinoff_prover]
proof fn lemma_row_191()
    ensures
        row_checks(TRI_TABLE[191], 191),
{
    reveal(row_entry);
    reveal(faces_inward);
    reveal(dot);
    reveal(triangle_normal);
    reveal(corner_solid);
    reveal(entry_check);
    reveal(triangle_check);
    reveal(edge_check);
    assert(TRI_TABLE[191] == 0xfffffffffffff6a5u64);
    assert(entry_check(0xfffffffffffff6a5u64, 191, 0));
    assert(entry_check(0xfffffffffffff6a5u64, 191, 1));
    assert(entry_check(0xfffffffffffff6a5u64, 191, 2));
    assert(entry_check(0xfffffffffffff6a5u64, 191, 3));
    assert(entry_check(0xfffffffffffff6a5u64, 191, 4));
    assert(entry_check(0xfffffffffffff6a5u64, 191, 5));
    assert(entry_check(0xfffffffffffff6a5u64, 191, 6));
    assert(entry_check(0xfffffffffffff6a5u64, 191, 7));
    assert(entry_check(0xfffffffffffff6a5u64, 191, 8));
    assert(entry_check(0xfffffffffffff6a5u64, 191, 9));
    assert(entry_check(0xfffffffffffff6a5u64, 191, 10));
    assert(entry_check(0xfffffffffffff6a5u64, 191, 11));
    assert(entry_check(0xfffffffffffff6a5u64, 191, 12));
    assert(entry_check(0xfffffffffffff6a5u64, 191, 13));
    assert(entry_check(0xfffffffffffff6a5u64, 191, 14));
    assert(entry_check(0xfffffffffffff6a5u64, 191, 15));
    assert(triangle_check(0xfffffffffffff6a5u64, 191, 0));
    assert(triangle_check(0xfffffffffffff6a5u64, 191, 1));
    assert(triangle_check(0xfffffffffffff6a5u64, 191, 2));
    assert(triangle_check(0xfffffffffffff6a5u64, 191, 3));
    assert(triangle_check(0xfffffffffffff6a5u64, 191, 4));
    assert(edge_check(0xfffffffffffff6a5u64, 191, 0));
    assert(edge_check(0xfffffffffffff6a5u64, 191, 1));
    assert(edge_check(0xfffffffffffff6a5u64, 191, 2));
    assert(edge_check(0xfffffffffffff6a5u64, 191, 3));
    assert(edge_check(0xfffffffffffff6a5u64, 191, 4));
    assert(edge_check(0xfffffffffffff6a5u64, 191, 5));
    assert(edge_check(0xfffffffffffff6a5u64, 191, 6));
    assert(edge_check(0xfffffffffffff6a5u64, 191, 7));
    assert(edge_check(0xfffffffffffff6a5u64, 191, 8));
    assert(edge_check(0xfffffffffffff6a5u64, 191, 9));
    assert(edge_check(0xfffffffffffff6a5u64, 191, 10));
    assert(edge_check(0xfffffffffffff6a5u64, 191, 11));
}

#[verifier::spinoff_prover]
proof fn lemma_row_192()
    ensures
        row_checks(TRI_TABLE[192], 192),
{
    reveal(row_entry);
    reveal(faces_inward);
    reveal(dot);
    reveal(triangle_normal);
    reveal(corner_solid);
    reveal(entry_check);
    reveal(triangle_check);
    reveal(edge_check);
    assert(TRI_TABLE[192] == 0xffffffffff5a7ab7u64);
    assert(entry_check(0xffffffffff5a7ab7u64, 192, 0));
    assert(entry_check(0xffffffffff5a7ab7u64, 192, 1));
    assert(entry_check(0xffffffffff5a7ab7u64, 192, 2));
    assert(entry_check(0xffffffffff5a7ab7u64, 192, 3));
    assert(entry_check(0xffffffffff5a7ab7u64, 192, 4));
    assert(entry_check(0xffffffffff5a7ab7u64, 192, 5));
    assert(entry_check(0xffffffffff5a7ab7u64, 192, 6));
    assert(entry_check(0xffffffffff5a7ab7u64, 192, 7));
    assert(entry_check(0xffffffffff5a7ab7u64, 192, 8));
    assert(entry_check(0xffffffffff5a7ab7u64, 192, 9));
    assert(entry_check(0xffffffffff5a7ab7u64, 192, 10));
    assert(entry_check(0xffffffffff5a7ab7u64, 192, 11));
    assert(entry_check(0xffffffffff5a7ab7u64, 192, 12));
    assert(entry_check(0xffffffffff5a7ab7u64, 192, 13));
    assert(entry_check(0xffffffffff5a7ab7u64, 192, 14));
    assert(entry_check(0xffffffffff5a7ab7u64, 192, 15));
    assert(triangle_check(0xffffffffff5a7ab7u64, 192, 0));
    assert(triangle_check(0xffffffffff5a7ab7u64, 192, 1));
    assert(triangle_check(0xffffffffff5a7ab7u64, 192, 2));
    assert(triangle_check(0xffffffffff5a7ab7u64, 192, 3));
    assert(triangle_check(0xffffffffff5a7ab7u64, 192, 4));
    assert(edge_check(0xffffffffff5a7ab7u64, 192, 0));
    assert(edge_check(0xffffffffff5a7ab7u64, 192, 1));
    assert(edge_check(0xffffffffff5a7ab7u64, 192, 2));
    assert(edge_check(0xffffffffff5a7ab7u64, 192, 3));
    assert(edge_check(0xffffffffff5a7ab7u64, 192, 4));
    assert(edge_check(0xffffffffff5a7ab7u64, 192, 5));
    assert(edge_check(0xffffffffff5a7ab7u64, 192, 6));
    assert(edge_check(0xffffffffff5a7ab7u64, 192, 7));
    assert(edge_check(0xffffffffff5a7ab7u64, 192, 8));
    assert(edge_check(0xffffffffff5a7ab7u64, 192, 9));
    assert(edge_check(0xffffffffff5a7ab7u64, 192, 10));
    assert(edge_check(0xffffffffff5a7ab7u64, 192, 11));
}

#[verifier::spinoff_prover]
proof fn lemma_row_193()
    ensures
        row_checks(TRI_TABLE[193], 193),
{
    reveal(row_entry);
    reveal(faces_inward);
    reveal(dot);
    reveal(triangle_normal);
    reveal(corner_solid);
    reveal(entry_check);
    reveal(triangle_check);
    reveal(edge_check);
    assert(TRI_TABLE[193] == 0xfffffff5a7ab7830u64);
    assert(entry_check(0xfffffff5a7ab7830u64, 193, 0));
    assert(entry_check(0xfffffff5a7ab7830u64, 193, 1));
    assert(entry_check(0xfffffff5a7ab7830u64, 193, 2));
    assert(entry_check(0xfffffff5a7ab7830u64, 193, 3));
    assert(entry_check(0xfffffff5a7ab7830u64, 193, 4));
    assert(entry_check(0xfffffff5a7ab7830u64, 193, 5));
    assert(entry_check(0xfffffff5a7ab7830u64, 193, 6));
    assert(entry_check(0xfffffff5a7ab7830u64, 193, 7));
    assert(entry_check(0xfffffff5a7ab7830u64, 193, 8));
    assert(entry_check(0xfffffff5a7ab7830u64, 193, 9));
    assert(entry_check(0xfffffff5a7ab7830u64, 193, 10));
    assert(entry_check(0xfffffff5a7ab7830u64, 193, 11));
    assert(entry_check(0xfffffff5a7ab7830u64, 193, 12));
    assert(entry_check(0xfffffff5a7ab7830u64, 193, 13));
    assert(entry_check(0xfffffff5a7ab7830u64, 193, 14));
    assert(entry_check(0xfffffff5a7ab7830u64, 193, 15));
    assert(triangle_check(0xfffffff5a7ab7830u64, 193, 0));
    assert(triangle_check(0xfffffff5a7ab7830u64, 193, 1));
    assert(triangle_check(0xfffffff5a7ab7830u64, 193, 2));
    assert(triangle_check(0xfffffff5a7ab7830u64, 193, 3));
    assert(triangle_check(0xfffffff5a7ab7830u64, 193, 4));
    assert(edge_check(0xfffffff5a7ab7830u64, 193, 0));
    assert(edge_check(0xfffffff5a7ab7830u64, 193, 1));
    assert(edge_check(0xfffffff5a7ab7830u64, 193, 2));
    assert(edge_check(0xfffffff5a7ab7830u64, 193, 3));
    assert(edge_check(0xfffffff5a7ab7830u64, 193, 4));
    assert(edge_check(0xfffffff5a7ab7830u64, 193, 5));
    assert(edge_check(0xfffffff5a7ab7830u64, 193, 6));
    assert(edge_check(0xfffffff5a7ab7830u64, 193, 7));
    assert(edge_check(0xfffffff5a7ab7830u64, 193, 8));
    assert(edge_check(0xfffffff5a7ab7830u64, 193, 9));
    assert(edge_check(0xfffffff5a7ab7830u64, 193, 10));
    assert(edge_check(0xfffffff5a7ab7830u64, 193, 11));
}

#[verifier::spinoff_prover]
proof fn lemma_row_194()
    ensures
        row_checks(TRI_TABLE[194], 194),
{
    reveal(row_entry);
    reveal(faces_inward);
    reveal(dot);
    reveal(triangle_normal);
    reveal(corner_solid);
    reveal(entry_check);
    reveal(triangle_check);
    reveal(edge_check);
    assert(TRI_TABLE[194] == 0xfffffff5a7ab7019u64);
    assert(entry_check(0xfffffff5a7ab7019u64, 194, 0));
    assert(entry_check(0xfffffff5a7ab7019u64, 194, 1));
    assert(entry_check(0xfffffff5a7ab7019u64, 194, 2));
    assert(entry_check(0xfffffff5a7ab7019u64, 194, 3));
    assert(entry_check(0xfffffff5a7ab7019u64, 194, 4));
    assert(entry_check(0xfffffff5a7ab7019u64, 194, 5));
    assert(entry_check(0xfffffff5a7ab7019u64, 194, 6));
    assert(entry_check(0xfffffff5a7ab7019u64, 194, 7));
    assert(entry_check(0xfffffff5a7ab7019u64, 194, 8));
    assert(entry_check(0xfffffff5a7ab7019u64, 194, 9));
    assert(entry_check(0xfffffff5a7ab7019u64, 194, 10));
    assert(entry_check(0xfffffff5a7ab7019u64, 194, 11));
    assert(entry_check(0xfffffff5a7ab7019u64, 194, 12));
    assert(entry_check(0xfffffff5a7ab7019u64, 194, 13));
    assert(entry_check(0xfffffff5a7ab7019u64, 194, 14));
    assert(entry_check(0xfffffff5a7ab7019u64, 194, 15));
    assert(triangle_check(0xfffffff5a7ab7019u64, 194, 0));
    assert(triangle_check(0xfffffff5a7ab7019u64, 194, 1));
    assert(triangle_check(0xfffffff5a7ab7019u64, 194, 2));
    assert(triangle_check(0xfffffff5a7ab7019u64, 194, 3));
    assert(triangle_check(0xfffffff5a7ab7019u64, 194, 4));
    assert(edge_check(0xfffffff5a7ab7019u64, 194, 0));
    assert(edge_check(0xfffffff5a7ab7019u64, 194, 1));
    assert(edge_check(0xfffffff5a7ab7019u64, 194, 2));
    assert(edge_check(0xfffffff5a7ab7019u64, 194, 3));
    assert(edge_check(0xfffffff5a7ab7019u64, 194, 4));
    assert(edge_check(0xfffffff5a7ab7019u64, 194, 5));
    assert(edge_check(0xfffffff5a7ab7019u64, 194, 6));
    assert(edge_check(0xfffffff5a7ab7019u64, 194, 7));
    assert(edge_check(0xfffffff5a7ab7019u64, 194, 8));
    assert(edge_check(0xfffffff5a7ab7019u64, 194, 9));
    assert(edge_check(0xfffffff5a7ab7019u64, 194, 10));
    assert(edge_check(0xfffffff5a7ab7019u64, 194, 11));
}

#[verifier::spinoff_prover]
proof fn lemma_row_195()
    ensures
        row_checks(TRI_TABLE[195], 195),
{
    reveal(row_entry);
    reveal(faces_inward);
    reveal(dot);
    reveal(triangle_normal);
    reveal(corner_solid);
    reveal(entry_check);
    reveal(triangle_check);
    reveal(edge_check);
    assert(TRI_TABLE[195] == 0xffff5a7ab7193983u64);
    assert(entry_check(0xffff5a7ab7193983u64, 195, 0));
    assert(entry_check(0xffff5a7ab7193983u64, 195, 1));
    assert(entry_check(0xffff5a7ab7193983u64, 195, 2));
    assert(entry_check(0xffff5a7ab7193983u64, 195, 3));
    assert(entry_check(0xffff5a7ab7193983u64, 195, 4));
    assert(entry_check(0xffff5a7ab7193983u64, 195, 5));
    assert(entry_check(0xffff5a7ab7193983u64, 195, 6));
    assert(entry_check(0xffff5a7ab7193983u64, 195, 7));
    assert(entry_check(0xffff5a7ab7193983u64, 195, 8));
    assert(entry_check(0xffff5a7ab7193983u64, 195, 9));
    assert(entry_check(0xffff5a7ab7193983u64, 195, 10));
    assert(entry_check(0xffff5a7ab7193983u64, 195, 11));
    assert(entry_check(0xffff5a7ab7193983u64, 195, 12));
    assert(entry_check(0xffff5a7ab7193983u64, 195, 13));
    assert(entry_check(0xffff5a7ab7193983u64, 195, 14));
    assert(entry_check(0xffff5a7ab7193983u64, 195, 15));
    assert(triangle_check(0xffff5a7ab7193983u64, 195, 0));
    assert(triangle_check(0xffff5a7ab7193983u64, 195, 1));
    assert(triangle_check(0xffff5a7ab7193983u64, 195, 2));
    assert(triangle_check(0xffff5a7ab7193983u64, 195, 3));
    assert(triangle_check(0xffff5a7ab7193983u64, 195, 4));
    assert(edge_check(0xffff5a7ab7193983u64, 195, 0));
    assert(edge_check(0xffff5a7ab7193983u64, 195, 1));
    assert(edge_check(0xffff5a7ab7193983u64, 195, 2));
    assert(edge_check(0xffff5a7ab7193983u64, 195, 3));
    assert(edge_check(0xffff5a7ab7193983u64, 195, 4));
    assert(edge_check(0xffff5a7ab7193983u64, 195, 5));
    assert(edge_check(0xffff5a7ab7193983u64, 195, 6));
    assert(edge_check(0xffff5a7ab7193983u64, 195, 7));
    assert(edge_check(0xffff5a7ab7193983u64, 195, 8));
    assert(edge_check(0xffff5a7ab7193983u64, 195, 9));
    assert(edge_check(0xffff5a7ab7193983u64, 195, 10));
    assert(edge_check(0xffff5a7ab7193983u64, 195, 11));
}

#[verifier::spinoff_prover]
proof fn lemma_row_196()
    ensures
        row_checks(TRI_TABLE[196], 196),
{
    reveal(row_entry);
    reveal(faces_inward);
    reveal(dot);
    reveal(triangle_normal);
    reveal(corner_solid);
    reveal(entry_check);
    reveal(triangle_check);
    reveal(edge_check);
    assert(TRI_TABLE[196] == 0xfffffff2b1b71751u64);
    assert(entry_check(0xfffffff2b1b71751u64, 196, 0));
    assert(entry_check(0xfffffff2b1b71751u64, 196, 1));
    assert(entry_check(0xfffffff2b1b71751u64, 196, 2));
    assert(entry_check(0xfffffff2b1b71751u64, 196, 3));
    assert(entry_check(0xfffffff2b1b71751u64, 196, 4));
    assert(entry_check(0xfffffff2b1b71751u64, 196, 5));
    assert(entry_check(0xfffffff2b1b71751u64, 196, 6));
    assert(entry_check(0xfffffff2b1b71751u64, 196, 7));
    assert(entry_check(0xfffffff2b1b71751u64, 196, 8));
    assert(entry_check(0xfffffff2b1b71751u64, 196, 9));
    assert(entry_check(0xfffffff2b1b71751u64, 196, 10));
    assert(entry_check(0xfffffff2b1b71751u64, 196, 11));
    assert(entry_check(0xfffffff2b1b71751u64, 196, 12));
    assert(entry_check(0xfffffff2b1b71751u64, 196, 13));
    assert(entry_check(0xfffffff2b1b71751u64, 196, 14));
    assert(entry_check(0xfffffff2b1b71751u64, 196, 15));
    assert(triangle_check(0xfffffff2b1b71751u64, 196, 0));
    assert(triangle_check(0xfffffff2b1b71751u64, 196, 1));
    assert(triangle_check(0xfffffff2b1b71751u64, 196, 2));
    assert(triangle_check(0xfffffff2b1b71751u64, 196, 3));
    assert(triangle_check(0xfffffff2b1b71751u64, 196, 4));
    assert(edge_check(0xfffffff2b1b71751u64, 196, 0));
    assert(edge_check(0xfffffff2b1b71751u64, 196, 1));
    assert(edge_check(0xfffffff2b1b71751u64, 196, 2));
    assert(edge_check(0xfffffff2b1b71751u64, 196, 3));
    assert(edge_check(0xfffffff2b1b71751u64, 196, 4));
    assert(edge_check(0xfffffff2b1b71751u64, 196, 5));
    assert(edge_check(0xfffffff2b1b71751u64, 196, 6));
    assert(edge_check(0xfffffff2b1b71751u64, 196, 7));
    assert(edge_check(0xfffffff2b1b71751u64, 196, 8));
    assert(edge_check(0xfffffff2b1b71751u64, 196, 9));
    assert(edge_check(0xfffffff2b1b71751u64, 196, 10));
    assert(edge_check(0xfffffff2b1b71751u64, 196, 11));
}

#[verifier::spinoff_prover]
proof fn lemma_row_197()
    ensures
        row_checks(TRI_TABLE[197], 197),
{
    reveal(row_entry);
    reveal(faces_inward);
    reveal(dot);
    reveal(triangle_normal);
    reveal(corner_solid);
    reveal(entry_check);
    reveal(triangle_check);
    reveal(edge_check);
    assert(TRI_TABLE[197] == 0xffff2b1b71751830u64);
    assert(entry_check(0xffff2b1b71751830u64, 197, 0));
    assert(entry_check(0xffff2b1b71751830u64, 197, 1));
    assert(entry_check(0xffff2b1b71751830u64, 197, 2));
    assert(entry_check(0xffff2b1b71751830u64, 197, 3));
    assert(entry_check(0xffff2b1b71751830u64, 197, 4));
    assert(entry_check(0xffff2b1b71751830u64, 197, 5));
    assert(entry_check(0xffff2b1b71751830u64, 197, 6));
    assert(entry_check(0xffff2b1b71751830u64, 197, 7));
    assert(entry_check(0xffff2b1b71751830u64, 197, 8));
    assert(entry_check(0xffff2b1b71751830u64, 197, 9));
    assert(entry_check(0xffff2b1b71751830u64, 197, 10));
    assert(entry_check(0xffff2b1b71751830u64, 197, 11));
    assert(entry_check(0xffff2b1b71751830u64, 197, 12));
    assert(entry_check(0xffff2b1b71751830u64, 197, 13));
    assert(entry_check(0xffff2b1b71751830u64, 197, 14));
    assert(entry_check(0xffff2b1b71751830u64, 197, 15));
    assert(triangle_check(0xffff2b1b71751830u64, 197, 0));
    assert(triangle_check(0xffff2b1b71751830u64, 197, 1));
    assert(triangle_check(0xffff2b1b71751830u64, 197, 2));
    assert(triangle_check(0xffff2b1b71751830u64, 197, 3));
    assert(triangle_check(0xffff2b1b71751830u64, 197, 4));
    assert(edge_check(0xffff2b1b71751830u64, 197, 0));
    assert(edge_check(0xffff2b1b71751830u64, 197, 1));
    assert(edge_check(0xffff2b1b71751830u64, 197, 2));
    assert(edge_check(0xffff2b1b71751830u64, 197, 3));
    assert(edge_check(0xffff2b1b71751830u64, 197, 4));
    assert(edge_check(0xffff2b1b71751830u64, 197, 5));
    assert(edge_check(0xffff2b1b71751830u64, 197, 6));
    assert(edge_check(0xffff2b1b71751830u64, 197, 7));
    assert(edge_check(0xffff2b1b71751830u64, 197, 8));
    assert(edge_check(0xffff2b1b71751830u64, 197, 9));
    assert(edge_check(0xffff2b1b71751830u64, 197, 10));
    assert(edge_check(0xffff2b1b71751830u64, 197, 11));
}

#[verifier::spinoff_prover]
proof fn lemma_row_198()
    ensures
        row_checks(TRI_TABLE[198], 198),
{
    reveal(row_entry);
    reveal(faces_inward);
    reveal(dot);
    reveal(triangle_normal);
    reveal(corner_solid);
    reveal(entry_check);
    reveal(triangle_check);
    reveal(edge_check);
    assert(TRI_TABLE[198] == 0xffff9050252b5b75u64);
    assert(entry_check(0xffff9050252b5b75u64, 198, 0));
    assert(entry_check(0xffff9050252b5b75u64, 198, 1));
    assert(entry_check(0xffff9050252b5b75u64, 198, 2));
    assert(entry_check(0xffff9050252b5b75u64, 198, 3));
    assert(entry_check(0xffff9050252b5b75u64, 198, 4));
    assert(entry_check(0xffff9050252b5b75u64, 198, 5));
    assert(entry_check(0xffff9050252b5b75u64, 198, 6));
    assert(entry_check(0xffff9050252b5b75u64, 198, 7));
    assert(entry_check(0xffff9050252b5b75u64, 198, 8));
    assert(entry_check(0xffff9050252b5b75u64, 198, 9));
    assert(entry_check(0xffff9050252b5b75u64, 198, 10));
    assert(entry_check(0xffff9050252b5b75u64, 198, 11));
    assert(entry_check(0xffff9050252b5b75u64, 198, 12));
    assert(entry_check(0xffff9050252b5b75u64, 198, 13));
    assert(entry_check(0xffff9050252b5b75u64, 198, 14));
    assert(entry_check(0xffff9050252b5b75u64, 198, 15));
    assert(triangle_check(0xffff9050252b5b75u64, 198, 0));
    assert(triangle_check(0xffff9050252b5b75u64, 198, 1));
    assert(triangle_check(0xffff9050252b5b75u64, 198, 2));
    assert(triangle_check(0xffff9050252b5b75u64, 198, 3));
    assert(triangle_check(0xffff9050252b5b75u64, 198, 4));
    assert(edge_check(0xffff9050252b5b75u64, 198, 0));
    assert(edge_check(0xffff9050252b5b75u64, 198, 1));
    assert(edge_check(0xffff9050252b5b75u64, 198, 2));
    assert(edge_check(0xffff9050252b5b75u64, 198, 3));
    assert(edge_check(0xffff9050252b5b75u64, 198, 4));
    assert(edge_check(0xffff9050252b5b75u64, 198, 5));
    assert(edge_check(0xffff9050252b5b75u64, 198, 6));
    assert(edge_check(0xffff9050252b5b75u64, 198, 7));
    assert(edge_check(0xffff9050252b5b75u64, 198, 8));
    assert(edge_check(0xffff9050252b5b75u64, 198, 9));
    assert(edge_check(0xffff9050252b5b75u64, 198, 10));
    assert(edge_check(0xffff9050252b5b75u64, 198, 11));
}

#[verifier::spinoff_prover]
proof fn lemma_row_199()
    ensures
        row_checks(TRI_TABLE[199], 199),
{
    reveal(row_entry);
    reveal(faces_inward);
    reveal(dot);
    reveal(triangle_normal);
    reveal(corner_solid);
    reveal(entry_check);
    reveal(triangle_check);
    reveal(edge_check);
    assert(TRI_TABLE[199] == 0xfb72752592982832u64);
    assert(entry_check(0xfb72752592982832u64, 199, 0));
    assert(entry_check(0xfb72752592982832u64, 199, 1));
    assert(entry_check(0xfb72752592982832u64, 199, 2));
    assert(entry_check(0xfb72752592982832u64, 199, 3));
    assert(entry_check(0xfb72752592982832u64, 199, 4));
    assert(entry_check(0xfb72752592982832u64, 199, 5));
    assert(entry_check(0xfb72752592982832u64, 199, 6));
    assert(entry_check(0xfb72752592982832u64, 199, 7));
    assert(entry_check(0xfb72752592982832u64, 199, 8));
    assert(entry_check(0xfb72752592982832u64, 199, 9));
    assert(entry_check(0xfb72752592982832u64, 199, 10));
    assert(entry_check(0xfb72752592982832u64, 199, 11));
    assert(entry_check(0xfb72752592982832u64, 199, 12));
    assert(entry_check(0xfb72752592982832u64, 199, 13));
    assert(entry_check(0xfb72752592982832u64, 199, 14));
    assert(entry_check(0xfb72752592982832u64, 199, 15));
    assert(triangle_check(0xfb72752592982832u64, 199, 0));
    assert(triangle_check(0xfb72752592982832u64, 199, 1));
    assert(triangle_check(0xfb72752592982832u64, 199, 2));
    assert(triangle_check(0xfb72752592982832u64, 199, 3));
    assert(triangle_check(0xfb72752592982832u64, 199, 4));
    assert(edge_check(0xfb72752592982832u64, 199, 0));
    assert(edge_check(0xfb72752592982832u64, 199, 1));
    assert(edge_check(0xfb72752592982832u64, 199, 2));
    assert(edge_check(0xfb72752592982832u64, 199, 3));
    assert(edge_check(0xfb72752592982832u64, 199, 4));
    assert(edge_check(0xfb72752592982832u64, 199, 5));
    assert(edge_check(0xfb72752592982832u64, 199, 6));
    assert(edge_check(0xfb72752592982832u64, 199, 7));
    assert(edge_check(0xfb72752592982832u64, 199, 8));
    assert(edge_check(0xfb72752592982832u64, 199, 9));
    assert(edge_check(0xfb72752592982832u64, 199, 10));
    assert(edge_check(0xfb72752592982832u64, 199, 11));
}

#[verifier::spinoff_prover]
proof fn lemma_row_200()
    ensures
        row_checks(TRI_TABLE[200], 200),
{
    reveal(row_entry);
    reveal(faces_inward);
    reveal(dot);
    reveal(triangle_normal);
    reveal(corner_solid);
    reveal(entry_check);
    reveal(triangle_check);
    reveal(edge_check);
    assert(TRI_TABLE[200] == 0xfffffffa25235375u64);
    assert(entry_check(0xfffffffa25235375u64, 200, 0));
    assert(entry_check(0xfffffffa25235375u64, 200, 1));
    assert(entry_check(0xfffffffa25235375u64, 200, 2));
    assert(entry_check(0xfffffffa25235375u64, 200, 3));
    assert(entry_check(0xfffffffa25235375u64, 200, 4));
    assert(entry_check(0xfffffffa25235375u64, 200, 5));
    assert(entry_check(0xfffffffa25235375u64, 200, 6));
    assert(entry_check(0xfffffffa25235375u64, 200, 7));
    assert(entry_check(0xfffffffa25235375u64, 200, 8));
    assert(entry_check(0xfffffffa25235375u64, 200, 9));
    assert(entry_check(0xfffffffa25235375u64, 200, 10));
    assert(entry_check(0xfffffffa25235375u64, 200, 11));
    assert(entry_check(0xfffffffa25235375u64, 200, 12));
    assert(entry_check(0xfffffffa25235375u64, 200, 13));
    assert(entry_check(0xfffffffa25235375u64, 200, 14));
    assert(entry_check(0xfffffffa25235375u64, 200, 15));
    assert(triangle_check(0xfffffffa25235375u64, 200, 0));
    assert(triangle_check(0xfffffffa25235375u64, 200, 1));
    assert(triangle_check(0xfffffffa25235375u64, 200, 2));
    assert(triangle_check(0xfffffffa25235375u64, 200, 3));
    assert(triangle_check(0xfffffffa25235375u64, 200, 4));
    assert(edge_check(0xfffffffa25235375u64, 200, 0));
    assert(edge_check(0xfffffffa25235375u64, 200, 1));
    assert(edge_check(0xfffffffa25235375u64, 200, 2));
    assert(edge_check(0xfffffffa25235375u64, 200, 3));
    assert(edge_check(0xfffffffa25235375u64, 200, 4));
    assert(edge_check(0xfffffffa25235375u64, 200, 5));
    assert(edge_check(0xfffffffa25235375u64, 200, 6));
    assert(edge_check(0xfffffffa25235375u64, 200, 7));
    assert(edge_check(0xfffffffa25235375u64, 200, 8));
    assert(edge_check(0xfffffffa25235375u64, 200, 9));
    assert(edge_check(0xfffffffa25235375u64, 200, 10));
    assert(edge_check(0xfffffffa25235375u64, 200, 11));
}

#[verifier::spinoff_prover]
proof fn lemma_row_201()
    ensures
        row_checks(TRI_TABLE[201], 201),
{
    reveal(row_entry);
    reveal(faces_inward);
    reveal(dot);
    reveal(triangle_normal);
    reveal(corner_solid);
    reveal(entry_check);
    reveal(triangle_check);
    reveal(edge_check);
    assert(TRI_TABLE[201] == 0xffff8707505a0a20u64);
    assert(entry_check(0xffff8707505a0a20u64, 201, 0));
    assert(entry_check(0xffff8707505a0a20u64, 201, 1));
    assert(entry_check(0xffff8707505a0a20u64, 201, 2));
    assert(entry_check(0xffff8707505a0a20u64, 201, 3));
    assert(entry_check(0xffff8707505a0a20u64, 201, 4));
    assert(entry_check(0xffff8707505a0a20u64, 201, 5));
    assert(entry_check(0xffff8707505a0a20u64, 201, 6));
    assert(entry_check(0xffff8707505a0a20u64, 201, 7));
    assert(entry_check(0xffff8707505a0a20u64, 201, 8));
    assert(entry_check(0xffff8707505a0a20u64, 201, 9));
    assert(entry_check(0xffff8707505a0a20u64, 201, 10));
    assert(entry_check(0xffff8707505a0a20u64, 201, 11));
    assert(entry_check(0xffff8707505a0a20u64, 201, 12));
    assert(entry_check(0xffff8707505a0a20u64, 201, 13));
    assert(entry_check(0xffff8707505a0a20u64, 201, 14));
    assert(entry_check(0xffff8707505a0a20u64, 201, 15));
    assert(triangle_check(0xffff8707505a0a20u64, 201, 0));
    assert(triangle_check(0xffff8707505a0a20u64, 201, 1));
    assert(triangle_check(0xffff8707505a0a20u64, 201, 2));
    assert(triangle_check(0xffff8707505a0a20u64, 201, 3));
    assert(triangle_check(0xffff8707505a0a20u64, 201, 4));
    assert(edge_check(0xffff8707505a0a20u64, 201, 0));
    assert(edge_check(0xffff8707505a0a20u64, 201, 1));
    assert(edge_check(0xffff8707505a0a20u64, 201, 2));
    assert(edge_check(0xffff8707505a0a20u64, 201, 3));
    assert(edge_check(0xffff8707505a0a20u64, 201, 4));
    assert(edge_check(0xffff8707505a0a20u64, 201, 5));
    assert(edge_check(0xffff8707505a0a20u64, 201, 6));
    assert(edge_check(0xffff8707505a0a20u64, 201, 7));
    assert(edge_check(0xffff8707505a0a20u64, 201, 8));
    assert(edge_check(0xffff8707505a0a20u64, 201, 9));
    assert(edge_check(0xffff8707505a0a20u64, 201, 10));
    assert(edge_check(0xffff8707505a0a20u64, 201, 11));
}

#[verifier::spinoff_prover]
proof fn lemma_row_202()
    ensures
        row_checks(TRI_TABLE[202], 202),
{
    reveal(row_entry);
    reveal(faces_inward);
    reveal(dot);
    reveal(triangle_normal);
    reveal(corner_solid);
    reveal(entry_check);
    reveal(triangle_check);
    reveal(edge_check);
    assert(TRI_TABLE[202] == 0xffffa25235375019u64);
    assert(entry_check(0xffffa25235375019u64, 202, 0));
    assert(entry_check(0xffffa25235375019u64, 202, 1));
    assert(entry_check(0xffffa25235375019u64, 202, 2));
    assert(entry_check(0xffffa25235375019u64, 202, 3));
    assert(entry_check(0xffffa25235375019u64, 202, 4));
    assert(entry_check(0xffffa25235375019u64, 202, 5));
    assert(entry_check(0xffffa25235375019u64, 202, 6));
    assert(entry_check(0xffffa25235375019u64, 202, 7));
    assert(entry_check(0xffffa25235375019u64, 202, 8));
    assert(entry_check(0xffffa25235375019u64, 202, 9));
    assert(entry_check(0xffffa25235375019u64, 202, 10));
    assert(entry_check(0xffffa25235375019u64, 202, 11));
    assert(entry_check(0xffffa25235375019u64, 202, 12));
    assert(entry_check(0xffffa25235375019u64, 202, 13));
    assert(entry_check(0xffffa25235375019u64, 202, 14));
    assert(entry_check(0xffffa25235375019u64, 202, 15));
    assert(triangle_check(0xffffa25235375019u64, 202, 0));
    assert(triangle_check(0xffffa25235375019u64, 202, 1));
    assert(triangle_check(0xffffa25235375019u64, 202, 2));
    assert(triangle_check(0xffffa25235375019u64, 202, 3));
    assert(triangle_check(0xffffa25235375019u64, 202, 4));
    assert(edge_check(0xffffa25235375019u64, 202, 0));
    assert(edge_check(0xffffa25235375019u64, 202, 1));
    assert(edge_check(0xffffa25235375019u64, 202, 2));
    assert(edge_check(0xffffa25235375019u64, 202, 3));
    assert(edge_check(0xffffa25235375019u64, 202, 4));
    assert(edge_check(0xffffa25235375019u64, 202, 5));
    assert(edge_check(0xffffa25235375019u64, 202, 6));
    assert(edge_check(0xffffa25235375019u64, 202, 7));
    assert(edge_check(0xffffa25235375019u64, 202, 8));
    assert(edge_check(0xffffa25235375019u64, 202, 9));
    assert(edge_check(0xffffa25235375019u64, 202, 10));
    assert(edge_check(0xffffa25235375019u64, 202, 11));
}

#[verifier::spinoff_prover]
proof fn lemma_row_203()
    ensures
        row_checks(TRI_TABLE[203], 203),
{
    reveal(row_entry);
    reveal(faces_inward);
    reveal(dot);
    reveal(triangle_normal);
    reveal(corner_solid);
    reveal(entry_check);
    reveal(triangle_check);
    reveal(edge_check);
    assert(TRI_TABLE[203] == 0xf1929828727525a2u64);
    assert(entry_check(0xf1929828727525a2u64, 203, 0));
    assert(entry_check(0xf1929828727525a2u64, 203, 1));
    assert(entry_check(0xf1929828727525a2u64, 203, 2));
    assert(entry_check(0xf1929828727525a2u64, 203, 3));
    assert(entry_check(0xf1929828727525a2u64, 203, 4));
    assert(entry_check(0xf1929828727525a2u64, 203, 5));
    assert(entry_check(0xf1929828727525a2u64, 203, 6));
    assert(entry_check(0xf1929828727525a2u64, 203, 7));
    assert(entry_check(0xf1929828727525a2u64, 203, 8));
    assert(entry_check(0xf1929828727525a2u64, 203, 9));
    assert(entry_check(0xf1929828727525a2u64, 203, 10));
    assert(entry_check(0xf1929828727525a2u64, 203, 11));
    assert(entry_check(0xf1929828727525a2u64, 203, 12));
    assert(entry_check(0xf1929828727525a2u64, 203, 13));
    assert(entry_check(0xf1929828727525a2u64, 203, 14));
    assert(entry_check(0xf1929828727525a2u64, 203, 15));
    assert(triangle_check(0xf1929828727525a2u64, 203, 0));
    assert(triangle_check(0xf1929828727525a2u64, 203, 1));
    assert(triangle_check(0xf1929828727525a2u64, 203, 2));
    assert(triangle_check(0xf1929828727525a2u64, 203, 3));
    assert(triangle_check(0xf1929828727525a2u64, 203, 4));
    assert(edge_check(0xf1929828727525a2u64, 203, 0));
    assert(edge_check(0xf1929828727525a2u64, 203, 1));
    assert(edge_check(0xf1929828727525a2u64, 203, 2));
    assert(edge_check(0xf1929828727525a2u64, 203, 3));
    assert(edge_check(0xf1929828727525a2u64, 203, 4));
    assert(edge_check(0xf1929828727525a2u64, 203, 5));
    assert(edge_check(0xf1929828727525a2u64, 203, 6));
    assert(edge_check(0xf1929828727525a2u64, 203, 7));
    assert(edge_check(0xf1929828727525a2u64, 203, 8));
    assert(edge_check(0xf1929828727525a2u64, 203, 9));
    assert(edge_check(0xf1929828727525a2u64, 203, 10));
    assert(edge_check(0xf1929828727525a2u64, 203, 11));
}

#[verifier::spinoff_prover]
proof fn lemma_row_204()
    ensures
        row_checks(TRI_TABLE[204], 204),
{
    reveal(row_entry);
    reveal(faces_inward);
    reveal(dot);
    reveal(triangle_normal);
    reveal(corner_solid);
    reveal(entry_check);
    reveal(triangle_check);
    reveal(edge_check);
    assert(TRI_TABLE[204] == 0xffffffffff371751u64);
    assert(entry_check(0xffffffffff371751u64, 204, 0));
    assert(entry_check(0xffffffffff371751u64, 204, 1));
    assert(entry_check(0xffffffffff371751u64, 204, 2));
    assert(entry_check(0xffffffffff371751u64, 204, 3));
    assert(entry_check(0xffffffffff371751u64, 204, 4));
    assert(entry_check(0xffffffffff371751u64, 204, 5));
    assert(entry_check(0xffffffffff371751u64, 204, 6));
    assert(entry_check(0xffffffffff371751u64, 204, 7));
    assert(entry_check(0xffffffffff371751u64, 204, 8));
    assert(entry_check(0xffffffffff371751u64, 204, 9));
    assert(entry_check(0xffffffffff371751u64, 204, 10));
    assert(entry_check(0xffffffffff371751u64, 204, 11));
    assert(entry_check(0xffffffffff371751u64, 204, 12));
    assert(entry_check(0xffffffffff371751u64, 204, 13));
    assert(entry_check(0xffffffffff371751u64, 204, 14));
    assert(entry_check(0xffffffffff371751u64, 204, 15));
    assert(triangle_check(0xffffffffff371751u64, 204, 0));
    assert(triangle_check(0xffffffffff371751u64, 204, 1));
    assert(triangle_check(0xffffffffff371751u64, 204, 2));
    assert(triangle_check(0xffffffffff371751u64, 204, 3));
    assert(triangle_check(0xffffffffff371751u64, 204, 4));
    assert(edge_check(0xffffffffff371751u64, 204, 0));
    assert(edge_check(0xffffffffff371751u64, 204, 1));
    assert(edge_check(0xffffffffff371751u64, 204, 2));
    assert(edge_check(0xffffffffff371751u64, 204, 3));
    assert(edge_check(0xffffffffff371751u64, 204, 4));
    assert(edge_check(0xffffffffff371751u64, 204, 5));
    assert(edge_check(0xffffffffff371751u64, 204, 6));
    assert(edge_check(0xffffffffff371751u64, 204, 7));
    assert(edge_check(0xffffffffff371751u64, 204, 8));
    assert(edge_check(0xffffffffff371751u64, 204, 9));
    assert(edge_check(0xffffffffff371751u64, 204, 10));
    assert(edge_check(0xffffffffff371751u64, 204, 11));
}

#[verifier::spinoff_prover]
proof fn lemma_row_205()
    ensures
        row_checks(TRI_TABLE[205], 205),
{
    reveal(row_entry);
    reveal(faces_inward);
    reveal(dot);
    reveal(triangle_normal);
    reveal(corner_solid);
    reveal(entry_check);
    reveal(triangle_check);
    reveal(edge_check);
    assert(TRI_TABLE[205] == 0xfffffff081871751u64);
    assert(entry_check(0xfffffff081871751u64, 205, 0));
    assert(entry_check(0xfffffff081871751u64, 205, 1));
    assert(entry_check(0xfffffff081871751u64, 205, 2));
    assert(entry_check(0xfffffff081871751u64, 205, 3));
    assert(entry_check(0xfffffff081871751u64, 205, 4));
    assert(entry_check(0xfffffff081871751u64, 205, 5));
    assert(entry_check(0xfffffff081871751u64, 205, 6));
    assert(entry_check(0xfffffff081871751u64, 205, 7));
    assert(entry_check(0xfffffff081871751u64, 205, 8));
    assert(entry_check(0xfffffff081871751u64, 205, 9));
    assert(entry_check(0xfffffff081871751u64, 205, 10));
    assert(entry_check(0xfffffff081871751u64, 205, 11));
    assert(entry_check(0xfffffff081871751u64, 205, 12));
    assert(entry_check(0xfffffff081871751u64, 205, 13));
    assert(entry_check(0xfffffff081871751u64, 205, 14));
    assert(entry_check(0xfffffff081871751u64, 205, 15));
    assert(triangle_check(0xfffffff081871751u64, 205, 0));
    assert(triangle_check(0xfffffff081871751u64, 205, 1));
    assert(triangle_check(0xfffffff081871751u64, 205, 2));
    assert(triangle_check(0xfffffff081871751u64, 205, 3));
    assert(triangle_check(0xfffffff081871751u64, 205, 4));
    assert(edge_check(0xfffffff081871751u64, 205, 0));
    assert(edge_check(0xfffffff081871751u64, 205, 1));
    assert(edge_check(0xfffffff081871751u64, 205, 2));
    assert(edge_check(0xfffffff081871751u64, 205, 3));
    assert(edge_check(0xfffffff081871751u64, 205, 4));
    assert(edge_check(0xfffffff081871751u64, 205, 5));
    assert(edge_check(0xfffffff081871751u64, 205, 6));
    assert(edge_check(0xfffffff081871751u64, 205, 7));
    assert(edge_check(0xfffffff081871751u64, 205, 8));
    assert(edge_check(0xfffffff081871751u64, 205, 9));
    assert(edge_check(0xfffffff081871751u64, 205, 10));
    assert(edge_check(0xfffffff081871751u64, 205, 11));
}

#[verifier::spinoff_prover]
proof fn lemma_row_206()
    ensures
        row_checks(TRI_TABLE[206], 206),
{
    reveal(row_entry);
    reveal(faces_inward);
    reveal(dot);
    reveal(triangle_normal);
    reveal(corner_solid);
    reveal(entry_check);
    reveal(triangle_check);
    reveal(edge_check);
    assert(TRI_TABLE[206] == 0xfffffff905035375u64);
    assert(entry_check(0xfffffff905035375u64, 206, 0));
    assert(entry_check(0xfffffff905035375u64, 206, 1));
    assert(entry_check(0xfffffff905035375u64, 206, 2));
    assert(entry_check(0xfffffff905035375u64, 206, 3));
    assert(entry_check(0xfffffff905035375u64, 206, 4));
    assert(entry_check(0xfffffff905035375u64, 206, 5));
    assert(entry_check(0xfffffff905035375u64, 206, 6));
    assert(entry_check(0xfffffff905035375u64, 206, 7));
    assert(entry_check(0xfffffff905035375u64, 206, 8));
    assert(entry_check(0xfffffff905035375u64, 206, 9));
    assert(entry_check(0xfffffff905035375u64, 206, 10));
    assert(entry_check(0xfffffff905035375u64, 206, 11));
    assert(entry_check(0xfffffff905035375u64, 206, 12));
    assert(entry_check(0xfffffff905035375u64, 206, 13));
    assert(entry_check(0xfffffff905035375u64, 206, 14));
    assert(entry_check(0xfffffff905035375u64, 206, 15));
    assert(triangle_check(0xfffffff905035375u64, 206, 0));
    assert(triangle_check(0xfffffff905035375u64, 206, 1));
    assert(triangle_check(0xfffffff905035375u64, 206, 2));
    assert(triangle_check(0xfffffff905035375u64, 206, 3));
    assert(triangle_check(0xfffffff905035375u64, 206, 4));
    assert(edge_check(0xfffffff905035375u64, 206, 0));
    assert(edge_check(0xfffffff905035375u64, 206, 1));
    assert(edge_check(0xfffffff905035375u64, 206, 2));
    assert(edge_check(0xfffffff905035375u64, 206, 3));
    assert(edge_check(0xfffffff905035375u64, 206, 4));
    assert(edge_check(0xfffffff905035375u64, 206, 5));
    assert(edge_check(0xfffffff905035375u64, 206, 6));
    assert(edge_check(0xfffffff905035375u64, 206, 7));
    assert(edge_check(0xfffffff905035375u64, 206, 8));
    assert(edge_check(0xfffffff905035375u64, 206, 9));
    assert(edge_check(0xfffffff905035375u64, 206, 10));
    assert(edge_check(0xfffffff905035375u64, 206, 11));
}

#[verifier::spinoff_prover]
proof fn lemma_row_207()
    ensures
        row_checks(TRI_TABLE[207], 207),
{
    reveal(row_entry);
    reveal(faces_inward);
    reveal(dot);
    reveal(triangle_normal);
    reveal(corner_solid);
    reveal(entry_check);
    reveal(triangle_check);
    reveal(edge_check);
    assert(TRI_TABLE[207] == 0xffffffffff597987u64);
    assert(entry_check(0xffffffffff597987u64, 207, 0));
    assert(entry_check(0xffffffffff597987u64, 207, 1));
    assert(entry_check(0xffffffffff597987u64, 207, 2));
    assert(entry_check(0xffffffffff597987u64, 207, 3));
    assert(entry_check(0xffffffffff597987u64, 207, 4));
    assert(entry_check(0xffffffffff597987u64, 207, 5));
    assert(entry_check(0xffffffffff597987u64, 207, 6));
    assert(entry_check(0xffffffffff597987u64, 207, 7));
    assert(entry_check(0xffffffffff597987u64, 207, 8));
    assert(entry_check(0xffffffffff597987u64, 207, 9));
    assert(entry_check(0xffffffffff597987u64, 207, 10));
    assert(entry_check(0xffffffffff597987u64, 207, 11));
    assert(entry_check(0xffffffffff597987u64, 207, 12));
    assert(entry_check(0xffffffffff597987u64, 207, 13));
    assert(entry_check(0xffffffffff597987u64, 207, 14));
    assert(entry_check(0xffffffffff597987u64, 207, 15));
    assert(triangle_check(0xffffffffff597987u64, 207, 0));
    assert(triangle_check(0xffffffffff597987u64, 207, 1));
    assert(triangle_check(0xffffffffff597987u64, 207, 2));
    assert(triangle_check(0xffffffffff597987u64, 207, 3));
    assert(triangle_check(0xffffffffff597987u64, 207, 4));
    assert(edge_check(0xffffffffff597987u64, 207, 0));
    assert(edge_check(0xffffffffff597987u64, 207, 1));
    assert(edge_check(0xffffffffff597987u64, 207, 2));
    assert(edge_check(0xffffffffff597987u64, 207, 3));
    assert(edge_check(0xffffffffff597987u64, 207, 4));
    assert(edge_check(0xffffffffff597987u64, 207, 5));
    assert(edge_check(0xffffffffff597987u64, 207, 6));
    assert(edge_check(0xffffffffff597987u64, 207, 7));
    assert(edge_check(0xffffffffff597987u64, 207, 8));
    assert(edge_check(0xffffffffff597987u64, 207, 9));
    assert(edge_check(0xffffffffff597987u64, 207, 10));
    assert(edge_check(0xffffffffff597987u64, 207, 11));
}

#[verifier::spinoff_prover]
proof fn lemma_row_208()
    ensures
        row_checks(TRI_TABLE[208], 208),
{
    reveal(row_entry);
    reveal(faces_inward);
    reveal(dot);
    reveal(triangle_normal);
    reveal(corner_solid);
    reveal(entry_check);
    reveal(triangle_check);
    reveal(edge_check);
    assert(TRI_TABLE[208] == 0xfffffff4585a8ab8u64);
    assert(entry_check(0xfffffff4585a8ab8u64, 208, 0));
    assert(entry_check(0xfffffff4585a8ab8u64, 208, 1));
    assert(entry_check(0xfffffff4585a8ab8u64, 208, 2));
    assert(entry_check(0xfffffff4585a8ab8u64, 208, 3));
    assert(entry_check(0xfffffff4585a8ab8u64, 208, 4));
    assert(entry_check(0xfffffff4585a8ab8u64, 208, 5));
    assert(entry_check(0xfffffff4585a8ab8u64, 208, 6));
    assert(entry_check(0xfffffff4585a8ab8u64, 208, 7));
    assert(entry_check(0xfffffff4585a8ab8u64, 208, 8));
    assert(entry_check(0xfffffff4585a8ab8u64, 208, 9));
    assert(entry_check(0xfffffff4585a8ab8u64, 208, 10));
    assert(entry_check(0xfffffff4585a8ab8u64, 208, 11));
    assert(entry_check(0xfffffff4585a8ab8u64, 208, 12));
    assert(entry_check(0xfffffff4585a8ab8u64, 208, 13));
    assert(entry_check(0xfffffff4585a8ab8u64, 208, 14));
    assert(entry_check(0xfffffff4585a8ab8u64, 208, 15));
    assert(triangle_check(0xfffffff4585a8ab8u64, 208, 0));
    assert(triangle_check(0xfffffff4585a8ab8u64, 208, 1));
    assert(triangle_check(0xfffffff4585a8ab8u64, 208, 2));
    assert(triangle_check(0xfffffff4585a8ab8u64, 208, 3));
    assert(triangle_check(0xfffffff4585a8ab8u64, 208, 4));
    assert(edge_check(0xfffffff4585a8ab8u64, 208, 0));
    assert(edge_check(0xfffffff4585a8ab8u64, 208, 1));
    assert(edge_check(0xfffffff4585a8ab8u64, 208, 2));
    assert(edge_check(0xfffffff4585a8ab8u64, 208, 3));
    assert(edge_check(0xfffffff4585a8ab8u64, 208, 4));
    assert(edge_check(0xfffffff4585a8ab8u64, 208, 5));
    assert(edge_check(0xfffffff4585a8ab8u64, 208, 6));
    assert(edge_check(0xfffffff4585a8ab8u64, 208, 7));
    assert(edge_check(0xfffffff4585a8ab8u64, 208, 8));
    assert(edge_check(0xfffffff4585a8ab8u64, 208, 9));
    assert(edge_check(0xfffffff4585a8ab8u64, 208, 10));
    assert(edge_check(0xfffffff4585a8ab8u64, 208, 11));
}

#[verifier::spinoff_prover]
proof fn lemma_row_209()
    ensures
        row_checks(TRI_TABLE[209], 209),
{
    reveal(row_entry);
    reveal(faces_inward);
    reveal(dot);
    reveal(triangle_normal);
    reveal(corner_solid);
    reveal(entry_check);
    reveal(triangle_check);
    reveal(edge_check);
    assert(TRI_TABLE[209] == 0xffff4505a0ab0b30u64);
    assert(entry_check(0xffff4505a0ab0b30u64, 209, 0));
    assert(entry_check(0xffff4505a0ab0b30u64, 209, 1));
    assert(entry_check(0xffff4505a0ab0b30u64, 209, 2));
    assert(entry_check(0xffff4505a0ab0b30u64, 209, 3));
    assert(entry_check(0xffff4505a0ab0b30u64, 209, 4));
    assert(entry_check(0xffff4505a0ab0b30u64, 209, 5));
    assert(entry_check(0xffff4505a0ab0b30u64, 209, 6));
    assert(entry_check(0xffff4505a0ab0b30u64, 209, 7));
    assert(entry_check(0xffff4505a0ab0b30u64, 209, 8));
    assert(entry_check(0xffff4505a0ab0b30u64, 209, 9));
    assert(entry_check(0xffff4505a0ab0b30u64, 209, 10));
    assert(entry_check(0xffff4505a0ab0b30u64, 209, 11));
    assert(entry_check(0xffff4505a0ab0b30u64, 209, 12));
    assert(entry_check(0xffff4505a0ab0b30u64, 209, 13));
    assert(entry_check(0xffff4505a0ab0b30u64, 209, 14));
    assert(entry_check(0xffff4505a0ab0b30u64, 209, 15));
    assert(triangle_check(0xffff4505a0ab0b30u64, 209, 0));
    assert(triangle_check(0xffff4505a0ab0b30u64, 209, 1));
    assert(triangle_check(0xffff4505a0ab0b30u64, 209, 2));
    assert(triangle_check(0xffff4505a0ab0b30u64, 209, 3));
    assert(triangle_check(0xffff4505a0ab0b30u64, 209, 4));
    assert(edge_check(0xffff4505a0ab0b30u64, 209, 0));
    assert(edge_check(0xffff4505a0ab0b30u64, 209, 1));
    assert(edge_check(0xffff4505a0ab0b30u64, 209, 2));
    assert(edge_check(0xffff4505a0ab0b30u64, 209, 3));
    assert(edge_check(0xffff4505a0ab0b30u64, 209, 4));
    assert(edge_check(0xffff4505a0ab0b30u64, 209, 5));
    assert(edge_check(0xffff4505a0ab0b30u64, 209, 6));
    assert(edge_check(0xffff4505a0ab0b30u64, 209, 7));
    assert(edge_check(0xffff4505a0ab0b30u64, 209, 8));
    assert(edge_check(0xffff4505a0ab0b30u64, 209, 9));
    assert(edge_check(0xffff4505a0ab0b30u64, 209, 10));
    assert(edge_check(0xffff4505a0ab0b30u64, 209, 11));
}

#[verifier::spinoff_prover]
proof fn lemma_row_210()
    ensures
        row_checks(TRI_TABLE[210], 210),
{
    reveal(row_entry);
    reveal(faces_inward);
    reveal(dot);
    reveal(triangle_normal);
    reveal(corner_solid);
    reveal(entry_check);
    reveal(triangle_check);
    reveal(edge_check);
    assert(TRI_TABLE[210] == 0xffff4585a8ab8019u64);
    assert(entry_check(0xffff4585a8ab8019u64, 210, 0));
    assert(entry_check(0xffff4585a8ab8019u64, 210, 1));
    assert(entry_check(0xffff4585a8ab8019u64, 210, 2));
    assert(entry_check(0xffff4585a8ab8019u64, 210, 3));
    assert(entry_check(0xffff4585a8ab8019u64, 210, 4));
    assert(entry_check(0xffff4585a8ab8019u64, 210, 5));
    assert(entry_check(0xffff4585a8ab8019u64, 210, 6));
    assert(entry_check(0xffff4585a8ab8019u64, 210, 7));
    assert(entry_check(0xffff4585a8ab8019u64, 210, 8));
    assert(entry_check(0xffff4585a8ab8019u64, 210, 9));
    assert(entry_check(0xffff4585a8ab8019u64, 210, 10));
    assert(entry_check(0xffff4585a8ab8019u64, 210, 11));
    assert(entry_check(0xffff4585a8ab8019u64, 210, 12));
    assert(entry_check(0xffff4585a8ab8019u64, 210, 13));
    assert(entry_check(0xffff4585a8ab8019u64, 210, 14));
    assert(entry_check(0xffff4585a8ab8019u64, 210, 15));
    assert(triangle_check(0xffff4585a8ab8019u64, 210, 0));
    assert(triangle_check(0xffff4585a8ab8019u64, 210, 1));
    assert(triangle_check(0xffff4585a8ab8019u64, 210, 2));
    assert(triangle_check(0xffff4585a8ab8019u64, 210, 3));
    assert(triangle_check(0xffff4585a8ab8019u64, 210, 4));
    assert(edge_check(0xffff4585a8ab8019u64, 210, 0));
    assert(edge_check(0xffff4585a8ab8019u64, 210, 1));
    assert(edge_check(0xffff4585a8ab8019u64, 210, 2));
    assert(edge_check(0xffff4585a8ab8019u64, 210, 3));
    assert(edge_check(0xffff4585a8ab8019u64, 210, 4));
    assert(edge_check(0xffff4585a8ab8019u64, 210, 5));
    assert(edge_check(0xffff4585a8ab8019u64, 210, 6));
    assert(edge_check(0xffff4585a8ab8019u64, 210, 7));
    assert(edge_check(0xffff4585a8ab8019u64, 210, 8));
    assert(edge_check(0xffff4585a8ab8019u64, 210, 9));
    assert(edge_check(0xffff4585a8ab8019u64, 210, 10));
    assert(edge_check(0xffff4585a8ab8019u64, 210, 11));
}

#[verifier::spinoff_prover]
proof fn lemma_row_211()
    ensures
        row_checks(TRI_TABLE[211], 211),
{
    reveal(row_entry);
    reveal(faces_inward);
    reveal(dot);
    reveal(triangle_normal);
    reveal(corner_solid);
    reveal(entry_check);
    reveal(triangle_check);
    reveal(edge_check);
    assert(TRI_TABLE[211] == 0xf5a4ab4b34314194u64);
    assert(entry_check(0xf5a4ab4b34314194u64, 211, 0));
    assert(entry_check(0xf5a4ab4b34314194u64, 211, 1));
    assert(entry_check(0xf5a4ab4b34314194u64, 211, 2));
    assert(entry_check(0xf5a4ab4b34314194u64, 211, 3));
    assert(entry_check(0xf5a4ab4b34314194u64, 211, 4));
    assert(entry_check(0xf5a4ab4b34314194u64, 211, 5));
    assert(entry_check(0xf5a4ab4b34314194u64, 211, 6));
    assert(entry_check(0xf5a4ab4b34314194u64, 211, 7));
    assert(entry_check(0xf5a4ab4b34314194u64, 211, 8));
    assert(entry_check(0xf5a4ab4b34314194u64, 211, 9));
    assert(entry_check(0xf5a4ab4b34314194u64, 211, 10));
    assert(entry_check(0xf5a4ab4b34314194u64, 211, 11));
    assert(entry_check(0xf5a4ab4b34314194u64, 211, 12));
    assert(entry_check(0xf5a4ab4b34314194u64, 211, 13));
    assert(entry_check(0xf5a4ab4b34314194u64, 211, 14));
    assert(entry_check(0xf5a4ab4b34314194u64, 211, 15));
    assert(triangle_check(0xf5a4ab4b34314194u64, 211, 0));
    assert(triangle_check(0xf5a4ab4b34314194u64, 211, 1));
    assert(triangle_check(0xf5a4ab4b34314194u64, 211, 2));
    assert(triangle_check(0xf5a4ab4b34314194u64, 211, 3));
    assert(triangle_check(0xf5a4ab4b34314194u64, 211, 4));
    assert(edge_check(0xf5a4ab4b34314194u64, 211, 0));
    assert(edge_check(0xf5a4ab4b34314194u64, 211, 1));
    assert(edge_check(0xf5a4ab4b34314194u64, 211, 2));
    assert(edge_check(0xf5a4ab4b34314194u64, 211, 3));
    assert(edge_check(0xf5a4ab4b34314194u64, 211, 4));
    assert(edge_check(0xf5a4ab4b34314194u64, 211, 5));
    assert(edge_check(0xf5a4ab4b34314194u64, 211, 6));
    assert(edge_check(0xf5a4ab4b34314194u64, 211, 7));
    assert(edge_check(0xf5a4ab4b34314194u64, 211, 8));
    assert(edge_check(0xf5a4ab4b34314194u64, 211, 9));
    assert(edge_check(0xf5a4ab4b34314194u64, 211, 10));
    assert(edge_check(0xf5a4ab4b34314194u64, 211, 11));
}

#[verifier::spinoff_prover]
proof fn lemma_row_212()
    ensures
        row_checks(TRI_TABLE[212], 212),
{
    reveal(row_entry);
    reveal(faces_inward);
    reveal(dot);
    reveal(triangle_normal);
    reveal(corner_solid);
    reveal(entry_check);
    reveal(triangle_check);
    reveal(edge_check);
    assert(TRI_TABLE[212] == 0xffff2b1b81841451u64);
    assert(entry_check(0xffff2b1b81841451u64, 212, 0));
    assert(entry_check(0xffff2b1b81841451u64, 212, 1));
    assert(entry_check(0xffff2b1b81841451u64, 212, 2));
    assert(entry_check(0xffff2b1b81841451u64, 212, 3));
    assert(entry_check(0xffff2b1b81841451u64, 212, 4));
    assert(entry_check(0xffff2b1b81841451u64, 212, 5));
    assert(entry_check(0xffff2b1b81841451u64, 212, 6));
    assert(entry_check(0xffff2b1b81841451u64, 212, 7));
    assert(entry_check(0xffff2b1b81841451u64, 212, 8));
    assert(entry_check(0xffff2b1b81841451u64, 212, 9));
    assert(entry_check(0xffff2b1b81841451u64, 212, 10));
    assert(entry_check(0xffff2b1b81841451u64, 212, 11));
    assert(entry_check(0xffff2b1b81841451u64, 212, 12));
    assert(entry_check(0xffff2b1b81841451u64, 212, 13));
    assert(entry_check(0xffff2b1b81841451u64, 212, 14));
    assert(entry_check(0xffff2b1b81841451u64, 212, 15));
    assert(triangle_check(0xffff2b1b81841451u64, 212, 0));
    assert(triangle_check(0xffff2b1b81841451u64, 212, 1));
    assert(triangle_check(0xffff2b1b81841451u64, 212, 2));
    assert(triangle_check(0xffff2b1b81841451u64, 212, 3));
    assert(triangle_check(0xffff2b1b81841451u64, 212, 4));
    assert(edge_check(0xffff2b1b81841451u64, 212, 0));
    assert(edge_check(0xffff2b1b81841451u64, 212, 1));
    assert(edge_check(0xffff2b1b81841451u64, 212, 2));
    assert(edge_check(0xffff2b1b81841451u64, 212, 3));
    assert(edge_check(0xffff2b1b81841451u64, 212, 4));
    assert(edge_check(0xffff2b1b81841451u64, 212, 5));
    assert(edge_check(0xffff2b1b81841451u64, 212, 6));
    assert(edge_check(0xffff2b1b81841451u64, 212, 7));
    assert(edge_check(0xffff2b1b81841451u64, 212, 8));
    assert(edge_check(0xffff2b1b81841451u64, 212, 9));
    assert(edge_check(0xffff2b1b81841451u64, 212, 10));
    assert(edge_check(0xffff2b1b81841451u64, 212, 11));
}

#[verifier::spinoff_prover]
proof fn lemma_row_213()
    ensures
        row_checks(TRI_TABLE[213], 213),
{
    reveal(row_entry);
    reveal(faces_inward);
    reveal(dot);
    reveal(triangle_normal);
    reveal(corner_solid);
    reveal(entry_check);
    reveal(triangle_check);
    reveal(edge_check);
    assert(TRI_TABLE[213] == 0xf30b04b45b51b12bu64);
    assert(entry_check(0xf30b04b45b51b12bu64, 213, 0));
    assert(entry_check(0xf30b04b45b51b12bu64, 213, 1));
    assert(entry_check(0xf30b04b45b51b12bu64, 213, 2));
    assert(entry_check(0xf30b04b45b51b12bu64, 213, 3));
    assert(entry_check(0xf30b04b45b51b12bu64, 213, 4));
    assert(entry_check(0xf30b04b45b51b12bu64, 213, 5));
    assert(entry_check(0xf30b04b45b51b12bu64, 213, 6));
    assert(entry_check(0xf30b04b45b51b12bu64, 213, 7));
    assert(entry_check(0xf30b04b45b51b12bu64, 213, 8));
    assert(entry_check(0xf30b04b45b51b12bu64, 213, 9));
    assert(entry_check(0xf30b04b45b51b12bu64, 213, 10));
    assert(entry_check(0xf30b04b45b51b12bu64, 213, 11));
    assert(entry_check(0xf30b04b45b51b12bu64, 213, 12));
    assert(entry_check(0xf30b04b45b51b12bu64, 213, 13));
    assert(entry_check(0xf30b04b45b51b12bu64, 213, 14));
    assert(entry_check(0xf30b04b45b51b12bu64, 213, 15));
    assert(triangle_check(0xf30b04b45b51b12bu64, 213, 0));
    assert(triangle_check(0xf30b04b45b51b12bu64, 213, 1));
    assert(triangle_check(0xf30b04b45b51b12bu64, 213, 2));
    assert(triangle_check(0xf30b04b45b51b12bu64, 213, 3));
    assert(triangle_check(0xf30b04b45b51b12bu64, 213, 4));
    assert(edge_check(0xf30b04b45b51b12bu64, 213, 0));
    assert(edge_check(0xf30b04b45b51b12bu64, 213, 1));
    assert(edge_check(0xf30b04b45b51b12bu64, 213, 2));
    assert(edge_check(0xf30b04b45b51b12bu64, 213, 3));
    assert(edge_check(0xf30b04b45b51b12bu64, 213, 4));
    assert(edge_check(0xf30b04b45b51b12bu64, 213, 5));
    assert(edge_check(0xf30b04b45b51b12bu64, 213, 6));
    assert(edge_check(0xf30b04b45b51b12bu64, 213, 7));
    assert(edge_check(0xf30b04b45b51b12bu64, 213, 8));
    assert(edge_check(0xf30b04b45b51b12bu64, 213, 9));
    assert(edge_check(0xf30b04b45b51b12bu64, 213, 10));
    assert(edge_check(0xf30b04b45b51b12bu64, 213, 11));
}

#[verifier::spinoff_prover]
proof fn lemma_row_214()
    ensures
        row_checks(TRI_TABLE[214], 214),
{
    reveal(row_entry);
    reveal(faces_inward);
    reveal(dot);
    reveal(triangle_normal);
    reveal(corner_solid);
    reveal(entry_check);
    reveal(triangle_check);
    reveal(edge_check);
    assert(TRI_TABLE[214] == 0xf9050252b5b85845u64);
    assert(entry_check(0xf9050252b5b85845u64, 214, 0));
    assert(entry_check(0xf9050252b5b85845u64, 214, 1));
    assert(entry_check(0xf9050252b5b85845u64, 214, 2));
    assert(entry_check(0xf9050252b5b85845u64, 214, 3));
    assert(entry_check(0xf9050252b5b85845u64, 214, 4));
    assert(entry_check(0xf9050252b5b85845u64, 214, 5));
    assert(entry_check(0xf9050252b5b85845u64, 214, 6));
    assert(entry_check(0xf9050252b5b85845u64, 214, 7));
    assert(entry_check(0xf9050252b5b85845u64, 214, 8));
    assert(entry_check(0xf9050252b5b85845u64, 214, 9));
    assert(entry_check(0xf9050252b5b85845u64, 214, 10));
    assert(entry_check(0xf9050252b5b85845u64, 214, 11));
    assert(entry_check(0xf9050252b5b85845u64, 214, 12));
    assert(entry_check(0xf9050252b5b85845u64, 214, 13));
    assert(entry_check(0xf9050252b5b85845u64, 214, 14));
    assert(entry_check(0xf9050252b5b85845u64, 214, 15));
    assert(triangle_check(0xf9050252b5b85845u64, 214, 0));
    assert(triangle_check(0xf9050252b5b85845u64, 214, 1));
    assert(triangle_check(0xf9050252b5b85845u64, 214, 2));
    assert(triangle_check(0xf9050252b5b85845u64, 214, 3));
    assert(triangle_check(0xf9050252b5b85845u64, 214, 4));
    assert(edge_check(0xf9050252b5b85845u64, 214, 0));
    assert(edge_check(0xf9050252b5b85845u64, 214, 1));
    assert(edge_check(0xf9050252b5b85845u64, 214, 2));
    assert(edge_check(0xf9050252b5b85845u64, 214, 3));
    assert(edge_check(0xf9050252b5b85845u64, 214, 4));
    assert(edge_check(0xf9050252b5b85845u64, 214, 5));
    assert(edge_check(0xf9050252b5b85845u64, 214, 6));
    assert(edge_check(0xf9050252b5b85845u64, 214, 7));
    assert(edge_check(0xf9050252b5b85845u64, 214, 8));
    assert(edge_check(0xf9050252b5b85845u64, 214, 9));
    assert(edge_check(0xf9050252b5b85845u64, 214, 10));
    assert(edge_check(0xf9050252b5b85845u64, 214, 11));
}

#[verifier::spinoff_prover]
proof fn lemma_row_215()
    ensures
        row_checks(TRI_TABLE[215], 215),
{
    reveal(row_entry);
    reveal(faces_inward);
    reveal(dot);
    reveal(triangle_normal);
    reveal(corner_solid);
    reveal(entry_check);
    reveal(triangle_check);
    reveal(edge_check);
    assert(TRI_TABLE[215] == 0xffffffffff459b32u64);
    assert(entry_check(0xffffffffff459b32u64, 215, 0));
    assert(entry_check(0xffffffffff459b32u64, 215, 1));
    assert(entry_check(0xffffffffff459b32u64, 215, 2));
    assert(entry_check(0xffffffffff459b32u64, 215, 3));
    assert(entry_check(0xffffffffff459b32u64, 215, 4));
    assert(entry_check(0xffffffffff459b32u64, 215, 5));
    assert(entry_check(0xffffffffff459b32u64, 215, 6));
    assert(entry_check(0xffffffffff459b32u64, 215, 7));
    assert(entry_check(0xffffffffff459b32u64, 215, 8));
    assert(entry_check(0xffffffffff459b32u64, 215, 9));
    assert(entry_check(0xffffffffff459b32u64, 215, 10));
    assert(entry_check(0xffffffffff459b32u64, 215, 11));
    assert(entry_check(0xffffffffff459b32u64, 215, 12));
    assert(entry_check(0xffffffffff459b32u64, 215, 13));
    assert(entry_check(0xffffffffff459b32u64, 215, 14));
    assert(entry_check(0xffffffffff459b32u64, 215, 15));
    assert(triangle_check(0xffffffffff459b32u64, 215, 0));
    assert(triangle_check(0xffffffffff459b32u64, 215, 1));
    assert(triangle_check(0xffffffffff459b32u64, 215, 2));
    assert(triangle_check(0xffffffffff459b32u64, 215, 3));
    assert(triangle_check(0xffffffffff459b32u64, 215, 4));
    assert(edge_check(0xffffffffff459b32u64, 215, 0));
    assert(edge_check(0xffffffffff459b32u64, 215, 1));
    assert(edge_check(0xffffffffff459b32u64, 215, 2));
    assert(edge_check(0xffffffffff459b32u64, 215, 3));
    assert(edge_check(0xffffffffff459b32u64, 215, 4));
    assert(edge_check(0xffffffffff459b32u64, 215, 5));
    assert(edge_check(0xffffffffff459b32u64, 215, 6));
    assert(edge_check(0xffffffffff459b32u64, 215, 7));
    assert(edge_check(0xffffffffff459b32u64, 215, 8));
    assert(edge_check(0xffffffffff459b32u64, 215, 9));
    assert(edge_check(0xffffffffff459b32u64, 215, 10));
    assert(edge_check(0xffffffffff459b32u64, 215, 11));
}

#[verifier::spinoff_prover]
proof fn lemma_row_216()
    ensures
        row_checks(TRI_TABLE[216], 216),
{
    reveal(row_entry);
    reveal(faces_inward);
    reveal(dot);
    reveal(triangle_normal);
    reveal(corner_solid);
    reveal(entry_check);
    reveal(triangle_check);
    reveal(edge_check);
    assert(TRI_TABLE[216] == 0xffff23a38a84a45au64);
    assert(entry_check(0xffff23a38a84a45au64, 216, 0));
    assert(entry_check(0xffff23a38a84a45au64, 216, 1));
    assert(entry_check(0xffff23a38a84a45au64, 216, 2));
    assert(entry_check(0xffff23a38a84a45au64, 216, 3));
    assert(entry_check(0xffff23a38a84a45au64, 216, 4));
    assert(entry_check(0xffff23a38a84a45au64, 216, 5));
    assert(entry_check(0xffff23a38a84a45au64, 216, 6));
    assert(entry_check(0xffff23a38a84a45au64, 216, 7));
    assert(entry_check(0xffff23a38a84a45au64, 216, 8));
    assert(entry_check(0xffff23a38a84a45au64, 216, 9));
    assert(entry_check(0xffff23a38a84a45au64, 216, 10));
    assert(entry_check(0xffff23a38a84a45au64, 216, 11));
    assert(entry_check(0xffff23a38a84a45au64, 216, 12));
    assert(entry_check(0xffff23a38a84a45au64, 216, 13));
    assert(entry_check(0xffff23a38a84a45au64, 216, 14));
    assert(entry_check(0xffff23a38a84a45au64, 216, 15));
    assert(triangle_check(0xffff23a38a84a45au64, 216, 0));
    assert(triangle_check(0xffff23a38a84a45au64, 216, 1));
    assert(triangle_check(0xffff23a38a84a45au64, 216, 2));
    assert(triangle_check(0xffff23a38a84a45au64, 216, 3));
    assert(triangle_check(0xffff23a38a84a45au64, 216, 4));
    assert(edge_check(0xffff23a38a84a45au64, 216, 0));
    assert(edge_check(0xffff23a38a84a45au64, 216, 1));
    assert(edge_check(0xffff23a38a84a45au64, 216, 2));
    assert(edge_check(0xffff23a38a84a45au64, 216, 3));
    assert(edge_check(0xffff23a38a84a45au64, 216, 4));
    assert(edge_check(0xffff23a38a84a45au64, 216, 5));
    assert(edge_check(0xffff23a38a84a45au64, 216, 6));
    assert(edge_check(0xffff23a38a84a45au64, 216, 7));
    assert(edge_check(0xffff23a38a84a45au64, 216, 8));
    assert(edge_check(0xffff23a38a84a45au64, 216, 9));
    assert(edge_check(0xffff23a38a84a45au64, 216, 10));
    assert(edge_check(0xffff23a38a84a45au64, 216, 11));
}

#[verifier::spinoff_prover]
proof fn lemma_row_217()
    ensures
        row_checks(TRI_TABLE[217], 217),
{
    reveal(row_entry);
    reveal(faces_inward);
    reveal(dot);
    reveal(triangle_normal);
    reveal(corner_solid);
    reveal(entry_check);
    reveal(triangle_check);
    reveal(edge_check);
    assert(TRI_TABLE[217] == 0xfffffff0424525a2u64);
    assert(entry_check(0xfffffff0424525a2u64, 217, 0));
    assert(entry_check(0xfffffff0424525a2u64, 217, 1));
    assert(entry_check(0xfffffff0424525a2u64, 217, 2));
    assert(entry_check(0xfffffff0424525a2u64, 217, 3));
    assert(entry_check(0xfffffff0424525a2u64, 217, 4));
    assert(entry_check(0xfffffff0424525a2u64, 217, 5));
    assert(entry_check(0xfffffff0424525a2u64, 217, 6));
    assert(entry_check(0xfffffff0424525a2u64, 217, 7));
    assert(entry_check(0xfffffff0424525a2u64, 217, 8));
    assert(entry_check(0xfffffff0424525a2u64, 217, 9));
    assert(entry_check(0xfffffff0424525a2u64, 217, 10));
    assert(entry_check(0xfffffff0424525a2u64, 217, 11));
    assert(entry_check(0xfffffff0424525a2u64, 217, 12));
    assert(entry_check(0xfffffff0424525a2u64, 217, 13));
    assert(entry_check(0xfffffff0424525a2u64, 217, 14));
    assert(entry_check(0xfffffff0424525a2u64, 217, 15));
    assert(triangle_check(0xfffffff0424525a2u64, 217, 0));
    assert(triangle_check(0xfffffff0424525a2u64, 217, 1));
    assert(triangle_check(0xfffffff0424525a2u64, 217, 2));
    assert(triangle_check(0xfffffff0424525a2u64, 217, 3));
    assert(triangle_check(0xfffffff0424525a2u64, 217, 4));
    assert(edge_check(0xfffffff0424525a2u64, 217, 0));
    assert(edge_check(0xfffffff0424525a2u64, 217, 1));
    assert(edge_check(0xfffffff0424525a2u64, 217, 2));
    assert(edge_check(0xfffffff0424525a2u64, 217, 3));
    assert(edge_check(0xfffffff0424525a2u64, 217, 4));
    assert(edge_check(0xfffffff0424525a2u64, 217, 5));
    assert(edge_check(0xfffffff0424525a2u64, 217, 6));
    assert(edge_check(0xfffffff0424525a2u64, 217, 7));
    assert(edge_check(0xfffffff0424525a2u64, 217, 8));
    assert(edge_check(0xfffffff0424525a2u64, 217, 9));
    assert(edge_check(0xfffffff0424525a2u64, 217, 10));
    assert(edge_check(0xfffffff0424525a2u64, 217, 11));
}

#[verifier::spinoff_prover]
proof fn lemma_row_218()
    ensures
        row_checks(TRI_TABLE[218], 218),
{
    reveal(row_entry);
    reveal(faces_inward);
    reveal(dot);
    reveal(triangle_normal);
    reveal(corner_solid);
    reveal(entry_check);
    reveal(triangle_check);
    reveal(edge_check);
    assert(TRI_TABLE[218] == 0xf23a38a84a45a019u64);
    assert(entry_check(0xf23a38a84a45a019u64, 218, 0));
    assert(entry_check(0xf23a38a84a45a019u64, 218, 1));
    assert(entry_check(0xf23a38a84a45a019u64, 218, 2));
    assert(entry_check(0xf23a38a84a45a019u64, 218, 3));
    assert(entry_check(0xf23a38a84a45a019u64, 218, 4));
    assert(entry_check(0xf23a38a84a45a019u64, 218, 5));
    assert(entry_check(0xf23a38a84a45a019u64, 218, 6));
    assert(entry_check(0xf23a38a84a45a019u64, 218, 7));
    assert(entry_check(0xf23a38a84a45a019u64, 218, 8));
    assert(entry_check(0xf23a38a84a45a019u64, 218, 9));
    assert(entry_check(0xf23a38a84a45a019u64, 218, 10));
    assert(entry_check(0xf23a38a84a45a019u64, 218, 11));
    assert(entry_check(0xf23a38a84a45a019u64, 218, 12));
    assert(entry_check(0xf23a38a84a45a019u64, 218, 13));
    assert(entry_check(0xf23a38a84a45a019u64, 218, 14));
    assert(entry_check(0xf23a38a84a45a019u64, 218, 15));
    assert(triangle_check(0xf23a38a84a45a019u64, 218, 0));
    assert(triangle_check(0xf23a38a84a45a019u64, 218, 1));
    assert(triangle_check(0xf23a38a84a45a019u64, 218, 2));
    assert(triangle_check(0xf23a38a84a45a019u64, 218, 3));
    assert(triangle_check(0xf23a38a84a45a019u64, 218, 4));
    assert(edge_check(0xf23a38a84a45a019u64, 218, 0));
    assert(edge_check(0xf23a38a84a45a019u64, 218, 1));
    assert(edge_check(0xf23a38a84a45a019u64, 218, 2));
    assert(edge_check(0xf23a38a84a45a019u64, 218, 3));
    assert(edge_check(0xf23a38a84a45a019u64, 218, 4));
    assert(edge_check(0xf23a38a84a45a019u64, 218, 5));
    assert(edge_check(0xf23a38a84a45a019u64, 218, 6));
    assert(edge_check(0xf23a38a84a45a019u64, 218, 7));
    assert(edge_check(0xf23a38a84a45a019u64, 218, 8));
    assert(edge_check(0xf23a38a84a45a019u64, 218, 9));
    assert(edge_check(0xf23a38a84a45a019u64, 218, 10));
    assert(edge_check(0xf23a38a84a45a019u64, 218, 11));
}

#[verifier::spinoff_prover]
proof fn lemma_row_219()
    ensures
        row_checks(TRI_TABLE[219], 219),
{
    reveal(row_entry);
    reveal(faces_inward);
    reveal(dot);
    reveal(triangle_normal);
    reveal(corner_solid);
    reveal(entry_check);
    reveal(triangle_check);
    reveal(edge_check);
    assert(TRI_TABLE[219] == 0xffff1929424525a2u64);
    assert(entry_check(0xffff1929424525a2u64, 219, 0));
    assert(entry_check(0xffff1929424525a2u64, 219, 1));
    assert(entry_check(0xffff1929424525a2u64, 219, 2));
    assert(entry_check(0xffff1929424525a2u64, 219, 3));
    assert(entry_check(0xffff1929424525a2u64, 219, 4));
    assert(entry_check(0xffff1929424525a2u64, 219, 5));
    assert(entry_check(0xffff1929424525a2u64, 219, 6));
    assert(entry_check(0xffff1929424525a2u64, 219, 7));
    assert(entry_check(0xffff1929424525a2u64, 219, 8));
    assert(entry_check(0xffff1929424525a2u64, 219, 9));
    assert(entry_check(0xffff1929424525a2u64, 219, 10));
    assert(entry_check(0xffff1929424525a2u64, 219, 11));
    assert(entry_check(0xffff1929424525a2u64, 219, 12));
    assert(entry_check(0xffff1929424525a2u64, 219, 13));
    assert(entry_check(0xffff1929424525a2u64, 219, 14));
    assert(entry_check(0xffff1929424525a2u64, 219, 15));
    assert(triangle_check(0xffff1929424525a2u64, 219, 0));
    assert(triangle_check(0xffff1929424525a2u64, 219, 1));
    assert(triangle_check(0xffff1929424525a2u64, 219, 2));
    assert(triangle_check(0xffff1929424525a2u64, 219, 3));
    assert(triangle_check(0xffff1929424525a2u64, 219, 4));
    assert(edge_check(0xffff1929424525a2u64, 219, 0));
    assert(edge_check(0xffff1929424525a2u64, 219, 1));
    assert(edge_check(0xffff1929424525a2u64, 219, 2));
    assert(edge_check(0xffff1929424525a2u64, 219, 3));
    assert(edge_check(0xffff1929424525a2u64, 219, 4));
    assert(edge_check(0xffff1929424525a2u64, 219, 5));
    assert(edge_check(0xffff1929424525a2u64, 219, 6));
    assert(edge_check(0xffff1929424525a2u64, 219, 7));
    assert(edge_check(0xffff1929424525a2u64, 219, 8));
    assert(edge_check(0xffff1929424525a2u64, 219, 9));
    assert(edge_check(0xffff1929424525a2u64, 219, 10));
    assert(edge_check(0xffff1929424525a2u64, 219, 11));
}

#[verifier::spinoff_prover]
proof fn lemma_row_220()
    ensures
        row_checks(TRI_TABLE[220], 220),
{
    reveal(row_entry);
    reveal(faces_inward);
    reveal(dot);
    reveal(triangle_normal);
    reveal(corner_solid);
    reveal(entry_check);
    reveal(triangle_check);
    reveal(edge_check);
    assert(TRI_TABLE[220] == 0xfffffff135385845u64);
    assert(entry_check(0xfffffff135385845u64, 220, 0));
    assert(entry_check(0xfffffff135385845u64, 220, 1));
    assert(entry_check(0xfffffff135385845u64, 220, 2));
    assert(entry_check(0xfffffff135385845u64, 220, 3));
    assert(entry_check(0xfffffff135385845u64, 220, 4));
    assert(entry_check(0xfffffff135385845u64, 220, 5));
    assert(entry_check(0xfffffff135385845u64, 220, 6));
    assert(entry_check(0xfffffff135385845u64, 220, 7));
    assert(entry_check(0xfffffff135385845u64, 220, 8));
    assert(entry_check(0xfffffff135385845u64, 220, 9));
    assert(entry_check(0xfffffff135385845u64, 220, 10));
    assert(entry_check(0xfffffff135385845u64, 220, 11));
    assert(entry_check(0xfffffff135385845u64, 220, 12));
    assert(entry_check(0xfffffff135385845u64, 220, 13));
    assert(entry_check(0xfffffff135385845u64, 220, 14));
    assert(entry_check(0xfffffff135385845u64, 220, 15));
    assert(triangle_check(0xfffffff135385845u64, 220, 0));
    assert(triangle_check(0xfffffff135385845u64, 220, 1));
    assert(triangle_check(0xfffffff135385845u64, 220, 2));
    assert(triangle_check(0xfffffff135385845u64, 220, 3));
    assert(triangle_check(0xfffffff135385845u64, 220, 4));
    assert(edge_check(0xfffffff135385845u64, 220, 0));
    assert(edge_check(0xfffffff135385845u64, 220, 1));
    assert(edge_check(0xfffffff135385845u64, 220, 2));
    assert(edge_check(0xfffffff135385845u64, 220, 3));
    assert(edge_check(0xfffffff135385845u64, 220, 4));
    assert(edge_check(0xfffffff135385845u64, 220, 5));
    assert(edge_check(0xfffffff135385845u64, 220, 6));
    assert(edge_check(0xfffffff135385845u64, 220, 7));
    assert(edge_check(0xfffffff135385845u64, 220, 8));
    assert(edge_check(0xfffffff135385845u64, 220, 9));
    assert(edge_check(0xfffffff135385845u64, 220, 10));
    assert(edge_check(0xfffffff135385845u64, 220, 11));
}

#[verifier::spinoff_prover]
proof fn lemma_row_221()
    ensures
        row_checks(TRI_TABLE[221], 221),
{
    reveal(row_entry);
    reveal(faces_inward);
    reveal(dot);
    reveal(triangle_normal);
    reveal(corner_solid);
    reveal(entry_check);
    reveal(triangle_check);
    reveal(edge_check);
    assert(TRI_TABLE[221] == 0xffffffffff450510u64);
    assert(entry_check(0xffffffffff450510u64, 221, 0));
    assert(entry_check(0xffffffffff450510u64, 221, 1));
    assert(entry_check(0xffffffffff450510u64, 221, 2));
    assert(entry_check(0xffffffffff450510u64, 221, 3));
    assert(entry_check(0xffffffffff450510u64, 221, 4));
    assert(entry_check(0xffffffffff450510u64, 221, 5));
    assert(entry_check(0xffffffffff450510u64, 221, 6));
    assert(entry_check(0xffffffffff450510u64, 221, 7));
    assert(entry_check(0xffffffffff450510u64, 221, 8));
    assert(entry_check(0xffffffffff450510u64, 221, 9));
    assert(entry_check(0xffffffffff450510u64, 221, 10));
    assert(entry_check(0xffffffffff450510u64, 221, 11));
    assert(entry_check(0xffffffffff450510u64, 221, 12));
    assert(entry_check(0xffffffffff450510u64, 221, 13));
    assert(entry_check(0xffffffffff450510u64, 221, 14));
    assert(entry_check(0xffffffffff450510u64, 221, 15));
    assert(triangle_check(0xffffffffff450510u64, 221, 0));
    assert(triangle_check(0xffffffffff450510u64, 221, 1));
    assert(triangle_check(0xffffffffff450510u64, 221, 2));
    assert(triangle_check(0xffffffffff450510u64, 221, 3));
    assert(triangle_check(0xffffffffff450510u64, 221, 4));
    assert(edge_check(0xffffffffff450510u64, 221, 0));
    assert(edge_check(0xffffffffff450510u64, 221, 1));
    assert(edge_check(0xffffffffff450510u64, 221, 2));
    assert(edge_check(0xffffffffff450510u64, 221, 3));
    assert(edge_check(0xffffffffff450510u64, 221, 4));
    assert(edge_check(0xffffffffff450510u64, 221, 5));
    assert(edge_check(0xffffffffff450510u64, 221, 6));
    assert(edge_check(0xffffffffff450510u64, 221, 7));
    assert(edge_check(0xffffffffff450510u64, 221, 8));
    assert(edge_check(0xffffffffff450510u64, 221, 9));
    assert(edge_check(0xffffffffff450510u64, 221, 10));
    assert(edge_check(0xffffffffff450510u64, 221, 11));
}

#[verifier::spinoff_prover]
proof fn lemma_row_222()
    ensures
        row_checks(TRI_TABLE[222], 222),
{
    reveal(row_entry);
    reveal(faces_inward);
    reveal(dot);
    reveal(triangle_normal);
    reveal(corner_solid);
    reveal(entry_check);
    reveal(triangle_check);
    reveal(edge_check);
    assert(TRI_TABLE[222] == 0xffff905035385845u64);
    assert(entry_check(0xffff905035385845u64, 222, 0));
    assert(entry_check(0xffff905035385845u64, 222, 1));
    assert(entry_check(0xffff905035385845u64, 222, 2));
    assert(entry_check(0xffff905035385845u64, 222, 3));
    assert(entry_check(0xffff905035385845u64, 222, 4));
    assert(entry_check(0xffff905035385845u64, 222, 5));
    assert(entry_check(0xffff905035385845u64, 222, 6));
    assert(entry_check(0xffff905035385845u64, 222, 7));
    assert(entry_check(0xffff905035385845u64, 222, 8));
    assert(entry_check(0xffff905035385845u64, 222, 9));
    assert(entry_check(0xffff905035385845u64, 222, 10));
    assert(entry_check(0xffff905035385845u64, 222, 11));
    assert(entry_check(0xffff905035385845u64, 222, 12));
    assert(entry_check(0xffff905035385845u64, 222, 13));
    assert(entry_check(0xffff905035385845u64, 222, 14));
    assert(entry_check(0xffff905035385845u64, 222, 15));
    assert(triangle_check(0xffff905035385845u64, 222, 0));
    assert(triangle_check(0xffff905035385845u64, 222, 1));
    assert(triangle_check(0xffff905035385845u64, 222, 2));
    assert(triangle_check(0xffff905035385845u64, 222, 3));
    assert(triangle_check(0xffff905035385845u64, 222, 4));
    assert(edge_check(0xffff905035385845u64, 222, 0));
    assert(edge_check(0xffff905035385845u64, 222, 1));
    assert(edge_check(0xffff905035385845u64, 222, 2));
    assert(edge_check(0xffff905035385845u64, 222, 3));
    assert(edge_check(0xffff905035385845u64, 222, 4));
    assert(edge_check(0xffff905035385845u64, 222, 5));
    assert(edge_check(0xffff905035385845u64, 222, 6));
    assert(edge_check(0xffff905035385845u64, 222, 7));
    assert(edge_check(0xffff905035385845u64, 222, 8));
    assert(edge_check(0xffff905035385845u64, 222, 9));
    assert(edge_check(0xffff905035385845u64, 222, 10));
    assert(edge_check(0xffff905035385845u64, 222, 11));
}

#[verifier::spinoff_prover]
proof fn lemma_row_223()
    ensures
        row_checks(TRI_TABLE[223], 223),
{
    reveal(row_entry);
    reveal(faces_inward);
    reveal(dot);
    reveal(triangle_normal);
    reveal(corner_solid);
    reveal(entry_check);
    reveal(triangle_check);
    reveal(edge_check);
    assert(TRI_TABLE[223] == 0xfffffffffffff459u64);
    assert(entry_check(0xfffffffffffff459u64, 223, 0));
    assert(entry_check(0xfffffffffffff459u64, 223, 1));
    assert(entry_check(0xfffffffffffff459u64, 223, 2));
    assert(entry_check(0xfffffffffffff459u64, 223, 3));
    assert(entry_check(0xfffffffffffff459u64, 223, 4));
    assert(entry_check(0xfffffffffffff459u64, 223, 5));
    assert(entry_check(0xfffffffffffff459u64, 223, 6));
    assert(entry_check(0xfffffffffffff459u64, 223, 7));
    assert(entry_check(0xfffffffffffff459u64, 223, 8));
    assert(entry_check(0xfffffffffffff459u64, 223, 9));
    assert(entry_check(0xfffffffffffff459u64, 223, 10));
    assert(entry_check(0xfffffffffffff459u64, 223, 11));
    assert(entry_check(0xfffffffffffff459u64, 223, 12));
    assert(entry_check(0xfffffffffffff459u64, 223, 13));
    assert(entry_check(0xfffffffffffff459u64, 223, 14));
    assert(entry_check(0xfffffffffffff459u64, 223, 15));
    assert(triangle_check(0xfffffffffffff459u64, 223, 0));
    assert(triangle_check(0xfffffffffffff459u64, 223, 1));
    assert(triangle_check(0xfffffffffffff459u64, 223, 2));
    assert(triangle_check(0xfffffffffffff459u64, 223, 3));
    assert(triangle_check(0xfffffffffffff459u64, 223, 4));
    assert(edge_check(0xfffffffffffff459u64, 223, 0));
    assert(edge_check(0xfffffffffffff459u64, 223, 1));
    assert(edge_check(0xfffffffffffff459u64, 223, 2));
    assert(edge_check(0xfffffffffffff459u64, 223, 3));
    assert(edge_check(0xfffffffffffff459u64, 223, 4));
    assert(edge_check(0xfffffffffffff459u64, 223, 5));
    assert(edge_check(0xfffffffffffff459u64, 223, 6));
    assert(edge_check(0xfffffffffffff459u64, 223, 7));
    assert(edge_check(0xfffffffffffff459u64, 223, 8));
    assert(edge_check(0xfffffffffffff459u64, 223, 9));
    assert(edge_check(0xfffffffffffff459u64, 223, 10));
    assert(edge_check(0xfffffffffffff459u64, 223, 11));
}

#[verifier::spinoff_prover]
proof fn lemma_row_224()
    ensures
        row_checks(TRI_TABLE[224], 224),
{
    reveal(row_entry);
    reveal(faces_inward);
    reveal(dot);
    reveal(triangle_normal);
    reveal(corner_solid);
    reveal(entry_check);
    reveal(triangle_check);
    reveal(edge_check);
    assert(TRI_TABLE[224] == 0xfffffff74b49b9abu64);
    assert(entry_check(0xfffffff74b49b9abu64, 224, 0));
    assert(entry_check(0xfffffff74b49b9abu64, 224, 1));
    assert(entry_check(0xfffffff74b49b9abu64, 224, 2));
    assert(entry_check(0xfffffff74b49b9abu64, 224, 3));
    assert(entry_check(0xfffffff74b49b9abu64, 224, 4));
    assert(entry_check(0xfffffff74b49b9abu64, 224, 5));
    assert(entry_check(0xfffffff74b49b9abu64, 224, 6));
    assert(entry_check(0xfffffff74b49b9abu64, 224, 7));
    assert(entry_check(0xfffffff74b49b9abu64, 224, 8));
    assert(entry_check(0xfffffff74b49b9abu64, 224, 9));
    assert(entry_check(0xfffffff74b49b9abu64, 224, 10));
    assert(entry_check(0xfffffff74b49b9abu64, 224, 11));
    assert(entry_check(0xfffffff74b49b9abu64, 224, 12));
    assert(entry_check(0xfffffff74b49b9abu64, 224, 13));
    assert(entry_check(0xfffffff74b49b9abu64, 224, 14));
    assert(entry_check(0xfffffff74b49b9abu64, 224, 15));
    assert(triangle_check(0xfffffff74b49b9abu64, 224, 0));
    assert(triangle_check(0xfffffff74b49b9abu64, 224, 1));
    assert(triangle_check(0xfffffff74b49b9abu64, 224, 2));
    assert(triangle_check(0xfffffff74b49b9abu64, 224, 3));
    assert(triangle_check(0xfffffff74b49b9abu64, 224, 4));
    assert(edge_check(0xfffffff74b49b9abu64, 224, 0));
    assert(edge_check(0xfffffff74b49b9abu64, 224, 1));
    assert(edge_check(0xfffffff74b49b9abu64, 224, 2));
    assert(edge_check(0xfffffff74b49b9abu64, 224, 3));
    assert(edge_check(0xfffffff74b49b9abu64, 224, 4));
    assert(edge_check(0xfffffff74b49b9abu64, 224, 5));
    assert(edge_check(0xfffffff74b49b9abu64, 224, 6));
    assert(edge_check(0xfffffff74b49b9abu64, 224, 7));
    assert(edge_check(0xfffffff74b49b9abu64, 224, 8));
    assert(edge_check(0xfffffff74b49b9abu64, 224, 9));
    assert(edge_check(0xfffffff74b49b9abu64, 224, 10));
    assert(edge_check(0xfffffff74b49b9abu64, 224, 11));
}

#[verifier::spinoff_prover]
proof fn lemma_row_225()
    ensures
        row_checks(TRI_TABLE[225], 225),
{
    reveal(row_entry);
    reveal(faces_inward);
    reveal(dot);
    reveal(triangle_normal);
    reveal(corner_solid);
    reveal(entry_check);
    reveal(triangle_check);
    reveal(edge_check);
    assert(TRI_TABLE[225] == 0xffff74b49b9ab830u64);
    assert(entry_check(0xffff74b49b9ab830u64, 225, 0));
    assert(entry_check(0xffff74b49b9ab830u64, 225, 1));
    assert(entry_check(0xffff74b49b9ab830u64, 225, 2));
    assert(entry_check(0xffff74b49b9ab830u64, 225, 3));
    assert(entry_check(0xffff74b49b9ab830u64, 225, 4));
    assert(entry_check(0xffff74b49b9ab830u64, 225, 5));
    assert(entry_check(0xffff74b49b9ab830u64, 225, 6));
    assert(entry_check(0xffff74b49b9ab830u64, 225, 7));
    assert(entry_check(0xffff74b49b9ab830u64, 225, 8));
    assert(entry_check(0xffff74b49b9ab830u64, 225, 9));
    assert(entry_check(0xffff74b49b9ab830u64, 225, 10));
    assert(entry_check(0xffff74b49b9ab830u64, 225, 11));
    assert(entry_check(0xffff74b49b9ab830u64, 225, 12));
    assert(entry_check(0xffff74b49b9ab830u64, 225, 13));
    assert(entry_check(0xffff74b49b9ab830u64, 225, 14));
    assert(entry_check(0xffff74b49b9ab830u64, 225, 15));
    assert(triangle_check(0xffff74b49b9ab830u64, 225, 0));
    assert(triangle_check(0xffff74b49b9ab830u64, 225, 1));
    assert(triangle_check(0xffff74b49b9ab830u64, 225, 2));
    assert(triangle_check(0xffff74b49b9ab830u64, 225, 3));
    assert(triangle_check(0xffff74b49b9ab830u64, 225, 4));
    assert(edge_check(0xffff74b49b9ab830u64, 225, 0));
    assert(edge_check(0xffff74b49b9ab830u64, 225, 1));
    assert(edge_check(0xffff74b49b9ab830u64, 225, 2));
    assert(edge_check(0xffff74b49b9ab830u64, 225, 3));
    assert(edge_check(0xffff74b49b9ab830u64, 225, 4));
    assert(edge_check(0xffff74b49b9ab830u64, 225, 5));
    assert(edge_check(0xffff74b49b9ab830u64, 225, 6));
    assert(edge_check(0xffff74b49b9ab830u64, 225, 7));
    assert(edge_check(0xffff74b49b9ab830u64, 225, 8));
    assert(edge_check(0xffff74b49b9ab830u64, 225, 9));
    assert(edge_check(0xffff74b49b9ab830u64, 225, 10));
    assert(edge_check(0xffff74b49b9ab830u64, 225, 11));
}

#[verifier::spinoff_prover]
proof fn lemma_row_226()
    ensures
        row_checks(TRI_TABLE[226], 226),
{
    reveal(row_entry);
    reveal(faces_inward);
    reveal(dot);
    reveal(triangle_normal);
    reveal(corner_solid);
    reveal(entry_check);
    reveal(triangle_check);
    reveal(edge_check);
    assert(TRI_TABLE[226] == 0xffff0141a4ab4b74u64);
    assert(entry_check(0xffff0141a4ab4b74u64, 226, 0));
    assert(entry_check(0xffff0141a4ab4b74u64, 226, 1));
    assert(entry_check(0xffff0141a4ab4b74u64, 226, 2));
    assert(entry_check(0xffff0141a4ab4b74u64, 226, 3));
    assert(entry_check(0xffff0141a4ab4b74u64, 226, 4));
    assert(entry_check(0xffff0141a4ab4b74u64, 226, 5));
    assert(entry_check(0xffff0141a4ab4b74u64, 226, 6));
    assert(entry_check(0xffff0141a4ab4b74u64, 226, 7));
    assert(entry_check(0xffff0141a4ab4b74u64, 226, 8));
    assert(entry_check(0xffff0141a4ab4b74u64, 226, 9));
    assert(entry_check(0xffff0141a4ab4b74u64, 226, 10));
    assert(entry_check(0xffff0141a4ab4b74u64, 226, 11));
    assert(entry_check(0xffff0141a4ab4b74u64, 226, 12));
    assert(entry_check(0xffff0141a4ab4b74u64, 226, 13));
    assert(entry_check(0xffff0141a4ab4b74u64, 226, 14));
    assert(entry_check(0xffff0141a4ab4b74u64, 226, 15));
    assert(triangle_check(0xffff0141a4ab4b74u64, 226, 0));
    assert(triangle_check(0xffff0141a4ab4b74u64, 226, 1));
    assert(triangle_check(0xffff0141a4ab4b74u64, 226, 2));
    assert(triangle_check(0xffff0141a4ab4b74u64, 226, 3));
    assert(triangle_check(0xffff0141a4ab4b74u64, 226, 4));
    assert(edge_check(0xffff0141a4ab4b74u64, 226, 0));
    assert(edge_check(0xffff0141a4ab4b74u64, 226, 1));
    assert(edge_check(0xffff0141a4ab4b74u64, 226, 2));
    assert(edge_check(0xffff0141a4ab4b74u64, 226, 3));
    assert(edge_check(0xffff0141a4ab4b74u64, 226, 4));
    assert(edge_check(0xffff0141a4ab4b74u64, 226, 5));
    assert(edge_check(0xffff0141a4ab4b74u64, 226, 6));
    assert(edge_check(0xffff0141a4ab4b74u64, 226, 7));
    assert(edge_check(0xffff0141a4ab4b74u64, 226, 8));
    assert(edge_check(0xffff0141a4ab4b74u64, 226, 9));
    assert(edge_check(0xffff0141a4ab4b74u64, 226, 10));
    assert(edge_check(0xffff0141a4ab4b74u64, 226, 11));
}

#[verifier::spinoff_prover]
proof fn lemma_row_227()
    ensures
        row_checks(TRI_TABLE[227], 227),
{
    reveal(row_entry);
    reveal(faces_inward);
    reveal(dot);
    reveal(triangle_normal);
    reveal(corner_solid);
    reveal(entry_check);
    reveal(triangle_check);
    reveal(edge_check);
    assert(TRI_TABLE[227] == 0xf8343141a4ab4b74u64);
    assert(entry_check(0xf8343141a4ab4b74u64, 227, 0));
    assert(entry_check(0xf8343141a4ab4b74u64, 227, 1));
    assert(entry_check(0xf8343141a4ab4b74u64, 227, 2));
    assert(entry_check(0xf8343141a4ab4b74u64, 227, 3));
    assert(entry_check(0xf8343141a4ab4b74u64, 227, 4));
    assert(entry_check(0xf8343141a4ab4b74u64, 227, 5));
    assert(entry_check(0xf8343141a4ab4b74u64, 227, 6));
    assert(entry_check(0xf8343141a4ab4b74u64, 227, 7));
    assert(entry_check(0xf8343141a4ab4b74u64, 227, 8));
    assert(entry_check(0xf8343141a4ab4b74u64, 227, 9));
    assert(entry_check(0xf8343141a4ab4b74u64, 227, 10));
    assert(entry_check(0xf8343141a4ab4b74u64, 227, 11));
    assert(entry_check(0xf8343141a4ab4b74u64, 227, 12));
    assert(entry_check(0xf8343141a4ab4b74u64, 227, 13));
    assert(entry_check(0xf8343141a4ab4b74u64, 227, 14));
    assert(entry_check(0xf8343141a4ab4b74u64, 227, 15));
    assert(triangle_check(0xf8343141a4ab4b74u64, 227, 0));
    assert(triangle_check(0xf8343141a4ab4b74u64, 227, 1));
    assert(triangle_check(0xf8343141a4ab4b74u64, 227, 2));
    assert(triangle_check(0xf8343141a4ab4b74u64, 227, 3));
    assert(triangle_check(0xf8343141a4ab4b74u64, 227, 4));
    assert(edge_check(0xf8343141a4ab4b74u64, 227, 0));
    assert(edge_check(0xf8343141a4ab4b74u64, 227, 1));
    assert(edge_check(0xf8343141a4ab4b74u64, 227, 2));
    assert(edge_check(0xf8343141a4ab4b74u64, 227, 3));
    assert(edge_check(0xf8343141a4ab4b74u64, 227, 4));
    assert(edge_check(0xf8343141a4ab4b74u64, 227, 5));
    assert(edge_check(0xf8343141a4ab4b74u64, 227, 6));
    assert(edge_check(0xf8343141a4ab4b74u64, 227, 7));
    assert(edge_check(0xf8343141a4ab4b74u64, 227, 8));
    assert(edge_check(0xf8343141a4ab4b74u64, 227, 9));
    assert(edge_check(0xf8343141a4ab4b74u64, 227, 10));
    assert(edge_check(0xf8343141a4ab4b74u64, 227, 11));
}

#[verifier::spinoff_prover]
proof fn lemma_row_228()
    ensures
        row_checks(TRI_TABLE[228], 228),
{
    reveal(row_entry);
    reveal(faces_inward);
    reveal(dot);
    reveal(triangle_normal);
    reveal(corner_solid);
    reveal(entry_check);
    reveal(triangle_check);
    reveal(edge_check);
    assert(TRI_TABLE[228] == 0xffff2b1b71741491u64);
    assert(entry_check(0xffff2b1b71741491u64, 228, 0));
    assert(entry_check(0xffff2b1b71741491u64, 228, 1));
    assert(entry_check(0xffff2b1b71741491u64, 228, 2));
    assert(entry_check(0xffff2b1b71741491u64, 228, 3));
    assert(entry_check(0xffff2b1b71741491u64, 228, 4));
    assert(entry_check(0xffff2b1b71741491u64, 228, 5));
    assert(entry_check(0xffff2b1b71741491u64, 228, 6));
    assert(entry_check(0xffff2b1b71741491u64, 228, 7));
    assert(entry_check(0xffff2b1b71741491u64, 228, 8));
    assert(entry_check(0xffff2b1b71741491u64, 228, 9));
    assert(entry_check(0xffff2b1b71741491u64, 228, 10));
    assert(entry_check(0xffff2b1b71741491u64, 228, 11));
    assert(entry_check(0xffff2b1b71741491u64, 228, 12));
    assert(entry_check(0xffff2b1b71741491u64, 228, 13));
    assert(entry_check(0xffff2b1b71741491u64, 228, 14));
    assert(entry_check(0xffff2b1b71741491u64, 228, 15));
    assert(triangle_check(0xffff2b1b71741491u64, 228, 0));
    assert(triangle_check(0xffff2b1b71741491u64, 228, 1));
    assert(triangle_check(0xffff2b1b71741491u64, 228, 2));
    assert(triangle_check(0xffff2b1b71741491u64, 228, 3));
    assert(triangle_check(0xffff2b1b71741491u64, 228, 4));
    assert(edge_check(0xffff2b1b71741491u64, 228, 0));
    assert(edge_check(0xffff2b1b71741491u64, 228, 1));
    assert(edge_check(0xffff2b1b71741491u64, 228, 2));
    assert(edge_check(0xffff2b1b71741491u64, 228, 3));
    assert(edge_check(0xffff2b1b71741491u64, 228, 4));
    assert(edge_check(0xffff2b1b71741491u64, 228, 5));
    assert(edge_check(0xffff2b1b71741491u64, 228, 6));
    assert(edge_check(0xffff2b1b71741491u64, 228, 7));
    assert(edge_check(0xffff2b1b71741491u64, 228, 8));
    assert(edge_check(0xffff2b1b71741491u64, 228, 9));
    assert(edge_check(0xffff2b1b71741491u64, 228, 10));
    assert(edge_check(0xffff2b1b71741491u64, 228, 11));
}

#[verifier::spinoff_prover]
proof fn lemma_row_229()
    ensures
        row_checks(TRI_TABLE[229], 229),
{
    reveal(row_entry);
    reveal(faces_inward);
    reveal(dot);
    reveal(triangle_normal);
    reveal(corner_solid);
    reveal(entry_check);
    reveal(triangle_check);
    reveal(edge_check);
    assert(TRI_TABLE[229] == 0xf2b1b71741491830u64);
    assert(entry_check(0xf2b1b71741491830u64, 229, 0));
    assert(entry_check(0xf2b1b71741491830u64, 229, 1));
    assert(entry_check(0xf2b1b71741491830u64, 229, 2));
    assert(entry_check(0xf2b1b71741491830u64, 229, 3));
    assert(entry_check(0xf2b1b71741491830u64, 229, 4));
    assert(entry_check(0xf2b1b71741491830u64, 229, 5));
    assert(entry_check(0xf2b1b71741491830u64, 229, 6));
    assert(entry_check(0xf2b1b71741491830u64, 229, 7));
    assert(entry_check(0xf2b1b71741491830u64, 229, 8));
    assert(entry_check(0xf2b1b71741491830u64, 229, 9));
    assert(entry_check(0xf2b1b71741491830u64, 229, 10));
    assert(entry_check(0xf2b1b71741491830u64, 229, 11));
    assert(entry_check(0xf2b1b71741491830u64, 229, 12));
    assert(entry_check(0xf2b1b71741491830u64, 229, 13));
    assert(entry_check(0xf2b1b71741491830u64, 229, 14));
    assert(entry_check(0xf2b1b71741491830u64, 229, 15));
    assert(triangle_check(0xf2b1b71741491830u64, 229, 0));
    assert(triangle_check(0xf2b1b71741491830u64, 229, 1));
    assert(triangle_check(0xf2b1b71741491830u64, 229, 2));
    assert(triangle_check(0xf2b1b71741491830u64, 229, 3));
    assert(triangle_check(0xf2b1b71741491830u64, 229, 4));
    assert(edge_check(0xf2b1b71741491830u64, 229, 0));
    assert(edge_check(0xf2b1b71741491830u64, 229, 1));
    assert(edge_check(0xf2b1b71741491830u64, 229, 2));
    assert(edge_check(0xf2b1b71741491830u64, 229, 3));
    assert(edge_check(0xf2b1b71741491830u64, 229, 4));
    assert(edge_check(0xf2b1b71741491830u64, 229, 5));
    assert(edge_check(0xf2b1b71741491830u64, 229, 6));
    assert(edge_check(0xf2b1b71741491830u64, 229, 7));
    assert(edge_check(0xf2b1b71741491830u64, 229, 8));
    assert(edge_check(0xf2b1b71741491830u64, 229, 9));
    assert(edge_check(0xf2b1b71741491830u64, 229, 10));
    assert(edge_check(0xf2b1b71741491830u64, 229, 11));
}

#[verifier::spinoff_prover]
proof fn lemma_row_230()
    ensures
        row_checks(TRI_TABLE[230], 230),
{
    reveal(row_entry);
    reveal(faces_inward);
    reveal(dot);
    reveal(triangle_normal);
    reveal(corner_solid);
    reveal(entry_check);
    reveal(triangle_check);
    reveal(edge_check);
    assert(TRI_TABLE[230] == 0xfffffff0242b4b74u64);
    assert(entry_check(0xfffffff0242b4b74u64, 230, 0));
    assert(entry_check(0xfffffff0242b4b74u64, 230, 1));
    assert(entry_check(0xfffffff0242b4b74u64, 230, 2));
    assert(entry_check(0xfffffff0242b4b74u64, 230, 3));
    assert(entry_check(0xfffffff0242b4b74u64, 230, 4));
    assert(entry_check(0xfffffff0242b4b74u64, 230, 5));
    assert(entry_check(0xfffffff0242b4b74u64, 230, 6));
    assert(entry_check(0xfffffff0242b4b74u64, 230, 7));
    assert(entry_check(0xfffffff0242b4b74u64, 230, 8));
    assert(entry_check(0xfffffff0242b4b74u64, 230, 9));
    assert(entry_check(0xfffffff0242b4b74u64, 230, 10));
    assert(entry_check(0xfffffff0242b4b74u64, 230, 11));
    assert(entry_check(0xfffffff0242b4b74u64, 230, 12));
    assert(entry_check(0xfffffff0242b4b74u64, 230, 13));
    assert(entry_check(0xfffffff0242b4b74u64, 230, 14));
    assert(entry_check(0xfffffff0242b4b74u64, 230, 15));
    assert(triangle_check(0xfffffff0242b4b74u64, 230, 0));
    assert(triangle_check(0xfffffff0242b4b74u64, 230, 1));
    assert(triangle_check(0xfffffff0242b4b74u64, 230, 2));
    assert(triangle_check(0xfffffff0242b4b74u64, 230, 3));
    assert(triangle_check(0xfffffff0242b4b74u64, 230, 4));
    assert(edge_check(0xfffffff0242b4b74u64, 230, 0));
    assert(edge_check(0xfffffff0242b4b74u64, 230, 1));
    assert(edge_check(0xfffffff0242b4b74u64, 230, 2));
    assert(edge_check(0xfffffff0242b4b74u64, 230, 3));
    assert(edge_check(0xfffffff0242b4b74u64, 230, 4));
    assert(edge_check(0xfffffff0242b4b74u64, 230, 5));
    assert(edge_check(0xfffffff0242b4b74u64, 230, 6));
    assert(edge_check(0xfffffff0242b4b74u64, 230, 7));
    assert(edge_check(0xfffffff0242b4b74u64, 230, 8));
    assert(edge_check(0xfffffff0242b4b74u64, 230, 9));
    assert(edge_check(0xfffffff0242b4b74u64, 230, 10));
    assert(edge_check(0xfffffff0242b4b74u64, 230, 11));
}

#[verifier::spinoff_prover]
proof fn lemma_row_231()
    ensures
        row_checks(TRI_TABLE[231], 231),
{
    reveal(row_entry);
    reveal(faces_inward);
    reveal(dot);
    reveal(triangle_normal);
    reveal(corner_solid);
    reveal(entry_check);
    reveal(triangle_check);
    reveal(edge_check);
    assert(TRI_TABLE[231] == 0xffffb72742482832u64);
    assert(entry_check(0xffffb72742482832u64, 231, 0));
    assert(entry_check(0xffffb72742482832u64, 231, 1));
    assert(entry_check(0xffffb72742482832u64, 231, 2));
    assert(entry_check(0xffffb72742482832u64, 231, 3));
    assert(entry_check(0xffffb72742482832u64, 231, 4));
    assert(entry_check(0xffffb72742482832u64, 231, 5));
    assert(entry_check(0xffffb72742482832u64, 231, 6));
    assert(entry_check(0xffffb72742482832u64, 231, 7));
    assert(entry_check(0xffffb72742482832u64, 231, 8));
    assert(entry_check(0xffffb72742482832u64, 231, 9));
    assert(entry_check(0xffffb72742482832u64, 231, 10));
    assert(entry_check(0xffffb72742482832u64, 231, 11));
    assert(entry_check(0xffffb72742482832u64, 231, 12));
    assert(entry_check(0xffffb72742482832u64, 231, 13));
    assert(entry_check(0xffffb72742482832u64, 231, 14));
    assert(entry_check(0xffffb72742482832u64, 231, 15));
    assert(triangle_check(0xffffb72742482832u64, 231, 0));
    assert(triangle_check(0xffffb72742482832u64, 231, 1));
    assert(triangle_check(0xffffb72742482832u64, 231, 2));
    assert(triangle_check(0xffffb72742482832u64, 231, 3));
    assert(triangle_check(0xffffb72742482832u64, 231, 4));
    assert(edge_check(0xffffb72742482832u64, 231, 0));
    assert(edge_check(0xffffb72742482832u64, 231, 1));
    assert(edge_check(0xffffb72742482832u64, 231, 2));
    assert(edge_check(0xffffb72742482832u64, 231, 3));
    assert(edge_check(0xffffb72742482832u64, 231, 4));
    assert(edge_check(0xffffb72742482832u64, 231, 5));
    assert(edge_check(0xffffb72742482832u64, 231, 6));
    assert(edge_check(0xffffb72742482832u64, 231, 7));
    assert(edge_check(0xffffb72742482832u64, 231, 8));
    assert(edge_check(0xffffb72742482832u64, 231, 9));
    assert(edge_check(0xffffb72742482832u64, 231, 10));
    assert(edge_check(0xffffb72742482832u64, 231, 11));
}

#[verifier::spinoff_prover]
proof fn lemma_row_232()
    ensures
        row_checks(TRI_TABLE[232], 232),
{
    reveal(row_entry);
    reveal(faces_inward);
    reveal(dot);
    reveal(triangle_normal);
    reveal(corner_solid);
    reveal(entry_check);
    reveal(triangle_check);
    reveal(edge_check);
    assert(TRI_TABLE[232] == 0xffff23a37a74a49au64);
    assert(entry_check(0xffff23a37a74a49au64, 232, 0));
    assert(entry_check(0xffff23a37a74a49au64, 232, 1));
    assert(entry_check(0xffff23a37a74a49au64, 232, 2));
    assert(entry_check(0xffff23a37a74a49au64, 232, 3));
    assert(entry_check(0xffff23a37a74a49au64, 232, 4));
    assert(entry_check(0xffff23a37a74a49au64, 232, 5));
    assert(entry_check(0xffff23a37a74a49au64, 232, 6));
    assert(entry_check(0xffff23a37a74a49au64, 232, 7));
    assert(entry_check(0xffff23a37a74a49au64, 232, 8));
    assert(entry_check(0xffff23a37a74a49au64, 232, 9));
    assert(entry_check(0xffff23a37a74a49au64, 232, 10));
    assert(entry_check(0xffff23a37a74a49au64, 232, 11));
    assert(entry_check(0xffff23a37a74a49au64, 232, 12));
    assert(entry_check(0xffff23a37a74a49au64, 232, 13));
    assert(entry_check(0xffff23a37a74a49au64, 232, 14));
    assert(entry_check(0xffff23a37a74a49au64, 232, 15));
    assert(triangle_check(0xffff23a37a74a49au64, 232, 0));
    assert(triangle_check(0xffff23a37a74a49au64, 232, 1));
    assert(triangle_check(0xffff23a37a74a49au64, 232, 2));
    assert(triangle_check(0xffff23a37a74a49au64, 232, 3));
    assert(triangle_check(0xffff23a37a74a49au64, 232, 4));
    assert(edge_check(0xffff23a37a74a49au64, 232, 0));
    assert(edge_check(0xffff23a37a74a49au64, 232, 1));
    assert(edge_check(0xffff23a37a74a49au64, 232, 2));
    assert(edge_check(0xffff23a37a74a49au64, 232, 3));
    assert(edge_check(0xffff23a37a74a49au64, 232, 4));
    assert(edge_check(0xffff23a37a74a49au64, 232, 5));
    assert(edge_check(0xffff23a37a74a49au64, 232, 6));
    assert(edge_check(0xffff23a37a74a49au64, 232, 7));
    assert(edge_check(0xffff23a37a74a49au64, 232, 8));
    assert(edge_check(0xffff23a37a74a49au64, 232, 9));
    assert(edge_check(0xffff23a37a74a49au64, 232, 10));
    assert(edge_check(0xffff23a37a74a49au64, 232, 11));
}

#[verifier::spinoff_prover]
proof fn lemma_row_233()
    ensures
        row_checks(TRI_TABLE[233], 233),
{
    reveal(row_entry);
    reveal(faces_inward);
    reveal(dot);
    reveal(triangle_normal);
    reveal(corner_solid);
    reveal(entry_check);
    reveal(triangle_check);
    reveal(edge_check);
    assert(TRI_TABLE[233] == 0xf4979a7a27207087u64);
    assert(entry_check(0xf4979a7a27207087u64, 233, 0));
    assert(entry_check(0xf4979a7a27207087u64, 233, 1));
    assert(entry_check(0xf4979a7a27207087u64, 233, 2));
    assert(entry_check(0xf4979a7a27207087u64, 233, 3));
    assert(entry_check(0xf4979a7a27207087u64, 233, 4));
    assert(entry_check(0xf4979a7a27207087u64, 233, 5));
    assert(entry_check(0xf4979a7a27207087u64, 233, 6));
    assert(entry_check(0xf4979a7a27207087u64, 233, 7));
    assert(entry_check(0xf4979a7a27207087u64, 233, 8));
    assert(entry_check(0xf4979a7a27207087u64, 233, 9));
    assert(entry_check(0xf4979a7a27207087u64, 233, 10));
    assert(entry_check(0xf4979a7a27207087u64, 233, 11));
    assert(entry_check(0xf4979a7a27207087u64, 233, 12));
    assert(entry_check(0xf4979a7a27207087u64, 233, 13));
    assert(entry_check(0xf4979a7a27207087u64, 233, 14));
    assert(entry_check(0xf4979a7a27207087u64, 233, 15));
    assert(triangle_check(0xf4979a7a27207087u64, 233, 0));
    assert(triangle_check(0xf4979a7a27207087u64, 233, 1));
    assert(triangle_check(0xf4979a7a27207087u64, 233, 2));
    assert(triangle_check(0xf4979a7a27207087u64, 233, 3));
    assert(triangle_check(0xf4979a7a27207087u64, 233, 4));
    assert(edge_check(0xf4979a7a27207087u64, 233, 0));
    assert(edge_check(0xf4979a7a27207087u64, 233, 1));
    assert(edge_check(0xf4979a7a27207087u64, 233, 2));
    assert(edge_check(0xf4979a7a27207087u64, 233, 3));
    assert(edge_check(0xf4979a7a27207087u64, 233, 4));
    assert(edge_check(0xf4979a7a27207087u64, 233, 5));
    assert(edge_check(0xf4979a7a27207087u64, 233, 6));
    assert(edge_check(0xf4979a7a27207087u64, 233, 7));
    assert(edge_check(0xf4979a7a27207087u64, 233, 8));
    assert(edge_check(0xf4979a7a27207087u64, 233, 9));
    assert(edge_check(0xf4979a7a27207087u64, 233, 10));
    assert(edge_check(0xf4979a7a27207087u64, 233, 11));
}

#[verifier::spinoff_prover]
proof fn lemma_row_234()
    ensures
        row_checks(TRI_TABLE[234], 234),
{
    reveal(row_entry);
    reveal(faces_inward);
    reveal(dot);
    reveal(triangle_normal);
    reveal(corner_solid);
    reveal(entry_check);
    reveal(triangle_check);
    reveal(edge_check);
    assert(TRI_TABLE[234] == 0xf23a37a74a40a01au64);
    assert(entry_check(0xf23a37a74a40a01au64, 234, 0));
    assert(entry_check(0xf23a37a74a40a01au64, 234, 1));
    assert(entry_check(0xf23a37a74a40a01au64, 234, 2));
    assert(entry_check(0xf23a37a74a40a01au64, 234, 3));
    assert(entry_check(0xf23a37a74a40a01au64, 234, 4));
    assert(entry_check(0xf23a37a74a40a01au64, 234, 5));
    assert(entry_check(0xf23a37a74a40a01au64, 234, 6));
    assert(entry_check(0xf23a37a74a40a01au64, 234, 7));
    assert(entry_check(0xf23a37a74a40a01au64, 234, 8));
    assert(entry_check(0xf23a37a74a40a01au64, 234, 9));
    assert(entry_check(0xf23a37a74a40a01au64, 234, 10));
    assert(entry_check(0xf23a37a74a40a01au64, 234, 11));
    assert(entry_check(0xf23a37a74a40a01au64, 234, 12));
    assert(entry_check(0xf23a37a74a40a01au64, 234, 13));
    assert(entry_check(0xf23a37a74a40a01au64, 234, 14));
    assert(entry_check(0xf23a37a74a40a01au64, 234, 15));
    assert(triangle_check(0xf23a37a74a40a01au64, 234, 0));
    assert(triangle_check(0xf23a37a74a40a01au64, 234, 1));
    assert(triangle_check(0xf23a37a74a40a01au64, 234, 2));
    assert(triangle_check(0xf23a37a74a40a01au64, 234, 3));
    assert(triangle_check(0xf23a37a74a40a01au64, 234, 4));
    assert(edge_check(0xf23a37a74a40a01au64, 234, 0));
    assert(edge_check(0xf23a37a74a40a01au64, 234, 1));
    assert(edge_check(0xf23a37a74a40a01au64, 234, 2));
    assert(edge_check(0xf23a37a74a40a01au64, 234, 3));
    assert(edge_check(0xf23a37a74a40a01au64, 234, 4));
    assert(edge_check(0xf23a37a74a40a01au64, 234, 5));
    assert(edge_check(0xf23a37a74a40a01au64, 234, 6));
    assert(edge_check(0xf23a37a74a40a01au64, 234, 7));
    assert(edge_check(0xf23a37a74a40a01au64, 234, 8));
    assert(edge_check(0xf23a37a74a40a01au64, 234, 9));
    assert(edge_check(0xf23a37a74a40a01au64, 234, 10));
    assert(edge_check(0xf23a37a74a40a01au64, 234, 11));
}

#[verifier::spinoff_prover]
proof fn lemma_row_235()
    ensures
        row_checks(TRI_TABLE[235], 235),
{
    reveal(row_entry);
    reveal(faces_inward);
    reveal(dot);
    reveal(triangle_normal);
    reveal(corner_solid);
    reveal(entry_check);
    reveal(triangle_check);
    reveal(edge_check);
    assert(TRI_TABLE[235] == 0xffffffffff8741a2u64);
    assert(entry_check(0xffffffffff8741a2u64, 235, 0));
    assert(entry_check(0xffffffffff8741a2u64, 235, 1));
    assert(entry_check(0xffffffffff8741a2u64, 235, 2));
    assert(entry_check(0xffffffffff8741a2u64, 235, 3));
    assert(entry_check(0xffffffffff8741a2u64, 235, 4));
    assert(entry_check(0xffffffffff8741a2u64, 235, 5));
    assert(entry_check(0xffffffffff8741a2u64, 235, 6));
    assert(entry_check(0xffffffffff8741a2u64, 235, 7));
    assert(entry_check(0xffffffffff8741a2u64, 235, 8));
    assert(entry_check(0xffffffffff8741a2u64, 235, 9));
    assert(entry_check(0xffffffffff8741a2u64, 235, 10));
    assert(entry_check(0xffffffffff8741a2u64, 235, 11));
    assert(entry_check(0xffffffffff8741a2u64, 235, 12));
    assert(entry_check(0xffffffffff8741a2u64, 235, 13));
    assert(entry_check(0xffffffffff8741a2u64, 235, 14));
    assert(entry_check(0xffffffffff8741a2u64, 235, 15));
    assert(triangle_check(0xffffffffff8741a2u64, 235, 0));
    assert(triangle_check(0xffffffffff8741a2u64, 235, 1));
    assert(triangle_check(0xffffffffff8741a2u64, 235, 2));
    assert(triangle_check(0xffffffffff8741a2u64, 235, 3));
    assert(triangle_check(0xffffffffff8741a2u64, 235, 4));
    assert(edge_check(0xffffffffff8741a2u64, 235, 0));
    assert(edge_check(0xffffffffff8741a2u64, 235, 1));
    assert(edge_check(0xffffffffff8741a2u64, 235, 2));
    assert(edge_check(0xffffffffff8741a2u64, 235, 3));
    assert(edge_check(0xffffffffff8741a2u64, 235, 4));
    assert(edge_check(0xffffffffff8741a2u64, 235, 5));
    assert(edge_check(0xffffffffff8741a2u64, 235, 6));
    assert(edge_check(0xffffffffff8741a2u64, 235, 7));
    assert(edge_check(0xffffffffff8741a2u64, 235, 8));
    assert(edge_check(0xffffffffff8741a2u64, 235, 9));
    assert(edge_check(0xffffffffff8741a2u64, 235, 10));
    assert(edge_check(0xffffffffff8741a2u64, 235, 11));
}

#[verifier::spinoff_prover]
proof fn lemma_row_236()
    ensures
        row_checks(TRI_TABLE[236], 236),
{
    reveal(row_entry);
    reveal(faces_inward);
    reveal(dot);
    reveal(triangle_normal);
    reveal(corner_solid);
    reveal(entry_check);
    reveal(triangle_check);
    reveal(edge_check);
    assert(TRI_TABLE[236] == 0xfffffff371741491u64);
    assert(entry_check(0xfffffff371741491u64, 236, 0));
    assert(entry_check(0xfffffff371741491u64, 236, 1));
    assert(entry_check(0xfffffff371741491u64, 236, 2));
    assert(entry_check(0xfffffff371741491u64, 236, 3));
    assert(entry_check(0xfffffff371741491u64, 236, 4));
    assert(entry_check(0xfffffff371741491u64, 236, 5));
    assert(entry_check(0xfffffff371741491u64, 236, 6));
    assert(entry_check(0xfffffff371741491u64, 236, 7));
    assert(entry_check(0xfffffff371741491u64, 236, 8));
    assert(entry_check(0xfffffff371741491u64, 236, 9));
    assert(entry_check(0xfffffff371741491u64, 236, 10));
    assert(entry_check(0xfffffff371741491u64, 236, 11));
    assert(entry_check(0xfffffff371741491u64, 236, 12));
    assert(entry_check(0xfffffff371741491u64, 236, 13));
    assert(entry_check(0xfffffff371741491u64, 236, 14));
    assert(entry_check(0xfffffff371741491u64, 236, 15));
    assert(triangle_check(0xfffffff371741491u64, 236, 0));
    assert(triangle_check(0xfffffff371741491u64, 236, 1));
    assert(triangle_check(0xfffffff371741491u64, 236, 2));
    assert(triangle_check(0xfffffff371741491u64, 236, 3));
    assert(triangle_check(0xfffffff371741491u64, 236, 4));
    assert(edge_check(0xfffffff371741491u64, 236, 0));
    assert(edge_check(0xfffffff371741491u64, 236, 1));
    assert(edge_check(0xfffffff371741491u64, 236, 2));
    assert(edge_check(0xfffffff371741491u64, 236, 3));
    assert(edge_check(0xfffffff371741491u64, 236, 4));
    assert(edge_check(0xfffffff371741491u64, 236, 5));
    assert(edge_check(0xfffffff371741491u64, 236, 6));
    assert(edge_check(0xfffffff371741491u64, 236, 7));
    assert(edge_check(0xfffffff371741491u64, 236, 8));
    assert(edge_check(0xfffffff371741491u64, 236, 9));
    assert(edge_check(0xfffffff371741491u64, 236, 10));
    assert(edge_check(0xfffffff371741491u64, 236, 11));
}

#[verifier::spinoff_prover]
proof fn lemma_row_237()
    ensures
        row_checks(TRI_TABLE[237], 237),
{
    reveal(row_entry);
    reveal(faces_inward);
    reveal(dot);
    reveal(triangle_normal);
    reveal(corner_solid);
    reveal(entry_check);
    reveal(triangle_check);
    reveal(edge_check);
    assert(TRI_TABLE[237] == 0xffff081871741491u64);
    assert(entry_check(0xffff081871741491u64, 237, 0));
    assert(entry_check(0xffff081871741491u64, 237, 1));
    assert(entry_check(0xffff081871741491u64, 237, 2));
    assert(entry_check(0xffff081871741491u64, 237, 3));
    assert(entry_check(0xffff081871741491u64, 237, 4));
    assert(entry_check(0xffff081871741491u64, 237, 5));
    assert(entry_check(0xffff081871741491u64, 237, 6));
    assert(entry_check(0xffff081871741491u64, 237, 7));
    assert(entry_check(0xffff081871741491u64, 237, 8));
    assert(entry_check(0xffff081871741491u64, 237, 9));
    assert(entry_check(0xffff081871741491u64, 237, 10));
    assert(entry_check(0xffff081871741491u64, 237, 11));
    assert(entry_check(0xffff081871741491u64, 237, 12));
    assert(entry_check(0xffff081871741491u64, 237, 13));
    assert(entry_check(0xffff081871741491u64, 237, 14));
    assert(entry_check(0xffff081871741491u64, 237, 15));
    assert(triangle_check(0xffff081871741491u64, 237, 0));
    assert(triangle_check(0xffff081871741491u64, 237, 1));
    assert(triangle_check(0xffff081871741491u64, 237, 2));
    assert(triangle_check(0xffff081871741491u64, 237, 3));
    assert(triangle_check(0xffff081871741491u64, 237, 4));
    assert(edge_check(0xffff081871741491u64, 237, 0));
    assert(edge_check(0xffff081871741491u64, 237, 1));
    assert(edge_check(0xffff081871741491u64, 237, 2));
    assert(edge_check(0xffff081871741491u64, 237, 3));
    assert(edge_check(0xffff081871741491u64, 237, 4));
    assert(edge_check(0xffff081871741491u64, 237, 5));
    assert(edge_check(0xffff081871741491u64, 237, 6));
    assert(edge_check(0xffff081871741491u64, 237, 7));
    assert(edge_check(0xffff081871741491u64, 237, 8));
    assert(edge_check(0xffff081871741491u64, 237, 9));
    assert(edge_check(0xffff081871741491u64, 237, 10));
    assert(edge_check(0xffff081871741491u64, 237, 11));
}

#[verifier::spinoff_prover]
proof fn lemma_row_238()
    ensures
        row_checks(TRI_TABLE[238], 238),
{
    reveal(row_entry);
    reveal(faces_inward);
    reveal(dot);
    reveal(triangle_normal);
    reveal(corner_solid);
    reveal(entry_check);
    reveal(triangle_check);
    reveal(edge_check);
    assert(TRI_TABLE[238] == 0xffffffffff034374u64);
    assert(entry_check(0xffffffffff034374u64, 238, 0));
    assert(entry_check(0xffffffffff034374u64, 238, 1));
    assert(entry_check(0xffffffffff034374u64, 238, 2));
    assert(entry_check(0xffffffffff034374u64, 238, 3));
    assert(entry_check(0xffffffffff034374u64, 238, 4));
    assert(entry_check(0xffffffffff034374u64, 238, 5));
    assert(entry_check(0xffffffffff034374u64, 238, 6));
    assert(entry_check(0xffffffffff034374u64, 238, 7));
    assert(entry_check(0xffffffffff034374u64, 238, 8));
    assert(entry_check(0xffffffffff034374u64, 238, 9));
    assert(entry_check(0xffffffffff034374u64, 238, 10));
    assert(entry_check(0xffffffffff034374u64, 238, 11));
    assert(entry_check(0xffffffffff034374u64, 238, 12));
    assert(entry_check(0xffffffffff034374u64, 238, 13));
    assert(entry_check(0xffffffffff034374u64, 238, 14));
    assert(entry_check(0xffffffffff034374u64, 238, 15));
    assert(triangle_check(0xffffffffff034374u64, 238, 0));
    assert(triangle_check(0xffffffffff034374u64, 238, 1));
    assert(triangle_check(0xffffffffff034374u64, 238, 2));
    assert(triangle_check(0xffffffffff034374u64, 238, 3));
    assert(triangle_check(0xffffffffff034374u64, 238, 4));
    assert(edge_check(0xffffffffff034374u64, 238, 0));
    assert(edge_check(0xffffffffff034374u64, 238, 1));
    assert(edge_check(0xffffffffff034374u64, 238, 2));
    assert(edge_check(0xffffffffff034374u64, 238, 3));
    assert(edge_check(0xffffffffff034374u64, 238, 4));
    assert(edge_check(0xffffffffff034374u64, 238, 5));
    assert(edge_check(0xffffffffff034374u64, 238, 6));
    assert(edge_check(0xffffffffff034374u64, 238, 7));
    assert(edge_check(0xffffffffff034374u64, 238, 8));
    assert(edge_check(0xffffffffff034374u64, 238, 9));
    assert(edge_check(0xffffffffff034374u64, 238, 10));
    assert(edge_check(0xffffffffff034374u64, 238, 11));
}

#[verifier::spinoff_prover]
proof fn lemma_row_239()
    ensures
        row_checks(TRI_TABLE[239], 239),
{
    reveal(row_entry);
    reveal(faces_inward);
    reveal(dot);
    reveal(triangle_normal);
    reveal(corner_solid);
    reveal(entry_check);
    reveal(triangle_check);
    reveal(edge_check);
    assert(TRI_TABLE[239] == 0xfffffffffffff874u64);
    assert(entry_check(0xfffffffffffff874u64, 239, 0));
    assert(entry_check(0xfffffffffffff874u64, 239, 1));
    assert(entry_check(0xfffffffffffff874u64, 239, 2));
    assert(entry_check(0xfffffffffffff874u64, 239, 3));
    assert(entry_check(0xfffffffffffff874u64, 239, 4));
    assert(entry_check(0xfffffffffffff874u64, 239, 5));
    assert(entry_check(0xfffffffffffff874u64, 239, 6));
    assert(entry_check(0xfffffffffffff874u64, 239, 7));
    assert(entry_check(0xfffffffffffff874u64, 239, 8));
    assert(entry_check(0xfffffffffffff874u64, 239, 9));
    assert(entry_check(0xfffffffffffff874u64, 239, 10));
    assert(entry_check(0xfffffffffffff874u64, 239, 11));
    assert(entry_check(0xfffffffffffff874u64, 239, 12));
    assert(entry_check(0xfffffffffffff874u64, 239, 13));
    assert(entry_check(0xfffffffffffff874u64, 239, 14));
    assert(entry_check(0xfffffffffffff874u64, 239, 15));
    assert(triangle_check(0xfffffffffffff874u64, 239, 0));
    assert(triangle_check(0xfffffffffffff874u64, 239, 1));
    assert(triangle_check(0xfffffffffffff874u64, 239, 2));
    assert(triangle_check(0xfffffffffffff874u64, 239, 3));
    assert(triangle_check(0xfffffffffffff874u64, 239, 4));
    assert(edge_check(0xfffffffffffff874u64, 239, 0));
    assert(edge_check(0xfffffffffffff874u64, 239, 1));
    assert(edge_check(0xfffffffffffff874u64, 239, 2));
    assert(edge_check(0xfffffffffffff874u64, 239, 3));
    assert(edge_check(0xfffffffffffff874u64, 239, 4));
    assert(edge_check(0xfffffffffffff874u64, 239, 5));
    assert(edge_check(0xfffffffffffff874u64, 239, 6));
    assert(edge_check(0xfffffffffffff874u64, 239, 7));
    assert(edge_check(0xfffffffffffff874u64, 239, 8));
    assert(edge_check(0xfffffffffffff874u64, 239, 9));
    assert(edge_check(0xfffffffffffff874u64, 239, 10));
    assert(edge_check(0xfffffffffffff874u64, 239, 11));
}

#[verifier::spinoff_prover]
proof fn lemma_row_240()
    ensures
        row_checks(TRI_TABLE[240], 240),
{
    reveal(row_entry);
    reveal(faces_inward);
    reveal(dot);
    reveal(triangle_normal);
    reveal(corner_solid);
    reveal(entry_check);
    reveal(triangle_check);
    reveal(edge_check);
    assert(TRI_TABLE[240] == 0xffffffffff9a8ab8u64);
    assert(entry_check(0xffffffffff9a8ab8u64, 240, 0));
    assert(entry_check(0xffffffffff9a8ab8u64, 240, 1));
    assert(entry_check(0xffffffffff9a8ab8u64, 240, 2));
    assert(entry_check(0xffffffffff9a8ab8u64, 240, 3));
    assert(entry_check(0xffffffffff9a8ab8u64, 240, 4));
    assert(entry_check(0xffffffffff9a8ab8u64, 240, 5));
    assert(entry_check(0xffffffffff9a8ab8u64, 240, 6));
    assert(entry_check(0xffffffffff9a8ab8u64, 240, 7));
    assert(entry_check(0xffffffffff9a8ab8u64, 240, 8));
    assert(entry_check(0xffffffffff9a8ab8u64, 240, 9));
    assert(entry_check(0xffffffffff9a8ab8u64, 240, 10));
    assert(entry_check(0xffffffffff9a8ab8u64, 240, 11));
    assert(entry_check(0xffffffffff9a8ab8u64, 240, 12));
    assert(entry_check(0xffffffffff9a8ab8u64, 240, 13));
    assert(entry_check(0xffffffffff9a8ab8u64, 240, 14));
    assert(entry_check(0xffffffffff9a8ab8u64, 240, 15));
    assert(triangle_check(0xffffffffff9a8ab8u64, 240, 0));
    assert(triangle_check(0xffffffffff9a8ab8u64, 240, 1));
    assert(triangle_check(0xffffffffff9a8ab8u64, 240, 2));
    assert(triangle_check(0xffffffffff9a8ab8u64, 240, 3));
    assert(triangle_check(0xffffffffff9a8ab8u64, 240, 4));
    assert(edge_check(0xffffffffff9a8ab8u64, 240, 0));
    assert(edge_check(0xffffffffff9a8ab8u64, 240, 1));
    assert(edge_check(0xffffffffff9a8ab8u64, 240, 2));
    assert(edge_check(0xffffffffff9a8ab8u64, 240, 3));
    assert(edge_check(0xffffffffff9a8ab8u64, 240, 4));
    assert(edge_check(0xffffffffff9a8ab8u64, 240, 5));
    assert(edge_check(0xffffffffff9a8ab8u64, 240, 6));
    assert(edge_check(0xffffffffff9a8ab8u64, 240, 7));
    assert(edge_check(0xffffffffff9a8ab8u64, 240, 8));
    assert(edge_check(0xffffffffff9a8ab8u64, 240, 9));
    assert(edge_check(0xffffffffff9a8ab8u64, 240, 10));
    assert(edge_check(0xffffffffff9a8ab8u64, 240, 11));
}

#[verifier::spinoff_prover]
proof fn lemma_row_241()
    ensures
        row_checks(TRI_TABLE[241], 241),
{
    reveal(row_entry);
    reveal(faces_inward);
    reveal(dot);
    reveal(triangle_normal);
    reveal(corner_solid);
    reveal(entry_check);
    reveal(triangle_check);
    reveal(edge_check);
    assert(TRI_TABLE[241] == 0xfffffff30b09b9abu64);
    assert(entry_check(0xfffffff30b09b9abu64, 241, 0));
    assert(entry_check(0xfffffff30b09b9abu64, 241, 1));
    assert(entry_check(0xfffffff30b09b9abu64, 241, 2));
    assert(entry_check(0xfffffff30b09b9abu64, 241, 3));
    assert(entry_check(0xfffffff30b09b9abu64, 241, 4));
    assert(entry_check(0xfffffff30b09b9abu64, 241, 5));
    assert(entry_check(0xfffffff30b09b9abu64, 241, 6));
    assert(entry_check(0xfffffff30b09b9abu64, 241, 7));
    assert(entry_check(0xfffffff30b09b9abu64, 241, 8));
    assert(entry_check(0xfffffff30b09b9abu64, 241, 9));
    assert(entry_check(0xfffffff30b09b9abu64, 241, 10));
    assert(entry_check(0xfffffff30b09b9abu64, 241, 11));
    assert(entry_check(0xfffffff30b09b9abu64, 241, 12));
    assert(entry_check(0xfffffff30b09b9abu64, 241, 13));
    assert(entry_check(0xfffffff30b09b9abu64, 241, 14));
    assert(entry_check(0xfffffff30b09b9abu64, 241, 15));
    assert(triangle_check(0xfffffff30b09b9abu64, 241, 0));
    assert(triangle_check(0xfffffff30b09b9abu64, 241, 1));
    assert(triangle_check(0xfffffff30b09b9abu64, 241, 2));
    assert(triangle_check(0xfffffff30b09b9abu64, 241, 3));
    assert(triangle_check(0xfffffff30b09b9abu64, 241, 4));
    assert(edge_check(0xfffffff30b09b9abu64, 241, 0));
    assert(edge_check(0xfffffff30b09b9abu64, 241, 1));
    assert(edge_check(0xfffffff30b09b9abu64, 241, 2));
    assert(edge_check(0xfffffff30b09b9abu64, 241, 3));
    assert(edge_check(0xfffffff30b09b9abu64, 241, 4));
    assert(edge_check(0xfffffff30b09b9abu64, 241, 5));
    assert(edge_check(0xfffffff30b09b9abu64, 241, 6));
    assert(edge_check(0xfffffff30b09b9abu64, 241, 7));
    assert(edge_check(0xfffffff30b09b9abu64, 241, 8));
    assert(edge_check(0xfffffff30b09b9abu64, 241, 9));
    assert(edge_check(0xfffffff30b09b9abu64, 241, 10));
    assert(edge_check(0xfffffff30b09b9abu64, 241, 11));
}

#[verifier::spinoff_prover]
proof fn lemma_row_242()
    ensures
        row_checks(TRI_TABLE[242], 242),
{
    reveal(row_entry);
    reveal(faces_inward);
    reveal(dot);
    reveal(triangle_normal);
    reveal(corner_solid);
    reveal(entry_check);
    reveal(triangle_check);
    reveal(edge_check);
    assert(TRI_TABLE[242] == 0xfffffff0181a8ab8u64);
    assert(entry_check(0xfffffff0181a8ab8u64, 242, 0));
    assert(entry_check(0xfffffff0181a8ab8u64, 242, 1));
    assert(entry_check(0xfffffff0181a8ab8u64, 242, 2));
    assert(entry_check(0xfffffff0181a8ab8u64, 242, 3));
    assert(entry_check(0xfffffff0181a8ab8u64, 242, 4));
    assert(entry_check(0xfffffff0181a8ab8u64, 242, 5));
    assert(entry_check(0xfffffff0181a8ab8u64, 242, 6));
    assert(entry_check(0xfffffff0181a8ab8u64, 242, 7));
    assert(entry_check(0xfffffff0181a8ab8u64, 242, 8));
    assert(entry_check(0xfffffff0181a8ab8u64, 242, 9));
    assert(entry_check(0xfffffff0181a8ab8u64, 242, 10));
    assert(entry_check(0xfffffff0181a8ab8u64, 242, 11));
    assert(entry_check(0xfffffff0181a8ab8u64, 242, 12));
    assert(entry_check(0xfffffff0181a8ab8u64, 242, 13));
    assert(entry_check(0xfffffff0181a8ab8u64, 242, 14));
    assert(entry_check(0xfffffff0181a8ab8u64, 242, 15));
    assert(triangle_check(0xfffffff0181a8ab8u64, 242, 0));
    assert(triangle_check(0xfffffff0181a8ab8u64, 242, 1));
    assert(triangle_check(0xfffffff0181a8ab8u64, 242, 2));
    assert(triangle_check(0xfffffff0181a8ab8u64, 242, 3));
    assert(triangle_check(0xfffffff0181a8ab8u64, 242, 4));
    assert(edge_check(0xfffffff0181a8ab8u64, 242, 0));
    assert(edge_check(0xfffffff0181a8ab8u64, 242, 1));
    assert(edge_check(0xfffffff0181a8ab8u64, 242, 2));
    assert(edge_check(0xfffffff0181a8ab8u64, 242, 3));
    assert(edge_check(0xfffffff0181a8ab8u64, 242, 4));
    assert(edge_check(0xfffffff0181a8ab8u64, 242, 5));
    assert(edge_check(0xfffffff0181a8ab8u64, 242, 6));
    assert(edge_check(0xfffffff0181a8ab8u64, 242, 7));
    assert(edge_check(0xfffffff0181a8ab8u64, 242, 8));
    assert(edge_check(0xfffffff0181a8ab8u64, 242, 9));
    assert(edge_check(0xfffffff0181a8ab8u64, 242, 10));
    assert(edge_check(0xfffffff0181a8ab8u64, 242, 11));
}

#[verifier::spinoff_prover]
proof fn lemma_row_243()
    ensures
        row_checks(TRI_TABLE[243], 243),
{
    reveal(row_entry);
    reveal(faces_inward);
    reveal(dot);
    reveal(triangle_normal);
    reveal(corner_solid);
    reveal(entry_check);
    reveal(triangle_check);
    reveal(edge_check);
    assert(TRI_TABLE[243] == 0xffffffffff1a3ab3u64);
    assert(entry_check(0xffffffffff1a3ab3u64, 243, 0));
    assert(entry_check(0xffffffffff1a3ab3u64, 243, 1));
    assert(entry_check(0xffffffffff1a3ab3u64, 243, 2));
    assert(entry_check(0xffffffffff1a3ab3u64, 243, 3));
    assert(entry_check(0xffffffffff1a3ab3u64, 243, 4));
    assert(entry_check(0xffffffffff1a3ab3u64, 243, 5));
    assert(entry_check(0xffffffffff1a3ab3u64, 243, 6));
    assert(entry_check(0xffffffffff1a3ab3u64, 243, 7));
    assert(entry_check(0xffffffffff1a3ab3u64, 243, 8));
    assert(entry_check(0xffffffffff1a3ab3u64, 243, 9));
    assert(entry_check(0xffffffffff1a3ab3u64, 243, 10));
    assert(entry_check(0xffffffffff1a3ab3u64, 243, 11));
    assert(entry_check(0xffffffffff1a3ab3u64, 243, 12));
    assert(entry_check(0xffffffffff1a3ab3u64, 243, 13));
    assert(entry_check(0xffffffffff1a3ab3u64, 243, 14));
    assert(entry_check(0xffffffffff1a3ab3u64, 243, 15));
    assert(triangle_check(0xffffffffff1a3ab3u64, 243, 0));
    assert(triangle_check(0xffffffffff1a3ab3u64, 243, 1));
    assert(triangle_check(0xffffffffff1a3ab3u64, 243, 2));
    assert(triangle_check(0xffffffffff1a3ab3u64, 243, 3));
    assert(triangle_check(0xffffffffff1a3ab3u64, 243, 4));
    assert(edge_check(0xffffffffff1a3ab3u64, 243, 0));
    assert(edge_check(0xffffffffff1a3ab3u64, 243, 1));
    assert(edge_check(0xffffffffff1a3ab3u64, 243, 2));
    assert(edge_check(0xffffffffff1a3ab3u64, 243, 3));
    assert(edge_check(0xffffffffff1a3ab3u64, 243, 4));
    assert(edge_check(0xffffffffff1a3ab3u64, 243, 5));
    assert(edge_check(0xffffffffff1a3ab3u64, 243, 6));
    assert(edge_check(0xffffffffff1a3ab3u64, 243, 7));
    assert(edge_check(0xffffffffff1a3ab3u64, 243, 8));
    assert(edge_check(0xffffffffff1a3ab3u64, 243, 9));
    assert(edge_check(0xffffffffff1a3ab3u64, 243, 10));
    assert(edge_check(0xffffffffff1a3ab3u64, 243, 11));
}

#[verifier::spinoff_prover]
proof fn lemma_row_244()
    ensures
        row_checks(TRI_TABLE[244], 244),
{
    reveal(row_entry);
    reveal(faces_inward);
    reveal(dot);
    reveal(triangle_normal);
    reveal(corner_solid);
    reveal(entry_check);
    reveal(triangle_check);
    reveal(edge_check);
    assert(TRI_TABLE[244] == 0xfffffff1292b9b89u64);
    assert(entry_check(0xfffffff1292b9b89u64, 244, 0));
    assert(entry_check(0xfffffff1292b9b89u64, 244, 1));
    assert(entry_check(0xfffffff1292b9b89u64, 244, 2));
    assert(entry_check(0xfffffff1292b9b89u64, 244, 3));
    assert(entry_check(0xfffffff1292b9b89u64, 244, 4));
    assert(entry_check(0xfffffff1292b9b89u64, 244, 5));
    assert(entry_check(0xfffffff1292b9b89u64, 244, 6));
    assert(entry_check(0xfffffff1292b9b89u64, 244, 7));
    assert(entry_check(0xfffffff1292b9b89u64, 244, 8));
    assert(entry_check(0xfffffff1292b9b89u64, 244, 9));
    assert(entry_check(0xfffffff1292b9b89u64, 244, 10));
    assert(entry_check(0xfffffff1292b9b89u64, 244, 11));
    assert(entry_check(0xfffffff1292b9b89u64, 244, 12));
    assert(entry_check(0xfffffff1292b9b89u64, 244, 13));
    assert(entry_check(0xfffffff1292b9b89u64, 244, 14));
    assert(entry_check(0xfffffff1292b9b89u64, 244, 15));
    assert(triangle_check(0xfffffff1292b9b89u64, 244, 0));
    assert(triangle_check(0xfffffff1292b9b89u64, 244, 1));
    assert(triangle_check(0xfffffff1292b9b89u64, 244, 2));
    assert(triangle_check(0xfffffff1292b9b89u64, 244, 3));
    assert(triangle_check(0xfffffff1292b9b89u64, 244, 4));
    assert(edge_check(0xfffffff1292b9b89u64, 244, 0));
    assert(edge_check(0xfffffff1292b9b89u64, 244, 1));
    assert(edge_check(0xfffffff1292b9b89u64, 244, 2));
    assert(edge_check(0xfffffff1292b9b89u64, 244, 3));
    assert(edge_check(0xfffffff1292b9b89u64, 244, 4));
    assert(edge_check(0xfffffff1292b9b89u64, 244, 5));
    assert(edge_check(0xfffffff1292b9b89u64, 244, 6));
    assert(edge_check(0xfffffff1292b9b89u64, 244, 7));
    assert(edge_check(0xfffffff1292b9b89u64, 244, 8));
    assert(edge_check(0xfffffff1292b9b89u64, 244, 9));
    assert(edge_check(0xfffffff1292b9b89u64, 244, 10));
    assert(edge_check(0xfffffff1292b9b89u64, 244, 11));
}

#[verifier::spinoff_prover]
proof fn lemma_row_245()
    ensures
        row_checks(TRI_TABLE[245], 245),
{
    reveal(row_entry);
    reveal(faces_inward);
    reveal(dot);
    reveal(triangle_normal);
    reveal(corner_solid);
    reveal(entry_check);
    reveal(triangle_check);
    reveal(edge_check);
    assert(TRI_TABLE[245] == 0xffff30b09b91b12bu64);
    assert(entry_check(0xffff30b09b91b12bu64, 245, 0));
    assert(entry_check(0xffff30b09b91b12bu64, 245, 1));
    assert(entry_check(0xffff30b09b91b12bu64, 245, 2));
    assert(entry_check(0xffff30b09b91b12bu64, 245, 3));
    assert(entry_check(0xffff30b09b91b12bu64, 245, 4));
    assert(entry_check(0xffff30b09b91b12bu64, 245, 5));
    assert(entry_check(0xffff30b09b91b12bu64, 245, 6));
    assert(entry_check(0xffff30b09b91b12bu64, 245, 7));
    assert(entry_check(0xffff30b09b91b12bu64, 245, 8));
    assert(entry_check(0xffff30b09b91b12bu64, 245, 9));
    assert(entry_check(0xffff30b09b91b12bu64, 245, 10));
    assert(entry_check(0xffff30b09b91b12bu64, 245, 11));
    assert(entry_check(0xffff30b09b91b12bu64, 245, 12));
    assert(entry_check(0xffff30b09b91b12bu64, 245, 13));
    assert(entry_check(0xffff30b09b91b12bu64, 245, 14));
    assert(entry_check(0xffff30b09b91b12bu64, 245, 15));
    assert(triangle_check(0xffff30b09b91b12bu64, 245, 0));
    assert(triangle_check(0xffff30b09b91b12bu64, 245, 1));
    assert(triangle_check(0xffff30b09b91b12bu64, 245, 2));
    assert(triangle_check(0xffff30b09b91b12bu64, 245, 3));
    assert(triangle_check(0xffff30b09b91b12bu64, 245, 4));
    assert(edge_check(0xffff30b09b91b12bu64, 245, 0));
    assert(edge_check(0xffff30b09b91b12bu64, 245, 1));
    assert(edge_check(0xffff30b09b91b12bu64, 245, 2));
    assert(edge_check(0xffff30b09b91b12bu64, 245, 3));
    assert(edge_check(0xffff30b09b91b12bu64, 245, 4));
    assert(edge_check(0xffff30b09b91b12bu64, 245, 5));
    assert(edge_check(0xffff30b09b91b12bu64, 245, 6));
    assert(edge_check(0xffff30b09b91b12bu64, 245, 7));
    assert(edge_check(0xffff30b09b91b12bu64, 245, 8));
    assert(edge_check(0xffff30b09b91b12bu64, 245, 9));
    assert(edge_check(0xffff30b09b91b12bu64, 245, 10));
    assert(edge_check(0xffff30b09b91b12bu64, 245, 11));
}

#[verifier::spinoff_prover]
proof fn lemma_row_246()
    ensures
        row_checks(TRI_TABLE[246], 246),
{
    reveal(row_entry);
    reveal(faces_inward);
    reveal(dot);
    reveal(triangle_normal);
    reveal(corner_solid);
    reveal(entry_check);
    reveal(triangle_check);
    reveal(edge_check);
    assert(TRI_TABLE[246] == 0xffffffffff0282b8u64);
    assert(entry_check(0xffffffffff0282b8u64, 246, 0));
    assert(entry_check(0xffffffffff0282b8u64, 246, 1));
    assert(entry_check(0xffffffffff0282b8u64, 246, 2));
    assert(entry_check(0xffffffffff0282b8u64, 246, 3));
    assert(entry_check(0xffffffffff0282b8u64, 246, 4));
    assert(entry_check(0xffffffffff0282b8u64, 246, 5));
    assert(entry_check(0xffffffffff0282b8u64, 246, 6));
    assert(entry_check(0xffffffffff0282b8u64, 246, 7));
    assert(entry_check(0xffffffffff0282b8u64, 246, 8));
    assert(entry_check(0xffffffffff0282b8u64, 246, 9));
    assert(entry_check(0xffffffffff0282b8u64, 246, 10));
    assert(entry_check(0xffffffffff0282b8u64, 246, 11));
    assert(entry_check(0xffffffffff0282b8u64, 246, 12));
    assert(entry_check(0xffffffffff0282b8u64, 246, 13));
    assert(entry_check(0xffffffffff0282b8u64, 246, 14));
    assert(entry_check(0xffffffffff0282b8u64, 246, 15));
    assert(triangle_check(0xffffffffff0282b8u64, 246, 0));
    assert(triangle_check(0xffffffffff0282b8u64, 246, 1));
    assert(triangle_check(0xffffffffff0282b8u64, 246, 2));
    assert(triangle_check(0xffffffffff0282b8u64, 246, 3));
    assert(triangle_check(0xffffffffff0282b8u64, 246, 4));
    assert(edge_check(0xffffffffff0282b8u64, 246, 0));
    assert(edge_check(0xffffffffff0282b8u64, 246, 1));
    assert(edge_check(0xffffffffff0282b8u64, 246, 2));
    assert(edge_check(0xffffffffff0282b8u64, 246, 3));
    assert(edge_check(0xffffffffff0282b8u64, 246, 4));
    assert(edge_check(0xffffffffff0282b8u64, 246, 5));
    assert(edge_check(0xffffffffff0282b8u64, 246, 6));
    assert(edge_check(0xffffffffff0282b8u64, 246, 7));
    assert(edge_check(0xffffffffff0282b8u64, 246, 8));
    assert(edge_check(0xffffffffff0282b8u64, 246, 9));
    assert(edge_check(0xffffffffff0282b8u64, 246, 10));
    assert(edge_check(0xffffffffff0282b8u64, 246, 11));
}

#[verifier::spinoff_prover]
proof fn lemma_row_247()
    ensures
        row_checks(TRI_TABLE[247], 247),
{
    reveal(row_entry);
    reveal(faces_inward);
    reveal(dot);
    reveal(triangle_normal);
    reveal(corner_solid);
    reveal(entry_check);
    reveal(triangle_check);
    reveal(edge_check);
    assert(TRI_TABLE[247] == 0xfffffffffffffb32u64);
    assert(entry_check(0xfffffffffffffb32u64, 247, 0));
    assert(entry_check(0xfffffffffffffb32u64, 247, 1));
    assert(entry_check(0xfffffffffffffb32u64, 247, 2));
    assert(entry_check(0xfffffffffffffb32u64, 247, 3));
    assert(entry_check(0xfffffffffffffb32u64, 247, 4));
    assert(entry_check(0xfffffffffffffb32u64, 247, 5));
    assert(entry_check(0xfffffffffffffb32u64, 247, 6));
    assert(entry_check(0xfffffffffffffb32u64, 247, 7));
    assert(entry_check(0xfffffffffffffb32u64, 247, 8));
    assert(entry_check(0xfffffffffffffb32u64, 247, 9));
    assert(entry_check(0xfffffffffffffb32u64, 247, 10));
    assert(entry_check(0xfffffffffffffb32u64, 247, 11));
    assert(entry_check(0xfffffffffffffb32u64, 247, 12));
    assert(entry_check(0xfffffffffffffb32u64, 247, 13));
    assert(entry_check(0xfffffffffffffb32u64, 247, 14));
    assert(entry_check(0xfffffffffffffb32u64, 247, 15));
    assert(triangle_check(0xfffffffffffffb32u64, 247, 0));
    assert(triangle_check(0xfffffffffffffb32u64, 247, 1));
    assert(triangle_check(0xfffffffffffffb32u64, 247, 2));
    assert(triangle_check(0xfffffffffffffb32u64, 247, 3));
    assert(triangle_check(0xfffffffffffffb32u64, 247, 4));
    assert(edge_check(0xfffffffffffffb32u64, 247, 0));
    assert(edge_check(0xfffffffffffffb32u64, 247, 1));
    assert(edge_check(0xfffffffffffffb32u64, 247, 2));
    assert(edge_check(0xfffffffffffffb32u64, 247, 3));
    assert(edge_check(0xfffffffffffffb32u64, 247, 4));
    assert(edge_check(0xfffffffffffffb32u64, 247, 5));
    assert(edge_check(0xfffffffffffffb32u64, 247, 6));
    assert(edge_check(0xfffffffffffffb32u64, 247, 7));
    assert(edge_check(0xfffffffffffffb32u64, 247, 8));
    assert(edge_check(0xfffffffffffffb32u64, 247, 9));
    assert(edge_check(0xfffffffffffffb32u64, 247, 10));
    assert(edge_check(0xfffffffffffffb32u64, 247, 11));
}

#[verifier::spinoff_prover]
proof fn lemma_row_248()
    ensures
        row_checks(TRI_TABLE[248], 248),
{
    reveal(row_entry);
    reveal(faces_inward);
    reveal(dot);
    reveal(triangle_normal);
    reveal(corner_solid);
    reveal(entry_check);
    reveal(triangle_check);
    reveal(edge_check);
    assert(TRI_TABLE[248] == 0xfffffff23a38a89au64);
    assert(entry_check(0xfffffff23a38a89au64, 248, 0));
    assert(entry_check(0xfffffff23a38a89au64, 248, 1));
    assert(entry_check(0xfffffff23a38a89au64, 248, 2));
    assert(entry_check(0xfffffff23a38a89au64, 248, 3));
    assert(entry_check(0xfffffff23a38a89au64, 248, 4));
    assert(entry_check(0xfffffff23a38a89au64, 248, 5));
    assert(entry_check(0xfffffff23a38a89au64, 248, 6));
    assert(entry_check(0xfffffff23a38a89au64, 248, 7));
    assert(entry_check(0xfffffff23a38a89au64, 248, 8));
    assert(entry_check(0xfffffff23a38a89au64, 248, 9));
    assert(entry_check(0xfffffff23a38a89au64, 248, 10));
    assert(entry_check(0xfffffff23a38a89au64, 248, 11));
    assert(entry_check(0xfffffff23a38a89au64, 248, 12));
    assert(entry_check(0xfffffff23a38a89au64, 248, 13));
    assert(entry_check(0xfffffff23a38a89au64, 248, 14));
    assert(entry_check(0xfffffff23a38a89au64, 248, 15));
    assert(triangle_check(0xfffffff23a38a89au64, 248, 0));
    assert(triangle_check(0xfffffff23a38a89au64, 248, 1));
    assert(triangle_check(0xfffffff23a38a89au64, 248, 2));
    assert(triangle_check(0xfffffff23a38a89au64, 248, 3));
    assert(triangle_check(0xfffffff23a38a89au64, 248, 4));
    assert(edge_check(0xfffffff23a38a89au64, 248, 0));
    assert(edge_check(0xfffffff23a38a89au64, 248, 1));
    assert(edge_check(0xfffffff23a38a89au64, 248, 2));
    assert(edge_check(0xfffffff23a38a89au64, 248, 3));
    assert(edge_check(0xfffffff23a38a89au64, 248, 4));
    assert(edge_check(0xfffffff23a38a89au64, 248, 5));
    assert(edge_check(0xfffffff23a38a89au64, 248, 6));
    assert(edge_check(0xfffffff23a38a89au64, 248, 7));
    assert(edge_check(0xfffffff23a38a89au64, 248, 8));
    assert(edge_check(0xfffffff23a38a89au64, 248, 9));
    assert(edge_check(0xfffffff23a38a89au64, 248, 10));
    assert(edge_check(0xfffffff23a38a89au64, 248, 11));
}

#[verifier::spinoff_prover]
proof fn lemma_row_249()
    ensures
        row_checks(TRI_TABLE[249], 249),
{
    reveal(row_entry);
    reveal(faces_inward);
    reveal(dot);
    reveal(triangle_normal);
    reveal(corner_solid);
    reveal(entry_check);
    reveal(triangle_check);
    reveal(edge_check);
    assert(TRI_TABLE[249] == 0xffffffffff9a0a20u64);
    assert(entry_check(0xffffffffff9a0a20u64, 249, 0));
    assert(entry_check(0xffffffffff9a0a20u64, 249, 1));
    assert(entry_check(0xffffffffff9a0a20u64, 249, 2));
    assert(entry_check(0xffffffffff9a0a20u64, 249, 3));
    assert(entry_check(0xffffffffff9a0a20u64, 249, 4));
    assert(entry_check(0xffffffffff9a0a20u64, 249, 5));
    assert(entry_check(0xffffffffff9a0a20u64, 249, 6));
    assert(entry_check(0xffffffffff9a0a20u64, 249, 7));
    assert(entry_check(0xffffffffff9a0a20u64, 249, 8));
    assert(entry_check(0xffffffffff9a0a20u64, 249, 9));
    assert(entry_check(0xffffffffff9a0a20u64, 249, 10));
    assert(entry_check(0xffffffffff9a0a20u64, 249, 11));
    assert(entry_check(0xffffffffff9a0a20u64, 249, 12));
    assert(entry_check(0xffffffffff9a0a20u64, 249, 13));
    assert(entry_check(0xffffffffff9a0a20u64, 249, 14));
    assert(entry_check(0xffffffffff9a0a20u64, 249, 15));
    assert(triangle_check(0xffffffffff9a0a20u64, 249, 0));
    assert(triangle_check(0xffffffffff9a0a20u64, 249, 1));
    assert(triangle_check(0xffffffffff9a0a20u64, 249, 2));
    assert(triangle_check(0xffffffffff9a0a20u64, 249, 3));
    assert(triangle_check(0xffffffffff9a0a20u64, 249, 4));
    assert(edge_check(0xffffffffff9a0a20u64, 249, 0));
    assert(edge_check(0xffffffffff9a0a20u64, 249, 1));
    assert(edge_check(0xffffffffff9a0a20u64, 249, 2));
    assert(edge_check(0xffffffffff9a0a20u64, 249, 3));
    assert(edge_check(0xffffffffff9a0a20u64, 249, 4));
    assert(edge_check(0xffffffffff9a0a20u64, 249, 5));
    assert(edge_check(0xffffffffff9a0a20u64, 249, 6));
    assert(edge_check(0xffffffffff9a0a20u64, 249, 7));
    assert(edge_check(0xffffffffff9a0a20u64, 249, 8));
    assert(edge_check(0xffffffffff9a0a20u64, 249, 9));
    assert(edge_check(0xffffffffff9a0a20u64, 249, 10));
    assert(edge_check(0xffffffffff9a0a20u64, 249, 11));
}

#[verifier::spinoff_prover]
proof fn lemma_row_250()
    ensures
        row_checks(TRI_TABLE[250], 250),
{
    reveal(row_entry);
    reveal(faces_inward);
    reveal(dot);
    reveal(triangle_normal);
    reveal(corner_solid);
    reveal(entry_check);
    reveal(triangle_check);
    reveal(edge_check);
    assert(TRI_TABLE[250] == 0xffff0181a8a28238u64);
    assert(entry_check(0xffff0181a8a28238u64, 250, 0));
    assert(entry_check(0xffff0181a8a28238u64, 250, 1));
    assert(entry_check(0xffff0181a8a28238u64, 250, 2));
    assert(entry_check(0xffff0181a8a28238u64, 250, 3));
    assert(entry_check(0xffff0181a8a28238u64, 250, 4));
    assert(entry_check(0xffff0181a8a28238u64, 250, 5));
    assert(entry_check(0xffff0181a8a28238u64, 250, 6));
    assert(entry_check(0xffff0181a8a28238u64, 250, 7));
    assert(entry_check(0xffff0181a8a28238u64, 250, 8));
    assert(entry_check(0xffff0181a8a28238u64, 250, 9));
    assert(entry_check(0xffff0181a8a28238u64, 250, 10));
    assert(entry_check(0xffff0181a8a28238u64, 250, 11));
    assert(entry_check(0xffff0181a8a28238u64, 250, 12));
    assert(entry_check(0xffff0181a8a28238u64, 250, 13));
    assert(entry_check(0xffff0181a8a28238u64, 250, 14));
    assert(entry_check(0xffff0181a8a28238u64, 250, 15));
    assert(triangle_check(0xffff0181a8a28238u64, 250, 0));
    assert(triangle_check(0xffff0181a8a28238u64, 250, 1));
    assert(triangle_check(0xffff0181a8a28238u64, 250, 2));
    assert(triangle_check(0xffff0181a8a28238u64, 250, 3));
    assert(triangle_check(0xffff0181a8a28238u64, 250, 4));
    assert(edge_check(0xffff0181a8a28238u64, 250, 0));
    assert(edge_check(0xffff0181a8a28238u64, 250, 1));
    assert(edge_check(0xffff0181a8a28238u64, 250, 2));
    assert(edge_check(0xffff0181a8a28238u64, 250, 3));
    assert(edge_check(0xffff0181a8a28238u64, 250, 4));
    assert(edge_check(0xffff0181a8a28238u64, 250, 5));
    assert(edge_check(0xffff0181a8a28238u64, 250, 6));
    assert(edge_check(0xffff0181a8a28238u64, 250, 7));
    assert(edge_check(0xffff0181a8a28238u64, 250, 8));
    assert(edge_check(0xffff0181a8a28238u64, 250, 9));
    assert(edge_check(0xffff0181a8a28238u64, 250, 10));
    assert(edge_check(0xffff0181a8a28238u64, 250, 11));
}

#[verifier::spinoff_prover]
proof fn lemma_row_251()
    ensures
        row_checks(TRI_TABLE[251], 251),
{
    reveal(row_entry);
    reveal(faces_inward);
    reveal(dot);
    reveal(triangle_normal);
    reveal(corner_solid);
    reveal(entry_check);
    reveal(triangle_check);
    reveal(edge_check);
    assert(TRI_TABLE[251] == 0xfffffffffffff1a2u64);
    assert(entry_check(0xfffffffffffff1a2u64, 251, 0));
    assert(entry_check(0xfffffffffffff1a2u64, 251, 1));
    assert(entry_check(0xfffffffffffff1a2u64, 251, 2));
    assert(entry_check(0xfffffffffffff1a2u64, 251, 3));
    assert(entry_check(0xfffffffffffff1a2u64, 251, 4));
    assert(entry_check(0xfffffffffffff1a2u64, 251, 5));
    assert(entry_check(0xfffffffffffff1a2u64, 251, 6));
    assert(entry_check(0xfffffffffffff1a2u64, 251, 7));
    assert(entry_check(0xfffffffffffff1a2u64, 251, 8));
    assert(entry_check(0xfffffffffffff1a2u64, 251, 9));
    assert(entry_check(0xfffffffffffff1a2u64, 251, 10));
    assert(entry_check(0xfffffffffffff1a2u64, 251, 11));
    assert(entry_check(0xfffffffffffff1a2u64, 251, 12));
    assert(entry_check(0xfffffffffffff1a2u64, 251, 13));
    assert(entry_check(0xfffffffffffff1a2u64, 251, 14));
    assert(entry_check(0xfffffffffffff1a2u64, 251, 15));
    assert(triangle_check(0xfffffffffffff1a2u64, 251, 0));
    assert(triangle_check(0xfffffffffffff1a2u64, 251, 1));
    assert(triangle_check(0xfffffffffffff1a2u64, 251, 2));
    assert(triangle_check(0xfffffffffffff1a2u64, 251, 3));
    assert(triangle_check(0xfffffffffffff1a2u64, 251, 4));
    assert(edge_check(0xfffffffffffff1a2u64, 251, 0));
    assert(edge_check(0xfffffffffffff1a2u64, 251, 1));
    assert(edge_check(0xfffffffffffff1a2u64, 251, 2));
    assert(edge_check(0xfffffffffffff1a2u64, 251, 3));
    assert(edge_check(0xfffffffffffff1a2u64, 251, 4));
    assert(edge_check(0xfffffffffffff1a2u64, 251, 5));
    assert(edge_check(0xfffffffffffff1a2u64, 251, 6));
    assert(edge_check(0xfffffffffffff1a2u64, 251, 7));
    assert(edge_check(0xfffffffffffff1a2u64, 251, 8));
    assert(edge_check(0xfffffffffffff1a2u64, 251, 9));
    assert(edge_check(0xfffffffffffff1a2u64, 251, 10));
    assert(edge_check(0xfffffffffffff1a2u64, 251, 11));
}

#[verifier::spinoff_prover]
proof fn lemma_row_252()
    ensures
        row_checks(TRI_TABLE[252], 252),
{
    reveal(row_entry);
    reveal(faces_inward);
    reveal(dot);
    reveal(triangle_normal);
    reveal(corner_solid);
    reveal(entry_check);
    reveal(triangle_check);
    reveal(edge_check);
    assert(TRI_TABLE[252] == 0xffffffffff381891u64);
    assert(entry_check(0xffffffffff381891u64, 252, 0));
    assert(entry_check(0xffffffffff381891u64, 252, 1));
    assert(entry_check(0xffffffffff381891u64, 252, 2));
    assert(entry_check(0xffffffffff381891u64, 252, 3));
    assert(entry_check(0xffffffffff381891u64, 252, 4));
    assert(entry_check(0xffffffffff381891u64, 252, 5));
    assert(entry_check(0xffffffffff381891u64, 252, 6));
    assert(entry_check(0xffffffffff381891u64, 252, 7));
    assert(entry_check(0xffffffffff381891u64, 252, 8));
    assert(entry_check(0xffffffffff381891u64, 252, 9));
    assert(entry_check(0xffffffffff381891u64, 252, 10));
    assert(entry_check(0xffffffffff381891u64, 252, 11));
    assert(entry_check(0xffffffffff381891u64, 252, 12));
    assert(entry_check(0xffffffffff381891u64, 252, 13));
    assert(entry_check(0xffffffffff381891u64, 252, 14));
    assert(entry_check(0xffffffffff381891u64, 252, 15));
    assert(triangle_check(0xffffffffff381891u64, 252, 0));
    assert(triangle_check(0xffffffffff381891u64, 252, 1));
    assert(triangle_check(0xffffffffff381891u64, 252, 2));
    assert(triangle_check(0xffffffffff381891u64, 252, 3));
    assert(triangle_check(0xffffffffff381891u64, 252, 4));
    assert(edge_check(0xffffffffff381891u64, 252, 0));
    assert(edge_check(0xffffffffff381891u64, 252, 1));
    assert(edge_check(0xffffffffff381891u64, 252, 2));
    assert(edge_check(0xffffffffff381891u64, 252, 3));
    assert(edge_check(0xffffffffff381891u64, 252, 4));
    assert(edge_check(0xffffffffff381891u64, 252, 5));
    assert(edge_check(0xffffffffff381891u64, 252, 6));
    assert(edge_check(0xffffffffff381891u64, 252, 7));
    assert(edge_check(0xffffffffff381891u64, 252, 8));
    assert(edge_check(0xffffffffff381891u64, 252, 9));
    assert(edge_check(0xffffffffff381891u64, 252, 10));
    assert(edge_check(0xffffffffff381891u64, 252, 11));
}

#[verifier::spinoff_prover]
proof fn lemma_row_253()
    ensures
        row_checks(TRI_TABLE[253], 253),
{
    reveal(row_entry);
    reveal(faces_inward);
    reveal(dot);
    reveal(triangle_normal);
    reveal(corner_solid);
    reveal(entry_check);
    reveal(triangle_check);
    reveal(edge_check);
    assert(TRI_TABLE[253] == 0xfffffffffffff910u64);
    assert(entry_check(0xfffffffffffff910u64, 253, 0));
    assert(entry_check(0xfffffffffffff910u64, 253, 1));
    assert(entry_check(0xfffffffffffff910u64, 253, 2));
    assert(entry_check(0xfffffffffffff910u64, 253, 3));
    assert(entry_check(0xfffffffffffff910u64, 253, 4));
    assert(entry_check(0xfffffffffffff910u64, 253, 5));
    assert(entry_check(0xfffffffffffff910u64, 253, 6));
    assert(entry_check(0xfffffffffffff910u64, 253, 7));
    assert(entry_check(0xfffffffffffff910u64, 253, 8));
    assert(entry_check(0xfffffffffffff910u64, 253, 9));
    assert(entry_check(0xfffffffffffff910u64, 253, 10));
    assert(entry_check(0xfffffffffffff910u64, 253, 11));
    assert(entry_check(0xfffffffffffff910u64, 253, 12));
    assert(entry_check(0xfffffffffffff910u64, 253, 13));
    assert(entry_check(0xfffffffffffff910u64, 253, 14));
    assert(entry_check(0xfffffffffffff910u64, 253, 15));
    assert(triangle_check(0xfffffffffffff910u64, 253, 0));
    assert(triangle_check(0xfffffffffffff910u64, 253, 1));
    assert(triangle_check(0xfffffffffffff910u64, 253, 2));
    assert(triangle_check(0xfffffffffffff910u64, 253, 3));
    assert(triangle_check(0xfffffffffffff910u64, 253, 4));
    assert(edge_check(0xfffffffffffff910u64, 253, 0));
    assert(edge_check(0xfffffffffffff910u64, 253, 1));
    assert(edge_check(0xfffffffffffff910u64, 253, 2));
    assert(edge_check(0xfffffffffffff910u64, 253, 3));
    assert(edge_check(0xfffffffffffff910u64, 253, 4));
    assert(edge_check(0xfffffffffffff910u64, 253, 5));
    assert(edge_check(0xfffffffffffff910u64, 253, 6));
    assert(edge_check(0xfffffffffffff910u64, 253, 7));
    assert(edge_check(0xfffffffffffff910u64, 253, 8));
    assert(edge_check(0xfffffffffffff910u64, 253, 9));
    assert(edge_check(0xfffffffffffff910u64, 253, 10));
    assert(edge_check(0xfffffffffffff910u64, 253, 11));
}

#[verifier::spinoff_prover]
proof fn lemma_row_254()
    ensures
        row_checks(TRI_TABLE[254], 254),
{
    reveal(row_entry);
    reveal(faces_inward);
    reveal(dot);
    reveal(triangle_normal);
    reveal(corner_solid);
    reveal(entry_check);
    reveal(triangle_check);
    reveal(edge_check);
    assert(TRI_TABLE[254] == 0xfffffffffffff038u64);
    assert(entry_check(0xfffffffffffff038u64, 254, 0));
    assert(entry_check(0xfffffffffffff038u64, 254, 1));
    assert(entry_check(0xfffffffffffff038u64, 254, 2));
    assert(entry_check(0xfffffffffffff038u64, 254, 3));
    assert(entry_check(0xfffffffffffff038u64, 254, 4));
    assert(entry_check(0xfffffffffffff038u64, 254, 5));
    assert(entry_check(0xfffffffffffff038u64, 254, 6));
    assert(entry_check(0xfffffffffffff038u64, 254, 7));
    assert(entry_check(0xfffffffffffff038u64, 254, 8));
    assert(entry_check(0xfffffffffffff038u64, 254, 9));
    assert(entry_check(0xfffffffffffff038u64, 254, 10));
    assert(entry_check(0xfffffffffffff038u64, 254, 11));
    assert(entry_check(0xfffffffffffff038u64, 254, 12));
    assert(entry_check(0xfffffffffffff038u64, 254, 13));
    assert(entry_check(0xfffffffffffff038u64, 254, 14));
    assert(entry_check(0xfffffffffffff038u64, 254, 15));
    assert(triangle_check(0xfffffffffffff038u64, 254, 0));
    assert(triangle_check(0xfffffffffffff038u64, 254, 1));
    assert(triangle_check(0xfffffffffffff038u64, 254, 2));
    assert(triangle_check(0xfffffffffffff038u64, 254, 3));
    assert(triangle_check(0xfffffffffffff038u64, 254, 4));
    assert(edge_check(0xfffffffffffff038u64, 254, 0));
    assert(edge_check(0xfffffffffffff038u64, 254, 1));
    assert(edge_check(0xfffffffffffff038u64, 254, 2));
    assert(edge_check(0xfffffffffffff038u64, 254, 3));
    assert(edge_check(0xfffffffffffff038u64, 254, 4));
    assert(edge_check(0xfffffffffffff038u64, 254, 5));
    assert(edge_check(0xfffffffffffff038u64, 254, 6));
    assert(edge_check(0xfffffffffffff038u64, 254, 7));
    assert(edge_check(0xfffffffffffff038u64, 254, 8));
    assert(edge_check(0xfffffffffffff038u64, 254, 9));
    assert(edge_check(0xfffffffffffff038u64, 254, 10));
    assert(edge_check(0xfffffffffffff038u64, 254, 11));
}

#[verifier::spinoff_prover]
proof fn lemma_row_255()
    ensures
        row_checks(TRI_TABLE[255], 255),
{
    reveal(row_entry);
    reveal(faces_inward);
    reveal(dot);
    reveal(triangle_normal);
    reveal(corner_solid);
    reveal(entry_check);
    reveal(triangle_check);
    reveal(edge_check);
    assert(TRI_TABLE[255] == 0xffffffffffffffffu64);
    assert(entry_check(0xffffffffffffffffu64, 255, 0));
    assert(entry_check(0xffffffffffffffffu64, 255, 1));
    assert(entry_check(0xffffffffffffffffu64, 255, 2));
    assert(entry_check(0xffffffffffffffffu64, 255, 3));
    assert(entry_check(0xffffffffffffffffu64, 255, 4));
    assert(entry_check(0xffffffffffffffffu64, 255, 5));
    assert(entry_check(0xffffffffffffffffu64, 255, 6));
    assert(entry_check(0xffffffffffffffffu64, 255, 7));
    assert(entry_check(0xffffffffffffffffu64, 255, 8));
    assert(entry_check(0xffffffffffffffffu64, 255, 9));
    assert(entry_check(0xffffffffffffffffu64, 255, 10));
    assert(entry_check(0xffffffffffffffffu64, 255, 11));
    assert(entry_check(0xffffffffffffffffu64, 255, 12));
    assert(entry_check(0xffffffffffffffffu64, 255, 13));
    assert(entry_check(0xffffffffffffffffu64, 255, 14));
    assert(entry_check(0xffffffffffffffffu64, 255, 15));
    assert(triangle_check(0xffffffffffffffffu64, 255, 0));
    assert(triangle_check(0xffffffffffffffffu64, 255, 1));
    assert(triangle_check(0xffffffffffffffffu64, 255, 2));
    assert(triangle_check(0xffffffffffffffffu64, 255, 3));
    assert(triangle_check(0xffffffffffffffffu64, 255, 4));
    assert(edge_check(0xffffffffffffffffu64, 255, 0));
    assert(edge_check(0xffffffffffffffffu64, 255, 1));
    assert(edge_check(0xffffffffffffffffu64, 255, 2));
    assert(edge_check(0xffffffffffffffffu64, 255, 3));
    assert(edge_check(0xffffffffffffffffu64, 255, 4));
    assert(edge_check(0xffffffffffffffffu64, 255, 5));
    assert(edge_check(0xffffffffffffffffu64, 255, 6));
    assert(edge_check(0xffffffffffffffffu64, 255, 7));
    assert(edge_check(0xffffffffffffffffu64, 255, 8));
    assert(edge_check(0xffffffffffffffffu64, 255, 9));
    assert(edge_check(0xffffffffffffffffu64, 255, 10));
    assert(edge_check(0xffffffffffffffffu64, 255, 11));
}

/// Every row of the table passes the checks for its own code.
pub(crate) proof fn lemma_row_checks(code: u8)
    ensures
        row_checks(TRI_TABLE[code as int], code),
{
    if code == 0 {
        lemma_row_0();
    } else if code == 1 {
        lemma_row_1();
    } else if code == 2 {
        lemma_row_2();
    } else if code == 3 {
        lemma_row_3();
    } else if code == 4 {
        lemma_row_4();
    } else if code == 5 {
        lemma_row_5();
    } else if code == 6 {
        lemma_row_6();
    } else if code == 7 {
        lemma_row_7();
    } else if code == 8 {
        lemma_row_8();
    } else if code == 9 {
        lemma_row_9();
    } else if code == 10 {
        lemma_row_10();
    } else if code == 11 {
        lemma_row_11();
    } else if code == 12 {
        lemma_row_12();
    } else if code == 13 {
        lemma_row_13();
    } else if code == 14 {
        lemma_row_14();
    } else if code == 15 {
        lemma_row_15();
    } else if code == 16 {
        lemma_row_16();
    } else if code == 17 {
        lemma_row_17();
    } else if code == 18 {
        lemma_row_18();
    } else if code == 19 {
        lemma_row_19();
    } else if code == 20 {
        lemma_row_20();
    } else if code == 21 {
        lemma_row_21();
    } else if code == 22 {
        lemma_row_22();
    } else if code == 23 {
        lemma_row_23();
    } else if code == 24 {
        lemma_row_24();
    } else if code == 25 {
        lemma_row_25();
    } else if code == 26 {
        lemma_row_26();
    } else if code == 27 {
        lemma_row_27();
    } else if code == 28 {
        lemma_row_28();
    } else if code == 29 {
        lemma_row_29();
    } else if code == 30 {
        lemma_row_30();
    } else if code == 31 {
        lemma_row_31();
    } else if code == 32 {
        lemma_row_32();
    } else if code == 33 {
        lemma_row_33();
    } else if code == 34 {
        lemma_row_34();
    } else if code == 35 {
        lemma_row_35();
    } else if code == 36 {
        lemma_row_36();
    } else if code == 37 {
        lemma_row_37();
    } else if code == 38 {
        lemma_row_38();
    } else if code == 39 {
        lemma_row_39();
    } else if code == 40 {
        lemma_row_40();
    } else if code == 41 {
        lemma_row_41();
    } else if code == 42 {
        lemma_row_42();
    } else if code == 43 {
        lemma_row_43();
    } else if code == 44 {
        lemma_row_44();
    } else if code == 45 {
        lemma_row_45();
    } else if code == 46 {
        lemma_row_46();
    } else if code == 47 {
        lemma_row_47();
    } else if code == 48 {
        lemma_row_48();
    } else if code == 49 {
        lemma_row_49();
    } else if code == 50 {
        lemma_row_50();
    } else if code == 51 {
        lemma_row_51();
    } else if code == 52 {
        lemma_row_52();
    } else if code == 53 {
        lemma_row_53();
    } else if code == 54 {
        lemma_row_54();
    } else if code == 55 {
        lemma_row_55();
    } else if code == 56 {
        lemma_row_56();
    } else if code == 57 {
        lemma_row_57();
    } else if code == 58 {
        lemma_row_58();
    } else if code == 59 {
        lemma_row_59();
    } else if code == 60 {
        lemma_row_60();
    } else if code == 61 {
        lemma_row_61();
    } else if code == 62 {
        lemma_row_62();
    } else if code == 63 {
        lemma_row_63();
    } else if code == 64 {
        lemma_row_64();
    } else if code == 65 {
        lemma_row_65();
    } else if code == 66 {
        lemma_row_66();
    } else if code == 67 {
        lemma_row_67();
    } else if code == 68 {
        lemma_row_68();
    } else if code == 69 {
        lemma_row_69();
    } else if code == 70 {
        lemma_row_70();
    } else if code == 71 {
        lemma_row_71();
    } else if code == 72 {
        lemma_row_72();
    } else if code == 73 {
        lemma_row_73();
    } else if code == 74 {
        lemma_row_74();
    } else if code == 75 {
        lemma_row_75();
    } else if code == 76 {
        lemma_row_76();
    } else if code == 77 {
        lemma_row_77();
    } else if code == 78 {
        lemma_row_78();
    } else if code == 79 {
        lemma_row_79();
    } else if code == 80 {
        lemma_row_80();
    } else if code == 81 {
        lemma_row_81();
    } else if code == 82 {
        lemma_row_82();
    } else if code == 83 {
        lemma_row_83();
    } else if code == 84 {
        lemma_row_84();
    } else if code == 85 {
        lemma_row_85();
    } else if code == 86 {
        lemma_row_86();
    } else if code == 87 {
        lemma_row_87();
    } else if code == 88 {
        lemma_row_88();
    } else if code == 89 {
        lemma_row_89();
    } else if code == 90 {
        lemma_row_90();
    } else if code == 91 {
        lemma_row_91();
    } else if code == 92 {
        lemma_row_92();
    } else if code == 93 {
        lemma_row_93();
    } else if code == 94 {
        lemma_row_94();
    } else if code == 95 {
        lemma_row_95();
    } else if code == 96 {
        lemma_row_96();
    } else if code == 97 {
        lemma_row_97();
    } else if code == 98 {
        lemma_row_98();
    } else if code == 99 {
        lemma_row_99();
    } else if code == 100 {
        lemma_row_100();
    } else if code == 101 {
        lemma_row_101();
    } else if code == 102 {
        lemma_row_102();
    } else if code == 103 {
        lemma_row_103();
    } else if code == 104 {
        lemma_row_104();
    } else if code == 105 {
        lemma_row_105();
    } else if code == 106 {
        lemma_row_106();
    } else if code == 107 {
        lemma_row_107();
    } else if code == 108 {
        lemma_row_108();
    } else if code == 109 {
        lemma_row_109();
    } else if code == 110 {
        lemma_row_110();
    } else if code == 111 {
        lemma_row_111();
    } else if code == 112 {
        lemma_row_112();
    } else if code == 113 {
        lemma_row_113();
    } else if code == 114 {
        lemma_row_114();
    } else if code == 115 {
        lemma_row_115();
    } else if code == 116 {
        lemma_row_116();
    } else if code == 117 {
        lemma_row_117();
    } else if code == 118 {
        lemma_row_118();
    } else if code == 119 {
        lemma_row_119();
    } else if code == 120 {
        lemma_row_120();
    } else if code == 121 {
        lemma_row_121();
    } else if code == 122 {
        lemma_row_122();
    } else if code == 123 {
        lemma_row_123();
    } else if code == 124 {
        lemma_row_124();
    } else if code == 125 {
        lemma_row_125();
    } else if code == 126 {
        lemma_row_126();
    } else if code == 127 {
        lemma_row_127();
    } else if code == 128 {
        lemma_row_128();
    } else if code == 129 {
        lemma_row_129();
    } else if code == 130 {
        lemma_row_130();
    } else if code == 131 {
        lemma_row_131();
    } else if code == 132 {
        lemma_row_132();
    } else if code == 133 {
        lemma_row_133();
    } else if code == 134 {
        lemma_row_134();
    } else if code == 135 {
        lemma_row_135();
    } else if code == 136 {
        lemma_row_136();
    } else if code == 137 {
        lemma_row_137();
    } else if code == 138 {
        lemma_row_138();
    } else if code == 139 {
        lemma_row_139();
    } else if code == 140 {
        lemma_row_140();
    } else if code == 141 {
        lemma_row_141();
    } else if code == 142 {
        lemma_row_142();
    } else if code == 143 {
        lemma_row_143();
    } else if code == 144 {
        lemma_row_144();
    } else if code == 145 {
        lemma_row_145();
    } else if code == 146 {
        lemma_row_146();
    } else if code == 147 {
        lemma_row_147();
    } else if code == 148 {
        lemma_row_148();
    } else if code == 149 {
        lemma_row_149();
    } else if code == 150 {
        lemma_row_150();
    } else if code == 151 {
        lemma_row_151();
    } else if code == 152 {
        lemma_row_152();
    } else if code == 153 {
        lemma_row_153();
    } else if code == 154 {
        lemma_row_154();
    } else if code == 155 {
        lemma_row_155();
    } else if code == 156 {
        lemma_row_156();
    } else if code == 157 {
        lemma_row_157();
    } else if code == 158 {
        lemma_row_158();
    } else if code == 159 {
        lemma_row_159();
    } else if code == 160 {
        lemma_row_160();
    } else if code == 161 {
        lemma_row_161();
    } else if code == 162 {
        lemma_row_162();
    } else if code == 163 {
        lemma_row_163();
    } else if code == 164 {
        lemma_row_164();
    } else if code == 165 {
        lemma_row_165();
    } else if code == 166 {
        lemma_row_166();
    } else if code == 167 {
        lemma_row_167();
    } else if code == 168 {
        lemma_row_168();
    } else if code == 169 {
        lemma_row_169();
    } else if code == 170 {
        lemma_row_170();
    } else if code == 171 {
        lemma_row_171();
    } else if code == 172 {
        lemma_row_172();
    } else if code == 173 {
        lemma_row_173();
    } else if code == 174 {
        lemma_row_174();
    } else if code == 175 {
        lemma_row_175();
    } else if code == 176 {
        lemma_row_176();
    } else if code == 177 {
        lemma_row_177();
    } else if code == 178 {
        lemma_row_178();
    } else if code == 179 {
        lemma_row_179();
    } else if code == 180 {
        lemma_row_180();
    } else if code == 181 {
        lemma_row_181();
    } else if code == 182 {
        lemma_row_182();
    } else if code == 183 {
        lemma_row_183();
    } else if code == 184 {
        lemma_row_184();
    } else if code == 185 {
        lemma_row_185();
    } else if code == 186 {
        lemma_row_186();
    } else if code == 187 {
        lemma_row_187();
    } else if code == 188 {
        lemma_row_188();
    } else if code == 189 {
        lemma_row_189();
    } else if code == 190 {
        lemma_row_190();
    } else if code == 191 {
        lemma_row_191();
    } else if code == 192 {
        lemma_row_192();
    } else if code == 193 {
        lemma_row_193();
    } else if code == 194 {
        lemma_row_194();
    } else if code == 195 {
        lemma_row_195();
    } else if code == 196 {
        lemma_row_196();
    } else if code == 197 {
        lemma_row_197();
    } else if code == 198 {
        lemma_row_198();
    } else if code == 199 {
        lemma_row_199();
    } else if code == 200 {
        lemma_row_200();
    } else if code == 201 {
        lemma_row_201();
    } else if code == 202 {
        lemma_row_202();
    } else if code == 203 {
        lemma_row_203();
    } else if code == 204 {
        lemma_row_204();
    } else if code == 205 {
        lemma_row_205();
    } else if code == 206 {
        lemma_row_206();
    } else if code == 207 {
        lemma_row_207();
    } else if code == 208 {
        lemma_row_208();
    } else if code == 209 {
        lemma_row_209();
    } else if code == 210 {
        lemma_row_210();
    } else if code == 211 {
        lemma_row_211();
    } else if code == 212 {
        lemma_row_212();
    } else if code == 213 {
        lemma_row_213();
    } else if code == 214 {
        lemma_row_214();
    } else if code == 215 {
        lemma_row_215();
    } else if code == 216 {
        lemma_row_216();
    } else if code == 217 {
        lemma_row_217();
    } else if code == 218 {
        lemma_row_218();
    } else if code == 219 {
        lemma_row_219();
    } else if code == 220 {
        lemma_row_220();
    } else if code == 221 {
        lemma_row_221();
    } else if code == 222 {
        lemma_row_222();
    } else if code == 223 {
        lemma_row_223();
    } else if code == 224 {
        lemma_row_224();
    } else if code == 225 {
        lemma_row_225();
    } else if code == 226 {
        lemma_row_226();
    } else if code == 227 {
        lemma_row_227();
    } else if code == 228 {
        lemma_row_228();
    } else if code == 229 {
        lemma_row_229();
    } else if code == 230 {
        lemma_row_230();
    } else if code == 231 {
        lemma_row_231();
    } else if code == 232 {
        lemma_row_232();
    } else if code == 233 {
        lemma_row_233();
    } else if code == 234 {
        lemma_row_234();
    } else if code == 235 {
        lemma_row_235();
    } else if code == 236 {
        lemma_row_236();
    } else if code == 237 {
        lemma_row_237();
    } else if code == 238 {
        lemma_row_238();
    } else if code == 239 {
        lemma_row_239();
    } else if code == 240 {
        lemma_row_240();
    } else if code == 241 {
        lemma_row_241();
    } else if code == 242 {
        lemma_row_242();
    } else if code == 243 {
        lemma_row_243();
    } else if code == 244 {
        lemma_row_244();
    } else if code == 245 {
        lemma_row_245();
    } else if code == 246 {
        lemma_row_246();
    } else if code == 247 {
        lemma_row_247();
    } else if code == 248 {
        lemma_row_248();
    } else if code == 249 {
        lemma_row_249();
    } else if code == 250 {
        lemma_row_250();
    } else if code == 251 {
        lemma_row_251();
    } else if code == 252 {
        lemma_row_252();
    } else if code == 253 {
        lemma_row_253();
    } else if code == 254 {
        lemma_row_254();
    } else {
        lemma_row_255();
    }
}

} // verus!
