//! The marching-cubes tables: the corners and edges of the unit cube and, for
//! each of the 256 corner-occupancy codes, the triangles that part the solid
//! corners from the empty ones.
//!
//! Corner `i` is solid in a code when bit `i` of the code is set.  Triangle
//! corners sit on the midpoints of cube edges.  Seen from the empty side a
//! triangle is drawn clockwise, so its right-hand normal points into the solid.

use crate::structs::{Point3, Triangle};
use crate::table_proof::lemma_row_checks;
use vstd::prelude::*;

verus! {

/// Row `c` holds the triangles of occupancy code `c` as sixteen 4-bit entries,
/// lowest first.  Three entries in a row name the cube edges that carry the
/// corners of one triangle; 15 fills the entries that are not used.
pub const TRI_TABLE: [u64; 256] = [
    0xffffffffffffffff,
    0xfffffffffffff830,
    0xfffffffffffff019,
    0xffffffffff193983,
    0xfffffffffffff2a1,
    0xffffffffff2a1830,
    0xffffffffff0292a9,
    0xfffffff3282a8a98,
    0xfffffffffffff23b,
    0xffffffffff8b0b20,
    0xffffffffff23b019,
    0xfffffff21b19b98b,
    0xffffffffff3b1ba1,
    0xfffffff10a08a8ba,
    0xfffffff0393b9ba9,
    0xffffffffff8b9ba9,
    0xfffffffffffff478,
    0xffffffffff470730,
    0xffffffffff478019,
    0xfffffff317197947,
    0xffffffffff4782a1,
    0xfffffff2a1470730,
    0xfffffff4780292a9,
    0xffff2a3a93943473,
    0xffffffffff47823b,
    0xfffffff0424727b2,
    0xfffffff47823b019,
    0xffff1929424727b2,
    0xfffffff4783b1ba1,
    0xffff4707b0ba0a10,
    0xffff4780393b9ba9,
    0xfffffff4797b9ba9,
    0xfffffffffffff954,
    0xffffffffff954830,
    0xffffffffff014154,
    0xfffffff153543483,
    0xffffffffff9542a1,
    0xfffffff9542a1830,
    0xfffffff0242a4a54,
    0xffffa52542482832,
    0xffffffffff95423b,
    0xfffffff9548b0b20,
    0xfffffff23b014154,
    0xffff21b15b54b48b,
    0xfffffff9543b1ba1,
    0xffff95410a08a8ba,
    0xffff0343b4ba4a54,
    0xfffffff54a48a8ba,
    0xffffffffff785895,
    0xfffffff093953573,
    0xfffffff807017157,
    0xffffffffff153573,
    0xfffffff7858952a1,
    0xffff2a1093953573,
    0xffff8070272a7a57,
    0xfffffff2a3a53573,
    0xfffffff78589523b,
    0xffff9505707b0b20,
    0xffff23b807017157,
    0xfffffffb27217157,
    0xffff7858953b1ba1,
    0xf9505707b0ba0a10,
    0xf3b0ba0a50570780,
    0xffffffffff7b5ba5,
    0xfffffffffffff5a6,
    0xffffffffff5a6830,
    0xffffffffff5a6019,
    0xfffffff5a6193983,
    0xffffffffff261651,
    0xfffffff261651830,
    0xfffffff596906026,
    0xffff652592982832,
    0xffffffffff5a623b,
    0xfffffff5a68b0b20,
    0xfffffff5a623b019,
    0xffff5a621b19b98b,
    0xfffffff1353b5b65,
    0xffff0818b1b61651,
    0xffff0393b9b69659,
    0xfffffff65b59b98b,
    0xffffffffff5a6478,
    0xfffffff5a6470730,
    0xfffffff5a6478019,
    0xffff5a6317197947,
    0xfffffff478261651,
    0xffff261651470730,
    0xffff478596906026,
    0xf479739329269659,
    0xfffffff5a647823b,
    0xffff5a60424727b2,
    0xffff5a647823b019,
    0xf5a61929424727b2,
    0xffff4781353b5b65,
    0xf65b51b10b04b47b,
    0xf4780393b9b69659,
    0xffff4797b9b69659,
    0xffffffffff9a4a64,
    0xfffffff9a4a64830,
    0xfffffff4060161a6,
    0xffff1a3a63643483,
    0xfffffff914124264,
    0xffff914124264830,
    0xffffffffff024264,
    0xfffffff642482832,
    0xfffffff9a4a6423b,
    0xffff9a4a648b0b20,
    0xffff23b4060161a6,
    0xfa616414818b1b21,
    0xffff3b1b61641491,
    0xf0818b1b61641491,
    0xfffffff4060363b6,
    0xffffffffff8b4b64,
    0xfffffff67a78a89a,
    0xffff0939a3a63673,
    0xffff0181a8a68678,
    0xfffffff3171a7a67,
    0xffff129269679789,
    0xf129269679739309,
    0xfffffff786806026,
    0xffffffffff672732,
    0xffff67a78a89a23b,
    0xfb272070979a7a67,
    0xf23b0181a8a68678,
    0xffffb272171a7a67,
    0xf7868969161363b6,
    0xffffffffff67b910,
    0xffff7868060363b6,
    0xfffffffffffff67b,
    0xfffffffffffffb76,
    0xffffffffffb76830,
    0xffffffffffb76019,
    0xfffffffb76193983,
    0xffffffffffb762a1,
    0xfffffffb762a1830,
    0xfffffffb760292a9,
    0xffffb763282a8a98,
    0xffffffffff236376,
    0xfffffff870760620,
    0xfffffff236376019,
    0xffff192982872762,
    0xfffffff3717616a1,
    0xffff8707606a0a10,
    0xffff0393797696a9,
    0xfffffff7686a8a98,
    0xffffffffff4686b8,
    0xfffffff4606b0b30,
    0xfffffff4686b8019,
    0xffff1939434636b3,
    0xfffffff4686b82a1,
    0xffff2a14606b0b30,
    0xffff4686b80292a9,
    0xf2a3a939434636b3,
    0xfffffff624234384,
    0xffffffffff460620,
    0xffff624234384019,
    0xfffffff192942462,
    0xffff3818414616a1,
    0xfffffff4606a0a10,
    0xf8434636a3a93903,
    0xffffffffff4696a9,
    0xffffffffffb76954,
    0xfffffffb76954830,
    0xfffffffb76014154,
    0xffffb76153543483,
    0xfffffffb769542a1,
    0xffffb769542a1830,
    0xffffb760242a4a54,
    0xfb76a52542482832,
    0xfffffff954236376,
    0xffff954870760620,
    0xffff236376014154,
    0xf768628218158548,
    0xffff9543717616a1,
    0xf9548707606a0a10,
    0xf54a40a03a37a76a,
    0xffff54a48a87a76a,
    0xfffffff5696b9b89,
    0xffff9505606b0b30,
    0xffff0181585686b8,
    0xfffffff1535636b3,
    0xffff5696b9b892a1,
    0xf2a19505606b0b30,
    0xf6b5b858050252a5,
    0xffff2a3a535636b3,
    0xffff236386896956,
    0xfffffff950560620,
    0xf018158568628238,
    0xffffffffff152562,
    0xfa16136386896956,
    0xffff9505606a0a10,
    0xffffffffff6a5038,
    0xfffffffffffff6a5,
    0xffffffffff5a7ab7,
    0xfffffff5a7ab7830,
    0xfffffff5a7ab7019,
    0xffff5a7ab7193983,
    0xfffffff2b1b71751,
    0xffff2b1b71751830,
    0xffff9050252b5b75,
    0xfb72752592982832,
    0xfffffffa25235375,
    0xffff8707505a0a20,
    0xffffa25235375019,
    0xf1929828727525a2,
    0xffffffffff371751,
    0xfffffff081871751,
    0xfffffff905035375,
    0xffffffffff597987,
    0xfffffff4585a8ab8,
    0xffff4505a0ab0b30,
    0xffff4585a8ab8019,
    0xf5a4ab4b34314194,
    0xffff2b1b81841451,
    0xf30b04b45b51b12b,
    0xf9050252b5b85845,
    0xffffffffff459b32,
    0xffff23a38a84a45a,
    0xfffffff0424525a2,
    0xf23a38a84a45a019,
    0xffff1929424525a2,
    0xfffffff135385845,
    0xffffffffff450510,
    0xffff905035385845,
    0xfffffffffffff459,
    0xfffffff74b49b9ab,
    0xffff74b49b9ab830,
    0xffff0141a4ab4b74,
    0xf8343141a4ab4b74,
    0xffff2b1b71741491,
    0xf2b1b71741491830,
    0xfffffff0242b4b74,
    0xffffb72742482832,
    0xffff23a37a74a49a,
    0xf4979a7a27207087,
    0xf23a37a74a40a01a,
    0xffffffffff8741a2,
    0xfffffff371741491,
    0xffff081871741491,
    0xffffffffff034374,
    0xfffffffffffff874,
    0xffffffffff9a8ab8,
    0xfffffff30b09b9ab,
    0xfffffff0181a8ab8,
    0xffffffffff1a3ab3,
    0xfffffff1292b9b89,
    0xffff30b09b91b12b,
    0xffffffffff0282b8,
    0xfffffffffffffb32,
    0xfffffff23a38a89a,
    0xffffffffff9a0a20,
    0xffff0181a8a28238,
    0xfffffffffffff1a2,
    0xffffffffff381891,
    0xfffffffffffff910,
    0xfffffffffffff038,
    0xffffffffffffffff,
];

/// Where corner `i` of the unit cube lies.
pub open spec fn corner_offset(i: int) -> (int, int, int) {
    if i == 0 {
        (0, 0, 0)
    } else if i == 1 {
        (1, 0, 0)
    } else if i == 2 {
        (1, 0, 1)
    } else if i == 3 {
        (0, 0, 1)
    } else if i == 4 {
        (0, 1, 0)
    } else if i == 5 {
        (1, 1, 0)
    } else if i == 6 {
        (1, 1, 1)
    } else {
        (0, 1, 1)
    }
}

/// The two corners that edge `e` of the unit cube joins.
pub open spec fn edge_corners(e: int) -> (int, int) {
    if e == 0 {
        (0, 1)
    } else if e == 1 {
        (1, 2)
    } else if e == 2 {
        (2, 3)
    } else if e == 3 {
        (3, 0)
    } else if e == 4 {
        (4, 5)
    } else if e == 5 {
        (5, 6)
    } else if e == 6 {
        (6, 7)
    } else if e == 7 {
        (7, 4)
    } else if e == 8 {
        (0, 4)
    } else if e == 9 {
        (1, 5)
    } else if e == 10 {
        (2, 6)
    } else {
        (3, 7)
    }
}

/// Whether corner `i` is solid in `code`: whether bit `i` of `code` is set.
#[verifier::opaque]
pub open spec fn corner_solid(code: u8, i: int) -> bool {
    if i == 0 {
        code % 2 == 1
    } else if i == 1 {
        (code / 2) % 2 == 1
    } else if i == 2 {
        (code / 4) % 2 == 1
    } else if i == 3 {
        (code / 8) % 2 == 1
    } else if i == 4 {
        (code / 16) % 2 == 1
    } else if i == 5 {
        (code / 32) % 2 == 1
    } else if i == 6 {
        (code / 64) % 2 == 1
    } else {
        (code / 128) % 2 == 1
    }
}

/// Whether the surface of `code` crosses edge `e`: one end solid, the other empty.
pub open spec fn edge_crossed(code: u8, e: int) -> bool {
    corner_solid(code, edge_corners(e).0) != corner_solid(code, edge_corners(e).1)
}

/// The midpoint of edge `e`, in half units.
pub open spec fn edge_midpoint(e: int) -> Point3 {
    let a = corner_offset(edge_corners(e).0);
    let b = corner_offset(edge_corners(e).1);
    Point3 { x: (a.0 + b.0) as i64, y: (a.1 + b.1) as i64, z: (a.2 + b.2) as i64 }
}

/// The step along edge `e` from its solid end to its empty end in `code`.
pub open spec fn edge_outward(code: u8, e: int) -> (int, int, int) {
    let a = corner_offset(edge_corners(e).0);
    let b = corner_offset(edge_corners(e).1);
    if corner_solid(code, edge_corners(e).0) {
        (b.0 - a.0, b.1 - a.1, b.2 - a.2)
    } else {
        (a.0 - b.0, a.1 - b.1, a.2 - b.2)
    }
}

/// The product `a * b`, written out for the small factors that occur between
/// points of the unit cube, so that it can be evaluated term by term.
pub open spec fn small_product(a: int, b: int) -> int {
    if a == 0 {
        0
    } else if a == 1 {
        b
    } else if a == -1 {
        -b
    } else if a == 2 {
        b + b
    } else if a == -2 {
        -b - b
    } else {
        a * b
    }
}

/// The cross product of two steps between cube points.
pub open spec fn cross(u: (int, int, int), v: (int, int, int)) -> (int, int, int) {
    (
        small_product(u.1, v.2) - small_product(u.2, v.1),
        small_product(u.2, v.0) - small_product(u.0, v.2),
        small_product(u.0, v.1) - small_product(u.1, v.0),
    )
}

/// The dot product of a normal `n` with a step `d` along a cube edge.
#[verifier::opaque]
pub open spec fn dot(n: (int, int, int), d: (int, int, int)) -> int {
    small_product(d.0, n.0) + small_product(d.1, n.1) + small_product(d.2, n.2)
}

/// The right-hand normal of the triangle on the midpoints of edges `e0`, `e1`, `e2`.
#[verifier::opaque]
pub open spec fn triangle_normal(e0: int, e1: int, e2: int) -> (int, int, int) {
    let a = edge_midpoint(e0);
    let b = edge_midpoint(e1);
    let c = edge_midpoint(e2);
    cross((b.x - a.x, b.y - a.y, b.z - a.z), (c.x - a.x, c.y - a.y, c.z - a.z))
}

/// The triangle on edges `e0`, `e1`, `e2` turns its back to the empty side of
/// `code`: its normal points along no edge from solid to empty, and against
/// at least one.
#[verifier::opaque]
pub open spec fn faces_inward(code: u8, e0: int, e1: int, e2: int) -> bool {
    let n = triangle_normal(e0, e1, e2);
    let s0 = dot(n, edge_outward(code, e0));
    let s1 = dot(n, edge_outward(code, e1));
    let s2 = dot(n, edge_outward(code, e2));
    s0 <= 0 && s1 <= 0 && s2 <= 0 && s0 + s1 + s2 < 0
}

/// Entry `j` of a row: its `j`-th group of four bits, lowest first.
#[verifier::opaque]
pub open spec fn row_entry(row: u64, j: int) -> int {
    let r = row as int;
    if j == 0 {
        r % 16
    } else if j == 1 {
        (r / 0x10) % 16
    } else if j == 2 {
        (r / 0x100) % 16
    } else if j == 3 {
        (r / 0x1000) % 16
    } else if j == 4 {
        (r / 0x1_0000) % 16
    } else if j == 5 {
        (r / 0x10_0000) % 16
    } else if j == 6 {
        (r / 0x100_0000) % 16
    } else if j == 7 {
        (r / 0x1000_0000) % 16
    } else if j == 8 {
        (r / 0x1_0000_0000) % 16
    } else if j == 9 {
        (r / 0x10_0000_0000) % 16
    } else if j == 10 {
        (r / 0x100_0000_0000) % 16
    } else if j == 11 {
        (r / 0x1000_0000_0000) % 16
    } else if j == 12 {
        (r / 0x1_0000_0000_0000) % 16
    } else if j == 13 {
        (r / 0x10_0000_0000_0000) % 16
    } else if j == 14 {
        (r / 0x100_0000_0000_0000) % 16
    } else {
        (r / 0x1000_0000_0000_0000) % 16
    }
}

/// Number of triangles in a row: the entries before the first 15 that stands
/// where a triangle would begin.
pub open spec fn triangle_count(row: u64) -> int {
    if row_entry(row, 0) == 15 {
        0
    } else if row_entry(row, 3) == 15 {
        1
    } else if row_entry(row, 6) == 15 {
        2
    } else if row_entry(row, 9) == 15 {
        3
    } else if row_entry(row, 12) == 15 {
        4
    } else {
        5
    }
}

/// Entry `j` of the row is in order for `code`: a used entry names an edge
/// that the surface crosses, an unused one is 15.
pub open spec fn entry_fits(row: u64, code: u8, j: int) -> bool {
    if j < 3 * triangle_count(row) {
        0 <= row_entry(row, j) < 12 && edge_crossed(code, row_entry(row, j))
    } else {
        row_entry(row, j) == 15
    }
}

/// Triangle `t` of the row, if there is one, turns its back to the empty side of `code`.
pub open spec fn triangle_fits(row: u64, code: u8, t: int) -> bool {
    t < triangle_count(row) ==> faces_inward(
        code,
        row_entry(row, 3 * t),
        row_entry(row, 3 * t + 1),
        row_entry(row, 3 * t + 2),
    )
}

/// Some triangle of the row has a corner on edge `e`.
pub open spec fn row_has_edge(row: u64, e: int) -> bool {
    exists|j: int| 0 <= j < 3 * triangle_count(row) && #[trigger] row_entry(row, j) == e
}

/// The triangles of the row are a surface for `code`: their corners lie on
/// crossed edges, every crossed edge carries a corner, and every triangle
/// turns its back to the empty side.
pub open spec fn row_fits(row: u64, code: u8) -> bool {
    &&& forall|j: int| 0 <= j < 16 ==> #[trigger] entry_fits(row, code, j)
    &&& forall|t: int| 0 <= t < 5 ==> #[trigger] triangle_fits(row, code, t)
    &&& forall|e: int| 0 <= e < 12 && #[trigger] edge_crossed(code, e) ==> row_has_edge(row, e)
}

/// The occupancy code that a row of triangles stands for.
pub open spec fn implied_code(row: u64) -> u8 {
    choose|code: u8| row_fits(row, code)
}

#[verifier::opaque]
pub(crate) open spec fn entry_check(row: u64, code: u8, j: int) -> bool {
    entry_fits(row, code, j)
}

#[verifier::opaque]
pub(crate) open spec fn triangle_check(row: u64, code: u8, t: int) -> bool {
    triangle_fits(row, code, t)
}

/// Entry `j` of the row is used and names edge `e`.
pub(crate) open spec fn entry_names(row: u64, j: int, e: int) -> bool {
    j < 3 * triangle_count(row) && row_entry(row, j) == e
}

#[verifier::opaque]
pub(crate) open spec fn edge_check(row: u64, code: u8, e: int) -> bool {
    edge_crossed(code, e) ==> {
        ||| entry_names(row, 0, e)
        ||| entry_names(row, 1, e)
        ||| entry_names(row, 2, e)
        ||| entry_names(row, 3, e)
        ||| entry_names(row, 4, e)
        ||| entry_names(row, 5, e)
        ||| entry_names(row, 6, e)
        ||| entry_names(row, 7, e)
        ||| entry_names(row, 8, e)
        ||| entry_names(row, 9, e)
        ||| entry_names(row, 10, e)
        ||| entry_names(row, 11, e)
        ||| entry_names(row, 12, e)
        ||| entry_names(row, 13, e)
        ||| entry_names(row, 14, e)
    }
}

/// What `row_fits` asks, entry by entry.
pub(crate) open spec fn row_checks(row: u64, code: u8) -> bool {
    &&& entry_check(row, code, 0)
    &&& entry_check(row, code, 1)
    &&& entry_check(row, code, 2)
    &&& entry_check(row, code, 3)
    &&& entry_check(row, code, 4)
    &&& entry_check(row, code, 5)
    &&& entry_check(row, code, 6)
    &&& entry_check(row, code, 7)
    &&& entry_check(row, code, 8)
    &&& entry_check(row, code, 9)
    &&& entry_check(row, code, 10)
    &&& entry_check(row, code, 11)
    &&& entry_check(row, code, 12)
    &&& entry_check(row, code, 13)
    &&& entry_check(row, code, 14)
    &&& entry_check(row, code, 15)
    &&& triangle_check(row, code, 0)
    &&& triangle_check(row, code, 1)
    &&& triangle_check(row, code, 2)
    &&& triangle_check(row, code, 3)
    &&& triangle_check(row, code, 4)
    &&& edge_check(row, code, 0)
    &&& edge_check(row, code, 1)
    &&& edge_check(row, code, 2)
    &&& edge_check(row, code, 3)
    &&& edge_check(row, code, 4)
    &&& edge_check(row, code, 5)
    &&& edge_check(row, code, 6)
    &&& edge_check(row, code, 7)
    &&& edge_check(row, code, 8)
    &&& edge_check(row, code, 9)
    &&& edge_check(row, code, 10)
    &&& edge_check(row, code, 11)
}

proof fn lemma_edge_check(row: u64, code: u8, e: int)
    requires
        edge_check(row, code, e),
        edge_crossed(code, e),
    ensures
        row_has_edge(row, e),
{
    reveal(edge_check);
    let j = if entry_names(row, 0, e) {
        0int
    } else if entry_names(row, 1, e) {
        1
    } else if entry_names(row, 2, e) {
        2
    } else if entry_names(row, 3, e) {
        3
    } else if entry_names(row, 4, e) {
        4
    } else if entry_names(row, 5, e) {
        5
    } else if entry_names(row, 6, e) {
        6
    } else if entry_names(row, 7, e) {
        7
    } else if entry_names(row, 8, e) {
        8
    } else if entry_names(row, 9, e) {
        9
    } else if entry_names(row, 10, e) {
        10
    } else if entry_names(row, 11, e) {
        11
    } else if entry_names(row, 12, e) {
        12
    } else if entry_names(row, 13, e) {
        13
    } else {
        14
    };
    assert(entry_names(row, j, e));
    assert(0 <= j < 3 * triangle_count(row) && row_entry(row, j) == e);
}

proof fn lemma_checks_give_fit(row: u64, code: u8)
    requires
        row_checks(row, code),
    ensures
        row_fits(row, code),
{
    assert forall|j: int| 0 <= j < 16 implies #[trigger] entry_fits(row, code, j) by {
        reveal(entry_check);
        assert(entry_check(row, code, j));
    }
    assert forall|t: int| 0 <= t < 5 implies #[trigger] triangle_fits(row, code, t) by {
        reveal(triangle_check);
        assert(triangle_check(row, code, t));
    }
    assert forall|e: int| 0 <= e < 12 && #[trigger] edge_crossed(code, e) implies row_has_edge(
        row,
        e,
    ) by {
        assert(edge_check(row, code, e));
        lemma_edge_check(row, code, e);
    }
}

/// `small_product` is the product.
pub proof fn lemma_small_product(a: int, b: int)
    ensures
        small_product(a, b) == a * b,
{
    assert(small_product(a, b) == a * b) by (nonlinear_arith)
        requires
            small_product(a, b) == (if a == 0 {
                0
            } else if a == 1 {
                b
            } else if a == -1 {
                -b
            } else if a == 2 {
                b + b
            } else if a == -2 {
                -b - b
            } else {
                a * b
            }),
    ;
}

/// The table is sound: the row of every occupancy code is a surface for that code.
pub proof fn lemma_table_fits(code: u8)
    ensures
        row_fits(TRI_TABLE[code as int], code),
{
    lemma_row_checks(code);
    lemma_checks_give_fit(TRI_TABLE[code as int], code);
}

/// Two codes with the same solid corners are the same code.
pub proof fn lemma_corners_tell_code(a: u8, b: u8)
    requires
        forall|i: int| 0 <= i < 8 ==> corner_solid(a, i) == corner_solid(b, i),
    ensures
        a == b,
{
    reveal(corner_solid);
    assert(corner_solid(a, 0) == corner_solid(b, 0));
    assert(corner_solid(a, 1) == corner_solid(b, 1));
    assert(corner_solid(a, 2) == corner_solid(b, 2));
    assert(corner_solid(a, 3) == corner_solid(b, 3));
    assert(corner_solid(a, 4) == corner_solid(b, 4));
    assert(corner_solid(a, 5) == corner_solid(b, 5));
    assert(corner_solid(a, 6) == corner_solid(b, 6));
    assert(corner_solid(a, 7) == corner_solid(b, 7));
    assert(a == b) by (bit_vector)
        requires
            (a % 2 == 1) == (b % 2 == 1),
            ((a / 2) % 2 == 1) == ((b / 2) % 2 == 1),
            ((a / 4) % 2 == 1) == ((b / 4) % 2 == 1),
            ((a / 8) % 2 == 1) == ((b / 8) % 2 == 1),
            ((a / 16) % 2 == 1) == ((b / 16) % 2 == 1),
            ((a / 32) % 2 == 1) == ((b / 32) % 2 == 1),
            ((a / 64) % 2 == 1) == ((b / 64) % 2 == 1),
            ((a / 128) % 2 == 1) == ((b / 128) % 2 == 1),
    ;
}

/// The corners that differ between two codes: when the codes cross the same
/// edges, either no corner differs or every corner does.
proof fn lemma_same_crossings(code: u8, other: u8)
    requires
        forall|e: int| 0 <= e < 12 ==> edge_crossed(code, e) == edge_crossed(other, e),
    ensures
        forall|i: int|
            0 <= i < 8 ==> (#[trigger] corner_solid(code, i) != corner_solid(other, i)) == (
            corner_solid(code, 0) != corner_solid(other, 0)),
{
    assert(edge_crossed(code, 0) == edge_crossed(other, 0));
    assert(edge_crossed(code, 1) == edge_crossed(other, 1));
    assert(edge_crossed(code, 2) == edge_crossed(other, 2));
    assert(edge_crossed(code, 8) == edge_crossed(other, 8));
    assert(edge_crossed(code, 9) == edge_crossed(other, 9));
    assert(edge_crossed(code, 10) == edge_crossed(other, 10));
    assert(edge_crossed(code, 11) == edge_crossed(other, 11));
}

/// Turning every corner of a code around turns every step from solid to empty around.
proof fn lemma_flip_turns_step(code: u8, other: u8, n: (int, int, int), e: int)
    requires
        0 <= e < 12,
        forall|i: int| 0 <= i < 8 ==> corner_solid(code, i) != corner_solid(other, i),
    ensures
        dot(n, edge_outward(other, e)) == -dot(n, edge_outward(code, e)),
{
    reveal(dot);
    let a = edge_corners(e).0;
    assert(0 <= a < 8);
    assert(corner_solid(code, a) != corner_solid(other, a));
}

/// No triangle turns its back to the empty side both of a code and of the
/// code with every corner turned around.
proof fn lemma_turned_triangle(code: u8, other: u8, e0: int, e1: int, e2: int)
    requires
        0 <= e0 < 12,
        0 <= e1 < 12,
        0 <= e2 < 12,
        forall|i: int| 0 <= i < 8 ==> corner_solid(code, i) != corner_solid(other, i),
        faces_inward(code, e0, e1, e2),
    ensures
        !faces_inward(other, e0, e1, e2),
{
    let n = triangle_normal(e0, e1, e2);
    lemma_flip_turns_step(code, other, n, e0);
    lemma_flip_turns_step(code, other, n, e1);
    lemma_flip_turns_step(code, other, n, e2);
    reveal(faces_inward);
}

/// Two codes for which one row is a surface cross the same edges.
proof fn lemma_crossings_agree(row: u64, code: u8, other: u8)
    requires
        row_fits(row, code),
        row_fits(row, other),
    ensures
        forall|e: int| 0 <= e < 12 ==> edge_crossed(code, e) == edge_crossed(other, e),
{
    assert forall|e: int| 0 <= e < 12 implies edge_crossed(code, e) == edge_crossed(other, e) by {
        if edge_crossed(code, e) {
            assert(row_has_edge(row, e));
            let j = choose|j: int| 0 <= j < 3 * triangle_count(row) && #[trigger] row_entry(row, j) == e;
            assert(entry_fits(row, other, j));
        }
        if edge_crossed(other, e) {
            assert(row_has_edge(row, e));
            let j = choose|j: int| 0 <= j < 3 * triangle_count(row) && #[trigger] row_entry(row, j) == e;
            assert(entry_fits(row, code, j));
        }
    }
}

/// The triangles of a row tell its occupancy code: a row that holds a
/// triangle is a surface for one code only.
pub proof fn lemma_mesh_tells_code(row: u64, code: u8, other: u8)
    requires
        row_fits(row, code),
        row_fits(row, other),
        triangle_count(row) > 0,
    ensures
        other == code,
{
    lemma_crossings_agree(row, code, other);
    lemma_same_crossings(code, other);
    if corner_solid(code, 0) == corner_solid(other, 0) {
        lemma_corners_tell_code(code, other);
    } else {
        let e0 = row_entry(row, 0);
        let e1 = row_entry(row, 1);
        let e2 = row_entry(row, 2);
        assert(entry_fits(row, code, 0));
        assert(entry_fits(row, code, 1));
        assert(entry_fits(row, code, 2));
        assert(triangle_fits(row, code, 0));
        assert(triangle_fits(row, other, 0));
        lemma_turned_triangle(code, other, e0, e1, e2);
    }
}

/// A cell whose corners are all empty or all solid has no triangles.
pub proof fn lemma_uniform_cell_is_empty(row: u64, code: u8)
    requires
        row_fits(row, code),
        code == 0 || code == 255,
    ensures
        triangle_count(row) == 0,
{
    if triangle_count(row) > 0 {
        assert(entry_fits(row, code, 0));
        let e = row_entry(row, 0);
        assert(edge_crossed(code, e));
        reveal(corner_solid);
    }
}

/// A cell with a solid and an empty corner has a triangle.
pub proof fn lemma_mixed_cell_has_triangles(row: u64, code: u8)
    requires
        row_fits(row, code),
        code != 0,
        code != 255,
    ensures
        triangle_count(row) > 0,
{
    if forall|e: int| 0 <= e < 12 ==> !edge_crossed(code, e) {
        assert forall|e: int| 0 <= e < 12 implies edge_crossed(code, e) == edge_crossed(0, e) by {
            reveal(corner_solid);
        }
        lemma_same_crossings(code, 0);
        if corner_solid(code, 0) {
            assert forall|i: int| 0 <= i < 8 implies corner_solid(code, i) == corner_solid(255, i) by {
                reveal(corner_solid);
            }
            lemma_corners_tell_code(code, 255);
        } else {
            assert forall|i: int| 0 <= i < 8 implies corner_solid(code, i) == corner_solid(0, i) by {
                reveal(corner_solid);
            }
            lemma_corners_tell_code(code, 0);
        }
    } else {
        let e = choose|e: int| 0 <= e < 12 && edge_crossed(code, e);
        assert(row_has_edge(row, e));
    }
}

/// Reading the occupancy code back from the triangles of a code gives that
/// code, for every code that has a solid and an empty corner.
pub proof fn lemma_decode_of_encode(code: u8)
    requires
        code != 0,
        code != 255,
    ensures
        implied_code(TRI_TABLE[code as int]) == code,
{
    let row = TRI_TABLE[code as int];
    lemma_table_fits(code);
    lemma_mixed_cell_has_triangles(row, code);
    lemma_mesh_tells_code(row, code, implied_code(row));
}

/// The codes 0 and 255 have no triangles.
pub proof fn lemma_uniform_codes_are_empty(code: u8)
    requires
        code == 0 || code == 255,
    ensures
        triangle_count(TRI_TABLE[code as int]) == 0,
{
    lemma_table_fits(code);
    lemma_uniform_cell_is_empty(TRI_TABLE[code as int], code);
}

/// Where corner `i` of the unit cube lies.
pub fn corner_of(i: usize) -> (o: (usize, usize, usize))
    requires
        i < 8,
    ensures
        o.0 == corner_offset(i as int).0,
        o.1 == corner_offset(i as int).1,
        o.2 == corner_offset(i as int).2,
{
    if i == 0 {
        (0, 0, 0)
    } else if i == 1 {
        (1, 0, 0)
    } else if i == 2 {
        (1, 0, 1)
    } else if i == 3 {
        (0, 0, 1)
    } else if i == 4 {
        (0, 1, 0)
    } else if i == 5 {
        (1, 1, 0)
    } else if i == 6 {
        (1, 1, 1)
    } else {
        (0, 1, 1)
    }
}

/// The two corners that edge `e` joins.
pub fn corners_of_edge(e: u8) -> (c: (usize, usize))
    requires
        e < 12,
    ensures
        c.0 == edge_corners(e as int).0,
        c.1 == edge_corners(e as int).1,
        c.0 < 8,
        c.1 < 8,
{
    if e == 0 {
        (0, 1)
    } else if e == 1 {
        (1, 2)
    } else if e == 2 {
        (2, 3)
    } else if e == 3 {
        (3, 0)
    } else if e == 4 {
        (4, 5)
    } else if e == 5 {
        (5, 6)
    } else if e == 6 {
        (6, 7)
    } else if e == 7 {
        (7, 4)
    } else if e == 8 {
        (0, 4)
    } else if e == 9 {
        (1, 5)
    } else if e == 10 {
        (2, 6)
    } else {
        (3, 7)
    }
}

/// The midpoint of edge `e`, in half units.
pub fn edge_point(e: u8) -> (p: Point3)
    requires
        e < 12,
    ensures
        p == edge_midpoint(e as int),
{
    let ends = corners_of_edge(e);
    let a = corner_of(ends.0);
    let b = corner_of(ends.1);
    Point3 { x: (a.0 + b.0) as i64, y: (a.1 + b.1) as i64, z: (a.2 + b.2) as i64 }
}

/// Entry `j` of a row.
pub fn entry_of(row: u64, j: usize) -> (e: u8)
    requires
        j < 16,
    ensures
        e == row_entry(row, j as int),
{
    reveal(row_entry);
    let shifted: u64 = if j == 0 {
        row
    } else if j == 1 {
        row / 0x10
    } else if j == 2 {
        row / 0x100
    } else if j == 3 {
        row / 0x1000
    } else if j == 4 {
        row / 0x1_0000
    } else if j == 5 {
        row / 0x10_0000
    } else if j == 6 {
        row / 0x100_0000
    } else if j == 7 {
        row / 0x1000_0000
    } else if j == 8 {
        row / 0x1_0000_0000
    } else if j == 9 {
        row / 0x10_0000_0000
    } else if j == 10 {
        row / 0x100_0000_0000
    } else if j == 11 {
        row / 0x1000_0000_0000
    } else if j == 12 {
        row / 0x1_0000_0000_0000
    } else if j == 13 {
        row / 0x10_0000_0000_0000
    } else if j == 14 {
        row / 0x100_0000_0000_0000
    } else {
        row / 0x1000_0000_0000_0000
    };
    (shifted % 16) as u8
}

/// The triangles of one cell: those of the row of `code`, each corner the
/// midpoint of the cube edge that the row names.  No triangle for the codes 0
/// and 255.
pub fn march(code: u8) -> (tris: Vec<Triangle>)
    ensures
        tris@.len() == triangle_count(TRI_TABLE[code as int]),
        forall|t: int, k: int|
            0 <= t < tris@.len() && 0 <= k < 3 ==> (#[trigger] tris@[t].points@[k]) == edge_midpoint(
                row_entry(TRI_TABLE[code as int], 3 * t + k),
            ),
        code == 0 || code == 255 ==> tris@.len() == 0,
{
    let row: u64 = TRI_TABLE[code as usize];
    proof {
        lemma_table_fits(code);
        if code == 0 || code == 255 {
            lemma_uniform_cell_is_empty(row, code);
        }
    }
    let mut tris: Vec<Triangle> = Vec::new();
    let mut t: usize = 0;
    while t < 5 && entry_of(row, 3 * t) != 15
        invariant
            t <= 5,
            row == TRI_TABLE[code as int],
            row_fits(row, code),
            tris@.len() == t,
            t <= triangle_count(row),
            forall|s: int, k: int|
                0 <= s < t && 0 <= k < 3 ==> (#[trigger] tris@[s].points@[k]) == edge_midpoint(
                    row_entry(row, 3 * s + k),
                ),
        decreases 5 - t,
    {
        assert(t < triangle_count(row));
        assert(entry_fits(row, code, 3 * t));
        assert(entry_fits(row, code, 3 * t + 1));
        assert(entry_fits(row, code, 3 * t + 2));
        let tri = Triangle::new(
            edge_point(entry_of(row, 3 * t)),
            edge_point(entry_of(row, 3 * t + 1)),
            edge_point(entry_of(row, 3 * t + 2)),
        );
        tris.push(tri);
        t += 1;
    }
    tris
}

} // verus!
