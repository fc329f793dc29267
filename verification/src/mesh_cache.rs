//! Welding triangle lists into vertex and index lists, for one chunk and for
//! the whole terrain.

use crate::marching_cubes::{
    all_in_box, chunk_in_grid, chunk_mesh, frame_of, generate_chunk_lod_mesh,
    generate_chunk_mesh_from_heightmap, in_chunk_box, lemma_chunk_mesh_in_box, lemma_chunk_place,
    lemma_lod_mesh_in_box, lod_mesh_indices, lod_mesh_vertices,
};
use crate::structs::Point3;
use std::collections::HashMap;
use vstd::prelude::*;

verus! {

broadcast use vstd::std_specs::hash::group_hash_axioms;

/// Number of values that a coordinate takes in a key.
pub const KEY_SPAN: u128 = 0x400_0000_0000;

/// Half of `KEY_SPAN`: a coordinate `c` with `-KEY_HALF <= c < KEY_HALF` has a value of its own.
pub const KEY_HALF: i64 = 0x200_0000_0000;

/// The value of a coordinate in a key: the coordinate moved up by
/// `KEY_HALF`, held between 0 and `KEY_SPAN - 1`.
pub open spec fn key_coord(c: i64) -> int {
    if c < -KEY_HALF {
        0
    } else if c >= KEY_HALF {
        KEY_SPAN - 1
    } else {
        c + KEY_HALF
    }
}

/// Whether every coordinate of the point has a key value of its own.  The
/// vertices of a chunk and of a terrain do: see `lemma_box_has_keys`.
pub open spec fn in_key_range(p: Point3) -> bool {
    &&& -KEY_HALF <= p.x < KEY_HALF
    &&& -KEY_HALF <= p.y < KEY_HALF
    &&& -KEY_HALF <= p.z < KEY_HALF
}

/// The number under which a point is welded: the key values of its three
/// coordinates side by side.
pub open spec fn weld_key(p: Point3) -> u128 {
    ((key_coord(p.x) * KEY_SPAN + key_coord(p.y)) * KEY_SPAN + key_coord(p.z)) as u128
}

/// Points in range are welded only with themselves: equal keys are equal points.
pub proof fn lemma_weld_key_tells_point(p: Point3, q: Point3)
    requires
        in_key_range(p),
        in_key_range(q),
        weld_key(p) == weld_key(q),
    ensures
        p == q,
{
    let a = key_coord(p.x) * KEY_SPAN + key_coord(p.y);
    let b = key_coord(q.x) * KEY_SPAN + key_coord(q.y);
    assert(0 <= a < KEY_SPAN * KEY_SPAN && 0 <= b < KEY_SPAN * KEY_SPAN);
    assert(a * KEY_SPAN + key_coord(p.z) == b * KEY_SPAN + key_coord(q.z));
    assert(a == b);
}

fn coord_of(c: i64) -> (v: u128)
    ensures
        v == key_coord(c),
        v < KEY_SPAN,
{
    if c < -KEY_HALF {
        0
    } else if c >= KEY_HALF {
        KEY_SPAN - 1
    } else {
        (c + KEY_HALF) as u128
    }
}

/// The number under which a point is welded.
pub fn key_of(p: Point3) -> (key: u128)
    ensures
        key == weld_key(p),
{
    (coord_of(p.x) * KEY_SPAN + coord_of(p.y)) * KEY_SPAN + coord_of(p.z)
}

/// The place in `points` of the point with key `key`, looking from the end;
/// -1 where no point has that key.
pub open spec fn key_position(points: Seq<Point3>, key: u128) -> int
    decreases points.len(),
{
    if points.len() == 0 {
        -1
    } else if weld_key(points.last()) == key {
        points.len() - 1
    } else {
        key_position(points.drop_last(), key)
    }
}

/// The points of `raw` with each key kept once, in the order in which the
/// keys first occur.
pub open spec fn welded_points(raw: Seq<Point3>) -> Seq<Point3>
    decreases raw.len(),
{
    if raw.len() == 0 {
        Seq::empty()
    } else {
        let rest = welded_points(raw.drop_last());
        if key_position(rest, weld_key(raw.last())) >= 0 {
            rest
        } else {
            rest.push(raw.last())
        }
    }
}

/// For each point of `raw` the place in `welded_points(raw)` of the point that
/// stands for its key.
pub open spec fn welded_indices(raw: Seq<Point3>) -> Seq<usize>
    decreases raw.len(),
{
    if raw.len() == 0 {
        Seq::empty()
    } else {
        welded_indices(raw.drop_last()).push(
            key_position(welded_points(raw), weld_key(raw.last())) as usize,
        )
    }
}

/// A place that `key_position` gives lies in the list and holds the key.
pub proof fn lemma_key_position(points: Seq<Point3>, key: u128)
    ensures
        -1 <= key_position(points, key) < points.len(),
        key_position(points, key) >= 0 ==> weld_key(points[key_position(points, key)]) == key,
        key_position(points, key) < 0 ==> forall|i: int|
            0 <= i < points.len() ==> weld_key(#[trigger] points[i]) != key,
    decreases points.len(),
{
    if points.len() > 0 {
        lemma_key_position(points.drop_last(), key);
        if weld_key(points.last()) != key && key_position(points, key) < 0 {
            assert forall|i: int| 0 <= i < points.len() implies weld_key(#[trigger] points[i])
                != key by {
                if i < points.len() - 1 {
                    assert(points.drop_last()[i] == points[i]);
                }
            }
        }
    }
}

/// The index list of a welded triangle list is as long as the triangle list.
pub proof fn lemma_welded_lengths(raw: Seq<Point3>)
    ensures
        welded_indices(raw).len() == raw.len(),
        welded_points(raw).len() <= raw.len(),
    decreases raw.len(),
{
    if raw.len() > 0 {
        lemma_welded_lengths(raw.drop_last());
    }
}

/// Welding is sound: every index names a vertex with the key of its corner,
/// and no two vertices share a key.
pub proof fn lemma_welded(raw: Seq<Point3>)
    requires
        raw.len() <= usize::MAX,
    ensures
        welded_indices(raw).len() == raw.len(),
        welded_points(raw).len() <= raw.len(),
        forall|i: int|
            0 <= i < raw.len() ==> 0 <= (#[trigger] welded_indices(raw)[i]) < welded_points(raw).len()
                && weld_key(welded_points(raw)[welded_indices(raw)[i] as int]) == weld_key(
                raw[i],
            ),
        forall|i: int, j: int|
            0 <= i < j < welded_points(raw).len() ==> weld_key(welded_points(raw)[i])
                != weld_key(welded_points(raw)[j]),
    decreases raw.len(),
{
    lemma_welded_lengths(raw);
    if raw.len() > 0 {
        let shorter = raw.drop_last();
        lemma_welded(shorter);
        let rest = welded_points(shorter);
        let all = welded_points(raw);
        let key = weld_key(raw.last());
        lemma_key_position(rest, key);
        lemma_key_position(all, key);
        if key_position(rest, key) < 0 {
            assert(all == rest.push(raw.last()));
            assert(all.last() == raw.last());
            assert(key_position(all, key) == all.len() - 1);
        } else {
            assert(all == rest);
        }
        let place = key_position(all, key);
        assert(0 <= place < all.len());
        assert forall|i: int| 0 <= i < raw.len() implies 0 <= (#[trigger] welded_indices(raw)[i])
            < all.len() && weld_key(all[welded_indices(raw)[i] as int]) == weld_key(raw[i]) by {
            if i < raw.len() - 1 {
                assert(welded_indices(raw)[i] == welded_indices(shorter)[i]);
                assert(shorter[i] == raw[i]);
                assert(all[welded_indices(shorter)[i] as int] == rest[welded_indices(
                    shorter,
                )[i] as int]);
            } else {
                assert(welded_indices(raw)[i] == place as usize);
            }
        }
        assert forall|i: int, j: int| 0 <= i < j < all.len() implies weld_key(all[i])
            != weld_key(all[j]) by {
            if j == rest.len() {
                assert(all[i] == rest[i]);
            } else {
                assert(all[i] == rest[i] && all[j] == rest[j]);
            }
        }
    }
}

/// Every welded point is one of the points given.
pub proof fn lemma_welded_points_are_given(raw: Seq<Point3>, i: int)
    requires
        0 <= i < welded_points(raw).len(),
    ensures
        exists|j: int| 0 <= j < raw.len() && #[trigger] raw[j] == welded_points(raw)[i],
    decreases raw.len(),
{
    if raw.len() > 0 {
        let shorter = raw.drop_last();
        let rest = welded_points(shorter);
        if i < rest.len() {
            lemma_welded_points_are_given(shorter, i);
            let j = choose|j: int| 0 <= j < shorter.len() && #[trigger] shorter[j] == rest[i];
            assert(raw[j] == welded_points(raw)[i]);
        } else {
            assert(raw[raw.len() - 1] == welded_points(raw)[i]);
        }
    }
}

/// Welding points in range is exact: every index names the very point of
/// its corner, and no point stands twice in the welded list.
pub proof fn lemma_weld_is_exact(raw: Seq<Point3>)
    requires
        raw.len() <= usize::MAX,
        forall|j: int| 0 <= j < raw.len() ==> in_key_range(#[trigger] raw[j]),
    ensures
        forall|i: int| 0 <= i < welded_points(raw).len() ==> in_key_range(#[trigger] welded_points(raw)[i]),
        forall|i: int|
            0 <= i < raw.len() ==> welded_points(raw)[(#[trigger] welded_indices(raw)[i]) as int]
                == raw[i],
        forall|i: int, j: int|
            0 <= i < j < welded_points(raw).len() ==> welded_points(raw)[i] != welded_points(raw)[j],
{
    lemma_welded(raw);
    let welded = welded_points(raw);
    assert forall|i: int| 0 <= i < welded.len() implies in_key_range(#[trigger] welded[i]) by {
        lemma_welded_points_are_given(raw, i);
    }
    assert forall|i: int| 0 <= i < raw.len() implies welded[(#[trigger] welded_indices(raw)[i]) as int]
        == raw[i] by {
        let k = welded_indices(raw)[i] as int;
        lemma_weld_key_tells_point(welded[k], raw[i]);
    }
}

/// Welds points into a vertex list and an index list as they come.
pub struct Welder {
    places: HashMap<u128, usize>,
    points: Vec<Point3>,
    indices: Vec<usize>,
    fed: Ghost<Seq<Point3>>,
}

impl Welder {
    /// The points given so far.
    pub closed spec fn fed(&self) -> Seq<Point3> {
        self.fed@
    }

    /// The invariant of the welder: its lists are those of the points given so far.
    pub closed spec fn wf(&self) -> bool {
        &&& self.points@ == welded_points(self.fed@)
        &&& self.indices@ == welded_indices(self.fed@)
        &&& forall|key: u128| #[trigger]
            self.places@.contains_key(key) <==> key_position(self.points@, key) >= 0
        &&& forall|key: u128| #[trigger]
            self.places@.contains_key(key) ==> self.places@[key] == key_position(self.points@, key)
    }

    /// The welder has been given no more points than a list can hold.
    pub proof fn lemma_fed_length(&self)
        requires
            self.wf(),
        ensures
            self.fed().len() <= usize::MAX,
    {
        lemma_welded_lengths(self.fed@);
        assert(self.indices@.len() == self.indices.len());
    }

    /// A welder that has been given nothing.
    pub fn new() -> (w: Self)
        ensures
            w.wf(),
            w.fed() == Seq::<Point3>::empty(),
    {
        Welder {
            places: HashMap::new(),
            points: Vec::new(),
            indices: Vec::new(),
            fed: Ghost(Seq::empty()),
        }
    }

    /// Gives the welder one more point.
    pub fn add(&mut self, p: Point3)
        requires
            old(self).wf(),
        ensures
            final(self).wf(),
            final(self).fed() == old(self).fed().push(p),
    {
        let key: u128 = key_of(p);
        let ghost before = self.points@;
        let ghost raw = self.fed@.push(p);
        proof {
            assert(raw.drop_last() =~= self.fed@);
            lemma_key_position(before, key);
        }
        let found: Option<usize> = match self.places.get(&key) {
            Some(place) => Some(*place),
            None => None,
        };
        match found {
            Some(place) => {
                self.indices.push(place);
            },
            None => {
                let place: usize = self.points.len();
                self.places.insert(key, place);
                self.points.push(p);
                self.indices.push(place);
                proof {
                    assert(self.points@.drop_last() =~= before);
                    assert forall|k: u128| #[trigger]
                        self.places@.contains_key(k) <==> key_position(self.points@, k) >= 0 by {
                        lemma_key_position(before, k);
                    }
                }
            },
        }
        self.fed = Ghost(raw);
    }

    /// The welded lists: each key once, and for each point given the place of its key.
    pub fn finish(self) -> (r: (Vec<Point3>, Vec<usize>))
        requires
            self.wf(),
        ensures
            r.0@ == welded_points(self.fed()),
            r.1@ == welded_indices(self.fed()),
    {
        (self.points, self.indices)
    }
}

/// Welds a triangle list: the vertex list holds each key once, and the index
/// list names for each corner the vertex that stands for its key.
pub fn weld(raw: &Vec<Point3>) -> (r: (Vec<Point3>, Vec<usize>))
    ensures
        r.0@ == welded_points(raw@),
        r.1@ == welded_indices(raw@),
{
    let mut welder = Welder::new();
    let mut i: usize = 0;
    while i < raw.len()
        invariant
            i <= raw@.len(),
            welder.wf(),
            welder.fed() == raw@.subrange(0, i as int),
        decreases raw@.len() - i,
    {
        welder.add(raw[i]);
        assert(raw@.subrange(0, i + 1) =~= raw@.subrange(0, i as int).push(raw@[i as int]));
        i += 1;
    }
    assert(raw@.subrange(0, i as int) =~= raw@);
    welder.finish()
}

/// The vertex list of chunk `chunk_id`: a grid at a level of detail above 0,
/// else the welded marching-cubes mesh.
pub open spec fn chunk_points(
    heights: Seq<i32>,
    chunk_id: int,
    chunk_size: int,
    num_chunks: int,
    lods: Seq<usize>,
) -> Seq<Point3> {
    if lods[chunk_id] > 0 {
        lod_mesh_vertices(heights, chunk_id, chunk_size, num_chunks, lods)
    } else {
        welded_points(chunk_mesh(heights, frame_of(chunk_id, chunk_size, num_chunks, lods)))
    }
}

/// The index list of chunk `chunk_id`, three indices for each triangle.
pub open spec fn chunk_corners(
    heights: Seq<i32>,
    chunk_id: int,
    chunk_size: int,
    num_chunks: int,
    lods: Seq<usize>,
) -> Seq<usize> {
    if lods[chunk_id] > 0 {
        lod_mesh_indices(chunk_size, lods[chunk_id] as int)
    } else {
        welded_indices(chunk_mesh(heights, frame_of(chunk_id, chunk_size, num_chunks, lods)))
    }
}

/// The vertex list of a chunk is exact.  Every vertex lies in the box of the
/// chunk, so that each has a key of its own; at full detail every index
/// names the very point of its corner in the mesh, and no vertex stands twice.
pub proof fn lemma_chunk_lists_are_exact(
    heights: Seq<i32>,
    chunk_id: int,
    chunk_size: int,
    num_chunks: int,
    lods: Seq<usize>,
)
    requires
        chunk_in_grid(chunk_id, chunk_size, num_chunks),
        chunk_mesh(heights, frame_of(chunk_id, chunk_size, num_chunks, lods)).len() <= usize::MAX,
    ensures
        all_in_box(chunk_points(heights, chunk_id, chunk_size, num_chunks, lods), chunk_size),
        forall|i: int|
            0 <= i < chunk_points(heights, chunk_id, chunk_size, num_chunks, lods).len()
                ==> in_key_range(
                #[trigger] chunk_points(heights, chunk_id, chunk_size, num_chunks, lods)[i],
            ),
        lods[chunk_id] == 0 ==> ({
            let raw = chunk_mesh(heights, frame_of(chunk_id, chunk_size, num_chunks, lods));
            let points = chunk_points(heights, chunk_id, chunk_size, num_chunks, lods);
            let corners = chunk_corners(heights, chunk_id, chunk_size, num_chunks, lods);
            &&& forall|i: int| 0 <= i < raw.len() ==> points[(#[trigger] corners[i]) as int] == raw[i]
            &&& forall|i: int, j: int| 0 <= i < j < points.len() ==> points[i] != points[j]
        }),
{
    let f = frame_of(chunk_id, chunk_size, num_chunks, lods);
    lemma_chunk_place(chunk_id, chunk_size, num_chunks);
    let points = chunk_points(heights, chunk_id, chunk_size, num_chunks, lods);
    if lods[chunk_id] > 0 {
        lemma_lod_mesh_in_box(heights, chunk_id, chunk_size, num_chunks, lods);
    } else {
        let raw = chunk_mesh(heights, f);
        lemma_chunk_mesh_in_box(heights, f);
        assert forall|j: int| 0 <= j < raw.len() implies in_key_range(#[trigger] raw[j]) by {
            lemma_box_has_keys(raw[j], chunk_size);
        }
        lemma_weld_is_exact(raw);
        assert forall|i: int| 0 <= i < points.len() implies in_chunk_box(
            #[trigger] points[i],
            chunk_size,
        ) by {
            lemma_welded_points_are_given(raw, i);
        }
    }
    assert forall|i: int| 0 <= i < points.len() implies in_key_range(#[trigger] points[i]) by {
        lemma_box_has_keys(points[i], chunk_size);
    }
}

/// A vertex in the box of a chunk, and the same vertex moved to the place of
/// its chunk in the terrain, have keys of their own.
pub proof fn lemma_box_has_keys(p: Point3, chunk_size: int)
    requires
        in_chunk_box(p, chunk_size),
        chunk_size <= u32::MAX,
    ensures
        in_key_range(p),
        forall|chunk_id: int, num_chunks: int|
            chunk_in_grid(chunk_id, chunk_size, num_chunks) ==> in_key_range(
                #[trigger] terrain_point(p, chunk_id, chunk_size, num_chunks),
            ),
{
    assert forall|chunk_id: int, num_chunks: int|
        chunk_in_grid(chunk_id, chunk_size, num_chunks) implies in_key_range(
        #[trigger] terrain_point(p, chunk_id, chunk_size, num_chunks),
    ) by {
        lemma_chunk_place(chunk_id, chunk_size, num_chunks);
        let col = chunk_id % num_chunks;
        let row = chunk_id / num_chunks;
        assert(0 <= chunk_size * col <= chunk_size * num_chunks && 0 <= chunk_size * row
            <= chunk_size * num_chunks) by (nonlinear_arith)
            requires
                0 <= col < num_chunks,
                0 <= row < num_chunks,
                1 <= chunk_size,
        ;
    }
}

/// Every index names a vertex.
pub open spec fn indices_in_range(indices: Seq<usize>, vertices: int) -> bool {
    forall|k: int| 0 <= k < indices.len() ==> (#[trigger] indices[k]) < vertices
}

/// Builds the vertex and index lists of chunk `chunk_id` from the heights.
pub fn build_chunk(
    heights: &Vec<i32>,
    chunk_id: usize,
    chunk_size: usize,
    num_chunks: usize,
    lods: &Vec<usize>,
) -> (r: (Vec<Point3>, Vec<usize>))
    requires
        chunk_in_grid(chunk_id as int, chunk_size as int, num_chunks as int),
        heights@.len() == (chunk_size * num_chunks) * (chunk_size * num_chunks),
        lods@.len() == num_chunks * num_chunks,
        (chunk_size + 2) * (chunk_size + 2) <= usize::MAX,
    ensures
        r.0@ == chunk_points(
            heights@,
            chunk_id as int,
            chunk_size as int,
            num_chunks as int,
            lods@,
        ),
        r.1@ == chunk_corners(
            heights@,
            chunk_id as int,
            chunk_size as int,
            num_chunks as int,
            lods@,
        ),
        indices_in_range(r.1@, r.0@.len() as int),
        all_in_box(r.0@, chunk_size as int),
{
    proof {
        lemma_chunk_place(chunk_id as int, chunk_size as int, num_chunks as int);
        assert(lods@.len() == lods.len());
    }
    if lods[chunk_id] > 0 {
        proof {
            lemma_lod_mesh_in_box(
                heights@,
                chunk_id as int,
                chunk_size as int,
                num_chunks as int,
                lods@,
            );
        }
        let mut vertices: Vec<Point3> = Vec::new();
        let mut indices: Vec<usize> = Vec::new();
        generate_chunk_lod_mesh(
            heights,
            chunk_id,
            chunk_size,
            num_chunks,
            lods,
            &mut indices,
            &mut vertices,
        );
        (vertices, indices)
    } else {
        let raw = generate_chunk_mesh_from_heightmap(heights, chunk_id, chunk_size, num_chunks, lods);
        proof {
            assert(raw@.len() == raw.len());
            lemma_welded(raw@);
            lemma_chunk_lists_are_exact(
                heights@,
                chunk_id as int,
                chunk_size as int,
                num_chunks as int,
                lods@,
            );
        }
        weld(&raw)
    }
}

/// A coordinate held within the range of `i64`.
pub open spec fn clamp_coord(v: int) -> i64 {
    if v < i64::MIN {
        i64::MIN
    } else if v > i64::MAX {
        i64::MAX
    } else {
        v as i64
    }
}

fn add_coord(a: i64, b: i64) -> (r: i64)
    ensures
        r == clamp_coord(a + b),
{
    let sum: i128 = a as i128 + b as i128;
    if sum < i64::MIN as i128 {
        i64::MIN
    } else if sum > i64::MAX as i128 {
        i64::MAX
    } else {
        sum as i64
    }
}

/// A vertex of a chunk, moved to the chunk's place in the terrain.
pub open spec fn terrain_point(p: Point3, chunk_id: int, chunk_size: int, num_chunks: int) -> Point3 {
    Point3 {
        x: clamp_coord(p.x + 2 * (chunk_size * (chunk_id % num_chunks))),
        y: p.y,
        z: clamp_coord(p.z + 2 * (chunk_size * (chunk_id / num_chunks))),
    }
}

/// The corners of the triangles of one chunk, as points of the terrain.
pub open spec fn chunk_triangles(
    vertices: Seq<Point3>,
    indices: Seq<usize>,
    chunk_id: int,
    chunk_size: int,
    num_chunks: int,
) -> Seq<Point3> {
    Seq::new(
        indices.len(),
        |k: int| terrain_point(vertices[indices[k] as int], chunk_id, chunk_size, num_chunks),
    )
}

/// The corners of the triangles of the chunks that the first `n` entries of
/// `chunk_ids` name, as points of the terrain.
pub open spec fn terrain_triangles(
    vertices: Seq<Vec<Point3>>,
    indices: Seq<Vec<usize>>,
    chunk_ids: Seq<usize>,
    chunk_size: int,
    num_chunks: int,
    n: int,
) -> Seq<Point3>
    decreases n,
{
    if n <= 0 {
        Seq::empty()
    } else {
        let c = chunk_ids[n - 1] as int;
        terrain_triangles(vertices, indices, chunk_ids, chunk_size, num_chunks, n - 1)
            + chunk_triangles(vertices[c]@, indices[c]@, c, chunk_size, num_chunks)
    }
}

/// The chunk lists can be merged: one pair of lists for each chunk of the
/// grid, every index naming a vertex of its chunk.
pub open spec fn chunk_lists_ok(
    vertices: Seq<Vec<Point3>>,
    indices: Seq<Vec<usize>>,
    num_chunks: int,
) -> bool {
    &&& vertices.len() == num_chunks * num_chunks
    &&& indices.len() == num_chunks * num_chunks
    &&& forall|c: int|
        0 <= c < indices.len() ==> indices_in_range(
            (#[trigger] indices[c])@,
            vertices[c]@.len() as int,
        )
}

/// Welds the triangles of the chunks that `chunk_ids` names into one vertex
/// list and one index list for the terrain.
pub fn merge_chunks(
    vertices: &Vec<Vec<Point3>>,
    indices: &Vec<Vec<usize>>,
    chunk_ids: &Vec<usize>,
    chunk_size: usize,
    num_chunks: usize,
) -> (r: (Vec<Point3>, Vec<usize>))
    requires
        1 <= chunk_size,
        1 <= num_chunks,
        chunk_size * num_chunks <= i32::MAX,
        chunk_lists_ok(vertices@, indices@, num_chunks as int),
        forall|k: int| 0 <= k < chunk_ids@.len() ==> (#[trigger] chunk_ids@[k]) < vertices@.len(),
    ensures
        r.0@ == welded_points(
            terrain_triangles(
                vertices@,
                indices@,
                chunk_ids@,
                chunk_size as int,
                num_chunks as int,
                chunk_ids@.len() as int,
            ),
        ),
        r.1@ == welded_indices(
            terrain_triangles(
                vertices@,
                indices@,
                chunk_ids@,
                chunk_size as int,
                num_chunks as int,
                chunk_ids@.len() as int,
            ),
        ),
        indices_in_range(r.1@, r.0@.len() as int),
        r.1@.len() == terrain_triangles(
            vertices@,
            indices@,
            chunk_ids@,
            chunk_size as int,
            num_chunks as int,
            chunk_ids@.len() as int,
        ).len(),
{
    let mut welder = Welder::new();
    let mut n: usize = 0;
    assert(welder.fed() =~= terrain_triangles(
        vertices@,
        indices@,
        chunk_ids@,
        chunk_size as int,
        num_chunks as int,
        0,
    ));
    while n < chunk_ids.len()
        invariant
            n <= chunk_ids@.len(),
            1 <= chunk_size,
            1 <= num_chunks,
            chunk_size * num_chunks <= i32::MAX,
            chunk_lists_ok(vertices@, indices@, num_chunks as int),
            forall|k: int| 0 <= k < chunk_ids@.len() ==> (#[trigger] chunk_ids@[k]) < vertices@.len(),
            welder.wf(),
            welder.fed() == terrain_triangles(
                vertices@,
                indices@,
                chunk_ids@,
                chunk_size as int,
                num_chunks as int,
                n as int,
            ),
        decreases chunk_ids@.len() - n,
    {
        let c: usize = chunk_ids[n];
        let col: usize = c % num_chunks;
        let row: usize = c / num_chunks;
        let ghost done = welder.fed();
        let ghost target = chunk_triangles(
            vertices@[c as int]@,
            indices@[c as int]@,
            c as int,
            chunk_size as int,
            num_chunks as int,
        );
        proof {
            assert(row < num_chunks) by (nonlinear_arith)
                requires
                    c < num_chunks * num_chunks,
                    row == c as int / num_chunks as int,
                    num_chunks >= 1,
            ;
            assert(chunk_size * col <= chunk_size * num_chunks && chunk_size * row <= chunk_size
                * num_chunks) by (nonlinear_arith)
                requires
                    col < num_chunks,
                    row < num_chunks,
                    chunk_size >= 1,
            ;
            assert(indices_in_range(indices@[c as int]@, vertices@[c as int]@.len() as int));
        }
        let off_x: i64 = 2 * ((chunk_size * col) as i64);
        let off_z: i64 = 2 * ((chunk_size * row) as i64);
        let mut k: usize = 0;
        assert(welder.fed() =~= done + target.subrange(0, 0));
        while k < indices[c].len()
            invariant
                k <= indices@[c as int]@.len(),
                c < vertices@.len(),
                vertices@.len() == indices@.len(),
                indices_in_range(indices@[c as int]@, vertices@[c as int]@.len() as int),
                off_x == 2 * (chunk_size * (c % num_chunks)),
                off_z == 2 * (chunk_size * (c / num_chunks)),
                target == chunk_triangles(
                    vertices@[c as int]@,
                    indices@[c as int]@,
                    c as int,
                    chunk_size as int,
                    num_chunks as int,
                ),
                welder.wf(),
                welder.fed() == done + target.subrange(0, k as int),
            decreases indices@[c as int]@.len() - k,
        {
            let idx: usize = indices[c][k];
            assert(idx == indices@[c as int]@[k as int]);
            let v: Point3 = vertices[c][idx];
            let p = Point3 { x: add_coord(v.x, off_x), y: v.y, z: add_coord(v.z, off_z) };
            assert(p == target[k as int]);
            welder.add(p);
            assert(welder.fed() =~= done + target.subrange(0, k + 1));
            k += 1;
        }
        assert(target.subrange(0, k as int) =~= target);
        n += 1;
    }
    proof {
        welder.lemma_fed_length();
        lemma_welded(welder.fed());
    }
    welder.finish()
}

} // verus!
