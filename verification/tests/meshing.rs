use terrain_core::marching_cubes::{
    cell_code_of, generate_chunk_lod_mesh, generate_chunk_mesh_from_height_array,
    generate_chunk_mesh_from_heightmap, height_range, lod_stride,
};
use terrain_core::mesh_cache::{build_chunk, key_of, merge_chunks, weld};
use terrain_core::structs::{Color8, Point2, Point3, Triangle, Vector2Key, Vector3Key};
use terrain_core::tables::{corner_of, corners_of_edge, edge_point, entry_of, march, TRI_TABLE};

fn solid(code: u8, corner: usize) -> bool {
    (code >> corner) & 1 == 1
}

fn edge_of_point(p: Point3) -> Option<u8> {
    (0u8..12).find(|e| edge_point(*e) == p)
}

#[test]
fn empty_and_full_cells_have_no_triangles() {
    assert_eq!(march(0).len(), 0);
    assert_eq!(march(255).len(), 0);
}

#[test]
fn every_mixed_cell_has_one_to_five_triangles() {
    for code in 1u8..255 {
        let n = march(code).len();
        assert!(1 <= n && n <= 5, "code {} has {} triangles", code, n);
    }
}

#[test]
fn one_solid_corner_is_cut_off_by_one_triangle() {
    let tris = march(1);
    assert_eq!(tris.len(), 1);
    assert_eq!(
        tris[0],
        Triangle::new(Point3::new(1, 0, 0), Point3::new(0, 0, 1), Point3::new(0, 1, 0))
    );
}

#[test]
fn flat_ground_is_a_quad_half_a_unit_up() {
    // the four lower corners solid
    let tris = march(15);
    assert_eq!(tris.len(), 2);
    for t in tris.iter() {
        for p in t.points.iter() {
            assert_eq!(p.y, 1);
        }
    }
}

#[test]
fn triangle_corners_lie_on_crossed_edges_and_every_crossed_edge_is_used() {
    for code in 0u8..=255 {
        let tris = march(code);
        let mut used = [false; 12];
        for t in tris.iter() {
            for p in t.points.iter() {
                let e = edge_of_point(*p).expect("a corner of a triangle is the midpoint of an edge");
                let (a, b) = corners_of_edge(e);
                assert_ne!(solid(code, a), solid(code, b), "code {} edge {}", code, e);
                used[e as usize] = true;
            }
        }
        for e in 0u8..12 {
            let (a, b) = corners_of_edge(e);
            assert_eq!(used[e as usize], solid(code, a) != solid(code, b), "code {} edge {}", code, e);
        }
    }
}

#[test]
fn the_mesh_of_a_code_tells_the_code() {
    // Reads the occupancy back from the triangles: the crossed edges part
    // the corners into two sides, and the way a triangle faces says which
    // side is solid.
    for code in 1u8..255 {
        let tris = march(code);
        let mut crossed = [false; 12];
        for t in tris.iter() {
            for p in t.points.iter() {
                crossed[edge_of_point(*p).unwrap() as usize] = true;
            }
        }
        // side[i]: whether corner i lies on the side of corner 0
        let mut side: [Option<bool>; 8] = [None; 8];
        side[0] = Some(true);
        for _ in 0..8 {
            for e in 0u8..12 {
                let (a, b) = corners_of_edge(e);
                if let (Some(s), None) = (side[a], side[b]) {
                    side[b] = Some(s != crossed[e as usize]);
                }
                if let (None, Some(s)) = (side[a], side[b]) {
                    side[a] = Some(s != crossed[e as usize]);
                }
            }
        }
        // the first triangle: its normal points into the solid
        let t = tris[0];
        let (first, second, third) = (t.points[0], t.points[1], t.points[2]);
        let u = (second.x - first.x, second.y - first.y, second.z - first.z);
        let v = (third.x - first.x, third.y - first.y, third.z - first.z);
        let n = (u.1 * v.2 - u.2 * v.1, u.2 * v.0 - u.0 * v.2, u.0 * v.1 - u.1 * v.0);
        let mut corner_zero_solid: Option<bool> = None;
        for p in t.points.iter() {
            let (a, b) = corners_of_edge(edge_of_point(*p).unwrap());
            let (ca, cb) = (corner_of(a), corner_of(b));
            let d = (
                cb.0 as i64 - ca.0 as i64,
                cb.1 as i64 - ca.1 as i64,
                cb.2 as i64 - ca.2 as i64,
            );
            let lean = n.0 * d.0 + n.1 * d.1 + n.2 * d.2;
            if lean != 0 {
                // the normal points from the empty end to the solid end
                let b_solid = lean > 0;
                let zero = if side[b].unwrap() { b_solid } else { !b_solid };
                if let Some(known) = corner_zero_solid {
                    assert_eq!(known, zero, "code {}", code);
                }
                corner_zero_solid = Some(zero);
            }
        }
        let zero = corner_zero_solid.expect("a triangle leans along one of its edges");
        let mut read: u8 = 0;
        for i in 0..8 {
            if side[i].unwrap() == zero {
                read |= 1 << i;
            }
        }
        assert_eq!(read, code);
    }
}

#[test]
fn table_rows_hold_sixteen_entries() {
    assert_eq!(TRI_TABLE[0], 0xffff_ffff_ffff_ffff);
    assert_eq!(entry_of(TRI_TABLE[1], 0), 0);
    assert_eq!(entry_of(TRI_TABLE[1], 1), 3);
    assert_eq!(entry_of(TRI_TABLE[1], 2), 8);
    assert_eq!(entry_of(TRI_TABLE[1], 3), 15);
    assert_eq!(entry_of(TRI_TABLE[1], 15), 15);
}

#[test]
fn cube_corners_and_edges() {
    assert_eq!(corner_of(0), (0, 0, 0));
    assert_eq!(corner_of(6), (1, 1, 1));
    assert_eq!(corner_of(3), (0, 0, 1));
    assert_eq!(corners_of_edge(0), (0, 1));
    assert_eq!(corners_of_edge(11), (3, 7));
    assert_eq!(edge_point(0), Point3::new(1, 0, 0));
    assert_eq!(edge_point(8), Point3::new(0, 1, 0));
    assert_eq!(edge_point(5), Point3::new(2, 2, 1));
}

#[test]
fn cell_codes_follow_the_heights() {
    // a grid of side 2: heights 0 0 / 0 3
    let heights = vec![0, 0, 0, 3];
    assert_eq!(height_range(&heights, 2, 0, 0), (0, 3));
    assert_eq!(height_range(&heights, 2, 1, 1), (3, 3));
    // at level 0 the lower corners are solid, and of the upper ones that above (1, 1): corner 6
    assert_eq!(cell_code_of(&heights, 2, 0, 0, 0), 0b0100_1111);
    // at level 1 only the column at (1, 1) is solid: corners 2 and 6
    assert_eq!(cell_code_of(&heights, 2, 0, 1, 0), 0b0100_0100);
    // at level 3: corner 2 only
    assert_eq!(cell_code_of(&heights, 2, 0, 3, 0), 0b0000_0100);
    assert_eq!(cell_code_of(&heights, 2, 0, 4, 0), 0);
    assert_eq!(cell_code_of(&heights, 2, 0, -1, 0), 255);
}

#[test]
fn flat_chunk_is_two_triangles_a_cell() {
    let heights = vec![0; 16];
    let lods = vec![0; 4];
    let plain = generate_chunk_mesh_from_height_array(&heights, 3, 2, 2);
    assert_eq!(plain.len(), 4 * 6);
    for p in plain.iter() {
        assert_eq!(p.y, 1);
        assert!(0 <= p.x && p.x <= 4 && 0 <= p.z && p.z <= 4);
    }
    let aware = generate_chunk_mesh_from_heightmap(&heights, 3, 2, 2, &lods);
    assert_eq!(aware, plain);
}

#[test]
fn a_step_in_the_ground_is_meshed_through_its_span() {
    // one chunk of side 2: the column at (1, 1) is 2 high
    let heights = vec![0, 0, 0, 2];
    let mesh = generate_chunk_mesh_from_height_array(&heights, 0, 2, 1);
    assert_eq!(mesh.len() % 3, 0);
    let top = mesh.iter().map(|p| p.y).max().unwrap();
    let bottom = mesh.iter().map(|p| p.y).min().unwrap();
    assert_eq!(top, 5);
    assert_eq!(bottom, 1);
}

#[test]
fn transition_flattens_mid_edge_vertices_on_a_coarser_border() {
    // two chunks of side 2 in a row of a 2 by 2 grid; chunk 0 is fine, chunk 1 coarser
    let mut heights = vec![0; 16];
    heights[2] = 2; // the first column of chunk 1, on the border of chunk 0
    let plain = generate_chunk_mesh_from_height_array(&heights, 0, 2, 2);
    let flat_lods = vec![0, 0, 0, 0];
    assert_eq!(generate_chunk_mesh_from_heightmap(&heights, 0, 2, 2, &flat_lods), plain);
    let lods = vec![0, 1, 0, 0];
    let aware = generate_chunk_mesh_from_heightmap(&heights, 0, 2, 2, &lods);
    assert_eq!(aware.len(), plain.len());
    let mut moved = 0;
    for (a, p) in aware.iter().zip(plain.iter()) {
        assert_eq!((a.x, a.z), (p.x, p.z));
        let on_border = p.x / 2 == 2 && p.z % 2 == 1;
        if a.y != p.y {
            assert!(on_border);
            moved += 1;
        }
        if on_border {
            // cells at the border span the heights 0 to 2: the middle of the span, half a unit up
            assert_eq!(a.y, 0 + 2 + 1);
        }
    }
    assert!(moved > 0);
}

#[test]
fn lod_strides() {
    assert_eq!(lod_stride(16, 1), (1, 16));
    assert_eq!(lod_stride(16, 2), (2, 8));
    assert_eq!(lod_stride(16, 5), (16, 1));
    assert_eq!(lod_stride(16, 6), (1, 0));
    assert_eq!(lod_stride(16, 200), (1, 0));
    assert_eq!(lod_stride(6, 3), (4, 1));
}

#[test]
fn lod_mesh_is_a_grid_of_quads() {
    // one chunk of side 2 at level 1: 3 by 3 vertices, 4 quads
    let heights = vec![0, 1, 2, 3];
    let lods = vec![1];
    let mut indices = vec![99usize];
    let mut vertices = vec![Point3::new(9, 9, 9)];
    generate_chunk_lod_mesh(&heights, 0, 2, 1, &lods, &mut indices, &mut vertices);
    assert_eq!(
        vertices,
        vec![
            Point3::new(0, 1, 0),
            Point3::new(2, 3, 0),
            Point3::new(4, 3, 0),
            Point3::new(0, 5, 2),
            Point3::new(2, 7, 2),
            Point3::new(4, 7, 2),
            Point3::new(0, 5, 4),
            Point3::new(2, 7, 4),
            Point3::new(4, 7, 4),
        ]
    );
    assert_eq!(
        indices,
        vec![0, 1, 3, 1, 4, 3, 1, 2, 4, 2, 5, 4, 3, 4, 6, 4, 7, 6, 4, 5, 7, 5, 8, 7]
    );
}

#[test]
fn lod_mesh_at_a_stride_of_two() {
    let heights: Vec<i32> = (0..16).collect();
    let lods = vec![2];
    let mut indices = Vec::new();
    let mut vertices = Vec::new();
    generate_chunk_lod_mesh(&heights, 0, 4, 1, &lods, &mut indices, &mut vertices);
    // samples at 0, 2 and the clamped 4
    assert_eq!(vertices.len(), 9);
    assert_eq!(vertices[0], Point3::new(0, 1, 0));
    assert_eq!(vertices[1], Point3::new(4, 2 * 2 + 1, 0));
    assert_eq!(vertices[2], Point3::new(8, 2 * 3 + 1, 0));
    assert_eq!(vertices[4], Point3::new(4, 2 * 10 + 1, 4));
    assert_eq!(vertices[8], Point3::new(8, 2 * 15 + 1, 8));
    assert_eq!(indices.len(), 24);
}

#[test]
fn lod_mesh_with_a_stride_beyond_the_chunk_is_one_vertex() {
    let heights = vec![7, 0, 0, 0];
    let lods = vec![9];
    let mut indices = Vec::new();
    let mut vertices = Vec::new();
    generate_chunk_lod_mesh(&heights, 0, 2, 1, &lods, &mut indices, &mut vertices);
    assert_eq!(vertices, vec![Point3::new(0, 15, 0)]);
    assert!(indices.is_empty());
}

#[test]
fn lod_mesh_stitches_odd_border_vertices() {
    // a 2 by 2 grid of chunks of side 4; chunk 0 at level 1, its right neighbour coarser
    let mut heights = vec![0; 64];
    for z in 0..8 {
        // column 4 is the right border of chunk 0
        heights[z * 8 + 4] = (z * z) as i32;
    }
    let lods = vec![1, 2, 1, 1];
    let mut indices = Vec::new();
    let mut vertices = Vec::new();
    generate_chunk_lod_mesh(&heights, 0, 4, 2, &lods, &mut indices, &mut vertices);
    assert_eq!(vertices.len(), 25);
    let at = |x: usize, z: usize| vertices[z * 5 + x];
    assert_eq!(at(4, 0).y, 1);
    assert_eq!(at(4, 2).y, 2 * 4 + 1);
    assert_eq!(at(4, 4).y, 2 * 16 + 1);
    // odd places on the border lie midway between their neighbours
    assert_eq!(at(4, 1).y, (1 + 9) / 2);
    assert_eq!(at(4, 3).y, (9 + 33) / 2);
    // the other borders are left alone
    assert_eq!(at(1, 0).y, 1);
    assert_eq!(at(0, 1).y, 1);
    let even = vec![1, 1, 1, 1];
    let mut plain = Vec::new();
    generate_chunk_lod_mesh(&heights, 0, 4, 2, &even, &mut indices, &mut plain);
    assert_eq!(plain[1 * 5 + 4].y, 2 * 1 + 1);
}

#[test]
fn welding_keeps_each_vertex_once() {
    let a = Point3::new(0, 1, 0);
    let b = Point3::new(2, 1, 0);
    let c = Point3::new(0, 1, 2);
    let d = Point3::new(2, 1, 2);
    let (points, indices) = weld(&vec![a, b, c, b, d, c]);
    assert_eq!(points, vec![a, b, c, d]);
    assert_eq!(indices, vec![0, 1, 2, 1, 3, 2]);
    let (none, no_indices) = weld(&Vec::new());
    assert!(none.is_empty() && no_indices.is_empty());
}

#[test]
fn welding_tells_points_below_zero_apart() {
    let low = Point3::new(2, -5, 2);
    let lower = Point3::new(2, -7, 2);
    let (points, indices) = weld(&vec![low, lower, low, Point3::new(-2, -5, 2), lower]);
    assert_eq!(points, vec![low, lower, Point3::new(-2, -5, 2)]);
    assert_eq!(indices, vec![0, 1, 0, 2, 1]);
}

#[test]
fn weld_keys_are_the_coordinates_side_by_side() {
    let span: u128 = 1 << 42;
    let half: u128 = 1 << 41;
    assert_eq!(key_of(Point3::new(0, 0, 0)), (half * span + half) * span + half);
    assert_eq!(key_of(Point3::new(1, -1, 3)), ((half + 1) * span + half - 1) * span + half + 3);
    assert_ne!(key_of(Point3::new(0, -1, 0)), key_of(Point3::new(0, 0, 0)));
    // beyond the range a coordinate takes the value at the rim
    assert_eq!(key_of(Point3::new(i64::MIN, 0, i64::MAX)), half * span + span - 1);
}

#[test]
fn ground_below_zero_keeps_its_vertices() {
    // one chunk of side 2 with a pit: the column at (1, 1) lies at -3
    let heights = vec![0, 0, 0, -3];
    let raw = generate_chunk_mesh_from_height_array(&heights, 0, 2, 1);
    let (points, indices) = build_chunk(&heights, 0, 2, 1, &vec![0]);
    assert_eq!(indices.len(), raw.len());
    for (i, p) in indices.iter().zip(raw.iter()) {
        assert_eq!(points[*i], *p);
    }
    assert!(points.iter().any(|p| p.y < 0));
    assert_eq!(points.iter().map(|p| p.y).min(), Some(2 * -3 + 1));
}

#[test]
fn built_chunk_lists_name_their_vertices() {
    let heights = vec![0, 0, 0, 2];
    let (points, indices) = build_chunk(&heights, 0, 2, 1, &vec![0]);
    let raw = generate_chunk_mesh_from_height_array(&heights, 0, 2, 1);
    assert_eq!(indices.len(), raw.len());
    for (i, p) in indices.iter().zip(raw.iter()) {
        assert_eq!(points[*i], *p);
    }
    for i in 0..points.len() {
        for j in 0..i {
            assert_ne!(points[i], points[j]);
        }
    }
    let (grid, grid_indices) = build_chunk(&heights, 0, 2, 1, &vec![1]);
    assert_eq!(grid.len(), 9);
    assert_eq!(grid_indices.len(), 24);
}

#[test]
fn merged_chunks_share_border_vertices() {
    // a 2 by 2 grid of flat chunks of side 1
    let heights = vec![0; 4];
    let lods = vec![0; 4];
    let mut vertices = Vec::new();
    let mut indices = Vec::new();
    for c in 0..4 {
        let (v, i) = build_chunk(&heights, c, 1, 2, &lods);
        assert_eq!(v.len(), 4);
        assert_eq!(i.len(), 6);
        vertices.push(v);
        indices.push(i);
    }
    let (points, merged) = merge_chunks(&vertices, &indices, &vec![0, 1, 2, 3], 1, 2);
    assert_eq!(merged.len(), 24);
    // a grid of 3 by 3 points
    assert_eq!(points.len(), 9);
    assert!(points.contains(&Point3::new(4, 1, 4)));
    assert!(points.contains(&Point3::new(2, 1, 2)));
    let (some, some_indices) = merge_chunks(&vertices, &indices, &vec![3], 1, 2);
    assert_eq!(some.len(), 4);
    assert_eq!(some_indices.len(), 6);
    assert!(some.iter().all(|p| p.x >= 2 && p.z >= 2));
}

#[test]
fn vertex_keys() {
    let key = Vector3Key::new(3, 10, 0);
    assert_eq!(key.to_vector3(), Point3::new(3, 10, 0));
    assert_eq!(key, Vector3Key::from_vector3(Point3::new(3, 10, 0)));
    // below zero the key is that of zero
    assert_eq!(Vector3Key::new(-3, -1, 0), Vector3Key::new(0, 0, 0));
    assert_ne!(Vector3Key::new(1, 0, 0), Vector3Key::new(0, 1, 0));
    let flat = Vector2Key::new(7, 4);
    assert_eq!(flat.to_vector2(), Point2::new(7, 4));
    assert_eq!(flat, Vector2Key::from_vector2(Point2::new(7, 4)));
    assert_eq!(flat, Vector2Key::from_vector3(Point3::new(7, 100, 4)));
    assert_eq!(Vector3Key::new(i64::MAX, 0, 0).to_vector3().x, 2 * u32::MAX as i64 + 1);
}

#[test]
fn colors_hold_their_channels() {
    let c = Color8::new(1, 2, 3, 4);
    assert_eq!((c.r, c.g, c.b, c.a), (1, 2, 3, 4));
    assert_eq!(c, Color8::new(1, 2, 3, 4));
    assert_ne!(c, Color8::new(1, 2, 3, 5));
}
