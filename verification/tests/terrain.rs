use terrain_core::stroke_model::BrushSize;
use terrain_core::structs::{Color8, Point3};
use terrain_core::terrain_node::{TerrainNode, NO_LOCK};
use terrain_core::terrain_utils::TerrainUtils;

fn session(num_chunks: i64, chunk_size: i64) -> TerrainUtils {
    let mut t = TerrainUtils::new();
    t.init_params(num_chunks, chunk_size, &Vec::new(), &Vec::new(), &Vec::new());
    t.update_terrain();
    t
}

fn raise(t: &mut TerrainUtils, x: i32, z: i32, size: i32, by: i32) -> bool {
    t.draw_at(x, z, BrushSize { x: size, y: by }, 0, 1, false, 0)
}

#[test]
fn a_new_session_is_one_cell() {
    let t = TerrainUtils::new();
    assert_eq!(t.get_num_chunks(), 1);
    assert_eq!(t.get_chunk_size(), 1);
    assert_eq!(t.get_heights(), vec![0]);
    assert_eq!(t.get_vertex_colors(), vec![0]);
    assert_eq!(t.get_color_list(), vec![Color8::new(0, 0, 0, 0)]);
    assert!(!t.can_undo() && !t.can_redo() && !t.is_drawing());
    assert!(t.get_shade_smooth());
}

#[test]
fn init_params_takes_lists_of_the_right_length() {
    let mut t = TerrainUtils::new();
    let heights: Vec<i32> = (0..16).collect();
    let palette = vec![Color8::new(9, 9, 9, 9), Color8::new(1, 2, 3, 4)];
    let colors = vec![1; 16];
    t.init_params(2, 2, &heights, &palette, &colors);
    assert_eq!(t.get_num_chunks(), 2);
    assert_eq!(t.get_chunk_size(), 2);
    assert_eq!(t.get_heights(), heights);
    assert_eq!(t.get_vertex_colors(), vec![1usize; 16]);
    // the first color of the palette is always transparent
    assert_eq!(t.get_color_list(), vec![Color8::new(0, 0, 0, 0), Color8::new(1, 2, 3, 4)]);
    assert_eq!(t.get_color(3, 3), Color8::new(1, 2, 3, 4));
}

#[test]
fn init_params_passes_over_lists_that_do_not_fit() {
    let mut t = TerrainUtils::new();
    t.init_params(2, 2, &vec![5; 15], &Vec::new(), &vec![0; 16]);
    assert_eq!(t.get_heights(), vec![0; 16]);
    t.init_params(2, 2, &vec![5; 16], &Vec::new(), &vec![0; 3]);
    assert_eq!(t.get_heights(), vec![0; 16]);
    // a color index that names no color: the heights are kept, the colors are not
    t.init_params(2, 2, &vec![5; 16], &Vec::new(), &vec![1; 16]);
    assert_eq!(t.get_heights(), vec![5; 16]);
    assert_eq!(t.get_vertex_colors(), vec![0usize; 16]);
    let mut colors = vec![0; 16];
    colors[7] = -1;
    t.init_params(2, 2, &vec![6; 16], &Vec::new(), &colors);
    assert_eq!(t.get_heights(), vec![6; 16]);
    assert_eq!(t.get_vertex_colors(), vec![0usize; 16]);
    // sizes below 1 count as 1
    t.init_params(0, -4, &vec![5], &Vec::new(), &vec![0]);
    assert_eq!((t.get_num_chunks(), t.get_chunk_size()), (1, 1));
    assert_eq!(t.get_heights(), vec![5]);
}

#[test]
fn heights_are_read_at_the_nearest_cell() {
    let mut t = TerrainUtils::new();
    let heights: Vec<i32> = (0..16).collect();
    t.init_params(2, 2, &heights, &Vec::new(), &vec![0; 16]);
    assert_eq!(t.get_height(1, 2), 9);
    assert_eq!(t.get_height(-3, 2), 8);
    assert_eq!(t.get_height(7, 7), 15);
    assert_eq!(t.get_height(2, -1), 2);
    assert_eq!(t.height(3, 1), 7);
    assert_eq!(t.height_by_index(7), 7);
    assert!(t.in_bounds(0, 0) && t.in_bounds(3, 3));
    assert!(!t.in_bounds(4, 0) && !t.in_bounds(0, -1));
    t.set_height_at(3, 1, 70);
    t.set_height_by_index(0, -5);
    assert_eq!(t.get_height(3, 1), 70);
    assert_eq!(t.get_height(0, 0), -5);
    t.clear_heights();
    assert_eq!(t.get_heights(), vec![0; 16]);
}

#[test]
fn collision_heights_lie_half_a_unit_up() {
    let mut t = TerrainUtils::new();
    t.init_params(1, 2, &vec![0, 1, 2, 3], &Vec::new(), &vec![0; 4]);
    assert_eq!(t.get_heights_for_collision(), vec![1, 3, 3, 5, 7, 7, 5, 7, 7]);
}

#[test]
fn raising_one_cell_dirties_its_chunk_and_puts_the_neighbours_on_a_seam() {
    let mut t = session(2, 2);
    assert!(raise(&mut t, 1, 1, 1, 1));
    let mut expected = vec![0; 16];
    expected[1 * 4 + 1] = 1;
    assert_eq!(t.get_heights(), expected);
    assert!(t.is_drawing());
    // the chunk of the cell was rebuilt at once
    assert_eq!(t.remeshed_chunks(), vec![0]);
    assert!(t.chunk_vertex_list(0).iter().any(|p| p.y > 1));
    // the cell lies in the second row and column of its chunk:
    // the three chunks across are rebuilt when the stroke ends
    t.end_stroke();
    assert_eq!(t.remeshed_chunks(), vec![1, 2, 3]);
    assert!(!t.is_drawing());
    assert!(t.can_undo());
}

#[test]
fn a_stroke_changes_a_cell_once() {
    let mut t = session(1, 4);
    assert!(raise(&mut t, 2, 2, 1, 3));
    assert!(!raise(&mut t, 2, 2, 1, 3));
    assert_eq!(t.get_height(2, 2), 3);
    t.end_stroke();
    assert!(raise(&mut t, 2, 2, 1, 3));
    assert_eq!(t.get_height(2, 2), 6);
}

#[test]
fn a_brush_off_the_grid_changes_nothing() {
    let mut t = session(2, 2);
    assert!(!raise(&mut t, 40, 40, 3, 1));
    assert!(!raise(&mut t, 1, 1, 0, 1));
    assert_eq!(t.get_heights(), vec![0; 16]);
    t.end_stroke();
    assert!(!t.can_undo());
}

#[test]
fn undo_and_redo_restore_the_heights() {
    let mut t = session(2, 2);
    let mut after: Vec<Vec<i32>> = vec![t.get_heights()];
    let strokes = [(0, 0, 2, 1), (3, 3, 1, 5), (1, 2, 4, 2), (2, 1, 2, 7)];
    for (x, z, size, by) in strokes.iter() {
        raise(&mut t, *x, *z, *size, *by);
        raise(&mut t, *x + 1, *z, *size, *by);
        t.end_stroke();
        after.push(t.get_heights());
    }
    let n = strokes.len();
    for k in (0..n).rev() {
        assert!(t.can_undo());
        let more = t.do_undo();
        assert_eq!(more, k > 0);
        assert_eq!(t.get_heights(), after[k]);
    }
    assert!(!t.can_undo());
    for k in 1..=n {
        assert!(t.can_redo());
        let more = t.do_redo();
        assert_eq!(more, k < n);
        assert_eq!(t.get_heights(), after[k]);
    }
    assert!(!t.can_redo());
    assert_eq!(t.get_heights(), after[n]);
}

#[test]
fn undo_with_nothing_to_undo_does_nothing() {
    let mut t = session(2, 2);
    t.set_height_at(1, 1, 4);
    assert!(!t.do_undo());
    assert!(!t.do_redo());
    assert_eq!(t.get_height(1, 1), 4);
    assert!(!t.can_redo());
}

#[test]
fn undo_rebuilds_the_chunks_it_touches() {
    let mut t = session(2, 2);
    raise(&mut t, 1, 1, 1, 1);
    t.end_stroke();
    assert!(!t.do_undo());
    assert_eq!(t.remeshed_chunks(), vec![0, 1, 2, 3]);
    assert_eq!(t.get_heights(), vec![0; 16]);
    let flat = t.chunk_vertex_list(0);
    assert!(flat.iter().all(|p| p.y == 1));
}

#[test]
fn a_new_stroke_leaves_nothing_to_redo() {
    let mut t = session(2, 2);
    raise(&mut t, 1, 1, 1, 1);
    t.end_stroke();
    raise(&mut t, 2, 2, 1, 1);
    t.end_stroke();
    t.do_undo();
    assert!(t.can_redo());
    raise(&mut t, 0, 0, 1, 1);
    assert!(!t.can_redo());
    t.end_stroke();
    assert!(!t.can_redo());
    assert!(!t.do_redo());
    assert_eq!(t.get_height(2, 2), 0);
    assert_eq!(t.get_height(0, 0), 1);
}

#[test]
fn smoothing_moves_each_cell_one_unit_towards_the_mean() {
    // heights 0, 0, 4, 4 around a cell of height 2
    let mut t = TerrainUtils::new();
    let mut heights = vec![2; 25];
    heights[2 * 5 + 1] = 0;
    heights[1 * 5 + 2] = 0;
    heights[2 * 5 + 3] = 4;
    heights[3 * 5 + 2] = 4;
    t.init_params(1, 5, &heights, &Vec::new(), &vec![0; 25]);
    t.update_terrain();
    // a brush of size 2 about the middle: the middle and its four neighbours
    assert!(t.draw_at(2, 2, BrushSize { x: 2, y: 0 }, 5, 1, false, 0));
    let mut expected = vec![2; 25];
    expected[2 * 5 + 1] = 1;
    expected[1 * 5 + 2] = 1;
    expected[2 * 5 + 3] = 3;
    expected[3 * 5 + 2] = 3;
    assert_eq!(t.get_heights(), expected);
    assert!(t.draw_at(2, 2, BrushSize { x: 2, y: 0 }, 5, 1, false, 0));
    assert_eq!(t.get_heights(), vec![2; 25]);
    // level ground stays as it is
    assert!(!t.draw_at(2, 2, BrushSize { x: 2, y: 0 }, 5, 1, false, 0));
    t.end_stroke();
    assert!(t.do_undo() == false);
    assert_eq!(t.get_heights(), heights);
}

#[test]
fn smoothing_never_passes_the_mean() {
    let mut t = TerrainUtils::new();
    // the mean of the nine cells within the wider brush is 10 / 9
    let heights = vec![0, 0, 0, 0, 1, 9, 0, 0, 0];
    t.init_params(1, 3, &heights, &Vec::new(), &vec![0; 9]);
    assert!(t.draw_at(1, 1, BrushSize { x: 2, y: 0 }, 5, 1, false, 0));
    // within the brush: the middle and its four neighbours
    assert_eq!(t.get_heights(), vec![0, 1, 0, 1, 1, 8, 0, 1, 0]);
}

#[test]
fn smoothing_with_the_lock_levels_towards_the_locked_height() {
    let mut t = TerrainUtils::new();
    let heights = vec![0, 0, 0, 0, 5, 9, 0, 0, 0];
    t.init_params(1, 3, &heights, &Vec::new(), &vec![0; 9]);
    assert!(t.draw_at(1, 1, BrushSize { x: 2, y: 0 }, 5, 1, true, 5));
    assert_eq!(t.get_heights(), vec![0, 1, 0, 1, 5, 8, 0, 1, 0]);
    // towards another locked height the cell under the brush moves too
    assert!(t.draw_at(1, 1, BrushSize { x: 2, y: 0 }, 5, 1, true, 1));
    assert_eq!(t.get_heights(), vec![0, 1, 0, 1, 4, 7, 0, 1, 0]);
    // outside the grid a smoothing brush does nothing
    assert!(!t.draw_at(5, 5, BrushSize { x: 9, y: 0 }, 5, 1, true, 0));
}

#[test]
fn undoing_a_stroke_of_many_applications_restores_the_heights_before_it() {
    let mut t = TerrainUtils::new();
    let heights: Vec<i32> = (0..25).map(|i| (i * 7) % 5).collect();
    t.init_params(1, 5, &heights, &Vec::new(), &vec![0; 25]);
    // one stroke: smoothing passes over the same cells again and again, then a raise
    for _ in 0..4 {
        t.draw_at(2, 2, BrushSize { x: 4, y: 0 }, 5, 1, false, 0);
        t.draw_at(1, 3, BrushSize { x: 3, y: 0 }, 5, 1, false, 0);
    }
    let after = t.get_heights();
    assert_ne!(after, heights);
    t.end_stroke();
    assert!(!t.do_undo());
    assert_eq!(t.get_heights(), heights);
    assert!(!t.do_redo());
    assert_eq!(t.get_heights(), after);
}

#[test]
fn the_node_locks_the_height_under_a_smoothing_brush() {
    let mut node = TerrainNode::new();
    node.init_params(1, 3);
    node.set_heights(&vec![0, 0, 0, 0, 5, 9, 0, 0, 0]);
    node.set_is_height_locked(true);
    assert!(node.draw_at(1, 1, BrushSize { x: 2, y: 0 }, 5, 1));
    assert_eq!(node.get_locked_height(), 5);
    assert_eq!(node.get_heights(), vec![0, 1, 0, 1, 5, 8, 0, 1, 0]);
    // the lock holds: the next application levels towards 5 as well
    assert!(node.draw_at(2, 1, BrushSize { x: 2, y: 0 }, 5, 1));
    assert_eq!(node.get_locked_height(), 5);
    assert_eq!(node.get_heights(), vec![0, 1, 1, 1, 5, 7, 0, 1, 1]);
    node.end_stroke();
    assert_eq!(node.get_locked_height(), NO_LOCK);
    // with the lock off the node locks nothing for a smoothing brush
    node.set_is_height_locked(false);
    node.draw_at(1, 1, BrushSize { x: 2, y: 0 }, 5, 1);
    assert_eq!(node.get_locked_height(), NO_LOCK);
}

#[test]
fn directional_modes_through_a_stroke() {
    let mut t = session(1, 4);
    // set flat to 3 over a disk of radius 1
    assert!(t.draw_at(1, 1, BrushSize { x: 2, y: 3 }, 2, 1, false, 0));
    assert_eq!(t.get_height(1, 1), 3);
    assert_eq!(t.get_height(0, 1), 3);
    assert_eq!(t.get_height(2, 2), 0);
    t.end_stroke();
    // lift everything below 2 under a wide brush
    assert!(t.draw_at(1, 1, BrushSize { x: 20, y: 2 }, 3, 1, false, 0));
    t.end_stroke();
    assert_eq!(t.get_heights(), vec![2, 3, 2, 2, 3, 3, 3, 2, 2, 3, 2, 2, 2, 2, 2, 2]);
    // level everything above 2
    assert!(t.draw_at(1, 1, BrushSize { x: 20, y: 2 }, 4, 1, false, 0));
    t.end_stroke();
    assert_eq!(t.get_heights(), vec![2; 16]);
    // lower with the second button of mode 0, never below 0
    assert!(t.draw_at(0, 0, BrushSize { x: 1, y: 5 }, 0, 2, false, 0));
    assert_eq!(t.get_height(0, 0), 0);
    t.end_stroke();
    // with the lock at 2 only cells at height 2 rise
    assert!(t.draw_at(0, 0, BrushSize { x: 2, y: 1 }, 0, 1, true, 2));
    assert_eq!(t.get_height(0, 0), 0);
    assert_eq!(t.get_height(1, 0), 3);
    assert_eq!(t.get_height(0, 1), 3);
}

#[test]
fn painting_a_new_color_adds_it_to_the_palette_once() {
    let mut t = session(1, 4);
    let red = Color8::new(255, 0, 0, 255);
    assert_eq!(t.get_color_list(), vec![Color8::new(0, 0, 0, 0)]);
    assert_eq!(t.get_color_index(red), 1);
    assert!(t.paint_vertex(1, 2, red));
    assert_eq!(t.get_color_list(), vec![Color8::new(0, 0, 0, 0), red]);
    assert_eq!(t.get_vertex_colors()[2 * 4 + 1], 1);
    assert_eq!(t.get_vertex_color(1, 2), red);
    assert_eq!(t.get_color_index(red), 1);
    // the same color again, at another cell
    assert!(t.paint_vertex(3, 3, red));
    assert_eq!(t.get_color_list().len(), 2);
    assert_eq!(t.get_vertex_colors()[3 * 4 + 3], 1);
    // a stroke paints a cell once
    assert!(!t.paint_vertex(1, 2, Color8::new(0, 255, 0, 255)));
    assert_eq!(t.get_vertex_color(1, 2), red);
    assert_eq!(t.get_color_list().len(), 2);
    t.end_paint_stroke();
    assert!(t.can_undo());
    // the nearest cell is painted for a place off the grid
    t.set_vertex_color(-7, 99, red);
    assert_eq!(t.get_vertex_colors()[3 * 4], 1);
}

#[test]
fn paint_can_be_undone_and_redone() {
    let mut t = session(2, 2);
    let red = Color8::new(255, 0, 0, 255);
    let blue = Color8::new(0, 0, 255, 255);
    t.paint_vertex(0, 0, red);
    t.paint_vertex(3, 3, blue);
    t.end_paint_stroke();
    assert!(!t.do_undo());
    assert_eq!(t.get_vertex_color(0, 0), Color8::new(0, 0, 0, 0));
    assert_eq!(t.get_vertex_color(3, 3), Color8::new(0, 0, 0, 0));
    assert_eq!(t.remeshed_chunks(), vec![0, 3]);
    // the palette keeps its colors
    assert_eq!(t.get_color_list().len(), 3);
    assert!(!t.do_redo());
    assert_eq!(t.get_vertex_color(0, 0), red);
    assert_eq!(t.get_vertex_color(3, 3), blue);
    t.clear_vertex_colors();
    assert_eq!(t.get_color_list(), vec![Color8::new(0, 0, 0, 0)]);
    assert_eq!(t.get_vertex_colors(), vec![0usize; 16]);
}

#[test]
fn chunks_under_a_paint_brush() {
    let t = session(3, 4);
    assert_eq!(t.chunks_under_brush(5, 5, 0), vec![4]);
    assert_eq!(t.chunks_under_brush(5, 5, 1), vec![4]);
    assert_eq!(t.chunks_under_brush(5, 5, 2), vec![0, 1, 3, 4]);
    assert_eq!(t.chunks_under_brush(5, 5, 3), vec![0, 1, 2, 3, 4, 5, 6, 7, 8]);
    assert_eq!(t.chunks_under_brush(0, 0, 3), vec![0]);
    assert_eq!(t.chunks_under_brush(-2, 6, 2), vec![3, 6]);
    assert_eq!(t.chunks_under_brush(40, 40, 2), vec![]);
    assert_eq!(t.chunks_under_brush(5, 5, -1), vec![]);
}

#[test]
fn levels_of_detail_follow_the_distance() {
    let mut t = session(3, 2);
    // the chunk at column 2, row 0 becomes the active one
    assert!(t.update_lod(5, 0));
    assert!(!t.update_lod(4, 1));
    // distances from (2, 0): whole parts of 2, 1, 0 / 2.2, 1.4, 1 / 2.8, 2.2, 2
    let grid = 3;
    let expected = [2usize, 1, 0, 2, 1, 1, 2, 2, 2];
    for c in 0..grid * grid {
        let vertices = t.chunk_vertex_list(c);
        let indices = t.chunk_index_list(c);
        if expected[c] == 0 {
            // full detail: a flat chunk of side 2 welds to 3 by 3 vertices
            assert_eq!(vertices.len(), 9);
            assert_eq!(indices.len(), 24);
        } else if expected[c] == 1 {
            assert_eq!(vertices.len(), 9);
            assert_eq!(indices.len(), 24);
        } else {
            assert_eq!(vertices.len(), 4);
            assert_eq!(indices.len(), 6);
        }
    }
    // one chunk at full detail, three at level 1, five at level 2
    assert_eq!(t.get_vertex_count(), 9 + 9 * 3 + 4 * 5);
    t.set_chunk_lod(2, 3);
    assert_eq!(t.remeshed_chunks(), vec![2]);
    assert_eq!(t.chunk_vertex_list(2), vec![Point3::new(0, 1, 0)]);
    assert!(t.chunk_index_list(2).is_empty());
}

#[test]
fn terrain_lists_weld_the_chunks() {
    let mut t = session(2, 1);
    assert_eq!(t.terrain_vertex_list().len(), 9);
    assert_eq!(t.terrain_index_list().len(), 24);
    let faces = t.obj_faces();
    assert_eq!(faces.len(), 8);
    let indices = t.terrain_index_list();
    assert_eq!(faces[0], (indices[2] + 1, indices[1] + 1, indices[0] + 1));
    assert_eq!(faces[7], (indices[23] + 1, indices[22] + 1, indices[21] + 1));
    t.update_terrain_arrays_for_chunks(&vec![3, 17, 0]);
    assert_eq!(t.terrain_index_list().len(), 12);
    assert_eq!(t.terrain_vertex_list().len(), 7);
    t.update_terrain_arrays_for_chunks(&Vec::new());
    assert!(t.terrain_vertex_list().is_empty());
    assert!(t.obj_faces().is_empty());
}

#[test]
fn growing_the_terrain_keeps_the_heights_in_place() {
    let mut t = TerrainUtils::new();
    t.init_params(1, 2, &vec![1, 2, 3, 4], &Vec::new(), &vec![0; 4]);
    t.set_vertex_color(1, 1, Color8::new(5, 5, 5, 5));
    // from side 2 to side 4, anchored at the start of both axes
    t.resize_terrain(2, 2, 0, 0);
    assert_eq!((t.get_num_chunks(), t.get_chunk_size()), (2, 2));
    assert_eq!(t.get_heights(), vec![1, 2, 0, 0, 3, 4, 0, 0, 0, 0, 0, 0, 0, 0, 0, 0]);
    assert_eq!(t.get_vertex_colors()[1 * 4 + 1], 1);
    // the two flat chunks weld to 3 by 3 vertices each
    assert_eq!(t.chunk_vertex_list(3).len(), 9);
    assert_eq!(t.remeshed_chunks(), vec![0, 1, 2, 3]);
    // the same side: nothing happens
    t.resize_terrain(4, 1, 2, 2);
    assert_eq!((t.get_num_chunks(), t.get_chunk_size()), (2, 2));
    // anchored at the middle and at the end
    let mut u = TerrainUtils::new();
    u.init_params(1, 2, &vec![1, 2, 3, 4], &Vec::new(), &vec![0; 4]);
    u.resize_terrain(5, 1, 1, 2);
    let mut expected = vec![0; 25];
    expected[3 * 5 + 1] = 1;
    expected[3 * 5 + 2] = 2;
    expected[4 * 5 + 1] = 3;
    expected[4 * 5 + 2] = 4;
    assert_eq!(u.get_heights(), expected);
}

#[test]
fn shrinking_the_terrain_cuts_the_heights_out() {
    let mut t = TerrainUtils::new();
    let heights: Vec<i32> = (0..16).collect();
    t.init_params(2, 2, &heights, &Vec::new(), &vec![0; 16]);
    raise(&mut t, 0, 0, 1, 1);
    t.end_stroke();
    t.resize_terrain(2, 1, 2, 1);
    // the change of side is -2: the x axis keeps its end, the z axis its middle
    assert_eq!(t.get_heights(), vec![6, 7, 10, 11]);
    // the history does not outlive the grid it was made on
    assert!(!t.can_undo());
    let mut u = TerrainUtils::new();
    u.init_params(2, 2, &heights, &Vec::new(), &vec![0; 16]);
    u.resize_terrain(3, 1, 1, 0);
    assert_eq!(u.get_heights(), vec![0, 1, 2, 4, 5, 6, 8, 9, 10]);
}

#[test]
fn the_node_locks_the_height_of_the_first_cell_of_a_stroke() {
    let mut node = TerrainNode::new();
    assert_eq!(node.get_heights().len(), 64 * 64);
    assert_eq!(node.get_locked_height(), NO_LOCK);
    assert!(!node.get_is_height_locked());
    let mut heights = vec![0; 64 * 64];
    heights[10 * 64 + 11] = 3;
    node.set_heights(&heights);
    node.set_is_height_locked(true);
    // the brush meets (10, 10) first, of height 0: only cells of that height rise
    assert!(node.draw_at(10, 10, BrushSize { x: 2, y: 2 }, 0, 1));
    assert_eq!(node.get_locked_height(), 0);
    assert_eq!(node.get_height(10, 10), 2);
    assert_eq!(node.get_height(9, 10), 2);
    assert_eq!(node.get_height(11, 10), 3);
    // the lock holds through the stroke: risen cells are at 2 now, the next cells must be at 0
    assert!(node.draw_at(12, 10, BrushSize { x: 2, y: 2 }, 0, 1));
    assert_eq!(node.get_height(11, 10), 3);
    assert_eq!(node.get_height(12, 10), 2);
    node.end_stroke();
    assert_eq!(node.get_locked_height(), NO_LOCK);
    assert!(node.can_undo());
    assert!(!node.do_undo());
    assert_eq!(node.get_heights(), heights);
    assert!(node.can_redo());
    assert!(!node.do_redo());
    assert_eq!(node.get_height(12, 10), 2);
    node.set_locked_height(7);
    assert_eq!(node.get_locked_height(), 7);
    assert!(node.in_bounds(63, 0) && !node.in_bounds(64, 0));
    node.clear_terrain();
    assert_eq!(node.get_heights(), vec![0; 64 * 64]);
}

#[test]
fn the_node_meshes_its_chunks() {
    let mut node = TerrainNode::new();
    node.init_params(2, 2);
    assert_eq!(node.get_vertex_count(), 0);
    node.generate_all_meshes();
    assert_eq!(node.remeshed_chunks(), vec![0, 1, 2, 3]);
    assert_eq!(node.get_vertex_count(), 4 * 9);
    assert_eq!(node.chunk_index_list(3).len(), 24);
    assert_eq!(node.chunk_vertex_list(0).len(), 9);
    assert!(!node.is_drawing());
    node.set_heights(&(0..16).collect());
    assert_eq!(node.get_heights_for_collision()[0..5], [1, 3, 5, 7, 7]);
    node.update_terrain_arrays();
    assert_eq!(node.obj_faces().len(), node.chunk_index_list(0).len() / 3 * 4);
    assert!(node.terrain_vertex_list().len() > 9);
    node.resize_terrain(2, 1, 0, 2);
    assert_eq!(node.get_heights(), vec![8, 9, 12, 13]);
    assert!(!node.can_undo());
}
