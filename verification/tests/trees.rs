use terrain_core::oct_tree::OctTree;
use terrain_core::quad_tree::{LodSample, QuadTree};
use terrain_core::structs::{Color8, Point3};

#[test]
fn new_quad_tree_is_one_leaf_of_zero() {
    let tree = QuadTree::new(8);
    assert_eq!(tree.len(), 1);
    assert_eq!(tree.num_leaf_nodes(), 1);
    assert_eq!(tree.value_at(3, 5), 0);
    assert_eq!(tree.value_at(7, 7), 0);
}

#[test]
fn quad_insert_is_read_back_for_every_cell() {
    let mut tree = QuadTree::new(4);
    for z in 0..4 {
        for x in 0..4 {
            tree.insert(x, z, 10 * z + x);
            assert_eq!(tree.value_at(x, z), 10 * z + x);
        }
    }
    for z in 0..4 {
        for x in 0..4 {
            assert_eq!(tree.value_at(x, z), 10 * z + x);
        }
    }
}

#[test]
fn quad_insert_splits_down_to_the_cell() {
    let mut tree = QuadTree::new(4);
    tree.insert(0, 0, 7);
    // the root splits into 4 quadrants, the first of them into 4 cells
    assert_eq!(tree.len(), 9);
    assert_eq!(tree.num_leaf_nodes(), 7);
    assert_eq!(tree.value_at(0, 0), 7);
    assert_eq!(tree.value_at(1, 0), 0);
    assert_eq!(tree.value_at(3, 3), 0);
}

#[test]
fn quad_tree_collapses_when_a_region_is_uniform_again() {
    let mut tree = QuadTree::new(4);
    tree.insert(0, 0, 7);
    assert_eq!(tree.len(), 9);
    tree.insert(0, 0, 0);
    assert_eq!(tree.len(), 1);
    assert_eq!(tree.num_leaf_nodes(), 1);
}

#[test]
fn quad_tree_filled_with_one_value_is_one_node() {
    let mut tree = QuadTree::new(8);
    for z in 0..8 {
        for x in 0..8 {
            tree.insert(x, z, 5);
        }
    }
    assert_eq!(tree.len(), 1);
    for z in 0..8 {
        for x in 0..8 {
            assert_eq!(tree.value_at(x, z), 5);
        }
    }
}

#[test]
fn quad_insert_outside_the_grid_changes_nothing() {
    let mut tree = QuadTree::new(4);
    tree.insert(4, 0, 9);
    tree.insert(-1, 2, 9);
    tree.insert(0, 100, 9);
    assert_eq!(tree.len(), 1);
    assert_eq!(tree.value_at(4, 0), 0);
    assert_eq!(tree.value_at(-1, 2), 0);
    assert_eq!(tree.to_heightmap(), vec![0; 16]);
}

#[test]
fn quad_tree_of_side_one_and_zero() {
    let mut one = QuadTree::new(1);
    one.insert(0, 0, 3);
    assert_eq!(one.value_at(0, 0), 3);
    assert_eq!(one.len(), 1);
    let mut none = QuadTree::new(0);
    none.insert(0, 0, 3);
    assert_eq!(none.value_at(0, 0), 0);
    assert_eq!(none.len(), 1);
}

#[test]
fn quad_lod_zero_is_the_value() {
    let mut tree = QuadTree::new(8);
    tree.insert(1, 1, 4);
    tree.insert(6, 2, -3);
    for z in 0..8 {
        for x in 0..8 {
            let sample = tree.value_at_lod(x, z, 0);
            assert!(sample.cells >= 1);
            assert_eq!(sample.total, tree.value_at(x, z) as i128 * sample.cells as i128);
        }
    }
}

#[test]
fn quad_lod_averages_over_a_block() {
    let mut tree = QuadTree::new(4);
    tree.insert(0, 0, 8);
    tree.insert(1, 1, 4);
    // the block of side 2 at the origin holds 8, 0, 0, 4
    assert_eq!(tree.value_at_lod(0, 0, 1), LodSample { total: 12, cells: 4 });
    assert_eq!(tree.value_at_lod(1, 0, 1), LodSample { total: 12, cells: 4 });
    // the whole grid at level 2
    assert_eq!(tree.value_at_lod(3, 3, 2), LodSample { total: 12, cells: 16 });
    // a uniform quadrant is one leaf, whatever the level
    assert_eq!(tree.value_at_lod(3, 3, 0), LodSample { total: 0, cells: 4 });
    // outside the grid
    assert_eq!(tree.value_at_lod(4, 0, 1), LodSample { total: 0, cells: 1 });
}

#[test]
fn quad_heightmap_round_trip() {
    let heights: Vec<i32> = vec![1, 1, 2, 2, 1, 1, 2, 3, 0, 0, 0, 0, 0, 0, 0, 5];
    let mut tree = QuadTree::new(4);
    tree.from_heightmap(&heights);
    assert_eq!(tree.to_heightmap(), heights);
    assert_eq!(tree.value_at(3, 1), 3);
    assert_eq!(tree.value_at(3, 3), 5);
    // quadrant 0 is uniform, quadrants 1 and 3 are split, quadrant 2 is uniform
    assert_eq!(tree.len(), 1 + 4 + 4 + 4);
    assert_eq!(tree.num_leaf_nodes(), 2 + 4 + 4);
}

#[test]
fn quad_from_heightmap_replaces_what_was_there() {
    let mut tree = QuadTree::new(2);
    tree.insert(0, 0, 9);
    tree.from_heightmap(&vec![4, 4, 4, 4]);
    assert_eq!(tree.len(), 1);
    assert_eq!(tree.value_at(0, 0), 4);
    assert_eq!(tree.value_at(1, 1), 4);
}

#[test]
fn quad_clear_spreads_the_last_uniform_height() {
    let mut tree = QuadTree::new(2);
    tree.insert(0, 0, 9);
    tree.clear();
    assert_eq!(tree.len(), 1);
    assert_eq!(tree.to_heightmap(), vec![0, 0, 0, 0]);
    let mut full = QuadTree::new(2);
    for z in 0..2 {
        for x in 0..2 {
            full.insert(x, z, 6);
        }
    }
    full.insert(1, 1, 2);
    full.clear();
    assert_eq!(full.to_heightmap(), vec![6, 6, 6, 6]);
}

#[test]
fn quad_leaf_centers() {
    let mut tree = QuadTree::new(4);
    assert_eq!(tree.get_centers(), vec![Point3::new(4, 0, 4)]);
    tree.insert(3, 0, 2);
    let centers = tree.get_centers();
    assert_eq!(centers.len(), tree.num_leaf_nodes());
    assert_eq!(
        centers,
        vec![
            Point3::new(2, 0, 2),
            Point3::new(5, 0, 1),
            Point3::new(7, 4, 1),
            Point3::new(5, 0, 3),
            Point3::new(7, 0, 3),
            Point3::new(2, 0, 6),
            Point3::new(6, 0, 6),
        ]
    );
}

#[test]
fn new_oct_tree_is_transparent() {
    let tree = OctTree::new(4);
    assert_eq!(tree.len(), 1);
    assert_eq!(tree.num_leaf_nodes(), 1);
    assert_eq!(tree.value_at(1, 2, 3), Color8::new(0, 0, 0, 0));
    assert!(!tree.root().is_divided());
    assert!(tree.root().contains(3, 3, 3));
    assert!(!tree.root().contains(4, 0, 0));
    assert!(!tree.root().contains(0, -1, 0));
}

#[test]
fn oct_insert_is_read_back() {
    let red = Color8::new(255, 0, 0, 255);
    let blue = Color8::new(0, 0, 255, 255);
    let mut tree = OctTree::new(4);
    tree.insert(1, 2, 3, red);
    tree.insert(3, 3, 0, blue);
    assert_eq!(tree.value_at(1, 2, 3), red);
    assert_eq!(tree.value_at(3, 3, 0), blue);
    assert_eq!(tree.value_at(0, 0, 0), Color8::new(0, 0, 0, 0));
    assert_eq!(tree.value_at(1, 3, 3), Color8::new(0, 0, 0, 0));
    assert!(tree.root().is_divided());
}

#[test]
fn oct_insert_splits_and_never_merges() {
    let red = Color8::new(255, 0, 0, 255);
    let mut tree = OctTree::new(4);
    tree.insert(0, 0, 0, red);
    // two halvings from side 4 to side 1, eight nodes each
    assert_eq!(tree.len(), 17);
    assert_eq!(tree.num_leaf_nodes(), 15);
    tree.insert(0, 0, 0, Color8::new(0, 0, 0, 0));
    assert_eq!(tree.len(), 17);
    assert_eq!(tree.value_at(0, 0, 0), Color8::new(0, 0, 0, 0));
    // the same color in a leaf of its color splits nothing
    tree.insert(3, 3, 3, Color8::new(0, 0, 0, 0));
    assert_eq!(tree.len(), 17);
}

#[test]
fn oct_insert_outside_the_cube_stores_nothing() {
    let red = Color8::new(255, 0, 0, 255);
    let mut tree = OctTree::new(2);
    tree.insert(2, 0, 0, red);
    tree.insert(0, -1, 0, red);
    assert_eq!(tree.len(), 1);
    assert_eq!(tree.value_at(2, 0, 0), Color8::new(0, 0, 0, 0));
    assert_eq!(tree.value_at(0, 0, 0), Color8::new(0, 0, 0, 0));
}

#[test]
fn oct_clear_keeps_the_root_color() {
    let red = Color8::new(255, 0, 0, 255);
    let mut tree = OctTree::new(2);
    tree.insert(1, 1, 1, red);
    assert_eq!(tree.len(), 9);
    tree.clear();
    assert_eq!(tree.len(), 1);
    assert_eq!(tree.value_at(1, 1, 1), Color8::new(0, 0, 0, 0));
}

#[test]
fn oct_tree_from_a_color_list() {
    let palette = vec![Color8::new(0, 0, 0, 0), Color8::new(9, 9, 9, 9), Color8::new(1, 2, 3, 4)];
    // a cube of side 2: layer y = 0 holds 1, 1, 1, 1, layer y = 1 holds 1, 1, 1, 2
    let indices: Vec<usize> = vec![1, 1, 1, 1, 1, 1, 1, 2];
    let mut tree = OctTree::new(2);
    tree.from_color_list(&indices, palette.clone());
    assert_eq!(tree.len(), 9);
    assert_eq!(tree.value_at(0, 0, 0), palette[1]);
    assert_eq!(tree.value_at(1, 1, 1), palette[2]);
    assert_eq!(tree.value_at(0, 1, 1), palette[1]);
    let uniform: Vec<usize> = vec![2; 8];
    tree.from_color_list(&uniform, palette.clone());
    assert_eq!(tree.len(), 1);
    assert_eq!(tree.value_at(1, 0, 1), palette[2]);
}
