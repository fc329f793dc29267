use terrain_core::brush::{
    brushed_height, chunk_containing, get_grid_positions_in_radius, mark_seams, smooth_step,
};
use terrain_core::edit_log::EditLog;
use terrain_core::grid::sample;
use terrain_core::seam_set::mark_seams_in;
use std::collections::HashSet;

#[test]
fn a_brush_of_size_one_reaches_its_own_cell() {
    let heights: Vec<i32> = (0..16).collect();
    assert_eq!(get_grid_positions_in_radius(&heights, 4, 1, 1, 1), vec![(1, 5, 1)]);
    assert_eq!(get_grid_positions_in_radius(&heights, 4, 1, 1, 0), vec![]);
    assert_eq!(get_grid_positions_in_radius(&heights, 4, 1, 1, -3), vec![]);
    // a size of 2 is a disk of radius 1
    assert_eq!(
        get_grid_positions_in_radius(&heights, 4, 1, 1, 2),
        vec![(1, 5, 1), (0, 4, 1), (2, 6, 1), (1, 1, 0), (1, 9, 2)]
    );
}

#[test]
fn a_brush_leaves_out_what_lies_off_the_grid() {
    let heights: Vec<i32> = (0..16).collect();
    assert_eq!(
        get_grid_positions_in_radius(&heights, 4, 0, 0, 2),
        vec![(0, 0, 0), (1, 1, 0), (0, 4, 1)]
    );
    assert_eq!(get_grid_positions_in_radius(&heights, 4, -5, -5, 2), vec![]);
    assert_eq!(get_grid_positions_in_radius(&heights, 4, 4, 3, 2), vec![(3, 15, 3)]);
}

#[test]
fn a_brush_is_a_disk() {
    let heights = vec![0; 121];
    let cells = get_grid_positions_in_radius(&heights, 11, 5, 5, 6);
    // the cells within 3 of the middle
    let mut expected = 0;
    for z in 0..11i32 {
        for x in 0..11i32 {
            if (x - 5) * (x - 5) + (z - 5) * (z - 5) <= 9 {
                expected += 1;
                assert!(cells.contains(&(x, 0, z)));
            }
        }
    }
    assert_eq!(cells.len(), expected);
    assert_eq!(expected, 29);
}

#[test]
fn raising_and_lowering() {
    // mode 0: the first button raises, the second lowers; mode 1 the other way round
    assert_eq!(brushed_height(5, 0, 2, 1, false, 0), 7);
    assert_eq!(brushed_height(5, 0, 2, 2, false, 0), 3);
    assert_eq!(brushed_height(5, 1, 2, 1, false, 0), 3);
    assert_eq!(brushed_height(5, 1, 2, 2, false, 0), 7);
    // lowering stops at 0
    assert_eq!(brushed_height(1, 1, 2, 1, false, 0), 0);
    assert_eq!(brushed_height(-4, 1, 2, 1, false, 0), 0);
    // any other button leaves the cell alone
    assert_eq!(brushed_height(5, 0, 2, 3, false, 0), 5);
    // with the lock on only cells at the locked height are touched
    assert_eq!(brushed_height(5, 0, 2, 1, true, 5), 7);
    assert_eq!(brushed_height(5, 0, 2, 1, true, 4), 5);
    // raising stays within i32
    assert_eq!(brushed_height(i32::MAX - 1, 0, 5, 1, false, 0), i32::MAX);
}

#[test]
fn setting_and_clamping() {
    // mode 2 sets the height
    assert_eq!(brushed_height(5, 2, 9, 1, false, 0), 9);
    assert_eq!(brushed_height(5, 2, 9, 1, true, 5), 14);
    assert_eq!(brushed_height(5, 2, 9, 1, true, 6), 5);
    // mode 3 lifts what lies below
    assert_eq!(brushed_height(5, 3, 9, 1, false, 0), 9);
    assert_eq!(brushed_height(12, 3, 9, 1, false, 0), 12);
    assert_eq!(brushed_height(5, 3, 2, 1, true, 4), 6);
    assert_eq!(brushed_height(7, 3, 2, 1, true, 4), 7);
    // mode 4 levels what lies above
    assert_eq!(brushed_height(12, 4, 9, 1, false, 0), 9);
    assert_eq!(brushed_height(5, 4, 9, 1, false, 0), 5);
    assert_eq!(brushed_height(7, 4, 2, 1, true, 4), 6);
    assert_eq!(brushed_height(5, 4, 2, 1, true, 4), 5);
    // other modes do nothing here
    assert_eq!(brushed_height(5, 5, 9, 1, false, 0), 5);
    assert_eq!(brushed_height(5, 17, 9, 1, false, 0), 5);
}

#[test]
fn smoothing_steps_one_unit_towards_the_mean() {
    // heights 0, 0, 4, 4: the mean is 2
    assert_eq!(smooth_step(0, 8, 4), 1);
    assert_eq!(smooth_step(4, 8, 4), 3);
    assert_eq!(smooth_step(2, 8, 4), 2);
    // less than a unit from the mean: left alone, never past the mean
    assert_eq!(smooth_step(1, 6, 4), 1);
    assert_eq!(smooth_step(2, 6, 4), 2);
    assert_eq!(smooth_step(3, 6, 4), 2);
    assert_eq!(smooth_step(0, 6, 4), 1);
    assert_eq!(smooth_step(-3, -10, 4), -3);
    assert_eq!(smooth_step(-4, -10, 4), -3);
    assert_eq!(smooth_step(i32::MAX, i32::MAX as i128, 1), i32::MAX);
    assert_eq!(smooth_step(i32::MIN, 0, 1), i32::MIN + 1);
}

#[test]
fn chunks_of_cells() {
    assert_eq!(chunk_containing(0, 0, 2, 2), 0);
    assert_eq!(chunk_containing(3, 0, 2, 2), 1);
    assert_eq!(chunk_containing(1, 2, 2, 2), 2);
    assert_eq!(chunk_containing(3, 3, 2, 2), 3);
    assert_eq!(chunk_containing(47, 20, 16, 4), 1 * 4 + 2);
}

#[test]
fn seams_of_border_cells() {
    let seams = |x: usize, z: usize| {
        let mut flags = vec![false; 9];
        mark_seams(&mut flags, x, z, 4, 3);
        (0..9).filter(|c| flags[*c]).collect::<Vec<usize>>()
    };
    // the middle chunk is number 4; its cells are 4..8 on both axes
    assert_eq!(seams(6, 6), vec![]);
    assert_eq!(seams(7, 6), vec![]);
    // the first column puts the chunk before on a seam, the second column the chunk after
    assert_eq!(seams(4, 6), vec![3]);
    assert_eq!(seams(5, 6), vec![5]);
    assert_eq!(seams(6, 4), vec![1]);
    assert_eq!(seams(6, 5), vec![7]);
    // corners put three chunks on a seam
    assert_eq!(seams(4, 4), vec![0, 1, 3]);
    assert_eq!(seams(5, 4), vec![1, 2, 5]);
    assert_eq!(seams(4, 5), vec![3, 6, 7]);
    assert_eq!(seams(5, 5), vec![5, 7, 8]);
    // at the rim of the grid there is no neighbour
    assert_eq!(seams(0, 0), vec![]);
    assert_eq!(seams(9, 9), vec![]);
    assert_eq!(seams(1, 0), vec![1]);
    assert_eq!(seams(8, 11), vec![7]);
}

#[test]
fn seams_keep_what_was_flagged() {
    let mut flags = vec![true, false, false, false];
    mark_seams(&mut flags, 1, 1, 2, 2);
    assert_eq!(flags, vec![true, true, true, true]);
}

#[test]
fn samples_beyond_the_grid_read_the_rim() {
    let heights = vec![1, 2, 3, 4];
    assert_eq!(sample(&heights, 2, 0, 0), 1);
    assert_eq!(sample(&heights, 2, 1, 1), 4);
    assert_eq!(sample(&heights, 2, 2, 0), 2);
    assert_eq!(sample(&heights, 2, 0, 5), 3);
    assert_eq!(sample(&heights, 2, 9, 9), 4);
}

#[test]
fn edit_log_records_each_cell_once() {
    let mut log: EditLog<i32> = EditLog::new(10);
    assert_eq!(log.len(), 0);
    assert!(!log.contains_key(3));
    log.insert(3, 7);
    log.insert(9, -1);
    assert!(log.contains_key(3));
    assert!(log.contains_key(9));
    assert!(!log.contains_key(4));
    assert!(!log.contains_key(10));
    assert_eq!(log.to_vec(), vec![(3, 7), (9, -1)]);
    assert_eq!(log.len(), 2);
    log.clear();
    assert_eq!(log.len(), 0);
    assert!(!log.contains_key(3));
    log.insert(3, 8);
    assert_eq!(log.to_vec(), vec![(3, 8)]);
}

#[test]
fn seam_sets_gather_the_neighbours() {
    let mut seam: HashSet<usize> = HashSet::new();
    mark_seams_in(&mut seam, 6, 6, 4, 3);
    assert!(seam.is_empty());
    mark_seams_in(&mut seam, 4, 4, 4, 3);
    let mut ids: Vec<usize> = seam.iter().cloned().collect();
    ids.sort();
    assert_eq!(ids, vec![0, 1, 3]);
    mark_seams_in(&mut seam, 5, 6, 4, 3);
    mark_seams_in(&mut seam, 4, 6, 4, 3);
    let mut ids: Vec<usize> = seam.iter().cloned().collect();
    ids.sort();
    assert_eq!(ids, vec![0, 1, 3, 5]);
}
