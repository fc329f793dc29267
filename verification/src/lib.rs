//! Height-field terrain: sparse storage trees, marching-cubes meshing and an
//! edit engine with undo and redo, all on integer grids.
//!
//! Lengths in space are counted in half grid units, so that the middle of a
//! cube edge and a surface half a unit above a height sample are whole numbers.

pub mod brush;
pub mod edit_log;
pub mod grid;
pub mod history;
pub mod marching_cubes;
pub mod mesh_cache;
pub mod oct_tree;
pub mod quad_tree;
pub mod seam_set;
pub mod stroke_model;
pub mod structs;
mod table_proof;
pub mod tables;
pub mod terrain_node;
pub mod terrain_utils;
