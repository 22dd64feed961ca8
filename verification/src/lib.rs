use vstd::prelude::*;

pub mod direction;
pub mod food;
pub mod game;
pub mod snake;

verus! {

/// Width and height of the logical grid, in cells.
pub const GRID_CELLS: i32 = 20;

/// Side of one grid cell, in pixels.
pub const CELL_SIZE: i32 = 20;

} // verus!
