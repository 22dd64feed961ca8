use vstd::prelude::*;

use crate::snake::origin_fits;
use crate::snake::pixel_origin;
use crate::CELL_SIZE;
use crate::GRID_CELLS;

verus! {

/// A piece of food: a single grid cell, placed once at construction and
/// never moved.
pub struct Food {
    pub x: i32,
    pub y: i32,
}

/// Relies on rand::random_range: for the range 0..20 it returns a value
/// drawn uniformly from [0, 20), using the thread-local generator.
#[verifier::external_body]
fn random_grid_coord() -> (r: i32)
    ensures
        0 <= r < GRID_CELLS,
{
    rand::random_range(0..20)
}

impl Food {
    /// Place food at a random cell: each coordinate drawn independently
    /// and uniformly from the grid range.
    pub fn new() -> (f: Food)
        ensures
            0 <= f.x < GRID_CELLS,
            0 <= f.y < GRID_CELLS,
    {
        Food { x: random_grid_coord(), y: random_grid_coord() }
    }

    /// Where the food is drawn: the pixel origin of its cell.
    pub fn render_square(&self) -> (p: (i32, i32))
        requires
            origin_fits((self.x, self.y)),
        ensures
            (p.0 as int, p.1 as int) == pixel_origin((self.x, self.y)),
    {
        (self.x * CELL_SIZE, self.y * CELL_SIZE)
    }
}

} // verus!
