use vstd::prelude::*;

use crate::direction::Direction;
use crate::CELL_SIZE;

verus! {

/// A cell of the grid, as a pair of signed coordinates `(x, y)`; the
/// y axis grows downward.
pub type GridCell = (i32, i32);

/// The cell one step from `cell` in direction `dir`, as unbounded
/// integers: `Left` and `Right` move along x, `Up` and `Down` along y.
pub open spec fn stepped(cell: GridCell, dir: Direction) -> (int, int) {
    match dir {
        Direction::Left => (cell.0 - 1, cell.1 as int),
        Direction::Right => (cell.0 + 1, cell.1 as int),
        Direction::Up => (cell.0 as int, cell.1 - 1),
        Direction::Down => (cell.0 as int, cell.1 + 1),
    }
}

/// The cell one step from `cell` in direction `dir` still fits the
/// machine coordinates.
pub open spec fn step_fits(cell: GridCell, dir: Direction) -> bool {
    &&& i32::MIN <= stepped(cell, dir).0 <= i32::MAX
    &&& i32::MIN <= stepped(cell, dir).1 <= i32::MAX
}

/// The pixel origin of a grid cell: each coordinate scaled by the cell
/// size.
pub open spec fn pixel_origin(cell: GridCell) -> (int, int) {
    (cell.0 * (CELL_SIZE as int), cell.1 * (CELL_SIZE as int))
}

/// The pixel origin of `cell` fits the machine coordinates.
pub open spec fn origin_fits(cell: GridCell) -> bool {
    &&& i32::MIN <= pixel_origin(cell).0 <= i32::MAX
    &&& i32::MIN <= pixel_origin(cell).1 <= i32::MAX
}

pub struct Snake {
    /// The body cells in order: the front of the vector is the head,
    /// the back is the tail.
    pub body: Vec<GridCell>,
    /// The current facing, changed only through validated turn requests.
    pub dir: Direction,
}

impl Snake {
    /// A snake always has at least one body cell.
    pub open spec fn wf(self) -> bool {
        self.body@.len() >= 1
    }

    /// The head cell: the front of the body.
    pub open spec fn head(self) -> GridCell {
        self.body@[0]
    }

    /// The starting snake: two cells at the origin, facing right.
    pub fn new() -> (s: Snake)
        ensures
            s.wf(),
            s.body@ == seq![(0i32, 0i32), (0i32, 1i32)],
            s.dir == Direction::Right,
    {
        let mut body: Vec<GridCell> = Vec::new();
        body.push((0, 0));
        body.push((0, 1));
        proof {
            assert(body@ =~= seq![(0i32, 0i32), (0i32, 1i32)]);
        }
        Snake { body, dir: Direction::Right }
    }

    /// One simulation step: a new head one cell along the current facing
    /// is put in front, the old tail cell is dropped, and the length is
    /// unchanged. The body is a pure translate-and-shift of the old one.
    pub fn update(&mut self)
        requires
            old(self).wf(),
            step_fits(old(self).head(), old(self).dir),
        ensures
            final(self).wf(),
            final(self).dir == old(self).dir,
            final(self).body@.len() == old(self).body@.len(),
            (final(self).head().0 as int, final(self).head().1 as int) == stepped(
                old(self).head(),
                old(self).dir,
            ),
            final(self).body@ == seq![final(self).head()] + old(self).body@.drop_last(),
            old(self).body@.len() >= 2 ==> final(self).body@.last() == old(
                self,
            ).body@[old(self).body@.len() - 2],
            final(self).head() != old(self).head(),
    {
        let head = self.body[0];
        let new_head: GridCell = match self.dir {
            Direction::Left => (head.0 - 1, head.1),
            Direction::Right => (head.0 + 1, head.1),
            Direction::Up => (head.0, head.1 - 1),
            Direction::Down => (head.0, head.1 + 1),
        };
        self.body.insert(0, new_head);
        let _tail = self.body.pop();
        proof {
            assert(self.body@ =~= seq![new_head] + old(self).body@.drop_last());
        }
    }

    /// Where the body is drawn: the pixel origin of each body cell, head
    /// first, in body order.
    pub fn render_squares(&self) -> (v: Vec<(i32, i32)>)
        requires
            forall|i: int| 0 <= i < self.body@.len() ==> origin_fits(#[trigger] self.body@[i]),
        ensures
            v@.len() == self.body@.len(),
            forall|i: int|
                0 <= i < v@.len() ==> (#[trigger] v@[i].0 as int, v@[i].1 as int) == pixel_origin(
                    self.body@[i],
                ),
    {
        let mut v: Vec<(i32, i32)> = Vec::new();
        let mut k: usize = 0;
        while k < self.body.len()
            invariant
                k <= self.body@.len(),
                v@.len() == k,
                forall|i: int| 0 <= i < self.body@.len() ==> origin_fits(#[trigger] self.body@[i]),
                forall|i: int|
                    0 <= i < k ==> (#[trigger] v@[i].0 as int, v@[i].1 as int) == pixel_origin(
                        self.body@[i],
                    ),
            decreases self.body@.len() - k,
        {
            let cell = self.body[k];
            assert(origin_fits(self.body@[k as int]));
            v.push((cell.0 * CELL_SIZE, cell.1 * CELL_SIZE));
            k = k + 1;
        }
        v
    }
}

} // verus!
