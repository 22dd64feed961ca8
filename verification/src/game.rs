use vstd::prelude::*;

use crate::direction::turn;
use crate::direction::turned;
use crate::direction::Direction;
use crate::direction::KeyPress;
use crate::food::Food;
use crate::snake::step_fits;
use crate::snake::stepped;
use crate::snake::Snake;
use crate::GRID_CELLS;

verus! {

/// The whole game state: the snake and the food. The two never
/// interact; the drawing surface lives outside the core.
pub struct Game {
    pub snake: Snake,
    pub food: Food,
}

impl Game {
    /// The game is well formed as long as its snake is.
    pub open spec fn wf(self) -> bool {
        self.snake.wf()
    }

    /// The starting state: a two-cell snake at the origin facing right,
    /// and food at a random cell of the grid.
    pub fn new() -> (g: Game)
        ensures
            g.wf(),
            g.snake.body@ == seq![(0i32, 0i32), (0i32, 1i32)],
            g.snake.dir == Direction::Right,
            0 <= g.food.x < GRID_CELLS,
            0 <= g.food.y < GRID_CELLS,
    {
        Game { snake: Snake::new(), food: Food::new() }
    }

    /// One update tick: the snake advances one cell along its facing;
    /// the food does not change.
    pub fn update(&mut self)
        requires
            old(self).wf(),
            step_fits(old(self).snake.head(), old(self).snake.dir),
        ensures
            final(self).wf(),
            final(self).food == old(self).food,
            final(self).snake.dir == old(self).snake.dir,
            final(self).snake.body@.len() == old(self).snake.body@.len(),
            final(self).snake.body@ == seq![final(self).snake.head()] + old(
                self,
            ).snake.body@.drop_last(),
            (final(self).snake.head().0 as int, final(self).snake.head().1 as int) == stepped(
                old(self).snake.head(),
                old(self).snake.dir,
            ),
    {
        self.snake.update();
    }

    /// One input event: an arrow key turns the snake unless it asks for
    /// the reverse of the current facing; any other input changes
    /// nothing. The body and the food are untouched either way.
    pub fn pressed(&mut self, key: KeyPress)
        ensures
            final(self).snake.dir == turned(old(self).snake.dir, key),
            final(self).snake.body@ == old(self).snake.body@,
            final(self).food == old(self).food,
    {
        let d = turn(self.snake.dir, key);
        self.snake.dir = d;
    }
}

} // verus!
