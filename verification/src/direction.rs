use vstd::prelude::*;

verus! {

/// A facing on the grid. The y axis grows downward, as screen
/// coordinates do.
#[derive(Clone, Copy, PartialEq, Eq, Structural, Debug)]
pub enum Direction {
    Right,
    Left,
    Up,
    Down,
}

/// A keyboard event as the game core sees it: one of the four arrow
/// keys, or anything else (which the core ignores).
#[derive(Clone, Copy, PartialEq, Eq, Structural, Debug)]
pub enum KeyPress {
    Up,
    Down,
    Left,
    Right,
    Other,
}

impl Direction {
    /// The facing exactly opposite to this one.
    pub open spec fn opposite(self) -> Direction {
        match self {
            Direction::Right => Direction::Left,
            Direction::Left => Direction::Right,
            Direction::Up => Direction::Down,
            Direction::Down => Direction::Up,
        }
    }
}

/// The direction an arrow key asks for, if it is one.
pub open spec fn key_direction(key: KeyPress) -> Option<Direction> {
    match key {
        KeyPress::Up => Some(Direction::Up),
        KeyPress::Down => Some(Direction::Down),
        KeyPress::Left => Some(Direction::Left),
        KeyPress::Right => Some(Direction::Right),
        KeyPress::Other => None,
    }
}

/// The facing after a key press: an arrow key turns the snake, unless it
/// asks for the exact reverse of the current facing; a reversal, and any
/// non-arrow key, leave the facing unchanged.
pub open spec fn turned(current: Direction, key: KeyPress) -> Direction {
    match key_direction(key) {
        Some(d) => if d == current.opposite() {
            current
        } else {
            d
        },
        None => current,
    }
}

/// Validate a turn request: each arrow key sets the facing to its own
/// direction, except that the reverse of the current facing is ignored;
/// any other key is ignored.
pub fn turn(current: Direction, key: KeyPress) -> (r: Direction)
    ensures
        r == turned(current, key),
        key == KeyPress::Up && current != Direction::Down ==> r == Direction::Up,
        key == KeyPress::Down && current != Direction::Up ==> r == Direction::Down,
        key == KeyPress::Left && current != Direction::Right ==> r == Direction::Left,
        key == KeyPress::Right && current != Direction::Left ==> r == Direction::Right,
        key == KeyPress::Up && current == Direction::Down ==> r == current,
        key == KeyPress::Down && current == Direction::Up ==> r == current,
        key == KeyPress::Left && current == Direction::Right ==> r == current,
        key == KeyPress::Right && current == Direction::Left ==> r == current,
        key == KeyPress::Other ==> r == current,
{
    match key {
        KeyPress::Up => if current == Direction::Down {
            current
        } else {
            Direction::Up
        },
        KeyPress::Down => if current == Direction::Up {
            current
        } else {
            Direction::Down
        },
        KeyPress::Left => if current == Direction::Right {
            current
        } else {
            Direction::Left
        },
        KeyPress::Right => if current == Direction::Left {
            current
        } else {
            Direction::Right
        },
        KeyPress::Other => current,
    }
}

} // verus!
