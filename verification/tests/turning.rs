use snake::direction::{turn, Direction, KeyPress};

const ALL_DIRS: [Direction; 4] = [
    Direction::Right,
    Direction::Left,
    Direction::Up,
    Direction::Down,
];

#[test]
fn non_reverse_arrow_sets_direction() {
    // Every arrow key that is not the exact reverse of the current facing
    // turns the snake to that key's direction.
    assert_eq!(turn(Direction::Right, KeyPress::Up), Direction::Up);
    assert_eq!(turn(Direction::Right, KeyPress::Down), Direction::Down);
    assert_eq!(turn(Direction::Right, KeyPress::Right), Direction::Right);
    assert_eq!(turn(Direction::Up, KeyPress::Left), Direction::Left);
    assert_eq!(turn(Direction::Up, KeyPress::Right), Direction::Right);
    assert_eq!(turn(Direction::Up, KeyPress::Up), Direction::Up);
    assert_eq!(turn(Direction::Left, KeyPress::Up), Direction::Up);
    assert_eq!(turn(Direction::Left, KeyPress::Down), Direction::Down);
    assert_eq!(turn(Direction::Left, KeyPress::Left), Direction::Left);
    assert_eq!(turn(Direction::Down, KeyPress::Left), Direction::Left);
    assert_eq!(turn(Direction::Down, KeyPress::Right), Direction::Right);
    assert_eq!(turn(Direction::Down, KeyPress::Down), Direction::Down);
}

#[test]
fn reverse_arrow_is_ignored() {
    assert_eq!(turn(Direction::Right, KeyPress::Left), Direction::Right);
    assert_eq!(turn(Direction::Left, KeyPress::Right), Direction::Left);
    assert_eq!(turn(Direction::Up, KeyPress::Down), Direction::Up);
    assert_eq!(turn(Direction::Down, KeyPress::Up), Direction::Down);
}

#[test]
fn non_arrow_input_is_ignored() {
    for dir in ALL_DIRS {
        assert_eq!(turn(dir, KeyPress::Other), dir);
    }
}
