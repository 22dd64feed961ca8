use snake::direction::Direction;
use snake::snake::Snake;

#[test]
fn update_translates_head_and_shifts_body() {
    // The new head is the old head moved one cell along the facing; every
    // other cell takes its predecessor's place, so the old second-to-last
    // cell becomes the tail and the length never changes.
    let cases: [(Direction, i32, i32); 4] = [
        (Direction::Right, 1, 0),
        (Direction::Left, -1, 0),
        (Direction::Up, 0, -1),
        (Direction::Down, 0, 1),
    ];
    for (dir, dx, dy) in cases {
        let mut s = Snake {
            body: vec![(5, 5), (4, 5), (4, 4)],
            dir,
        };
        s.update();
        assert_eq!(s.body.len(), 3);
        assert_eq!(s.body[0], (5 + dx, 5 + dy));
        assert_eq!(s.body[1], (5, 5));
        assert_eq!(s.body[2], (4, 5));
        assert_eq!(s.dir, dir);
    }
}

#[test]
fn update_preserves_length() {
    let mut s = Snake {
        body: vec![(0, 0), (0, 1), (1, 1), (2, 1), (2, 2)],
        dir: Direction::Down,
    };
    for _ in 0..10 {
        let before = s.body.len();
        s.update();
        assert_eq!(s.body.len(), before);
    }
}

#[test]
fn update_on_single_cell_body() {
    let mut s = Snake {
        body: vec![(3, 3)],
        dir: Direction::Up,
    };
    s.update();
    assert_eq!(s.body, vec![(3, 2)]);
}

#[test]
fn update_is_not_idempotent() {
    // The state changes on every call: the head always moves.
    let mut s = Snake::new();
    let mut previous = s.body.clone();
    for _ in 0..5 {
        s.update();
        assert_ne!(s.body, previous);
        previous = s.body.clone();
    }
}

#[test]
fn new_snake_starts_at_origin_facing_right() {
    let s = Snake::new();
    assert_eq!(s.body, vec![(0, 0), (0, 1)]);
    assert_eq!(s.dir, Direction::Right);
}
