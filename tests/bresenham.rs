use doryen_extra::base::Position;
use doryen_extra::bresenham::Bresenham;

fn points(from: Position, to: Position) -> Vec<Position> {
    let mut line = Bresenham::init(from, to);
    let mut out = Vec::new();
    while let Some(p) = line.step() {
        out.push(p);
    }
    out
}

#[test]
pub fn calculate_straight_x_line() {
    let sut = points(Position::new(0, 0), Position::new(10, 0));
    for (i, Position { x, y }) in sut.into_iter().enumerate() {
        assert_eq!(i as i32 + 1, x);
        assert_eq!(0, y);
    }
}

#[test]
pub fn calculate_straight_y_line() {
    let sut = points(Position::new(0, 0), Position::new(0, 10));
    for (i, Position { x, y }) in sut.into_iter().enumerate() {
        assert_eq!(0, x);
        assert_eq!(i as i32 + 1, y);
    }
}

#[test]
pub fn calculate_diagonal_line() {
    let sut = points(Position::new(0, 0), Position::new(10, 10));
    for (i, Position { x, y }) in sut.into_iter().enumerate() {
        assert_eq!(i as i32 + 1, x);
        assert_eq!(i as i32 + 1, y);
    }
}

#[test]
pub fn calculate_staggered_diagonal_line() {
    let sut = points(Position::new(0, 0), Position::new(20, 10));
    for (i, Position { x, y }) in sut.into_iter().enumerate() {
        assert_eq!(i as i32 + 1, x);
        assert_eq!(((i + 1) / 2) as i32, y);
    }
}

#[test]
fn line_has_one_point_per_major_step_and_ends_at_destination() {
    let sut = points(Position::new(3, -2), Position::new(-4, 1));
    assert_eq!(sut.len(), 7);
    assert_eq!(*sut.last().unwrap(), Position::new(-4, 1));
    assert_eq!(sut[0], Position::new(2, -2));
}

#[test]
fn line_to_itself_is_empty() {
    let mut line = Bresenham::init(Position::new(5, 5), Position::new(5, 5));
    assert_eq!(line.step(), None);
    assert_eq!(line.step(), None);
}

#[test]
fn step_after_end_keeps_returning_none() {
    let mut line = Bresenham::init(Position::new(0, 0), Position::new(1, 2));
    assert_eq!(line.step(), Some(Position::new(0, 1)));
    assert_eq!(line.step(), Some(Position::new(1, 2)));
    assert_eq!(line.step(), None);
    assert_eq!(line.step(), None);
}
