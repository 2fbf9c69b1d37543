//! The board: its size, the cells on it and the four headings.
use vstd::prelude::*;

verus! {

/// Side of one cell on screen, in pixels.
pub const GRID_SIZE_PX: i32 = 32;

/// Number of rows of the board; at least 4, so that the interior where
/// eaten food reappears is not empty.
pub const H: i32 = 16;

/// Number of columns of the board; at least 4, so that the interior where
/// eaten food reappears is not empty.
pub const W: i32 = 16;

/// Speed of a fresh game, in ticks per second.
pub const INIT_SPEED: u32 = 5;

/// A cell of the board, by column `x` and row `y`; row 0 is at the top.
#[derive(Debug, Clone, Copy, PartialEq, Eq, Structural)]
pub struct Position {
    pub x: i32,
    pub y: i32,
}

/// One of the four headings of the snake.
#[derive(Debug, Clone, Copy, PartialEq, Eq, Structural)]
pub enum Direction {
    Up,
    Down,
    Left,
    Right,
}

/// The heading that points the other way.
pub open spec fn opposite(d: Direction) -> Direction {
    match d {
        Direction::Up => Direction::Down,
        Direction::Down => Direction::Up,
        Direction::Left => Direction::Right,
        Direction::Right => Direction::Left,
    }
}

/// Column change of one step in heading `d`.
pub open spec fn delta_x(d: Direction) -> int {
    match d {
        Direction::Left => -1,
        Direction::Right => 1,
        _ => 0,
    }
}

/// Row change of one step in heading `d`.
pub open spec fn delta_y(d: Direction) -> int {
    match d {
        Direction::Up => -1,
        Direction::Down => 1,
        _ => 0,
    }
}

/// Whether one step from `p` in heading `d` still has coordinates that fit in `i32`.
pub open spec fn can_step(p: Position, d: Direction) -> bool {
    &&& i32::MIN <= p.x + delta_x(d) <= i32::MAX
    &&& i32::MIN <= p.y + delta_y(d) <= i32::MAX
}

/// The cell one step from `p` in heading `d`.
pub open spec fn step(p: Position, d: Direction) -> Position
    recommends
        can_step(p, d),
{
    Position { x: (p.x + delta_x(d)) as i32, y: (p.y + delta_y(d)) as i32 }
}

/// Whether `p` lies on the board, `[0, W) x [0, H)`.
pub open spec fn on_board(p: Position) -> bool {
    0 <= p.x < W && 0 <= p.y < H
}

impl Position {
    pub fn new(x: i32, y: i32) -> (r: Self)
        ensures
            r == (Position { x, y }),
    {
        Self { x: x, y: y }
    }

    /// The position moved by `x` columns and `y` rows.
    pub fn offset(&self, x: i32, y: i32) -> (r: Position)
        requires
            i32::MIN <= self.x + x <= i32::MAX,
            i32::MIN <= self.y + y <= i32::MAX,
        ensures
            r.x == self.x + x,
            r.y == self.y + y,
    {
        Position { x: self.x + x, y: self.y + y }
    }
}

impl Direction {
    /// Whether `other` points the opposite way to `self`.
    pub fn is_opposite(&self, other: &Direction) -> (r: bool)
        ensures
            r == (*other == opposite(*self)),
    {
        match (*self, *other) {
            (Direction::Up, Direction::Down) => true,
            (Direction::Down, Direction::Up) => true,
            (Direction::Left, Direction::Right) => true,
            (Direction::Right, Direction::Left) => true,
            _ => false,
        }
    }
}
} // verus!
