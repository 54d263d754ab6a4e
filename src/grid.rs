//! Grid cells, headings and the fixed board size.

use vstd::prelude::*;

verus! {

/// Number of columns of the board.
pub const GRID_WIDTH: i32 = 20;

/// Number of rows of the board.
pub const GRID_HEIGHT: i32 = 15;

/// An integer grid coordinate. Values outside the board are legal
/// intermediate positions: a head that left the board is one.
#[derive(Clone, Copy, Debug, PartialEq, Eq, Structural)]
pub struct Cell {
    pub x: i32,
    pub y: i32,
}

/// The four headings of the snake.
#[derive(Clone, Copy, Debug, PartialEq, Eq, Structural)]
pub enum Direction {
    Up,
    Down,
    Left,
    Right,
}

/// True when the cell lies on the board.
pub open spec fn in_grid(c: Cell) -> bool {
    0 <= c.x < GRID_WIDTH && 0 <= c.y < GRID_HEIGHT
}

/// Horizontal unit offset of a heading (Up is towards larger y).
pub open spec fn dx(d: Direction) -> int {
    match d {
        Direction::Left => -1,
        Direction::Right => 1,
        _ => 0,
    }
}

/// Vertical unit offset of a heading.
pub open spec fn dy(d: Direction) -> int {
    match d {
        Direction::Up => 1,
        Direction::Down => -1,
        _ => 0,
    }
}

/// The heading whose offset is the negation of `d`'s.
pub open spec fn opposite_of(d: Direction) -> Direction {
    match d {
        Direction::Up => Direction::Down,
        Direction::Down => Direction::Up,
        Direction::Left => Direction::Right,
        Direction::Right => Direction::Left,
    }
}

/// A step from `c` along `d` stays within `i32`.
pub open spec fn step_fits(c: Cell, d: Direction) -> bool {
    i32::MIN <= c.x + dx(d) <= i32::MAX && i32::MIN <= c.y + dy(d) <= i32::MAX
}

/// The cell one step from `c` along `d`, without wraparound.
pub open spec fn step(c: Cell, d: Direction) -> Cell
    recommends
        step_fits(c, d),
{
    Cell { x: (c.x + dx(d)) as i32, y: (c.y + dy(d)) as i32 }
}

impl Cell {
    /// A cell at the given coordinates.
    pub fn new(x: i32, y: i32) -> (r: Cell)
        ensures
            r.x == x,
            r.y == y,
    {
        Cell { x, y }
    }

    /// The neighbouring cell along `d`: integer vector addition.
    pub fn offset(self, d: Direction) -> (r: Cell)
        requires
            step_fits(self, d),
        ensures
            r == step(self, d),
    {
        match d {
            Direction::Up => Cell { x: self.x, y: self.y + 1 },
            Direction::Down => Cell { x: self.x, y: self.y - 1 },
            Direction::Left => Cell { x: self.x - 1, y: self.y },
            Direction::Right => Cell { x: self.x + 1, y: self.y },
        }
    }
}

impl Direction {
    /// The unit offset `(dx, dy)` of this heading.
    pub fn delta(self) -> (r: (i32, i32))
        ensures
            r.0 == dx(self),
            r.1 == dy(self),
    {
        match self {
            Direction::Up => (0, 1),
            Direction::Down => (0, -1),
            Direction::Left => (-1, 0),
            Direction::Right => (1, 0),
        }
    }

    /// The reverse heading.
    pub fn opposite(self) -> (r: Direction)
        ensures
            r == opposite_of(self),
            dx(r) == -dx(self),
            dy(r) == -dy(self),
    {
        match self {
            Direction::Up => Direction::Down,
            Direction::Down => Direction::Up,
            Direction::Left => Direction::Right,
            Direction::Right => Direction::Left,
        }
    }
}

/// A heading is opposite to another exactly when both offsets are negated.
pub proof fn lemma_opposite_is_negation(a: Direction, b: Direction)
    ensures
        (b == opposite_of(a)) <==> (dx(b) == -dx(a) && dy(b) == -dy(a)),
{
}

} // verus!
