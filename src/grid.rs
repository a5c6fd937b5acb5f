//! The bounded grid: cells, headings and the unit step of each heading.
use vstd::prelude::*;

verus! {

/// Number of columns of the grid.
pub const WIDTH: i32 = 20;

/// Number of rows of the grid.
pub const HEIGHT: i32 = 20;

/// A grid cell; `y` grows downwards.
#[derive(Clone, Copy, Debug, PartialEq, Eq, Structural)]
pub struct Cell {
    pub x: i32,
    pub y: i32,
}

/// A heading of the snake.
#[derive(Clone, Copy, Debug, PartialEq, Eq, Structural)]
pub enum Direction {
    Up,
    Down,
    Left,
    Right,
}

/// The cell lies on the grid.
pub open spec fn in_bounds(c: Cell) -> bool {
    0 <= c.x < WIDTH && 0 <= c.y < HEIGHT
}

/// A step from the cell in any heading stays within `i32`.
pub open spec fn steppable(c: Cell) -> bool {
    i32::MIN < c.x < i32::MAX && i32::MIN < c.y < i32::MAX
}

/// The cell one step from `c` in heading `d`.
pub open spec fn step(c: Cell, d: Direction) -> Cell {
    match d {
        Direction::Right => Cell { x: (c.x + 1) as i32, y: c.y },
        Direction::Left => Cell { x: (c.x - 1) as i32, y: c.y },
        Direction::Up => Cell { x: c.x, y: (c.y - 1) as i32 },
        Direction::Down => Cell { x: c.x, y: (c.y + 1) as i32 },
    }
}

/// The opposite heading.
pub open spec fn reverse(d: Direction) -> Direction {
    match d {
        Direction::Right => Direction::Left,
        Direction::Left => Direction::Right,
        Direction::Up => Direction::Down,
        Direction::Down => Direction::Up,
    }
}

impl Cell {
    pub fn new(x: i32, y: i32) -> (r: Cell)
        ensures
            r == (Cell { x, y }),
    {
        Cell { x, y }
    }

    /// The cell lies on the grid.
    pub fn is_in_bounds(&self) -> (r: bool)
        ensures
            r == in_bounds(*self),
    {
        0 <= self.x && self.x < WIDTH && 0 <= self.y && self.y < HEIGHT
    }

    /// The neighbouring cell in heading `d`.
    pub fn stepped(&self, d: Direction) -> (r: Cell)
        requires
            steppable(*self),
        ensures
            r == step(*self, d),
    {
        match d {
            Direction::Right => Cell { x: self.x + 1, y: self.y },
            Direction::Left => Cell { x: self.x - 1, y: self.y },
            Direction::Up => Cell { x: self.x, y: self.y - 1 },
            Direction::Down => Cell { x: self.x, y: self.y + 1 },
        }
    }
}

} // verus!
