//! Core logic of a small grid snake game.
//!
//! The snake lives on a fixed 20x20 grid. Each tick it moves one cell in its
//! current direction, grows by one cell when its head sits on the food, and
//! the game ends when the head collides with the rest of the body or leaves
//! the grid. This crate holds the verified game state and its transition
//! rules; window handling, drawing and input collection live outside it.

use vstd::prelude::*;

pub mod game;
pub mod snake;

verus! {

/// Width and height of the playing grid, in cells.
pub const GRID_SIZE: i32 = 20;

/// Side of one grid cell on the drawing surface, in pixels.
pub const CELL_PIXELS: i32 = 20;

/// A single grid cell, addressed by column `x` and row `y`.
#[derive(Clone, Copy, PartialEq, Eq, Structural, Debug)]
pub struct Cell {
    pub x: i32,
    pub y: i32,
}

/// One of the four directions the snake can travel in.
#[derive(Clone, Copy, PartialEq, Eq, Structural, Debug)]
pub enum Direction {
    Right,
    Left,
    Up,
    Down,
}

impl Direction {
    /// The direction pointing the opposite way.
    pub open spec fn opposite(self) -> Direction {
        match self {
            Direction::Right => Direction::Left,
            Direction::Left => Direction::Right,
            Direction::Up => Direction::Down,
            Direction::Down => Direction::Up,
        }
    }
}

/// True when `c` lies on the playing grid.
pub open spec fn in_grid(c: Cell) -> bool {
    0 <= c.x < GRID_SIZE && 0 <= c.y < GRID_SIZE
}

/// The cell one step from `c` in direction `d`.
pub open spec fn step_cell(c: Cell, d: Direction) -> Cell {
    match d {
        Direction::Left => Cell { x: (c.x - 1) as i32, y: c.y },
        Direction::Right => Cell { x: (c.x + 1) as i32, y: c.y },
        Direction::Up => Cell { x: c.x, y: (c.y - 1) as i32 },
        Direction::Down => Cell { x: c.x, y: (c.y + 1) as i32 },
    }
}

/// Moves `c` one cell in direction `d`.
pub fn stepped(c: Cell, d: Direction) -> (r: Cell)
    requires
        i32::MIN < c.x < i32::MAX,
        i32::MIN < c.y < i32::MAX,
    ensures
        r == step_cell(c, d),
{
    match d {
        Direction::Left => Cell { x: c.x - 1, y: c.y },
        Direction::Right => Cell { x: c.x + 1, y: c.y },
        Direction::Up => Cell { x: c.x, y: c.y - 1 },
        Direction::Down => Cell { x: c.x, y: c.y + 1 },
    }
}

/// Pixel origin of a cell on the drawing surface: each cell spans
/// `CELL_PIXELS` by `CELL_PIXELS` pixels.
pub fn cell_origin(c: Cell) -> (r: (i32, i32))
    requires
        i32::MIN <= c.x * CELL_PIXELS <= i32::MAX,
        i32::MIN <= c.y * CELL_PIXELS <= i32::MAX,
    ensures
        r.0 == c.x * CELL_PIXELS,
        r.1 == c.y * CELL_PIXELS,
{
    (c.x * CELL_PIXELS, c.y * CELL_PIXELS)
}

} // verus!
