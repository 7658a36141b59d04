//! Cells of the arena and the four ways to leave one.

use vstd::prelude::*;

verus! {

/// Number of columns of the arena.
pub const ARENA_WIDTH: u32 = 10;

/// Number of rows of the arena.
pub const ARENA_HEIGHT: u32 = 10;

/// The way the head of the snake is going.
///
/// `Init` is the state before the first input: a snake with this direction
/// stays where it is.
#[derive(Clone, Copy, PartialEq, Eq, Debug, Structural)]
pub enum SnakeMoveDirection {
    Init,
    Left,
    Up,
    Right,
    Down,
}

impl SnakeMoveDirection {
    /// Change of the column in one step.
    pub open spec fn dx(self) -> int {
        match self {
            SnakeMoveDirection::Left => -1,
            SnakeMoveDirection::Right => 1,
            _ => 0,
        }
    }

    /// Change of the row in one step. `Up` counts rows upwards.
    pub open spec fn dy(self) -> int {
        match self {
            SnakeMoveDirection::Up => 1,
            SnakeMoveDirection::Down => -1,
            _ => 0,
        }
    }
}

/// A cell, by column and row. Cells of the arena have
/// `0 <= x < ARENA_WIDTH` and `0 <= y < ARENA_HEIGHT`; a head that has just
/// left the arena holds a cell outside of it.
#[derive(Clone, Copy, PartialEq, Eq, Debug, Structural)]
pub struct Position {
    pub x: i32,
    pub y: i32,
}

impl Position {
    /// Whether the cell lies in the arena.
    pub open spec fn in_arena(self) -> bool {
        0 <= self.x < ARENA_WIDTH && 0 <= self.y < ARENA_HEIGHT
    }

    /// The cell one step away in `direction`, where that cell has `i32`
    /// coordinates.
    pub open spec fn neighbor(self, direction: SnakeMoveDirection) -> Position {
        Position { x: (self.x + direction.dx()) as i32, y: (self.y + direction.dy()) as i32 }
    }

    /// Whether the cell lies in the arena.
    pub fn is_in_arena(&self) -> (inside: bool)
        ensures
            inside == self.in_arena(),
    {
        0 <= self.x && self.x < ARENA_WIDTH as i32 && 0 <= self.y && self.y < ARENA_HEIGHT as i32
    }

    /// The cell one step away in `direction`: `Left` and `Right` change the
    /// column by one, `Down` and `Up` the row, `Init` nothing.
    pub fn step(self, direction: SnakeMoveDirection) -> (next: Position)
        requires
            i32::MIN <= self.x + direction.dx() <= i32::MAX,
            i32::MIN <= self.y + direction.dy() <= i32::MAX,
        ensures
            next.x == self.x + direction.dx(),
            next.y == self.y + direction.dy(),
            next == self.neighbor(direction),
    {
        match direction {
            SnakeMoveDirection::Init => self,
            SnakeMoveDirection::Left => Position { x: self.x - 1, y: self.y },
            SnakeMoveDirection::Up => Position { x: self.x, y: self.y + 1 },
            SnakeMoveDirection::Right => Position { x: self.x + 1, y: self.y },
            SnakeMoveDirection::Down => Position { x: self.x, y: self.y - 1 },
        }
    }
}

} // verus!
