//! The simulation core of a snake game on a fixed ten-by-ten arena.
//!
//! The snake is an ordered run of segments whose first entry is the head. A
//! fixed-interval timer throttles its steps; each step moves the head one cell
//! and lets every other segment follow its predecessor. Leaving the arena or
//! running into the body ends the run, which restarts at once. Reaching food
//! makes the snake one segment longer.
//!
//! Every function here is verified: its contract states the new state as a
//! function of the old one, over the model [`GameState`].

pub mod events;
pub mod food;
pub mod game;
pub mod grid;
pub mod laws;
pub mod snake;
pub mod timer;

pub use events::{GameOverEvent, GrowthEvent};
pub use food::Food;
pub use game::{DirectionKeys, Game, GameState};
pub use grid::{Position, SnakeMoveDirection, ARENA_HEIGHT, ARENA_WIDTH};
pub use snake::{
    spawn_head, spawn_segment, LastTailPosition, SnakeHead, SnakeSegment, SnakeSegments,
};
pub use timer::{FoodSpawnTimer, SnakeTimer, Timer, TimerState, FOOD_SPAWN_NANOS, SNAKE_TICK_NANOS};
