//! Collision and motion resolution for a grid-based Breakout game.
//!
//! Every object is a single row of cells centred on an integer position. A
//! tick advances the ball by at most one cell per axis, horizontal first and
//! then vertical, and reports what it struck.
pub mod geometry;
pub mod object;
pub mod command;
pub mod board;
pub mod laws;

pub use geometry::{Bounds, Direction, Point};
pub use object::{GameObject, LossSignal, MoveResult};
pub use command::Command;
pub use board::{Game, StepOutcome, TickEffect, BALL_COOLDOWN_MS, BRICKS_PER_ROW, NUM_ROWS, PADDLE_WIDTH};
