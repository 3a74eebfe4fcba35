//! A one-screen arcade game on a fixed character grid: a short row of glyphs
//! moves one cell per tick, scores by reaching an apple, and the game ends
//! when the row reaches the edge of the grid.
//!
//! The library holds the whole state machine. It draws nothing itself: every
//! tick returns the list of drawing operations that the caller is to perform.

pub mod laws;
pub mod model;
pub mod mover;
pub mod ring;
pub mod screen;

pub use model::{KeyInput, RawKey};
pub use mover::LetterMover;
pub use screen::{Color, DrawOp, BUFFER_HEIGHT, BUFFER_WIDTH};
