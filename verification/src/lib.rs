//! A verified Game of Life engine.
//!
//! The library computes generations of Conway's Game of Life on a bounded,
//! zero-padded grid, renders each generation as 8-bit grayscale PNG bytes,
//! and drives the generation/persistence pipeline as a verified state
//! machine. File and channel plumbing lives outside the library.

pub mod board;
pub mod rule;
pub mod step;
pub mod render;
pub mod pipeline;

pub use board::Board;
