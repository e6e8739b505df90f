//! Board-state core of a chess-variant engine: the packed encoding of a square,
//! the 64-square board, and its text diagram.

pub mod constants;
pub mod encoding;
pub mod engine;

pub use constants::{BoardMasks, Pieces, TileModifiers};
pub use engine::Engine;
