//! A chess board to click on.
//!
//! The board shows a position as 8×8 tiles. A click selects a square and the
//! board marks the squares to which its piece may go; a click on one of
//! those plays the move. The rules of the game are those of the `chess`
//! crate, which keeps the position, lists the legal moves and plays them.
//!
//! - [`coordinate`]: the squares.
//! - [`pieces`]: what stands on a square, and the table of piece images.
//! - [`moves`]: moves, and the destinations that a list of moves gives to a
//!   square.
//! - [`engine`]: the rules engine, and what is taken on trust of it.
//! - [`interaction`]: the selection, and how a click changes it.
//! - [`styles`]: the style and the colour of a tile.
//! - [`board`]: the board itself, which takes the clicks and says how each
//!   tile is to be drawn.

pub mod board;
pub mod coordinate;
pub mod engine;
pub mod interaction;
pub mod moves;
pub mod pieces;
pub mod styles;
