//! Rule engine for a falling-block puzzle game: the piece catalog, the
//! board with collision testing and row clearing, and the game state
//! machine driven by elapsed time and discrete input events.

use vstd::prelude::*;

pub mod board;
pub mod game;
pub mod piece;

verus! {

/// Number of columns on the board.
pub const BOARD_WIDTH: usize = 10;

/// Number of rows on the board.
pub const BOARD_HEIGHT: usize = 20;

} // verus!
