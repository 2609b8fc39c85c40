//! A move-generation engine for a Blokus-style tile-placement game: an
//! immutable catalog of the 91 oriented polyomino shapes, a per-player
//! bitboard state over the 20 x 20 board, and a verified scan that returns
//! exactly the legal placements a player still owns.

pub mod laws;
pub mod pieces;
pub mod state;

pub use pieces::{shapes, Piece};
pub use state::{Move, State};
