//! A two-player chess position model with pluggable text notations.
//!
//! The board is an 8x8 grid of tiles together with the side to move,
//! castling rights, an optional en-passant target square and the two
//! move counters, as in Forsyth-Edwards Notation. A move ("ply") is
//! parsed from text by an input notation, applied by [`game::Game`],
//! and the position is rendered back to text by an output notation.

pub mod board;
pub mod color;
pub mod game;
pub mod notation;
pub mod piece;
pub mod ply;

pub use board::{Board, Castling, Tile};
pub use color::Color;
pub use game::Game;
pub use piece::{Piece, Rank};
pub use ply::{Location, Move, Ply};
