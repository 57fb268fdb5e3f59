use crate::color::Color;
use vstd::prelude::*;

verus! {

/// The kind of a chess piece.
#[derive(Copy, Clone, PartialEq, Eq, Structural, Debug)]
pub enum Rank {
    Pawn,
    Rook,
    Knight,
    Bishop,
    Queen,
    King,
}

/// A piece: its kind and the side it belongs to.
#[derive(Copy, Clone, PartialEq, Eq, Structural, Debug)]
pub struct Piece {
    pub rank: Rank,
    pub color: Color,
}

} // verus!
