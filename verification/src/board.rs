use crate::color::Color;
use crate::piece::{Piece, Rank};
use crate::ply::Location;
use vstd::prelude::*;

verus! {

/// One cell of the grid: empty, or taken by a piece.
#[derive(Copy, Clone, PartialEq, Eq, Structural, Debug)]
pub enum Tile {
    Empty,
    Taken(Piece),
}

/// Which castling moves are still available to each side.
#[derive(Copy, Clone, PartialEq, Eq, Structural, Debug)]
pub struct Castling {
    pub white_king: bool,
    pub white_queen: bool,
    pub black_king: bool,
    pub black_queen: bool,
}

/// The state of the game board, derived from the fields of
/// Forsyth-Edwards Notation (FEN): this state alone is sufficient to
/// resume a game, without knowing how the pieces arrived where they are.
///
/// The grid is indexed `[rank][file]`, both zero-based, so the rows are
/// stored bottom-up: `grid[0]` is the rank the white pieces start on.
#[derive(Clone, PartialEq, Eq, Debug)]
pub struct Board {
    pub grid: Vec<Vec<Tile>>,
    pub color: Color,
    pub castling: Castling,
    pub enpassant: Option<Location>,
    pub halfmove_clock: u32,
    pub fullmove_number: u32,
}

/// The piece (or empty tile) that the standard starting position puts
/// on the given square.
pub open spec fn start_tile(l: Location) -> Tile {
    if l.rank == 0 {
        start_back_tile(l.file, Color::White)
    } else if l.rank == 1 {
        Tile::Taken(Piece { rank: Rank::Pawn, color: Color::White })
    } else if l.rank == 6 {
        Tile::Taken(Piece { rank: Rank::Pawn, color: Color::Black })
    } else if l.rank == 7 {
        start_back_tile(l.file, Color::Black)
    } else {
        Tile::Empty
    }
}

/// The piece that the standard starting position puts on the given file
/// of a side's back rank.
pub open spec fn start_back_tile(file: u8, color: Color) -> Tile {
    let rank = if file == 0 || file == 7 {
        Rank::Rook
    } else if file == 1 || file == 6 {
        Rank::Knight
    } else if file == 2 || file == 5 {
        Rank::Bishop
    } else if file == 3 {
        Rank::Queen
    } else {
        Rank::King
    };
    Tile::Taken(Piece { rank, color })
}

/// The standard starting position: the canonical layout on the grid,
/// white to move, every castling right available, no en-passant target,
/// halfmove clock 0 and fullmove number 1.
pub open spec fn is_start(b: Board) -> bool {
    &&& b.wf()
    &&& forall|l: Location| l.wf() ==> #[trigger] b.tile(l) == start_tile(l)
    &&& b.color == Color::White
    &&& b.castling == (Castling {
        white_king: true,
        white_queen: true,
        black_king: true,
        black_queen: true,
    })
    &&& b.enpassant is None
    &&& b.halfmove_clock == 0
    &&& b.fullmove_number == 1
}

impl Board {
    /// The grid is 8x8 and the en-passant target, if any, lies on it.
    pub open spec fn wf(self) -> bool {
        &&& self.grid@.len() == 8
        &&& forall|r: int| 0 <= r < 8 ==> (#[trigger] self.grid@[r])@.len() == 8
        &&& (self.enpassant matches Some(l) ==> l.wf())
    }

    /// The tile on the given square.
    pub open spec fn tile(self, l: Location) -> Tile {
        self.grid@[l.rank as int]@[l.file as int]
    }

    /// The standard starting position: white to move, every castling
    /// right available, no en-passant target, clocks at 0 and 1.
    pub fn new() -> (r: Board)
        ensures
            is_start(r),
    {
        let white_back: Vec<Tile> = back_row(Color::White);
        let white_pawns: Vec<Tile> = pawn_row(Color::White);
        let empty_row_2: Vec<Tile> = empty_row();
        let empty_row_3: Vec<Tile> = empty_row();
        let empty_row_4: Vec<Tile> = empty_row();
        let empty_row_5: Vec<Tile> = empty_row();
        let black_pawns: Vec<Tile> = pawn_row(Color::Black);
        let black_back: Vec<Tile> = back_row(Color::Black);
        // Boards are labelled starting at the bottom, so the white rows
        // come first in the grid.
        let grid: Vec<Vec<Tile>> = vec![
            white_back,
            white_pawns,
            empty_row_2,
            empty_row_3,
            empty_row_4,
            empty_row_5,
            black_pawns,
            black_back,
        ];
        let r = Board {
            grid,
            color: Color::White,
            castling: Castling {
                white_king: true,
                white_queen: true,
                black_king: true,
                black_queen: true,
            },
            enpassant: None,
            halfmove_clock: 0,
            fullmove_number: 1,
        };
        proof {
            assert forall|l: Location| l.wf() implies #[trigger] r.tile(l) == start_tile(l) by {
                assert(r.grid@[l.rank as int]@[l.file as int] == start_tile(l));
            }
        }
        r
    }

    /// The tile on the given square. The caller must keep the location
    /// on the board.
    pub fn tile_at(&self, location: &Location) -> (r: &Tile)
        requires
            self.wf(),
            location.wf(),
        ensures
            *r == self.tile(*location),
    {
        let row: &Vec<Tile> = &self.grid[location.rank as usize];
        &row[location.file as usize]
    }
}

/// A side's back row of the starting position, from file 0 to file 7.
fn back_row(color: Color) -> (r: Vec<Tile>)
    ensures
        r@.len() == 8,
        forall|f: int| 0 <= f < 8 ==> r@[f] == start_back_tile(f as u8, color),
{
    let r: Vec<Tile> = vec![
        Tile::Taken(Piece { rank: Rank::Rook, color }),
        Tile::Taken(Piece { rank: Rank::Knight, color }),
        Tile::Taken(Piece { rank: Rank::Bishop, color }),
        Tile::Taken(Piece { rank: Rank::Queen, color }),
        Tile::Taken(Piece { rank: Rank::King, color }),
        Tile::Taken(Piece { rank: Rank::Bishop, color }),
        Tile::Taken(Piece { rank: Rank::Knight, color }),
        Tile::Taken(Piece { rank: Rank::Rook, color }),
    ];
    r
}

/// A row of eight pawns of one side.
fn pawn_row(color: Color) -> (r: Vec<Tile>)
    ensures
        r@.len() == 8,
        forall|f: int| 0 <= f < 8 ==> r@[f] == Tile::Taken(Piece { rank: Rank::Pawn, color }),
{
    let p = Tile::Taken(Piece { rank: Rank::Pawn, color });
    let r: Vec<Tile> = vec![p, p, p, p, p, p, p, p];
    r
}

/// A row of eight empty tiles.
fn empty_row() -> (r: Vec<Tile>)
    ensures
        r@.len() == 8,
        forall|f: int| 0 <= f < 8 ==> r@[f] == Tile::Empty,
{
    let r: Vec<Tile> = vec![
        Tile::Empty,
        Tile::Empty,
        Tile::Empty,
        Tile::Empty,
        Tile::Empty,
        Tile::Empty,
        Tile::Empty,
        Tile::Empty,
    ];
    r
}

} // verus!
