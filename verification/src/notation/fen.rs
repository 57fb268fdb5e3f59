//! Forsyth-Edwards Notation (FEN), as an output notation.

use crate::board::{Board, Castling, Tile};
use crate::color::Color;
use crate::notation::{
    push_castling_text, push_char, push_dec_u32, spec_castling_text, spec_dec, spec_digit_char,
    spec_side_char, BoardOutputNotation,
};
use crate::piece::{Piece, Rank};
use crate::ply::Location;
use vstd::prelude::*;
use vstd::string::StringExecFns;

verus! {

/// Renders the whole state of a board as one line of text: piece
/// placement, side to move, castling rights, en-passant target and the
/// two move counters, separated by single spaces.
pub struct ForsythEdwardsNotation;

/// The one-letter glyph of a piece: uppercase for white, lowercase for
/// black.
pub open spec fn spec_piece_char(piece: Piece) -> char {
    match piece.color {
        Color::White => match piece.rank {
            Rank::Pawn => 'P',
            Rank::Rook => 'R',
            Rank::Knight => 'N',
            Rank::Bishop => 'B',
            Rank::Queen => 'Q',
            Rank::King => 'K',
        },
        Color::Black => match piece.rank {
            Rank::Pawn => 'p',
            Rank::Rook => 'r',
            Rank::Knight => 'n',
            Rank::Bishop => 'b',
            Rank::Queen => 'q',
            Rank::King => 'k',
        },
    }
}

/// The uppercase letter of a file, `A` through `H`.
pub open spec fn spec_file_letter(file: int) -> char {
    if file == 0 {
        'A'
    } else if file == 1 {
        'B'
    } else if file == 2 {
        'C'
    } else if file == 3 {
        'D'
    } else if file == 4 {
        'E'
    } else if file == 5 {
        'F'
    } else if file == 6 {
        'G'
    } else {
        'H'
    }
}

/// The rest of one rank's placement text, from column `file` on, with
/// `empties` consecutive empty squares seen but not yet rendered. Empty
/// squares are run-length encoded as their count; occupied squares are
/// one piece letter each.
pub open spec fn spec_rank_text_from(row: Seq<Tile>, file: int, empties: int) -> Seq<char>
    decreases 8 - file,
{
    if file < 0 || file >= 8 {
        if empties > 0 {
            seq![spec_digit_char(empties)]
        } else {
            Seq::<char>::empty()
        }
    } else {
        match row[file] {
            Tile::Empty => spec_rank_text_from(row, file + 1, empties + 1),
            Tile::Taken(p) => (if empties > 0 {
                seq![spec_digit_char(empties)]
            } else {
                Seq::<char>::empty()
            }) + seq![spec_piece_char(p)] + spec_rank_text_from(row, file + 1, 0),
        }
    }
}

/// The placement text of one rank.
pub open spec fn spec_rank_text(row: Seq<Tile>) -> Seq<char> {
    spec_rank_text_from(row, 0, 0)
}

/// The placement field: the eight rank texts from rank 7 down to
/// rank 0, separated by `/`.
pub open spec fn spec_placement_text(grid: Seq<Vec<Tile>>) -> Seq<char> {
    spec_rank_text(grid[7]@) + seq!['/'] + spec_rank_text(grid[6]@) + seq!['/'] + spec_rank_text(
        grid[5]@,
    ) + seq!['/'] + spec_rank_text(grid[4]@) + seq!['/'] + spec_rank_text(grid[3]@) + seq!['/']
        + spec_rank_text(grid[2]@) + seq!['/'] + spec_rank_text(grid[1]@) + seq!['/']
        + spec_rank_text(grid[0]@)
}

/// The en-passant field: `-`, or the target square as an uppercase
/// file letter and a one-based rank digit.
pub open spec fn spec_enpassant_text(enpassant: Option<Location>) -> Seq<char> {
    match enpassant {
        None => seq!['-'],
        Some(l) => seq![spec_file_letter(l.file as int), spec_digit_char(l.rank as int + 1)],
    }
}

/// The whole FEN line of a board.
pub open spec fn spec_fen_text(board: Board) -> Seq<char> {
    spec_placement_text(board.grid@) + seq![' ', spec_side_char(board.color), ' ']
        + spec_castling_text(board.castling) + seq![' '] + spec_enpassant_text(board.enpassant)
        + seq![' '] + spec_dec(board.halfmove_clock as nat) + seq![' '] + spec_dec(
        board.fullmove_number as nat,
    )
}

impl BoardOutputNotation for ForsythEdwardsNotation {
    open spec fn spec_unparse_board(&self, board: Board) -> Seq<char> {
        spec_fen_text(board)
    }

    fn unparse_board(&self, board: &Board) -> (r: String) {
        let mut out = String::new();
        let placement = self.unparse_grid(&board.grid);
        out.append(placement.as_str());
        push_char(&mut out, ' ');
        out.append(self.unparse_color(&board.color));
        push_char(&mut out, ' ');
        let castling = self.unparse_castling(&board.castling);
        out.append(castling.as_str());
        push_char(&mut out, ' ');
        let enpassant = self.unparse_enpassant(&board.enpassant);
        out.append(enpassant.as_str());
        push_char(&mut out, ' ');
        push_dec_u32(&mut out, board.halfmove_clock);
        push_char(&mut out, ' ');
        push_dec_u32(&mut out, board.fullmove_number);
        proof {
            assert(out@ =~= spec_fen_text(*board));
        }
        out
    }
}

impl ForsythEdwardsNotation {
    /// The placement field of the given 8x8 grid.
    pub fn unparse_grid(&self, grid: &Vec<Vec<Tile>>) -> (r: String)
        requires
            grid@.len() == 8,
            forall|i: int| 0 <= i < 8 ==> (#[trigger] grid@[i])@.len() == 8,
        ensures
            r@ == spec_placement_text(grid@),
    {
        let mut out = String::new();
        // Rows are rendered from the top of the board to the bottom.
        let mut rank: usize = 8;
        while rank > 0
            invariant
                grid@.len() == 8,
                forall|i: int| 0 <= i < 8 ==> (#[trigger] grid@[i])@.len() == 8,
                rank <= 8,
                out@ == spec_placement_upto(grid@, rank as int),
            decreases rank,
        {
            rank = rank - 1;
            let row_text = self.unparse_rank(&grid[rank]);
            out.append(row_text.as_str());
            if rank > 0 {
                push_char(&mut out, '/');
            }
            proof {
                assert(out@ =~= spec_placement_upto(grid@, rank as int));
            }
        }
        proof {
            reveal_with_fuel(spec_placement_upto, 9);
            assert(out@ =~= spec_placement_text(grid@));
        }
        out
    }

    /// The placement text of one rank.
    pub fn unparse_rank(&self, row: &Vec<Tile>) -> (r: String)
        requires
            row@.len() == 8,
        ensures
            r@ == spec_rank_text(row@),
    {
        let mut out = String::new();
        let mut empties: u8 = 0;
        let mut file: usize = 0;
        while file < 8
            invariant
                row@.len() == 8,
                file <= 8,
                empties <= file,
                out@ + spec_rank_text_from(row@, file as int, empties as int) == spec_rank_text(
                    row@,
                ),
            decreases 8 - file,
        {
            match row[file] {
                Tile::Empty => {
                    empties = empties + 1;
                },
                Tile::Taken(piece) => {
                    if empties > 0 {
                        push_char(&mut out, crate::notation::digit_char(empties));
                        empties = 0;
                    }
                    push_char(&mut out, self.unparse_piece(&piece));
                },
            }
            file = file + 1;
            proof {
                assert(out@ + spec_rank_text_from(row@, file as int, empties as int)
                    =~= spec_rank_text(row@));
            }
        }
        if empties > 0 {
            push_char(&mut out, crate::notation::digit_char(empties));
        }
        proof {
            assert(out@ =~= spec_rank_text(row@));
        }
        out
    }

    /// The one-letter glyph of a piece.
    pub fn unparse_piece(&self, piece: &Piece) -> (c: char)
        ensures
            c == spec_piece_char(*piece),
    {
        match piece.color {
            Color::White => match piece.rank {
                Rank::Pawn => 'P',
                Rank::Rook => 'R',
                Rank::Knight => 'N',
                Rank::Bishop => 'B',
                Rank::Queen => 'Q',
                Rank::King => 'K',
            },
            Color::Black => match piece.rank {
                Rank::Pawn => 'p',
                Rank::Rook => 'r',
                Rank::Knight => 'n',
                Rank::Bishop => 'b',
                Rank::Queen => 'q',
                Rank::King => 'k',
            },
        }
    }

    /// The side-to-move field.
    pub fn unparse_color(&self, color: &Color) -> (r: &'static str)
        ensures
            r@ == seq![spec_side_char(*color)],
    {
        proof {
            reveal_strlit("w");
            reveal_strlit("b");
            assert("w"@ =~= seq!['w']);
            assert("b"@ =~= seq!['b']);
        }
        match *color {
            Color::White => "w",
            Color::Black => "b",
        }
    }

    /// The castling-rights field.
    pub fn unparse_castling(&self, castling: &Castling) -> (r: String)
        ensures
            r@ == spec_castling_text(*castling),
    {
        let mut out = String::new();
        push_castling_text(&mut out, castling);
        out
    }

    /// The en-passant field.
    pub fn unparse_enpassant(&self, enpassant: &Option<Location>) -> (r: String)
        requires
            enpassant matches Some(l) ==> l.wf(),
        ensures
            r@ == spec_enpassant_text(*enpassant),
    {
        let mut out = String::new();
        match *enpassant {
            None => {
                push_char(&mut out, '-');
            },
            Some(location) => {
                let letter = match location.file {
                    0 => 'A',
                    1 => 'B',
                    2 => 'C',
                    3 => 'D',
                    4 => 'E',
                    5 => 'F',
                    6 => 'G',
                    _ => 'H',
                };
                push_char(&mut out, letter);
                push_char(&mut out, crate::notation::digit_char(location.rank + 1));
            },
        }
        out
    }
}

/// The placement field cut off below `rank`: the rank texts from
/// rank 7 down to rank `rank`, separated and followed by `/` except
/// after rank 0.
pub open spec fn spec_placement_upto(grid: Seq<Vec<Tile>>, rank: int) -> Seq<char>
    decreases 8 - rank,
{
    if rank >= 8 || rank < 0 {
        Seq::<char>::empty()
    } else {
        spec_placement_upto(grid, rank + 1) + spec_rank_text(grid[rank]@) + (if rank > 0 {
            seq!['/']
        } else {
            Seq::<char>::empty()
        })
    }
}

} // verus!
