//! A labeled ASCII grid renderer, generic over any render helper.

use crate::board::{Board, Castling};
use crate::notation::{
    push_castling_text, push_char, push_dec_u32, side_char, spec_castling_text, spec_dec,
    spec_side_char, BoardOutputNotation, BoardOutputNotationHelper,
};
use crate::ply::Location;
use vstd::prelude::*;
use vstd::string::StringExecFns;

verus! {

/// Draws the board as a labeled 8x8 ASCII grid from rank 7 at the top
/// down to rank 0, with the helper supplying every glyph and label,
/// and a footer that repeats the side to move, the castling rights,
/// the en-passant target and the two counters in FEN's encoding.
pub struct DisplayBoardNotation<T: BoardOutputNotationHelper> {
    pub helper: T,
}

/// The line that separates the rows of the grid.
pub open spec fn spec_divider() -> Seq<char> {
    "  +---+---+---+---+---+---+---+---+\n"@
}

impl<T: BoardOutputNotationHelper> DisplayBoardNotation<T> {
    /// A renderer around the given helper.
    pub fn new(helper: T) -> (r: DisplayBoardNotation<T>)
        ensures
            r == (DisplayBoardNotation { helper }),
    {
        DisplayBoardNotation { helper }
    }

    /// The header cells from column `file` on: three spaces and the
    /// file's label, for each file.
    pub open spec fn spec_header_from(self, file: int) -> Seq<char>
        decreases 8 - file,
    {
        if file < 0 || file >= 8 {
            Seq::<char>::empty()
        } else {
            "   "@ + self.helper.spec_file_label(file as u8) + self.spec_header_from(file + 1)
        }
    }

    /// One row's cells from column `file` on: a space, the tile's
    /// glyph and a closing ` |`, for each file.
    pub open spec fn spec_cells_from(self, board: Board, rank: u8, file: int) -> Seq<char>
        decreases 8 - file,
    {
        if file < 0 || file >= 8 {
            Seq::<char>::empty()
        } else {
            " "@ + self.helper.spec_unparse_tile(board.tile(Location { rank, file: file as u8 }))
                + " |"@ + self.spec_cells_from(board, rank, file + 1)
        }
    }

    /// The rows from `rank` down to rank 0: each row is its label, a
    /// ` |`, its cells, a newline and a divider line.
    pub open spec fn spec_rows_from(self, board: Board, rank: int) -> Seq<char>
        decreases rank + 1,
    {
        if rank < 0 || rank > 7 {
            Seq::<char>::empty()
        } else {
            self.helper.spec_rank_label(rank as u8) + " |"@ + self.spec_cells_from(
                board,
                rank as u8,
                0,
            ) + "\n"@ + spec_divider() + self.spec_rows_from(board, rank - 1)
        }
    }

    /// The en-passant field: `-`, or the target square rendered by the
    /// helper.
    pub open spec fn spec_enpassant_text(self, enpassant: Option<Location>) -> Seq<char> {
        match enpassant {
            None => seq!['-'],
            Some(l) => self.helper.spec_unparse_location(l),
        }
    }

    /// The footer: the side to move, the castling rights, the
    /// en-passant target and the two counters, in FEN's encoding.
    pub open spec fn spec_footer(self, board: Board) -> Seq<char> {
        "            "@ + seq![spec_side_char(board.color), ' '] + spec_castling_text(
            board.castling,
        ) + seq![' '] + self.spec_enpassant_text(board.enpassant) + seq![' '] + spec_dec(
            board.halfmove_clock as nat,
        ) + seq![' '] + spec_dec(board.fullmove_number as nat) + seq!['\n']
    }

    /// The whole rendered grid.
    pub open spec fn spec_grid_text(self, board: Board) -> Seq<char> {
        " "@ + self.spec_header_from(0) + "\n"@ + spec_divider() + self.spec_rows_from(board, 7)
            + self.spec_footer(board)
    }

    /// The castling-rights field of the footer.
    fn unparse_castling(&self, castling: &Castling) -> (r: String)
        ensures
            r@ == spec_castling_text(*castling),
    {
        let mut out = String::new();
        push_castling_text(&mut out, castling);
        out
    }

    /// The en-passant field of the footer.
    fn unparse_enpassant(&self, enpassant: &Option<Location>) -> (r: String)
        requires
            enpassant matches Some(l) ==> l.wf(),
        ensures
            r@ == self.spec_enpassant_text(*enpassant),
    {
        match *enpassant {
            Some(location) => self.helper.unparse_location(&location),
            None => {
                let mut out = String::new();
                push_char(&mut out, '-');
                out
            },
        }
    }
}

impl<T: BoardOutputNotationHelper> BoardOutputNotation for DisplayBoardNotation<T> {
    open spec fn spec_unparse_board(&self, board: Board) -> Seq<char> {
        self.spec_grid_text(board)
    }

    #[verifier::rlimit(100)]
    fn unparse_board(&self, board: &Board) -> (r: String) {
        let mut out = String::new();

        // The header
        out.append(" ");
        let mut file: u8 = 0;
        while file < 8
            invariant
                file <= 8,
                out@ + self.spec_header_from(file as int) == " "@ + self.spec_header_from(0),
            decreases 8 - file,
        {
            out.append("   ");
            let label = self.helper.file_label(file);
            out.append(label.as_str());
            file = file + 1;
            proof {
                assert(out@ + self.spec_header_from(file as int) =~= " "@ + self.spec_header_from(
                    0,
                ));
            }
        }
        out.append("\n");

        // The grid
        out.append("  +---+---+---+---+---+---+---+---+\n");
        let ghost prefix = out@;
        proof {
            assert(prefix =~= " "@ + self.spec_header_from(0) + "\n"@ + spec_divider());
        }
        let mut rank: u8 = 8;
        while rank > 0
            invariant
                board.wf(),
                rank <= 8,
                out@ + self.spec_rows_from(*board, rank as int - 1) == prefix
                    + self.spec_rows_from(*board, 7),
            decreases rank,
        {
            rank = rank - 1;
            let label = self.helper.rank_label(rank);
            out.append(label.as_str());
            out.append(" |");
            let ghost row_start = out@;
            let mut file: u8 = 0;
            while file < 8
                invariant
                    board.wf(),
                    rank < 8,
                    file <= 8,
                    out@ + self.spec_cells_from(*board, rank, file as int) == row_start
                        + self.spec_cells_from(*board, rank, 0),
                decreases 8 - file,
            {
                out.append(" ");
                let location = Location { rank, file };
                let glyph = self.helper.unparse_tile(board.tile_at(&location));
                out.append(glyph.as_str());
                out.append(" |");
                file = file + 1;
                proof {
                    assert(out@ + self.spec_cells_from(*board, rank, file as int) =~= row_start
                        + self.spec_cells_from(*board, rank, 0));
                }
            }
            out.append("\n");
            out.append("  +---+---+---+---+---+---+---+---+\n");
            proof {
                assert(out@ + self.spec_rows_from(*board, rank as int - 1) =~= prefix
                    + self.spec_rows_from(*board, 7));
            }
        }

        proof {
            assert(out@ + self.spec_rows_from(*board, -1) == prefix + self.spec_rows_from(
                *board,
                7,
            ));
            assert(out@ =~= prefix + self.spec_rows_from(*board, 7));
        }

        let ghost before_footer = out@;

        // The footer, with supporting information
        out.append("            ");
        push_char(&mut out, side_char(&board.color));
        push_char(&mut out, ' ');
        proof {
            assert(out@ =~= before_footer + "            "@ + seq![
                spec_side_char(board.color),
                ' ',
            ]);
        }
        let ghost with_side = out@;
        let castling = self.unparse_castling(&board.castling);
        out.append(castling.as_str());
        push_char(&mut out, ' ');
        let enpassant = self.unparse_enpassant(&board.enpassant);
        out.append(enpassant.as_str());
        push_char(&mut out, ' ');
        proof {
            assert(out@ =~= with_side + spec_castling_text(board.castling) + seq![' ']
                + self.spec_enpassant_text(board.enpassant) + seq![' ']);
        }
        let ghost with_fields = out@;
        push_dec_u32(&mut out, board.halfmove_clock);
        push_char(&mut out, ' ');
        push_dec_u32(&mut out, board.fullmove_number);
        push_char(&mut out, '\n');
        proof {
            assert(out@ =~= with_fields + spec_dec(board.halfmove_clock as nat) + seq![' ']
                + spec_dec(board.fullmove_number as nat) + seq!['\n']);
            assert(out@ =~= before_footer + self.spec_footer(*board));
            assert(out@ =~= self.spec_grid_text(*board));
        }
        out
    }
}

} // verus!
