//! The zero-indexed integer-pair input notation, together with the
//! render helper that labels squares with raw digits.

use crate::board::{Board, Tile};
use crate::notation::{
    push_char, spec_digit_char, spec_digit_value, spec_infer_capture, spec_space_run,
    BoardOutputNotationHelper, PlyInputNotation,
};
use crate::piece::Piece;
use crate::ply::{Location, Move, Ply};
use vstd::prelude::*;

verus! {

/// Reads a ply written as two pairs of zero-based digits, such as
/// `01 02` for a move from (file 0, rank 1) to (file 0, rank 2);
/// captures are inferred from the board. Also renders square labels in
/// the same style: files and ranks as their raw digit.
pub struct ZeroIntegersNotation;

/// The four characters the integer-pair grammar `^(\d)(\d) *(\d)(\d)`
/// captures from the text. `\d` matches every Unicode decimal digit,
/// a class far too large to write out, so this name stands for the
/// exact result; see [`digit_pair_captures`] for what is known of it.
pub uninterp spec fn spec_digit_pair_captures(s: Seq<char>) -> Option<(char, char, char, char)>;

/// The four characters the integer-pair grammar captures when the
/// match is made of ASCII digits alone: the text starts with two ASCII
/// digits, then any number of spaces, then two more ASCII digits, and
/// whatever follows is ignored. No digit is a space, so the match and
/// its captures are uniquely determined.
pub open spec fn spec_ascii_digit_captures(s: Seq<char>) -> Option<(char, char, char, char)> {
    if s.len() >= 2 && spec_digit_value(s[0]) is Some && spec_digit_value(s[1]) is Some {
        let run = spec_space_run(s, 2);
        if s.len() >= 4 + run && spec_digit_value(s[2 + run]) is Some && spec_digit_value(
            s[3 + run],
        ) is Some {
            Some((s[0], s[1], s[2 + run], s[3 + run]))
        } else {
            None
        }
    } else {
        None
    }
}

/// The square named by two zero-based digit characters, each of which
/// must be an ASCII digit below 8. A captured non-ASCII digit fails
/// here, exactly as `str::parse::<u8>` fails on it.
pub open spec fn spec_zero_location(file: char, rank: char) -> Option<Location> {
    match (spec_digit_value(file), spec_digit_value(rank)) {
        (Some(f), Some(r)) => if f < 8 && r < 8 {
            Some(Location { file: f, rank: r })
        } else {
            None
        },
        _ => None,
    }
}

/// The ply built from four captured characters against the given
/// board.
pub open spec fn spec_ply_of_captures(
    board: Board,
    captures: Option<(char, char, char, char)>,
) -> Option<Ply> {
    match captures {
        None => None,
        Some((file_from, rank_from, file_to, rank_to)) => {
            match (
                spec_zero_location(file_from, rank_from),
                spec_zero_location(file_to, rank_to),
            ) {
                (Some(from), Some(to)) => Some(
                    Ply::Basic(Move { from, to }, spec_infer_capture(board, to)),
                ),
                _ => None,
            }
        },
    }
}

/// Relies on `regex::Regex::new` and `regex::Regex::captures`, applied
/// to the fixed pattern `^(\d)(\d) *(\d)(\d)`: the pattern always
/// compiles, and a match is anchored at the start. Because `\d` covers
/// every Unicode decimal digit, the exact captures are only named by
/// [`spec_digit_pair_captures`]; but ASCII digits are Unicode decimal
/// digits and spaces are not, so whenever the ASCII reading of the
/// text matches, the captures are exactly its four characters.
#[verifier::external_body]
fn digit_pair_captures(input: &str) -> (r: Option<(char, char, char, char)>)
    ensures
        r == spec_digit_pair_captures(input@),
        spec_ascii_digit_captures(input@) is Some ==> r == spec_ascii_digit_captures(input@),
{
    let re = regex::Regex::new(r"^(\d)(\d) *(\d)(\d)").unwrap();
    match re.captures(input) {
        None => None,
        Some(c) => Some((
            c[1].chars().next().unwrap(),
            c[2].chars().next().unwrap(),
            c[3].chars().next().unwrap(),
            c[4].chars().next().unwrap(),
        )),
    }
}

impl PlyInputNotation for ZeroIntegersNotation {
    open spec fn spec_parse_ply(&self, board: Board, input: Seq<char>) -> Option<Ply> {
        if spec_ascii_digit_captures(input) is Some {
            spec_ply_of_captures(board, spec_ascii_digit_captures(input))
        } else {
            spec_ply_of_captures(board, spec_digit_pair_captures(input))
        }
    }

    fn parse_ply(&self, board: &Board, input: &str) -> (r: Option<Ply>) {
        match digit_pair_captures(input) {
            None => None,
            Some((file_from, rank_from, file_to, rank_to)) => {
                let from = self.parse_location(file_from, rank_from);
                let to = self.parse_location(file_to, rank_to);
                match (from, to) {
                    (Some(from), Some(to)) => {
                        let capture = match *board.tile_at(&to) {
                            Tile::Empty => None,
                            Tile::Taken(_) => Some(to),
                        };
                        Some(Ply::Basic(Move { from, to }, capture))
                    },
                    _ => None,
                }
            },
        }
    }
}

impl ZeroIntegersNotation {
    /// The square named by two zero-based digit characters, or `None`
    /// where either is no ASCII digit or lies off the board.
    pub fn parse_location(&self, file: char, rank: char) -> (r: Option<Location>)
        ensures
            r == spec_zero_location(file, rank),
            r matches Some(l) ==> l.wf(),
    {
        let file_value = crate::notation::digit_value(file);
        let rank_value = crate::notation::digit_value(rank);
        match (file_value, rank_value) {
            (Some(f), Some(r)) => if f < 8 && r < 8 {
                Some(Location { file: f, rank: r })
            } else {
                None
            },
            _ => None,
        }
    }

    /// The one-letter glyph of a piece: uppercase for white, lowercase
    /// for black.
    pub fn unparse_piece(&self, piece: &Piece) -> (c: char)
        ensures
            c == crate::notation::fen::spec_piece_char(*piece),
    {
        match piece.color {
            crate::color::Color::White => match piece.rank {
                crate::piece::Rank::Pawn => 'P',
                crate::piece::Rank::Rook => 'R',
                crate::piece::Rank::Knight => 'N',
                crate::piece::Rank::Bishop => 'B',
                crate::piece::Rank::Queen => 'Q',
                crate::piece::Rank::King => 'K',
            },
            crate::color::Color::Black => match piece.rank {
                crate::piece::Rank::Pawn => 'p',
                crate::piece::Rank::Rook => 'r',
                crate::piece::Rank::Knight => 'n',
                crate::piece::Rank::Bishop => 'b',
                crate::piece::Rank::Queen => 'q',
                crate::piece::Rank::King => 'k',
            },
        }
    }
}

impl BoardOutputNotationHelper for ZeroIntegersNotation {
    open spec fn spec_unparse_tile(&self, tile: Tile) -> Seq<char> {
        match tile {
            Tile::Empty => seq![' '],
            Tile::Taken(piece) => seq![crate::notation::fen::spec_piece_char(piece)],
        }
    }

    open spec fn spec_unparse_location(&self, location: Location) -> Seq<char> {
        self.spec_file_label(location.file) + self.spec_rank_label(location.rank)
    }

    open spec fn spec_file_label(&self, file: u8) -> Seq<char> {
        seq![spec_digit_char(file as int)]
    }

    open spec fn spec_rank_label(&self, rank: u8) -> Seq<char> {
        seq![spec_digit_char(rank as int)]
    }

    fn unparse_tile(&self, tile: &Tile) -> (r: String) {
        let mut out = String::new();
        match *tile {
            Tile::Empty => push_char(&mut out, ' '),
            Tile::Taken(piece) => push_char(&mut out, self.unparse_piece(&piece)),
        }
        out
    }

    fn unparse_location(&self, location: &Location) -> (r: String) {
        let mut out = self.file_label(location.file);
        let rank_text = self.rank_label(location.rank);
        out.append(rank_text.as_str());
        out
    }

    fn file_label(&self, file: u8) -> (r: String) {
        let mut out = String::new();
        push_char(&mut out, crate::notation::digit_char(file));
        out
    }

    fn rank_label(&self, rank: u8) -> (r: String) {
        let mut out = String::new();
        push_char(&mut out, crate::notation::digit_char(rank));
        out
    }
}

} // verus!
