//! The coordinate ("standard algebraic") input notation, together
//! with the render helper that labels squares the same way.

use crate::board::{Board, Tile};
use crate::notation::{
    push_char, spec_digit_value, spec_infer_capture, spec_space_run, BoardOutputNotationHelper,
    PlyInputNotation,
};
use crate::piece::Piece;
use crate::ply::{Location, Move, Ply};
use vstd::prelude::*;

verus! {

/// Reads a ply written as two coordinate squares, both full-form, such
/// as `a1 a2`; captures are inferred from the board. Also renders
/// square labels in the same style: files `a` through `h`, ranks `1`
/// through `8`.
pub struct StandardAlgebraicNotation;

/// Whether a character is a file letter of the coordinate grammar.
pub open spec fn spec_is_file_char(c: char) -> bool {
    ||| c == 'a'
    ||| c == 'b'
    ||| c == 'c'
    ||| c == 'd'
    ||| c == 'e'
    ||| c == 'f'
    ||| c == 'g'
    ||| c == 'h'
}

/// Whether a character is a rank digit of the coordinate grammar.
pub open spec fn spec_is_rank_char(c: char) -> bool {
    ||| c == '1'
    ||| c == '2'
    ||| c == '3'
    ||| c == '4'
    ||| c == '5'
    ||| c == '6'
    ||| c == '7'
    ||| c == '8'
}

/// The four characters the coordinate grammar
/// `^([a-h])([1-8]) *([a-h])([1-8])` captures from the text, or `None`
/// where the text does not match it. The text matches when it starts
/// with a file letter and a rank digit, then any number of spaces,
/// then a second file letter and rank digit; whatever follows is
/// ignored. Every class of the pattern is ASCII, and no file letter is
/// a space, so the match and its captures are uniquely determined.
pub open spec fn spec_coordinate_captures(s: Seq<char>) -> Option<(char, char, char, char)> {
    if s.len() >= 2 && spec_is_file_char(s[0]) && spec_is_rank_char(s[1]) {
        let run = spec_space_run(s, 2);
        if s.len() >= 4 + run && spec_is_file_char(s[2 + run]) && spec_is_rank_char(s[3 + run]) {
            Some((s[0], s[1], s[2 + run], s[3 + run]))
        } else {
            None
        }
    } else {
        None
    }
}

/// The value of a file letter of the coordinate grammar.
pub open spec fn spec_file_value(c: char) -> Option<u8> {
    if c == 'a' {
        Some(0u8)
    } else if c == 'b' {
        Some(1u8)
    } else if c == 'c' {
        Some(2u8)
    } else if c == 'd' {
        Some(3u8)
    } else if c == 'e' {
        Some(4u8)
    } else if c == 'f' {
        Some(5u8)
    } else if c == 'g' {
        Some(6u8)
    } else if c == 'h' {
        Some(7u8)
    } else {
        None
    }
}

/// The square named by a file letter and a one-based rank digit.
pub open spec fn spec_coordinate_location(file: char, rank: char) -> Option<Location> {
    match (spec_file_value(file), spec_digit_value(rank)) {
        (Some(f), Some(d)) => if 0 < d && d < 9 {
            Some(Location { file: f, rank: (d - 1) as u8 })
        } else {
            None
        },
        _ => None,
    }
}

/// The ply the coordinate grammar reads from the text against the
/// given board.
pub open spec fn spec_coordinate_ply(board: Board, input: Seq<char>) -> Option<Ply> {
    match spec_coordinate_captures(input) {
        None => None,
        Some((file_from, rank_from, file_to, rank_to)) => {
            match (
                spec_coordinate_location(file_from, rank_from),
                spec_coordinate_location(file_to, rank_to),
            ) {
                (Some(from), Some(to)) => Some(
                    Ply::Basic(Move { from, to }, spec_infer_capture(board, to)),
                ),
                _ => None,
            }
        },
    }
}

/// Relies on `regex::Regex::new` and `regex::Regex::captures`, applied
/// to the fixed pattern `^([a-h])([1-8]) *([a-h])([1-8])`: the pattern
/// always compiles, and since all of its classes are ASCII and a match
/// is anchored at the start, the four captured one-character groups
/// are exactly what [`spec_coordinate_captures`] names, with `None`
/// for a text that does not match.
#[verifier::external_body]
fn coordinate_captures(input: &str) -> (r: Option<(char, char, char, char)>)
    ensures
        r == spec_coordinate_captures(input@),
{
    let re = regex::Regex::new(r"^([a-h])([1-8]) *([a-h])([1-8])").unwrap();
    match re.captures(input) {
        None => None,
        Some(c) => Some((
            c[1].chars().next().unwrap(),
            c[2].chars().next().unwrap(),
            c[3].chars().next().unwrap(),
            c[4].chars().next().unwrap(),
        )),
    }
}

impl PlyInputNotation for StandardAlgebraicNotation {
    open spec fn spec_parse_ply(&self, board: Board, input: Seq<char>) -> Option<Ply> {
        spec_coordinate_ply(board, input)
    }

    fn parse_ply(&self, board: &Board, input: &str) -> (r: Option<Ply>) {
        match coordinate_captures(input) {
            None => None,
            Some((file_from, rank_from, file_to, rank_to)) => {
                let from = self.parse_location(file_from, rank_from);
                let to = self.parse_location(file_to, rank_to);
                match (from, to) {
                    (Some(from), Some(to)) => {
                        let capture = match *board.tile_at(&to) {
                            Tile::Empty => None,
                            Tile::Taken(_) => Some(to),
                        };
                        Some(Ply::Basic(Move { from, to }, capture))
                    },
                    _ => None,
                }
            },
        }
    }
}

impl StandardAlgebraicNotation {
    /// The square named by a file letter and a one-based rank digit,
    /// or `None` where either character falls outside the grammar.
    pub fn parse_location(&self, file: char, rank: char) -> (r: Option<Location>)
        ensures
            r == spec_coordinate_location(file, rank),
            r matches Some(l) ==> l.wf(),
    {
        let file_value = match file {
            'a' => Some(0u8),
            'b' => Some(1u8),
            'c' => Some(2u8),
            'd' => Some(3u8),
            'e' => Some(4u8),
            'f' => Some(5u8),
            'g' => Some(6u8),
            'h' => Some(7u8),
            _ => None,
        };
        let rank_value = crate::notation::digit_value(rank);
        match (file_value, rank_value) {
            (Some(f), Some(d)) => if 0 < d && d < 9 {
                Some(Location { file: f, rank: d - 1 })
            } else {
                None
            },
            _ => None,
        }
    }

    /// The one-letter glyph of a piece: uppercase for white, lowercase
    /// for black.
    pub fn unparse_piece(&self, piece: &Piece) -> (c: char)
        ensures
            c == crate::notation::fen::spec_piece_char(*piece),
    {
        match piece.color {
            crate::color::Color::White => match piece.rank {
                crate::piece::Rank::Pawn => 'P',
                crate::piece::Rank::Rook => 'R',
                crate::piece::Rank::Knight => 'N',
                crate::piece::Rank::Bishop => 'B',
                crate::piece::Rank::Queen => 'Q',
                crate::piece::Rank::King => 'K',
            },
            crate::color::Color::Black => match piece.rank {
                crate::piece::Rank::Pawn => 'p',
                crate::piece::Rank::Rook => 'r',
                crate::piece::Rank::Knight => 'n',
                crate::piece::Rank::Bishop => 'b',
                crate::piece::Rank::Queen => 'q',
                crate::piece::Rank::King => 'k',
            },
        }
    }
}

impl BoardOutputNotationHelper for StandardAlgebraicNotation {
    open spec fn spec_unparse_tile(&self, tile: Tile) -> Seq<char> {
        match tile {
            Tile::Empty => seq![' '],
            Tile::Taken(piece) => seq![crate::notation::fen::spec_piece_char(piece)],
        }
    }

    open spec fn spec_unparse_location(&self, location: Location) -> Seq<char> {
        self.spec_file_label(location.file) + self.spec_rank_label(location.rank)
    }

    open spec fn spec_file_label(&self, file: u8) -> Seq<char> {
        seq![spec_file_letter_lower(file as int)]
    }

    open spec fn spec_rank_label(&self, rank: u8) -> Seq<char> {
        seq![crate::notation::spec_digit_char(rank as int + 1)]
    }

    fn unparse_tile(&self, tile: &Tile) -> (r: String) {
        let mut out = String::new();
        match *tile {
            Tile::Empty => push_char(&mut out, ' '),
            Tile::Taken(piece) => push_char(&mut out, self.unparse_piece(&piece)),
        }
        out
    }

    fn unparse_location(&self, location: &Location) -> (r: String) {
        let mut out = self.file_label(location.file);
        let rank_text = self.rank_label(location.rank);
        out.append(rank_text.as_str());
        out
    }

    fn file_label(&self, file: u8) -> (r: String) {
        let letter = match file {
            0 => 'a',
            1 => 'b',
            2 => 'c',
            3 => 'd',
            4 => 'e',
            5 => 'f',
            6 => 'g',
            _ => 'h',
        };
        let mut out = String::new();
        push_char(&mut out, letter);
        out
    }

    fn rank_label(&self, rank: u8) -> (r: String) {
        let mut out = String::new();
        push_char(&mut out, crate::notation::digit_char(rank + 1));
        out
    }
}

/// The lowercase letter of a file, `a` through `h`.
pub open spec fn spec_file_letter_lower(file: int) -> char {
    if file == 0 {
        'a'
    } else if file == 1 {
        'b'
    } else if file == 2 {
        'c'
    } else if file == 3 {
        'd'
    } else if file == 4 {
        'e'
    } else if file == 5 {
        'f'
    } else if file == 6 {
        'g'
    } else {
        'h'
    }
}

} // verus!
