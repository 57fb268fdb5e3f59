//! The notation framework: reading a ply from text and rendering a
//! board to text are two independent capabilities, each with several
//! interchangeable implementations. A third, smaller capability renders
//! single tiles, squares and coordinate labels; it is composed into the
//! renderers that need glyph-by-glyph output.

use crate::board::{Board, Castling, Tile};
use crate::color::Color;
use crate::ply::{Location, Ply};
use vstd::prelude::*;

pub mod displayboard;
pub mod fen;
pub mod san;
pub mod zero_int;

pub use displayboard::DisplayBoardNotation;
pub use fen::ForsythEdwardsNotation;
pub use san::StandardAlgebraicNotation;
pub use zero_int::ZeroIntegersNotation;

verus! {

/// Reads one ply from text, using the board only to infer whether the
/// destination square is a capture.
pub trait PlyInputNotation {
    /// What this notation's grammar makes of the input, as a function
    /// of the board and the text alone. Left unspecified until an
    /// implementation overrides it with its grammar.
    open spec fn spec_parse_ply(&self, board: Board, input: Seq<char>) -> Option<Ply> {
        arbitrary()
    }

    /// Parses one ply. `None` means the text did not match this
    /// notation's grammar (or named a square off the board), not that
    /// the move is illegal.
    fn parse_ply(&self, board: &Board, input: &str) -> (r: Option<Ply>)
        requires
            board.wf(),
        ensures
            r == self.spec_parse_ply(*board, input@),
            r matches Some(p) ==> p.wf(),
    ;
}

/// Renders a whole board to text.
pub trait BoardOutputNotation {
    /// The rendered text, as a function of the board alone. Left
    /// unspecified until an implementation overrides it with its
    /// format.
    open spec fn spec_unparse_board(&self, board: Board) -> Seq<char> {
        arbitrary()
    }

    /// Renders the board. Pure: the result depends on the board alone.
    fn unparse_board(&self, board: &Board) -> (r: String)
        requires
            board.wf(),
        ensures
            r@ == self.spec_unparse_board(*board),
    ;
}

/// Renders single tiles, squares and coordinate labels; shared by the
/// renderers that draw the board glyph by glyph.
pub trait BoardOutputNotationHelper {
    /// The glyph for one tile. Left unspecified until an
    /// implementation overrides it, as each of these four is.
    open spec fn spec_unparse_tile(&self, tile: Tile) -> Seq<char> {
        arbitrary()
    }

    /// The text for one square.
    open spec fn spec_unparse_location(&self, location: Location) -> Seq<char> {
        arbitrary()
    }

    /// The column label of one file.
    open spec fn spec_file_label(&self, file: u8) -> Seq<char> {
        arbitrary()
    }

    /// The row label of one rank.
    open spec fn spec_rank_label(&self, rank: u8) -> Seq<char> {
        arbitrary()
    }

    fn unparse_tile(&self, tile: &Tile) -> (r: String)
        ensures
            r@ == self.spec_unparse_tile(*tile),
    ;

    fn unparse_location(&self, location: &Location) -> (r: String)
        requires
            location.wf(),
        ensures
            r@ == self.spec_unparse_location(*location),
    ;

    fn file_label(&self, file: u8) -> (r: String)
        requires
            file < 8,
        ensures
            r@ == self.spec_file_label(file),
    ;

    fn rank_label(&self, rank: u8) -> (r: String)
        requires
            rank < 8,
        ensures
            r@ == self.spec_rank_label(rank),
    ;
}

/// Rendering a board twice without a move in between yields the same
/// text both times: the rendered text is a function of the board alone.
pub proof fn lemma_unparse_board_deterministic<N: BoardOutputNotation>(
    notation: &N,
    board: Board,
    first: Seq<char>,
    second: Seq<char>,
)
    requires
        first == notation.spec_unparse_board(board),
        second == notation.spec_unparse_board(board),
    ensures
        first == second,
{
}

/// The capture square the input notations infer: the destination
/// itself when it is occupied, none when it is empty. The side of the
/// occupying piece is not consulted; legality is a separate concern.
pub open spec fn spec_infer_capture(board: Board, to: Location) -> Option<Location> {
    match board.tile(to) {
        Tile::Empty => None,
        Tile::Taken(_) => Some(to),
    }
}

/// The one-letter flag of the side to move, as in FEN: `w` or `b`.
pub open spec fn spec_side_char(color: Color) -> char {
    match color {
        Color::White => 'w',
        Color::Black => 'b',
    }
}

/// The castling-rights field, as in FEN: up to four letters `KQkq` in
/// that fixed order, or `-` when no right is left.
pub open spec fn spec_castling_text(castling: Castling) -> Seq<char> {
    let letters = (if castling.white_king {
        seq!['K']
    } else {
        Seq::<char>::empty()
    }) + (if castling.white_queen {
        seq!['Q']
    } else {
        Seq::<char>::empty()
    }) + (if castling.black_king {
        seq!['k']
    } else {
        Seq::<char>::empty()
    }) + (if castling.black_queen {
        seq!['q']
    } else {
        Seq::<char>::empty()
    });
    if letters.len() == 0 {
        seq!['-']
    } else {
        letters
    }
}

/// The length of the unbroken run of spaces beginning at position `i`.
pub open spec fn spec_space_run(s: Seq<char>, i: int) -> int
    decreases s.len() - i,
{
    if i < 0 || i >= s.len() {
        0
    } else if s[i] == ' ' {
        1 + spec_space_run(s, i + 1)
    } else {
        0
    }
}

/// The value of an ASCII digit character, `None` for any other
/// character. This is also exactly which single characters
/// `str::parse::<u8>` accepts.
pub open spec fn spec_digit_value(c: char) -> Option<u8> {
    if c == '0' {
        Some(0u8)
    } else if c == '1' {
        Some(1u8)
    } else if c == '2' {
        Some(2u8)
    } else if c == '3' {
        Some(3u8)
    } else if c == '4' {
        Some(4u8)
    } else if c == '5' {
        Some(5u8)
    } else if c == '6' {
        Some(6u8)
    } else if c == '7' {
        Some(7u8)
    } else if c == '8' {
        Some(8u8)
    } else if c == '9' {
        Some(9u8)
    } else {
        None
    }
}

/// The digit character of one decimal digit.
pub open spec fn spec_digit_char(d: int) -> char {
    if d == 0 {
        '0'
    } else if d == 1 {
        '1'
    } else if d == 2 {
        '2'
    } else if d == 3 {
        '3'
    } else if d == 4 {
        '4'
    } else if d == 5 {
        '5'
    } else if d == 6 {
        '6'
    } else if d == 7 {
        '7'
    } else if d == 8 {
        '8'
    } else {
        '9'
    }
}

/// The decimal rendering of a number, most significant digit first,
/// with no leading zero except for the number zero itself.
pub open spec fn spec_dec(n: nat) -> Seq<char>
    decreases n,
{
    if n < 10 {
        seq![spec_digit_char(n as int)]
    } else {
        spec_dec(n / 10).push(spec_digit_char((n % 10) as int))
    }
}

/// Relies on `String::push` from std: appends exactly the one character.
#[verifier::external_body]
pub(crate) fn push_char(s: &mut String, c: char)
    ensures
        final(s)@ == old(s)@.push(c),
{
    s.push(c)
}

/// The digit character of a decimal digit, as an executable function.
pub(crate) fn digit_char(d: u8) -> (c: char)
    requires
        d < 10,
    ensures
        c == spec_digit_char(d as int),
{
    match d {
        0 => '0',
        1 => '1',
        2 => '2',
        3 => '3',
        4 => '4',
        5 => '5',
        6 => '6',
        7 => '7',
        8 => '8',
        _ => '9',
    }
}

/// The value of an ASCII digit character, as an executable function.
pub(crate) fn digit_value(c: char) -> (r: Option<u8>)
    ensures
        r == spec_digit_value(c),
{
    match c {
        '0' => Some(0),
        '1' => Some(1),
        '2' => Some(2),
        '3' => Some(3),
        '4' => Some(4),
        '5' => Some(5),
        '6' => Some(6),
        '7' => Some(7),
        '8' => Some(8),
        '9' => Some(9),
        _ => None,
    }
}

/// The one-letter flag of the side to move, as an executable function.
pub(crate) fn side_char(color: &crate::color::Color) -> (c: char)
    ensures
        c == spec_side_char(*color),
{
    match *color {
        crate::color::Color::White => 'w',
        crate::color::Color::Black => 'b',
    }
}

/// Appends the decimal rendering of `n`.
pub(crate) fn push_dec_u32(s: &mut String, n: u32)
    ensures
        final(s)@ == old(s)@ + spec_dec(n as nat),
    decreases n,
{
    if n >= 10 {
        push_dec_u32(s, n / 10);
    }
    push_char(s, digit_char((n % 10) as u8));
    proof {
        assert(s@ =~= old(s)@ + spec_dec(n as nat));
    }
}

/// Appends the castling-rights field, as in FEN.
pub(crate) fn push_castling_text(s: &mut String, castling: &Castling)
    ensures
        final(s)@ == old(s)@ + spec_castling_text(*castling),
{
    let mut any = false;
    if castling.white_king {
        push_char(s, 'K');
        any = true;
    }
    if castling.white_queen {
        push_char(s, 'Q');
        any = true;
    }
    if castling.black_king {
        push_char(s, 'k');
        any = true;
    }
    if castling.black_queen {
        push_char(s, 'q');
        any = true;
    }
    if !any {
        push_char(s, '-');
    }
    proof {
        assert(s@ =~= old(s)@ + spec_castling_text(*castling));
    }
}

} // verus!
