use crate::board::{Board, Tile};
use crate::piece::Piece;
use vstd::prelude::*;

verus! {

/// A square of the board: file and rank, both zero-indexed.
///
/// A location is well formed when both coordinates are below 8; see
/// [`Location::wf`]. Functions that index the grid require it.
#[derive(Copy, Clone, PartialEq, Eq, Structural, Debug)]
pub struct Location {
    pub rank: u8,
    pub file: u8,
}

impl Location {
    /// Both coordinates lie on the board.
    pub open spec fn wf(self) -> bool {
        self.file < 8 && self.rank < 8
    }
}

/// A displacement of one piece, from one square to another.
#[derive(Copy, Clone, PartialEq, Eq, Structural, Debug)]
pub struct Move {
    pub from: Location,
    pub to: Location,
}

impl Move {
    /// Both endpoints lie on the board.
    pub open spec fn wf(self) -> bool {
        self.from.wf() && self.to.wf()
    }
}

/// One half-move, tagged by kind. The optional location of `Basic` and
/// `Promotion` is the square of a captured piece, if any; `EnPassant`
/// carries the square of the captured pawn; `Castling` carries the king's
/// and the rook's moves.
#[derive(Copy, Clone, PartialEq, Eq, Structural, Debug)]
pub enum Ply {
    Basic(Move, Option<Location>),
    EnPassant(Move, Location),
    Promotion(Move, Option<Location>, Piece),
    Castling(Move, Move),
}

impl Ply {
    /// Every square the ply names lies on the board.
    pub open spec fn wf(self) -> bool {
        match self {
            Ply::Basic(mv, capture) => mv.wf() && (capture matches Some(l) ==> l.wf()),
            Ply::EnPassant(mv, capture) => mv.wf() && capture.wf(),
            Ply::Promotion(mv, capture, _) => mv.wf() && (capture matches Some(l) ==> l.wf()),
            Ply::Castling(first, second) => first.wf() && second.wf(),
        }
    }

    /// The shared structural pre-check, wired per kind: `Basic` and
    /// `Promotion` check their one move and optional capture,
    /// `EnPassant` checks its move with its capture declared, and
    /// `Castling` checks both of its moves with no capture permitted.
    pub open spec fn spec_validate(self, board: Board) -> bool {
        match self {
            Ply::Basic(mv, capture) => spec_validate_move(board, mv, capture),
            Ply::EnPassant(mv, capture) => spec_validate_move(board, mv, Some(capture)),
            Ply::Promotion(mv, capture, _) => spec_validate_move(board, mv, capture),
            Ply::Castling(first, second) => spec_validate_move(board, first, None)
                && spec_validate_move(board, second, None),
        }
    }

    /// Whether the ply passes the structural pre-check on the given
    /// board. Read-only: neither the board nor the ply is changed.
    pub fn validate(&self, board: &Board) -> (r: bool)
        requires
            board.wf(),
            self.wf(),
        ensures
            r == self.spec_validate(*board),
    {
        match *self {
            Ply::Basic(mv, capture) => validate_move(board, &mv, &capture),
            Ply::EnPassant(mv, capture) => validate_move(board, &mv, &Some(capture)),
            Ply::Promotion(mv, capture, _) => validate_move(board, &mv, &capture),
            Ply::Castling(first, second) => {
                let first_ok = validate_move(board, &first, &None);
                let second_ok = validate_move(board, &second, &None);
                first_ok && second_ok
            },
        }
    }
}

/// The structural legality of one move with an optionally declared
/// capture: the square moved from must hold a piece of the side to
/// move, and the destination must either be empty with no capture
/// declared, or hold a piece of the opposing side with the capture
/// declared on the destination itself. Piece movement rules, checks
/// and the rest of full chess legality are out of its scope.
pub open spec fn spec_validate_move(board: Board, mv: Move, capture: Option<Location>) -> bool {
    match board.tile(mv.from) {
        Tile::Empty => false,
        Tile::Taken(piece) => piece.color == board.color && match board.tile(mv.to) {
            Tile::Empty => capture is None,
            Tile::Taken(target) => target.color == board.color.other() && capture == Some(mv.to),
        },
    }
}

/// The structural pre-check shared by every ply kind.
pub fn validate_move(board: &Board, mv: &Move, capture: &Option<Location>) -> (r: bool)
    requires
        board.wf(),
        mv.wf(),
    ensures
        r == spec_validate_move(*board, *mv, *capture),
{
    match *board.tile_at(&mv.from) {
        Tile::Empty => false,
        Tile::Taken(piece) => {
            let own = piece.color == board.color;
            let target_ok = match *board.tile_at(&mv.to) {
                Tile::Empty => capture.is_none(),
                Tile::Taken(target) => {
                    let declared = match *capture {
                        Some(c) => c == mv.to,
                        None => false,
                    };
                    target.color == board.color.other() && declared
                },
            };
            own && target_ok
        },
    }
}

/// The structural pre-check rejects a move from an empty square and a
/// capture of the mover's own piece, and accepts a move of the side to
/// move onto an empty square with no capture declared or onto an
/// opposing piece with the capture declared on the destination.
pub proof fn lemma_validate_move_cases(board: Board, mv: Move, capture: Option<Location>)
    ensures
        board.tile(mv.from) is Empty ==> !spec_validate_move(board, mv, capture),
        (board.tile(mv.to) matches Tile::Taken(target) && target.color == board.color)
            ==> !spec_validate_move(board, mv, capture),
        (board.tile(mv.from) matches Tile::Taken(piece) && piece.color == board.color && match board
            .tile(mv.to) {
            Tile::Empty => capture is None,
            Tile::Taken(target) => target.color == board.color.other() && capture == Some(mv.to),
        }) ==> spec_validate_move(board, mv, capture),
{
}

} // verus!
