use crate::board::{is_start, Board, Tile};
use crate::notation::{BoardOutputNotation, PlyInputNotation};
use crate::ply::{Location, Move, Ply};
use vstd::prelude::*;

verus! {

/// Why [`Game::play`] refused a ply.
#[derive(Copy, Clone, PartialEq, Eq, Structural, Debug)]
pub enum PlayError {
    /// The ply's kind is not wired into move application yet: only
    /// `Basic` plies are executed.
    UnsupportedPlyKind,
}

/// A game: the current board and the chronological, append-only log of
/// the plies applied to it.
pub struct Game {
    pub board: Board,
    pub log: Vec<Ply>,
}

/// The tile a square holds after a basic ply is applied: the declared
/// capture square (if any) is cleared, then the piece on `from` is
/// copied to `to`, then `from` is cleared, in that order.
pub open spec fn spec_tile_after_basic(
    board: Board,
    mv: Move,
    capture: Option<Location>,
    l: Location,
) -> Tile {
    if l == mv.from {
        Tile::Empty
    } else if l == mv.to {
        if capture == Some(mv.from) {
            Tile::Empty
        } else {
            board.tile(mv.from)
        }
    } else if capture == Some(l) {
        Tile::Empty
    } else {
        board.tile(l)
    }
}

impl Game {
    /// The board keeps its shape.
    pub open spec fn wf(self) -> bool {
        self.board.wf()
    }

    /// A fresh game: the standard starting position and an empty log.
    pub fn new() -> (r: Game)
        ensures
            r.wf(),
            is_start(r.board),
            r.log@ == Seq::<Ply>::empty(),
    {
        Game { board: Board::new(), log: Vec::new() }
    }

    /// Reads one ply from text with the given input notation, handing
    /// it the current board so it can infer captures. `None` means the
    /// text did not match that notation's grammar, not that the move
    /// is illegal.
    pub fn parse_ply<N: PlyInputNotation>(&self, notation: &N, input: &str) -> (r: Option<Ply>)
        requires
            self.wf(),
        ensures
            r == notation.spec_parse_ply(self.board, input@),
            r matches Some(p) ==> p.wf(),
    {
        notation.parse_ply(&self.board, input)
    }

    /// Renders the current board with the given output notation.
    /// Pure: the board is not changed, and the text is a function of
    /// the board alone.
    pub fn unparse_board<N: BoardOutputNotation>(&self, notation: &N) -> (r: String)
        requires
            self.wf(),
        ensures
            r@ == notation.spec_unparse_board(self.board),
    {
        notation.unparse_board(&self.board)
    }

    /// Applies a basic ply's effect to the grid alone.
    fn play_basic(&mut self, mv: Move, capture: Option<Location>)
        requires
            old(self).wf(),
            mv.wf(),
            capture matches Some(l) ==> l.wf(),
        ensures
            final(self).wf(),
            forall|l: Location|
                l.wf() ==> #[trigger] final(self).board.tile(l) == spec_tile_after_basic(
                    old(self).board,
                    mv,
                    capture,
                    l,
                ),
            final(self).board.color == old(self).board.color,
            final(self).board.castling == old(self).board.castling,
            final(self).board.enpassant == old(self).board.enpassant,
            final(self).board.halfmove_clock == old(self).board.halfmove_clock,
            final(self).board.fullmove_number == old(self).board.fullmove_number,
            final(self).log == old(self).log,
    {
        match capture {
            Some(location) => {
                self.board.grid[location.rank as usize][location.file as usize] = Tile::Empty;
            },
            None => (),
        }
        let moved = self.board.grid[mv.from.rank as usize][mv.from.file as usize];
        self.board.grid[mv.to.rank as usize][mv.to.file as usize] = moved;
        self.board.grid[mv.from.rank as usize][mv.from.file as usize] = Tile::Empty;
    }

    /// Applies a ply: executes a `Basic` ply's effect on the grid,
    /// appends the ply to the log and flips the side to move. The
    /// other three kinds are not wired into move application yet and
    /// are refused with a typed error, leaving the game unchanged.
    ///
    /// The structural pre-check ([`Ply::validate`]) is deliberately
    /// not consulted here; whether to require it first is the
    /// caller's policy.
    pub fn play(&mut self, ply: &Ply) -> (r: Result<(), PlayError>)
        requires
            old(self).wf(),
            ply.wf(),
        ensures
            final(self).wf(),
            match *ply {
                Ply::Basic(mv, capture) => {
                    &&& r is Ok
                    &&& forall|l: Location|
                        l.wf() ==> #[trigger] final(self).board.tile(l) == spec_tile_after_basic(
                            old(self).board,
                            mv,
                            capture,
                            l,
                        )
                    &&& final(self).board.color == old(self).board.color.other()
                    &&& final(self).board.castling == old(self).board.castling
                    &&& final(self).board.enpassant == old(self).board.enpassant
                    &&& final(self).board.halfmove_clock == old(self).board.halfmove_clock
                    &&& final(self).board.fullmove_number == old(self).board.fullmove_number
                    &&& final(self).log@ == old(self).log@.push(*ply)
                },
                _ => {
                    &&& r == Result::<(), PlayError>::Err(PlayError::UnsupportedPlyKind)
                    &&& *final(self) == *old(self)
                },
            },
    {
        match *ply {
            Ply::Basic(mv, capture) => {
                self.log.push(*ply);
                self.board.color = self.board.color.other();
                self.play_basic(mv, capture);
                Ok(())
            },
            _ => Err(PlayError::UnsupportedPlyKind),
        }
    }
}

/// After a basic ply with no declared capture, exactly the two squares
/// of the move change: `from` becomes empty, `to` takes the tile that
/// stood on `from`, and every other square keeps its tile.
pub proof fn lemma_basic_ply_changes_two_tiles(board: Board, mv: Move, l: Location)
    requires
        mv.from != mv.to,
    ensures
        spec_tile_after_basic(board, mv, None, mv.from) == Tile::Empty,
        spec_tile_after_basic(board, mv, None, mv.to) == board.tile(mv.from),
        l != mv.from && l != mv.to ==> spec_tile_after_basic(board, mv, None, l) == board.tile(l),
{
}

} // verus!
