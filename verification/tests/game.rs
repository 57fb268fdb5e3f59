use chess::board::{Board, Tile};
use chess::color::Color;
use chess::game::{Game, PlayError};
use chess::notation::PlyInputNotation;
use chess::piece::{Piece, Rank};
use chess::ply::{Location, Move, Ply};

#[test]
fn game_new() {
    let game = Game::new();
    assert!(game.board == Board::new());
    assert!(game.log == Vec::new());
}

struct TestPlyInputNotation;

impl PlyInputNotation for TestPlyInputNotation {
    fn parse_ply(&self, _: &Board, _: &str) -> Option<Ply> {
        Some(Ply::Basic(
            Move {
                from: Location { file: 0, rank: 1 },
                to: Location { file: 0, rank: 2 },
            },
            None,
        ))
    }
}

#[test]
fn game_parse_ply() {
    let notation = &TestPlyInputNotation;
    let expected = Some(Ply::Basic(
        Move {
            from: Location { file: 0, rank: 1 },
            to: Location { file: 0, rank: 2 },
        },
        None,
    ));
    let game = Game::new();
    assert!(game.parse_ply(notation, "random") == expected);
}

#[test]
fn play_basic_without_capture() {
    let mut game = Game::new();
    let ply = Ply::Basic(
        Move {
            from: Location { file: 0, rank: 1 },
            to: Location { file: 0, rank: 2 },
        },
        None,
    );
    assert!(game.play(&ply) == Ok(()));
    let before = Board::new();
    for file in 0u8..8 {
        for rank in 0u8..8 {
            let l = Location { rank, file };
            let now = *game.board.tile_at(&l);
            if file == 0 && rank == 1 {
                assert_eq!(now, Tile::Empty);
            } else if file == 0 && rank == 2 {
                assert_eq!(now, Tile::Taken(Piece { rank: Rank::Pawn, color: Color::White }));
            } else {
                assert_eq!(now, *before.tile_at(&l));
            }
        }
    }
    assert!(game.log == vec![ply]);
    assert!(game.board.color == Color::Black);
}

#[test]
fn play_basic_with_capture() {
    let mut game = Game::new();
    let to = Location { file: 7, rank: 6 };
    let ply = Ply::Basic(
        Move { from: Location { file: 7, rank: 1 }, to },
        Some(to),
    );
    assert!(game.play(&ply) == Ok(()));
    assert!(*game.board.tile_at(&Location { file: 7, rank: 1 }) == Tile::Empty);
    assert!(
        *game.board.tile_at(&to) == Tile::Taken(Piece { rank: Rank::Pawn, color: Color::White })
    );
    assert!(game.log.len() == 1);
    assert!(game.board.color == Color::Black);
}

#[test]
fn play_unsupported_kind() {
    let mut game = Game::new();
    let ply = Ply::EnPassant(
        Move {
            from: Location { file: 0, rank: 1 },
            to: Location { file: 1, rank: 2 },
        },
        Location { file: 1, rank: 2 },
    );
    assert!(game.play(&ply) == Err(PlayError::UnsupportedPlyKind));
    assert!(game.board == Board::new());
    assert!(game.log.is_empty());
    assert!(game.board.color == Color::White);
}
