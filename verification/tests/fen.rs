use chess::board::{Board, Castling};
use chess::game::Game;
use chess::notation::{BoardOutputNotation, ForsythEdwardsNotation};
use chess::ply::{Location, Move, Ply};

#[test]
fn unparse_board_initial() {
    let board = Board::new();
    let notation = ForsythEdwardsNotation;
    let fen = notation.unparse_board(&board);
    assert_eq!(&fen, "rnbqkbnr/pppppppp/8/8/8/8/PPPPPPPP/RNBQKBNR w KQkq - 0 1")
}

#[test]
fn unparse_board_after_basic_ply() {
    let mut game = Game::new();
    let ply = Ply::Basic(
        Move {
            from: Location { file: 0, rank: 1 },
            to: Location { file: 0, rank: 2 },
        },
        None,
    );
    assert!(game.play(&ply) == Ok(()));
    let fen = game.unparse_board(&ForsythEdwardsNotation);
    assert_eq!(&fen, "rnbqkbnr/pppppppp/8/8/8/P7/1PPPPPPP/RNBQKBNR b KQkq - 0 1");
}

#[test]
fn fen_unparse_twice_is_identical() {
    let game = Game::new();
    let first = game.unparse_board(&ForsythEdwardsNotation);
    let second = game.unparse_board(&ForsythEdwardsNotation);
    assert_eq!(first, second);
}

#[test]
fn unparse_castling_no_rights() {
    let notation = ForsythEdwardsNotation;
    let none = Castling {
        white_king: false,
        white_queen: false,
        black_king: false,
        black_queen: false,
    };
    assert_eq!(&notation.unparse_castling(&none), "-");
    let some = Castling {
        white_king: false,
        white_queen: true,
        black_king: true,
        black_queen: false,
    };
    assert_eq!(&notation.unparse_castling(&some), "Qk");
}

#[test]
fn unparse_enpassant_square() {
    let notation = ForsythEdwardsNotation;
    assert_eq!(&notation.unparse_enpassant(&None), "-");
    let target = Some(Location { file: 4, rank: 2 });
    assert_eq!(&notation.unparse_enpassant(&target), "E3");
}

#[test]
fn unparse_board_multidigit_counters() {
    let mut board = Board::new();
    board.halfmove_clock = 13;
    board.fullmove_number = 42;
    let fen = ForsythEdwardsNotation.unparse_board(&board);
    assert_eq!(&fen, "rnbqkbnr/pppppppp/8/8/8/8/PPPPPPPP/RNBQKBNR w KQkq - 13 42");
}
