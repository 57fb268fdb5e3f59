use chess::board::Board;
use chess::color::Color;
use chess::piece::{Piece, Rank};
use chess::ply::{validate_move, Location, Move, Ply};

#[test]
fn location_eq() {
    let loc = Location { rank: 4, file: 2 };
    assert!(loc == Location { rank: 4, file: 2 });
}

#[test]
fn location_members() {
    let loc = Location { rank: 4, file: 2 };
    assert!(loc.rank == 4);
    assert!(loc.file == 2);
}

#[test]
fn move_eq() {
    let mov = Move {
        from: Location { rank: 4, file: 2 },
        to: Location { rank: 5, file: 3 },
    };
    let mov2 = Move {
        from: Location { rank: 4, file: 2 },
        to: Location { rank: 5, file: 3 },
    };
    assert!(mov == mov2);
}

#[test]
fn move_members() {
    let mov = Move {
        from: Location { rank: 4, file: 2 },
        to: Location { rank: 5, file: 3 },
    };
    assert!(mov.from == Location { rank: 4, file: 2 });
    assert!(mov.to == Location { rank: 5, file: 3 });
}

#[test]
fn ply_basic() {
    let mov = Move {
        from: Location { rank: 4, file: 2 },
        to: Location { rank: 5, file: 3 },
    };
    let basic_ply = Ply::Basic(mov, None);

    match basic_ply {
        Ply::Basic(unply, _) => {
            assert!(unply.from == Location { rank: 4, file: 2 });
            assert!(unply.to == Location { rank: 5, file: 3 });
        }
        _ => panic!("Not a basic ply."),
    }
}

#[test]
fn ply_enpassant() {
    let mov = Move {
        from: Location { rank: 4, file: 2 },
        to: Location { rank: 5, file: 3 },
    };
    let enpassant_ply = Ply::EnPassant(mov, Location { rank: 6, file: 2 });

    match enpassant_ply {
        Ply::EnPassant(unply, loc) => {
            assert!(unply.from == Location { rank: 4, file: 2 });
            assert!(unply.to == Location { rank: 5, file: 3 });
            assert!(loc == Location { rank: 6, file: 2 });
        }
        _ => panic!("Not an enpassant ply."),
    }
}

#[test]
fn ply_promotion() {
    let mov = Move {
        from: Location { rank: 4, file: 2 },
        to: Location { rank: 5, file: 3 },
    };
    let promotion_ply = Ply::Promotion(mov, None, Piece { rank: Rank::Knight, color: Color::White });

    match promotion_ply {
        Ply::Promotion(unply, _, piece) => {
            assert!(unply.from == Location { rank: 4, file: 2 });
            assert!(unply.to == Location { rank: 5, file: 3 });
            assert!(piece == Piece { rank: Rank::Knight, color: Color::White });
            assert!(piece.rank == Rank::Knight);
            assert!(piece.color == Color::White);
        }
        _ => panic!("Not a promotion ply."),
    }
}

#[test]
fn ply_castling() {
    let mov = Move {
        from: Location { rank: 4, file: 2 },
        to: Location { rank: 5, file: 3 },
    };
    let mov2 = Move {
        from: Location { rank: 2, file: 3 },
        to: Location { rank: 4, file: 5 },
    };
    let castling_ply = Ply::Castling(mov, mov2);

    match castling_ply {
        Ply::Castling(unply, unply2) => {
            assert!(unply.from == Location { rank: 4, file: 2 });
            assert!(unply.to == Location { rank: 5, file: 3 });
            assert!(unply2.from == Location { rank: 2, file: 3 });
            assert!(unply2.to == Location { rank: 4, file: 5 });
        }
        _ => panic!("Not a castling ply."),
    }
}

#[test]
fn validate_move_from_empty_square() {
    let board = Board::new();
    let mov = Move {
        from: Location { rank: 3, file: 3 },
        to: Location { rank: 4, file: 3 },
    };
    assert!(!validate_move(&board, &mov, &None));
}

#[test]
fn validate_move_onto_own_piece() {
    let board = Board::new();
    let mov = Move {
        from: Location { rank: 1, file: 0 },
        to: Location { rank: 0, file: 0 },
    };
    assert!(!validate_move(&board, &mov, &Some(Location { rank: 0, file: 0 })));
}

#[test]
fn validate_move_opponents_turn() {
    let board = Board::new();
    let mov = Move {
        from: Location { rank: 6, file: 0 },
        to: Location { rank: 5, file: 0 },
    };
    assert!(!validate_move(&board, &mov, &None));
}

#[test]
fn validate_move_to_empty_square() {
    let board = Board::new();
    let mov = Move {
        from: Location { rank: 1, file: 0 },
        to: Location { rank: 2, file: 0 },
    };
    assert!(validate_move(&board, &mov, &None));
    assert!(!validate_move(&board, &mov, &Some(Location { rank: 2, file: 0 })));
}

#[test]
fn validate_move_capture() {
    let board = Board::new();
    let mov = Move {
        from: Location { rank: 1, file: 0 },
        to: Location { rank: 6, file: 0 },
    };
    assert!(validate_move(&board, &mov, &Some(Location { rank: 6, file: 0 })));
    assert!(!validate_move(&board, &mov, &None));
    assert!(!validate_move(&board, &mov, &Some(Location { rank: 5, file: 0 })));
}

#[test]
fn validate_per_ply_kind() {
    let board = Board::new();
    let onto_empty = Move {
        from: Location { rank: 1, file: 0 },
        to: Location { rank: 2, file: 0 },
    };
    let onto_enemy = Move {
        from: Location { rank: 1, file: 0 },
        to: Location { rank: 6, file: 0 },
    };
    assert!(Ply::Basic(onto_empty, None).validate(&board));
    assert!(Ply::EnPassant(onto_enemy, Location { rank: 6, file: 0 }).validate(&board));
    assert!(!Ply::EnPassant(onto_empty, Location { rank: 2, file: 0 }).validate(&board));
    let piece = Piece { rank: Rank::Queen, color: Color::White };
    assert!(Ply::Promotion(onto_empty, None, piece).validate(&board));
    let second = Move {
        from: Location { rank: 0, file: 4 },
        to: Location { rank: 3, file: 4 },
    };
    assert!(Ply::Castling(onto_empty, second).validate(&board));
    assert!(!Ply::Castling(onto_empty, onto_enemy).validate(&board));
}
