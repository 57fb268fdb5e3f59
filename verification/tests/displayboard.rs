use chess::board::{Board, Tile};
use chess::color::Color;
use chess::notation::{
    BoardOutputNotation, BoardOutputNotationHelper, DisplayBoardNotation, ZeroIntegersNotation,
};
use chess::piece::Rank;
use chess::ply::Location;

pub struct TestHelper;

impl BoardOutputNotationHelper for TestHelper {
    fn unparse_tile(&self, tile: &Tile) -> String {
        match *tile {
            Tile::Empty => " ".to_string(),
            Tile::Taken(piece) => {
                let chr = match piece.rank {
                    Rank::Pawn => 'p',
                    Rank::Rook => 'r',
                    Rank::Knight => 'n',
                    Rank::Bishop => 'b',
                    Rank::Queen => 'q',
                    Rank::King => 'k',
                };

                match piece.color {
                    Color::White => chr.to_uppercase().next().unwrap(),
                    Color::Black => chr,
                }
                .to_string()
            }
        }
    }

    fn unparse_location(&self, _location: &Location) -> String {
        "-".to_string()
    }

    fn file_label(&self, file: u8) -> String {
        file.to_string()
    }

    fn rank_label(&self, rank: u8) -> String {
        rank.to_string()
    }
}

const EXPECTED_START_GRID: &str = "    0   1   2   3   4   5   6   7\n  \
                          +---+---+---+---+---+---+---+---+\n\
                        7 | r | n | b | q | k | b | n | r |\n  \
                          +---+---+---+---+---+---+---+---+\n\
                        6 | p | p | p | p | p | p | p | p |\n  \
                          +---+---+---+---+---+---+---+---+\n\
                        5 |   |   |   |   |   |   |   |   |\n  \
                          +---+---+---+---+---+---+---+---+\n\
                        4 |   |   |   |   |   |   |   |   |\n  \
                          +---+---+---+---+---+---+---+---+\n\
                        3 |   |   |   |   |   |   |   |   |\n  \
                          +---+---+---+---+---+---+---+---+\n\
                        2 |   |   |   |   |   |   |   |   |\n  \
                          +---+---+---+---+---+---+---+---+\n\
                        1 | P | P | P | P | P | P | P | P |\n  \
                          +---+---+---+---+---+---+---+---+\n\
                        0 | R | N | B | Q | K | B | N | R |\n  \
                          +---+---+---+---+---+---+---+---+\n            \
                                    w KQkq - 0 1\n";

#[test]
fn unparse_board_new() {
    let notation = DisplayBoardNotation::new(TestHelper);
    let board = Board::new();
    assert_eq!(notation.unparse_board(&board), EXPECTED_START_GRID);
}

#[test]
fn unparse_board_zero_int_helper() {
    let notation = DisplayBoardNotation::new(ZeroIntegersNotation);
    let board = Board::new();
    assert_eq!(notation.unparse_board(&board), EXPECTED_START_GRID);
}

#[test]
fn grid_unparse_twice_is_identical() {
    let notation = DisplayBoardNotation::new(ZeroIntegersNotation);
    let board = Board::new();
    let first = notation.unparse_board(&board);
    let second = notation.unparse_board(&board);
    assert_eq!(first, second);
}
