use offline_chess_puzzles::board::{Piece, Side};
use offline_chess_puzzles::board_view::{
    board_from_white, board_squares, display_order, file_labels, glyph, is_light_square, navigation, piece_image,
    rank_label, Navigation, SquareStyle,
};
use offline_chess_puzzles::puzzle::{GameMode, GameStatus};
use offline_chess_puzzles::styles::PieceTheme;

const START: &str = "rnbqkbnr/pppppppp/8/8/8/8/PPPPPPPP/RNBQKBNR w KQkq - 0 1";

#[test]
fn orientation_follows_the_side_and_the_flip() {
    assert!(board_from_white(Side::White, false));
    assert!(!board_from_white(Side::White, true));
    assert!(!board_from_white(Side::Black, false));
    assert!(board_from_white(Side::Black, true));
}

#[test]
fn display_order_from_both_sides() {
    let w = display_order(true);
    let b = display_order(false);
    assert_eq!(w[0], 56);
    assert_eq!(w[63], 7);
    assert_eq!(b[0], 7);
    assert_eq!(b[63], 56);
    let mut rev = w.clone();
    rev.reverse();
    assert_eq!(rev, b);
    let mut sorted = w.clone();
    sorted.sort();
    assert_eq!(sorted, (0..64).collect::<Vec<u8>>());
}

#[test]
fn a1_is_dark_and_h1_light() {
    assert!(!is_light_square(0));
    assert!(is_light_square(7));
    assert!(is_light_square(56));
}

#[test]
fn font_letters() {
    assert_eq!(glyph(Some(Piece::Knight), Some(Side::White), false), 'H');
    assert_eq!(glyph(Some(Piece::Knight), Some(Side::White), true), 'h');
    assert_eq!(glyph(Some(Piece::Queen), Some(Side::Black), false), 'W');
    assert_eq!(glyph(Some(Piece::Pawn), Some(Side::Black), true), 'o');
    assert_eq!(glyph(None, None, true), '0');
    assert_eq!(glyph(None, None, false), '+');
}

#[test]
fn piece_images_live_in_the_theme_directory() {
    assert_eq!(piece_image(PieceTheme::Cburnett, Piece::Knight, Side::White), String::from("pieces/cburnett/wN.svg"));
    assert_eq!(piece_image(PieceTheme::Merida, Piece::King, Side::Black), String::from("pieces/merida/bK.svg"));
}

#[test]
fn the_board_shows_pieces_and_highlights() {
    let v = board_squares(GameMode::Puzzle, START, START, true, None, Some(12), Some(28), None, PieceTheme::Alpha);
    assert_eq!(v.len(), 64);
    assert_eq!(v[0].square, 56);
    assert_eq!(v[0].image, Some(String::from("pieces/alpha/bR.svg")));
    assert_eq!(v[0].style, SquareStyle::LightSquare);
    let e2 = v.iter().find(|s| s.square == 12).unwrap();
    assert_eq!(e2.style, SquareStyle::SelectedLightSquare);
    let e4 = v.iter().find(|s| s.square == 28).unwrap();
    assert_eq!(e4.image, None);
    assert_eq!(e4.style, SquareStyle::SelectedLightSquare);
    let a1 = v.iter().find(|s| s.square == 0).unwrap();
    assert_eq!(a1.style, SquareStyle::DarkSquare);
    let font = board_squares(GameMode::Analysis, START, START, false, None, Some(12), None, None, PieceTheme::FontAlpha);
    assert_eq!(font[0].square, 7);
    assert_eq!(font[0].glyph, Some('r'));
    assert_eq!(font[0].style, SquareStyle::Paper);
    let e2 = font.iter().find(|s| s.square == 12).unwrap();
    assert_eq!(e2.style, SquareStyle::Paper);
}

#[test]
fn coordinates_around_the_board() {
    assert_eq!(file_labels(true), vec!['a', 'b', 'c', 'd', 'e', 'f', 'g', 'h']);
    assert_eq!(file_labels(false), vec!['h', 'g', 'f', 'e', 'd', 'c', 'b', 'a']);
    assert_eq!(rank_label(true, 0), '8');
    assert_eq!(rank_label(false, 0), '1');
}

#[test]
fn buttons_below_the_board() {
    assert_eq!(
        navigation(GameMode::Analysis, 3, 1, 4, 3, GameStatus::Playing, false, false),
        Navigation::Analysis { takeback: true, engine_started: false }
    );
    assert_eq!(
        navigation(GameMode::Puzzle, 3, 1, 1, 1, GameStatus::Playing, true, true),
        Navigation::Puzzle { previous: true, next: true, redo: true, favorite: true, hint: true, is_favorite: true }
    );
    assert_eq!(
        navigation(GameMode::Puzzle, 3, 2, 1, 1, GameStatus::PuzzleEnded, false, false),
        Navigation::Puzzle { previous: true, next: false, redo: true, favorite: true, hint: false, is_favorite: false }
    );
    assert_eq!(
        navigation(GameMode::Puzzle, 0, 0, 1, 1, GameStatus::NoPuzzles, false, false),
        Navigation::Puzzle { previous: false, next: false, redo: false, favorite: false, hint: false, is_favorite: false }
    );
}
