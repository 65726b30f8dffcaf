use offline_chess_puzzles::board::Piece;
use offline_chess_puzzles::notation::{coord_to_san, get_notation_string, san_correct_ep, square_name, square_of, PieceNames};
use offline_chess_puzzles::puzzle::PuzzleTab;

const START: &str = "rnbqkbnr/pppppppp/8/8/8/8/PPPPPPPP/RNBQKBNR w KQkq - 0 1";

fn english() -> PieceNames {
    PieceNames {
        bishop: String::from("B"),
        knight: String::from("N"),
        rook: String::from("R"),
        queen: String::from("Q"),
        king: String::from("K"),
    }
}

fn portuguese() -> PieceNames {
    PieceNames {
        bishop: String::from("B"),
        knight: String::from("C"),
        rook: String::from("T"),
        queen: String::from("D"),
        king: String::from("R"),
    }
}

#[test]
fn pawn_and_knight_moves_in_algebraic_notation() {
    assert_eq!(coord_to_san(START, "e2e4", &english()), Some(String::from("e4")));
    assert_eq!(coord_to_san(START, "g1f3", &english()), Some(String::from("Nf3")));
}

#[test]
fn piece_names_follow_the_language() {
    assert_eq!(coord_to_san(START, "g1f3", &portuguese()), Some(String::from("Cf3")));
}

#[test]
fn empty_origin_square_has_no_notation() {
    assert_eq!(coord_to_san(START, "e4e5", &english()), None);
}

#[test]
fn mate_gets_a_hash_sign() {
    let fen = "rnbqkbnr/pppp1ppp/8/4p3/6P1/5P2/PPPPP2P/RNBQKBNR b KQkq - 0 1";
    assert_eq!(coord_to_san(fen, "d8h4", &english()), Some(String::from("Qh4#")));
}

#[test]
fn check_gets_a_plus_sign() {
    // 1. e4 f5 2. Qh5+ (g6 blocks, so it is no mate).
    let fen = "rnbqkbnr/ppppp1pp/8/5p2/4P3/8/PPPP1PPP/RNBQKBNR w KQkq - 0 1";
    assert_eq!(coord_to_san(fen, "d1h5", &english()), Some(String::from("Qh5+")));
}

#[test]
fn castling_is_written_with_zeros() {
    let fen = "r3k2r/pppppppp/8/8/8/8/PPPPPPPP/R3K2R w KQkq - 0 1";
    assert_eq!(coord_to_san(fen, "e1g1", &english()), Some(String::from("0-0")));
    assert_eq!(coord_to_san(fen, "e1c1", &english()), Some(String::from("0-0-0")));
}

#[test]
fn captures_and_ambiguous_knights() {
    // Two white knights can reach d2... here both b1 and f3 knights can go to d2.
    let fen = "4k3/8/8/8/8/5N2/8/1N2K3 w - - 0 1";
    assert_eq!(coord_to_san(fen, "b1d2", &english()), Some(String::from("Nbd2")));
    let fen2 = "4k3/8/8/3p4/4P3/8/8/4K3 w - - 0 1";
    assert_eq!(coord_to_san(fen2, "e4d5", &english()), Some(String::from("exd5")));
}

#[test]
fn promotion_adds_the_chosen_letter() {
    let fen = "8/4P3/8/8/8/8/8/k6K w - - 0 1";
    let e7 = square_of('e', '7');
    let e8 = square_of('e', '8');
    assert_eq!(get_notation_string(fen, Piece::Knight, e7, e8), String::from("e7e8n"));
    assert_eq!(get_notation_string(fen, Piece::King, e7, e8), String::from("e7e8q"));
    assert_eq!(get_notation_string(START, Piece::Knight, square_of('e', '2'), square_of('e', '4')), String::from("e2e4"));
}

#[test]
fn promotion_letter_reads_back() {
    assert_eq!(PuzzleTab::check_promotion("e7e8n"), Some(Piece::Knight));
    assert_eq!(PuzzleTab::check_promotion("e7e8r"), Some(Piece::Rook));
    assert_eq!(PuzzleTab::check_promotion("e7e8b"), Some(Piece::Bishop));
    assert_eq!(PuzzleTab::check_promotion("e7e8x"), Some(Piece::Queen));
    assert_eq!(PuzzleTab::check_promotion("e2e4"), None);
}

#[test]
fn square_names_and_indices() {
    assert_eq!(square_of('a', '1'), 0);
    assert_eq!(square_of('h', '8'), 63);
    assert_eq!(square_of('e', '4'), 28);
    assert_eq!(square_name(28), String::from("e4"));
}

#[test]
fn en_passant_field_is_corrected() {
    let fen = String::from("rnbqkbnr/pppp1ppp/8/8/3Pp3/8/PPP1PPPP/RNBQKBNR b KQkq d4 0 1");
    assert_eq!(san_correct_ep(fen), String::from("rnbqkbnr/pppp1ppp/8/8/3Pp3/8/PPP1PPPP/RNBQKBNR b KQkq d3 0 1"));
    let fen = String::from("rnbqkbnr/pppp1ppp/8/3Pp3/8/8/PPP1PPPP/RNBQKBNR w KQkq e5 0 1");
    assert_eq!(san_correct_ep(fen), String::from("rnbqkbnr/pppp1ppp/8/3Pp3/8/8/PPP1PPPP/RNBQKBNR w KQkq e6 0 1"));
    assert_eq!(san_correct_ep(String::from(START)), String::from(START));
}
