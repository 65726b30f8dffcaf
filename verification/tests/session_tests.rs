use offline_chess_puzzles::board::{Piece, Side};
use offline_chess_puzzles::lang::Language;
use offline_chess_puzzles::notation::square_of;
use offline_chess_puzzles::puzzle::{GameMode, GameStatus, Puzzle};
use offline_chess_puzzles::session::{PuzzleSession, Sound};

const START: &str = "rnbqkbnr/pppppppp/8/8/8/8/PPPPPPPP/RNBQKBNR w KQkq - 0 1";

fn puzzle(id: &str, fen: &str, moves: &str) -> Puzzle {
    Puzzle {
        puzzle_id: String::from(id),
        fen: String::from(fen),
        moves: String::from(moves),
        rating: 1500,
        rating_deviation: 80,
        popularity: 90,
        nb_plays: 100,
        themes: String::from("mate mateIn1 short"),
        game_url: String::from("https://lichess.org/abc#3"),
        opening: String::new(),
    }
}

/// Fool's mate: White plays g4, Black finds Qh4#.
fn fools_mate() -> Puzzle {
    puzzle("fool", "rnbqkbnr/pppp1ppp/8/4p3/8/5P2/PPPPP1PP/RNBQKBNR w KQkq - 0 2", "g2g4 d8h4")
}

/// An opening line played as a puzzle: White's e4 first, then Black e5, White Nf3, Black Nc6.
fn opening_line() -> Puzzle {
    puzzle("line", START, "e2e4 e7e5 g1f3 b8c6")
}

fn sq(s: &str) -> u8 {
    let c: Vec<char> = s.chars().collect();
    square_of(c[0], c[1])
}

fn click(s: &mut PuzzleSession, from: &str, to: &str, auto: bool) -> Option<Sound> {
    s.select_square(sq(from), Piece::Queen, auto, true);
    s.select_square(sq(to), Piece::Queen, auto, true).sound
}

#[test]
fn a_new_session_asks_for_a_search() {
    let s = PuzzleSession::new(Language::English);
    assert_eq!(s.board, String::from(START));
    assert_eq!(s.puzzle_status, String::from("use_search"));
    assert_eq!(s.puzzle_tab.game_status, GameStatus::NoPuzzles);
    assert_eq!(s.analysis_history, vec![String::from(START)]);
}

#[test]
fn loading_sets_up_the_first_puzzle_after_the_opponents_move() {
    let mut s = PuzzleSession::new(Language::English);
    s.load_puzzles(Some(vec![fools_mate()]));
    assert_eq!(s.board, String::from("rnbqkbnr/pppp1ppp/8/4p3/6P1/5P2/PPPPP2P/RNBQKBNR b KQkq - 0 1"));
    assert_eq!(s.puzzle_status, String::from("black_to_move"));
    assert_eq!(s.puzzle_tab.current_puzzle_side, Side::Black);
    assert_eq!(s.puzzle_tab.game_status, GameStatus::Playing);
    assert_eq!(s.last_move_from, Some(sq("g2")));
    assert_eq!(s.last_move_to, Some(sq("g4")));
    assert_eq!(s.puzzle_tab.current_puzzle_move, 1);
}

#[test]
fn nothing_found_shows_the_start_position() {
    let mut s = PuzzleSession::new(Language::English);
    s.load_puzzles(Some(vec![]));
    assert_eq!(s.board, String::from(START));
    assert_eq!(s.puzzle_status, String::from("no_puzzle_found"));
    assert_eq!(s.puzzle_tab.game_status, GameStatus::NoPuzzles);
    let mut t = PuzzleSession::new(Language::English);
    t.load_puzzles(None);
    assert_eq!(t.puzzle_status, String::from("no_puzzle_found"));
}

#[test]
fn loaded_puzzles_are_the_found_ones_in_some_order() {
    let mut s = PuzzleSession::new(Language::English);
    s.load_puzzles(Some(vec![fools_mate(), opening_line()]));
    let mut ids: Vec<String> = s.puzzle_tab.puzzles.iter().map(|p| p.puzzle_id.clone()).collect();
    ids.sort();
    assert_eq!(ids, vec![String::from("fool"), String::from("line")]);
}

#[test]
fn the_mating_move_solves_the_puzzle() {
    let mut s = PuzzleSession::new(Language::English);
    s.load_puzzles(Some(vec![fools_mate()]));
    let sound = click(&mut s, "d8", "h4", false);
    assert_eq!(sound, Some(Sound::OnePiece));
    assert_eq!(s.puzzle_tab.game_status, GameStatus::PuzzleEnded);
    assert_eq!(s.puzzle_status, String::from("all_puzzles_done"));
    assert_eq!(s.puzzle_tab.current_puzzle_move, 2);
    assert_eq!(s.last_move_from, None);
}

#[test]
fn with_auto_load_the_last_solved_puzzle_clears_the_board() {
    let mut s = PuzzleSession::new(Language::English);
    s.load_puzzles(Some(vec![fools_mate()]));
    click(&mut s, "d8", "h4", true);
    assert_eq!(s.board, String::from(START));
    assert_eq!(s.puzzle_tab.game_status, GameStatus::NoPuzzles);
    assert_eq!(s.puzzle_status, String::from("all_puzzles_done"));
}

#[test]
fn a_wrong_move_only_warns() {
    let mut s = PuzzleSession::new(Language::English);
    s.load_puzzles(Some(vec![fools_mate()]));
    let before = s.board.clone();
    let sound = click(&mut s, "d8", "g5", true);
    assert_eq!(sound, None);
    assert_eq!(s.board, before);
    assert_eq!(s.puzzle_status, String::from("wrong_move_black_play"));
    assert_eq!(s.puzzle_tab.current_puzzle_move, 1);
    assert_eq!(s.from_square, None);
}

#[test]
fn the_opponent_answers_a_correct_move() {
    let mut s = PuzzleSession::new(Language::English);
    s.load_puzzles(Some(vec![opening_line()]));
    let sound = click(&mut s, "e7", "e5", true);
    assert_eq!(sound, Some(Sound::TwoPieces));
    assert_eq!(s.puzzle_status, String::from("correct_move"));
    assert_eq!(s.puzzle_tab.current_puzzle_move, 3);
    assert_eq!(s.last_move_from, Some(sq("g1")));
    assert_eq!(s.last_move_to, Some(sq("f3")));
    assert_eq!(s.analysis_history.len(), 3);
    assert_eq!(s.board, String::from("rnbqkbnr/pppp1ppp/8/4p3/4P3/5N2/PPPP1PPP/RNBQKB1R b KQkq - 0 1"));
}

#[test]
fn auto_load_sets_up_the_next_puzzle() {
    let mut s = PuzzleSession::new(Language::English);
    s.load_puzzles(Some(vec![fools_mate(), opening_line()]));
    // Play whichever puzzle came first, then check that the other one is set up.
    let first = s.puzzle_tab.puzzles[0].puzzle_id.clone();
    if first == "fool" {
        click(&mut s, "d8", "h4", true);
        assert_eq!(s.puzzle_tab.current_puzzle, 1);
        assert_eq!(s.board, String::from("rnbqkbnr/pppppppp/8/8/4P3/8/PPPP1PPP/RNBQKBNR b KQkq - 0 1"));
    } else {
        click(&mut s, "e7", "e5", true);
        click(&mut s, "b8", "c6", true);
        assert_eq!(s.puzzle_tab.current_puzzle, 1);
        assert_eq!(s.board, String::from("rnbqkbnr/pppp1ppp/8/4p3/6P1/5P2/PPPPP2P/RNBQKBNR b KQkq - 0 1"));
    }
    assert_eq!(s.puzzle_tab.current_puzzle_move, 1);
    assert_eq!(s.puzzle_status, String::from("black_to_move"));
}

#[test]
fn without_auto_load_a_solved_puzzle_waits() {
    let mut s = PuzzleSession::new(Language::English);
    s.load_puzzles(Some(vec![fools_mate(), opening_line()]));
    let first = s.puzzle_tab.puzzles[0].puzzle_id.clone();
    if first == "fool" {
        click(&mut s, "d8", "h4", false);
    } else {
        click(&mut s, "e7", "e5", false);
        click(&mut s, "b8", "c6", false);
    }
    assert_eq!(s.puzzle_tab.current_puzzle, 0);
    assert_eq!(s.puzzle_tab.game_status, GameStatus::PuzzleEnded);
    assert_eq!(s.puzzle_status, String::from("correct_puzzle"));
}

#[test]
fn the_hint_marks_the_piece_to_move() {
    let mut s = PuzzleSession::new(Language::English);
    s.load_puzzles(Some(vec![fools_mate()]));
    s.show_hint();
    assert_eq!(s.hint_square, Some(sq("d8")));
}

#[test]
fn only_own_pieces_can_be_selected() {
    let mut s = PuzzleSession::new(Language::English);
    s.load_puzzles(Some(vec![fools_mate()]));
    s.select_square(sq("e2"), Piece::Queen, true, true);
    assert_eq!(s.from_square, None);
    s.select_square(sq("d8"), Piece::Queen, true, true);
    assert_eq!(s.from_square, Some(sq("d8")));
    s.select_square(sq("b8"), Piece::Queen, true, true);
    assert_eq!(s.from_square, Some(sq("b8")));
}

#[test]
fn nothing_can_be_selected_before_a_search() {
    let mut s = PuzzleSession::new(Language::English);
    s.select_square(sq("e2"), Piece::Queen, true, true);
    assert_eq!(s.from_square, None);
}

#[test]
fn next_then_previous_returns_to_the_puzzle_start() {
    let mut s = PuzzleSession::new(Language::English);
    s.load_puzzles(Some(vec![fools_mate(), opening_line()]));
    let start_board = s.board.clone();
    assert!(s.next_puzzle());
    assert_eq!(s.puzzle_tab.current_puzzle, 1);
    assert!(!s.next_puzzle());
    assert!(s.previous_puzzle());
    assert_eq!(s.puzzle_tab.current_puzzle, 0);
    assert_eq!(s.board, start_board);
    assert!(!s.previous_puzzle());
}

#[test]
fn redo_starts_the_puzzle_again() {
    let mut s = PuzzleSession::new(Language::English);
    s.load_puzzles(Some(vec![opening_line()]));
    click(&mut s, "e7", "e5", true);
    assert!(s.redo_puzzle());
    assert_eq!(s.puzzle_tab.current_puzzle_move, 1);
    assert_eq!(s.board, String::from("rnbqkbnr/pppppppp/8/8/4P3/8/PPPP1PPP/RNBQKBNR b KQkq - 0 1"));
    assert_eq!(s.analysis_history.len(), 1);
}

#[test]
fn takeback_undoes_an_analysis_move() {
    let mut s = PuzzleSession::new(Language::English);
    s.load_puzzles(Some(vec![fools_mate()]));
    s.select_mode(GameMode::Analysis);
    let before = s.analysis.clone();
    let history = s.analysis_history.clone();
    s.select_square(sq("b8"), Piece::Queen, true, true);
    let effects = s.select_square(sq("c6"), Piece::Queen, true, true);
    assert_eq!(effects.sound, Some(Sound::OnePiece));
    assert_eq!(effects.engine_position, Some(s.analysis.clone()));
    assert_eq!(s.analysis_history.len(), history.len() + 1);
    let sent = s.go_back_move();
    assert_eq!(s.analysis, before);
    assert_eq!(s.analysis_history, history);
    assert_eq!(sent, Some(before));
    assert_eq!(s.go_back_move(), None);
}

#[test]
fn back_in_puzzle_mode_the_analysis_is_dropped() {
    let mut s = PuzzleSession::new(Language::English);
    s.load_puzzles(Some(vec![fools_mate()]));
    s.select_mode(GameMode::Analysis);
    s.select_square(sq("b8"), Piece::Queen, true, true);
    s.select_square(sq("c6"), Piece::Queen, true, true);
    s.select_mode(GameMode::Puzzle);
    assert_eq!(s.analysis_history.len(), 1);
}

#[test]
fn the_puzzle_link_points_to_lichess() {
    let mut s = PuzzleSession::new(Language::English);
    assert_eq!(s.puzzle_tab.puzzle_link(), None);
    s.load_puzzles(Some(vec![fools_mate()]));
    assert_eq!(s.puzzle_tab.puzzle_link(), Some(String::from("https://lichess.org/training/fool")));
}

#[test]
fn a_listed_first_move_is_played_as_it_stands() {
    let mut s = PuzzleSession::new(Language::English);
    s.load_puzzles(Some(vec![puzzle("jump", START, "e2e5 e7e6")]));
    assert_eq!(s.puzzle_tab.game_status, GameStatus::Playing);
    assert_eq!(s.board, String::from("rnbqkbnr/pppppppp/8/4P3/8/8/PPPP1PPP/RNBQKBNR b KQkq - 0 1"));
    assert_eq!(s.last_move_from, Some(sq("e2")));
    assert_eq!(s.last_move_to, Some(sq("e5")));
}

#[test]
fn a_listed_reply_is_played_as_it_stands() {
    let mut s = PuzzleSession::new(Language::English);
    s.load_puzzles(Some(vec![puzzle("odd", START, "e2e4 e7e5 g1g3 b8c6")]));
    let sound = click(&mut s, "e7", "e5", true);
    assert_eq!(sound, Some(Sound::TwoPieces));
    assert_eq!(s.puzzle_status, String::from("correct_move"));
    assert_eq!(s.puzzle_tab.current_puzzle_move, 3);
    assert_eq!(s.board, String::from("rnbqkbnr/pppp1ppp/8/4p3/4P3/6N1/PPPP1PPP/RNBQKB1R b KQkq - 0 1"));
}

#[test]
fn a_first_move_from_an_empty_square_leaves_no_puzzle() {
    let mut s = PuzzleSession::new(Language::English);
    s.load_puzzles(Some(vec![puzzle("empty", START, "e4e5 e7e6")]));
    assert_eq!(s.puzzle_tab.game_status, GameStatus::NoPuzzles);
}
