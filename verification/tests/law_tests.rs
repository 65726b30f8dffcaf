//! One concrete case for each property the library proves.
use offline_chess_puzzles::board::Piece;
use offline_chess_puzzles::board_view::display_order;
use offline_chess_puzzles::config::OfflinePuzzlesConfig;
use offline_chess_puzzles::decimal::{format_i64, parse_i32};
use offline_chess_puzzles::engine::{Engine, EngineEvent, EngineState};
use offline_chess_puzzles::lang::Language;
use offline_chess_puzzles::notation::square_of;
use offline_chess_puzzles::openings::{Openings, Variation};
use offline_chess_puzzles::puzzle::{GameMode, Puzzle};
use offline_chess_puzzles::search::search;
use offline_chess_puzzles::session::PuzzleSession;
use offline_chess_puzzles::settings::{SettingsAction, SettingsMessage, SettingsTab};
use offline_chess_puzzles::themes::TaticsThemes;

fn puzzle(id: &str, fen: &str, moves: &str, rating: i32) -> Puzzle {
    Puzzle {
        puzzle_id: String::from(id),
        fen: String::from(fen),
        moves: String::from(moves),
        rating,
        rating_deviation: 80,
        popularity: 90,
        nb_plays: 100,
        themes: String::from("mate"),
        game_url: String::from("https://lichess.org/abc#3"),
        opening: String::new(),
    }
}

fn fools_mate() -> Puzzle {
    puzzle("fool", "rnbqkbnr/pppp1ppp/8/4p3/8/5P2/PPPPP1PP/RNBQKBNR w KQkq - 0 2", "g2g4 d8h4", 600)
}

#[test]
fn law_search_returns_the_first_matches() {
    let rows: Vec<Option<Puzzle>> = (0..10).map(|i| Some(fools_mate_rated(i * 100))).collect();
    let r = search(rows, 0, 450, TaticsThemes::Mate, Openings::Any, Variation::any(), None, 3);
    let ratings: Vec<i32> = r.iter().map(|p| p.rating).collect();
    assert_eq!(ratings, vec![0, 100, 200]);
}

fn fools_mate_rated(r: i32) -> Puzzle {
    let mut p = fools_mate();
    p.rating = r;
    p
}

#[test]
fn law_search_is_sound_and_within_limit() {
    let rows: Vec<Option<Puzzle>> = (0..10).map(|i| Some(fools_mate_rated(i * 100))).collect();
    let r = search(rows, 250, 650, TaticsThemes::Mate, Openings::Any, Variation::any(), None, 10);
    assert!(r.len() <= 10);
    assert!(r.iter().all(|p| p.rating >= 250 && p.rating <= 650));
}

#[test]
fn law_printed_numbers_read_back() {
    assert_eq!(parse_i32(&format_i64(-1234)), Some(-1234));
}

#[test]
fn law_flipped_board_is_reversed() {
    let mut w = display_order(true);
    w.reverse();
    assert_eq!(w, display_order(false));
}

#[test]
fn law_takeback_undoes_an_analysis_move() {
    let mut s = PuzzleSession::new(Language::English);
    s.load_puzzles(Some(vec![fools_mate()]));
    s.select_mode(GameMode::Analysis);
    let before = (s.analysis.clone(), s.analysis_history.clone());
    s.select_square(square_of('g', '8'), Piece::Queen, true, true);
    s.select_square(square_of('f', '6'), Piece::Queen, true, true);
    s.go_back_move();
    assert_eq!((s.analysis.clone(), s.analysis_history.clone()), before);
}

#[test]
fn law_hint_shows_the_solution_origin() {
    let mut s = PuzzleSession::new(Language::English);
    s.load_puzzles(Some(vec![fools_mate()]));
    s.show_hint();
    assert_eq!(s.hint_square, Some(square_of('d', '8')));
}

#[test]
fn law_next_then_previous() {
    let mut s = PuzzleSession::new(Language::English);
    let other = puzzle("line", "rnbqkbnr/pppppppp/8/8/8/8/PPPPPPPP/RNBQKBNR w KQkq - 0 1", "e2e4 e7e5", 900);
    s.load_puzzles(Some(vec![fools_mate(), other]));
    let board = s.board.clone();
    let status = s.puzzle_status.clone();
    assert!(s.next_puzzle());
    assert!(s.previous_puzzle());
    assert_eq!(s.board, board);
    assert_eq!(s.puzzle_status, status);
    assert_eq!(s.puzzle_tab.current_puzzle_move, 1);
}

#[test]
fn law_solved_puzzle_loads_the_next() {
    let mut s = PuzzleSession::new(Language::English);
    let twin = puzzle("twin", "rnbqkbnr/pppp1ppp/8/4p3/8/5P2/PPPPP1PP/RNBQKBNR w KQkq - 0 2", "g2g4 d8h4", 700);
    s.load_puzzles(Some(vec![fools_mate(), twin]));
    s.select_square(square_of('d', '8'), Piece::Queen, true, true);
    s.select_square(square_of('h', '4'), Piece::Queen, true, true);
    assert_eq!(s.puzzle_tab.current_puzzle, 1);
    assert_eq!(s.puzzle_tab.current_puzzle_move, 1);
    assert_eq!(s.board, String::from("rnbqkbnr/pppp1ppp/8/4p3/6P1/5P2/PPPPP2P/RNBQKBNR b KQkq - 0 1"));
}

#[test]
fn law_wrong_move_only_warns() {
    let mut s = PuzzleSession::new(Language::English);
    s.load_puzzles(Some(vec![fools_mate()]));
    let board = s.board.clone();
    s.select_square(square_of('b', '8'), Piece::Queen, true, true);
    s.select_square(square_of('c', '6'), Piece::Queen, true, true);
    assert_eq!(s.board, board);
    assert_eq!(s.puzzle_status, String::from("wrong_move_black_play"));
}

#[test]
fn law_saved_settings_reopen() {
    let c = OfflinePuzzlesConfig::default();
    let mut t = SettingsTab::new(&c, c.clone());
    t.update(SettingsMessage::ChangePDFExportPgs(String::from("+008")));
    if let SettingsAction::Save(saved) = t.update(SettingsMessage::ChangePressed) {
        let again = SettingsTab::new(&saved, saved.clone());
        assert_eq!(parse_i32(&again.export_pgs), parse_i32(&t.export_pgs));
        assert_eq!(again.export_pgs, String::from("8"));
    } else {
        panic!("save expected");
    }
}

#[test]
fn law_every_theme_and_opening_listed() {
    assert!(TaticsThemes::all().contains(&TaticsThemes::SuperGM));
    assert!(Openings::all().contains(&Openings::Any));
}

#[test]
fn law_stopped_engine_stays_off() {
    let e = Engine::new(None, String::from("depth 10"), String::from("8/8/8/8/8/8/8/k6K w - - 0 1"));
    let (state, actions) = e.step(EngineState::TurnedOff, &EngineEvent::Line(String::from("readyok")));
    assert_eq!(state, EngineState::TurnedOff);
    assert!(actions.is_empty());
    let (state, actions) = e.step(EngineState::Thinking, &EngineEvent::Request(String::from("STOP")));
    assert_eq!(state, EngineState::TurnedOff);
    assert_eq!(actions.len(), 4);
}

#[test]
fn law_correcting_en_passant_changes_only_that_field() {
    let fen = String::from("rnbqkbnr/pppp1ppp/8/8/3Pp3/8/PPP1PPPP/RNBQKBNR b KQkq d4 0 1");
    let fixed = offline_chess_puzzles::notation::san_correct_ep(fen.clone());
    let a = offline_chess_puzzles::text::split_whitespace(&fen);
    let b = offline_chess_puzzles::text::split_whitespace(&fixed);
    assert_eq!(a.len(), b.len());
    for i in 0..a.len() {
        if i != 3 {
            assert_eq!(a[i], b[i]);
        }
    }
    assert_eq!(b[3], String::from("d3"));
}

#[test]
fn law_handshake_before_analysis() {
    let e = Engine::new(None, String::from("depth 10"), String::from("8/8/8/8/8/8/8/k6K w - - 0 1"));
    let (s1, a1) = e.step(EngineState::AwaitingUciOk, &EngineEvent::Line(String::from("uciok")));
    assert_eq!(s1, EngineState::AwaitingReadyOk);
    assert_eq!(a1.len(), 2);
    let (s2, a2) = e.step(s1, &EngineEvent::Line(String::from("readyok")));
    assert_eq!(s2, EngineState::Thinking);
    assert_eq!(a2.len(), 4);
}
