use offline_chess_puzzles::config::OfflinePuzzlesConfig;
use offline_chess_puzzles::engine::{engine_eval_text, EngineStatus, EvalText};
use offline_chess_puzzles::lang::{Language, Translations};
use offline_chess_puzzles::notation::PieceNames;
use offline_chess_puzzles::offline_puzzles::{best_move_text, CloseAction, EngineButton, OfflinePuzzles};
use offline_chess_puzzles::puzzle::{GameMode, Puzzle};
use offline_chess_puzzles::styles::PieceTheme;

const START: &str = "rnbqkbnr/pppppppp/8/8/8/8/PPPPPPPP/RNBQKBNR w KQkq - 0 1";

fn translations() -> Translations {
    let en = String::from("mate_in = Mate_in_\nmate = Mate\n");
    Translations { english: en.clone(), portuguese: en.clone(), spanish: en.clone(), french: en.clone(), chinese: en }
}

fn english() -> PieceNames {
    PieceNames {
        bishop: String::from("B"),
        knight: String::from("N"),
        rook: String::from("R"),
        queen: String::from("Q"),
        king: String::from("K"),
    }
}

fn app() -> OfflinePuzzles {
    let c = OfflinePuzzlesConfig::default();
    OfflinePuzzles::new(&c, c.clone())
}

#[test]
fn the_application_starts_without_puzzles_or_engine() {
    let a = app();
    assert_eq!(a.engine_state, EngineStatus::TurnedOff);
    assert_eq!(a.engine.position, String::from(START));
    assert_eq!(a.engine.search_up_to, String::from("depth 40"));
    assert!(a.current_puzzle().is_none());
}

#[test]
fn engine_button_starts_and_stops() {
    let mut a = app();
    assert_eq!(a.start_engine(false), EngineButton::Nothing);
    assert_eq!(a.engine_state, EngineStatus::TurnedOff);
    assert_eq!(a.start_engine(true), EngineButton::Start);
    assert_eq!(a.engine_state, EngineStatus::Started);
    assert_eq!(a.engine.position, String::from(START));
    assert_eq!(a.start_engine(true), EngineButton::Stop);
    assert_eq!(a.close_requested(), CloseAction::StopEngineFirst);
    assert!(!a.engine_stopped(false));
    assert_eq!(a.engine_state, EngineStatus::TurnedOff);
    assert_eq!(a.close_requested(), CloseAction::SaveAndClose);
}

#[test]
fn evaluations_and_best_moves_are_shown() {
    let mut a = app();
    a.start_engine(true);
    let t = translations();
    let negate = a.update_eval(Some(String::from("0.35")), Some(String::from("e2e4")), &t, &english());
    assert_eq!(negate, None);
    assert_eq!(a.engine_eval, String::from("0.35"));
    assert_eq!(a.engine_move, String::from("e4"));
    a.update_eval(Some(String::from("Mate in -3")), Some(String::from("zz")), &t, &english());
    assert_eq!(a.engine_eval, String::from("Mate_in_3"));
    assert_eq!(a.engine_move, String::from("e4"));
    a.update_eval(Some(String::from("Mate in 0")), None, &t, &english());
    assert_eq!(a.engine_eval, String::from("Mate"));
}

#[test]
fn eval_text_cases() {
    let t = translations();
    assert!(matches!(engine_eval_text(&t, &Language::English, "1.20", false), EvalText::Negated));
    assert!(matches!(engine_eval_text(&t, &Language::English, "Mate in x", true), EvalText::Missing));
    match engine_eval_text(&t, &Language::English, "Mate in 2", false) {
        EvalText::Text(s) => assert_eq!(s, String::from("Mate_in_2")),
        _ => panic!("text expected"),
    }
}

#[test]
fn best_moves_that_cannot_be_read_are_ignored() {
    assert_eq!(best_move_text(START, "e2", &english()), None);
    assert_eq!(best_move_text(START, "g1f3", &english()), Some(String::from("Nf3")));
}

#[test]
fn new_settings_reach_every_tab() {
    let mut a = app();
    let mut c = OfflinePuzzlesConfig::default();
    c.lang = Language::Spanish;
    a.settings_tab.piece_theme = PieceTheme::Merida;
    a.change_settings(Some(c));
    assert_eq!(a.lang, Language::Spanish);
    assert_eq!(a.search_tab.lang, Language::Spanish);
    assert_eq!(a.search_tab.theme.lang, Language::Spanish);
    assert_eq!(a.session.puzzle_tab.lang, Language::Spanish);
    assert_eq!(a.search_tab.piece_theme_promotion, PieceTheme::Merida);
    a.change_settings(None);
    assert_eq!(a.lang, Language::Spanish);
}

#[test]
fn window_size_and_board_only_view() {
    let mut a = app();
    a.window_resized(1200, 800);
    assert_eq!((a.settings_tab.window_width, a.settings_tab.window_height), (1200, 800));
    assert_eq!(a.toggle_mini_ui(), (715, 800));
    a.window_resized(100, 100);
    assert_eq!(a.settings_tab.window_width, 1200);
    assert_eq!(a.toggle_mini_ui(), (1200, 800));
}

#[test]
fn clicks_on_the_analysis_board_move_the_engine() {
    let mut a = app();
    let p = Puzzle {
        puzzle_id: String::from("line"),
        fen: String::from(START),
        moves: String::from("e2e4 e7e5"),
        rating: 1000,
        rating_deviation: 50,
        popularity: 50,
        nb_plays: 5,
        themes: String::from("opening"),
        game_url: String::from("https://lichess.org/q#1"),
        opening: String::new(),
    };
    a.start_engine(true);
    assert!(a.load_puzzles(Some(vec![p])));
    assert!(!a.select_mode(GameMode::Analysis));
    a.click_square(57);
    let e = a.click_square(42);
    assert_eq!(e.engine_position, Some(a.engine.position.clone()));
    assert_eq!(a.engine.position, String::from("r1bqkbnr/pppppppp/2n5/8/4P3/8/PPPP1PPP/RNBQKBNR w KQkq - 0 1"));
    assert!(a.select_mode(GameMode::Puzzle));
    assert_eq!(a.current_puzzle().unwrap().puzzle_id, String::from("line"));
}
