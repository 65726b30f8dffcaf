use offline_chess_puzzles::config::OfflinePuzzlesConfig;
use offline_chess_puzzles::lang::Language;
use offline_chess_puzzles::openings::{Openings, Variation};
use offline_chess_puzzles::settings::{SaveOutcome, SettingsAction, SettingsMessage, SettingsTab};
use offline_chess_puzzles::styles::{BoardTheme, PieceTheme};
use offline_chess_puzzles::themes::{OpeningSide, TaticsThemes};

#[test]
fn first_run_settings() {
    let c = OfflinePuzzlesConfig::default();
    assert_eq!(c.engine_limit, String::from("depth 40"));
    assert_eq!(c.search_results_limit, 20000);
    assert_eq!(c.export_pgs, 50);
    assert_eq!(c.last_max_rating, 1000);
    assert_eq!(c.puzzle_db_location, String::from("puzzles/lichess_db_puzzle.csv"));
    let d = OfflinePuzzlesConfig::or_default(None);
    assert_eq!(d.window_width, 1010);
}

#[test]
fn the_tab_opens_with_the_settings() {
    let c = OfflinePuzzlesConfig::default();
    let t = SettingsTab::new(&c, c.clone());
    assert_eq!(t.export_pgs, String::from("50"));
    assert_eq!(t.search_results_limit_value, String::from("20000"));
    assert_eq!(t.window_height, 680);
    assert_eq!(t.engine_path, String::new());
}

#[test]
fn text_fields_keep_only_numbers() {
    let c = OfflinePuzzlesConfig::default();
    let mut t = SettingsTab::new(&c, c.clone());
    t.update(SettingsMessage::ChangePDFExportPgs(String::from("12")));
    assert_eq!(t.export_pgs, String::from("12"));
    t.update(SettingsMessage::ChangePDFExportPgs(String::from("12x")));
    assert_eq!(t.export_pgs, String::from("12"));
    t.update(SettingsMessage::ChangePDFExportPgs(String::new()));
    assert_eq!(t.export_pgs, String::from("0"));
    t.update(SettingsMessage::ChangeSearchResultLimit(String::from("007")));
    assert_eq!(t.search_results_limit_value, String::from("7"));
    t.update(SettingsMessage::ChangeSearchResultLimit(String::from("-3")));
    assert_eq!(t.search_results_limit_value, String::from("7"));
}

#[test]
fn saving_writes_the_tab_into_the_settings() {
    let c = OfflinePuzzlesConfig::default();
    let mut t = SettingsTab::new(&c, c.clone());
    t.update(SettingsMessage::SelectPieceTheme(PieceTheme::Merida));
    t.update(SettingsMessage::ChangeEnginePath(String::from("/opt/stockfish")));
    t.update(SettingsMessage::ChangePDFExportPgs(String::from("7")));
    match t.update(SettingsMessage::ChangePressed) {
        SettingsAction::Save(saved) => {
            assert_eq!(saved.piece_theme, PieceTheme::Merida);
            assert_eq!(saved.engine_path, Some(String::from("/opt/stockfish")));
            assert_eq!(saved.export_pgs, 7);
            // Reopening the tab with the saved settings shows the same choices.
            let again = SettingsTab::new(&saved, saved.clone());
            assert_eq!(again.piece_theme, PieceTheme::Merida);
            assert_eq!(again.engine_path, String::from("/opt/stockfish"));
            assert_eq!(again.export_pgs, String::from("7"));
        }
        _ => panic!("save expected"),
    }
}

#[test]
fn changes_apply_at_once() {
    let c = OfflinePuzzlesConfig::default();
    let mut t = SettingsTab::new(&c, c.clone());
    match t.update(SettingsMessage::CheckFlipBoard(true)) {
        SettingsAction::SendChanges(ch) => {
            assert!(ch.flip);
            let applied = SettingsTab::send_changes(
                c.clone(), ch.play_sound, ch.auto_load, ch.flip, ch.coords, ch.pieces, ch.theme, ch.engine, ch.lang,
            );
            assert!(applied.flip_board);
            assert_eq!(applied.engine_path, None);
        }
        _ => panic!("changes expected"),
    }
    assert!(matches!(t.update(SettingsMessage::CheckShowCoords(true)), SettingsAction::Nothing));
    assert!(matches!(t.update(SettingsMessage::SelectBoardTheme(BoardTheme::Green)), SettingsAction::SendChanges(_)));
}

#[test]
fn save_outcome_messages() {
    let c = OfflinePuzzlesConfig::default();
    let mut t = SettingsTab::new(&c, c.clone());
    t.save_finished(SaveOutcome::Saved);
    assert_eq!(t.settings_status, String::from("settings_saved"));
    t.save_finished(SaveOutcome::WriteFailed);
    assert_eq!(t.settings_status, String::from("error_saving"));
    t.save_finished(SaveOutcome::OpenFailed);
    assert_eq!(t.settings_status, String::from("error_reading_config"));
}

#[test]
fn remembered_search_and_window() {
    let c = OfflinePuzzlesConfig::default();
    let v = Variation { name: String::from("French_Defense_Winawer_Variation"), family: Openings::French };
    let s = c.clone().with_last_search(500, 1500, TaticsThemes::Fork, Openings::French, v, Some(OpeningSide::Black));
    assert_eq!(s.last_min_rating, 500);
    assert_eq!(s.last_theme, TaticsThemes::Fork);
    assert_eq!(s.last_variation.name, String::from("French_Defense_Winawer_Variation"));
    assert_eq!(s.lang, Language::English);
    let w = c.with_window_size(800, 600);
    assert_eq!((w.window_width, w.window_height), (800, 600));
}
