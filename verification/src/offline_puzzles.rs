//! The application's state as a whole (the board, the tabs, the engine's state and its
//! last evaluation) and what the application does with the messages that concern more
//! than one part of it: new settings, the engine button, the engine's reports, closing.
use vstd::prelude::*;
use vstd::string::*;
use crate::board::{Side, chess_side_to_move, side_to_move};
use crate::board_view::TabId;
use crate::config::OfflinePuzzlesConfig;
use crate::engine::{
    Engine, EngineStatus, EvalText, engine_eval_text, spec_mate_distance, spec_mate_text,
};
use crate::lang::{Language, Translations};
use crate::notation::{PieceNames, valid_coords, spec_coord_to_san, coord_to_san};
use crate::puzzle::{GameMode, Puzzle};
use crate::search_tab::SearchTab;
use crate::session::{
    PuzzleSession, SessionView, ClickEffects, session_wf, clicked, displayed_fen, shown_fen,
    new_session_view, loaded, mode_selected,
};
use crate::settings::SettingsTab;
use crate::text::{chars_of, spec_contains};

verus! {

broadcast use vstd::string::group_string_axioms;

/// The whole application state.
#[derive(Debug)]
pub struct OfflinePuzzles {
    pub session: PuzzleSession,
    pub engine_state: EngineStatus,
    pub engine_eval: String,
    pub engine: Engine,
    pub engine_move: String,
    pub active_tab: TabId,
    pub search_tab: SearchTab,
    pub settings_tab: SettingsTab,
    pub lang: Language,
    pub mini_ui: bool,
}

/// What a click on the engine button asks of the application.
#[derive(Debug, Clone, Copy, PartialEq, Eq, Structural)]
pub enum EngineButton {
    /// Start the engine (its position was set).
    Start,
    /// Ask the running engine to stop, and forget its channel.
    Stop,
    /// Nothing: the engine's program does not exist.
    Nothing,
}

/// What a request to close the window asks of the application.
#[derive(Debug, Clone, Copy, PartialEq, Eq, Structural)]
pub enum CloseAction {
    /// Remember the window's size and close.
    SaveAndClose,
    /// Ask the running engine to exit first (it reports when it stopped).
    StopEngineFirst,
}

impl OfflinePuzzles {
    /// The application as it starts: no puzzle, the engine off, the search tab in front;
    /// `settings` are the settings it starts with, `saved` the settings file as read now.
    pub fn new(settings: &OfflinePuzzlesConfig, saved: OfflinePuzzlesConfig) -> (r: Self)
        ensures
            session_wf(r.session@),
            r.session@ == new_session_view(settings.lang),
            r.engine_state == EngineStatus::TurnedOff,
            r.engine_eval@.len() == 0,
            r.engine_move@.len() == 0,
            r.engine.search_up_to == settings.engine_limit,
            r.engine.position@ == "rnbqkbnr/pppppppp/8/8/8/8/PPPPPPPP/RNBQKBNR w KQkq - 0 1"@,
            r.engine.engine_path@ == (match settings.engine_path {
                Some(p) => p@,
                None => Seq::<char>::empty(),
            }),
            r.active_tab == TabId::Search,
            r.lang == settings.lang,
            !r.mini_ui,
            r.search_tab.is_fresh(*settings),
            r.settings_tab.wf(),
            r.settings_tab.opened_with(*settings, saved),
    {
        OfflinePuzzles {
            session: PuzzleSession::new(settings.lang),
            engine_state: EngineStatus::TurnedOff,
            engine_eval: String::new(),
            engine: Engine::new(
                settings.engine_path.clone(),
                settings.engine_limit.clone(),
                String::from_str("rnbqkbnr/pppppppp/8/8/8/8/PPPPPPPP/RNBQKBNR w KQkq - 0 1"),
            ),
            engine_move: String::new(),
            active_tab: TabId::Search,
            search_tab: SearchTab::new(settings),
            settings_tab: SettingsTab::new(settings, saved),
            lang: settings.lang,
            mini_ui: false,
        }
    }
}


/// The engine's best move as the interface shows it: the move with UCI coordinates `best`
/// in algebraic notation in the analysis position, when it can be written.
pub open spec fn best_move_shown(analysis: Seq<char>, best: Seq<char>, names: PieceNames) -> Option<
    Seq<char>,
> {
    if valid_coords(best) {
        spec_coord_to_san(analysis, best, names)
    } else {
        None
    }
}

/// Writes the engine's best move `best` in algebraic notation (see `best_move_shown`).
pub fn best_move_text(analysis: &str, best: &str, names: &PieceNames) -> (r: Option<String>)
    ensures
        match r {
            Some(s) => best_move_shown(analysis@, best@, *names) == Some(s@),
            None => best_move_shown(analysis@, best@, *names) is None,
        },
{
    let c = chars_of(best);
    if c.len() >= 4 && 'a' <= c[0] && c[0] <= 'h' && '1' <= c[1] && c[1] <= '8' && 'a' <= c[2] && c[2]
        <= 'h' && '1' <= c[3] && c[3] <= '8' && (c.len() <= 4 || (c[4] as u32) < 128) {
        coord_to_san(analysis, best, names)
    } else {
        None
    }
}

/// The evaluation shown after the engine reported `eval` (see `engine_eval_text`): `Some`
/// with the new text, or `None` when it stays as it was (also when the application has to
/// show the evaluation with its sign changed).
pub open spec fn eval_shown(
    t: Translations,
    lang: Language,
    eval: Seq<char>,
    white_to_move: bool,
) -> Option<Seq<char>> {
    if spec_contains(eval, "Mate"@) {
        match spec_mate_distance(eval) {
            Some(n) => spec_mate_text(t, lang, n),
            None => None,
        }
    } else if white_to_move {
        Some(eval)
    } else {
        None
    }
}

impl OfflinePuzzles {
    /// Applies the settings that the settings tab sent (nothing when none were sent): the
    /// promotion pieces follow the piece set, the engine the engine path, and the
    /// language changes everywhere it is shown.
    pub fn change_settings(&mut self, settings: Option<OfflinePuzzlesConfig>)
        ensures
            match settings {
                None => *final(self) == *old(self),
                Some(c) => {
                    &&& final(self).search_tab.piece_theme_promotion == old(self).settings_tab.piece_theme
                    &&& final(self).engine.engine_path == old(self).settings_tab.engine_path
                    &&& final(self).lang == c.lang
                    &&& final(self).search_tab.lang == c.lang
                    &&& final(self).search_tab.theme.lang == c.lang
                    &&& final(self).search_tab.opening.lang == c.lang
                    &&& final(self).session.puzzle_tab.lang == c.lang
                    &&& final(self).settings_tab.saved_configs == c
                    &&& final(self).search_tab.theme.item == old(self).search_tab.theme.item
                    &&& final(self).search_tab.opening.item == old(self).search_tab.opening.item
                    &&& final(self).session@ == (SessionView { lang: c.lang, ..old(self).session@ })
                    &&& *final(self) == (OfflinePuzzles {
                        search_tab: final(self).search_tab,
                        engine: final(self).engine,
                        lang: c.lang,
                        session: final(self).session,
                        settings_tab: final(self).settings_tab,
                        ..*old(self)
                    })
                    &&& final(self).search_tab == (SearchTab {
                        piece_theme_promotion: old(self).settings_tab.piece_theme,
                        lang: c.lang,
                        theme: final(self).search_tab.theme,
                        opening: final(self).search_tab.opening,
                        ..old(self).search_tab
                    })
                    &&& final(self).engine == (Engine {
                        engine_path: old(self).settings_tab.engine_path,
                        ..old(self).engine
                    })
                    &&& final(self).settings_tab == (SettingsTab {
                        saved_configs: c,
                        ..old(self).settings_tab
                    })
                },
            },
    {
        if let Some(c) = settings {
            self.search_tab.piece_theme_promotion = self.settings_tab.piece_theme;
            self.engine.engine_path = self.settings_tab.engine_path.clone();
            self.lang = c.lang;
            self.search_tab.lang = c.lang;
            self.search_tab.theme.lang = c.lang;
            self.search_tab.opening.lang = c.lang;
            self.session.puzzle_tab.lang = c.lang;
            self.settings_tab.saved_configs = c;
        }
    }

    /// A click on the engine button: starts the engine on the analysis position (when its
    /// program exists), or stops a running engine.
    pub fn start_engine(&mut self, path_exists: bool) -> (r: EngineButton)
        ensures
            old(self).engine_state == EngineStatus::TurnedOff && path_exists ==> {
                &&& r == EngineButton::Start
                &&& final(self).engine_state == EngineStatus::Started
                &&& final(self).engine.position@ == displayed_fen(old(self).session@.analysis)
                &&& *final(self) == (OfflinePuzzles {
                    engine_state: EngineStatus::Started,
                    engine: Engine { position: final(self).engine.position, ..old(self).engine },
                    ..*old(self)
                })
            },
            old(self).engine_state == EngineStatus::TurnedOff && !path_exists ==> r
                == EngineButton::Nothing && *final(self) == *old(self),
            old(self).engine_state == EngineStatus::Started ==> r == EngineButton::Stop && *final(self)
                == *old(self),
    {
        match self.engine_state {
            EngineStatus::TurnedOff => {
                if path_exists {
                    self.engine.position = shown_fen(&self.session.analysis);
                    self.engine_state = EngineStatus::Started;
                    EngineButton::Start
                } else {
                    EngineButton::Nothing
                }
            },
            EngineStatus::Started => EngineButton::Stop,
        }
    }

    /// The engine reported that it stopped: it is off; when the application closes (`exit`)
    /// the window is to be closed (returns true), else the evaluation and best move are
    /// cleared.
    pub fn engine_stopped(&mut self, exit: bool) -> (close: bool)
        ensures
            close == exit,
            exit ==> *final(self) == (OfflinePuzzles {
                engine_state: EngineStatus::TurnedOff,
                ..*old(self)
            }),
            !exit ==> {
                &&& final(self).engine_eval@.len() == 0
                &&& final(self).engine_move@.len() == 0
                &&& *final(self) == (OfflinePuzzles {
                    engine_state: EngineStatus::TurnedOff,
                    engine_eval: final(self).engine_eval,
                    engine_move: final(self).engine_move,
                    ..*old(self)
                })
            },
    {
        self.engine_state = EngineStatus::TurnedOff;
        if !exit {
            self.engine_eval = String::new();
            self.engine_move = String::new();
        }
        exit
    }

    /// The engine reported an evaluation and a best move (while it runs): the evaluation is
    /// shown (see `eval_shown`), and the best move in algebraic notation when it can be
    /// written. Returns the evaluation when the application has to show it with its sign
    /// changed (Black is to move).
    pub fn update_eval(
        &mut self,
        eval: Option<String>,
        best_move: Option<String>,
        t: &Translations,
        names: &PieceNames,
    ) -> (negate: Option<String>)
        ensures
            old(self).engine_state == EngineStatus::TurnedOff ==> *final(self) == *old(self)
                && negate is None,
            old(self).engine_state == EngineStatus::Started ==> {
                let white = chess_side_to_move(old(self).session@.analysis) == Some(Side::White);
                &&& *final(self) == (OfflinePuzzles {
                    engine_eval: final(self).engine_eval,
                    engine_move: final(self).engine_move,
                    ..*old(self)
                })
                &&& final(self).engine_eval@ == match eval {
                    Some(e) => match eval_shown(*t, old(self).lang, e@, white) {
                        Some(x) => x,
                        None => old(self).engine_eval@,
                    },
                    None => old(self).engine_eval@,
                }
                &&& negate == match eval {
                    Some(e) => if !spec_contains(e@, "Mate"@) && !white {
                        Some(e)
                    } else {
                        None
                    },
                    None => None,
                }
                &&& final(self).engine_move@ == match best_move {
                    Some(b) => match best_move_shown(old(self).session@.analysis, b@, *names) {
                        Some(x) => x,
                        None => old(self).engine_move@,
                    },
                    None => old(self).engine_move@,
                }
            },
    {
        if self.engine_state == EngineStatus::TurnedOff {
            return None;
        }
        let white = match side_to_move(self.session.analysis.as_str()) {
            Some(Side::White) => true,
            _ => false,
        };
        let mut negate: Option<String> = None;
        if let Some(e) = eval {
            match engine_eval_text(t, &self.lang, e.as_str(), white) {
                EvalText::Text(x) => {
                    self.engine_eval = x;
                },
                EvalText::Negated => {
                    negate = Some(e);
                },
                EvalText::Missing => {},
            }
        }
        if let Some(b) = best_move {
            if let Some(s) = best_move_text(self.session.analysis.as_str(), b.as_str(), names) {
                self.engine_move = s;
            }
        }
        negate
    }

    /// A request to close the window: closes at once when the engine is off, else the
    /// engine is asked to exit first.
    pub fn close_requested(&self) -> (r: CloseAction)
        ensures
            r == (if self.engine_state == EngineStatus::TurnedOff {
                CloseAction::SaveAndClose
            } else {
                CloseAction::StopEngineFirst
            }),
    {
        match self.engine_state {
            EngineStatus::TurnedOff => CloseAction::SaveAndClose,
            EngineStatus::Started => CloseAction::StopEngineFirst,
        }
    }

    /// The window was resized: its size is remembered, unless the board alone is shown.
    pub fn window_resized(&mut self, width: u32, height: u32)
        ensures
            old(self).mini_ui ==> *final(self) == *old(self),
            !old(self).mini_ui ==> *final(self) == (OfflinePuzzles {
                settings_tab: SettingsTab {
                    window_width: width,
                    window_height: height,
                    ..old(self).settings_tab
                },
                ..*old(self)
            }),
    {
        if !self.mini_ui {
            self.settings_tab.window_width = width;
            self.settings_tab.window_height = height;
        }
    }

    /// Shows the board alone, or everything again; returns the window's new size: the
    /// remembered size, or for the board alone as wide as the board is high (the height
    /// less the 110 points below the board) with 25 more for the button.
    pub fn toggle_mini_ui(&mut self) -> (size: (i64, i64))
        ensures
            final(self).mini_ui == !old(self).mini_ui,
            *final(self) == (OfflinePuzzles { mini_ui: !old(self).mini_ui, ..*old(self) }),
            old(self).mini_ui ==> size == (
                old(self).settings_tab.window_width as i64,
                old(self).settings_tab.window_height as i64,
            ),
            !old(self).mini_ui ==> size.0 == old(self).settings_tab.window_height - 110 + 25
                && size.1 == old(self).settings_tab.window_height,
    {
        if self.mini_ui {
            self.mini_ui = false;
            (self.settings_tab.window_width as i64, self.settings_tab.window_height as i64)
        } else {
            self.mini_ui = true;
            let h = self.settings_tab.window_height as i64;
            (h - 110 + 25, h)
        }
    }

    /// A click on a square of the board (see `PuzzleSession::select_square`), with the
    /// promotion piece of the search tab and the saved settings; a move on the analysis
    /// board becomes the engine's position.
    pub fn click_square(&mut self, square: u8) -> (r: ClickEffects)
        requires
            session_wf(old(self).session@),
            square < 64,
        ensures
            session_wf(final(self).session@),
            final(self).session@ == clicked(
                old(self).session@,
                square,
                old(self).search_tab.piece_to_promote_to,
                old(self).settings_tab.saved_configs.auto_load_next,
            ),
            match r.engine_position {
                Some(p) => final(self).engine == (Engine { position: p, ..old(self).engine }),
                None => final(self).engine == old(self).engine,
            },
            *final(self) == (OfflinePuzzles {
                session: final(self).session,
                engine: final(self).engine,
                ..*old(self)
            }),
    {
        let promote = self.search_tab.piece_to_promote_to;
        let auto_load = self.settings_tab.saved_configs.auto_load_next;
        let sound = self.settings_tab.saved_configs.play_sound;
        let r = self.session.select_square(square, promote, auto_load, sound);
        if let Some(p) = &r.engine_position {
            self.engine.position = p.clone();
        }
        r
    }

    /// Loads the puzzles a search found (see `PuzzleSession::load_puzzles`); the searching
    /// message goes away. Returns whether the running engine is to be stopped.
    pub fn load_puzzles(&mut self, found: Option<Vec<Puzzle>>) -> (stop_engine: bool)
        requires
            session_wf(old(self).session@),
        ensures
            session_wf(final(self).session@),
            loaded(old(self).session@, found, final(self).session@),
            stop_engine == (old(self).engine_state != EngineStatus::TurnedOff),
            !final(self).search_tab.show_searching_msg,
            final(self).search_tab == (SearchTab {
                show_searching_msg: false,
                ..old(self).search_tab
            }),
            *final(self) == (OfflinePuzzles {
                session: final(self).session,
                search_tab: final(self).search_tab,
                ..*old(self)
            }),
    {
        self.search_tab.show_searching_msg = false;
        self.session.load_puzzles(found);
        self.engine_state != EngineStatus::TurnedOff
    }

    /// Switches between the puzzle and the analysis board (see
    /// `PuzzleSession::select_mode`); returns whether the running engine is to be stopped
    /// (when going back to the puzzle).
    pub fn select_mode(&mut self, mode: GameMode) -> (stop_engine: bool)
        requires
            session_wf(old(self).session@),
        ensures
            session_wf(final(self).session@),
            final(self).session@ == mode_selected(old(self).session@, mode),
            stop_engine == (mode == GameMode::Puzzle && old(self).engine_state
                != EngineStatus::TurnedOff),
            *final(self) == (OfflinePuzzles { session: final(self).session, ..*old(self) }),
    {
        self.session.select_mode(mode);
        mode == GameMode::Puzzle && self.engine_state != EngineStatus::TurnedOff
    }

    /// The puzzle being played, if puzzles are loaded.
    pub fn current_puzzle(&self) -> (r: Option<&Puzzle>)
        requires
            session_wf(self.session@),
        ensures
            self.session@.puzzles.len() == 0 ==> r is None,
            self.session@.puzzles.len() > 0 ==> r == Some(
                &self.session@.puzzles[self.session@.current_puzzle as int],
            ),
    {
        if self.session.puzzle_tab.puzzles.len() == 0 {
            None
        } else {
            Some(&self.session.puzzle_tab.puzzles[self.session.puzzle_tab.current_puzzle])
        }
    }
}

} // verus!
