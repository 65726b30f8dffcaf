//! The settings tab: what each change of a setting does, and the configuration that
//! "save" writes.
use vstd::prelude::*;
use vstd::string::*;
use crate::config::OfflinePuzzlesConfig;
use crate::decimal::{
    parse_usize, parse_i32, format_u64, format_i64, spec_parse_usize, spec_parse_i32, decimal,
    signed_decimal, lemma_parse_decimal_roundtrip, lemma_parse_signed_roundtrip,
};
use crate::lang::{Language, PickListWrapper};
use crate::styles::{PieceTheme, BoardTheme};

verus! {

/// What the player can change in the settings tab.
#[derive(Debug, Clone)]
pub enum SettingsMessage {
    CheckPlaySound(bool),
    CheckAutoLoad(bool),
    CheckFlipBoard(bool),
    CheckShowCoords(bool),
    SelectPieceTheme(PieceTheme),
    SelectBoardTheme(BoardTheme),
    SelectLanguage(PickListWrapper<Language>),
    ChangePDFExportPgs(String),
    ChangePuzzleDbLocation(String),
    ChangeSearchResultLimit(String),
    ChangeEnginePath(String),
    ChangePressed,
}

/// The settings that are applied at once (without pressing "save").
#[derive(Debug, Clone)]
pub struct SettingsChange {
    pub play_sound: bool,
    pub auto_load: bool,
    pub flip: bool,
    pub coords: bool,
    pub pieces: PieceTheme,
    pub theme: BoardTheme,
    pub engine: String,
    pub lang: Language,
}

/// What the application has to do after the settings tab handled a message.
#[derive(Debug, Clone)]
pub enum SettingsAction {
    /// Nothing.
    Nothing,
    /// Apply these settings to the saved configuration (see `send_changes`) and hand the
    /// result back to the application.
    SendChanges(SettingsChange),
    /// Write this configuration to the settings file, then report with `save_finished`.
    Save(OfflinePuzzlesConfig),
}

/// How writing the settings file went.
#[derive(Debug, Clone, Copy, PartialEq, Eq, Structural)]
pub enum SaveOutcome {
    Saved,
    WriteFailed,
    OpenFailed,
}

/// The settings tab. `settings_status` holds the translation key of the message shown
/// below the "save" button (empty: no message).
#[derive(Debug)]
pub struct SettingsTab {
    pub engine_path: String,
    pub window_width: u32,
    pub window_height: u32,
    pub piece_theme: PieceTheme,
    pub board_theme: BoardTheme,
    pub lang: PickListWrapper<Language>,
    pub export_pgs: String,
    pub theme: BoardTheme,
    pub play_sound: bool,
    pub auto_load_next: bool,
    pub flip_board: bool,
    pub show_coordinates: bool,
    pub puzzle_db_location_value: String,
    pub search_results_limit_value: String,
    pub settings_status: String,
    pub saved_configs: OfflinePuzzlesConfig,
}

/// The engine path as the settings file stores it: none when it is empty.
pub open spec fn stored_engine_path(path: Seq<char>, stored: Option<String>) -> bool {
    match stored {
        None => path.len() == 0,
        Some(p) => path.len() > 0 && p@ == path,
    }
}

impl SettingsTab {
    /// The text fields that "save" reads back as numbers hold numbers.
    pub open spec fn wf(&self) -> bool {
        &&& spec_parse_usize(self.search_results_limit_value@) is Some
        &&& spec_parse_i32(self.export_pgs@) is Some
    }

    /// The tab as it opens with the settings `settings` and the settings file `saved`.
    pub open spec fn opened_with(&self, settings: OfflinePuzzlesConfig, saved: OfflinePuzzlesConfig) -> bool {
        &&& self.engine_path@ == (match settings.engine_path {
            Some(p) => p@,
            None => Seq::<char>::empty(),
        })
        &&& self.window_width == settings.window_width
        &&& self.window_height == settings.window_height
        &&& self.piece_theme == settings.piece_theme
        &&& self.board_theme == settings.board_theme
        &&& self.lang.lang == settings.lang
        &&& self.lang.item == settings.lang
        &&& self.export_pgs@ == signed_decimal(settings.export_pgs as int)
        &&& self.theme == BoardTheme::Blue
        &&& self.play_sound == settings.play_sound
        &&& self.auto_load_next == settings.auto_load_next
        &&& self.flip_board == settings.flip_board
        &&& self.show_coordinates == settings.show_coordinates
        &&& self.puzzle_db_location_value@ == settings.puzzle_db_location@
        &&& self.search_results_limit_value@ == decimal(settings.search_results_limit as nat)
        &&& self.settings_status@.len() == 0
        &&& self.saved_configs == saved
    }

    /// The tab as it opens: the settings the application started with (`settings`) in
    /// its fields, and the settings file as read now (`saved`).
    pub fn new(settings: &OfflinePuzzlesConfig, saved: OfflinePuzzlesConfig) -> (r: Self)
        ensures
            r.wf(),
            r.opened_with(*settings, saved),
    {
        let engine_path = match &settings.engine_path {
            Some(p) => p.clone(),
            None => String::new(),
        };
        let export_pgs = format_i64(settings.export_pgs as i64);
        let limit = format_u64(settings.search_results_limit as u64);
        proof {
            lemma_parse_decimal_roundtrip(settings.search_results_limit as nat);
            lemma_parse_signed_roundtrip(settings.export_pgs as int);
        }
        SettingsTab {
            engine_path,
            window_width: settings.window_width,
            window_height: settings.window_height,
            piece_theme: settings.piece_theme,
            board_theme: settings.board_theme,
            lang: PickListWrapper::new_lang(settings.lang, settings.lang),
            export_pgs,
            theme: BoardTheme::Blue,
            play_sound: settings.play_sound,
            auto_load_next: settings.auto_load_next,
            flip_board: settings.flip_board,
            show_coordinates: settings.show_coordinates,
            puzzle_db_location_value: settings.puzzle_db_location.clone(),
            search_results_limit_value: limit,
            settings_status: String::new(),
            saved_configs: saved,
        }
    }

    /// The settings to apply at once, with the board theme `theme`.
    pub open spec fn spec_change(&self, theme: BoardTheme) -> SettingsChange {
        SettingsChange {
            play_sound: self.play_sound,
            auto_load: self.auto_load_next,
            flip: self.flip_board,
            coords: self.show_coordinates,
            pieces: self.piece_theme,
            theme,
            engine: self.engine_path,
            lang: self.lang.lang,
        }
    }

    fn change(&self, theme: BoardTheme) -> (r: SettingsChange)
        ensures
            r == self.spec_change(theme),
    {
        SettingsChange {
            play_sound: self.play_sound,
            auto_load: self.auto_load_next,
            flip: self.flip_board,
            coords: self.show_coordinates,
            pieces: self.piece_theme,
            theme,
            engine: self.engine_path.clone(),
            lang: self.lang.lang,
        }
    }

    /// The configuration that "save" writes: the tab's fields, the numbers read back from
    /// their text fields, and what the tab does not edit taken from the saved file.
    pub open spec fn spec_saved_config(&self, c: OfflinePuzzlesConfig) -> bool {
        &&& stored_engine_path(self.engine_path@, c.engine_path)
        &&& c.engine_limit == self.saved_configs.engine_limit
        &&& c.window_width == self.window_width
        &&& c.window_height == self.window_height
        &&& c.maximized == self.saved_configs.maximized
        &&& c.puzzle_db_location@ == self.puzzle_db_location_value@
        &&& c.piece_theme == self.piece_theme
        &&& Some(c.search_results_limit) == spec_parse_usize(self.search_results_limit_value@)
        &&& c.play_sound == self.play_sound
        &&& c.auto_load_next == self.auto_load_next
        &&& c.flip_board == self.flip_board
        &&& c.show_coordinates == self.show_coordinates
        &&& c.board_theme == self.board_theme
        &&& c.lang == self.lang.lang
        &&& Some(c.export_pgs) == spec_parse_i32(self.export_pgs@)
        &&& c.last_min_rating == self.saved_configs.last_min_rating
        &&& c.last_max_rating == self.saved_configs.last_max_rating
        &&& c.last_theme == self.saved_configs.last_theme
        &&& c.last_opening == self.saved_configs.last_opening
        &&& c.last_variation == self.saved_configs.last_variation
        &&& c.last_opening_side == self.saved_configs.last_opening_side
    }

    fn saved_config(&self) -> (c: OfflinePuzzlesConfig)
        requires
            self.wf(),
        ensures
            self.spec_saved_config(c),
    {
        let engine_path = if self.engine_path.unicode_len() == 0 {
            None
        } else {
            Some(self.engine_path.clone())
        };
        let search_results_limit = match parse_usize(self.search_results_limit_value.as_str()) {
            Some(v) => v,
            None => 0,
        };
        let export_pgs = match parse_i32(self.export_pgs.as_str()) {
            Some(v) => v,
            None => 0,
        };
        OfflinePuzzlesConfig {
            engine_path,
            engine_limit: self.saved_configs.engine_limit.clone(),
            window_width: self.window_width,
            window_height: self.window_height,
            maximized: self.saved_configs.maximized,
            puzzle_db_location: self.puzzle_db_location_value.clone(),
            piece_theme: self.piece_theme,
            search_results_limit,
            play_sound: self.play_sound,
            auto_load_next: self.auto_load_next,
            flip_board: self.flip_board,
            show_coordinates: self.show_coordinates,
            board_theme: self.board_theme,
            lang: self.lang.lang,
            export_pgs,
            last_min_rating: self.saved_configs.last_min_rating,
            last_max_rating: self.saved_configs.last_max_rating,
            last_theme: self.saved_configs.last_theme,
            last_opening: self.saved_configs.last_opening,
            last_variation: self.saved_configs.last_variation.clone(),
            last_opening_side: self.saved_configs.last_opening_side,
        }
    }
}

impl SettingsTab {
    /// Handles a change made in the settings tab and says what the application has to do.
    pub fn update(&mut self, message: SettingsMessage) -> (r: SettingsAction)
        requires
            old(self).wf(),
        ensures
            final(self).wf(),
            match message {
                SettingsMessage::SelectPieceTheme(v) => {
                    &&& *final(self) == (SettingsTab { piece_theme: v, ..*old(self) })
                    &&& r == SettingsAction::SendChanges(final(self).spec_change(final(self).board_theme))
                },
                SettingsMessage::SelectBoardTheme(v) => {
                    &&& *final(self) == (SettingsTab { board_theme: v, ..*old(self) })
                    &&& r == SettingsAction::SendChanges(final(self).spec_change(final(self).board_theme))
                },
                SettingsMessage::SelectLanguage(v) => {
                    &&& *final(self) == (SettingsTab {
                        lang: PickListWrapper { lang: v.item, item: v.item },
                        ..*old(self)
                    })
                    &&& r == SettingsAction::SendChanges(final(self).spec_change(final(self).board_theme))
                },
                SettingsMessage::ChangePuzzleDbLocation(v) => {
                    &&& *final(self) == (SettingsTab { puzzle_db_location_value: v, ..*old(self) })
                    &&& r == SettingsAction::Nothing
                },
                SettingsMessage::ChangeEnginePath(v) => {
                    &&& *final(self) == (SettingsTab { engine_path: v, ..*old(self) })
                    &&& r == SettingsAction::SendChanges(final(self).spec_change(final(self).board_theme))
                },
                SettingsMessage::ChangeSearchResultLimit(v) => {
                    &&& r == SettingsAction::Nothing
                    &&& if v@.len() == 0 {
                        &&& final(self).search_results_limit_value@ == decimal(0)
                        &&& *final(self) == (SettingsTab {
                            search_results_limit_value: final(self).search_results_limit_value,
                            ..*old(self)
                        })
                    } else if spec_parse_usize(v@) is Some {
                        &&& final(self).search_results_limit_value@ == decimal(
                            spec_parse_usize(v@)->0 as nat,
                        )
                        &&& final(self).settings_status@.len() == 0
                        &&& *final(self) == (SettingsTab {
                            search_results_limit_value: final(self).search_results_limit_value,
                            settings_status: final(self).settings_status,
                            ..*old(self)
                        })
                    } else {
                        *final(self) == *old(self)
                    }
                },
                SettingsMessage::CheckPlaySound(v) => {
                    &&& *final(self) == (SettingsTab { play_sound: v, ..*old(self) })
                    &&& r == SettingsAction::SendChanges(final(self).spec_change(final(self).board_theme))
                },
                SettingsMessage::CheckAutoLoad(v) => {
                    &&& *final(self) == (SettingsTab { auto_load_next: v, ..*old(self) })
                    &&& r == SettingsAction::SendChanges(final(self).spec_change(final(self).board_theme))
                },
                SettingsMessage::CheckFlipBoard(v) => {
                    &&& *final(self) == (SettingsTab { flip_board: v, ..*old(self) })
                    &&& r == SettingsAction::SendChanges(final(self).spec_change(final(self).board_theme))
                },
                SettingsMessage::CheckShowCoords(v) => {
                    &&& *final(self) == (SettingsTab { show_coordinates: v, ..*old(self) })
                    &&& r == SettingsAction::Nothing
                },
                SettingsMessage::ChangePDFExportPgs(v) => {
                    &&& r == SettingsAction::Nothing
                    &&& if spec_parse_i32(v@) is Some {
                        *final(self) == (SettingsTab { export_pgs: v, ..*old(self) })
                    } else if v@.len() == 0 {
                        &&& final(self).export_pgs@ == signed_decimal(0)
                        &&& *final(self) == (SettingsTab { export_pgs: final(self).export_pgs, ..*old(self) })
                    } else {
                        *final(self) == *old(self)
                    }
                },
                SettingsMessage::ChangePressed => {
                    &&& *final(self) == *old(self)
                    &&& (r matches SettingsAction::Save(c) && old(self).spec_saved_config(c))
                },
            },
    {
        match message {
            SettingsMessage::SelectPieceTheme(value) => {
                self.piece_theme = value;
                SettingsAction::SendChanges(self.change(self.board_theme))
            },
            SettingsMessage::SelectBoardTheme(value) => {
                self.board_theme = value;
                SettingsAction::SendChanges(self.change(self.board_theme))
            },
            SettingsMessage::SelectLanguage(value) => {
                self.lang = value;
                self.lang.lang = self.lang.item;
                SettingsAction::SendChanges(self.change(self.board_theme))
            },
            SettingsMessage::ChangePuzzleDbLocation(value) => {
                self.puzzle_db_location_value = value;
                SettingsAction::Nothing
            },
            SettingsMessage::ChangeEnginePath(value) => {
                self.engine_path = value;
                SettingsAction::SendChanges(self.change(self.board_theme))
            },
            SettingsMessage::ChangeSearchResultLimit(value) => {
                if value.unicode_len() == 0 {
                    self.search_results_limit_value = format_u64(0);
                    proof {
                        lemma_parse_decimal_roundtrip(0);
                    }
                } else {
                    match parse_usize(value.as_str()) {
                        Some(new_val) => {
                            self.search_results_limit_value = format_u64(new_val as u64);
                            self.settings_status = String::new();
                            proof {
                                lemma_parse_decimal_roundtrip(new_val as nat);
                            }
                        },
                        None => {},
                    }
                }
                SettingsAction::Nothing
            },
            SettingsMessage::CheckPlaySound(value) => {
                self.play_sound = value;
                SettingsAction::SendChanges(self.change(self.board_theme))
            },
            SettingsMessage::CheckAutoLoad(value) => {
                self.auto_load_next = value;
                SettingsAction::SendChanges(self.change(self.board_theme))
            },
            SettingsMessage::CheckFlipBoard(value) => {
                self.flip_board = value;
                SettingsAction::SendChanges(self.change(self.board_theme))
            },
            SettingsMessage::CheckShowCoords(value) => {
                self.show_coordinates = value;
                SettingsAction::Nothing
            },
            SettingsMessage::ChangePDFExportPgs(value) => {
                if parse_i32(value.as_str()).is_some() {
                    self.export_pgs = value;
                } else if value.unicode_len() == 0 {
                    self.export_pgs = format_i64(0);
                    proof {
                        lemma_parse_signed_roundtrip(0);
                    }
                }
                SettingsAction::Nothing
            },
            SettingsMessage::ChangePressed => SettingsAction::Save(self.saved_config()),
        }
    }

    /// Shows how writing the settings file went (by the translation key of the message).
    pub fn save_finished(&mut self, outcome: SaveOutcome)
        ensures
            *final(self) == (SettingsTab { settings_status: final(self).settings_status, ..*old(self) }),
            final(self).settings_status@ == (match outcome {
                SaveOutcome::Saved => "settings_saved"@,
                SaveOutcome::WriteFailed => "error_saving"@,
                SaveOutcome::OpenFailed => "error_reading_config"@,
            }),
    {
        self.settings_status = match outcome {
            SaveOutcome::Saved => String::from_str("settings_saved"),
            SaveOutcome::WriteFailed => String::from_str("error_saving"),
            SaveOutcome::OpenFailed => String::from_str("error_reading_config"),
        };
    }

    /// The saved configuration `config` with the settings that apply at once: the
    /// engine path is stored as none when it is empty.
    pub fn send_changes(
        config: OfflinePuzzlesConfig,
        play_sound: bool,
        auto_load: bool,
        flip: bool,
        coords: bool,
        pieces: PieceTheme,
        theme: BoardTheme,
        engine: String,
        lang: Language,
    ) -> (r: OfflinePuzzlesConfig)
        ensures
            stored_engine_path(engine@, r.engine_path),
            r == (OfflinePuzzlesConfig {
                board_theme: theme,
                piece_theme: pieces,
                lang,
                play_sound,
                auto_load_next: auto_load,
                flip_board: flip,
                show_coordinates: coords,
                engine_path: r.engine_path,
                ..config
            }),
    {
        let engine = if engine.unicode_len() == 0 {
            None
        } else {
            Some(engine)
        };
        let mut config = config;
        config.board_theme = theme;
        config.piece_theme = pieces;
        config.lang = lang;
        config.play_sound = play_sound;
        config.auto_load_next = auto_load;
        config.flip_board = flip;
        config.show_coordinates = coords;
        config.engine_path = engine;
        config
    }
}


/// Saved settings come back the next time the tab opens: the same choices, the same texts
/// for the engine and the database, and the numbers of the text fields read back as the
/// same numbers, and the window keeps its size.
pub proof fn lemma_saved_settings_reopen(
    tab: SettingsTab,
    c: OfflinePuzzlesConfig,
    next: SettingsTab,
    saved: OfflinePuzzlesConfig,
)
    requires
        tab.wf(),
        tab.spec_saved_config(c),
        next.opened_with(c, saved),
    ensures
        next.wf(),
        next.engine_path@ == tab.engine_path@,
        next.window_width == tab.window_width,
        next.window_height == tab.window_height,
        next.piece_theme == tab.piece_theme,
        next.board_theme == tab.board_theme,
        next.lang.item == tab.lang.lang,
        next.play_sound == tab.play_sound,
        next.auto_load_next == tab.auto_load_next,
        next.flip_board == tab.flip_board,
        next.show_coordinates == tab.show_coordinates,
        next.puzzle_db_location_value@ == tab.puzzle_db_location_value@,
        spec_parse_i32(next.export_pgs@) == spec_parse_i32(tab.export_pgs@),
        spec_parse_usize(next.search_results_limit_value@) == spec_parse_usize(
            tab.search_results_limit_value@,
        ),
{
    lemma_parse_signed_roundtrip(c.export_pgs as int);
    lemma_parse_decimal_roundtrip(c.search_results_limit as nat);
}

} // verus!
