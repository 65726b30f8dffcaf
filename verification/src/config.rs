//! The settings that the application remembers between runs.
use vstd::prelude::*;
use vstd::string::*;
use crate::lang::Language;
use crate::openings::{Openings, Variation, any_variation_name};
use crate::styles::{PieceTheme, BoardTheme};
use crate::themes::{TaticsThemes, OpeningSide};

verus! {

/// The settings file of the application.
#[derive(Debug, Clone)]
pub struct OfflinePuzzlesConfig {
    pub engine_path: Option<String>,
    pub engine_limit: String,
    pub window_width: u32,
    pub window_height: u32,
    pub maximized: bool,
    pub puzzle_db_location: String,
    pub piece_theme: PieceTheme,
    pub search_results_limit: usize,
    pub play_sound: bool,
    pub auto_load_next: bool,
    pub flip_board: bool,
    pub show_coordinates: bool,
    pub board_theme: BoardTheme,
    pub lang: Language,
    pub export_pgs: i32,
    pub last_min_rating: i32,
    pub last_max_rating: i32,
    pub last_theme: TaticsThemes,
    pub last_opening: Openings,
    pub last_variation: Variation,
    pub last_opening_side: Option<OpeningSide>,
}

impl OfflinePuzzlesConfig {
    /// The settings of a first run.
    pub open spec fn is_default(self) -> bool {
        &&& self.engine_path is None
        &&& self.engine_limit@ == "depth 40"@
        &&& self.window_width == 1010
        &&& self.window_height == 680
        &&& !self.maximized
        &&& self.puzzle_db_location@ == "puzzles/lichess_db_puzzle.csv"@
        &&& self.piece_theme == PieceTheme::Cburnett
        &&& self.search_results_limit == 20000
        &&& self.play_sound
        &&& self.auto_load_next
        &&& !self.flip_board
        &&& !self.show_coordinates
        &&& self.board_theme == BoardTheme::Blue
        &&& self.lang == Language::English
        &&& self.export_pgs == 50
        &&& self.last_min_rating == 0
        &&& self.last_max_rating == 1000
        &&& self.last_theme == TaticsThemes::All
        &&& self.last_opening == Openings::Any
        &&& self.last_variation.name@ == any_variation_name()
        &&& self.last_variation.family == Openings::Any
        &&& self.last_opening_side == Some(OpeningSide::Any)
    }

    /// The settings read from the settings file, or those of a first run when the file
    /// could not be read (as `load_config` falls back).
    pub fn or_default(read: Option<OfflinePuzzlesConfig>) -> (r: OfflinePuzzlesConfig)
        ensures
            match read {
                Some(c) => r == c,
                None => r.is_default(),
            },
    {
        match read {
            Some(c) => c,
            None => OfflinePuzzlesConfig::default(),
        }
    }
}

impl OfflinePuzzlesConfig {
    /// The settings with the window size `width` by `height` remembered.
    pub fn with_window_size(self, width: u32, height: u32) -> (r: OfflinePuzzlesConfig)
        ensures
            r == (OfflinePuzzlesConfig { window_width: width, window_height: height, ..self }),
    {
        let mut c = self;
        c.window_width = width;
        c.window_height = height;
        c
    }

    /// The settings with the last search remembered: its rating range, theme, opening,
    /// variation and side.
    pub fn with_last_search(
        self,
        min_rating: i32,
        max_rating: i32,
        theme: TaticsThemes,
        opening: Openings,
        variation: Variation,
        op_side: Option<OpeningSide>,
    ) -> (r: OfflinePuzzlesConfig)
        ensures
            r == (OfflinePuzzlesConfig {
                last_min_rating: min_rating,
                last_max_rating: max_rating,
                last_theme: theme,
                last_opening: opening,
                last_variation: variation,
                last_opening_side: op_side,
                ..self
            }),
    {
        let mut c = self;
        c.last_min_rating = min_rating;
        c.last_max_rating = max_rating;
        c.last_theme = theme;
        c.last_opening = opening;
        c.last_variation = variation;
        c.last_opening_side = op_side;
        c
    }
}

impl Default for OfflinePuzzlesConfig {
    /// The settings of a first run.
    fn default() -> (r: OfflinePuzzlesConfig)
        ensures
            r.is_default(),
    {
        OfflinePuzzlesConfig {
            engine_path: None,
            engine_limit: String::from_str("depth 40"),
            window_width: 1010,
            window_height: 680,
            maximized: false,
            puzzle_db_location: String::from_str("puzzles/lichess_db_puzzle.csv"),
            piece_theme: PieceTheme::Cburnett,
            search_results_limit: 20000,
            play_sound: true,
            auto_load_next: true,
            flip_board: false,
            show_coordinates: false,
            board_theme: BoardTheme::Blue,
            lang: Language::English,
            export_pgs: 50,
            last_min_rating: 0,
            last_max_rating: 1000,
            last_theme: TaticsThemes::All,
            last_opening: Openings::Any,
            last_variation: Variation::any(),
            last_opening_side: Some(OpeningSide::Any),
        }
    }
}

} // verus!
