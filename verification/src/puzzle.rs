//! Puzzles of the lichess database and the tab that shows the current one.
use vstd::prelude::*;
use vstd::string::*;
use crate::board::{Piece, Side};
use crate::lang::Language;
use vstd::utf8::is_char_boundary;
use vstd::string::StringSliceAdditionalSpecFns;

verus! {

/// A puzzle as the lichess puzzle database describes it: the position before the
/// opponent's last move (`fen`), the moves in UCI coordinates (the opponent's move first,
/// then the solution), and the puzzle's statistics and tags.
#[derive(Debug, Clone)]
pub struct Puzzle {
    pub puzzle_id: String,
    pub fen: String,
    pub moves: String,
    pub rating: i32,
    pub rating_deviation: i32,
    pub popularity: i32,
    pub nb_plays: i32,
    pub themes: String,
    pub game_url: String,
    pub opening: String,
}

/// Whether the board shows the puzzle or a free analysis board.
#[derive(Debug, Clone, Copy, PartialEq, Eq, Structural)]
pub enum GameMode {
    Puzzle,
    Analysis,
}

/// Where the player stands with the puzzles that were loaded.
#[derive(Debug, Clone, Copy, PartialEq, Eq, Structural)]
pub enum GameStatus {
    Playing,
    PuzzleEnded,
    NoPuzzles,
}

/// What the puzzle tab can be asked to do.
#[derive(Debug, Clone)]
pub enum PuzzleMessage {
    ChangeTextInputs(String),
    CopyText(String),
}

/// The tab that shows the current puzzle and the puzzles that were found.
#[derive(Debug, Clone)]
pub struct PuzzleTab {
    pub puzzles: Vec<Puzzle>,
    pub current_puzzle: usize,
    pub current_puzzle_move: usize,
    pub current_puzzle_side: Side,
    pub game_status: GameStatus,
    pub current_puzzle_fen: String,
    pub lang: Language,
}

/// The promotion that UCI coordinates (as bytes) ask for: none when they are four bytes
/// or fewer, else the fifth byte decides (`r`, `n`, `b`; anything else is a queen).
pub open spec fn spec_check_promotion(b: Seq<u8>) -> Option<Piece> {
    if b.len() > 4 {
        if b[4] == 114 {
            Some(Piece::Rook)
        } else if b[4] == 110 {
            Some(Piece::Knight)
        } else if b[4] == 98 {
            Some(Piece::Bishop)
        } else {
            Some(Piece::Queen)
        }
    } else {
        None
    }
}

/// Coordinates whose fifth byte `check_promotion` can read: when there are more than four
/// bytes, the fifth byte is a whole character.
pub open spec fn promotion_readable(b: Seq<u8>) -> bool {
    b.len() > 4 ==> is_char_boundary(b, 4) && is_char_boundary(b, 5)
}

impl PuzzleTab {
    /// An empty tab in the language `lang`: no puzzles, White to move, at the first move.
    pub fn new(lang: Language) -> (r: Self)
        ensures
            r.puzzles@.len() == 0,
            r.current_puzzle == 0,
            r.current_puzzle_move == 1,
            r.current_puzzle_side == Side::White,
            r.game_status == GameStatus::NoPuzzles,
            r.current_puzzle_fen@.len() == 0,
            r.lang == lang,
    {
        PuzzleTab {
            puzzles: Vec::new(),
            current_puzzle: 0,
            current_puzzle_move: 1,
            current_puzzle_side: Side::White,
            game_status: GameStatus::NoPuzzles,
            current_puzzle_fen: String::new(),
            lang,
        }
    }

    /// The piece a move in UCI coordinates promotes to, if it promotes.
    pub fn check_promotion(notation: &str) -> (r: Option<Piece>)
        requires
            promotion_readable(notation.spec_bytes()),
        ensures
            r == spec_check_promotion(notation.spec_bytes()),
    {
        let b = notation.as_bytes();
        if b.len() > 4 {
            if b[4] == 114 {
                Some(Piece::Rook)
            } else if b[4] == 110 {
                Some(Piece::Knight)
            } else if b[4] == 98 {
                Some(Piece::Bishop)
            } else {
                Some(Piece::Queen)
            }
        } else {
            None
        }
    }

    /// The lichess page of the current puzzle (none when no puzzle is loaded).
    pub fn puzzle_link(&self) -> (r: Option<String>)
        ensures
            self.current_puzzle < self.puzzles@.len() ==> (r matches Some(l) && l@
                == "https://lichess.org/training/"@ + self.puzzles@[self.current_puzzle as int].puzzle_id@),
            self.current_puzzle >= self.puzzles@.len() ==> r is None,
    {
        if self.current_puzzle < self.puzzles.len() {
            Some(
                String::from_str("https://lichess.org/training/").concat(
                    self.puzzles[self.current_puzzle].puzzle_id.as_str(),
                ),
            )
        } else {
            None
        }
    }

    /// Whether puzzles are loaded (being played or finished).
    pub fn is_playing(&self) -> (r: bool)
        ensures
            r == (self.game_status != GameStatus::NoPuzzles),
    {
        self.game_status != GameStatus::NoPuzzles
    }

    /// Handles a message of the tab: the text to put on the clipboard, if any.
    pub fn update(&mut self, message: PuzzleMessage) -> (r: Option<String>)
        ensures
            *final(self) == *old(self),
            match message {
                PuzzleMessage::ChangeTextInputs(_) => r is None,
                PuzzleMessage::CopyText(text) => r == Some(text),
            },
    {
        match message {
            PuzzleMessage::ChangeTextInputs(_) => None,
            PuzzleMessage::CopyText(text) => Some(text),
        }
    }
}

} // verus!
