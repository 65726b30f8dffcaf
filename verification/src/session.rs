//! Playing puzzles: loading a puzzle (the opponent's move is played first), judging the
//! player's moves against the solution, answering with the opponent's replies, moving
//! on to the next puzzle, and the free analysis board.
use vstd::prelude::*;
use rand::seq::SliceRandom;
use vstd::string::*;
use crate::board::{
    Piece, Side, Move, BoardStatus, chess_piece_on, chess_color_on, chess_side_to_move, chess_legal,
    chess_make_move, chess_status, chess_playable, color_on, side_to_move, is_legal, is_playable,
    make_move, board_status,
};
use crate::lang::Language;
use crate::notation::{
    is_file_char, is_rank_char, square_index, square_of, ep_fixable, spec_san_correct_ep,
    san_correct_ep, get_notation_string,
};
use crate::puzzle::{GameMode, GameStatus, Puzzle, PuzzleTab, spec_check_promotion, promotion_readable};
use crate::text::{chars_of, words, views, split_whitespace};

verus! {

broadcast use vstd::string::group_string_axioms;

/// The position of a new game, as the `chess` crate prints it.
pub open spec fn start_fen() -> Seq<char> {
    "rnbqkbnr/pppppppp/8/8/8/8/PPPPPPPP/RNBQKBNR w KQkq - 0 1"@
}

/// A move in UCI coordinates that the puzzle player can read: two squares, and a fifth
/// byte that is a whole character when there is one.
pub open spec fn uci_ok(w: Seq<char>) -> bool {
    &&& w.len() >= 4
    &&& is_file_char(w[0])
    &&& is_rank_char(w[1])
    &&& is_file_char(w[2])
    &&& is_rank_char(w[3])
    &&& promotion_readable(vstd::utf8::encode_utf8(w))
}

/// The move that UCI coordinates denote.
pub open spec fn uci_move(w: Seq<char>) -> Move {
    Move {
        source: square_index(w[0], w[1]) as u8,
        dest: square_index(w[2], w[3]) as u8,
        promotion: spec_check_promotion(vstd::utf8::encode_utf8(w)),
    }
}

/// The moves of a puzzle: the opponent's move that sets it up, then the solution with the
/// opponent's replies.
pub open spec fn puzzle_moves(p: Puzzle) -> Seq<Seq<char>> {
    words(p.moves@)
}

/// Whether a puzzle can be set up: it has a first move, readable and playable in its
/// position (legal or not, the listed move is played as it stands).
pub open spec fn puzzle_startable(p: Puzzle) -> bool {
    &&& puzzle_moves(p).len() > 0
    &&& uci_ok(puzzle_moves(p)[0])
    &&& chess_playable(p.fen@, uci_move(puzzle_moves(p)[0]))
}

/// The message key that says whose move it is.
pub open spec fn to_move_key(fen: Seq<char>) -> Seq<char> {
    if chess_side_to_move(fen) == Some(Side::White) {
        "white_to_move"@
    } else {
        "black_to_move"@
    }
}

/// The side to move, as the puzzle tab records it.
pub open spec fn side_of(fen: Seq<char>) -> Side {
    if chess_side_to_move(fen) == Some(Side::White) {
        Side::White
    } else {
        Side::Black
    }
}

/// What a played puzzle looks like, in mathematical terms.
pub struct SessionView {
    pub from_square: Option<u8>,
    pub board: Seq<char>,
    pub last_move_from: Option<u8>,
    pub last_move_to: Option<u8>,
    pub hint_square: Option<u8>,
    pub status: Seq<char>,
    pub analysis: Seq<char>,
    pub history: Seq<Seq<char>>,
    pub game_mode: GameMode,
    pub puzzles: Seq<Puzzle>,
    pub current_puzzle: usize,
    pub current_puzzle_move: usize,
    pub side: Side,
    pub game_status: GameStatus,
    pub fen_shown: Seq<char>,
    pub lang: Language,
}

/// The puzzle board and the analysis board. `puzzle_status` holds the translation key of
/// the message shown under the board.
#[derive(Debug)]
pub struct PuzzleSession {
    pub from_square: Option<u8>,
    pub board: String,
    pub last_move_from: Option<u8>,
    pub last_move_to: Option<u8>,
    pub hint_square: Option<u8>,
    pub puzzle_status: String,
    pub analysis: String,
    pub analysis_history: Vec<String>,
    pub game_mode: GameMode,
    pub puzzle_tab: PuzzleTab,
}

impl View for PuzzleSession {
    type V = SessionView;

    open spec fn view(&self) -> SessionView {
        SessionView {
            from_square: self.from_square,
            board: self.board@,
            last_move_from: self.last_move_from,
            last_move_to: self.last_move_to,
            hint_square: self.hint_square,
            status: self.puzzle_status@,
            analysis: self.analysis@,
            history: views(self.analysis_history@),
            game_mode: self.game_mode,
            puzzles: self.puzzle_tab.puzzles@,
            current_puzzle: self.puzzle_tab.current_puzzle,
            current_puzzle_move: self.puzzle_tab.current_puzzle_move,
            side: self.puzzle_tab.current_puzzle_side,
            game_status: self.puzzle_tab.game_status,
            fen_shown: self.puzzle_tab.current_puzzle_fen@,
            lang: self.puzzle_tab.lang,
        }
    }
}

/// The puzzle `idx` set up: its position after the opponent's first move, that move
/// marked, the history restarted, the side to move announced, at the first move to find.
pub open spec fn puzzle_started(v: SessionView, idx: int) -> SessionView {
    let p = v.puzzles[idx];
    let m = uci_move(puzzle_moves(p)[0]);
    let b = chess_make_move(p.fen@, m);
    SessionView {
        current_puzzle: idx as usize,
        current_puzzle_move: 1,
        board: b,
        last_move_from: Some(m.source),
        last_move_to: Some(m.dest),
        history: seq![b],
        status: to_move_key(b),
        side: side_of(b),
        ..v
    }
}

/// Puzzle `idx` started and shown: its corrected FEN displayed, being played.
pub open spec fn puzzle_shown(v: SessionView, idx: int) -> SessionView {
    let s = puzzle_started(v, idx);
    SessionView { fen_shown: displayed_fen(s.board), game_status: GameStatus::Playing, ..s }
}

/// The history of the analysis board is never empty, the player is always at a move of
/// the solution (the first move of a puzzle is the opponent's), the current puzzle is one
/// of those loaded, and a selected square is a square.
pub open spec fn session_wf(v: SessionView) -> bool {
    &&& v.history.len() >= 1
    &&& v.current_puzzle_move >= 1
    &&& v.puzzles.len() > 0 ==> v.current_puzzle < v.puzzles.len()
    &&& v.puzzles.len() <= usize::MAX
    &&& v.from_square matches Some(f) ==> f < 64
}

/// The position as the interface shows it and hands it to engines: with its en-passant
/// field corrected (a position whose fields cannot be corrected is shown as it is).
pub open spec fn displayed_fen(fen: Seq<char>) -> Seq<char> {
    if ep_fixable(fen) {
        spec_san_correct_ep(fen)
    } else {
        fen
    }
}

/// Whether the en-passant field of `fen` can be corrected.
pub fn is_ep_fixable(fen: &String) -> (r: bool)
    ensures
        r == ep_fixable(fen@),
{
    let w = split_whitespace(fen.as_str());
    if w.len() < 4 {
        return false;
    }
    proof {
        assert(views(w@)[3] == w@[3]@);
    }
    if w[3] == String::from_str("-") {
        return true;
    }
    let t = chars_of(w[3].as_str());
    t.len() >= 2 && (t[0] as u32) < 128 && '0' <= t[1] && t[1] <= '9'
}

/// The position as the interface shows it and hands it to engines.
pub fn shown_fen(fen: &String) -> (r: String)
    ensures
        r@ == displayed_fen(fen@),
{
    if is_ep_fixable(fen) {
        san_correct_ep(fen.clone())
    } else {
        fen.clone()
    }
}

/// `SliceRandom::shuffle` of the `rand` crate with the thread's generator: the result
/// depends on chance, so the contract only says that the puzzles are the same ones,
/// in some order (the crate's source swaps elements).
#[verifier::external_body]
fn shuffle_puzzles(v: &mut Vec<Puzzle>)
    ensures
        final(v)@.to_multiset() == old(v)@.to_multiset(),
{
    v.shuffle(&mut rand::thread_rng());
}

/// Reads UCI coordinates.
pub fn parse_uci(w: &String) -> (r: Option<Move>)
    ensures
        r is Some <==> uci_ok(w@),
        r matches Some(m) ==> m == uci_move(w@) && m.source < 64 && m.dest < 64,
{
    let c = chars_of(w.as_str());
    if c.len() < 4 {
        return None;
    }
    if !('a' <= c[0] && c[0] <= 'h' && '1' <= c[1] && c[1] <= '8' && 'a' <= c[2] && c[2] <= 'h'
        && '1' <= c[3] && c[3] <= '8') {
        return None;
    }
    let s = w.as_str();
    let bytes = s.as_bytes();
    if bytes.len() > 4 && !(s.is_char_boundary(4) && s.is_char_boundary(5)) {
        return None;
    }
    let promotion = PuzzleTab::check_promotion(s);
    Some(Move { source: square_of(c[0], c[1]), dest: square_of(c[2], c[3]), promotion })
}

/// The session as the application starts: no puzzle loaded, the start position on both
/// boards, in puzzle mode, and the message asks the player to search.
pub open spec fn new_session_view(lang: Language) -> SessionView {
    SessionView {
        from_square: None,
        board: start_fen(),
        last_move_from: None,
        last_move_to: None,
        hint_square: None,
        status: "use_search"@,
        analysis: start_fen(),
        history: seq![start_fen()],
        game_mode: GameMode::Puzzle,
        puzzles: seq![],
        current_puzzle: 0,
        current_puzzle_move: 1,
        side: Side::White,
        game_status: GameStatus::NoPuzzles,
        fen_shown: seq![],
        lang,
    }
}

impl PuzzleSession {
    /// No puzzle loaded: the start position on both boards, in puzzle mode; the
    /// message asks the player to search.
    pub fn new(lang: Language) -> (r: Self)
        ensures
            session_wf(r@),
            r@ == new_session_view(lang),
    {
        let start = String::from_str("rnbqkbnr/pppppppp/8/8/8/8/PPPPPPPP/RNBQKBNR w KQkq - 0 1");
        let mut history: Vec<String> = Vec::new();
        history.push(start.clone());
        let r = PuzzleSession {
            from_square: None,
            board: start.clone(),
            last_move_from: None,
            last_move_to: None,
            hint_square: None,
            puzzle_status: String::from_str("use_search"),
            analysis: start,
            analysis_history: history,
            game_mode: GameMode::Puzzle,
            puzzle_tab: PuzzleTab::new(lang),
        };
        proof {
            assert(r@.history =~= seq![start_fen()]);
            assert(r@.puzzles =~= seq![]);
            assert(r@.fen_shown =~= seq![]);
            assert(r@ =~= new_session_view(lang));
        }
        r
    }
}

/// No puzzle could be loaded: the start position, nothing marked, nothing to play.
pub open spec fn no_puzzle(v: SessionView) -> SessionView {
    SessionView {
        board: start_fen(),
        last_move_from: None,
        last_move_to: None,
        game_status: GameStatus::NoPuzzles,
        status: "no_puzzle_found"@,
        ..v
    }
}

/// The square a hint points at: the origin square of the next move of the solution
/// (none when the solution has no further move, or that move does not start with a
/// square, or no puzzle is loaded).
pub open spec fn hint_for(v: SessionView) -> Option<u8> {
    if v.current_puzzle < v.puzzles.len() {
        let ws = puzzle_moves(v.puzzles[v.current_puzzle as int]);
        if ws.len() > v.current_puzzle_move {
            let w = ws[v.current_puzzle_move as int];
            if w.len() >= 2 && is_file_char(w[0]) && is_rank_char(w[1]) {
                Some(square_index(w[0], w[1]) as u8)
            } else {
                None
            }
        } else {
            None
        }
    } else {
        None
    }
}

/// A move can be taken back: on the analysis board, while the history reaches past the
/// puzzle's current move.
pub open spec fn can_take_back(v: SessionView) -> bool {
    v.game_mode == GameMode::Analysis && v.history.len() > v.current_puzzle_move
}

/// The session after taking back a move: the history loses its last position and the
/// analysis board shows the one before (nothing changes when no move can be taken back).
pub open spec fn taken_back(v: SessionView) -> SessionView {
    if can_take_back(v) {
        let h = v.history.drop_last();
        SessionView { history: h, analysis: h.last(), ..v }
    } else {
        v
    }
}

/// The session `after` loading the puzzles `found` that a search returned into `v`: the
/// selection is cleared and the puzzle board shown; the found puzzles are kept, in some
/// order, and the first one is set up and shown (when it cannot be, the start position is
/// shown with the message that no puzzle was found); when nothing was found, the start
/// position is shown with that message and the previous puzzles stay.
pub open spec fn loaded(v: SessionView, found: Option<Vec<Puzzle>>, after: SessionView) -> bool {
    let base = SessionView { from_square: None, game_mode: GameMode::Puzzle, ..v };
    let with = SessionView { puzzles: after.puzzles, current_puzzle: 0, current_puzzle_move: 1, ..base };
    match found {
        Some(f) => if f.len() > 0 {
            &&& after.puzzles.to_multiset() == f@.to_multiset()
            &&& after.puzzles.len() > 0
            &&& puzzle_startable(after.puzzles[0]) ==> after == puzzle_shown(with, 0)
            &&& !puzzle_startable(after.puzzles[0]) ==> after == no_puzzle(with)
        } else {
            after == no_puzzle(base)
        },
        None => after == no_puzzle(base),
    }
}

/// The session after switching `v` to `mode`: the analysis board starts from the puzzle's
/// position; back on the puzzle, the positions analysed after the puzzle's current move
/// are dropped.
pub open spec fn mode_selected(v: SessionView, mode: GameMode) -> SessionView {
    if mode == GameMode::Analysis {
        SessionView { game_mode: mode, analysis: v.board, ..v }
    } else {
        SessionView {
            game_mode: mode,
            history: if v.current_puzzle_move < v.history.len() {
                v.history.take(v.current_puzzle_move as int)
            } else {
                v.history
            },
            ..v
        }
    }
}

impl PuzzleSession {
    /// Sets up puzzle `idx` when its first move can be played; says whether it could.
    fn start_puzzle(&mut self, idx: usize) -> (ok: bool)
        requires
            session_wf(old(self)@),
        ensures
            session_wf(final(self)@),
            ok == (idx < old(self)@.puzzles.len() && puzzle_startable(old(self)@.puzzles[idx as int])),
            ok ==> final(self)@ == puzzle_started(old(self)@, idx as int),
            !ok ==> final(self)@ == old(self)@,
    {
        if idx >= self.puzzle_tab.puzzles.len() {
            return false;
        }
        let moves = split_whitespace(self.puzzle_tab.puzzles[idx].moves.as_str());
        if moves.len() == 0 {
            return false;
        }
        proof {
            assert(views(moves@)[0] == moves@[0]@);
        }
        let m = match parse_uci(&moves[0]) {
            Some(m) => m,
            None => return false,
        };
        if !is_playable(self.puzzle_tab.puzzles[idx].fen.as_str(), m) {
            return false;
        }
        let b = make_move(self.puzzle_tab.puzzles[idx].fen.as_str(), m);
        let white = match side_to_move(b.as_str()) {
            Some(Side::White) => true,
            _ => false,
        };
        self.puzzle_tab.current_puzzle = idx;
        self.puzzle_tab.current_puzzle_move = 1;
        self.last_move_from = Some(m.source);
        self.last_move_to = Some(m.dest);
        let mut history: Vec<String> = Vec::new();
        history.push(b.clone());
        self.analysis_history = history;
        if white {
            self.puzzle_status = String::from_str("white_to_move");
            self.puzzle_tab.current_puzzle_side = Side::White;
        } else {
            self.puzzle_status = String::from_str("black_to_move");
            self.puzzle_tab.current_puzzle_side = Side::Black;
        }
        self.board = b;
        proof {
            assert(self@.history =~= seq![self.board@]);
            assert(self@ =~= puzzle_started(old(self)@, idx as int));
        }
        true
    }

    /// Shows the puzzle being played: its corrected position and the playing status.
    fn show_started(&mut self)
        ensures
            final(self)@ == (SessionView {
                fen_shown: displayed_fen(old(self)@.board),
                game_status: GameStatus::Playing,
                ..old(self)@
            }),
    {
        self.puzzle_tab.current_puzzle_fen = shown_fen(&self.board);
        self.puzzle_tab.game_status = GameStatus::Playing;
    }

    /// Loads the puzzles that a search found, in a random order, and sets up the first
    /// one. When nothing was found (or the first puzzle cannot be set up) the board goes
    /// back to the start position and the message says that no puzzle was found.
    /// The application stops the engine, as a new search always does.
    pub fn load_puzzles(&mut self, found: Option<Vec<Puzzle>>)
        requires
            session_wf(old(self)@),
        ensures
            session_wf(final(self)@),
            loaded(old(self)@, found, final(self)@),
    {
        self.from_square = None;
        self.game_mode = GameMode::Puzzle;
        let mut started = false;
        if let Some(puzzles) = found {
            if puzzles.len() > 0 {
                let mut puzzles = puzzles;
                shuffle_puzzles(&mut puzzles);
                proof {
                    broadcast use vstd::seq_lib::group_to_multiset_ensures;
                    assert(puzzles@.len() == puzzles@.to_multiset().len());
                }
                self.puzzle_tab.puzzles = puzzles;
                self.puzzle_tab.current_puzzle_move = 1;
                self.puzzle_tab.current_puzzle = 0;
                if self.start_puzzle(0) {
                    self.show_started();
                    started = true;
                }
            }
        }
        if !started {
            self.board = String::from_str("rnbqkbnr/pppppppp/8/8/8/8/PPPPPPPP/RNBQKBNR w KQkq - 0 1");
            self.last_move_from = None;
            self.last_move_to = None;
            self.puzzle_tab.game_status = GameStatus::NoPuzzles;
            self.puzzle_status = String::from_str("no_puzzle_found");
        }
    }

    /// Moves on to the next puzzle (in puzzle mode); says whether there was one that
    /// could be set up (else nothing changes).
    pub fn next_puzzle(&mut self) -> (ok: bool)
        requires
            session_wf(old(self)@),
        ensures
            session_wf(final(self)@),
            ok == (old(self)@.current_puzzle + 1 < old(self)@.puzzles.len() && puzzle_startable(
                old(self)@.puzzles[old(self)@.current_puzzle + 1],
            )),
            ok ==> final(self)@ == (SessionView {
                game_mode: GameMode::Puzzle,
                ..puzzle_shown(old(self)@, old(self)@.current_puzzle + 1)
            }),
            !ok ==> final(self)@ == old(self)@,
    {
        if self.puzzle_tab.current_puzzle >= self.puzzle_tab.puzzles.len() {
            return false;
        }
        let idx = self.puzzle_tab.current_puzzle + 1;
        if self.start_puzzle(idx) {
            self.show_started();
            self.game_mode = GameMode::Puzzle;
            true
        } else {
            false
        }
    }

    /// Goes back to the previous puzzle (only in puzzle mode); says whether it did.
    pub fn previous_puzzle(&mut self) -> (ok: bool)
        requires
            session_wf(old(self)@),
        ensures
            session_wf(final(self)@),
            ok == (old(self)@.current_puzzle > 0 && old(self)@.game_mode == GameMode::Puzzle
                && old(self)@.current_puzzle - 1 < old(self)@.puzzles.len() && puzzle_startable(
                old(self)@.puzzles[old(self)@.current_puzzle - 1],
            )),
            ok ==> final(self)@ == puzzle_shown(old(self)@, old(self)@.current_puzzle - 1),
            !ok ==> final(self)@ == old(self)@,
    {
        if self.puzzle_tab.current_puzzle > 0 && self.game_mode == GameMode::Puzzle {
            let idx = self.puzzle_tab.current_puzzle - 1;
            if self.start_puzzle(idx) {
                self.show_started();
                return true;
            }
        }
        false
    }

    /// Starts the current puzzle again; says whether it could be set up.
    pub fn redo_puzzle(&mut self) -> (ok: bool)
        requires
            session_wf(old(self)@),
        ensures
            session_wf(final(self)@),
            ok == (old(self)@.current_puzzle < old(self)@.puzzles.len() && puzzle_startable(
                old(self)@.puzzles[old(self)@.current_puzzle as int],
            )),
            ok ==> final(self)@ == (SessionView {
                game_status: GameStatus::Playing,
                ..puzzle_started(old(self)@, old(self)@.current_puzzle as int)
            }),
            !ok ==> final(self)@ == old(self)@,
    {
        let idx = self.puzzle_tab.current_puzzle;
        if self.start_puzzle(idx) {
            self.puzzle_tab.game_status = GameStatus::Playing;
            true
        } else {
            false
        }
    }

    /// Marks the square of the piece that the solution moves next.
    pub fn show_hint(&mut self)
        ensures
            final(self)@ == (SessionView { hint_square: hint_for(old(self)@), ..old(self)@ }),
    {
        let mut hint: Option<u8> = None;
        if self.puzzle_tab.current_puzzle < self.puzzle_tab.puzzles.len() {
            let ws = split_whitespace(self.puzzle_tab.puzzles[self.puzzle_tab.current_puzzle].moves.as_str());
            if ws.len() > self.puzzle_tab.current_puzzle_move {
                proof {
                    assert(views(ws@)[self.puzzle_tab.current_puzzle_move as int]
                        == ws@[self.puzzle_tab.current_puzzle_move as int]@);
                }
                let w = chars_of(ws[self.puzzle_tab.current_puzzle_move].as_str());
                if w.len() >= 2 && 'a' <= w[0] && w[0] <= 'h' && '1' <= w[1] && w[1] <= '8' {
                    hint = Some(square_of(w[0], w[1]));
                }
            }
        }
        self.hint_square = hint;
    }

    /// Switches between the puzzle and the analysis board. The analysis board starts from
    /// the puzzle's position; back in puzzle mode the moves analysed after the puzzle's
    /// current move are dropped (and the application stops the engine).
    pub fn select_mode(&mut self, mode: GameMode)
        requires
            session_wf(old(self)@),
        ensures
            session_wf(final(self)@),
            final(self)@ == mode_selected(old(self)@, mode),
    {
        self.game_mode = mode;
        match mode {
            GameMode::Analysis => {
                self.analysis = self.board.clone();
            },
            GameMode::Puzzle => {
                let n = self.puzzle_tab.current_puzzle_move;
                self.analysis_history.truncate(n);
                proof {
                    if n < old(self)@.history.len() {
                        assert(self@.history =~= old(self)@.history.take(n as int));
                    } else {
                        assert(self@.history =~= old(self)@.history);
                    }
                }
            },
        }
    }

    /// Takes back the last move on the analysis board (not behind the puzzle's current
    /// move). Returns the position to hand to the engine when a move was taken back.
    pub fn go_back_move(&mut self) -> (send: Option<String>)
        requires
            session_wf(old(self)@),
        ensures
            session_wf(final(self)@),
            final(self)@ == taken_back(old(self)@),
            can_take_back(old(self)@) ==> (send matches Some(s) && s@ == displayed_fen(final(self)@.analysis)),
            !can_take_back(old(self)@) ==> send is None,
    {
        if self.game_mode == GameMode::Analysis && self.analysis_history.len()
            > self.puzzle_tab.current_puzzle_move {
            self.analysis_history.pop();
            let n = self.analysis_history.len();
            self.analysis = self.analysis_history[n - 1].clone();
            proof {
                assert(self@.history =~= old(self)@.history.drop_last());
                assert(views(self.analysis_history@)[n - 1] == self.analysis_history@[n - 1]@);
            }
            Some(shown_fen(&self.analysis))
        } else {
            None
        }
    }
}


/// A sound that the interface plays after a move.
#[derive(Debug, Clone, Copy, PartialEq, Eq, Structural)]
pub enum Sound {
    /// One piece moved: a move on the analysis board, or the last move of a puzzle.
    OnePiece,
    /// The player's move and the opponent's reply.
    TwoPieces,
}

/// What a click on the board asks of the application besides the new state: a sound to
/// play, and for a move on the analysis board the engine's new position (as the board
/// prints it) and the position to send to a running engine (corrected).
#[derive(Debug)]
pub struct ClickEffects {
    pub sound: Option<Sound>,
    pub engine_position: Option<String>,
    pub engine_send: Option<String>,
}

/// A piece of the side to move stands on `sq` in `fen`.
pub open spec fn own_piece(fen: Seq<char>, sq: u8) -> bool {
    &&& chess_side_to_move(fen) is Some
    &&& chess_color_on(fen, sq) == chess_side_to_move(fen)
}

/// The board that clicks act on: the analysis board in analysis mode, else the puzzle.
pub open spec fn active_board(v: SessionView) -> Seq<char> {
    if v.game_mode == GameMode::Analysis {
        v.analysis
    } else {
        v.board
    }
}

/// A pawn of `fen` goes from `from` to its last rank at `to`.
pub open spec fn pawn_promotes(fen: Seq<char>, from: u8, to: u8) -> bool {
    &&& chess_piece_on(fen, from) == Some(Piece::Pawn)
    &&& {
        ||| chess_color_on(fen, from) == Some(Side::White) && to / 8 == 7
        ||| chess_color_on(fen, from) == Some(Side::Black) && to / 8 == 0
    }
}

/// The piece a promotion goes to when the player chose `p` (a queen unless a rook, a
/// knight or a bishop was chosen).
pub open spec fn promotion_choice(p: Piece) -> Piece {
    match p {
        Piece::Rook => Piece::Rook,
        Piece::Knight => Piece::Knight,
        Piece::Bishop => Piece::Bishop,
        _ => Piece::Queen,
    }
}

/// The move the player makes by clicking `from` and then `to` on `fen`.
pub open spec fn spec_played_move(fen: Seq<char>, promo: Piece, from: u8, to: u8) -> Move {
    Move {
        source: from,
        dest: to,
        promotion: if pawn_promotes(fen, from, to) {
            Some(promotion_choice(promo))
        } else {
            None
        },
    }
}

/// The move of the solution that the player has to find next, when it can be read.
pub open spec fn solution_move(v: SessionView) -> Option<Move> {
    if v.current_puzzle < v.puzzles.len() {
        let ws = puzzle_moves(v.puzzles[v.current_puzzle as int]);
        if v.current_puzzle_move < ws.len() && uci_ok(ws[v.current_puzzle_move as int]) {
            Some(uci_move(ws[v.current_puzzle_move as int]))
        } else {
            None
        }
    } else {
        None
    }
}

/// A move is accepted when it is a legal move that mates, or when it is the move of the
/// solution (played as it stands, legal or not, whenever it can be played).
pub open spec fn move_accepted(fen: Seq<char>, m: Move, solution: Move) -> bool {
    ||| chess_legal(fen, m) && chess_status(chess_make_move(fen, m)) == Some(BoardStatus::Checkmate)
    ||| m == solution && chess_playable(fen, m)
}

/// The message key for a wrong move.
pub open spec fn wrong_move_key(fen: Seq<char>) -> Seq<char> {
    if chess_side_to_move(fen) == Some(Side::White) {
        "wrong_move_white_play"@
    } else {
        "wrong_move_black_play"@
    }
}

/// The puzzle after the player's accepted move `m`: the opponent replies with the next
/// move of the solution; when the solution is complete, the next puzzle is set up (when
/// `auto_load_next` asks for it and there is one) or the puzzle is marked as ended. A
/// reply that cannot be played ends the puzzle after the player's move.
pub open spec fn puzzle_answer(w: SessionView, m: Move, auto_load_next: bool) -> SessionView {
    let b1 = chess_make_move(w.board, m);
    let n = (w.current_puzzle_move + 1) as usize;
    let ws = puzzle_moves(w.puzzles[w.current_puzzle as int]);
    let played = SessionView { board: b1, history: w.history.push(b1), current_puzzle_move: n, ..w };
    let ended = SessionView {
        game_status: GameStatus::PuzzleEnded,
        status: "correct_puzzle"@,
        ..played
    };
    if n == ws.len() {
        if w.current_puzzle + 1 < w.puzzles.len() {
            if auto_load_next && puzzle_startable(w.puzzles[w.current_puzzle + 1]) {
                let s = puzzle_started(w, w.current_puzzle + 1);
                SessionView { fen_shown: displayed_fen(s.board), ..s }
            } else {
                ended
            }
        } else if auto_load_next {
            SessionView {
                board: start_fen(),
                history: seq![start_fen()],
                current_puzzle_move: 1,
                game_status: GameStatus::NoPuzzles,
                last_move_from: None,
                last_move_to: None,
                status: "all_puzzles_done"@,
                ..w
            }
        } else {
            SessionView {
                game_status: GameStatus::PuzzleEnded,
                last_move_from: None,
                last_move_to: None,
                status: "all_puzzles_done"@,
                ..played
            }
        }
    } else if uci_ok(ws[n as int]) && chess_playable(b1, uci_move(ws[n as int])) {
        let r = uci_move(ws[n as int]);
        let b2 = chess_make_move(b1, r);
        SessionView {
            board: b2,
            history: w.history.push(b1).push(b2),
            current_puzzle_move: (n + 1) as usize,
            last_move_from: Some(r.source),
            last_move_to: Some(r.dest),
            status: "correct_move"@,
            ..w
        }
    } else {
        ended
    }
}

/// The puzzle after the player tried `m`: accepted, refused with a message, or (when the
/// solution has no readable move left) left as it is.
pub open spec fn puzzle_try(w: SessionView, m: Move, auto_load_next: bool) -> SessionView {
    match solution_move(w) {
        Some(c) => if move_accepted(w.board, m, c) {
            puzzle_answer(w, m, auto_load_next)
        } else {
            SessionView { status: wrong_move_key(w.board), ..w }
        },
        None => w,
    }
}

/// The sound of a tried puzzle move: none when refused, one piece when it completes the
/// solution, else two (the player's move and the reply).
pub open spec fn puzzle_try_sound(w: SessionView, m: Move) -> Option<Sound> {
    match solution_move(w) {
        Some(c) => if move_accepted(w.board, m, c) {
            if w.current_puzzle_move + 1 == puzzle_moves(w.puzzles[w.current_puzzle as int]).len() {
                Some(Sound::OnePiece)
            } else {
                Some(Sound::TwoPieces)
            }
        } else {
            None
        },
        None => None,
    }
}

/// The click on `sq` completes a move attempt: a square was selected, another one is
/// clicked, and it does not hold a piece of the side to move while puzzles are loaded.
pub open spec fn move_attempted(v: SessionView, sq: u8) -> bool {
    &&& v.from_square is Some
    &&& v.from_square->0 != sq
    &&& !(v.game_status != GameStatus::NoPuzzles && own_piece(active_board(v), sq))
}

/// The move a click on `sq` attempts.
pub open spec fn attempted_move(v: SessionView, sq: u8, promo: Piece) -> Move {
    spec_played_move(active_board(v), promo, v.from_square->0, sq)
}

/// The click makes a move on the analysis board.
pub open spec fn analysis_move_made(v: SessionView, sq: u8, promo: Piece) -> bool {
    &&& move_attempted(v, sq)
    &&& v.game_mode == GameMode::Analysis
    &&& chess_legal(v.analysis, attempted_move(v, sq, promo))
}

/// The state after a click on square `sq`: the first click selects a piece of the side to
/// move (while puzzles are loaded, or on the analysis board); a second click on another
/// piece of that side selects it instead; a second click elsewhere tries the move, on the
/// analysis board or against the puzzle's solution.
pub open spec fn clicked(v: SessionView, sq: u8, promo: Piece, auto_load_next: bool) -> SessionView {
    let w = SessionView { from_square: None, ..v };
    match v.from_square {
        None => if (v.game_status != GameStatus::NoPuzzles || v.game_mode == GameMode::Analysis)
            && own_piece(active_board(v), sq) {
            SessionView { hint_square: None, from_square: Some(sq), ..v }
        } else {
            v
        },
        Some(from) => if from == sq {
            v
        } else if v.game_status != GameStatus::NoPuzzles && own_piece(active_board(v), sq) {
            SessionView { from_square: Some(sq), ..v }
        } else if v.game_mode == GameMode::Analysis {
            let m = attempted_move(v, sq, promo);
            if chess_legal(v.analysis, m) {
                let a = chess_make_move(v.analysis, m);
                SessionView { analysis: a, history: v.history.push(a), ..w }
            } else {
                w
            }
        } else if v.puzzles.len() > 0 {
            puzzle_try(w, attempted_move(v, sq, promo), auto_load_next)
        } else {
            w
        },
    }
}

/// The sound a click calls for.
pub open spec fn click_sound(v: SessionView, sq: u8, promo: Piece) -> Option<Sound> {
    if analysis_move_made(v, sq, promo) {
        Some(Sound::OnePiece)
    } else if move_attempted(v, sq) && v.game_mode == GameMode::Puzzle && v.puzzles.len() > 0 {
        puzzle_try_sound(SessionView { from_square: None, ..v }, attempted_move(v, sq, promo))
    } else {
        None
    }
}

/// Whether a piece of the side to move stands on `sq` in `fen`.
fn is_own_piece(fen: &String, sq: u8) -> (r: bool)
    requires
        sq < 64,
    ensures
        r == own_piece(fen@, sq),
{
    match (side_to_move(fen.as_str()), color_on(fen.as_str(), sq)) {
        (Some(s), Some(c)) => s == c,
        _ => false,
    }
}

/// The move the player makes by clicking `from` and then `to`: read back from its UCI
/// coordinates, which name a promotion when a pawn reaches its last rank.
pub fn played_move(board: &str, promo: Piece, from: u8, to: u8) -> (m: Move)
    requires
        from < 64,
        to < 64,
    ensures
        m == spec_played_move(board@, promo, from, to),
{
    let notation = get_notation_string(board, promo, from, to);
    let c = chars_of(notation.as_str());
    let promotion = if c.len() > 4 {
        Some(
            match c[4] {
                'r' => Piece::Rook,
                'n' => Piece::Knight,
                'b' => Piece::Bishop,
                _ => Piece::Queen,
            },
        )
    } else {
        None
    };
    Move { source: from, dest: to, promotion }
}

impl PuzzleSession {
    /// Judges the player's move `m` against the puzzle's solution and answers it.
    fn try_puzzle_move(&mut self, m: Move, auto_load_next: bool) -> (sound: Option<Sound>)
        requires
            session_wf(old(self)@),
            old(self)@.puzzles.len() > 0,
            m.source < 64,
            m.dest < 64,
        ensures
            session_wf(final(self)@),
            final(self)@ == puzzle_try(old(self)@, m, auto_load_next),
            sound == puzzle_try_sound(old(self)@, m),
    {
        let cp = self.puzzle_tab.current_puzzle;
        let cpm = self.puzzle_tab.current_puzzle_move;
        let ws = split_whitespace(self.puzzle_tab.puzzles[cp].moves.as_str());
        if cpm >= ws.len() {
            return None;
        }
        proof {
            assert(views(ws@)[cpm as int] == ws@[cpm as int]@);
        }
        let c = match parse_uci(&ws[cpm]) {
            Some(c) => c,
            None => return None,
        };
        let mate = is_legal(self.board.as_str(), m) && {
            let after = make_move(self.board.as_str(), m);
            match board_status(after.as_str()) {
                Some(BoardStatus::Checkmate) => true,
                _ => false,
            }
        };
        let accepted = mate || (m == c && is_playable(self.board.as_str(), m));
        if !accepted {
            let white = match side_to_move(self.board.as_str()) {
                Some(Side::White) => true,
                _ => false,
            };
            if white {
                self.puzzle_status = String::from_str("wrong_move_white_play");
            } else {
                self.puzzle_status = String::from_str("wrong_move_black_play");
            }
            return None;
        }
        let b1 = make_move(self.board.as_str(), m);
        let n = cpm + 1;
        if n == ws.len() {
            if cp < self.puzzle_tab.puzzles.len() - 1 {
                if auto_load_next && self.start_puzzle(cp + 1) {
                    self.show_loaded();
                } else {
                    self.analysis_history.push(b1.clone());
                    self.board = b1;
                    self.puzzle_tab.current_puzzle_move = n;
                    self.puzzle_tab.game_status = GameStatus::PuzzleEnded;
                    self.puzzle_status = String::from_str("correct_puzzle");
                    proof {
                        assert(self@.history =~= old(self)@.history.push(self.board@));
                    }
                }
            } else if auto_load_next {
                let start = String::from_str("rnbqkbnr/pppppppp/8/8/8/8/PPPPPPPP/RNBQKBNR w KQkq - 0 1");
                let mut history: Vec<String> = Vec::new();
                history.push(start.clone());
                self.board = start;
                self.analysis_history = history;
                self.puzzle_tab.current_puzzle_move = 1;
                self.puzzle_tab.game_status = GameStatus::NoPuzzles;
                self.last_move_from = None;
                self.last_move_to = None;
                self.puzzle_status = String::from_str("all_puzzles_done");
                proof {
                    assert(self@.history =~= seq![start_fen()]);
                }
            } else {
                self.analysis_history.push(b1.clone());
                self.board = b1;
                self.puzzle_tab.current_puzzle_move = n;
                self.puzzle_tab.game_status = GameStatus::PuzzleEnded;
                self.last_move_from = None;
                self.last_move_to = None;
                self.puzzle_status = String::from_str("all_puzzles_done");
                proof {
                    assert(self@.history =~= old(self)@.history.push(self.board@));
                }
            }
            return Some(Sound::OnePiece);
        }
        proof {
            assert(views(ws@)[n as int] == ws@[n as int]@);
        }
        let reply = match parse_uci(&ws[n]) {
            Some(r) => if is_playable(b1.as_str(), r) {
                Some(r)
            } else {
                None
            },
            None => None,
        };
        match reply {
            Some(r) => {
                let b2 = make_move(b1.as_str(), r);
                let ghost b1v = b1@;
                self.analysis_history.push(b1);
                self.analysis_history.push(b2.clone());
                proof {
                    assert(self@.history =~= old(self)@.history.push(b1v).push(b2@));
                }
                self.board = b2;
                self.puzzle_tab.current_puzzle_move = n + 1;
                self.last_move_from = Some(r.source);
                self.last_move_to = Some(r.dest);
                self.puzzle_status = String::from_str("correct_move");
            },
            None => {
                self.analysis_history.push(b1.clone());
                self.board = b1;
                self.puzzle_tab.current_puzzle_move = n;
                self.puzzle_tab.game_status = GameStatus::PuzzleEnded;
                self.puzzle_status = String::from_str("correct_puzzle");
                proof {
                    assert(self@.history =~= old(self)@.history.push(self.board@));
                }
            },
        }
        Some(Sound::TwoPieces)
    }

    /// Shows the corrected position of a puzzle that was just set up.
    fn show_loaded(&mut self)
        ensures
            final(self)@ == (SessionView { fen_shown: displayed_fen(old(self)@.board), ..old(self)@ }),
    {
        self.puzzle_tab.current_puzzle_fen = shown_fen(&self.board);
    }

    /// Handles a click on square `square`: selects a piece, or tries a move on the
    /// analysis board or against the puzzle's solution. `promote_to` is the piece chosen
    /// for promotions; `play_sound` and `auto_load_next` are the player's settings.
    pub fn select_square(
        &mut self,
        square: u8,
        promote_to: Piece,
        auto_load_next: bool,
        play_sound: bool,
    ) -> (r: ClickEffects)
        requires
            session_wf(old(self)@),
            square < 64,
        ensures
            session_wf(final(self)@),
            final(self)@ == clicked(old(self)@, square, promote_to, auto_load_next),
            r.sound == (if play_sound {
                click_sound(old(self)@, square, promote_to)
            } else {
                None
            }),
            analysis_move_made(old(self)@, square, promote_to) ==> {
                &&& r.engine_position matches Some(p) && p@ == final(self)@.analysis
                &&& r.engine_send matches Some(s) && s@ == displayed_fen(final(self)@.analysis)
            },
            !analysis_move_made(old(self)@, square, promote_to) ==> r.engine_position is None
                && r.engine_send is None,
    {
        let none = ClickEffects { sound: None, engine_position: None, engine_send: None };
        let analysis_mode = match self.game_mode {
            GameMode::Analysis => true,
            GameMode::Puzzle => false,
        };
        let own = if analysis_mode {
            is_own_piece(&self.analysis, square)
        } else {
            is_own_piece(&self.board, square)
        };
        let playing = self.puzzle_tab.is_playing();
        let from = match self.from_square {
            None => {
                if (playing || analysis_mode) && own {
                    self.hint_square = None;
                    self.from_square = Some(square);
                }
                return none;
            },
            Some(f) => f,
        };
        if from == square {
            return none;
        }
        if playing && own {
            self.from_square = Some(square);
            return none;
        }
        self.from_square = None;
        if analysis_mode {
            let m = played_move(self.analysis.as_str(), promote_to, from, square);
            if is_legal(self.analysis.as_str(), m) {
                let a = make_move(self.analysis.as_str(), m);
                self.analysis_history.push(a.clone());
                self.analysis = a.clone();
                proof {
                    assert(self@.history =~= old(self)@.history.push(a@));
                }
                let send = shown_fen(&a);
                let sound = if play_sound {
                    Some(Sound::OnePiece)
                } else {
                    None
                };
                return ClickEffects { sound, engine_position: Some(a), engine_send: Some(send) };
            }
            return none;
        }
        if self.puzzle_tab.puzzles.len() == 0 {
            return none;
        }
        let m = played_move(self.board.as_str(), promote_to, from, square);
        let sound = self.try_puzzle_move(m, auto_load_next);
        ClickEffects {
            sound: if play_sound {
                sound
            } else {
                None
            },
            engine_position: None,
            engine_send: None,
        }
    }
}


/// Taking back a move made on the analysis board gives back the board and its history as
/// they were before the move (the selection is gone).
pub proof fn lemma_takeback_undoes_analysis_move(
    v: SessionView,
    sq: u8,
    promo: Piece,
    auto_load_next: bool,
)
    requires
        session_wf(v),
        analysis_move_made(v, sq, promo),
        v.history.len() >= v.current_puzzle_move,
        v.analysis == v.history.last(),
    ensures
        taken_back(clicked(v, sq, promo, auto_load_next)) == (SessionView { from_square: None, ..v }),
{
    let after = clicked(v, sq, promo, auto_load_next);
    assert(after.history.drop_last() =~= v.history);
}

/// The hint marks the square that the next move of the solution starts from.
pub proof fn lemma_hint_shows_solution_origin(v: SessionView)
    requires
        solution_move(v) is Some,
    ensures
        hint_for(v) == Some(solution_move(v)->0.source),
{
}

/// Going to the next puzzle and back to the previous one sets up again, from its start,
/// the puzzle that was being played.
pub proof fn lemma_next_then_previous(v: SessionView)
    requires
        session_wf(v),
        v.current_puzzle + 1 < v.puzzles.len(),
        puzzle_startable(v.puzzles[v.current_puzzle + 1]),
        puzzle_startable(v.puzzles[v.current_puzzle as int]),
    ensures
        ({
            let next = SessionView {
                game_mode: GameMode::Puzzle,
                ..puzzle_shown(v, v.current_puzzle + 1)
            };
            &&& next.current_puzzle > 0
            &&& next.game_mode == GameMode::Puzzle
            &&& puzzle_shown(next, next.current_puzzle - 1) == puzzle_shown(
                SessionView { game_mode: GameMode::Puzzle, ..v },
                v.current_puzzle as int,
            )
        }),
{
    let next = SessionView { game_mode: GameMode::Puzzle, ..puzzle_shown(v, v.current_puzzle + 1) };
    let back = SessionView { game_mode: GameMode::Puzzle, ..v };
    assert(next.current_puzzle - 1 == v.current_puzzle);
    assert(next.puzzles == back.puzzles);
    let a = puzzle_shown(next, v.current_puzzle as int);
    let b = puzzle_shown(back, v.current_puzzle as int);
    assert(a.history =~= b.history);
    assert(a == b);
}

/// When the player's move completes the solution and another puzzle follows, with
/// automatic loading the next puzzle is set up at once; without it the puzzle is marked as
/// solved and stays on the board after the move.
pub proof fn lemma_solved_puzzle_loads_next(v: SessionView, sq: u8, promo: Piece, auto_load_next: bool)
    requires
        session_wf(v),
        v.game_mode == GameMode::Puzzle,
        move_attempted(v, sq),
        v.puzzles.len() > 0,
        solution_move(v) matches Some(c) && move_accepted(v.board, attempted_move(v, sq, promo), c),
        v.current_puzzle_move + 1 == puzzle_moves(v.puzzles[v.current_puzzle as int]).len(),
        v.current_puzzle_move < usize::MAX,
        v.current_puzzle + 1 < v.puzzles.len(),
        puzzle_startable(v.puzzles[v.current_puzzle + 1]),
    ensures
        auto_load_next ==> {
            let s = puzzle_started(SessionView { from_square: None, ..v }, v.current_puzzle + 1);
            clicked(v, sq, promo, auto_load_next) == (SessionView {
                fen_shown: displayed_fen(s.board),
                ..s
            })
        },
        !auto_load_next ==> {
            let after = clicked(v, sq, promo, auto_load_next);
            &&& after.game_status == GameStatus::PuzzleEnded
            &&& after.status == "correct_puzzle"@
            &&& after.board == chess_make_move(v.board, attempted_move(v, sq, promo))
            &&& after.current_puzzle == v.current_puzzle
        },
{
    let w = SessionView { from_square: None, ..v };
    let m = attempted_move(v, sq, promo);
    assert(solution_move(w) == solution_move(v));
    assert(clicked(v, sq, promo, auto_load_next) == puzzle_try(w, m, auto_load_next));
    assert(puzzle_try(w, m, auto_load_next) == puzzle_answer(w, m, auto_load_next));
}

/// A move that is neither a legal mate nor the solution's (playable) move changes nothing
/// in the puzzle but the message, which says whose move it still is.
pub proof fn lemma_wrong_move_only_warns(v: SessionView, sq: u8, promo: Piece, auto_load_next: bool)
    requires
        session_wf(v),
        v.game_mode == GameMode::Puzzle,
        move_attempted(v, sq),
        v.puzzles.len() > 0,
        solution_move(v) matches Some(c) && !move_accepted(v.board, attempted_move(v, sq, promo), c),
    ensures
        clicked(v, sq, promo, auto_load_next) == (SessionView {
            from_square: None,
            status: wrong_move_key(v.board),
            ..v
        }),
{
}

/// A legal move that checkmates the opponent is always accepted in puzzle mode, whether or
/// not it is the move the solution lists: the puzzle goes on from the position after it
/// (or moves to the next puzzle), the click sounds, and no wrong-move message is shown.
pub proof fn lemma_mating_move_is_accepted(v: SessionView, sq: u8, promo: Piece, auto_load_next: bool)
    requires
        session_wf(v),
        v.game_mode == GameMode::Puzzle,
        move_attempted(v, sq),
        v.puzzles.len() > 0,
        solution_move(v) is Some,
        chess_legal(v.board, attempted_move(v, sq, promo)),
        chess_status(chess_make_move(v.board, attempted_move(v, sq, promo))) == Some(
            BoardStatus::Checkmate,
        ),
    ensures
        ({
            let after = clicked(v, sq, promo, auto_load_next);
            let w = SessionView { from_square: None, ..v };
            &&& after == puzzle_answer(w, attempted_move(v, sq, promo), auto_load_next)
            &&& after.status != "wrong_move_white_play"@
            &&& after.status != "wrong_move_black_play"@
            &&& click_sound(v, sq, promo) is Some
        }),
{
    let w = SessionView { from_square: None, ..v };
    let m = attempted_move(v, sq, promo);
    assert(solution_move(w) == solution_move(v));
    assert(clicked(v, sq, promo, auto_load_next) == puzzle_try(w, m, auto_load_next));
    reveal_strlit("wrong_move_white_play");
    reveal_strlit("wrong_move_black_play");
    reveal_strlit("correct_puzzle");
    reveal_strlit("all_puzzles_done");
    reveal_strlit("correct_move");
    reveal_strlit("white_to_move");
    reveal_strlit("black_to_move");
    assert("wrong_move_white_play"@[0] == 'w');
    assert("wrong_move_black_play"@[0] == 'w');
    assert("correct_puzzle"@[0] == 'c');
    assert("all_puzzles_done"@[0] == 'a');
    assert("correct_move"@[0] == 'c');
    assert("white_to_move"@[0] == 'w' && "white_to_move"@[1] == 'h');
    assert("black_to_move"@[0] == 'b');
    assert("wrong_move_white_play"@[1] == 'r' && "wrong_move_black_play"@[1] == 'r');
}

/// A move that neither is the move the solution lists next nor legally checkmates is
/// refused in puzzle mode: only the message changes, to say whose move it still is, and
/// no sound is played.
pub proof fn lemma_other_moves_are_refused(v: SessionView, sq: u8, promo: Piece, auto_load_next: bool)
    requires
        session_wf(v),
        v.game_mode == GameMode::Puzzle,
        move_attempted(v, sq),
        v.puzzles.len() > 0,
        solution_move(v) matches Some(c) && attempted_move(v, sq, promo) != c,
        !(chess_legal(v.board, attempted_move(v, sq, promo)) && chess_status(
            chess_make_move(v.board, attempted_move(v, sq, promo)),
        ) == Some(BoardStatus::Checkmate)),
    ensures
        clicked(v, sq, promo, auto_load_next) == (SessionView {
            from_square: None,
            status: if chess_side_to_move(v.board) == Some(Side::White) {
                "wrong_move_white_play"@
            } else {
                "wrong_move_black_play"@
            },
            ..v
        }),
        click_sound(v, sq, promo) is None,
{
    let w = SessionView { from_square: None, ..v };
    assert(solution_move(w) == solution_move(v));
}

} // verus!
