//! The chess engine of the analysis board: its settings, the UCI commands sent to it,
//! and the decisions of the conversation with it. The conversation is a machine whose
//! steps take the current phase and an event (a line the engine printed, a wait that
//! timed out, a request of the interface) to the next phase and the actions to perform;
//! the application performs them and reads the engine's output.
use vstd::prelude::*;
use vstd::string::*;
use crate::text::{spec_contains, str_contains, words, views, split_whitespace};
use crate::decimal::{spec_parse_i32, parse_i32, signed_decimal, format_i64};
use crate::lang::{Language, Translations, spec_tr, tr};

verus! {

broadcast use vstd::string::group_string_axioms;

/// The request that stops the engine.
pub const STOP_COMMAND: &'static str = "STOP";

/// The request that stops the engine because the application closes.
pub const EXIT_APP_COMMAND: &'static str = "EXIT";

/// Whether the engine runs.
#[derive(Debug, Clone, Copy, PartialEq, Eq, Structural)]
pub enum EngineStatus {
    Started,
    TurnedOff,
}

/// The engine to start: the program, how far it searches (the argument of `go`), and the
/// position it starts analysing.
#[derive(Debug, Clone)]
pub struct Engine {
    pub engine_path: String,
    pub search_up_to: String,
    pub position: String,
}

impl Engine {
    /// An engine at `path` (none configured: the empty path).
    pub fn new(path: Option<String>, limit: String, position: String) -> (r: Self)
        ensures
            r.engine_path@ == (match path {
                Some(p) => p@,
                None => Seq::<char>::empty(),
            }),
            r.search_up_to == limit,
            r.position == position,
    {
        let engine_path = match path {
            Some(p) => p,
            None => String::new(),
        };
        Engine { engine_path, search_up_to: limit, position }
    }
}

/// The UCI command that sets up the position `fen`.
pub open spec fn position_command(fen: Seq<char>) -> Seq<char> {
    "position fen "@ + fen + "\n"@
}

/// The UCI command that starts a search limited by `limit` (such as `depth 40`).
pub open spec fn go_command(limit: Seq<char>) -> Seq<char> {
    "go "@ + limit + "\n"@
}

/// Builds the UCI command that sets up the position `fen`.
pub fn uci_position(fen: &str) -> (r: String)
    ensures
        r@ == position_command(fen@),
{
    String::from_str("position fen ").concat(fen).concat("\n")
}

/// Builds the UCI command that starts a search limited by `limit`.
pub fn uci_go(limit: &str) -> (r: String)
    ensures
        r@ == go_command(limit@),
{
    String::from_str("go ").concat(limit).concat("\n")
}

/// Where the conversation with the engine stands.
#[derive(Debug, Clone, Copy, PartialEq, Eq, Structural)]
pub enum EngineState {
    /// `uci` was sent; waiting for `uciok`.
    AwaitingUciOk,
    /// `isready` was sent; waiting for `readyok`.
    AwaitingReadyOk,
    /// The engine analyses the position.
    Thinking,
    /// The engine was stopped.
    TurnedOff,
}

/// What happens while the engine runs.
#[derive(Debug, Clone)]
pub enum EngineEvent {
    /// The engine printed a line.
    Line(String),
    /// Waiting for the engine's answer took too long.
    TimedOut,
    /// The interface sends a position to analyse, or a stop request.
    Request(String),
}

/// What the application does for the engine.
#[derive(Debug, Clone)]
pub enum EngineAction {
    /// Writes a command to the engine's input.
    Write(String),
    /// Hands the interface the channel for its requests: the engine is ready.
    Ready,
    /// Waits for the engine to quit, and kills it if it does not.
    Terminate,
    /// Tells the interface that the engine stopped (and whether the application closes).
    Stopped(bool),
}

/// An action in mathematical terms.
pub enum ActionSpec {
    Write(Seq<char>),
    Ready,
    Terminate,
    Stopped(bool),
}

impl View for EngineAction {
    type V = ActionSpec;

    open spec fn view(&self) -> ActionSpec {
        match self {
            EngineAction::Write(s) => ActionSpec::Write(s@),
            EngineAction::Ready => ActionSpec::Ready,
            EngineAction::Terminate => ActionSpec::Terminate,
            EngineAction::Stopped(b) => ActionSpec::Stopped(*b),
        }
    }
}

/// The actions in mathematical terms.
pub open spec fn action_views(a: Seq<EngineAction>) -> Seq<ActionSpec> {
    a.map_values(|x: EngineAction| x@)
}

/// What stopping the engine takes: `stop`, `quit`, waiting for it to end, and telling the
/// interface (whether the application closes).
pub open spec fn quit_actions(exit_app: bool) -> Seq<ActionSpec> {
    seq![
        ActionSpec::Write("stop\n"@),
        ActionSpec::Write("quit\n"@),
        ActionSpec::Terminate,
        ActionSpec::Stopped(exit_app),
    ]
}

/// The step of the conversation for `event` in `phase`, for an engine that searches up to
/// `limit` and starts on the position `position`: the handshake (`uciok`, then
/// `readyok`, each awaited in time), the analysis of new positions, and stopping.
pub open spec fn engine_next(
    phase: EngineState,
    event: EngineEvent,
    limit: Seq<char>,
    position: Seq<char>,
) -> (EngineState, Seq<ActionSpec>) {
    match (phase, event) {
        (EngineState::AwaitingUciOk, EngineEvent::Line(l)) => if spec_contains(l@, "uciok"@) {
            (
                EngineState::AwaitingReadyOk,
                seq![ActionSpec::Write("ucinewgame\n"@), ActionSpec::Write("isready\n"@)],
            )
        } else {
            (phase, Seq::empty())
        },
        (EngineState::AwaitingReadyOk, EngineEvent::Line(l)) => if spec_contains(l@, "readyok"@) {
            (
                EngineState::Thinking,
                seq![
                    ActionSpec::Write("setoption name UCI_AnalyseMode value true\n"@),
                    ActionSpec::Write(position_command(position)),
                    ActionSpec::Write(go_command(limit)),
                    ActionSpec::Ready,
                ],
            )
        } else {
            (phase, Seq::empty())
        },
        (EngineState::AwaitingUciOk, EngineEvent::TimedOut) => (
            EngineState::TurnedOff,
            quit_actions(false),
        ),
        (EngineState::AwaitingReadyOk, EngineEvent::TimedOut) => (
            EngineState::TurnedOff,
            quit_actions(false),
        ),
        (EngineState::Thinking, EngineEvent::Request(msg)) => if msg@ == "STOP"@ || msg@
            == "EXIT"@ {
            (EngineState::TurnedOff, quit_actions(msg@ == "EXIT"@))
        } else {
            (
                EngineState::Thinking,
                seq![
                    ActionSpec::Write("stop\n"@),
                    ActionSpec::Write(position_command(msg@)),
                    ActionSpec::Write(go_command(limit)),
                ],
            )
        },
        _ => (phase, Seq::empty()),
    }
}

/// A stopped engine stays stopped: no event makes it do anything.
pub proof fn lemma_stopped_engine_stays_off(event: EngineEvent, limit: Seq<char>, position: Seq<char>)
    ensures
        engine_next(EngineState::TurnedOff, event, limit, position) == (
            EngineState::TurnedOff,
            Seq::<ActionSpec>::empty(),
        ),
{
}

/// A stop request ends the analysis whatever position it was on: `stop` and `quit` are
/// sent, the program is ended, and the interface is told whether the application closes.
pub proof fn lemma_stop_request_stops(msg: String, limit: Seq<char>, position: Seq<char>)
    requires
        msg@ == "STOP"@ || msg@ == "EXIT"@,
    ensures
        engine_next(EngineState::Thinking, EngineEvent::Request(msg), limit, position) == (
            EngineState::TurnedOff,
            quit_actions(msg@ == "EXIT"@),
        ),
{
}

/// The engine is handed the position and starts searching only after it answered `uci`
/// with `uciok` and `isready` with `readyok`; before that, nothing but the handshake is
/// sent, and only then is the interface told that the engine is ready.
pub proof fn lemma_handshake(l1: String, l2: String, limit: Seq<char>, position: Seq<char>)
    requires
        spec_contains(l1@, "uciok"@),
        spec_contains(l2@, "readyok"@),
    ensures
        ({
            let first = engine_next(EngineState::AwaitingUciOk, EngineEvent::Line(l1), limit, position);
            let second = engine_next(first.0, EngineEvent::Line(l2), limit, position);
            &&& first.0 == EngineState::AwaitingReadyOk
            &&& first.1 == seq![ActionSpec::Write("ucinewgame\n"@), ActionSpec::Write("isready\n"@)]
            &&& second.0 == EngineState::Thinking
            &&& second.1 == seq![
                ActionSpec::Write("setoption name UCI_AnalyseMode value true\n"@),
                ActionSpec::Write(position_command(position)),
                ActionSpec::Write(go_command(limit)),
                ActionSpec::Ready,
            ]
        }),
{
}

/// The actions that stop the engine.
fn quit(exit_app: bool) -> (r: Vec<EngineAction>)
    ensures
        action_views(r@) == quit_actions(exit_app),
{
    let mut r: Vec<EngineAction> = Vec::new();
    r.push(EngineAction::Write(String::from_str("stop\n")));
    r.push(EngineAction::Write(String::from_str("quit\n")));
    r.push(EngineAction::Terminate);
    r.push(EngineAction::Stopped(exit_app));
    proof {
        assert(action_views(r@) =~= quit_actions(exit_app));
    }
    r
}

impl Engine {
    /// Starts the conversation: `uci` is sent, and `uciok` awaited.
    pub fn start(&self) -> (r: (EngineState, Vec<EngineAction>))
        ensures
            r.0 == EngineState::AwaitingUciOk,
            action_views(r.1@) == seq![ActionSpec::Write("uci\n"@)],
    {
        let mut a: Vec<EngineAction> = Vec::new();
        a.push(EngineAction::Write(String::from_str("uci\n")));
        proof {
            assert(action_views(a@) =~= seq![ActionSpec::Write("uci\n"@)]);
        }
        (EngineState::AwaitingUciOk, a)
    }

    /// The next step of the conversation with this engine.
    pub fn step(&self, phase: EngineState, event: &EngineEvent) -> (r: (EngineState, Vec<EngineAction>))
        ensures
            (r.0, action_views(r.1@)) == engine_next(phase, *event, self.search_up_to@, self.position@),
    {
        let mut a: Vec<EngineAction> = Vec::new();
        match (phase, event) {
            (EngineState::AwaitingUciOk, EngineEvent::Line(l)) => {
                if str_contains(l.as_str(), "uciok") {
                    a.push(EngineAction::Write(String::from_str("ucinewgame\n")));
                    a.push(EngineAction::Write(String::from_str("isready\n")));
                    proof {
                        assert(action_views(a@) =~= seq![
                            ActionSpec::Write("ucinewgame\n"@),
                            ActionSpec::Write("isready\n"@),
                        ]);
                    }
                    return (EngineState::AwaitingReadyOk, a);
                }
                proof {
                    assert(action_views(a@) =~= Seq::empty());
                }
                (phase, a)
            },
            (EngineState::AwaitingReadyOk, EngineEvent::Line(l)) => {
                if str_contains(l.as_str(), "readyok") {
                    a.push(
                        EngineAction::Write(
                            String::from_str("setoption name UCI_AnalyseMode value true\n"),
                        ),
                    );
                    a.push(EngineAction::Write(uci_position(self.position.as_str())));
                    a.push(EngineAction::Write(uci_go(self.search_up_to.as_str())));
                    a.push(EngineAction::Ready);
                    proof {
                        assert(action_views(a@) =~= seq![
                            ActionSpec::Write("setoption name UCI_AnalyseMode value true\n"@),
                            ActionSpec::Write(position_command(self.position@)),
                            ActionSpec::Write(go_command(self.search_up_to@)),
                            ActionSpec::Ready,
                        ]);
                    }
                    return (EngineState::Thinking, a);
                }
                proof {
                    assert(action_views(a@) =~= Seq::empty());
                }
                (phase, a)
            },
            (EngineState::AwaitingUciOk, EngineEvent::TimedOut) => (EngineState::TurnedOff, quit(false)),
            (EngineState::AwaitingReadyOk, EngineEvent::TimedOut) => (
                EngineState::TurnedOff,
                quit(false),
            ),
            (EngineState::Thinking, EngineEvent::Request(msg)) => {
                let stop = *msg == String::from_str(STOP_COMMAND);
                let exit = *msg == String::from_str(EXIT_APP_COMMAND);
                proof {
                    reveal_strlit("STOP");
                    reveal_strlit("EXIT");
                }
                if stop || exit {
                    return (EngineState::TurnedOff, quit(exit));
                }
                a.push(EngineAction::Write(String::from_str("stop\n")));
                a.push(EngineAction::Write(uci_position(msg.as_str())));
                a.push(EngineAction::Write(uci_go(self.search_up_to.as_str())));
                proof {
                    assert(action_views(a@) =~= seq![
                        ActionSpec::Write("stop\n"@),
                        ActionSpec::Write(position_command(msg@)),
                        ActionSpec::Write(go_command(self.search_up_to@)),
                    ]);
                }
                (EngineState::Thinking, a)
            },
            _ => {
                proof {
                    assert(action_views(a@) =~= Seq::empty());
                }
                (phase, a)
            },
        }
    }
}


/// The index of the first token `w` at or after `start` (the number of tokens when none).
pub open spec fn first_index_from(ts: Seq<Seq<char>>, w: Seq<char>, start: int) -> int
    decreases ts.len() - start,
{
    if start < 0 || start >= ts.len() {
        ts.len() as int
    } else if ts[start] == w {
        start
    } else {
        first_index_from(ts, w, start + 1)
    }
}

/// The first index of the token `w` in `ts` at or after `start`.
fn find_token(ts: &Vec<String>, w: &str, start: usize) -> (r: usize)
    ensures
        r == first_index_from(views(ts@), w@, start as int),
{
    let ghost vs = views(ts@);
    let mut k = start;
    while k < ts.len()
        invariant
            vs == views(ts@),
            start <= k,
            first_index_from(vs, w@, start as int) == first_index_from(vs, w@, k as int),
        decreases ts.len() - k,
    {
        proof {
            assert(vs[k as int] == ts@[k as int]@);
        }
        if ts[k] == String::from_str(w) {
            return k;
        }
        k = k + 1;
    }
    proof {
        assert(vs.len() == ts@.len());
    }
    ts.len()
}

/// The score of an engine's `info` line: whether it is a distance to mate (else
/// centipawns), and its number as the engine wrote it.
#[derive(Debug, Clone)]
pub struct ScoreToken {
    pub mate: bool,
    pub value: String,
}

/// What an engine's output line tells: its score and the first move of its principal
/// variation.
#[derive(Debug, Clone)]
pub struct InfoLine {
    pub score: Option<ScoreToken>,
    pub best_move: Option<String>,
}

/// The score and best move an output line gives: after the token `score` come its kind
/// (`cp` or `mate`) and its number; the best move is the token after the first `pv` that
/// follows. A line without `score`, or with fewer than two tokens after it, gives
/// nothing.
pub open spec fn spec_info_line(line: Seq<char>) -> (Option<(bool, Seq<char>)>, Option<Seq<char>>) {
    let ts = words(line);
    let i = first_index_from(ts, "score"@, 0);
    if i + 2 < ts.len() {
        let j = first_index_from(ts, "pv"@, i + 3);
        (
            Some((ts[i + 1] == "mate"@, ts[i + 2])),
            if j + 1 < ts.len() {
                Some(ts[j + 1])
            } else {
                None
            },
        )
    } else {
        (None, None)
    }
}

/// Reads the score and best move of an engine's output line.
pub fn read_info_line(line: &str) -> (r: InfoLine)
    ensures
        match spec_info_line(line@).0 {
            Some((m, v)) => r.score matches Some(s) && s.mate == m && s.value@ == v,
            None => r.score is None,
        },
        match spec_info_line(line@).1 {
            Some(b) => r.best_move matches Some(x) && x@ == b,
            None => r.best_move is None,
        },
{
    let ts = split_whitespace(line);
    let ghost vs = views(ts@);
    let i = find_token(&ts, "score", 0);
    if i >= ts.len() || ts.len() - i <= 2 {
        return InfoLine { score: None, best_move: None };
    }
    proof {
        assert(vs[i + 1] == ts@[i + 1]@);
        assert(vs[i + 2] == ts@[i + 2]@);
    }
    let mate = ts[i + 1] == String::from_str("mate");
    let score = ScoreToken { mate, value: ts[i + 2].clone() };
    let j = find_token(&ts, "pv", i + 3);
    let best_move = if j < ts.len() && ts.len() - j > 1 {
        proof {
            assert(vs[j + 1] == ts@[j + 1]@);
        }
        Some(ts[j + 1].clone())
    } else {
        None
    };
    InfoLine { score: Some(score), best_move }
}

/// How the interface shows an evaluation the engine reader produced.
#[derive(Debug)]
pub enum EvalText {
    /// This text.
    Text(String),
    /// The evaluation with its sign changed (Black is to move; evaluations are shown
    /// from White's side).
    Negated,
    /// Nothing can be shown: a mate whose distance does not read, or a missing translation.
    Missing,
}

/// The distance to mate of an evaluation `Mate in N`: the third word, when it reads as a
/// number (`None` when it does not).
pub open spec fn spec_mate_distance(eval: Seq<char>) -> Option<i32> {
    if words(eval).len() > 2 {
        spec_parse_i32(words(eval)[2])
    } else {
        None
    }
}

/// The text shown for a mate in `n` (`n` may be negative when the side to move is mated).
pub open spec fn spec_mate_text(t: Translations, lang: Language, n: i32) -> Option<Seq<char>> {
    if n != 0 {
        match spec_tr(t, lang, "mate_in"@) {
            Some(s) => Some(s + signed_decimal(if n < 0 { -n } else { n as int })),
            None => None,
        }
    } else {
        spec_tr(t, lang, "mate"@)
    }
}

/// How the evaluation `eval` is shown: a mate as `mate in` and its distance (or `mate`),
/// another evaluation as it is when White is to move, else with its sign changed.
pub fn engine_eval_text(t: &Translations, lang: &Language, eval: &str, white_to_move: bool) -> (r: EvalText)
    ensures
        spec_contains(eval@, "Mate"@) ==> match spec_mate_distance(eval@) {
            Some(n) => match spec_mate_text(*t, *lang, n) {
                Some(s) => (r matches EvalText::Text(x) && x@ == s),
                None => r is Missing,
            },
            None => r is Missing,
        },
        !spec_contains(eval@, "Mate"@) && white_to_move ==> (r matches EvalText::Text(x) && x@ == eval@),
        !spec_contains(eval@, "Mate"@) && !white_to_move ==> r is Negated,
{
    if str_contains(eval, "Mate") {
        let ws = split_whitespace(eval);
        if ws.len() <= 2 {
            return EvalText::Missing;
        }
        proof {
            assert(views(ws@)[2] == ws@[2]@);
        }
        let n = match parse_i32(ws[2].as_str()) {
            Some(n) => n,
            None => return EvalText::Missing,
        };
        if n != 0 {
            let prefix = match tr(t, lang, "mate_in") {
                Some(p) => p,
                None => return EvalText::Missing,
            };
            let wide = n as i64;
            let distance = if wide < 0 {
                -wide
            } else {
                wide
            };
            let digits = format_i64(distance);
            EvalText::Text(prefix.concat(digits.as_str()))
        } else {
            match tr(t, lang, "mate") {
                Some(s) => EvalText::Text(s),
                None => EvalText::Missing,
            }
        }
    } else if white_to_move {
        EvalText::Text(String::from_str(eval))
    } else {
        EvalText::Negated
    }
}

} // verus!
