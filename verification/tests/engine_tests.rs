use offline_chess_puzzles::engine::{
    read_info_line, uci_go, uci_position, Engine, EngineAction, EngineEvent, EngineState, EXIT_APP_COMMAND,
    STOP_COMMAND,
};

fn writes(actions: &Vec<EngineAction>) -> Vec<String> {
    actions
        .iter()
        .map(|a| match a {
            EngineAction::Write(s) => s.clone(),
            EngineAction::Ready => String::from("<ready>"),
            EngineAction::Terminate => String::from("<terminate>"),
            EngineAction::Stopped(exit) => format!("<stopped {}>", exit),
        })
        .collect()
}

fn engine() -> Engine {
    Engine::new(Some(String::from("/usr/bin/stockfish")), String::from("depth 20"), String::from("8/8/8/8/8/8/8/k6K w - - 0 1"))
}

#[test]
fn engine_without_path_has_an_empty_path() {
    let e = Engine::new(None, String::from("depth 40"), String::from("x"));
    assert_eq!(e.engine_path, String::new());
    assert_eq!(e.search_up_to, String::from("depth 40"));
}

#[test]
fn uci_commands() {
    assert_eq!(uci_position("8/8/8/8/8/8/8/k6K w - - 0 1"), String::from("position fen 8/8/8/8/8/8/8/k6K w - - 0 1\n"));
    assert_eq!(uci_go("depth 40"), String::from("go depth 40\n"));
}

#[test]
fn handshake_then_analysis() {
    let e = engine();
    let (phase, a) = e.start();
    assert_eq!(phase, EngineState::AwaitingUciOk);
    assert_eq!(writes(&a), vec!["uci\n"]);
    let (phase, a) = e.step(phase, &EngineEvent::Line(String::from("id name Stockfish\n")));
    assert_eq!(phase, EngineState::AwaitingUciOk);
    assert!(a.is_empty());
    let (phase, a) = e.step(phase, &EngineEvent::Line(String::from("uciok\n")));
    assert_eq!(phase, EngineState::AwaitingReadyOk);
    assert_eq!(writes(&a), vec!["ucinewgame\n", "isready\n"]);
    let (phase, a) = e.step(phase, &EngineEvent::Line(String::from("readyok\n")));
    assert_eq!(phase, EngineState::Thinking);
    assert_eq!(
        writes(&a),
        vec![
            "setoption name UCI_AnalyseMode value true\n",
            "position fen 8/8/8/8/8/8/8/k6K w - - 0 1\n",
            "go depth 20\n",
            "<ready>",
        ]
    );
    let (phase, a) = e.step(phase, &EngineEvent::Request(String::from("4k3/8/8/8/8/8/8/4K3 w - - 0 1")));
    assert_eq!(phase, EngineState::Thinking);
    assert_eq!(writes(&a), vec!["stop\n", "position fen 4k3/8/8/8/8/8/8/4K3 w - - 0 1\n", "go depth 20\n"]);
    let (phase, a) = e.step(phase, &EngineEvent::Request(String::from(STOP_COMMAND)));
    assert_eq!(phase, EngineState::TurnedOff);
    assert_eq!(writes(&a), vec!["stop\n", "quit\n", "<terminate>", "<stopped false>"]);
}

#[test]
fn exit_request_stops_for_closing() {
    let e = engine();
    let (_, a) = e.step(EngineState::Thinking, &EngineEvent::Request(String::from(EXIT_APP_COMMAND)));
    assert_eq!(writes(&a), vec!["stop\n", "quit\n", "<terminate>", "<stopped true>"]);
}

#[test]
fn a_slow_start_is_aborted() {
    let e = engine();
    let (phase, a) = e.step(EngineState::AwaitingReadyOk, &EngineEvent::TimedOut);
    assert_eq!(phase, EngineState::TurnedOff);
    assert_eq!(writes(&a), vec!["stop\n", "quit\n", "<terminate>", "<stopped false>"]);
}

#[test]
fn info_lines_give_score_and_best_move() {
    let r = read_info_line("info depth 20 seldepth 28 score cp 35 nodes 100 pv e2e4 e7e5 g1f3");
    let s = r.score.unwrap();
    assert!(!s.mate);
    assert_eq!(s.value, String::from("35"));
    assert_eq!(r.best_move, Some(String::from("e2e4")));
    let m = read_info_line("info depth 5 score mate -3 pv d8h4");
    let s = m.score.unwrap();
    assert!(s.mate);
    assert_eq!(s.value, String::from("-3"));
    assert_eq!(m.best_move, Some(String::from("d8h4")));
}

#[test]
fn lines_without_score_or_pv() {
    let r = read_info_line("info depth 1 nodes 20");
    assert!(r.score.is_none());
    assert!(r.best_move.is_none());
    let p = read_info_line("info score cp 10 pv");
    assert_eq!(p.score.unwrap().value, String::from("10"));
    assert!(p.best_move.is_none());
    let short = read_info_line("info score cp");
    assert!(short.score.is_none());
}
