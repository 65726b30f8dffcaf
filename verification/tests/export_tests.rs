use offline_chess_puzzles::export::{encode_pages, export_pages, PdfOperand};
use offline_chess_puzzles::notation::PieceNames;
use offline_chess_puzzles::puzzle::Puzzle;

fn english() -> PieceNames {
    PieceNames {
        bishop: String::from("B"),
        knight: String::from("N"),
        rook: String::from("R"),
        queen: String::from("Q"),
        king: String::from("K"),
    }
}

fn fools_mate() -> Puzzle {
    Puzzle {
        puzzle_id: String::from("fool"),
        fen: String::from("rnbqkbnr/pppp1ppp/8/4p3/8/5P2/PPPPP1PP/RNBQKBNR w KQkq - 0 2"),
        moves: String::from("g2g4 d8h4"),
        rating: 600,
        rating_deviation: 80,
        popularity: 90,
        nb_plays: 100,
        themes: String::from("mate mateIn1"),
        game_url: String::from("https://lichess.org/abc/black#3"),
        opening: String::new(),
    }
}

fn texts(ops: &Vec<offline_chess_puzzles::export::PdfOp>) -> Vec<String> {
    let mut r = Vec::new();
    for op in ops {
        if op.operator == "Tj" {
            if let PdfOperand::Text(t) = &op.operands[0] {
                r.push(t.clone());
            }
        }
    }
    r
}

#[test]
fn one_puzzle_gives_a_diagram_page_and_a_solution_page() {
    let pages = export_pages(&vec![fools_mate()], 10, &english()).unwrap();
    assert_eq!(pages.len(), 2);
    let diagram = texts(&pages[0]);
    assert_eq!(diagram[0], String::from("1) Black to move. Last move: g4"));
    assert_eq!(diagram.len(), 9);
    assert_eq!(diagram[1], String::from("tJnWlNjT"));
    assert_eq!(diagram[8], String::from("RhBqKbHr"));
    let solutions = texts(&pages[1]);
    assert_eq!(solutions, vec![String::from("1)  1. ...  Qh4#")]);
}

#[test]
fn diagram_pages_hold_six_puzzles_each() {
    let six = vec![fools_mate(), fools_mate(), fools_mate(), fools_mate(), fools_mate(), fools_mate()];
    // More pages asked for than the puzzles fill: one page of six diagrams.
    let pages = export_pages(&six, 5, &english()).unwrap();
    assert_eq!(pages.len(), 2);
    assert_eq!(texts(&pages[0]).len(), 6 * 9);
    assert_eq!(texts(&pages[1]).len(), 6);
    // Twelve puzzles and three pages asked for: two pages of diagrams, then the solutions.
    let twelve: Vec<Puzzle> = (0..12).map(|_| fools_mate()).collect();
    let pages = export_pages(&twelve, 3, &english()).unwrap();
    assert_eq!(pages.len(), 3);
    assert_eq!(texts(&pages[1]).len(), 6 * 9);
    assert_eq!(texts(&pages[2]).len(), 12);
    // One page asked for out of twelve: six puzzles, diagrams and solutions.
    let pages = export_pages(&twelve, 1, &english()).unwrap();
    assert_eq!(pages.len(), 2);
    assert_eq!(texts(&pages[1]).len(), 6);
    // No page asked for: nothing but an empty solution page.
    let pages = export_pages(&twelve, 0, &english()).unwrap();
    assert_eq!(pages.len(), 1);
    assert!(texts(&pages[0]).is_empty());
}

#[test]
fn unplayable_puzzles_cannot_be_exported() {
    let mut bad = fools_mate();
    bad.moves = String::from("g3g5 d8h4");
    assert!(export_pages(&vec![bad], 1, &english()).is_none());
}

#[test]
fn pages_encode_as_pdf_content() {
    let pages = export_pages(&vec![fools_mate()], 1, &english()).unwrap();
    let bytes = encode_pages(&pages).unwrap();
    assert_eq!(bytes.len(), pages.len());
    let first = String::from_utf8_lossy(&bytes[0]).to_string();
    assert!(first.starts_with("BT\n/Regular 10 Tf\n0 0 0 rg\n75 780 Td\n"));
    assert!(first.contains("Black to move. Last move: g4"));
    assert!(first.contains("/Chess-Maya 25 Tf"));
}
