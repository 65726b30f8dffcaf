use offline_chess_puzzles::board::Piece;
use offline_chess_puzzles::board_view::SquareStyle;
use offline_chess_puzzles::config::OfflinePuzzlesConfig;
use offline_chess_puzzles::search_tab::{SearchMesssage, SearchTab};
use offline_chess_puzzles::styles::PieceTheme;
use offline_chess_puzzles::openings::{Openings, Variation};
use offline_chess_puzzles::puzzle::Puzzle;
use offline_chess_puzzles::search::{search, SearchQuery};
use offline_chess_puzzles::search_tab::{favorites_query, UrlFilter};
use offline_chess_puzzles::themes::{OpeningSide, TaticsThemes};

fn puzzle(id: &str, rating: i32, themes: &str, opening: &str, url: &str) -> Puzzle {
    Puzzle {
        puzzle_id: String::from(id),
        fen: String::from("8/8/8/8/8/8/8/k6K w - - 0 1"),
        moves: String::from("h1g1 a1b1"),
        rating,
        rating_deviation: 75,
        popularity: 90,
        nb_plays: 10,
        themes: String::from(themes),
        game_url: String::from(url),
        opening: String::from(opening),
    }
}

fn rows() -> Vec<Option<Puzzle>> {
    vec![
        Some(puzzle("a", 800, "mate mateIn1 short", "Sicilian_Defense Sicilian_Defense_Najdorf_Variation", "https://lichess.org/x/black#10")),
        None,
        Some(puzzle("b", 1500, "fork middlegame", "French_Defense", "https://lichess.org/y#20")),
        Some(puzzle("c", 900, "mate mateIn2", "Sicilian_Defense", "https://lichess.org/z#30")),
        Some(puzzle("d", 950, "endgame", "", "https://lichess.org/w#40")),
        Some(puzzle("e", 990, "mate", "Italian_Game", "https://lichess.org/v/black#50")),
    ]
}

fn ids(v: &Vec<Puzzle>) -> Vec<String> {
    v.iter().map(|p| p.puzzle_id.clone()).collect()
}

#[test]
fn search_keeps_matching_puzzles_in_order() {
    let r = search(rows(), 0, 1000, TaticsThemes::Mate, Openings::Any, Variation::any(), None, 100);
    assert_eq!(ids(&r), vec!["a", "c", "e"]);
}

#[test]
fn search_stops_at_the_limit() {
    let r = search(rows(), 0, 1000, TaticsThemes::Mate, Openings::Any, Variation::any(), None, 2);
    assert_eq!(ids(&r), vec!["a", "c"]);
}

#[test]
fn search_filters_by_rating_range() {
    let r = search(rows(), 850, 950, TaticsThemes::All, Openings::Any, Variation::any(), None, 100);
    assert_eq!(ids(&r), vec!["c", "d"]);
}

#[test]
fn search_by_opening_and_side() {
    let any = search(rows(), 0, 3000, TaticsThemes::All, Openings::Sicilian, Variation::any(), Some(OpeningSide::Any), 100);
    assert_eq!(ids(&any), vec!["a", "c"]);
    let white = search(rows(), 0, 3000, TaticsThemes::All, Openings::Sicilian, Variation::any(), Some(OpeningSide::White), 100);
    assert_eq!(ids(&white), vec!["a"]);
    let black = search(rows(), 0, 3000, TaticsThemes::All, Openings::Sicilian, Variation::any(), Some(OpeningSide::Black), 100);
    assert_eq!(ids(&black), vec!["c"]);
}

#[test]
fn search_by_variation() {
    let najdorf = Variation { name: String::from("Sicilian_Defense_Najdorf_Variation"), family: Openings::Sicilian };
    let r = search(rows(), 0, 3000, TaticsThemes::All, Openings::Sicilian, najdorf, None, 100);
    assert_eq!(ids(&r), vec!["a"]);
}

#[test]
fn a_limit_of_zero_fetches_nothing() {
    let none = search(rows(), 0, 3000, TaticsThemes::Fork, Openings::Any, Variation::any(), None, 0);
    assert_eq!(ids(&none), Vec::<String>::new());
    let also_none = search(rows(), 0, 3000, TaticsThemes::Mate, Openings::Any, Variation::any(), None, 0);
    assert_eq!(ids(&also_none), Vec::<String>::new());
}

#[test]
fn favorites_query_patterns() {
    let q = SearchQuery {
        min_rating: 100,
        max_rating: 900,
        theme: TaticsThemes::MateIn2,
        opening: Openings::Sicilian,
        variation: Variation::any(),
        op_side: Some(OpeningSide::White),
    };
    let f = favorites_query(&q, 20000);
    assert_eq!(f.themes_like, String::from("%mateIn2%"));
    assert_eq!(f.opening_like, Some(String::from("%Sicilian_Defense%")));
    assert_eq!(f.url_filter, Some(UrlFilter::NamesBlack));
    assert_eq!(f.limit, 20000);
    let q2 = SearchQuery { opening: Openings::Any, ..q };
    let f2 = favorites_query(&q2, 5);
    assert_eq!(f2.opening_like, None);
    assert_eq!(f2.url_filter, None);
}

#[test]
fn promotion_picker_marks_the_chosen_piece() {
    let c = OfflinePuzzlesConfig::default();
    let mut t = SearchTab::new(&c);
    let b = t.promotion_choices();
    assert_eq!(b[3].piece, Piece::Queen);
    assert_eq!(b[3].style, SquareStyle::DarkSquare);
    assert_eq!(b[0].image, Some(String::from("pieces/cburnett/wR.svg")));
    t.update(SearchMesssage::SelectPiecePromotion(Piece::Knight));
    t.piece_theme_promotion = PieceTheme::FontAlpha;
    let f = t.promotion_choices();
    let letters: Vec<char> = f.iter().map(|x| x.glyph.unwrap()).collect();
    assert_eq!(letters, vec!['r', 'H', 'b', 'q']);
    assert!(!t.shows_side_choice());
}
