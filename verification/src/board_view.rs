//! What the board shows: the order of the squares seen from the player's side, the colour
//! of each square, the highlighted squares, the glyph or image of each piece, the
//! coordinates around the board, and which buttons below it can be pressed.
use vstd::prelude::*;
use vstd::string::*;
use crate::board::{Piece, Side, chess_piece_on, chess_color_on, piece_on, color_on};
use crate::puzzle::{GameMode, GameStatus};
use crate::styles::PieceTheme;

verus! {

broadcast use vstd::string::group_string_axioms;

/// A place on the board as the interface lays it out.
#[derive(Clone, Copy, Debug, PartialEq, Eq, PartialOrd, Ord)]
pub struct PositionGUI {
    pub row: i32,
    pub col: i32,
}

/// The tabs beside the board.
#[derive(Copy, Clone, PartialEq, Eq, Debug, Structural)]
pub enum TabId {
    Search,
    Settings,
    CurrentPuzzle,
}

impl TabId {
    /// The message key of the tab's title.
    pub fn title_key(&self) -> (r: &'static str)
        ensures
            r@ == (match self {
                TabId::Search => "search"@,
                TabId::Settings => "settings"@,
                TabId::CurrentPuzzle => "current_puzzle"@,
            }),
    {
        match self {
            TabId::Search => "search",
            TabId::Settings => "settings",
            TabId::CurrentPuzzle => "current_puzzle",
        }
    }
}

/// The board is seen from White's side when the puzzle is White's, unless the player
/// asked to flip it.
pub open spec fn spec_from_white(side: Side, flip_board: bool) -> bool {
    (side == Side::White) != flip_board
}

/// Whether the board is seen from White's side.
pub fn board_from_white(side: Side, flip_board: bool) -> (r: bool)
    ensures
        r == spec_from_white(side, flip_board),
{
    let white = match side {
        Side::White => true,
        Side::Black => false,
    };
    white != flip_board
}

/// The square shown at place `i` (row by row from the top, left to right): from White's
/// side the eighth rank is on top and the a-file on the left, from Black's side the first
/// rank is on top and the h-file on the left.
pub open spec fn display_square(from_white: bool, i: int) -> int {
    let row = i / 8;
    let col = i % 8;
    if from_white {
        (7 - row) * 8 + col
    } else {
        row * 8 + (7 - col)
    }
}

/// The squares in the order the board shows them.
pub fn display_order(from_white: bool) -> (r: Vec<u8>)
    ensures
        r@.len() == 64,
        forall|i: int| 0 <= i < 64 ==> r@[i] == display_square(from_white, i),
{
    let mut r: Vec<u8> = Vec::new();
    let mut i: u8 = 0;
    while i < 64
        invariant
            i <= 64,
            r@.len() == i,
            forall|k: int| 0 <= k < i ==> r@[k] == display_square(from_white, k),
        decreases 64 - i,
    {
        let row = i / 8;
        let col = i % 8;
        let sq = if from_white {
            (7 - row) * 8 + col
        } else {
            row * 8 + (7 - col)
        };
        r.push(sq);
        i = i + 1;
    }
    r
}

/// A square is light when the sum of its rank and file indices is odd (a1 is dark).
pub open spec fn light_square(sq: u8) -> bool {
    (sq / 8 + sq % 8) % 2 != 0
}

/// Whether the square `sq` is light.
pub fn is_light_square(sq: u8) -> (r: bool)
    ensures
        r == light_square(sq),
{
    (sq / 8 + sq % 8) % 2 != 0
}

/// The highlighted squares: in a puzzle the selected square, the last move's two squares
/// and the hint; on the analysis board only the selected square.
pub open spec fn highlighted(
    mode: GameMode,
    sq: u8,
    from: Option<u8>,
    last_from: Option<u8>,
    last_to: Option<u8>,
    hint: Option<u8>,
) -> bool {
    if mode == GameMode::Puzzle {
        from == Some(sq) || last_from == Some(sq) || last_to == Some(sq) || hint == Some(sq)
    } else {
        from == Some(sq)
    }
}

/// The look of a square of the board.
#[derive(Copy, Clone, PartialEq, Eq, Debug, Structural)]
pub enum SquareStyle {
    Paper,
    SelectedPaper,
    LightSquare,
    SelectedLightSquare,
    DarkSquare,
    SelectedDarkSquare,
}

/// The look of a square: paper for the chess font, else light or dark, highlighted or not.
pub open spec fn square_style(font: bool, light: bool, selected: bool) -> SquareStyle {
    if font {
        if selected {
            SquareStyle::SelectedPaper
        } else {
            SquareStyle::Paper
        }
    } else if light {
        if selected {
            SquareStyle::SelectedLightSquare
        } else {
            SquareStyle::LightSquare
        }
    } else if selected {
        SquareStyle::SelectedDarkSquare
    } else {
        SquareStyle::DarkSquare
    }
}

/// The letter of a piece in the chess font: White's pieces `P R H B Q K`, Black's
/// `O T J N W L`, in lower case on light squares; an empty square is `0` when light, `+`
/// when dark.
pub open spec fn font_glyph(piece: Option<Piece>, color: Option<Side>, light: bool) -> char {
    match (piece, color) {
        (Some(p), Some(c)) => {
            let upper = if c == Side::White {
                match p {
                    Piece::Pawn => 'P',
                    Piece::Rook => 'R',
                    Piece::Knight => 'H',
                    Piece::Bishop => 'B',
                    Piece::Queen => 'Q',
                    Piece::King => 'K',
                }
            } else {
                match p {
                    Piece::Pawn => 'O',
                    Piece::Rook => 'T',
                    Piece::Knight => 'J',
                    Piece::Bishop => 'N',
                    Piece::Queen => 'W',
                    Piece::King => 'L',
                }
            };
            if light {
                ((upper as u8) + 32) as char
            } else {
                upper
            }
        },
        _ => if light {
            '0'
        } else {
            '+'
        },
    }
}

/// The letter of a piece in the chess font (see `font_glyph`).
pub fn glyph(piece: Option<Piece>, color: Option<Side>, light: bool) -> (r: char)
    ensures
        r == font_glyph(piece, color, light),
{
    match (piece, color) {
        (Some(p), Some(c)) => {
            let upper: u8 = match c {
                Side::White => match p {
                    Piece::Pawn => 80,
                    Piece::Rook => 82,
                    Piece::Knight => 72,
                    Piece::Bishop => 66,
                    Piece::Queen => 81,
                    Piece::King => 75,
                },
                Side::Black => match p {
                    Piece::Pawn => 79,
                    Piece::Rook => 84,
                    Piece::Knight => 74,
                    Piece::Bishop => 78,
                    Piece::Queen => 87,
                    Piece::King => 76,
                },
            };
            if light {
                (upper + 32) as char
            } else {
                upper as char
            }
        },
        _ => if light {
            '0'
        } else {
            '+'
        },
    }
}

/// The file of a piece's image: `w` or `b`, then the piece's letter (`P N B R Q K`).
pub open spec fn image_file(p: Piece, c: Side) -> Seq<char> {
    let letter = match p {
        Piece::Pawn => 'P',
        Piece::Rook => 'R',
        Piece::Knight => 'N',
        Piece::Bishop => 'B',
        Piece::Queen => 'Q',
        Piece::King => 'K',
    };
    seq![if c == Side::White { 'w' } else { 'b' }, letter] + ".svg"@
}

/// The path of a piece's image in the piece set `theme`.
pub open spec fn image_path(theme: PieceTheme, p: Piece, c: Side) -> Seq<char> {
    "pieces/"@ + theme.spec_name() + "/"@ + image_file(p, c)
}

/// The path of the image of a piece of colour `c` in the piece set `theme`.
pub fn piece_image(theme: PieceTheme, p: Piece, c: Side) -> (r: String)
    ensures
        r@ == image_path(theme, p, c),
{
    let file = match (c, p) {
        (Side::White, Piece::Pawn) => "wP.svg",
        (Side::White, Piece::Rook) => "wR.svg",
        (Side::White, Piece::Knight) => "wN.svg",
        (Side::White, Piece::Bishop) => "wB.svg",
        (Side::White, Piece::Queen) => "wQ.svg",
        (Side::White, Piece::King) => "wK.svg",
        (Side::Black, Piece::Pawn) => "bP.svg",
        (Side::Black, Piece::Rook) => "bR.svg",
        (Side::Black, Piece::Knight) => "bN.svg",
        (Side::Black, Piece::Bishop) => "bB.svg",
        (Side::Black, Piece::Queen) => "bQ.svg",
        (Side::Black, Piece::King) => "bK.svg",
    };
    proof {
        reveal_strlit("wP.svg");
        reveal_strlit("wR.svg");
        reveal_strlit("wN.svg");
        reveal_strlit("wB.svg");
        reveal_strlit("wQ.svg");
        reveal_strlit("wK.svg");
        reveal_strlit("bP.svg");
        reveal_strlit("bR.svg");
        reveal_strlit("bN.svg");
        reveal_strlit("bB.svg");
        reveal_strlit("bQ.svg");
        reveal_strlit("bK.svg");
        reveal_strlit(".svg");
        assert(file@ =~= image_file(p, c));
    }
    String::from_str("pieces/").concat(theme.name()).concat("/").concat(file)
}

/// What one square of the board shows: which square it is, its look, and its content (a
/// letter of the chess font, or the image of a piece, or nothing).
#[derive(Debug, Clone)]
pub struct SquareView {
    pub square: u8,
    pub style: SquareStyle,
    pub glyph: Option<char>,
    pub image: Option<String>,
}

/// What the square `sq` of `fen` shows with the piece set `theme`.
pub open spec fn square_shows(
    fen: Seq<char>,
    sq: u8,
    theme: PieceTheme,
    selected: bool,
    v: SquareView,
) -> bool {
    let font = theme == PieceTheme::FontAlpha;
    let light = light_square(sq);
    let piece = chess_piece_on(fen, sq);
    let color = chess_color_on(fen, sq);
    &&& v.square == sq
    &&& v.style == square_style(font, light, selected)
    &&& font ==> v.glyph == Some(font_glyph(piece, color, light)) && v.image is None
    &&& !font ==> v.glyph is None && match (piece, color) {
        (Some(p), Some(c)) => v.image matches Some(s) && s@ == image_path(theme, p, c),
        _ => v.image is None,
    }
}

/// The 64 squares of the board as they are shown, in display order: the puzzle's board or
/// the analysis board, seen from the side `from_white` says.
pub fn board_squares(
    mode: GameMode,
    board: &str,
    analysis: &str,
    from_white: bool,
    from_square: Option<u8>,
    last_move_from: Option<u8>,
    last_move_to: Option<u8>,
    hint_square: Option<u8>,
    theme: PieceTheme,
) -> (r: Vec<SquareView>)
    ensures
        r@.len() == 64,
        forall|i: int|
            0 <= i < 64 ==> {
                let sq = display_square(from_white, i) as u8;
                square_shows(
                    if mode == GameMode::Analysis {
                        analysis@
                    } else {
                        board@
                    },
                    sq,
                    theme,
                    highlighted(mode, sq, from_square, last_move_from, last_move_to, hint_square),
                    #[trigger] r@[i],
                )
            },
{
    let fen = match mode {
        GameMode::Analysis => analysis,
        GameMode::Puzzle => board,
    };
    let font = theme == PieceTheme::FontAlpha;
    let order = display_order(from_white);
    let mut r: Vec<SquareView> = Vec::new();
    let mut i: usize = 0;
    while i < 64
        invariant
            i <= 64,
            order@.len() == 64,
            forall|k: int| 0 <= k < 64 ==> order@[k] == display_square(from_white, k),
            fen@ == (if mode == GameMode::Analysis {
                analysis@
            } else {
                board@
            }),
            font == (theme == PieceTheme::FontAlpha),
            r@.len() == i,
            forall|k: int|
                0 <= k < i ==> {
                    let sq = display_square(from_white, k) as u8;
                    square_shows(
                        fen@,
                        sq,
                        theme,
                        highlighted(mode, sq, from_square, last_move_from, last_move_to, hint_square),
                        #[trigger] r@[k],
                    )
                },
        decreases 64 - i,
    {
        let sq = order[i];
        assert(sq < 64) by {
            assert(order@[i as int] == display_square(from_white, i as int));
        }
        let selected = match mode {
            GameMode::Puzzle => from_square == Some(sq) || last_move_from == Some(sq)
                || last_move_to == Some(sq) || hint_square == Some(sq),
            GameMode::Analysis => from_square == Some(sq),
        };
        let light = is_light_square(sq);
        let piece = piece_on(fen, sq);
        let color = color_on(fen, sq);
        let style = if font {
            if selected {
                SquareStyle::SelectedPaper
            } else {
                SquareStyle::Paper
            }
        } else if light {
            if selected {
                SquareStyle::SelectedLightSquare
            } else {
                SquareStyle::LightSquare
            }
        } else if selected {
            SquareStyle::SelectedDarkSquare
        } else {
            SquareStyle::DarkSquare
        };
        let view = if font {
            SquareView { square: sq, style, glyph: Some(glyph(piece, color, light)), image: None }
        } else {
            let image = match (piece, color) {
                (Some(p), Some(c)) => Some(piece_image(theme, p, c)),
                _ => None,
            };
            SquareView { square: sq, style, glyph: None, image }
        };
        r.push(view);
        i = i + 1;
    }
    r
}

/// The file letters under the board, from left to right.
pub fn file_labels(from_white: bool) -> (r: Vec<char>)
    ensures
        r@ == (if from_white {
            seq!['a', 'b', 'c', 'd', 'e', 'f', 'g', 'h']
        } else {
            seq!['h', 'g', 'f', 'e', 'd', 'c', 'b', 'a']
        }),
{
    let mut r: Vec<char> = Vec::new();
    if from_white {
        r.push('a');
        r.push('b');
        r.push('c');
        r.push('d');
        r.push('e');
        r.push('f');
        r.push('g');
        r.push('h');
    } else {
        r.push('h');
        r.push('g');
        r.push('f');
        r.push('e');
        r.push('d');
        r.push('c');
        r.push('b');
        r.push('a');
    }
    r
}

/// The rank digit beside the board's row `row` (counted from the top).
pub fn rank_label(from_white: bool, row: u8) -> (r: char)
    requires
        row < 8,
    ensures
        r == (('1' as int) + display_square(from_white, row * 8) / 8) as char,
{
    let rank = if from_white {
        7 - row
    } else {
        row
    };
    (49 + rank) as char
}

/// Which buttons below the board can be pressed.
#[derive(Debug, Clone, Copy, PartialEq, Eq, Structural)]
pub enum Navigation {
    /// On the analysis board: take back a move; start or stop the engine.
    Analysis { takeback: bool, engine_started: bool },
    /// In a puzzle: previous and next puzzle, start again, favorite, hint; the favorite
    /// button offers to remove the puzzle from the favorites when it is one.
    Puzzle { previous: bool, next: bool, redo: bool, favorite: bool, hint: bool, is_favorite: bool },
}

/// The buttons below the board: on the analysis board a move can be taken back while the
/// history reaches past the puzzle's current move; in a puzzle the previous and next
/// puzzles exist, starting again and the favorite button need a puzzle, and a hint needs a
/// puzzle being played.
pub open spec fn spec_navigation(
    mode: GameMode,
    puzzles_len: nat,
    current_puzzle: nat,
    history_len: nat,
    current_puzzle_move: nat,
    status: GameStatus,
    engine_started: bool,
    is_favorite: bool,
) -> Navigation {
    if mode == GameMode::Analysis {
        Navigation::Analysis { takeback: history_len > current_puzzle_move, engine_started }
    } else {
        Navigation::Puzzle {
            previous: puzzles_len > 0 && current_puzzle > 0,
            next: puzzles_len > 0 && current_puzzle + 1 < puzzles_len,
            redo: status != GameStatus::NoPuzzles,
            favorite: status != GameStatus::NoPuzzles,
            hint: status == GameStatus::Playing,
            is_favorite,
        }
    }
}

/// Which buttons below the board can be pressed (see `spec_navigation`).
pub fn navigation(
    mode: GameMode,
    puzzles_len: usize,
    current_puzzle: usize,
    history_len: usize,
    current_puzzle_move: usize,
    status: GameStatus,
    engine_started: bool,
    is_favorite: bool,
) -> (r: Navigation)
    ensures
        r == spec_navigation(
            mode,
            puzzles_len as nat,
            current_puzzle as nat,
            history_len as nat,
            current_puzzle_move as nat,
            status,
            engine_started,
            is_favorite,
        ),
{
    match mode {
        GameMode::Analysis => Navigation::Analysis {
            takeback: history_len > current_puzzle_move,
            engine_started,
        },
        GameMode::Puzzle => Navigation::Puzzle {
            previous: puzzles_len > 0 && current_puzzle > 0,
            next: puzzles_len > 0 && current_puzzle < puzzles_len - 1,
            redo: status != GameStatus::NoPuzzles,
            favorite: status != GameStatus::NoPuzzles,
            hint: status == GameStatus::Playing,
            is_favorite,
        },
    }
}

/// The board seen from Black's side shows the squares in the reverse order of the board
/// seen from White's side.
pub proof fn lemma_flipped_order_reversed(i: int)
    requires
        0 <= i < 64,
    ensures
        display_square(false, i) == display_square(true, 63 - i),
{
}

/// The place (0 to 63) at which square `sq` is shown.
pub open spec fn display_place(from_white: bool, sq: int) -> int {
    if from_white {
        (7 - sq / 8) * 8 + sq % 8
    } else {
        (sq / 8) * 8 + (7 - sq % 8)
    }
}

proof fn lemma_place_inverse(from_white: bool, i: int)
    requires
        0 <= i < 64,
    ensures
        0 <= display_square(from_white, i) < 64,
        display_place(from_white, display_square(from_white, i)) == i,
{
    let row = i / 8;
    let col = i % 8;
    assert(0 <= row < 8 && 0 <= col < 8 && i == row * 8 + col);
    let sq = display_square(from_white, i);
    if from_white {
        assert(sq == (7 - row) * 8 + col);
        assert(sq / 8 == 7 - row && sq % 8 == col);
    } else {
        assert(sq == row * 8 + (7 - col));
        assert(sq / 8 == row && sq % 8 == 7 - col);
    }
}

/// Every place of the board shows a different square, and every square is shown.
pub proof fn lemma_display_is_permutation(from_white: bool, sq: int)
    requires
        0 <= sq < 64,
    ensures
        exists|i: int| 0 <= i < 64 && display_square(from_white, i) == sq,
        forall|i: int, j: int|
            0 <= i < 64 && 0 <= j < 64 && i != j ==> #[trigger] display_square(from_white, i)
                != #[trigger] display_square(from_white, j),
{
    let row = sq / 8;
    let col = sq % 8;
    assert(0 <= row < 8 && 0 <= col < 8 && sq == row * 8 + col);
    let i = display_place(from_white, sq);
    assert(display_square(from_white, i) == sq);
    assert forall|i: int, j: int|
        0 <= i < 64 && 0 <= j < 64 && i != j implies #[trigger] display_square(from_white, i)
            != #[trigger] display_square(from_white, j) by {
        lemma_place_inverse(from_white, i);
        lemma_place_inverse(from_white, j);
    }
}

} // verus!
