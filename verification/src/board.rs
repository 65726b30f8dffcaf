//! The chess position model: positions are FEN strings, squares are indices
//! `rank * 8 + file` (a1 = 0, h8 = 63), and everything that needs the rules of
//! chess is asked of the `chess` crate through the wrappers below.
use vstd::prelude::*;

verus! {

/// A kind of chess piece (in the order of the `chess` crate).
#[derive(Debug, Clone, Copy, PartialEq, Eq, Structural)]
pub enum Piece {
    Pawn,
    Knight,
    Bishop,
    Rook,
    Queen,
    King,
}

/// A side (colour) in a game of chess.
#[derive(Debug, Clone, Copy, PartialEq, Eq, Structural)]
pub enum Side {
    White,
    Black,
}

/// Whether the side to move can still move, is stalemated or checkmated.
#[derive(Debug, Clone, Copy, PartialEq, Eq, Structural)]
pub enum BoardStatus {
    Ongoing,
    Stalemate,
    Checkmate,
}

/// A move from one square to another, with the piece a pawn promotes to.
#[derive(Debug, Clone, Copy, PartialEq, Eq, Structural)]
pub struct Move {
    pub source: u8,
    pub dest: u8,
    pub promotion: Option<Piece>,
}

/// What reading the piece placement of a FEN (its text up to the first space) has found
/// so far: whether the placement ended, whether it is well formed so far, the completed
/// ranks, the squares of the current rank, and the kings of each colour.
pub struct PlacementScan {
    pub done: bool,
    pub ok: bool,
    pub ranks: int,
    pub files: int,
    pub white_kings: int,
    pub black_kings: int,
}

/// A letter that stands for a piece in a FEN.
pub open spec fn is_piece_letter(c: char) -> bool {
    c == 'p' || c == 'n' || c == 'b' || c == 'r' || c == 'q' || c == 'k' || c == 'P' || c == 'N'
        || c == 'B' || c == 'R' || c == 'Q' || c == 'K'
}

/// Reads the piece placement of `s` from the left: `/` closes a full rank, a digit `1` to
/// `8` skips that many squares, a piece letter fills one square; a space ends the placement.
pub open spec fn placement_scan(s: Seq<char>) -> PlacementScan
    decreases s.len(),
{
    if s.len() == 0 {
        PlacementScan { done: false, ok: true, ranks: 0, files: 0, white_kings: 0, black_kings: 0 }
    } else {
        let prev = placement_scan(s.drop_last());
        let c = s.last();
        if prev.done || !prev.ok {
            prev
        } else if c == ' ' {
            PlacementScan { done: true, ..prev }
        } else if c == '/' {
            if prev.files == 8 {
                PlacementScan { ranks: prev.ranks + 1, files: 0, ..prev }
            } else {
                PlacementScan { ok: false, ..prev }
            }
        } else if '1' <= c && c <= '8' {
            if prev.files + (c as int - '0' as int) <= 8 {
                PlacementScan { files: prev.files + (c as int - '0' as int), ..prev }
            } else {
                PlacementScan { ok: false, ..prev }
            }
        } else if is_piece_letter(c) {
            if prev.files < 8 {
                PlacementScan {
                    files: prev.files + 1,
                    white_kings: prev.white_kings + if c == 'K' { 1int } else { 0int },
                    black_kings: prev.black_kings + if c == 'k' { 1int } else { 0int },
                    ..prev
                }
            } else {
                PlacementScan { ok: false, ..prev }
            }
        } else {
            PlacementScan { ok: false, ..prev }
        }
    }
}

/// The piece placement of `fen` fills eight ranks of eight squares each, with one white
/// king and one black king. The `chess` crate computes the checks against the king of the
/// side to move while it reads a position, before it rejects positions that make no
/// sense, and reads outside its tables when that king is missing; such positions are
/// therefore never handed to it.
pub open spec fn placement_ok(fen: Seq<char>) -> bool {
    let st = placement_scan(fen);
    &&& st.ok
    &&& st.ranks == 7
    &&& st.files == 8
    &&& st.white_kings == 1
    &&& st.black_kings == 1
}

/// Whether the piece placement of `fen` is one that can be handed to the `chess` crate
/// (see `placement_ok`).
pub fn placement_is_standard(fen: &str) -> (r: bool)
    ensures
        r == placement_ok(fen@),
{
    let c = crate::text::chars_of(fen);
    let mut done = false;
    let mut ok = true;
    let mut ranks: usize = 0;
    let mut files: usize = 0;
    let mut white_kings: usize = 0;
    let mut black_kings: usize = 0;
    let mut i: usize = 0;
    while i < c.len()
        invariant
            i <= c.len(),
            c@ == fen@,
            ranks <= i && files <= 8 && white_kings <= i && black_kings <= i,
            ({
                let st = placement_scan(c@.take(i as int));
                &&& st.done == done
                &&& st.ok == ok
                &&& st.ranks == ranks
                &&& st.files == files
                &&& st.white_kings == white_kings
                &&& st.black_kings == black_kings
            }),
        decreases c.len() - i,
    {
        proof {
            assert(c@.take(i + 1).drop_last() =~= c@.take(i as int));
        }
        let ch = c[i];
        if !done && ok {
            if ch == ' ' {
                done = true;
            } else if ch == '/' {
                if files == 8 {
                    ranks = ranks + 1;
                    files = 0;
                } else {
                    ok = false;
                }
            } else if '1' <= ch && ch <= '8' {
                let d = (ch as u32 - '0' as u32) as usize;
                if files + d <= 8 {
                    files = files + d;
                } else {
                    ok = false;
                }
            } else if ch == 'p' || ch == 'n' || ch == 'b' || ch == 'r' || ch == 'q' || ch == 'k'
                || ch == 'P' || ch == 'N' || ch == 'B' || ch == 'R' || ch == 'Q' || ch == 'K' {
                if files < 8 {
                    files = files + 1;
                    if ch == 'K' {
                        white_kings = white_kings + 1;
                    }
                    if ch == 'k' {
                        black_kings = black_kings + 1;
                    }
                } else {
                    ok = false;
                }
            } else {
                ok = false;
            }
        }
        i = i + 1;
    }
    proof {
        assert(c@.take(c.len() as int) =~= c@);
    }
    ok && ranks == 7 && files == 8 && white_kings == 1 && black_kings == 1
}

/// The piece that the `chess` crate finds on `square` of the position `fen`, a FEN with a
/// standard placement (`None` also when the crate rejects `fen`).
pub uninterp spec fn parsed_piece_on(fen: Seq<char>, square: u8) -> Option<Piece>;

/// The colour of the piece that the `chess` crate finds on `square` of `fen`.
pub uninterp spec fn parsed_color_on(fen: Seq<char>, square: u8) -> Option<Side>;

/// The side to move that the `chess` crate reads from `fen` (`None` when it rejects `fen`).
pub uninterp spec fn parsed_side_to_move(fen: Seq<char>) -> Option<Side>;

/// The legal move that the SAN text `san` denotes in the position `fen`, as the `chess`
/// crate reads it.
pub uninterp spec fn parsed_from_san(fen: Seq<char>, san: Seq<char>) -> Option<Move>;

/// Whether the `chess` crate finds `m` legal in the position `fen`.
pub uninterp spec fn parsed_legal(fen: Seq<char>, m: Move) -> bool;

/// The position (as the `chess` crate prints it) after playing `m` in `fen`.
pub uninterp spec fn parsed_make_move(fen: Seq<char>, m: Move) -> Seq<char>;

/// The status that the `chess` crate gives the position `fen` (`None` when it rejects it).
pub uninterp spec fn parsed_status(fen: Seq<char>) -> Option<BoardStatus>;

/// Whether the side to move in `fen` is in check, as the `chess` crate finds it.
pub uninterp spec fn parsed_in_check(fen: Seq<char>) -> Option<bool>;

/// The piece on `square` of the position `fen` (`None` when the position is not a
/// standard FEN the `chess` crate accepts).
pub open spec fn chess_piece_on(fen: Seq<char>, square: u8) -> Option<Piece> {
    if placement_ok(fen) {
        parsed_piece_on(fen, square)
    } else {
        None
    }
}

/// The colour of the piece on `square` of the position `fen`.
pub open spec fn chess_color_on(fen: Seq<char>, square: u8) -> Option<Side> {
    if placement_ok(fen) {
        parsed_color_on(fen, square)
    } else {
        None
    }
}

/// The side to move in the position `fen` (`None` when it is rejected).
pub open spec fn chess_side_to_move(fen: Seq<char>) -> Option<Side> {
    if placement_ok(fen) {
        parsed_side_to_move(fen)
    } else {
        None
    }
}

/// The legal move that the SAN text `san` denotes in the position `fen`, if exactly one does.
pub open spec fn chess_from_san(fen: Seq<char>, san: Seq<char>) -> Option<Move> {
    if placement_ok(fen) {
        parsed_from_san(fen, san)
    } else {
        None
    }
}

/// Whether `m` is a legal move in the position `fen`.
pub open spec fn chess_legal(fen: Seq<char>, m: Move) -> bool {
    placement_ok(fen) && parsed_legal(fen, m)
}

/// Whether the `chess` crate can play `m` in the position `fen` as it reads it, legal or
/// not: a piece of the side to move stands on the source square, and the opponent's king
/// does not stand on the destination.
pub open spec fn parsed_playable(fen: Seq<char>, m: Move) -> bool {
    &&& parsed_piece_on(fen, m.source) is Some
    &&& parsed_color_on(fen, m.source) == parsed_side_to_move(fen)
    &&& !(parsed_piece_on(fen, m.dest) == Some(Piece::King) && parsed_color_on(fen, m.dest)
        != parsed_side_to_move(fen))
}

/// Whether the move `m` can be played in the position `fen`, legal or not (the position
/// has a standard placement and `parsed_playable` holds).
pub open spec fn chess_playable(fen: Seq<char>, m: Move) -> bool {
    placement_ok(fen) && parsed_playable(fen, m)
}

/// The position (as the `chess` crate prints it) after playing `m` in `fen`.
pub open spec fn chess_make_move(fen: Seq<char>, m: Move) -> Seq<char> {
    if placement_ok(fen) {
        parsed_make_move(fen, m)
    } else {
        Seq::empty()
    }
}

/// The status of the position `fen` (`None` when it is rejected).
pub open spec fn chess_status(fen: Seq<char>) -> Option<BoardStatus> {
    if placement_ok(fen) {
        parsed_status(fen)
    } else {
        None
    }
}

/// Whether the side to move in `fen` is in check (`None` when it is rejected).
pub open spec fn chess_in_check(fen: Seq<char>) -> Option<bool> {
    if placement_ok(fen) {
        parsed_in_check(fen)
    } else {
        None
    }
}

/// `chess::Board::piece_on` on the position parsed from `fen` by `chess::Board::from_str`;
/// the contract names the result only. The placement must be standard (`placement_ok`):
/// reading a position without the king of the side to move reads outside the crate's
/// tables.
#[verifier::external_body]
fn parsed_piece_on_call(fen: &str, square: u8) -> (r: Option<Piece>)
    requires
        square < 64,
        placement_ok(fen@),
    ensures
        r == parsed_piece_on(fen@, square),
{
    let board: chess::Board = match fen.parse() {
        Ok(b) => b,
        Err(_) => return None,
    };
    let pieces = [Piece::Pawn, Piece::Knight, Piece::Bishop, Piece::Rook, Piece::Queen, Piece::King];
    board.piece_on(chess::ALL_SQUARES[square as usize]).map(|p| pieces[p.to_index()])
}

/// `chess::Board::color_on` on the position parsed from `fen` (a standard placement);
/// names the result only.
#[verifier::external_body]
fn parsed_color_on_call(fen: &str, square: u8) -> (r: Option<Side>)
    requires
        square < 64,
        placement_ok(fen@),
    ensures
        r == parsed_color_on(fen@, square),
{
    let board: chess::Board = match fen.parse() {
        Ok(b) => b,
        Err(_) => return None,
    };
    board.color_on(chess::ALL_SQUARES[square as usize]).map(|c| [Side::White, Side::Black][c.to_index()])
}

/// `chess::Board::side_to_move` on the position parsed from `fen` (a standard placement);
/// names the result only.
#[verifier::external_body]
fn parsed_side_to_move_call(fen: &str) -> (r: Option<Side>)
    requires
        placement_ok(fen@),
    ensures
        r == parsed_side_to_move(fen@),
{
    let board: chess::Board = match fen.parse() {
        Ok(b) => b,
        Err(_) => return None,
    };
    Some([Side::White, Side::Black][board.side_to_move().to_index()])
}

/// `chess::ChessMove::from_san` on the position parsed from `fen` (a standard placement).
/// Besides naming the result, the contract states what the crate's source shows: the move
/// it returns is taken from the legal moves of the position, so it is legal, it moves a
/// piece of the side to move without taking the opponent's king (see `parsed_legal_call`),
/// and its squares are squares.
#[verifier::external_body]
fn parsed_from_san_call(fen: &str, san: &str) -> (r: Option<Move>)
    requires
        placement_ok(fen@),
    ensures
        r == parsed_from_san(fen@, san@),
        r matches Some(m) ==> parsed_legal(fen@, m) && parsed_playable(fen@, m) && m.source < 64
            && m.dest < 64,
{
    let board: chess::Board = match fen.parse() {
        Ok(b) => b,
        Err(_) => return None,
    };
    let m = chess::ChessMove::from_san(&board, san).ok()?;
    let pieces = [Piece::Pawn, Piece::Knight, Piece::Bishop, Piece::Rook, Piece::Queen, Piece::King];
    let promotion = m.get_promotion().map(|p| pieces[p.to_index()]);
    Some(Move { source: m.get_source().to_index() as u8, dest: m.get_dest().to_index() as u8, promotion })
}

/// `chess::Board::legal` for the move `m` on the position parsed from `fen` (a standard
/// placement; false when the crate rejects `fen`). Besides naming the result, the contract
/// states what the crate's source shows: a legal move comes from `MoveGen::new_legal`, which
/// moves only pieces of the side to move, and the crate accepts a position only when the
/// side not to move is not in check, so no legal move takes the opponent's king.
#[verifier::external_body]
fn parsed_legal_call(fen: &str, m: Move) -> (r: bool)
    requires
        m.source < 64,
        m.dest < 64,
        placement_ok(fen@),
    ensures
        r == parsed_legal(fen@, m),
        r ==> parsed_playable(fen@, m),
{
    let board: chess::Board = match fen.parse() {
        Ok(b) => b,
        Err(_) => return false,
    };
    let promotion = m.promotion.map(|p| chess::ALL_PIECES[p as usize]);
    let sq = chess::ALL_SQUARES;
    board.legal(chess::ChessMove::new(sq[m.source as usize], sq[m.dest as usize], promotion))
}

/// `chess::Board::make_move_new` followed by printing the new board as FEN; the move need
/// not be legal. The crate unwraps the piece on the source square and reads its tables at
/// the square of the opponent's king after the move, so it fails when the source square is
/// empty or holds an opponent's piece, or when the opponent's king is taken: hence the
/// requirement.
#[verifier::external_body]
fn parsed_make_move_call(fen: &str, m: Move) -> (r: String)
    requires
        m.source < 64,
        m.dest < 64,
        placement_ok(fen@),
        parsed_playable(fen@, m),
    ensures
        r@ == parsed_make_move(fen@, m),
{
    let board: chess::Board = match fen.parse() {
        Ok(b) => b,
        Err(_) => return String::new(),
    };
    let promotion = m.promotion.map(|p| chess::ALL_PIECES[p as usize]);
    let sq = chess::ALL_SQUARES;
    board.make_move_new(chess::ChessMove::new(sq[m.source as usize], sq[m.dest as usize], promotion)).to_string()
}

/// `chess::Board::status` on the position parsed from `fen` (a standard placement); names
/// the result only.
#[verifier::external_body]
fn parsed_status_call(fen: &str) -> (r: Option<BoardStatus>)
    requires
        placement_ok(fen@),
    ensures
        r == parsed_status(fen@),
{
    let board: chess::Board = match fen.parse() {
        Ok(b) => b,
        Err(_) => return None,
    };
    match board.status() {
        chess::BoardStatus::Ongoing => Some(BoardStatus::Ongoing),
        chess::BoardStatus::Stalemate => Some(BoardStatus::Stalemate),
        chess::BoardStatus::Checkmate => Some(BoardStatus::Checkmate),
    }
}

/// Whether `chess::Board::checkers` of the position parsed from `fen` (a standard
/// placement) is non-empty (its `popcnt` is not zero); names the result only.
#[verifier::external_body]
fn parsed_in_check_call(fen: &str) -> (r: Option<bool>)
    requires
        placement_ok(fen@),
    ensures
        r == parsed_in_check(fen@),
{
    let board: chess::Board = match fen.parse() {
        Ok(b) => b,
        Err(_) => return None,
    };
    Some(board.checkers().popcnt() != 0)
}

/// The piece on `square` of `fen`.
pub(crate) fn piece_on(fen: &str, square: u8) -> (r: Option<Piece>)
    requires
        square < 64,
    ensures
        r == chess_piece_on(fen@, square),
{
    if placement_is_standard(fen) {
        parsed_piece_on_call(fen, square)
    } else {
        None
    }
}

/// The colour of the piece on `square` of `fen`.
pub(crate) fn color_on(fen: &str, square: u8) -> (r: Option<Side>)
    requires
        square < 64,
    ensures
        r == chess_color_on(fen@, square),
{
    if placement_is_standard(fen) {
        parsed_color_on_call(fen, square)
    } else {
        None
    }
}

/// The side to move in `fen`.
pub(crate) fn side_to_move(fen: &str) -> (r: Option<Side>)
    ensures
        r == chess_side_to_move(fen@),
{
    if placement_is_standard(fen) {
        parsed_side_to_move_call(fen)
    } else {
        None
    }
}

/// The legal move that the SAN text `san` denotes in `fen`.
pub(crate) fn move_from_san(fen: &str, san: &str) -> (r: Option<Move>)
    ensures
        r == chess_from_san(fen@, san@),
        r matches Some(m) ==> chess_legal(fen@, m) && chess_playable(fen@, m) && m.source < 64
            && m.dest < 64,
{
    if placement_is_standard(fen) {
        parsed_from_san_call(fen, san)
    } else {
        None
    }
}

/// Whether `m` is legal in `fen`.
pub(crate) fn is_legal(fen: &str, m: Move) -> (r: bool)
    requires
        m.source < 64,
        m.dest < 64,
    ensures
        r == chess_legal(fen@, m),
        r ==> chess_playable(fen@, m),
{
    placement_is_standard(fen) && parsed_legal_call(fen, m)
}

/// Whether `m` can be played in `fen`, legal or not.
pub(crate) fn is_playable(fen: &str, m: Move) -> (r: bool)
    requires
        m.source < 64,
        m.dest < 64,
    ensures
        r == chess_playable(fen@, m),
{
    if !placement_is_standard(fen) {
        return false;
    }
    let side = side_to_move(fen);
    let src_piece = piece_on(fen, m.source);
    let src_color = color_on(fen, m.source);
    let dst_piece = piece_on(fen, m.dest);
    let dst_color = color_on(fen, m.dest);
    let takes_king = match dst_piece {
        Some(Piece::King) => !same_side(dst_color, side),
        _ => false,
    };
    src_piece.is_some() && same_side(src_color, side) && !takes_king
}

/// Whether two optional sides are equal.
fn same_side(a: Option<Side>, b: Option<Side>) -> (r: bool)
    ensures
        r == (a == b),
{
    match (a, b) {
        (None, None) => true,
        (Some(Side::White), Some(Side::White)) => true,
        (Some(Side::Black), Some(Side::Black)) => true,
        _ => false,
    }
}

/// The position after playing `m` in `fen`, legal or not.
pub(crate) fn make_move(fen: &str, m: Move) -> (r: String)
    requires
        m.source < 64,
        m.dest < 64,
        chess_playable(fen@, m),
    ensures
        r@ == chess_make_move(fen@, m),
{
    parsed_make_move_call(fen, m)
}

/// The status of `fen`.
pub(crate) fn board_status(fen: &str) -> (r: Option<BoardStatus>)
    ensures
        r == chess_status(fen@),
{
    if placement_is_standard(fen) {
        parsed_status_call(fen)
    } else {
        None
    }
}

/// Whether the side to move in `fen` is in check.
pub(crate) fn in_check(fen: &str) -> (r: Option<bool>)
    ensures
        r == chess_in_check(fen@),
{
    if placement_is_standard(fen) {
        parsed_in_check_call(fen)
    } else {
        None
    }
}

} // verus!
