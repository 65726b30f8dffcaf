//! Exporting puzzles to a PDF: pages of diagrams (six puzzles a page, each with whose move
//! it is and the opponent's last move), then pages of solutions in algebraic notation.
//! The pages are lists of PDF content operations; their bytes come from the `lopdf`
//! crate, and the application puts them into a document with the fonts and saves it.
use vstd::prelude::*;
use vstd::string::*;
use crate::board::{Side, chess_piece_on, chess_color_on, chess_side_to_move, chess_playable,
    chess_make_move, piece_on, color_on, side_to_move, is_playable, make_move};
use crate::board_view::{font_glyph, light_square, glyph, is_light_square};
use crate::decimal::{decimal, format_u64};
use crate::notation::{PieceNames, valid_coords, spec_coord_to_san, coord_to_san};
use crate::puzzle::Puzzle;
use crate::session::{uci_ok, uci_move, puzzle_moves, puzzle_startable, parse_uci};
use crate::text::{views, split_whitespace, chars_of, push_char};

verus! {

broadcast use vstd::string::group_string_axioms;

/// An operand of a PDF content operation.
#[derive(Debug, Clone)]
pub enum PdfOperand {
    Integer(i64),
    Name(String),
    Text(String),
}

/// A PDF content operation: an operator and its operands.
#[derive(Debug, Clone)]
pub struct PdfOp {
    pub operator: String,
    pub operands: Vec<PdfOperand>,
}

/// An operand in mathematical terms.
pub enum OperandSpec {
    Integer(i64),
    Name(Seq<char>),
    Text(Seq<char>),
}

/// An operation in mathematical terms.
pub struct OpSpec {
    pub operator: Seq<char>,
    pub operands: Seq<OperandSpec>,
}

impl View for PdfOperand {
    type V = OperandSpec;

    open spec fn view(&self) -> OperandSpec {
        match self {
            PdfOperand::Integer(n) => OperandSpec::Integer(*n),
            PdfOperand::Name(s) => OperandSpec::Name(s@),
            PdfOperand::Text(s) => OperandSpec::Text(s@),
        }
    }
}

impl View for PdfOp {
    type V = OpSpec;

    open spec fn view(&self) -> OpSpec {
        OpSpec { operator: self.operator@, operands: self.operands@.map_values(|o: PdfOperand| o@) }
    }
}

/// Operations in mathematical terms.
pub open spec fn op_views(ops: Seq<PdfOp>) -> Seq<OpSpec> {
    ops.map_values(|o: PdfOp| o@)
}

/// The bytes of a PDF content stream holding the operations `ops`, as `lopdf` encodes them.
pub uninterp spec fn pdf_content(ops: Seq<OpSpec>) -> Seq<u8>;

/// `lopdf::content::Content::encode` of the operations `ops` (integers, names and literal
/// strings as `lopdf::Object`s). The bytes are named, as a function of the operations.
/// Encoding only writes into a `Vec<u8>`: in the crate's source its only errors are those
/// of the writes, and std's `Write` for `Vec<u8>` appends and does not fail, so the
/// contract says that it succeeds.
#[verifier::external_body]
fn encode_content(ops: &Vec<PdfOp>) -> (r: Option<Vec<u8>>)
    ensures
        r is Some,
        r matches Some(b) ==> b@ == pdf_content(op_views(ops@)),
{
    let operations: Vec<lopdf::content::Operation> = ops.iter().map(|op| lopdf::content::Operation::new(
        op.operator.as_str(),
        op.operands.iter().map(|x| match x {
            PdfOperand::Integer(n) => lopdf::Object::Integer(*n),
            PdfOperand::Name(s) => lopdf::Object::Name(s.as_bytes().to_vec()),
            PdfOperand::Text(s) => lopdf::Object::string_literal(s.as_str()),
        }).collect(),
    )).collect();
    lopdf::content::Content { operations }.encode().ok()
}

/// An operation with its operands.
pub open spec fn op(operator: Seq<char>, operands: Seq<OperandSpec>) -> OpSpec {
    OpSpec { operator, operands }
}

/// The start of a text object: `BT`, the font, black filling, and the text position
/// `Td x y`.
pub open spec fn begin_ops(font: Seq<char>, size: i64, x: i64, y: i64) -> Seq<OpSpec> {
    seq![
        op("BT"@, seq![]),
        op("Tf"@, seq![OperandSpec::Name(font), OperandSpec::Integer(size)]),
        op("rg"@, seq![OperandSpec::Integer(0), OperandSpec::Integer(0), OperandSpec::Integer(0)]),
        op("Td"@, seq![OperandSpec::Integer(x), OperandSpec::Integer(y)]),
    ]
}

/// A line of text in the font `font` of size `size`, placed by `Td x y`.
pub open spec fn text_ops(font: Seq<char>, size: i64, x: i64, y: i64, text: Seq<char>) -> Seq<OpSpec> {
    begin_ops(font, size, x, y) + seq![op("Tj"@, seq![OperandSpec::Text(text)]), op("ET"@, seq![])]
}

fn new_op(operator: &str, operands: Vec<PdfOperand>) -> (r: PdfOp)
    ensures
        r@ == op(operator@, operands@.map_values(|o: PdfOperand| o@)),
{
    PdfOp { operator: String::from_str(operator), operands }
}

fn no_operands() -> (r: Vec<PdfOperand>)
    ensures
        r@.map_values(|o: PdfOperand| o@) =~= Seq::<OperandSpec>::empty(),
{
    Vec::new()
}

fn int_operands(a: i64, b: i64) -> (r: Vec<PdfOperand>)
    ensures
        r@.map_values(|o: PdfOperand| o@) =~= seq![OperandSpec::Integer(a), OperandSpec::Integer(b)],
{
    let mut r: Vec<PdfOperand> = Vec::new();
    r.push(PdfOperand::Integer(a));
    r.push(PdfOperand::Integer(b));
    r
}

fn text_operand(t: String) -> (r: Vec<PdfOperand>)
    ensures
        r@.map_values(|o: PdfOperand| o@) =~= seq![OperandSpec::Text(t@)],
{
    let mut r: Vec<PdfOperand> = Vec::new();
    r.push(PdfOperand::Text(t));
    r
}

/// Appends `BT`, `Tf font size`, `rg 0 0 0` and `Td x y`.
fn begin_text(ops: &mut Vec<PdfOp>, font: &str, size: i64, x: i64, y: i64)
    ensures
        op_views(final(ops)@) =~~= op_views(old(ops)@) + begin_ops(font@, size, x, y),
{
    let ghost o = op_views(ops@);
    let bt = new_op("BT", no_operands());
    let mut f: Vec<PdfOperand> = Vec::new();
    f.push(PdfOperand::Name(String::from_str(font)));
    f.push(PdfOperand::Integer(size));
    assert(f@.map_values(|o: PdfOperand| o@) =~~= seq![OperandSpec::Name(font@), OperandSpec::Integer(size)]);
    let tf = new_op("Tf", f);
    let mut c: Vec<PdfOperand> = Vec::new();
    c.push(PdfOperand::Integer(0));
    c.push(PdfOperand::Integer(0));
    c.push(PdfOperand::Integer(0));
    assert(c@.map_values(|o: PdfOperand| o@) =~~= seq![
        OperandSpec::Integer(0),
        OperandSpec::Integer(0),
        OperandSpec::Integer(0),
    ]);
    let rg = new_op("rg", c);
    let td = new_op("Td", int_operands(x, y));
    let ghost b = seq![bt@, tf@, rg@, td@];
    assert(b =~~= begin_ops(font@, size, x, y));
    ops.push(bt);
    ops.push(tf);
    ops.push(rg);
    ops.push(td);
    assert(op_views(ops@) =~~= o + b);
}

/// Appends a line of text (see `text_ops`).
fn push_text(ops: &mut Vec<PdfOp>, font: &str, size: i64, x: i64, y: i64, text: String)
    ensures
        op_views(final(ops)@) =~~= op_views(old(ops)@) + text_ops(font@, size, x, y, text@),
{
    let ghost t = text@;
    begin_text(ops, font, size, x, y);
    let ghost o = op_views(ops@);
    let tj = new_op("Tj", text_operand(text));
    let et = new_op("ET", no_operands());
    let ghost tail = seq![tj@, et@];
    assert(tail =~~= seq![op("Tj"@, seq![OperandSpec::Text(t)]), op("ET"@, seq![])]);
    ops.push(tj);
    ops.push(et);
    assert(op_views(ops@) =~~= o + tail);
}


/// The letters of the diagram row of rank `rank` (0 for the first rank): the chess-font
/// letter of each of its squares, from the a-file to the h-file.
pub open spec fn rank_text(fen: Seq<char>, rank: int) -> Seq<char> {
    Seq::new(
        8,
        |f: int|
            font_glyph(
                chess_piece_on(fen, (rank * 8 + f) as u8),
                chess_color_on(fen, (rank * 8 + f) as u8),
                light_square((rank * 8 + f) as u8),
            ),
    )
}

/// The first `n` rows of a diagram, the eighth rank first, each followed by a step down of
/// 25 points.
pub open spec fn diagram_rows(fen: Seq<char>, n: int) -> Seq<OpSpec>
    decreases n,
{
    if n <= 0 {
        seq![]
    } else {
        diagram_rows(fen, n - 1) + seq![
            op("Tj"@, seq![OperandSpec::Text(rank_text(fen, 8 - n))]),
            op("Td"@, seq![OperandSpec::Integer(0), OperandSpec::Integer(-25i64)]),
        ]
    }
}

/// The opponent's move that sets up puzzle `p`, in algebraic notation (written in the
/// puzzle's position, before it is played).
pub open spec fn first_move_san(p: Puzzle, names: PieceNames) -> Option<Seq<char>> {
    spec_coord_to_san(p.fen@, puzzle_moves(p)[0].take(4), names)
}

/// A puzzle can be drawn as a diagram: it can be set up and its first move written.
pub open spec fn diagram_writable(p: Puzzle, names: PieceNames) -> bool {
    puzzle_startable(p) && first_move_san(p, names) is Some
}

/// The caption of diagram number `index`: whose move it is in the puzzle and the
/// opponent's last move (`...` before it when that move was Black's).
pub open spec fn diagram_caption(index: nat, fen: Seq<char>, san: Seq<char>) -> Seq<char> {
    if chess_side_to_move(fen) == Some(Side::White) {
        decimal(index) + ") Black to move. Last move: "@ + san
    } else {
        decimal(index) + ") White to move. Last move: ... "@ + san
    }
}

/// The operations that draw diagram number `index` for puzzle `p` at `(x, y)`: the caption
/// 30 points above, then the eight rows in the chess font.
pub open spec fn diagram_ops(index: nat, p: Puzzle, names: PieceNames, x: i64, y: i64) -> Seq<OpSpec> {
    let after = chess_make_move(p.fen@, uci_move(puzzle_moves(p)[0]));
    text_ops("Regular"@, 10, y, (x + 30) as i64, diagram_caption(index, p.fen@, first_move_san(p, names)->0))
        + begin_ops("Chess-Maya"@, 25, y, x) + diagram_rows(after, 8) + seq![op("ET"@, seq![])]
}

/// The diagram row of rank `rank` of `fen`.
fn rank_string(fen: &str, rank: u8) -> (r: String)
    requires
        rank < 8,
    ensures
        r@ == rank_text(fen@, rank as int),
{
    let mut r = String::new();
    let mut f: u8 = 0;
    while f < 8
        invariant
            rank < 8,
            f <= 8,
            r@ =~= rank_text(fen@, rank as int).take(f as int),
        decreases 8 - f,
    {
        let sq = rank * 8 + f;
        let c = glyph(piece_on(fen, sq), color_on(fen, sq), is_light_square(sq));
        push_char(&mut r, c);
        f = f + 1;
    }
    r
}


/// The first four characters of `c`.
fn first_four(c: &Vec<char>) -> (r: String)
    requires
        c@.len() >= 4,
    ensures
        r@ =~= c@.take(4),
{
    let mut r = String::new();
    push_char(&mut r, c[0]);
    push_char(&mut r, c[1]);
    push_char(&mut r, c[2]);
    push_char(&mut r, c[3]);
    r
}

/// Draws diagram number `index` for puzzle `p` at `(x, y)`; `None` when the puzzle cannot
/// be set up or its first move cannot be written.
fn diagram(index: usize, p: &Puzzle, names: &PieceNames, x: i64, y: i64) -> (r: Option<Vec<PdfOp>>)
    requires
        0 <= x <= 1000,
        0 <= y <= 1000,
    ensures
        r is Some <==> diagram_writable(*p, *names),
        r matches Some(o) ==> op_views(o@) =~~= diagram_ops(index as nat, *p, *names, x, y),
{
    let ws = split_whitespace(p.moves.as_str());
    if ws.len() == 0 {
        return None;
    }
    proof {
        assert(views(ws@)[0] == ws@[0]@);
    }
    let m = match parse_uci(&ws[0]) {
        Some(m) => m,
        None => return None,
    };
    if !is_playable(p.fen.as_str(), m) {
        return None;
    }
    let c = chars_of(ws[0].as_str());
    let first = first_four(&c);
    let san = match coord_to_san(p.fen.as_str(), first.as_str(), names) {
        Some(s) => s,
        None => return None,
    };
    let white = match side_to_move(p.fen.as_str()) {
        Some(Side::White) => true,
        _ => false,
    };
    let number = format_u64(index as u64);
    let caption = if white {
        number.concat(") Black to move. Last move: ").concat(san.as_str())
    } else {
        number.concat(") White to move. Last move: ... ").concat(san.as_str())
    };
    let after = make_move(p.fen.as_str(), m);
    let mut ops: Vec<PdfOp> = Vec::new();
    push_text(&mut ops, "Regular", 10, y, x + 30, caption);
    begin_text(&mut ops, "Chess-Maya", 25, y, x);
    let ghost head = op_views(ops@);
    let mut k: u8 = 0;
    while k < 8
        invariant
            k <= 8,
            op_views(ops@) =~~= head + diagram_rows(after@, k as int),
        decreases 8 - k,
    {
        let ghost before = op_views(ops@);
        let tj = new_op("Tj", text_operand(rank_string(after.as_str(), 7 - k)));
        let td = new_op("Td", int_operands(0, -25));
        let ghost tail = seq![tj@, td@];
        assert(tail =~~= seq![
            op("Tj"@, seq![OperandSpec::Text(rank_text(after@, 8 - (k + 1)))]),
            op("Td"@, seq![OperandSpec::Integer(0), OperandSpec::Integer(-25i64)]),
        ]);
        ops.push(tj);
        ops.push(td);
        assert(op_views(ops@) =~~= before + tail);
        k = k + 1;
    }
    let ghost rows = op_views(ops@);
    let et = new_op("ET", no_operands());
    ops.push(et);
    assert(op_views(ops@) =~~= rows + seq![op("ET"@, seq![])]);
    Some(ops)
}

/// The text of one move of a solution: before White's moves their number.
pub open spec fn move_text(half: nat, label: nat, san: Seq<char>) -> Seq<char> {
    if half % 2 == 0 {
        " "@ + san
    } else {
        " "@ + decimal(label) + ". "@ + san
    }
}

/// `a` before the text `o`, when there is one.
pub open spec fn opt_prepend(a: Seq<char>, o: Option<Seq<char>>) -> Option<Seq<char>> {
    match o {
        Some(t) => Some(a + t),
        None => None,
    }
}

/// A move of a solution can be written: it is readable, can be played in `fen` (legal or
/// not, it is played as listed), and its notation can be formed.
pub open spec fn move_writable(fen: Seq<char>, m: Seq<char>, names: PieceNames) -> bool {
    &&& valid_coords(m)
    &&& uci_ok(m)
    &&& chess_playable(fen, uci_move(m))
    &&& spec_coord_to_san(fen, m, names) is Some
}

/// The text of the moves `ms` played from `fen`, the next one being half-move `half` and
/// move number `label`; `None` when one of them cannot be written.
pub open spec fn solution_moves(
    fen: Seq<char>,
    ms: Seq<Seq<char>>,
    half: nat,
    label: nat,
    names: PieceNames,
) -> Option<Seq<char>>
    decreases ms.len(),
{
    if ms.len() == 0 {
        Some(seq![])
    } else if move_writable(fen, ms[0], names) {
        let next_label = if half % 2 == 0 {
            label
        } else {
            label + 1
        };
        opt_prepend(
            move_text(half, label, spec_coord_to_san(fen, ms[0], names)->0),
            solution_moves(chess_make_move(fen, uci_move(ms[0])), ms.drop_first(), half + 1, next_label, names),
        )
    } else {
        None
    }
}

/// The solution line of puzzle number `number`: the number, then the moves after the
/// opponent's first one (numbered from White's first move; `1. ...` first when Black
/// moves first); `None` when the puzzle cannot be set up or a move cannot be written.
pub open spec fn solution_text(number: nat, p: Puzzle, names: PieceNames) -> Option<Seq<char>> {
    if puzzle_startable(p) {
        let b = chess_make_move(p.fen@, uci_move(puzzle_moves(p)[0]));
        let black = chess_side_to_move(b) == Some(Side::Black);
        let prefix = decimal(number) + ") "@ + (if black {
            " 1. ... "@
        } else {
            seq![]
        });
        let start: nat = if black {
            2
        } else {
            1
        };
        opt_prepend(prefix, solution_moves(b, puzzle_moves(p).skip(1), start, start, names))
    } else {
        None
    }
}

/// Whether the coordinates `c` are ones that `coord_to_san` accepts.
fn coords_valid(c: &Vec<char>) -> (r: bool)
    ensures
        r == valid_coords(c@),
{
    c.len() >= 4 && 'a' <= c[0] && c[0] <= 'h' && '1' <= c[1] && c[1] <= '8' && 'a' <= c[2] && c[2]
        <= 'h' && '1' <= c[3] && c[3] <= '8' && (c.len() <= 4 || (c[4] as u32) < 128)
}

/// Writes the solution line of puzzle number `number` (see `solution_text`).
fn solution(number: usize, p: &Puzzle, names: &PieceNames) -> (r: Option<String>)
    ensures
        match r {
            Some(s) => solution_text(number as nat, *p, *names) == Some(s@),
            None => solution_text(number as nat, *p, *names) is None,
        },
{
    let ws = split_whitespace(p.moves.as_str());
    let ghost vs = views(ws@);
    if ws.len() == 0 {
        return None;
    }
    proof {
        assert(vs[0] == ws@[0]@);
    }
    let m = match parse_uci(&ws[0]) {
        Some(m) => m,
        None => return None,
    };
    if !is_playable(p.fen.as_str(), m) {
        return None;
    }
    let b = make_move(p.fen.as_str(), m);
    let black = match side_to_move(b.as_str()) {
        Some(Side::Black) => true,
        _ => false,
    };
    let mut acc = format_u64(number as u64).concat(") ");
    let ghost mut half: nat = 1;
    let mut even = false;
    let mut label: u64 = 1;
    if black {
        acc = acc.concat(" 1. ... ");
        proof {
            half = 2;
        }
        even = true;
        label = 2;
    }
    let ghost offset: nat = if black {
        1
    } else {
        0
    };
    proof {
        reveal_strlit(" 1. ... ");
        assert(acc@ =~= decimal(number as nat) + ") "@ + (if black {
            " 1. ... "@
        } else {
            seq![]
        }));
    }
    let ghost total = solution_text(number as nat, *p, *names);
    let mut cur = b;
    let mut i: usize = 1;
    while i < ws.len()
        invariant
            1 <= i <= ws@.len(),
            vs == views(ws@),
            total == solution_text(number as nat, *p, *names),
            offset <= 1,
            half == i + offset,
            even == (half % 2 == 0),
            label == half / 2 + 1,
            opt_prepend(acc@, solution_moves(cur@, vs.skip(i as int), half, label as nat, *names))
                == total,
        decreases ws.len() - i,
    {
        proof {
            assert(vs.skip(i as int)[0] == ws@[i as int]@);
            assert(vs.skip(i as int).drop_first() =~= vs.skip(i + 1));
        }
        let c = chars_of(ws[i].as_str());
        if !coords_valid(&c) {
            proof {
                assert(!move_writable(cur@, vs.skip(i as int)[0], *names));
                assert(vs.skip(i as int).len() > 0);
                assert(solution_moves(cur@, vs.skip(i as int), half, label as nat, *names) is None);
            }
            return None;
        }
        let mv = match parse_uci(&ws[i]) {
            Some(mv) => mv,
            None => {
                proof {
                    assert(!move_writable(cur@, vs.skip(i as int)[0], *names));
                    assert(vs.skip(i as int).len() > 0);
                    assert(solution_moves(cur@, vs.skip(i as int), half, label as nat, *names) is None);
                }
                return None;
            },
        };
        if !is_playable(cur.as_str(), mv) {
            return None;
        }
        let san = match coord_to_san(cur.as_str(), ws[i].as_str(), names) {
            Some(s) => s,
            None => return None,
        };
        let ghost before = acc@;
        let text = if even {
            String::from_str(" ").concat(san.as_str())
        } else {
            String::from_str(" ").concat(format_u64(label).as_str()).concat(". ").concat(san.as_str())
        };
        proof {
            assert(text@ =~= move_text(half, label as nat, san@));
        }
        acc = acc.concat(text.as_str());
        let ghost rest = solution_moves(
            chess_make_move(cur@, uci_move(ws@[i as int]@)),
            vs.skip(i + 1),
            half + 1,
            if half % 2 == 0 {
                label as nat
            } else {
                label as nat + 1
            },
            *names,
        );
        proof {
            match rest {
                Some(t) => {
                    assert(before + (text@ + t) =~= acc@ + t);
                },
                None => {},
            }
        }
        cur = make_move(cur.as_str(), mv);
        if !even {
            label = label + 1;
        }
        even = !even;
        proof {
            half = half + 1;
        }
        i = i + 1;
    }
    proof {
        assert(vs.skip(i as int) =~= Seq::<Seq<char>>::empty());
    }
    Some(acc)
}


/// How many puzzles are exported, and on how many pages of diagrams: the first six
/// puzzles for each page asked for (all of them when there are fewer, none when no page
/// is asked for), six diagrams to a page, the last page holding the rest.
pub open spec fn spec_page_plan(len: nat, pages: i32) -> (nat, nat) {
    let wanted: int = if pages < 0 {
        0
    } else {
        6 * pages
    };
    let printed: nat = if wanted < len {
        wanted as nat
    } else {
        len
    };
    (printed, (printed + 5) / 6)
}

/// The number of puzzles on the diagram pages: all the exported ones.
pub open spec fn diagrams_printed(len: nat, pages: i32) -> nat {
    spec_page_plan(len, pages).0
}

/// Where slot `s` (0 to 5) of a diagram page is drawn: two columns, three rows.
pub open spec fn slot_x(s: int) -> i64 {
    (750 - 250 * (s / 2)) as i64
}

/// See `slot_x`.
pub open spec fn slot_y(s: int) -> i64 {
    if s % 2 == 0 {
        75
    } else {
        325
    }
}

/// The number of diagrams on diagram page `page`.
pub open spec fn slots_on_page(len: int, page: int) -> int {
    if 6 * page >= len {
        0
    } else if len - 6 * page < 6 {
        len - 6 * page
    } else {
        6
    }
}

/// The operations of the first `count` diagrams of diagram page `page`.
pub open spec fn page_diagram_ops(ps: Seq<Puzzle>, page: int, count: int, names: PieceNames) -> Seq<
    OpSpec,
>
    decreases count,
{
    if count <= 0 {
        seq![]
    } else {
        page_diagram_ops(ps, page, count - 1, names) + diagram_ops(
            (6 * page + count) as nat,
            ps[6 * page + count - 1],
            names,
            slot_x(count - 1),
            slot_y(count - 1),
        )
    }
}

/// The number of solution lines on solution page `q` (44 a page).
pub open spec fn lines_on_page(printed: int, q: int) -> int {
    if 44 * q >= printed {
        0
    } else if printed - 44 * q < 44 {
        printed - 44 * q
    } else {
        44
    }
}

/// The operations of the first `count` lines of solution page `q`, 18 points apart.
pub open spec fn solution_page_ops(ps: Seq<Puzzle>, q: int, count: int, names: PieceNames) -> Seq<
    OpSpec,
>
    decreases count,
{
    if count <= 0 {
        seq![]
    } else {
        solution_page_ops(ps, q, count - 1, names) + text_ops(
            "Regular"@,
            12,
            75,
            (800 - 18 * (count - 1)) as i64,
            solution_text((44 * q + count) as nat, ps[44 * q + count - 1], names)->0,
        )
    }
}

/// Every exported puzzle can be drawn and its solution written.
pub open spec fn export_writable(ps: Seq<Puzzle>, pages: i32, names: PieceNames) -> bool {
    &&& forall|i: int|
        0 <= i < diagrams_printed(ps.len(), pages) ==> diagram_writable(#[trigger] ps[i], names)
    &&& forall|i: int|
        0 <= i < spec_page_plan(ps.len(), pages).0 ==> (#[trigger] solution_text(
            (i + 1) as nat,
            ps[i],
            names,
        )) is Some
}

/// The pages of the export of `puzzles` with `number_of_pages` pages of diagrams asked
/// for: the diagram pages (see `spec_page_plan`), then the solutions of the same puzzles,
/// 44 a page, always ending with a page (empty when the last one was full). `None` when a
/// puzzle cannot be drawn or its solution written.
pub fn export_pages(puzzles: &Vec<Puzzle>, number_of_pages: i32, names: &PieceNames) -> (r: Option<
    Vec<Vec<PdfOp>>,
>)
    ensures
        r is Some <==> export_writable(puzzles@, number_of_pages, *names),
        r matches Some(pages) ==> {
            let printed = spec_page_plan(puzzles@.len(), number_of_pages).0;
            let dp = spec_page_plan(puzzles@.len(), number_of_pages).1;
            &&& pages@.len() == dp + printed / 44 + 1
            &&& forall|k: int|
                0 <= k < dp ==> op_views(#[trigger] pages@[k]@) =~~= page_diagram_ops(
                    puzzles@,
                    k,
                    slots_on_page(printed as int, k),
                    *names,
                )
            &&& forall|k: int|
                dp <= k < pages@.len() ==> op_views(#[trigger] pages@[k]@) =~~= solution_page_ops(
                    puzzles@,
                    k - dp,
                    lines_on_page(printed as int, k - dp),
                    *names,
                )
        },
{
    let len = puzzles.len();
    let wanted: i64 = if number_of_pages < 0 {
        0
    } else {
        6 * (number_of_pages as i64)
    };
    let printed: usize = if (wanted as u64) < (len as u64) {
        wanted as usize
    } else {
        len
    };
    let dpages: usize = printed / 6 + if printed % 6 == 0 {
        0
    } else {
        1
    };
    assert((printed as nat, dpages as nat) == spec_page_plan(len as nat, number_of_pages));
    let ghost ps = puzzles@;
    let mut pages: Vec<Vec<PdfOp>> = Vec::new();
    let mut index: usize = 0;
    let mut p: usize = 0;
    while p < dpages
        invariant
            ps == puzzles@,
            len == ps.len(),
            (printed as nat, dpages as nat) == spec_page_plan(len as nat, number_of_pages),
            printed <= len,
            p <= dpages,
            index as int == (if 6 * p < printed { 6 * p } else { printed as int }),
            pages@.len() == p,
            forall|k: int|
                0 <= k < p ==> op_views(#[trigger] pages@[k]@) =~~= page_diagram_ops(
                    ps,
                    k,
                    slots_on_page(printed as int, k),
                    *names,
                ),
            forall|j: int| 0 <= j < index ==> diagram_writable(#[trigger] ps[j], *names),
        decreases dpages - p,
    {
        let mut ops: Vec<PdfOp> = Vec::new();
        let mut s: usize = 0;
        while s < 6 && index < printed
            invariant
                ps == puzzles@,
                len == ps.len(),
                printed <= len,
                p < dpages,
                (printed as nat, dpages as nat) == spec_page_plan(len as nat, number_of_pages),
                s <= 6,
                6 * p < printed ==> index == 6 * p + s,
                6 * p >= printed ==> index == printed && s == 0,
                index <= printed,
                op_views(ops@) =~~= page_diagram_ops(ps, p as int, s as int, *names),
                forall|j: int| 0 <= j < index ==> diagram_writable(#[trigger] ps[j], *names),
            decreases 6 - s,
        {
            let x: i64 = 750 - 250 * ((s / 2) as i64);
            let y: i64 = if s % 2 == 0 {
                75
            } else {
                325
            };
            let d = match diagram(index + 1, &puzzles[index], names, x, y) {
                Some(d) => d,
                None => {
                    proof {
                        assert(index < diagrams_printed(len as nat, number_of_pages));
                    }
                    return None;
                },
            };
            let ghost before = op_views(ops@);
            let mut d = d;
            ops.append(&mut d);
            proof {
                assert(op_views(ops@) =~~= page_diagram_ops(ps, p as int, s + 1, *names));
            }
            index = index + 1;
            s = s + 1;
        }
        proof {
            assert(s as int == slots_on_page(printed as int, p as int));
        }
        pages.push(ops);
        p = p + 1;
    }
    let mut ops: Vec<PdfOp> = Vec::new();
    let mut pos_x: i64 = 800;
    let mut line: usize = 0;
    let mut k: usize = 0;
    while k < printed
        invariant
            ps == puzzles@,
            len == ps.len(),
            printed <= len,
            (printed as nat, dpages as nat) == spec_page_plan(len as nat, number_of_pages),
            k <= printed,
            line < 44,
            k == 44 * (pages@.len() - dpages) + line,
            pages@.len() >= dpages,
            pos_x == 800 - 18 * line,
            op_views(ops@) =~~= solution_page_ops(ps, pages@.len() - dpages, line as int, *names),
            forall|j: int|
                0 <= j < dpages ==> op_views(#[trigger] pages@[j]@) =~~= page_diagram_ops(
                    ps,
                    j,
                    slots_on_page(printed as int, j),
                    *names,
                ),
            forall|j: int|
                dpages <= j < pages@.len() ==> op_views(#[trigger] pages@[j]@) =~~= solution_page_ops(
                    ps,
                    j - dpages,
                    lines_on_page(printed as int, j - dpages),
                    *names,
                ),
            forall|j: int|
                0 <= j < diagrams_printed(len as nat, number_of_pages) ==> diagram_writable(
                    #[trigger] ps[j],
                    *names,
                ),
            forall|j: int|
                0 <= j < k ==> (#[trigger] solution_text((j + 1) as nat, ps[j], *names)) is Some,
        decreases printed - k,
    {
        let text = match solution(k + 1, &puzzles[k], names) {
            Some(t) => t,
            None => {
                proof {
                    assert(solution_text(((k as int) + 1) as nat, ps[k as int], *names) is None);
                    assert(!export_writable(ps, number_of_pages, *names));
                }
                return None;
            },
        };
        push_text(&mut ops, "Regular", 12, 75, pos_x, text);
        pos_x = pos_x - 18;
        line = line + 1;
        k = k + 1;
        if pos_x < 18 {
            proof {
                assert(lines_on_page(printed as int, pages@.len() - dpages) == 44);
            }
            pages.push(ops);
            ops = Vec::new();
            pos_x = 800;
            line = 0;
        }
    }
    proof {
        assert(lines_on_page(printed as int, pages@.len() - dpages) == line);
    }
    pages.push(ops);
    Some(pages)
}

/// The bytes of each page's content stream, as `lopdf` encodes them (encoding into
/// memory always succeeds).
pub fn encode_pages(pages: &Vec<Vec<PdfOp>>) -> (r: Option<Vec<Vec<u8>>>)
    ensures
        r matches Some(bs) && bs@.len() == pages@.len() && forall|k: int|
            0 <= k < pages@.len() ==> (#[trigger] bs@[k])@ == pdf_content(op_views(pages@[k]@)),
{
    let mut bs: Vec<Vec<u8>> = Vec::new();
    let mut k: usize = 0;
    while k < pages.len()
        invariant
            k <= pages@.len(),
            bs@.len() == k,
            forall|j: int| 0 <= j < k ==> (#[trigger] bs@[j])@ == pdf_content(op_views(pages@[j]@)),
        decreases pages.len() - k,
    {
        match encode_content(&pages[k]) {
            Some(b) => bs.push(b),
            None => return None,
        }
        k = k + 1;
    }
    Some(bs)
}

/// In a solution line the move number advances by exactly one over every two successive
/// half-moves: two moves written from half-move `half` with number `label` are followed by
/// the rest of the line written from half-move `half + 2` with number `label + 1` (and the
/// second of the two carries `label` when it is White's).
pub proof fn lemma_solution_numbers_advance(
    fen: Seq<char>,
    ms: Seq<Seq<char>>,
    half: nat,
    label: nat,
    names: PieceNames,
)
    requires
        ms.len() >= 2,
        move_writable(fen, ms[0], names),
        move_writable(chess_make_move(fen, uci_move(ms[0])), ms[1], names),
    ensures
        ({
            let f1 = chess_make_move(fen, uci_move(ms[0]));
            let f2 = chess_make_move(f1, uci_move(ms[1]));
            let s0 = spec_coord_to_san(fen, ms[0], names)->0;
            let s1 = spec_coord_to_san(f1, ms[1], names)->0;
            solution_moves(fen, ms, half, label, names) == opt_prepend(
                move_text(half, label, s0) + move_text(half + 1, label, s1),
                solution_moves(f2, ms.skip(2), half + 2, label + 1, names),
            )
        }),
{
    let f1 = chess_make_move(fen, uci_move(ms[0]));
    let f2 = chess_make_move(f1, uci_move(ms[1]));
    let s0 = spec_coord_to_san(fen, ms[0], names)->0;
    let s1 = spec_coord_to_san(f1, ms[1], names)->0;
    let ms1 = ms.drop_first();
    assert(ms1[0] == ms[1]);
    assert(ms1.drop_first() =~= ms.skip(2));
    let nl: nat = if half % 2 == 0 { label } else { label + 1 };
    assert(move_text(half + 1, nl, s1) == move_text(half + 1, label, s1));
    let tail = solution_moves(f2, ms.skip(2), half + 2, label + 1, names);
    assert(solution_moves(f1, ms1, half + 1, nl, names) == opt_prepend(move_text(half + 1, nl, s1), tail));
    match tail {
        Some(t) => {
            assert(move_text(half, label, s0) + (move_text(half + 1, label, s1) + t) =~= move_text(
                half,
                label,
                s0,
            ) + move_text(half + 1, label, s1) + t);
        },
        None => {},
    }
}

} // verus!
