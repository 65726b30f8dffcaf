//! Move notation: squares, UCI coordinates, localized standard algebraic notation.
use vstd::prelude::*;
use vstd::string::*;
use crate::board::{
    Piece, Side, BoardStatus, chess_piece_on, chess_color_on, color_on, chess_from_san, chess_make_move, chess_status,
    chess_in_check, piece_on, move_from_san, make_move, board_status, in_check,
};
use crate::lang::{Language, Translations, tr, spec_tr};
use crate::text::{
    chars_of, push_char, string_from, words, join_spaces, views, split_whitespace, join_with_spaces,
    is_word, is_ws, lemma_words_are_words, lemma_split_join_roundtrip,
};

verus! {

broadcast use vstd::string::group_string_axioms;

/// A file letter `a`..`h`.
pub open spec fn is_file_char(c: char) -> bool {
    'a' <= c && c <= 'h'
}

/// A rank digit `1`..`8`.
pub open spec fn is_rank_char(c: char) -> bool {
    '1' <= c && c <= '8'
}

/// The index of the square named by a file letter and a rank digit.
pub open spec fn square_index(file: char, rank: char) -> int {
    (rank as int - '1' as int) * 8 + (file as int - 'a' as int)
}

/// The two-character name of the square with index `sq`.
pub open spec fn spec_square_name(sq: u8) -> Seq<char> {
    seq![('a' as int + sq % 8) as char, ('1' as int + sq / 8) as char]
}

/// The square named by `file` and `rank` (what `chess::Square::from_str` gives).
pub fn square_of(file: char, rank: char) -> (sq: u8)
    requires
        is_file_char(file),
        is_rank_char(rank),
    ensures
        sq == square_index(file, rank),
        sq < 64,
{
    (((rank as u32) - ('1' as u32)) * 8 + ((file as u32) - ('a' as u32))) as u8
}

/// The name of a square, such as `e4` (what `chess::Square` prints).
pub fn square_name(sq: u8) -> (r: String)
    requires
        sq < 64,
    ensures
        r@ == spec_square_name(sq),
{
    let mut r = String::new();
    let f: u8 = 97 + sq % 8;
    let k: u8 = 49 + sq / 8;
    push_char(&mut r, f as char);
    push_char(&mut r, k as char);
    r
}

/// ASCII upper case of one character (what `str::to_uppercase` does to an ASCII character).
pub open spec fn ascii_upper(c: char) -> char {
    if 'a' <= c && c <= 'z' {
        ((c as u8) - 32) as char
    } else {
        c
    }
}

fn upper_ascii_char(c: char) -> (r: char)
    requires
        (c as u32) < 128,
    ensures
        r == ascii_upper(c),
{
    if 'a' <= c && c <= 'z' {
        ((c as u8) - 32) as char
    } else {
        c
    }
}

/// Coordinates that `coord_to_san` accepts: two squares, and when a fifth character
/// (the promotion piece) follows, it is ASCII.
pub open spec fn valid_coords(c: Seq<char>) -> bool {
    &&& c.len() >= 4
    &&& is_file_char(c[0])
    &&& is_rank_char(c[1])
    &&& is_file_char(c[2])
    &&& is_rank_char(c[3])
    &&& c.len() > 4 ==> (c[4] as u32) < 128
}

/// UCI coordinates with a promotion written as in SAN: `e7e8q` becomes `e7e8=Q`.
pub open spec fn normalized_coords(c: Seq<char>) -> Seq<char> {
    if c.len() > 4 {
        c.take(4) + seq!['='] + seq![ascii_upper(c[4])]
    } else {
        c
    }
}

/// The names a language gives to the pieces, used in place of the English letters.
#[derive(Debug, Clone)]
pub struct PieceNames {
    pub bishop: String,
    pub knight: String,
    pub rook: String,
    pub queen: String,
    pub king: String,
}

impl PieceNames {
    /// What a move of `p` starts with in the localized notation (a pawn: its file).
    pub open spec fn local_prefix(self, p: Piece, file: char) -> Seq<char> {
        match p {
            Piece::Pawn => seq![file],
            Piece::Bishop => self.bishop@,
            Piece::Knight => self.knight@,
            Piece::Rook => self.rook@,
            Piece::Queen => self.queen@,
            Piece::King => self.king@,
        }
    }

    fn local_prefix_of(&self, p: Piece, file: char) -> (r: String)
        ensures
            r@ == self.local_prefix(p, file),
    {
        match p {
            Piece::Pawn => {
                let mut r = String::new();
                push_char(&mut r, file);
                r
            },
            Piece::Bishop => self.bishop.clone(),
            Piece::Knight => self.knight.clone(),
            Piece::Rook => self.rook.clone(),
            Piece::Queen => self.queen.clone(),
            Piece::King => self.king.clone(),
        }
    }
}

impl PieceNames {
    /// Whether all five piece names have a translation into `lang`.
    pub open spec fn all_translated(t: Translations, lang: Language) -> bool {
        &&& spec_tr(t, lang, "bishop"@) is Some
        &&& spec_tr(t, lang, "knight"@) is Some
        &&& spec_tr(t, lang, "rook"@) is Some
        &&& spec_tr(t, lang, "queen"@) is Some
        &&& spec_tr(t, lang, "king"@) is Some
    }

    /// Whether these are the piece names of `lang`.
    pub open spec fn translated_from(self, t: Translations, lang: Language) -> bool {
        &&& spec_tr(t, lang, "bishop"@) == Some(self.bishop@)
        &&& spec_tr(t, lang, "knight"@) == Some(self.knight@)
        &&& spec_tr(t, lang, "rook"@) == Some(self.rook@)
        &&& spec_tr(t, lang, "queen"@) == Some(self.queen@)
        &&& spec_tr(t, lang, "king"@) == Some(self.king@)
    }

    /// The piece names (keys `bishop`, `knight`, `rook`, `queen`, `king`) of `lang`;
    /// `None` when one of them has no translation.
    pub fn translated(translations: &Translations, lang: &Language) -> (r: Option<PieceNames>)
        ensures
            r is Some <==> Self::all_translated(*translations, *lang),
            r matches Some(n) ==> n.translated_from(*translations, *lang),
    {
        let bishop = tr(translations, lang, "bishop");
        let knight = tr(translations, lang, "knight");
        let rook = tr(translations, lang, "rook");
        let queen = tr(translations, lang, "queen");
        let king = tr(translations, lang, "king");
        match (bishop, knight, rook, queen, king) {
            (Some(bishop), Some(knight), Some(rook), Some(queen), Some(king)) => Some(
                PieceNames { bishop, knight, rook, queen, king },
            ),
            _ => None,
        }
    }
}

/// What a move of `p` starts with in English SAN (a pawn: its file).
pub open spec fn english_prefix(p: Piece, file: char) -> Seq<char> {
    match p {
        Piece::Pawn => seq![file],
        Piece::Bishop => seq!['B'],
        Piece::Knight => seq!['N'],
        Piece::Rook => seq!['R'],
        Piece::Queen => seq!['Q'],
        Piece::King => seq!['K'],
    }
}

fn english_prefix_of(p: Piece, file: char) -> (r: String)
    ensures
        r@ == english_prefix(p, file),
{
    let c = match p {
        Piece::Pawn => file,
        Piece::Bishop => 'B',
        Piece::Knight => 'N',
        Piece::Rook => 'R',
        Piece::Queen => 'Q',
        Piece::King => 'K',
    };
    let mut r = String::new();
    push_char(&mut r, c);
    r
}

/// Whether the `chess` crate reads `san` as a legal move in `fen`.
pub open spec fn san_ok(fen: Seq<char>, san: Seq<char>) -> bool {
    chess_from_san(fen, san) is Some
}

/// `#` when the move `san` mates, `+` when it gives check, nothing otherwise
/// (nothing either when the `chess` crate does not read `san` as a move).
pub open spec fn check_suffix(fen: Seq<char>, san: Seq<char>) -> Seq<char> {
    match chess_from_san(fen, san) {
        Some(m) => {
            let after = chess_make_move(fen, m);
            if chess_status(after) == Some(BoardStatus::Checkmate) {
                seq!['#']
            } else if chess_in_check(after) == Some(true) {
                seq!['+']
            } else {
                Seq::empty()
            }
        },
        None => Seq::empty(),
    }
}

/// The localized notation of the move `c` (normalized coordinates) of `piece`, before the
/// check suffix: captures get an `x`, an en-passant capture ` e.p.`, and when the short
/// form is ambiguous the origin file (or else the origin rank) is added.
pub open spec fn san_body(fen: Seq<char>, c: Seq<char>, piece: Piece, names: PieceNames) -> Seq<
    char,
> {
    let rest = c.skip(2);
    let letter = english_prefix(piece, c[0]);
    let local = names.local_prefix(piece, c[0]);
    let dest = square_index(c[2], c[3]) as u8;
    let target_empty = chess_piece_on(fen, dest) is None;
    if piece == Piece::Pawn && target_empty && c[2] != c[0] {
        local + "x"@ + c.subrange(2, 4) + " e.p."@
    } else if !target_empty {
        if san_ok(fen, letter + "x"@ + rest) {
            local + "x"@ + rest
        } else if san_ok(fen, letter + seq![c[0]] + "x"@ + rest) {
            local + seq![c[0]] + "x"@ + rest
        } else {
            local + seq![c[1]] + "x"@ + rest
        }
    } else if piece == Piece::Pawn {
        rest
    } else {
        if san_ok(fen, letter + rest) {
            local + rest
        } else if san_ok(fen, letter + seq![c[0]] + rest) {
            local + seq![c[0]] + rest
        } else {
            local + seq![c[1]] + rest
        }
    }
}

/// The localized algebraic notation of the move with UCI coordinates `coords` in the
/// position `fen`: `None` when the origin square is empty, `0-0` / `0-0-0` for castling.
pub open spec fn spec_coord_to_san(fen: Seq<char>, coords: Seq<char>, names: PieceNames) -> Option<
    Seq<char>,
> {
    let c = normalized_coords(coords);
    let orig = square_index(c[0], c[1]) as u8;
    match chess_piece_on(fen, orig) {
        None => None,
        Some(piece) => if piece == Piece::King && (c == "e1g1"@ || c == "e8g8"@) {
            Some("0-0"@)
        } else if piece == Piece::King && (c == "e1c1"@ || c == "e8c8"@) {
            Some("0-0-0"@)
        } else {
            let body = san_body(fen, c, piece, names);
            Some(body + check_suffix(fen, body))
        },
    }
}

fn normalize_coords(coords: &str) -> (r: Vec<char>)
    requires
        valid_coords(coords@),
    ensures
        r@ == normalized_coords(coords@),
        valid_coords(r@),
{
    let cs = chars_of(coords);
    if cs.len() > 4 {
        let mut r: Vec<char> = Vec::new();
        r.push(cs[0]);
        r.push(cs[1]);
        r.push(cs[2]);
        r.push(cs[3]);
        r.push('=');
        r.push(upper_ascii_char(cs[4]));
        proof {
            assert(r@ =~= normalized_coords(coords@));
        }
        r
    } else {
        cs
    }
}

fn chars_range(v: &Vec<char>, lo: usize, hi: usize) -> (r: String)
    requires
        lo <= hi <= v.len(),
    ensures
        r@ == v@.subrange(lo as int, hi as int),
{
    let mut r = String::new();
    let mut i = lo;
    while i < hi
        invariant
            lo <= i <= hi <= v.len(),
            r@ == v@.subrange(lo as int, i as int),
        decreases hi - i,
    {
        push_char(&mut r, v[i]);
        proof {
            assert(v@.subrange(lo as int, i as int).push(v@[i as int]) =~= v@.subrange(
                lo as int,
                i + 1,
            ));
        }
        i = i + 1;
    }
    r
}

fn one_char(c: char) -> (r: String)
    ensures
        r@ == seq![c],
{
    let mut r = String::new();
    push_char(&mut r, c);
    r
}

/// Whether the `chess` crate reads `san` as a legal move in `fen`.
fn san_accepted(fen: &str, san: &String) -> (r: bool)
    ensures
        r == san_ok(fen@, san@),
{
    move_from_san(fen, san.as_str()).is_some()
}

fn san_body_of(fen: &str, c: &Vec<char>, piece: Piece, names: &PieceNames) -> (r: String)
    requires
        valid_coords(c@),
    ensures
        r@ == san_body(fen@, c@, piece, *names),
{
    let rest = chars_range(c, 2, c.len());
    let letter = english_prefix_of(piece, c[0]);
    let local = names.local_prefix_of(piece, c[0]);
    let dest = square_of(c[2], c[3]);
    let target_empty = piece_on(fen, dest).is_none();
    if piece == Piece::Pawn && target_empty && c[2] != c[0] {
        let dest_name = chars_range(c, 2, 4);
        local.concat("x").concat(dest_name.as_str()).concat(" e.p.")
    } else if !target_empty {
        let simple = letter.clone().concat("x").concat(rest.as_str());
        if san_accepted(fen, &simple) {
            local.concat("x").concat(rest.as_str())
        } else {
            let file = one_char(c[0]);
            let with_file = letter.concat(file.as_str()).concat("x").concat(rest.as_str());
            if san_accepted(fen, &with_file) {
                local.concat(file.as_str()).concat("x").concat(rest.as_str())
            } else {
                let rank = one_char(c[1]);
                local.concat(rank.as_str()).concat("x").concat(rest.as_str())
            }
        }
    } else if piece == Piece::Pawn {
        rest
    } else {
        let simple = letter.clone().concat(rest.as_str());
        if san_accepted(fen, &simple) {
            local.concat(rest.as_str())
        } else {
            let file = one_char(c[0]);
            let with_file = letter.concat(file.as_str()).concat(rest.as_str());
            if san_accepted(fen, &with_file) {
                local.concat(file.as_str()).concat(rest.as_str())
            } else {
                let rank = one_char(c[1]);
                local.concat(rank.as_str()).concat(rest.as_str())
            }
        }
    }
}

fn with_check_suffix(fen: &str, san: String) -> (r: String)
    ensures
        r@ == san@ + check_suffix(fen@, san@),
{
    let ghost given = san@;
    let mut san = san;
    match move_from_san(fen, san.as_str()) {
        Some(m) => {
            let after = make_move(fen, m);
            let mate = match board_status(after.as_str()) {
                Some(BoardStatus::Checkmate) => true,
                _ => false,
            };
            if mate {
                push_char(&mut san, '#');
            } else {
                let check = match in_check(after.as_str()) {
                    Some(b) => b,
                    None => false,
                };
                if check {
                    push_char(&mut san, '+');
                }
            }
        },
        None => {},
    }
    proof {
        assert(san@ =~= given + check_suffix(fen@, given));
    }
    san
}

/// The move with UCI coordinates `coords` in the position `board` (a FEN), written in
/// algebraic notation with the piece names of the player's language.
pub fn coord_to_san(board: &str, coords: &str, names: &PieceNames) -> (r: Option<String>)
    requires
        valid_coords(coords@),
    ensures
        match r {
            Some(s) => spec_coord_to_san(board@, coords@, *names) == Some(s@),
            None => spec_coord_to_san(board@, coords@, *names) is None,
        },
{
    let c = normalize_coords(coords);
    let orig = square_of(c[0], c[1]);
    let piece = match piece_on(board, orig) {
        None => return None,
        Some(p) => p,
    };
    let cs = string_from(&c);
    if piece == Piece::King && (cs == String::from_str("e1g1") || cs == String::from_str("e8g8")) {
        return Some(String::from_str("0-0"));
    }
    if piece == Piece::King && (cs == String::from_str("e1c1") || cs == String::from_str("e8c8")) {
        return Some(String::from_str("0-0-0"));
    }
    let body = san_body_of(board, &c, piece, names);
    Some(with_check_suffix(board, body))
}

/// The letter that UCI coordinates append for a promotion to `p` (a queen unless a
/// rook, knight or bishop is asked for).
pub open spec fn promotion_letter(p: Piece) -> char {
    match p {
        Piece::Rook => 'r',
        Piece::Knight => 'n',
        Piece::Bishop => 'b',
        _ => 'q',
    }
}

/// The UCI coordinates of a move from `from` to `to` in `fen`: the two square names, and
/// the promotion letter when a pawn reaches the last rank.
pub open spec fn spec_notation_string(fen: Seq<char>, promo: Piece, from: u8, to: u8) -> Seq<char> {
    let base = spec_square_name(from) + spec_square_name(to);
    let color = chess_color_on(fen, from);
    if chess_piece_on(fen, from) == Some(Piece::Pawn) && ((color == Some(Side::White) && to / 8
        == 7) || (color == Some(Side::Black) && to / 8 == 0)) {
        base + seq![promotion_letter(promo)]
    } else {
        base
    }
}

/// The UCI coordinates of the move the player made by clicking `from` and then `to`,
/// promoting to `promo_piece` when a pawn reaches the last rank.
pub fn get_notation_string(board: &str, promo_piece: Piece, from: u8, to: u8) -> (r: String)
    requires
        from < 64,
        to < 64,
    ensures
        r@ == spec_notation_string(board@, promo_piece, from, to),
{
    let mut r = square_name(from).concat(square_name(to).as_str());
    let piece = piece_on(board, from);
    let color = color_on(board, from);
    let is_pawn = match piece {
        Some(Piece::Pawn) => true,
        _ => false,
    };
    let promotes = match color {
        Some(Side::White) => to / 8 == 7,
        Some(Side::Black) => to / 8 == 0,
        None => false,
    };
    if is_pawn && promotes {
        let letter = match promo_piece {
            Piece::Rook => 'r',
            Piece::Knight => 'n',
            Piece::Bishop => 'b',
            _ => 'q',
        };
        push_char(&mut r, letter);
    }
    r
}

/// The FEN fields that `san_correct_ep` can work on: at least four, and an en-passant field
/// that is `-` or an ASCII character followed by a digit.
pub open spec fn ep_fixable(fen: Seq<char>) -> bool {
    let w = words(fen);
    &&& w.len() >= 4
    &&& w[3] != "-"@ ==> w[3].len() >= 2 && (w[3][0] as u32) < 128 && '0' <= w[3][1] && w[3][1]
        <= '9'
}

/// The en-passant field rewritten to the square that the capturing pawn moves to: the
/// file stays, the rank becomes 3 when it read 4 and 6 otherwise.
pub open spec fn corrected_ep_field(t: Seq<char>) -> Seq<char> {
    if t == "-"@ {
        "-"@
    } else {
        seq![t[0], if t[1] == '4' { '3' } else { '6' }]
    }
}

/// The position `fen` with its fields separated by single spaces and its en-passant
/// field corrected.
pub open spec fn spec_san_correct_ep(fen: Seq<char>) -> Seq<char> {
    let w = words(fen);
    join_spaces(w.update(3, corrected_ep_field(w[3])))
}

/// The `chess` crate prints the square of the pawn that can be taken en passant, where
/// FEN (and the engines) expect the square behind it; this rewrites that field.
pub fn san_correct_ep(fen: String) -> (r: String)
    requires
        ep_fixable(fen@),
    ensures
        r@ == spec_san_correct_ep(fen@),
{
    let mut tokens = split_whitespace(fen.as_str());
    let t = tokens[3].clone();
    let dash = String::from_str("-");
    let new_field = if t == dash {
        dash
    } else {
        let tc = chars_of(t.as_str());
        let mut f = String::new();
        push_char(&mut f, tc[0]);
        push_char(&mut f, if tc[1] == '4' { '3' } else { '6' });
        proof {
            assert(f@ =~= corrected_ep_field(t@));
        }
        f
    };
    assert(new_field@ == corrected_ep_field(t@));
    tokens.set(3, new_field);
    proof {
        assert(views(tokens@) =~= words(fen@).update(3, corrected_ep_field(words(fen@)[3])));
    }
    join_with_spaces(&tokens)
}


/// Correcting the en-passant field changes that field only: read back, the corrected
/// position has the same fields as `fen`, the fourth one corrected.
pub proof fn lemma_correct_ep_changes_only_that_field(fen: Seq<char>)
    requires
        ep_fixable(fen),
    ensures
        words(spec_san_correct_ep(fen)) == words(fen).update(3, corrected_ep_field(words(fen)[3])),
{
    let w = words(fen);
    lemma_words_are_words(fen);
    let c = corrected_ep_field(w[3]);
    assert(is_word(w[3]));
    if w[3] != "-"@ {
        assert(!is_ws(w[3][0]));
        assert(is_word(c));
    } else {
        assert(is_word(c));
    }
    let u = w.update(3, c);
    assert forall|i: int| 0 <= i < u.len() implies is_word(#[trigger] u[i]) by {
        if i != 3 {
            assert(u[i] == w[i]);
        }
    }
    lemma_split_join_roundtrip(u);
}

/// How a piece move (not castling) is written: the piece name, then the origin file or
/// else the origin rank only when needed, then `x` for a capture and the destination.
/// The short form is written exactly when the `chess` crate reads its English form as a
/// move; the origin file is written only when the crate reads the English form with the
/// file; and the origin rank only when the crate reads neither of the other two forms.
/// The check sign follows.
pub proof fn lemma_piece_move_disambiguation(fen: Seq<char>, coords: Seq<char>, names: PieceNames)
    requires
        valid_coords(coords),
        chess_piece_on(fen, square_index(coords[0], coords[1]) as u8) matches Some(p) && p
            != Piece::Pawn,
        chess_piece_on(fen, square_index(coords[0], coords[1]) as u8) == Some(Piece::King) ==> (
        normalized_coords(coords) != "e1g1"@ && normalized_coords(coords) != "e8g8"@
            && normalized_coords(coords) != "e1c1"@ && normalized_coords(coords) != "e8c8"@),
    ensures
        ({
            let c = normalized_coords(coords);
            let p = chess_piece_on(fen, square_index(c[0], c[1]) as u8)->0;
            let cap = if chess_piece_on(fen, square_index(c[2], c[3]) as u8) is None {
                Seq::<char>::empty()
            } else {
                "x"@
            };
            let rest = c.skip(2);
            let local = names.local_prefix(p, c[0]);
            let english = english_prefix(p, c[0]);
            let short = local + cap + rest;
            let by_file = local + seq![c[0]] + cap + rest;
            let by_rank = local + seq![c[1]] + cap + rest;
            let body = san_body(fen, c, p, names);
            &&& spec_coord_to_san(fen, coords, names) == Some(body + check_suffix(fen, body))
            &&& body == short || body == by_file || body == by_rank
            &&& body == short <==> san_ok(fen, english + cap + rest)
            &&& body == by_file ==> san_ok(fen, english + seq![c[0]] + cap + rest)
            &&& body == by_rank ==> !san_ok(fen, english + cap + rest) && !san_ok(
                fen,
                english + seq![c[0]] + cap + rest,
            )
        }),
{
    let c = normalized_coords(coords);
    assert(c[0] == coords[0] && c[1] == coords[1] && c[2] == coords[2] && c[3] == coords[3]);
    let p = chess_piece_on(fen, square_index(c[0], c[1]) as u8)->0;
    let cap = if chess_piece_on(fen, square_index(c[2], c[3]) as u8) is None {
        Seq::<char>::empty()
    } else {
        "x"@
    };
    reveal_strlit("x");
    let rest = c.skip(2);
    let local = names.local_prefix(p, c[0]);
    let english = english_prefix(p, c[0]);
    let short = local + cap + rest;
    let by_file = local + seq![c[0]] + cap + rest;
    let by_rank = local + seq![c[1]] + cap + rest;
    assert(short.len() + 1 == by_file.len());
    assert(by_file.len() == by_rank.len());
    assert(by_file[local.len() as int] == c[0]);
    assert(by_rank[local.len() as int] == c[1]);
    assert(c[0] != c[1]);
    if cap.len() == 0 {
        assert(short =~= local + rest);
        assert(by_file =~= local + seq![c[0]] + rest);
        assert(by_rank =~= local + seq![c[1]] + rest);
        assert(english + cap + rest =~= english + rest);
        assert(english + seq![c[0]] + cap + rest =~= english + seq![c[0]] + rest);
    } else {
        assert(short =~= local + "x"@ + rest);
        assert(by_file =~= local + seq![c[0]] + "x"@ + rest);
        assert(by_rank =~= local + seq![c[1]] + "x"@ + rest);
    }
}

} // verus!
