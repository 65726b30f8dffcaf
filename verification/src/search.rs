//! Searching the puzzle database: which puzzles a search accepts, the scan that
//! collects them up to a limit, and the query run against the favorites.
use vstd::prelude::*;
use vstd::string::*;
use crate::openings::{Openings, Variation, any_variation_name};
use crate::puzzle::Puzzle;
use crate::text::{spec_contains, str_contains};
use crate::themes::{TaticsThemes, OpeningSide};

verus! {

/// What a search asks of a puzzle.
#[derive(Debug, Clone)]
pub struct SearchQuery {
    pub min_rating: i32,
    pub max_rating: i32,
    pub theme: TaticsThemes,
    pub opening: Openings,
    pub variation: Variation,
    pub op_side: Option<OpeningSide>,
}

/// The opening tag a search looks for: the variation's name, unless it is
/// `Any_Variation`, in which case the opening's tag.
pub open spec fn spec_opening_tag(opening: Openings, variation: Variation) -> Seq<char> {
    if variation.name@ != any_variation_name() {
        variation.name@
    } else {
        opening.spec_field_name()
    }
}

/// The side asked for (no side means any side).
pub open spec fn side_or_any(op_side: Option<OpeningSide>) -> OpeningSide {
    match op_side {
        None => OpeningSide::Any,
        Some(x) => x,
    }
}

/// Whether a puzzle is accepted by a search: its rating lies in the range, its themes hold
/// the theme's tag and, when an opening is asked for, its opening tags hold the opening
/// tag and its game was won by the side asked for (puzzles from games whose link names
/// `black` are played from White's opening, the others from Black's).
pub open spec fn puzzle_matches(p: Puzzle, q: SearchQuery) -> bool {
    &&& q.min_rating <= p.rating <= q.max_rating
    &&& spec_contains(p.themes@, q.theme.spec_tag_name())
    &&& q.opening != Openings::Any ==> {
        &&& spec_contains(p.opening@, spec_opening_tag(q.opening, q.variation))
        &&& match side_or_any(q.op_side) {
            OpeningSide::Any => true,
            OpeningSide::White => spec_contains(p.game_url@, "black"@),
            OpeningSide::Black => !spec_contains(p.game_url@, "black"@),
        }
    }
}

/// Whether a row of the database (`None`: a row that did not read as a puzzle) holds an
/// accepted puzzle.
pub open spec fn row_matches(row: Option<Puzzle>, q: SearchQuery) -> bool {
    row matches Some(p) && puzzle_matches(p, q)
}

/// One step of the scan: an accepted puzzle is kept, and the scan stops as soon as it
/// holds `limit` puzzles (it checks after every row, read or not; a scan for no puzzle
/// at all is stopped from the start).
pub open spec fn scan_step(
    st: (Seq<Puzzle>, bool),
    row: Option<Puzzle>,
    q: SearchQuery,
    limit: nat,
) -> (Seq<Puzzle>, bool) {
    if st.1 {
        st
    } else {
        let found = if row_matches(row, q) {
            st.0.push(row->0)
        } else {
            st.0
        };
        (found, found.len() == limit)
    }
}

/// The puzzles kept after scanning `rows`, and whether the scan stopped.
pub open spec fn scan(rows: Seq<Option<Puzzle>>, q: SearchQuery, limit: nat) -> (Seq<Puzzle>, bool)
    decreases rows.len(),
{
    if rows.len() == 0 {
        (Seq::empty(), limit == 0)
    } else {
        scan_step(scan(rows.drop_last(), q, limit), rows.last(), q, limit)
    }
}

/// The accepted puzzles among `rows`, in order.
pub open spec fn all_matches(rows: Seq<Option<Puzzle>>, q: SearchQuery) -> Seq<Puzzle>
    decreases rows.len(),
{
    if rows.len() == 0 {
        Seq::empty()
    } else if row_matches(rows.last(), q) {
        all_matches(rows.drop_last(), q).push(rows.last()->0)
    } else {
        all_matches(rows.drop_last(), q)
    }
}

impl SearchQuery {
    /// The opening tag this search looks for.
    pub fn opening_tag(&self) -> (r: &str)
        ensures
            r@ == spec_opening_tag(self.opening, self.variation),
    {
        if self.variation.name != String::from_str(Variation::any_str()) {
            self.variation.name.as_str()
        } else {
            self.opening.get_field_name()
        }
    }

    /// Whether the puzzle `p` is accepted by this search.
    pub fn matches(&self, p: &Puzzle) -> (r: bool)
        ensures
            r == puzzle_matches(*p, *self),
    {
        if !(self.min_rating <= p.rating && p.rating <= self.max_rating) {
            return false;
        }
        if !str_contains(p.themes.as_str(), self.theme.get_tag_name()) {
            return false;
        }
        if self.opening == Openings::Any {
            return true;
        }
        if !str_contains(p.opening.as_str(), self.opening_tag()) {
            return false;
        }
        let side = match self.op_side {
            None => OpeningSide::Any,
            Some(x) => x,
        };
        match side {
            OpeningSide::Any => true,
            OpeningSide::White => str_contains(p.game_url.as_str(), "black"),
            OpeningSide::Black => !str_contains(p.game_url.as_str(), "black"),
        }
    }
}

/// A scan of the database in progress: the rows are handed over one by one, as they are
/// read.
pub struct PuzzleSearch {
    pub query: SearchQuery,
    pub limit: usize,
    pub found: Vec<Puzzle>,
    pub stopped: bool,
}

impl PuzzleSearch {
    /// A scan for `query` that stops once it holds `limit` puzzles.
    pub fn new(query: SearchQuery, limit: usize) -> (r: Self)
        ensures
            r.query == query,
            r.limit == limit,
            r.found@ == Seq::<Puzzle>::empty(),
            r.stopped == (limit == 0),
    {
        PuzzleSearch { query, limit, found: Vec::new(), stopped: limit == 0 }
    }

    /// Hands the next row to the scan; returns whether the scan has stopped.
    pub fn feed(&mut self, row: Option<Puzzle>) -> (stop: bool)
        ensures
            final(self).query == old(self).query,
            final(self).limit == old(self).limit,
            (final(self).found@, final(self).stopped) == scan_step(
                (old(self).found@, old(self).stopped),
                row,
                old(self).query,
                old(self).limit as nat,
            ),
            stop == final(self).stopped,
    {
        if self.stopped {
            return true;
        }
        if let Some(p) = row {
            if self.query.matches(&p) {
                self.found.push(p);
            }
        }
        self.stopped = self.found.len() == self.limit;
        self.stopped
    }
}

/// The puzzles that a search collects from the rows of the database: the accepted ones,
/// in order, until `result_limit` of them are held.
pub fn search(
    rows: Vec<Option<Puzzle>>,
    min_rating: i32,
    max_rating: i32,
    theme: TaticsThemes,
    opening: Openings,
    variation: Variation,
    op_side: Option<OpeningSide>,
    result_limit: usize,
) -> (r: Vec<Puzzle>)
    ensures
        r@ == scan(
            rows@,
            SearchQuery { min_rating, max_rating, theme, opening, variation, op_side },
            result_limit as nat,
        ).0,
{
    let query = SearchQuery { min_rating, max_rating, theme, opening, variation, op_side };
    let ghost q = query;
    let mut s = PuzzleSearch::new(query, result_limit);
    let ghost all_rows = rows@;
    for row in it: rows
        invariant
            s.query == q,
            s.limit == result_limit,
            it.seq() == all_rows,
            (s.found@, s.stopped) == scan(all_rows.take(it.index() as int), q, result_limit as nat),
    {
        proof {
            assert(all_rows.take(it.index() + 1).drop_last() =~= all_rows.take(it.index() as int));
        }
        s.feed(row);
    }
    proof {
        assert(all_rows.take(all_rows.len() as int) =~= all_rows);
    }
    s.found
}

/// A search returns the first `limit` accepted puzzles of the
/// database, in database order (all of them when there are fewer), and it stops reading
/// exactly when there are at least `limit` of them.
pub proof fn lemma_search_returns_first_matches(rows: Seq<Option<Puzzle>>, q: SearchQuery, limit: nat)
    ensures
        ({
            let all = all_matches(rows, q);
            let n = if all.len() < limit { all.len() } else { limit };
            &&& scan(rows, q, limit).0 == all.take(n as int)
            &&& scan(rows, q, limit).1 <==> all.len() >= limit
        }),
    decreases rows.len(),
{
    if rows.len() > 0 {
        let prev = rows.drop_last();
        lemma_search_returns_first_matches(prev, q, limit);
        let a_prev = all_matches(prev, q);
        let a = all_matches(rows, q);
        if a_prev.len() >= limit {
            assert(a.take(limit as int) =~= a_prev.take(limit as int));
        } else {
            assert(a_prev.take(a_prev.len() as int) =~= a_prev);
            assert(a.take(a.len() as int) =~= a);
        }
    }
}

/// Every puzzle a search returns is accepted by the search, whatever the limit.
pub proof fn lemma_search_sound(rows: Seq<Option<Puzzle>>, q: SearchQuery, limit: nat)
    ensures
        forall|i: int|
            0 <= i < scan(rows, q, limit).0.len() ==> puzzle_matches(
                #[trigger] scan(rows, q, limit).0[i],
                q,
            ),
    decreases rows.len(),
{
    if rows.len() > 0 {
        let prev = rows.drop_last();
        lemma_search_sound(prev, q, limit);
        let sp = scan(prev, q, limit);
        let sr = scan(rows, q, limit);
        assert forall|i: int| 0 <= i < sr.0.len() implies puzzle_matches(#[trigger] sr.0[i], q) by {
            if !sp.1 && row_matches(rows.last(), q) && i == sp.0.len() {
            } else {
                assert(sr.0[i] == sp.0[i]);
            }
        }
    }
}

/// A search never returns more than `limit` puzzles.
pub proof fn lemma_search_within_limit(rows: Seq<Option<Puzzle>>, q: SearchQuery, limit: nat)
    ensures
        scan(rows, q, limit).0.len() <= limit,
{
    lemma_search_returns_first_matches(rows, q, limit);
}

/// Every puzzle a search returns, whatever the limit, has its rating within the range
/// asked for and the chosen theme's tag among its themes, and, when an opening is asked
/// for, the opening tag (the variation's name, or the opening's tag for any variation)
/// among its opening tags; when a side is asked for too, White's side keeps the puzzles
/// whose game link names `black`, Black's side the others.
pub proof fn lemma_search_results_meet_the_criteria(rows: Seq<Option<Puzzle>>, q: SearchQuery, limit: nat)
    ensures
        forall|i: int|
            0 <= i < scan(rows, q, limit).0.len() ==> {
                let p = #[trigger] scan(rows, q, limit).0[i];
                &&& q.min_rating <= p.rating <= q.max_rating
                &&& spec_contains(p.themes@, q.theme.spec_tag_name())
                &&& q.opening != Openings::Any ==> spec_contains(
                    p.opening@,
                    if q.variation.name@ != any_variation_name() {
                        q.variation.name@
                    } else {
                        q.opening.spec_field_name()
                    },
                )
                &&& q.opening != Openings::Any && q.op_side == Some(OpeningSide::White)
                    ==> spec_contains(p.game_url@, "black"@)
                &&& q.opening != Openings::Any && q.op_side == Some(OpeningSide::Black)
                    ==> !spec_contains(p.game_url@, "black"@)
            },
{
    lemma_search_sound(rows, q, limit);
}

} // verus!
