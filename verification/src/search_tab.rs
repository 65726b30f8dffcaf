//! The search tab: the search the player sets up (rating range, theme, opening and
//! variation, side, where to search) and the promotion piece, and what a click on
//! "search" asks of the application; also the query that searches the favorites.
use vstd::prelude::*;
use vstd::string::*;
use crate::board::Piece;
use crate::config::OfflinePuzzlesConfig;
use crate::lang::{Language, PickListWrapper};
use crate::openings::{Openings, Variation, any_variation_name};
use crate::search::{SearchQuery, spec_opening_tag, side_or_any};
use crate::styles::PieceTheme;
use crate::board::Side;
use crate::board_view::{SquareStyle, image_path, piece_image};
use crate::themes::{TaticsThemes, OpeningSide, SearchBase};

verus! {

broadcast use vstd::string::group_string_axioms;

/// What the search tab can be told.
#[derive(Debug, Clone)]
pub enum SearchMesssage {
    SliderMinRatingChanged(i32),
    SliderMaxRatingChanged(i32),
    SelectTheme(PickListWrapper<TaticsThemes>),
    SelectOpening(PickListWrapper<Openings>),
    SelectVariation(PickListWrapper<Variation>),
    SelectOpeningSide(OpeningSide),
    SelectPiecePromotion(Piece),
    ClickSearch,
    SelectBase(SearchBase),
}

/// The search tab.
#[derive(Debug)]
pub struct SearchTab {
    pub theme: PickListWrapper<TaticsThemes>,
    pub opening: PickListWrapper<Openings>,
    pub variation: PickListWrapper<Variation>,
    pub opening_side: Option<OpeningSide>,
    pub slider_min_rating_value: i32,
    pub slider_max_rating_value: i32,
    pub piece_theme_promotion: PieceTheme,
    pub piece_to_promote_to: Piece,
    pub show_searching_msg: bool,
    pub lang: Language,
    pub base: Option<SearchBase>,
}

/// A search the player asked for: what to look for, and whether in the favorites (else in
/// the lichess database). The application also remembers it in the settings file.
#[derive(Debug, Clone)]
pub struct SearchRequest {
    pub query: SearchQuery,
    pub favorites: bool,
}

impl SearchTab {
    /// The tab as it opens with the settings `settings`.
    pub open spec fn is_fresh(&self, settings: OfflinePuzzlesConfig) -> bool {
        &&& self.theme.lang == settings.lang && self.theme.item == settings.last_theme
        &&& self.opening.lang == settings.lang && self.opening.item == settings.last_opening
        &&& self.variation.lang == settings.lang && self.variation.item == settings.last_variation
        &&& self.opening_side == settings.last_opening_side
        &&& self.slider_min_rating_value == settings.last_min_rating
        &&& self.slider_max_rating_value == settings.last_max_rating
        &&& self.piece_theme_promotion == settings.piece_theme
        &&& self.piece_to_promote_to == Piece::Queen
        &&& !self.show_searching_msg
        &&& self.lang == settings.lang
        &&& self.base == Some(SearchBase::Lichess)
    }

    /// The tab as the last search left it (from the settings), promoting to a queen, in
    /// the lichess database.
    pub fn new(settings: &OfflinePuzzlesConfig) -> (r: Self)
        ensures
            r.is_fresh(*settings),
    {
        SearchTab {
            theme: PickListWrapper::new_theme(settings.lang, settings.last_theme),
            opening: PickListWrapper::new_opening(settings.lang, settings.last_opening),
            variation: PickListWrapper::new_variation(settings.lang, settings.last_variation.clone()),
            opening_side: settings.last_opening_side,
            slider_min_rating_value: settings.last_min_rating,
            slider_max_rating_value: settings.last_max_rating,
            piece_theme_promotion: settings.piece_theme,
            piece_to_promote_to: Piece::Queen,
            show_searching_msg: false,
            lang: settings.lang,
            base: Some(SearchBase::Lichess),
        }
    }

    /// The search that the tab's settings describe.
    pub open spec fn spec_query(&self) -> SearchQuery {
        SearchQuery {
            min_rating: self.slider_min_rating_value,
            max_rating: self.slider_max_rating_value,
            theme: self.theme.item,
            opening: self.opening.item,
            variation: self.variation.item,
            op_side: self.opening_side,
        }
    }

    /// Handles a message: the choices are recorded (choosing an opening resets the
    /// variation to any variation); a click on "search" shows the searching message and
    /// asks for the search.
    pub fn update(&mut self, message: SearchMesssage) -> (r: Option<SearchRequest>)
        ensures
            match message {
                SearchMesssage::SliderMinRatingChanged(v) => *final(self) == (SearchTab {
                    slider_min_rating_value: v,
                    ..*old(self)
                }) && r is None,
                SearchMesssage::SliderMaxRatingChanged(v) => *final(self) == (SearchTab {
                    slider_max_rating_value: v,
                    ..*old(self)
                }) && r is None,
                SearchMesssage::SelectTheme(t) => *final(self) == (SearchTab { theme: t, ..*old(self) })
                    && r is None,
                SearchMesssage::SelectOpening(o) => {
                    &&& final(self).opening == o
                    &&& final(self).variation.lang == old(self).variation.lang
                    &&& final(self).variation.item.name@ == any_variation_name()
                    &&& final(self).variation.item.family == Openings::Any
                    &&& *final(self) == (SearchTab {
                        opening: o,
                        variation: final(self).variation,
                        ..*old(self)
                    })
                    &&& r is None
                },
                SearchMesssage::SelectVariation(v) => *final(self) == (SearchTab {
                    variation: v,
                    ..*old(self)
                }) && r is None,
                SearchMesssage::SelectOpeningSide(s) => *final(self) == (SearchTab {
                    opening_side: Some(s),
                    ..*old(self)
                }) && r is None,
                SearchMesssage::SelectPiecePromotion(p) => *final(self) == (SearchTab {
                    piece_to_promote_to: p,
                    ..*old(self)
                }) && r is None,
                SearchMesssage::ClickSearch => {
                    &&& *final(self) == (SearchTab { show_searching_msg: true, ..*old(self) })
                    &&& r matches Some(req) && req.query == old(self).spec_query() && req.favorites
                        == (old(self).base == Some(SearchBase::Favorites))
                },
                SearchMesssage::SelectBase(b) => *final(self) == (SearchTab {
                    base: Some(b),
                    ..*old(self)
                }) && r is None,
            },
    {
        match message {
            SearchMesssage::SliderMinRatingChanged(v) => {
                self.slider_min_rating_value = v;
                None
            },
            SearchMesssage::SliderMaxRatingChanged(v) => {
                self.slider_max_rating_value = v;
                None
            },
            SearchMesssage::SelectTheme(t) => {
                self.theme = t;
                None
            },
            SearchMesssage::SelectOpening(o) => {
                self.opening = o;
                self.variation.item = Variation::any();
                None
            },
            SearchMesssage::SelectVariation(v) => {
                self.variation = v;
                None
            },
            SearchMesssage::SelectOpeningSide(s) => {
                self.opening_side = Some(s);
                None
            },
            SearchMesssage::SelectPiecePromotion(p) => {
                self.piece_to_promote_to = p;
                None
            },
            SearchMesssage::ClickSearch => {
                self.show_searching_msg = true;
                let favorites = match self.base {
                    Some(SearchBase::Favorites) => true,
                    _ => false,
                };
                let query = SearchQuery {
                    min_rating: self.slider_min_rating_value,
                    max_rating: self.slider_max_rating_value,
                    theme: self.theme.item,
                    opening: self.opening.item,
                    variation: self.variation.item.clone(),
                    op_side: self.opening_side,
                };
                Some(SearchRequest { query, favorites })
            },
            SearchMesssage::SelectBase(b) => {
                self.base = Some(b);
                None
            },
        }
    }
}

/// How the favorites are filtered by the link of the puzzle's game.
#[derive(Debug, Clone, Copy, PartialEq, Eq, Structural)]
pub enum UrlFilter {
    /// The link names `black` (a puzzle from White's opening).
    NamesBlack,
    /// The link does not name `black`.
    DoesNotNameBlack,
}

/// The query that searches the favorites (SQL `LIKE` patterns).
#[derive(Debug, Clone)]
pub struct FavoritesQuery {
    pub min_rating: i32,
    pub max_rating: i32,
    pub themes_like: String,
    pub opening_like: Option<String>,
    pub url_filter: Option<UrlFilter>,
    pub limit: i64,
}

/// The `LIKE` pattern that matches text containing `s`.
pub open spec fn like_containing(s: Seq<char>) -> Seq<char> {
    "%"@ + s + "%"@
}

/// The favorites query for a search: the rating range, the theme's tag anywhere in the
/// themes, and, when an opening is asked for, its tag anywhere in the opening tags and
/// the side's link filter; at most `limit` puzzles (as the database's signed count).
pub fn favorites_query(q: &SearchQuery, limit: usize) -> (r: FavoritesQuery)
    ensures
        r.min_rating == q.min_rating,
        r.max_rating == q.max_rating,
        r.themes_like@ == like_containing(q.theme.spec_tag_name()),
        r.limit == limit as i64,
        q.opening == Openings::Any ==> r.opening_like is None && r.url_filter is None,
        q.opening != Openings::Any ==> {
            &&& r.opening_like matches Some(o) && o@ == like_containing(
                spec_opening_tag(q.opening, q.variation),
            )
            &&& r.url_filter == match side_or_any(q.op_side) {
                OpeningSide::White => Some(UrlFilter::NamesBlack),
                OpeningSide::Black => Some(UrlFilter::DoesNotNameBlack),
                OpeningSide::Any => None,
            }
        },
{
    let themes_like = String::from_str("%").concat(q.theme.get_tag_name()).concat("%");
    let wide = limit as i64;
    if q.opening == Openings::Any {
        return FavoritesQuery {
            min_rating: q.min_rating,
            max_rating: q.max_rating,
            themes_like,
            opening_like: None,
            url_filter: None,
            limit: wide,
        };
    }
    let opening_like = String::from_str("%").concat(q.opening_tag()).concat("%");
    let side = match q.op_side {
        None => OpeningSide::Any,
        Some(x) => x,
    };
    let url_filter = match side {
        OpeningSide::White => Some(UrlFilter::NamesBlack),
        OpeningSide::Black => Some(UrlFilter::DoesNotNameBlack),
        OpeningSide::Any => None,
    };
    FavoritesQuery {
        min_rating: q.min_rating,
        max_rating: q.max_rating,
        themes_like,
        opening_like: Some(opening_like),
        url_filter,
        limit: wide,
    }
}


/// A button of the promotion picker: the piece, and its letter in the chess font (upper
/// case when chosen) or its image (on a dark square when chosen, else a light one).
#[derive(Debug, Clone)]
pub struct PromotionChoice {
    pub piece: Piece,
    pub glyph: Option<char>,
    pub image: Option<String>,
    pub style: SquareStyle,
}

/// The pieces a pawn can be promoted to, in the picker's order.
pub open spec fn promotion_pieces() -> Seq<Piece> {
    seq![Piece::Rook, Piece::Knight, Piece::Bishop, Piece::Queen]
}

/// The chess-font letter of a promotion piece in the picker (lower case).
pub open spec fn picker_letter(p: Piece) -> char {
    match p {
        Piece::Rook => 'r',
        Piece::Knight => 'h',
        Piece::Bishop => 'b',
        _ => 'q',
    }
}

/// What button `i` of the promotion picker shows.
pub open spec fn picker_button(tab: SearchTab, i: int, b: PromotionChoice) -> bool {
    let p = promotion_pieces()[i];
    let chosen = tab.piece_to_promote_to == p;
    &&& b.piece == p
    &&& if tab.piece_theme_promotion == PieceTheme::FontAlpha {
        &&& b.glyph == Some(
            if chosen {
                ((picker_letter(p) as u8) - 32) as char
            } else {
                picker_letter(p)
            },
        )
        &&& b.image is None
        &&& b.style == SquareStyle::Paper
    } else {
        &&& b.glyph is None
        &&& b.image matches Some(s) && s@ == image_path(tab.piece_theme_promotion, p, Side::White)
        &&& b.style == (if chosen {
            SquareStyle::DarkSquare
        } else {
            SquareStyle::LightSquare
        })
    }
}

impl SearchTab {
    /// The buttons of the promotion picker.
    pub fn promotion_choices(&self) -> (r: Vec<PromotionChoice>)
        ensures
            r@.len() == 4,
            forall|i: int| 0 <= i < 4 ==> picker_button(*self, i, #[trigger] r@[i]),
    {
        let mut r: Vec<PromotionChoice> = Vec::new();
        let pieces = [Piece::Rook, Piece::Knight, Piece::Bishop, Piece::Queen];
        let letters: [u8; 4] = [114, 104, 98, 113];
        let font = self.piece_theme_promotion == PieceTheme::FontAlpha;
        let mut i: usize = 0;
        while i < 4
            invariant
                i <= 4,
                r@.len() == i,
                pieces@ == promotion_pieces(),
                letters@ == seq![114u8, 104u8, 98u8, 113u8],
                font == (self.piece_theme_promotion == PieceTheme::FontAlpha),
                forall|k: int| 0 <= k < i ==> picker_button(*self, k, #[trigger] r@[k]),
            decreases 4 - i,
        {
            let p = pieces[i];
            let chosen = self.piece_to_promote_to == p;
            let b = if font {
                let letter: u8 = if chosen {
                    letters[i] - 32
                } else {
                    letters[i]
                };
                PromotionChoice { piece: p, glyph: Some(letter as char), image: None, style: SquareStyle::Paper }
            } else {
                let style = if chosen {
                    SquareStyle::DarkSquare
                } else {
                    SquareStyle::LightSquare
                };
                PromotionChoice {
                    piece: p,
                    glyph: None,
                    image: Some(piece_image(self.piece_theme_promotion, p, Side::White)),
                    style,
                }
            };
            r.push(b);
            i = i + 1;
        }
        r
    }

    /// The side of the opening can be chosen once an opening is chosen.
    pub fn shows_side_choice(&self) -> (r: bool)
        ensures
            r == (self.opening.item != Openings::Any),
    {
        self.opening.item != Openings::Any
    }
}

} // verus!
