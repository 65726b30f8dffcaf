//! Puzzle themes, the side an opening is played from, and the puzzle sources.
use vstd::prelude::*;
use crate::lang::{Language, DisplayTranslated, PickListWrapper};

verus! {

/// The tactical themes that puzzles can be searched by (`All` for no restriction).
#[derive(Debug, Clone, Copy, PartialEq, Eq, Structural)]
pub enum TaticsThemes {
    All,
    Opening,
    Middlegame,
    Endgame,
    RookEndgame,
    BishopEndgame,
    PawnEndgame,
    KnightEndgame,
    QueenEndgame,
    QueenRookEndgame,
    AdvancedPawn,
    AtackingF2F7,
    CapturingDefender,
    DiscoveredAttack,
    DoubleCheck,
    ExposedKing,
    Fork,
    HangingPiece,
    KingsideAttack,
    Pin,
    QueensideAttack,
    Sacrifice,
    Skewer,
    TrappedPiece,
    Attraction,
    Clearance,
    DefensiveMove,
    Deflection,
    Interference,
    Intermezzo,
    QuietMove,
    XRayAttack,
    Zugzwang,
    Mate,
    MateIn1,
    MateIn2,
    MateIn3,
    MateIn4,
    MateIn5,
    AnastasiaMate,
    ArabianMate,
    BackRankMate,
    BodenMate,
    DoubleBishopMate,
    DovetailMate,
    HookMate,
    SmotheredMate,
    Castling,
    EnPassant,
    Promotion,
    UnderPromotion,
    Equality,
    Advantage,
    Crushing,
    OneMove,
    Short,
    Long,
    VeryLong,
    Master,
    MasterVsMaster,
    SuperGM,
}

/// Every theme, in the order the theme picker lists them.
pub open spec fn all_themes() -> Seq<TaticsThemes> {
    seq![
        TaticsThemes::All,
        TaticsThemes::Opening,
        TaticsThemes::Middlegame,
        TaticsThemes::Endgame,
        TaticsThemes::RookEndgame,
        TaticsThemes::BishopEndgame,
        TaticsThemes::PawnEndgame,
        TaticsThemes::KnightEndgame,
        TaticsThemes::QueenEndgame,
        TaticsThemes::QueenRookEndgame,
        TaticsThemes::AdvancedPawn,
        TaticsThemes::AtackingF2F7,
        TaticsThemes::CapturingDefender,
        TaticsThemes::DiscoveredAttack,
        TaticsThemes::DoubleCheck,
        TaticsThemes::ExposedKing,
        TaticsThemes::Fork,
        TaticsThemes::HangingPiece,
        TaticsThemes::KingsideAttack,
        TaticsThemes::Pin,
        TaticsThemes::QueensideAttack,
        TaticsThemes::Sacrifice,
        TaticsThemes::Skewer,
        TaticsThemes::TrappedPiece,
        TaticsThemes::Attraction,
        TaticsThemes::Clearance,
        TaticsThemes::DefensiveMove,
        TaticsThemes::Deflection,
        TaticsThemes::Interference,
        TaticsThemes::Intermezzo,
        TaticsThemes::QuietMove,
        TaticsThemes::XRayAttack,
        TaticsThemes::Zugzwang,
        TaticsThemes::Mate,
        TaticsThemes::MateIn1,
        TaticsThemes::MateIn2,
        TaticsThemes::MateIn3,
        TaticsThemes::MateIn4,
        TaticsThemes::MateIn5,
        TaticsThemes::AnastasiaMate,
        TaticsThemes::ArabianMate,
        TaticsThemes::BackRankMate,
        TaticsThemes::BodenMate,
        TaticsThemes::DoubleBishopMate,
        TaticsThemes::DovetailMate,
        TaticsThemes::HookMate,
        TaticsThemes::SmotheredMate,
        TaticsThemes::Castling,
        TaticsThemes::EnPassant,
        TaticsThemes::Promotion,
        TaticsThemes::UnderPromotion,
        TaticsThemes::Equality,
        TaticsThemes::Advantage,
        TaticsThemes::Crushing,
        TaticsThemes::OneMove,
        TaticsThemes::Short,
        TaticsThemes::Long,
        TaticsThemes::VeryLong,
        TaticsThemes::Master,
        TaticsThemes::MasterVsMaster,
        TaticsThemes::SuperGM,
    ]
}

impl TaticsThemes {
    /// The tag of the theme in the puzzle database (empty for `All`).
    pub open spec fn spec_tag_name(self) -> Seq<char> {
        match self {
            TaticsThemes::All => ""@,
            TaticsThemes::Opening => "opening"@,
            TaticsThemes::Middlegame => "middlegame"@,
            TaticsThemes::Endgame => "endgame"@,
            TaticsThemes::RookEndgame => "rookEndgame"@,
            TaticsThemes::BishopEndgame => "bishopEndgame"@,
            TaticsThemes::PawnEndgame => "pawnEndgame"@,
            TaticsThemes::KnightEndgame => "knightEndgame"@,
            TaticsThemes::QueenEndgame => "queenEndgame"@,
            TaticsThemes::QueenRookEndgame => "queenRookEndgame"@,
            TaticsThemes::AdvancedPawn => "advancedPawn"@,
            TaticsThemes::AtackingF2F7 => "attackingF2F7"@,
            TaticsThemes::CapturingDefender => "capturingDefender"@,
            TaticsThemes::DiscoveredAttack => "discoveredAttack"@,
            TaticsThemes::DoubleCheck => "doubleCheck"@,
            TaticsThemes::ExposedKing => "exposedKing"@,
            TaticsThemes::Fork => "fork"@,
            TaticsThemes::HangingPiece => "hangingPiece"@,
            TaticsThemes::KingsideAttack => "kingsideAttack"@,
            TaticsThemes::Pin => "pin"@,
            TaticsThemes::QueensideAttack => "queensideAttack"@,
            TaticsThemes::Sacrifice => "sacrifice"@,
            TaticsThemes::Skewer => "skewer"@,
            TaticsThemes::TrappedPiece => "trappedPiece"@,
            TaticsThemes::Attraction => "attraction"@,
            TaticsThemes::Clearance => "clearance"@,
            TaticsThemes::DefensiveMove => "defensiveMove"@,
            TaticsThemes::Deflection => "deflection"@,
            TaticsThemes::Interference => "interference"@,
            TaticsThemes::Intermezzo => "intermezzo"@,
            TaticsThemes::QuietMove => "quietMove"@,
            TaticsThemes::XRayAttack => "xRayAttack"@,
            TaticsThemes::Zugzwang => "zugzwang"@,
            TaticsThemes::Mate => "mate"@,
            TaticsThemes::MateIn1 => "mateIn1"@,
            TaticsThemes::MateIn2 => "mateIn2"@,
            TaticsThemes::MateIn3 => "mateIn3"@,
            TaticsThemes::MateIn4 => "mateIn4"@,
            TaticsThemes::MateIn5 => "mateIn5"@,
            TaticsThemes::AnastasiaMate => "anastasiaMate"@,
            TaticsThemes::ArabianMate => "arabianMate"@,
            TaticsThemes::BackRankMate => "backRankMate"@,
            TaticsThemes::BodenMate => "bodenMate"@,
            TaticsThemes::DoubleBishopMate => "doubleBishopMate"@,
            TaticsThemes::DovetailMate => "dovetailMate"@,
            TaticsThemes::HookMate => "hookMate"@,
            TaticsThemes::SmotheredMate => "smotheredMate"@,
            TaticsThemes::Castling => "castling"@,
            TaticsThemes::EnPassant => "enPassant"@,
            TaticsThemes::Promotion => "promotion"@,
            TaticsThemes::UnderPromotion => "underPromotion"@,
            TaticsThemes::Equality => "equality"@,
            TaticsThemes::Advantage => "advantage"@,
            TaticsThemes::Crushing => "crushing"@,
            TaticsThemes::OneMove => "oneMove"@,
            TaticsThemes::Short => "short"@,
            TaticsThemes::Long => "long"@,
            TaticsThemes::VeryLong => "veryLong"@,
            TaticsThemes::Master => "master"@,
            TaticsThemes::MasterVsMaster => "masterVsMaster"@,
            TaticsThemes::SuperGM => "superGM"@,
        }
    }

    /// The tag of the theme in the puzzle database (empty for `All`).
    pub fn get_tag_name(&self) -> (r: &'static str)
        ensures
            r@ == self.spec_tag_name(),
    {
        match self {
            TaticsThemes::All => "",
            TaticsThemes::Opening => "opening",
            TaticsThemes::Middlegame => "middlegame",
            TaticsThemes::Endgame => "endgame",
            TaticsThemes::RookEndgame => "rookEndgame",
            TaticsThemes::BishopEndgame => "bishopEndgame",
            TaticsThemes::PawnEndgame => "pawnEndgame",
            TaticsThemes::KnightEndgame => "knightEndgame",
            TaticsThemes::QueenEndgame => "queenEndgame",
            TaticsThemes::QueenRookEndgame => "queenRookEndgame",
            TaticsThemes::AdvancedPawn => "advancedPawn",
            TaticsThemes::AtackingF2F7 => "attackingF2F7",
            TaticsThemes::CapturingDefender => "capturingDefender",
            TaticsThemes::DiscoveredAttack => "discoveredAttack",
            TaticsThemes::DoubleCheck => "doubleCheck",
            TaticsThemes::ExposedKing => "exposedKing",
            TaticsThemes::Fork => "fork",
            TaticsThemes::HangingPiece => "hangingPiece",
            TaticsThemes::KingsideAttack => "kingsideAttack",
            TaticsThemes::Pin => "pin",
            TaticsThemes::QueensideAttack => "queensideAttack",
            TaticsThemes::Sacrifice => "sacrifice",
            TaticsThemes::Skewer => "skewer",
            TaticsThemes::TrappedPiece => "trappedPiece",
            TaticsThemes::Attraction => "attraction",
            TaticsThemes::Clearance => "clearance",
            TaticsThemes::DefensiveMove => "defensiveMove",
            TaticsThemes::Deflection => "deflection",
            TaticsThemes::Interference => "interference",
            TaticsThemes::Intermezzo => "intermezzo",
            TaticsThemes::QuietMove => "quietMove",
            TaticsThemes::XRayAttack => "xRayAttack",
            TaticsThemes::Zugzwang => "zugzwang",
            TaticsThemes::Mate => "mate",
            TaticsThemes::MateIn1 => "mateIn1",
            TaticsThemes::MateIn2 => "mateIn2",
            TaticsThemes::MateIn3 => "mateIn3",
            TaticsThemes::MateIn4 => "mateIn4",
            TaticsThemes::MateIn5 => "mateIn5",
            TaticsThemes::AnastasiaMate => "anastasiaMate",
            TaticsThemes::ArabianMate => "arabianMate",
            TaticsThemes::BackRankMate => "backRankMate",
            TaticsThemes::BodenMate => "bodenMate",
            TaticsThemes::DoubleBishopMate => "doubleBishopMate",
            TaticsThemes::DovetailMate => "dovetailMate",
            TaticsThemes::HookMate => "hookMate",
            TaticsThemes::SmotheredMate => "smotheredMate",
            TaticsThemes::Castling => "castling",
            TaticsThemes::EnPassant => "enPassant",
            TaticsThemes::Promotion => "promotion",
            TaticsThemes::UnderPromotion => "underPromotion",
            TaticsThemes::Equality => "equality",
            TaticsThemes::Advantage => "advantage",
            TaticsThemes::Crushing => "crushing",
            TaticsThemes::OneMove => "oneMove",
            TaticsThemes::Short => "short",
            TaticsThemes::Long => "long",
            TaticsThemes::VeryLong => "veryLong",
            TaticsThemes::Master => "master",
            TaticsThemes::MasterVsMaster => "masterVsMaster",
            TaticsThemes::SuperGM => "superGM",
        }
    }

    /// The translation key of the theme: `themes_all` for `All`, else its tag.
    pub open spec fn spec_tr_key_of(self) -> Seq<char> {
        match self {
            TaticsThemes::All => "themes_all"@,
            _ => self.spec_tag_name(),
        }
    }

    /// The translation key of the theme: `themes_all` for `All`, else its tag.
    pub fn get_tr_key(&self) -> (r: &'static str)
        ensures
            r@ == self.spec_tr_key_of(),
    {
        match self {
            TaticsThemes::All => "themes_all",
            _ => self.get_tag_name(),
        }
    }

    /// Every theme, in the order the theme picker lists them.
    pub fn all() -> (r: Vec<TaticsThemes>)
        ensures
            r@ == all_themes(),
    {
        let r = vec![
            TaticsThemes::All,
            TaticsThemes::Opening,
            TaticsThemes::Middlegame,
            TaticsThemes::Endgame,
            TaticsThemes::RookEndgame,
            TaticsThemes::BishopEndgame,
            TaticsThemes::PawnEndgame,
            TaticsThemes::KnightEndgame,
            TaticsThemes::QueenEndgame,
            TaticsThemes::QueenRookEndgame,
            TaticsThemes::AdvancedPawn,
            TaticsThemes::AtackingF2F7,
            TaticsThemes::CapturingDefender,
            TaticsThemes::DiscoveredAttack,
            TaticsThemes::DoubleCheck,
            TaticsThemes::ExposedKing,
            TaticsThemes::Fork,
            TaticsThemes::HangingPiece,
            TaticsThemes::KingsideAttack,
            TaticsThemes::Pin,
            TaticsThemes::QueensideAttack,
            TaticsThemes::Sacrifice,
            TaticsThemes::Skewer,
            TaticsThemes::TrappedPiece,
            TaticsThemes::Attraction,
            TaticsThemes::Clearance,
            TaticsThemes::DefensiveMove,
            TaticsThemes::Deflection,
            TaticsThemes::Interference,
            TaticsThemes::Intermezzo,
            TaticsThemes::QuietMove,
            TaticsThemes::XRayAttack,
            TaticsThemes::Zugzwang,
            TaticsThemes::Mate,
            TaticsThemes::MateIn1,
            TaticsThemes::MateIn2,
            TaticsThemes::MateIn3,
            TaticsThemes::MateIn4,
            TaticsThemes::MateIn5,
            TaticsThemes::AnastasiaMate,
            TaticsThemes::ArabianMate,
            TaticsThemes::BackRankMate,
            TaticsThemes::BodenMate,
            TaticsThemes::DoubleBishopMate,
            TaticsThemes::DovetailMate,
            TaticsThemes::HookMate,
            TaticsThemes::SmotheredMate,
            TaticsThemes::Castling,
            TaticsThemes::EnPassant,
            TaticsThemes::Promotion,
            TaticsThemes::UnderPromotion,
            TaticsThemes::Equality,
            TaticsThemes::Advantage,
            TaticsThemes::Crushing,
            TaticsThemes::OneMove,
            TaticsThemes::Short,
            TaticsThemes::Long,
            TaticsThemes::VeryLong,
            TaticsThemes::Master,
            TaticsThemes::MasterVsMaster,
            TaticsThemes::SuperGM,
        ];
        proof {
            assert(r@ =~= all_themes());
        }
        r
    }
}

impl DisplayTranslated for TaticsThemes {
    open spec fn spec_tr_key(&self) -> Seq<char> {
        self.spec_tr_key_of()
    }

    fn to_str_tr(&self) -> (r: &str) {
        self.get_tr_key()
    }
}

impl Default for TaticsThemes {
    /// Puzzles are searched for mates unless told otherwise.
    fn default() -> (r: TaticsThemes)
        ensures
            r == TaticsThemes::Mate,
    {
        TaticsThemes::Mate
    }
}

/// Every theme appears in the theme picker.
pub proof fn lemma_all_themes_listed(t: TaticsThemes)
    ensures
        all_themes().contains(t),
{
    match t {
        TaticsThemes::All => assert(all_themes()[0] == t),
        TaticsThemes::Opening => assert(all_themes()[1] == t),
        TaticsThemes::Middlegame => assert(all_themes()[2] == t),
        TaticsThemes::Endgame => assert(all_themes()[3] == t),
        TaticsThemes::RookEndgame => assert(all_themes()[4] == t),
        TaticsThemes::BishopEndgame => assert(all_themes()[5] == t),
        TaticsThemes::PawnEndgame => assert(all_themes()[6] == t),
        TaticsThemes::KnightEndgame => assert(all_themes()[7] == t),
        TaticsThemes::QueenEndgame => assert(all_themes()[8] == t),
        TaticsThemes::QueenRookEndgame => assert(all_themes()[9] == t),
        TaticsThemes::AdvancedPawn => assert(all_themes()[10] == t),
        TaticsThemes::AtackingF2F7 => assert(all_themes()[11] == t),
        TaticsThemes::CapturingDefender => assert(all_themes()[12] == t),
        TaticsThemes::DiscoveredAttack => assert(all_themes()[13] == t),
        TaticsThemes::DoubleCheck => assert(all_themes()[14] == t),
        TaticsThemes::ExposedKing => assert(all_themes()[15] == t),
        TaticsThemes::Fork => assert(all_themes()[16] == t),
        TaticsThemes::HangingPiece => assert(all_themes()[17] == t),
        TaticsThemes::KingsideAttack => assert(all_themes()[18] == t),
        TaticsThemes::Pin => assert(all_themes()[19] == t),
        TaticsThemes::QueensideAttack => assert(all_themes()[20] == t),
        TaticsThemes::Sacrifice => assert(all_themes()[21] == t),
        TaticsThemes::Skewer => assert(all_themes()[22] == t),
        TaticsThemes::TrappedPiece => assert(all_themes()[23] == t),
        TaticsThemes::Attraction => assert(all_themes()[24] == t),
        TaticsThemes::Clearance => assert(all_themes()[25] == t),
        TaticsThemes::DefensiveMove => assert(all_themes()[26] == t),
        TaticsThemes::Deflection => assert(all_themes()[27] == t),
        TaticsThemes::Interference => assert(all_themes()[28] == t),
        TaticsThemes::Intermezzo => assert(all_themes()[29] == t),
        TaticsThemes::QuietMove => assert(all_themes()[30] == t),
        TaticsThemes::XRayAttack => assert(all_themes()[31] == t),
        TaticsThemes::Zugzwang => assert(all_themes()[32] == t),
        TaticsThemes::Mate => assert(all_themes()[33] == t),
        TaticsThemes::MateIn1 => assert(all_themes()[34] == t),
        TaticsThemes::MateIn2 => assert(all_themes()[35] == t),
        TaticsThemes::MateIn3 => assert(all_themes()[36] == t),
        TaticsThemes::MateIn4 => assert(all_themes()[37] == t),
        TaticsThemes::MateIn5 => assert(all_themes()[38] == t),
        TaticsThemes::AnastasiaMate => assert(all_themes()[39] == t),
        TaticsThemes::ArabianMate => assert(all_themes()[40] == t),
        TaticsThemes::BackRankMate => assert(all_themes()[41] == t),
        TaticsThemes::BodenMate => assert(all_themes()[42] == t),
        TaticsThemes::DoubleBishopMate => assert(all_themes()[43] == t),
        TaticsThemes::DovetailMate => assert(all_themes()[44] == t),
        TaticsThemes::HookMate => assert(all_themes()[45] == t),
        TaticsThemes::SmotheredMate => assert(all_themes()[46] == t),
        TaticsThemes::Castling => assert(all_themes()[47] == t),
        TaticsThemes::EnPassant => assert(all_themes()[48] == t),
        TaticsThemes::Promotion => assert(all_themes()[49] == t),
        TaticsThemes::UnderPromotion => assert(all_themes()[50] == t),
        TaticsThemes::Equality => assert(all_themes()[51] == t),
        TaticsThemes::Advantage => assert(all_themes()[52] == t),
        TaticsThemes::Crushing => assert(all_themes()[53] == t),
        TaticsThemes::OneMove => assert(all_themes()[54] == t),
        TaticsThemes::Short => assert(all_themes()[55] == t),
        TaticsThemes::Long => assert(all_themes()[56] == t),
        TaticsThemes::VeryLong => assert(all_themes()[57] == t),
        TaticsThemes::Master => assert(all_themes()[58] == t),
        TaticsThemes::MasterVsMaster => assert(all_themes()[59] == t),
        TaticsThemes::SuperGM => assert(all_themes()[60] == t),
    }
}

impl PickListWrapper<TaticsThemes> {
    /// Every theme, each shown in the language `lang`.
    pub fn get_themes(lang: Language) -> (r: Vec<PickListWrapper<TaticsThemes>>)
        ensures
            r.len() == all_themes().len(),
            forall|i: int|
                0 <= i < r.len() ==> #[trigger] r[i].lang == lang && r[i].item == all_themes()[i],
    {
        let all = TaticsThemes::all();
        let mut r: Vec<PickListWrapper<TaticsThemes>> = Vec::new();
        let mut i: usize = 0;
        while i < all.len()
            invariant
                i <= all.len(),
                all@ == all_themes(),
                r.len() == i,
                forall|j: int| 0 <= j < i ==> #[trigger] r[j].lang == lang && r[j].item == all@[j],
            decreases all.len() - i,
        {
            r.push(PickListWrapper { lang, item: all[i] });
            i = i + 1;
        }
        r
    }

    /// The theme `theme` shown in the language `lang`.
    pub fn new_theme(lang: Language, theme: TaticsThemes) -> (r: Self)
        ensures
            r.lang == lang,
            r.item == theme,
    {
        Self { lang, item: theme }
    }
}

/// The side whose opening a puzzle should come from.
#[derive(Debug, Clone, Copy, PartialEq, Eq, Structural)]
pub enum OpeningSide {
    Any,
    White,
    Black,
}

/// Where puzzles are searched: the lichess database or the player's favorites.
#[derive(Debug, Clone, Copy, PartialEq, Eq, Structural)]
pub enum SearchBase {
    Lichess,
    Favorites,
}

} // verus!
