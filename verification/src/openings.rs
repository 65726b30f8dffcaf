//! Openings and their variations, as the lichess puzzle database tags them.
use vstd::prelude::*;
use vstd::string::*;
use crate::lang::{Language, DisplayTranslated, PickListWrapper};

verus! {

/// The openings that puzzles can be searched by (`Any` for no restriction).
#[derive(Debug, Clone, Copy, PartialEq, Eq, Structural)]
pub enum Openings {
    Any,
    Sicilian,
    French,
    QueensPawnGame,
    ItalianGame,
    CaroKann,
    Scandinavian,
    QueensGambitDeclined,
    English,
    RuyLopez,
    IndianDefense,
    ScotchGame,
    RussianGame,
    PhilidorDefense,
    ModernDefense,
    FourKnightsGame,
    KingsGambitAccepted,
    ZukertortOpening,
    BishopsOpening,
    SlavDefense,
    PircDefense,
    KingsPawnGame,
    ViennaGame,
    QueensGambitAccepted,
    KingsIndianDefense,
    Benoni,
    NimzowitschDefense,
    AlekhineDefense,
    NimzoLarsenAttack,
    HorwitzDefense,
    KingsGambitDeclined,
    OwenDefense,
    Bird,
    Dutch,
    NimzoIndianDefense,
    VantKruijsOpening,
    SemiSlav,
    CenterGame,
    HungarianOpening,
    ThreeKnightsOpening,
    PonzianiOpening,
    EnglundGambit,
    GrunfeldDefense,
    BlackmarDiemerGambit,
    ElephantGambit,
    PolishOpening,
    DanishGambit,
    KingsIndianAttack,
    TrompowskyAttack,
    EnglishDefense,
    GrobOpening,
    RapportJobavaSystem,
    TarraschDefense,
    CatalanOpening,
    Reti,
    QueensIndianDefense,
    LondonSystem,
}

/// Every opening, in the order the opening picker lists them.
pub open spec fn all_openings() -> Seq<Openings> {
    seq![
        Openings::Any,
        Openings::Sicilian,
        Openings::French,
        Openings::QueensPawnGame,
        Openings::ItalianGame,
        Openings::CaroKann,
        Openings::Scandinavian,
        Openings::QueensGambitDeclined,
        Openings::English,
        Openings::RuyLopez,
        Openings::IndianDefense,
        Openings::ScotchGame,
        Openings::RussianGame,
        Openings::PhilidorDefense,
        Openings::ModernDefense,
        Openings::FourKnightsGame,
        Openings::KingsGambitAccepted,
        Openings::ZukertortOpening,
        Openings::BishopsOpening,
        Openings::SlavDefense,
        Openings::PircDefense,
        Openings::KingsPawnGame,
        Openings::ViennaGame,
        Openings::QueensGambitAccepted,
        Openings::KingsIndianDefense,
        Openings::Benoni,
        Openings::NimzowitschDefense,
        Openings::AlekhineDefense,
        Openings::NimzoLarsenAttack,
        Openings::HorwitzDefense,
        Openings::KingsGambitDeclined,
        Openings::OwenDefense,
        Openings::Bird,
        Openings::Dutch,
        Openings::NimzoIndianDefense,
        Openings::VantKruijsOpening,
        Openings::SemiSlav,
        Openings::CenterGame,
        Openings::HungarianOpening,
        Openings::ThreeKnightsOpening,
        Openings::PonzianiOpening,
        Openings::EnglundGambit,
        Openings::GrunfeldDefense,
        Openings::BlackmarDiemerGambit,
        Openings::ElephantGambit,
        Openings::PolishOpening,
        Openings::DanishGambit,
        Openings::KingsIndianAttack,
        Openings::TrompowskyAttack,
        Openings::EnglishDefense,
        Openings::GrobOpening,
        Openings::RapportJobavaSystem,
        Openings::TarraschDefense,
        Openings::CatalanOpening,
        Openings::Reti,
        Openings::QueensIndianDefense,
        Openings::LondonSystem,
    ]
}

impl Openings {
    /// The tag of the opening in the puzzle database (empty for `Any`).
    pub open spec fn spec_field_name(self) -> Seq<char> {
        match self {
            Openings::Any => ""@,
            Openings::Sicilian => "Sicilian_Defense"@,
            Openings::French => "French_Defense"@,
            Openings::QueensPawnGame => "Queens_Pawn_Game"@,
            Openings::ItalianGame => "Italian_Game"@,
            Openings::CaroKann => "Caro-Kann_Defense"@,
            Openings::Scandinavian => "Scandinavian_Defense"@,
            Openings::QueensGambitDeclined => "Queens_Gambit_Declined"@,
            Openings::English => "English_Opening"@,
            Openings::RuyLopez => "Ruy_Lopez"@,
            Openings::IndianDefense => "Indian_Defense"@,
            Openings::ScotchGame => "Scotch_Game"@,
            Openings::RussianGame => "Russian_Game"@,
            Openings::PhilidorDefense => "Philidor_Defense"@,
            Openings::ModernDefense => "Modern_Defense"@,
            Openings::FourKnightsGame => "Four_Knights_Game"@,
            Openings::KingsGambitAccepted => "Kings_Gambit_Accepted"@,
            Openings::ZukertortOpening => "Zukertort_Opening"@,
            Openings::BishopsOpening => "Bishops_Opening"@,
            Openings::SlavDefense => "Slav_Defense"@,
            Openings::PircDefense => "Pirc_Defense"@,
            Openings::KingsPawnGame => "Kings_Pawn_Game"@,
            Openings::ViennaGame => "Vienna_Game"@,
            Openings::QueensGambitAccepted => "Queens_Gambit_Accepted"@,
            Openings::KingsIndianDefense => "Kings_Indian_Defense"@,
            Openings::Benoni => "Benoni_Defense"@,
            Openings::NimzowitschDefense => "Nimzowitsch_Defense"@,
            Openings::AlekhineDefense => "Alekhine_Defense"@,
            Openings::NimzoLarsenAttack => "Nimzo-Larsen_Attack"@,
            Openings::HorwitzDefense => "Horwitz_Defense"@,
            Openings::KingsGambitDeclined => "Kings_Gambit_Declined"@,
            Openings::OwenDefense => "Owen_Defense"@,
            Openings::Bird => "Bird_Opening"@,
            Openings::Dutch => "Dutch_Defense"@,
            Openings::NimzoIndianDefense => "Nimzo-Indian_Defense"@,
            Openings::VantKruijsOpening => "Vant_Kruijs_Opening"@,
            Openings::SemiSlav => "Semi-Slav_Defense"@,
            Openings::CenterGame => "Center_Game"@,
            Openings::HungarianOpening => "Hungarian_Opening"@,
            Openings::ThreeKnightsOpening => "Three_Knights_Opening"@,
            Openings::PonzianiOpening => "Ponziani_Opening"@,
            Openings::EnglundGambit => "Englund_Gambit"@,
            Openings::GrunfeldDefense => "Grunfeld_Defense"@,
            Openings::BlackmarDiemerGambit => "Blackmar-Diemer_Gambit"@,
            Openings::ElephantGambit => "Elephant_Gambit"@,
            Openings::PolishOpening => "Polish_Opening"@,
            Openings::DanishGambit => "Danish_Gambit"@,
            Openings::KingsIndianAttack => "Kings_Indian_Attack"@,
            Openings::TrompowskyAttack => "Trompowsky_Attack"@,
            Openings::EnglishDefense => "English_Defense"@,
            Openings::GrobOpening => "Grob_Opening"@,
            Openings::RapportJobavaSystem => "Rapport-Jobava_System"@,
            Openings::TarraschDefense => "Tarrasch_Defense"@,
            Openings::CatalanOpening => "Catalan_Opening"@,
            Openings::Reti => "Reti_Opening"@,
            Openings::QueensIndianDefense => "Queens_Indian_Defense"@,
            Openings::LondonSystem => "London_System"@,
        }
    }

    /// The tag of the opening in the puzzle database (empty for `Any`).
    pub fn get_field_name(&self) -> (r: &'static str)
        ensures
            r@ == self.spec_field_name(),
    {
        match self {
            Openings::Any => "",
            Openings::Sicilian => "Sicilian_Defense",
            Openings::French => "French_Defense",
            Openings::QueensPawnGame => "Queens_Pawn_Game",
            Openings::ItalianGame => "Italian_Game",
            Openings::CaroKann => "Caro-Kann_Defense",
            Openings::Scandinavian => "Scandinavian_Defense",
            Openings::QueensGambitDeclined => "Queens_Gambit_Declined",
            Openings::English => "English_Opening",
            Openings::RuyLopez => "Ruy_Lopez",
            Openings::IndianDefense => "Indian_Defense",
            Openings::ScotchGame => "Scotch_Game",
            Openings::RussianGame => "Russian_Game",
            Openings::PhilidorDefense => "Philidor_Defense",
            Openings::ModernDefense => "Modern_Defense",
            Openings::FourKnightsGame => "Four_Knights_Game",
            Openings::KingsGambitAccepted => "Kings_Gambit_Accepted",
            Openings::ZukertortOpening => "Zukertort_Opening",
            Openings::BishopsOpening => "Bishops_Opening",
            Openings::SlavDefense => "Slav_Defense",
            Openings::PircDefense => "Pirc_Defense",
            Openings::KingsPawnGame => "Kings_Pawn_Game",
            Openings::ViennaGame => "Vienna_Game",
            Openings::QueensGambitAccepted => "Queens_Gambit_Accepted",
            Openings::KingsIndianDefense => "Kings_Indian_Defense",
            Openings::Benoni => "Benoni_Defense",
            Openings::NimzowitschDefense => "Nimzowitsch_Defense",
            Openings::AlekhineDefense => "Alekhine_Defense",
            Openings::NimzoLarsenAttack => "Nimzo-Larsen_Attack",
            Openings::HorwitzDefense => "Horwitz_Defense",
            Openings::KingsGambitDeclined => "Kings_Gambit_Declined",
            Openings::OwenDefense => "Owen_Defense",
            Openings::Bird => "Bird_Opening",
            Openings::Dutch => "Dutch_Defense",
            Openings::NimzoIndianDefense => "Nimzo-Indian_Defense",
            Openings::VantKruijsOpening => "Vant_Kruijs_Opening",
            Openings::SemiSlav => "Semi-Slav_Defense",
            Openings::CenterGame => "Center_Game",
            Openings::HungarianOpening => "Hungarian_Opening",
            Openings::ThreeKnightsOpening => "Three_Knights_Opening",
            Openings::PonzianiOpening => "Ponziani_Opening",
            Openings::EnglundGambit => "Englund_Gambit",
            Openings::GrunfeldDefense => "Grunfeld_Defense",
            Openings::BlackmarDiemerGambit => "Blackmar-Diemer_Gambit",
            Openings::ElephantGambit => "Elephant_Gambit",
            Openings::PolishOpening => "Polish_Opening",
            Openings::DanishGambit => "Danish_Gambit",
            Openings::KingsIndianAttack => "Kings_Indian_Attack",
            Openings::TrompowskyAttack => "Trompowsky_Attack",
            Openings::EnglishDefense => "English_Defense",
            Openings::GrobOpening => "Grob_Opening",
            Openings::RapportJobavaSystem => "Rapport-Jobava_System",
            Openings::TarraschDefense => "Tarrasch_Defense",
            Openings::CatalanOpening => "Catalan_Opening",
            Openings::Reti => "Reti_Opening",
            Openings::QueensIndianDefense => "Queens_Indian_Defense",
            Openings::LondonSystem => "London_System",
        }
    }

    /// The translation key of the opening: `any_opening` for `Any`, else its tag.
    pub open spec fn spec_tr_key_of(self) -> Seq<char> {
        match self {
            Openings::Any => "any_opening"@,
            _ => self.spec_field_name(),
        }
    }

    /// The translation key of the opening: `any_opening` for `Any`, else its tag.
    pub fn get_tr_key(&self) -> (r: &'static str)
        ensures
            r@ == self.spec_tr_key_of(),
    {
        match self {
            Openings::Any => "any_opening",
            _ => self.get_field_name(),
        }
    }

    /// Every opening, in the order the opening picker lists them.
    pub fn all() -> (r: Vec<Openings>)
        ensures
            r@ == all_openings(),
    {
        let r = vec![
            Openings::Any,
            Openings::Sicilian,
            Openings::French,
            Openings::QueensPawnGame,
            Openings::ItalianGame,
            Openings::CaroKann,
            Openings::Scandinavian,
            Openings::QueensGambitDeclined,
            Openings::English,
            Openings::RuyLopez,
            Openings::IndianDefense,
            Openings::ScotchGame,
            Openings::RussianGame,
            Openings::PhilidorDefense,
            Openings::ModernDefense,
            Openings::FourKnightsGame,
            Openings::KingsGambitAccepted,
            Openings::ZukertortOpening,
            Openings::BishopsOpening,
            Openings::SlavDefense,
            Openings::PircDefense,
            Openings::KingsPawnGame,
            Openings::ViennaGame,
            Openings::QueensGambitAccepted,
            Openings::KingsIndianDefense,
            Openings::Benoni,
            Openings::NimzowitschDefense,
            Openings::AlekhineDefense,
            Openings::NimzoLarsenAttack,
            Openings::HorwitzDefense,
            Openings::KingsGambitDeclined,
            Openings::OwenDefense,
            Openings::Bird,
            Openings::Dutch,
            Openings::NimzoIndianDefense,
            Openings::VantKruijsOpening,
            Openings::SemiSlav,
            Openings::CenterGame,
            Openings::HungarianOpening,
            Openings::ThreeKnightsOpening,
            Openings::PonzianiOpening,
            Openings::EnglundGambit,
            Openings::GrunfeldDefense,
            Openings::BlackmarDiemerGambit,
            Openings::ElephantGambit,
            Openings::PolishOpening,
            Openings::DanishGambit,
            Openings::KingsIndianAttack,
            Openings::TrompowskyAttack,
            Openings::EnglishDefense,
            Openings::GrobOpening,
            Openings::RapportJobavaSystem,
            Openings::TarraschDefense,
            Openings::CatalanOpening,
            Openings::Reti,
            Openings::QueensIndianDefense,
            Openings::LondonSystem,
        ];
        proof {
            assert(r@ =~= all_openings());
        }
        r
    }
}

impl DisplayTranslated for Openings {
    open spec fn spec_tr_key(&self) -> Seq<char> {
        self.spec_tr_key_of()
    }

    fn to_str_tr(&self) -> (r: &str) {
        self.get_tr_key()
    }
}

/// Every opening appears in the opening picker.
pub proof fn lemma_all_openings_listed(o: Openings)
    ensures
        all_openings().contains(o),
{
    match o {
        Openings::Any => assert(all_openings()[0] == o),
        Openings::Sicilian => assert(all_openings()[1] == o),
        Openings::French => assert(all_openings()[2] == o),
        Openings::QueensPawnGame => assert(all_openings()[3] == o),
        Openings::ItalianGame => assert(all_openings()[4] == o),
        Openings::CaroKann => assert(all_openings()[5] == o),
        Openings::Scandinavian => assert(all_openings()[6] == o),
        Openings::QueensGambitDeclined => assert(all_openings()[7] == o),
        Openings::English => assert(all_openings()[8] == o),
        Openings::RuyLopez => assert(all_openings()[9] == o),
        Openings::IndianDefense => assert(all_openings()[10] == o),
        Openings::ScotchGame => assert(all_openings()[11] == o),
        Openings::RussianGame => assert(all_openings()[12] == o),
        Openings::PhilidorDefense => assert(all_openings()[13] == o),
        Openings::ModernDefense => assert(all_openings()[14] == o),
        Openings::FourKnightsGame => assert(all_openings()[15] == o),
        Openings::KingsGambitAccepted => assert(all_openings()[16] == o),
        Openings::ZukertortOpening => assert(all_openings()[17] == o),
        Openings::BishopsOpening => assert(all_openings()[18] == o),
        Openings::SlavDefense => assert(all_openings()[19] == o),
        Openings::PircDefense => assert(all_openings()[20] == o),
        Openings::KingsPawnGame => assert(all_openings()[21] == o),
        Openings::ViennaGame => assert(all_openings()[22] == o),
        Openings::QueensGambitAccepted => assert(all_openings()[23] == o),
        Openings::KingsIndianDefense => assert(all_openings()[24] == o),
        Openings::Benoni => assert(all_openings()[25] == o),
        Openings::NimzowitschDefense => assert(all_openings()[26] == o),
        Openings::AlekhineDefense => assert(all_openings()[27] == o),
        Openings::NimzoLarsenAttack => assert(all_openings()[28] == o),
        Openings::HorwitzDefense => assert(all_openings()[29] == o),
        Openings::KingsGambitDeclined => assert(all_openings()[30] == o),
        Openings::OwenDefense => assert(all_openings()[31] == o),
        Openings::Bird => assert(all_openings()[32] == o),
        Openings::Dutch => assert(all_openings()[33] == o),
        Openings::NimzoIndianDefense => assert(all_openings()[34] == o),
        Openings::VantKruijsOpening => assert(all_openings()[35] == o),
        Openings::SemiSlav => assert(all_openings()[36] == o),
        Openings::CenterGame => assert(all_openings()[37] == o),
        Openings::HungarianOpening => assert(all_openings()[38] == o),
        Openings::ThreeKnightsOpening => assert(all_openings()[39] == o),
        Openings::PonzianiOpening => assert(all_openings()[40] == o),
        Openings::EnglundGambit => assert(all_openings()[41] == o),
        Openings::GrunfeldDefense => assert(all_openings()[42] == o),
        Openings::BlackmarDiemerGambit => assert(all_openings()[43] == o),
        Openings::ElephantGambit => assert(all_openings()[44] == o),
        Openings::PolishOpening => assert(all_openings()[45] == o),
        Openings::DanishGambit => assert(all_openings()[46] == o),
        Openings::KingsIndianAttack => assert(all_openings()[47] == o),
        Openings::TrompowskyAttack => assert(all_openings()[48] == o),
        Openings::EnglishDefense => assert(all_openings()[49] == o),
        Openings::GrobOpening => assert(all_openings()[50] == o),
        Openings::RapportJobavaSystem => assert(all_openings()[51] == o),
        Openings::TarraschDefense => assert(all_openings()[52] == o),
        Openings::CatalanOpening => assert(all_openings()[53] == o),
        Openings::Reti => assert(all_openings()[54] == o),
        Openings::QueensIndianDefense => assert(all_openings()[55] == o),
        Openings::LondonSystem => assert(all_openings()[56] == o),
    }
}

/// Only `Any` has an empty tag.
pub proof fn lemma_field_name_empty_only_for_any(o: Openings)
    ensures
        (o.spec_field_name().len() == 0) <==> (o == Openings::Any),
{
    reveal_strlit("");
    reveal_strlit("Sicilian_Defense");
    reveal_strlit("French_Defense");
    reveal_strlit("Queens_Pawn_Game");
    reveal_strlit("Italian_Game");
    reveal_strlit("Caro-Kann_Defense");
    reveal_strlit("Scandinavian_Defense");
    reveal_strlit("Queens_Gambit_Declined");
    reveal_strlit("English_Opening");
    reveal_strlit("Ruy_Lopez");
    reveal_strlit("Indian_Defense");
    reveal_strlit("Scotch_Game");
    reveal_strlit("Russian_Game");
    reveal_strlit("Philidor_Defense");
    reveal_strlit("Modern_Defense");
    reveal_strlit("Four_Knights_Game");
    reveal_strlit("Kings_Gambit_Accepted");
    reveal_strlit("Zukertort_Opening");
    reveal_strlit("Bishops_Opening");
    reveal_strlit("Slav_Defense");
    reveal_strlit("Pirc_Defense");
    reveal_strlit("Kings_Pawn_Game");
    reveal_strlit("Vienna_Game");
    reveal_strlit("Queens_Gambit_Accepted");
    reveal_strlit("Kings_Indian_Defense");
    reveal_strlit("Benoni_Defense");
    reveal_strlit("Nimzowitsch_Defense");
    reveal_strlit("Alekhine_Defense");
    reveal_strlit("Nimzo-Larsen_Attack");
    reveal_strlit("Horwitz_Defense");
    reveal_strlit("Kings_Gambit_Declined");
    reveal_strlit("Owen_Defense");
    reveal_strlit("Bird_Opening");
    reveal_strlit("Dutch_Defense");
    reveal_strlit("Nimzo-Indian_Defense");
    reveal_strlit("Vant_Kruijs_Opening");
    reveal_strlit("Semi-Slav_Defense");
    reveal_strlit("Center_Game");
    reveal_strlit("Hungarian_Opening");
    reveal_strlit("Three_Knights_Opening");
    reveal_strlit("Ponziani_Opening");
    reveal_strlit("Englund_Gambit");
    reveal_strlit("Grunfeld_Defense");
    reveal_strlit("Blackmar-Diemer_Gambit");
    reveal_strlit("Elephant_Gambit");
    reveal_strlit("Polish_Opening");
    reveal_strlit("Danish_Gambit");
    reveal_strlit("Kings_Indian_Attack");
    reveal_strlit("Trompowsky_Attack");
    reveal_strlit("English_Defense");
    reveal_strlit("Grob_Opening");
    reveal_strlit("Rapport-Jobava_System");
    reveal_strlit("Tarrasch_Defense");
    reveal_strlit("Catalan_Opening");
    reveal_strlit("Reti_Opening");
    reveal_strlit("Queens_Indian_Defense");
    reveal_strlit("London_System");
}

/// The opening whose tag is `s` (`Any` when no opening has that tag).
pub open spec fn opening_of_tag(s: Seq<char>) -> Openings {
    if s == "Sicilian_Defense"@ {
        Openings::Sicilian
    } else if s == "French_Defense"@ {
        Openings::French
    } else if s == "Queens_Pawn_Game"@ {
        Openings::QueensPawnGame
    } else if s == "Italian_Game"@ {
        Openings::ItalianGame
    } else if s == "Caro-Kann_Defense"@ {
        Openings::CaroKann
    } else if s == "Scandinavian_Defense"@ {
        Openings::Scandinavian
    } else if s == "Queens_Gambit_Declined"@ {
        Openings::QueensGambitDeclined
    } else if s == "English_Opening"@ {
        Openings::English
    } else if s == "Ruy_Lopez"@ {
        Openings::RuyLopez
    } else if s == "Indian_Defense"@ {
        Openings::IndianDefense
    } else if s == "Scotch_Game"@ {
        Openings::ScotchGame
    } else if s == "Russian_Game"@ {
        Openings::RussianGame
    } else if s == "Philidor_Defense"@ {
        Openings::PhilidorDefense
    } else if s == "Modern_Defense"@ {
        Openings::ModernDefense
    } else if s == "Four_Knights_Game"@ {
        Openings::FourKnightsGame
    } else if s == "Kings_Gambit_Accepted"@ {
        Openings::KingsGambitAccepted
    } else if s == "Zukertort_Opening"@ {
        Openings::ZukertortOpening
    } else if s == "Bishops_Opening"@ {
        Openings::BishopsOpening
    } else if s == "Slav_Defense"@ {
        Openings::SlavDefense
    } else if s == "Pirc_Defense"@ {
        Openings::PircDefense
    } else if s == "Kings_Pawn_Game"@ {
        Openings::KingsPawnGame
    } else if s == "Vienna_Game"@ {
        Openings::ViennaGame
    } else if s == "Queens_Gambit_Accepted"@ {
        Openings::QueensGambitAccepted
    } else if s == "Kings_Indian_Defense"@ {
        Openings::KingsIndianDefense
    } else if s == "Benoni_Defense"@ {
        Openings::Benoni
    } else if s == "Nimzowitsch_Defense"@ {
        Openings::NimzowitschDefense
    } else if s == "Alekhine_Defense"@ {
        Openings::AlekhineDefense
    } else if s == "Nimzo-Larsen_Attack"@ {
        Openings::NimzoLarsenAttack
    } else if s == "Horwitz_Defense"@ {
        Openings::HorwitzDefense
    } else if s == "Kings_Gambit_Declined"@ {
        Openings::KingsGambitDeclined
    } else if s == "Owen_Defense"@ {
        Openings::OwenDefense
    } else if s == "Bird_Opening"@ {
        Openings::Bird
    } else if s == "Dutch_Defense"@ {
        Openings::Dutch
    } else if s == "Nimzo-Indian_Defense"@ {
        Openings::NimzoIndianDefense
    } else if s == "Vant_Kruijs_Opening"@ {
        Openings::VantKruijsOpening
    } else if s == "Semi-Slav_Defense"@ {
        Openings::SemiSlav
    } else if s == "Center_Game"@ {
        Openings::CenterGame
    } else if s == "Hungarian_Opening"@ {
        Openings::HungarianOpening
    } else if s == "Three_Knights_Opening"@ {
        Openings::ThreeKnightsOpening
    } else if s == "Ponziani_Opening"@ {
        Openings::PonzianiOpening
    } else if s == "Englund_Gambit"@ {
        Openings::EnglundGambit
    } else if s == "Grunfeld_Defense"@ {
        Openings::GrunfeldDefense
    } else if s == "Blackmar-Diemer_Gambit"@ {
        Openings::BlackmarDiemerGambit
    } else if s == "Elephant_Gambit"@ {
        Openings::ElephantGambit
    } else if s == "Polish_Opening"@ {
        Openings::PolishOpening
    } else if s == "Danish_Gambit"@ {
        Openings::DanishGambit
    } else if s == "Kings_Indian_Attack"@ {
        Openings::KingsIndianAttack
    } else if s == "Trompowsky_Attack"@ {
        Openings::TrompowskyAttack
    } else if s == "English_Defense"@ {
        Openings::EnglishDefense
    } else if s == "Grob_Opening"@ {
        Openings::GrobOpening
    } else if s == "Rapport-Jobava_System"@ {
        Openings::RapportJobavaSystem
    } else if s == "Tarrasch_Defense"@ {
        Openings::TarraschDefense
    } else if s == "Catalan_Opening"@ {
        Openings::CatalanOpening
    } else if s == "Reti_Opening"@ {
        Openings::Reti
    } else if s == "Queens_Indian_Defense"@ {
        Openings::QueensIndianDefense
    } else if s == "London_System"@ {
        Openings::LondonSystem
    } else {
        Openings::Any
    }
}

/// An opening's tag names that opening.
pub proof fn lemma_tag_names_opening(o: Openings)
    ensures
        opening_of_tag(o.spec_field_name()) == o,
{
    reveal_strlit("");
    reveal_strlit("Sicilian_Defense");
    reveal_strlit("French_Defense");
    reveal_strlit("Queens_Pawn_Game");
    reveal_strlit("Italian_Game");
    reveal_strlit("Caro-Kann_Defense");
    reveal_strlit("Scandinavian_Defense");
    reveal_strlit("Queens_Gambit_Declined");
    reveal_strlit("English_Opening");
    reveal_strlit("Ruy_Lopez");
    reveal_strlit("Indian_Defense");
    reveal_strlit("Scotch_Game");
    reveal_strlit("Russian_Game");
    reveal_strlit("Philidor_Defense");
    reveal_strlit("Modern_Defense");
    reveal_strlit("Four_Knights_Game");
    reveal_strlit("Kings_Gambit_Accepted");
    reveal_strlit("Zukertort_Opening");
    reveal_strlit("Bishops_Opening");
    reveal_strlit("Slav_Defense");
    reveal_strlit("Pirc_Defense");
    reveal_strlit("Kings_Pawn_Game");
    reveal_strlit("Vienna_Game");
    reveal_strlit("Queens_Gambit_Accepted");
    reveal_strlit("Kings_Indian_Defense");
    reveal_strlit("Benoni_Defense");
    reveal_strlit("Nimzowitsch_Defense");
    reveal_strlit("Alekhine_Defense");
    reveal_strlit("Nimzo-Larsen_Attack");
    reveal_strlit("Horwitz_Defense");
    reveal_strlit("Kings_Gambit_Declined");
    reveal_strlit("Owen_Defense");
    reveal_strlit("Bird_Opening");
    reveal_strlit("Dutch_Defense");
    reveal_strlit("Nimzo-Indian_Defense");
    reveal_strlit("Vant_Kruijs_Opening");
    reveal_strlit("Semi-Slav_Defense");
    reveal_strlit("Center_Game");
    reveal_strlit("Hungarian_Opening");
    reveal_strlit("Three_Knights_Opening");
    reveal_strlit("Ponziani_Opening");
    reveal_strlit("Englund_Gambit");
    reveal_strlit("Grunfeld_Defense");
    reveal_strlit("Blackmar-Diemer_Gambit");
    reveal_strlit("Elephant_Gambit");
    reveal_strlit("Polish_Opening");
    reveal_strlit("Danish_Gambit");
    reveal_strlit("Kings_Indian_Attack");
    reveal_strlit("Trompowsky_Attack");
    reveal_strlit("English_Defense");
    reveal_strlit("Grob_Opening");
    reveal_strlit("Rapport-Jobava_System");
    reveal_strlit("Tarrasch_Defense");
    reveal_strlit("Catalan_Opening");
    reveal_strlit("Reti_Opening");
    reveal_strlit("Queens_Indian_Defense");
    reveal_strlit("London_System");
    assert("Sicilian_Defense"@.len() == 16 && "Sicilian_Defense"@[0] == 'S' && "Sicilian_Defense"@[13] == 'n');
    assert("French_Defense"@.len() == 14 && "French_Defense"@[0] == 'F' && "French_Defense"@[11] == 'n');
    assert("Queens_Pawn_Game"@.len() == 16 && "Queens_Pawn_Game"@[0] == 'Q' && "Queens_Pawn_Game"@[13] == 'a');
    assert("Italian_Game"@.len() == 12 && "Italian_Game"@[0] == 'I' && "Italian_Game"@[9] == 'a');
    assert("Caro-Kann_Defense"@.len() == 17 && "Caro-Kann_Defense"@[0] == 'C' && "Caro-Kann_Defense"@[14] == 'n');
    assert("Scandinavian_Defense"@.len() == 20 && "Scandinavian_Defense"@[0] == 'S' && "Scandinavian_Defense"@[17] == 'n');
    assert("Queens_Gambit_Declined"@.len() == 22 && "Queens_Gambit_Declined"@[0] == 'Q' && "Queens_Gambit_Declined"@[19] == 'n');
    assert("English_Opening"@.len() == 15 && "English_Opening"@[0] == 'E' && "English_Opening"@[12] == 'i');
    assert("Ruy_Lopez"@.len() == 9 && "Ruy_Lopez"@[0] == 'R' && "Ruy_Lopez"@[6] == 'p');
    assert("Indian_Defense"@.len() == 14 && "Indian_Defense"@[0] == 'I' && "Indian_Defense"@[11] == 'n');
    assert("Scotch_Game"@.len() == 11 && "Scotch_Game"@[0] == 'S' && "Scotch_Game"@[8] == 'a');
    assert("Russian_Game"@.len() == 12 && "Russian_Game"@[0] == 'R' && "Russian_Game"@[9] == 'a');
    assert("Philidor_Defense"@.len() == 16 && "Philidor_Defense"@[0] == 'P' && "Philidor_Defense"@[13] == 'n');
    assert("Modern_Defense"@.len() == 14 && "Modern_Defense"@[0] == 'M' && "Modern_Defense"@[11] == 'n');
    assert("Four_Knights_Game"@.len() == 17 && "Four_Knights_Game"@[0] == 'F' && "Four_Knights_Game"@[14] == 'a');
    assert("Kings_Gambit_Accepted"@.len() == 21 && "Kings_Gambit_Accepted"@[0] == 'K' && "Kings_Gambit_Accepted"@[18] == 't');
    assert("Zukertort_Opening"@.len() == 17 && "Zukertort_Opening"@[0] == 'Z' && "Zukertort_Opening"@[14] == 'i');
    assert("Bishops_Opening"@.len() == 15 && "Bishops_Opening"@[0] == 'B' && "Bishops_Opening"@[12] == 'i');
    assert("Slav_Defense"@.len() == 12 && "Slav_Defense"@[0] == 'S' && "Slav_Defense"@[9] == 'n');
    assert("Pirc_Defense"@.len() == 12 && "Pirc_Defense"@[0] == 'P' && "Pirc_Defense"@[9] == 'n');
    assert("Kings_Pawn_Game"@.len() == 15 && "Kings_Pawn_Game"@[0] == 'K' && "Kings_Pawn_Game"@[12] == 'a');
    assert("Vienna_Game"@.len() == 11 && "Vienna_Game"@[0] == 'V' && "Vienna_Game"@[8] == 'a');
    assert("Queens_Gambit_Accepted"@.len() == 22 && "Queens_Gambit_Accepted"@[0] == 'Q' && "Queens_Gambit_Accepted"@[19] == 't');
    assert("Kings_Indian_Defense"@.len() == 20 && "Kings_Indian_Defense"@[0] == 'K' && "Kings_Indian_Defense"@[17] == 'n');
    assert("Benoni_Defense"@.len() == 14 && "Benoni_Defense"@[0] == 'B' && "Benoni_Defense"@[11] == 'n');
    assert("Nimzowitsch_Defense"@.len() == 19 && "Nimzowitsch_Defense"@[0] == 'N' && "Nimzowitsch_Defense"@[16] == 'n');
    assert("Alekhine_Defense"@.len() == 16 && "Alekhine_Defense"@[0] == 'A' && "Alekhine_Defense"@[13] == 'n');
    assert("Nimzo-Larsen_Attack"@.len() == 19 && "Nimzo-Larsen_Attack"@[0] == 'N' && "Nimzo-Larsen_Attack"@[16] == 'a');
    assert("Horwitz_Defense"@.len() == 15 && "Horwitz_Defense"@[0] == 'H' && "Horwitz_Defense"@[12] == 'n');
    assert("Kings_Gambit_Declined"@.len() == 21 && "Kings_Gambit_Declined"@[0] == 'K' && "Kings_Gambit_Declined"@[18] == 'n');
    assert("Owen_Defense"@.len() == 12 && "Owen_Defense"@[0] == 'O' && "Owen_Defense"@[9] == 'n');
    assert("Bird_Opening"@.len() == 12 && "Bird_Opening"@[0] == 'B' && "Bird_Opening"@[9] == 'i');
    assert("Dutch_Defense"@.len() == 13 && "Dutch_Defense"@[0] == 'D' && "Dutch_Defense"@[10] == 'n');
    assert("Nimzo-Indian_Defense"@.len() == 20 && "Nimzo-Indian_Defense"@[0] == 'N' && "Nimzo-Indian_Defense"@[17] == 'n');
    assert("Vant_Kruijs_Opening"@.len() == 19 && "Vant_Kruijs_Opening"@[0] == 'V' && "Vant_Kruijs_Opening"@[16] == 'i');
    assert("Semi-Slav_Defense"@.len() == 17 && "Semi-Slav_Defense"@[0] == 'S' && "Semi-Slav_Defense"@[14] == 'n');
    assert("Center_Game"@.len() == 11 && "Center_Game"@[0] == 'C' && "Center_Game"@[8] == 'a');
    assert("Hungarian_Opening"@.len() == 17 && "Hungarian_Opening"@[0] == 'H' && "Hungarian_Opening"@[14] == 'i');
    assert("Three_Knights_Opening"@.len() == 21 && "Three_Knights_Opening"@[0] == 'T' && "Three_Knights_Opening"@[18] == 'i');
    assert("Ponziani_Opening"@.len() == 16 && "Ponziani_Opening"@[0] == 'P' && "Ponziani_Opening"@[13] == 'i');
    assert("Englund_Gambit"@.len() == 14 && "Englund_Gambit"@[0] == 'E' && "Englund_Gambit"@[11] == 'b');
    assert("Grunfeld_Defense"@.len() == 16 && "Grunfeld_Defense"@[0] == 'G' && "Grunfeld_Defense"@[13] == 'n');
    assert("Blackmar-Diemer_Gambit"@.len() == 22 && "Blackmar-Diemer_Gambit"@[0] == 'B' && "Blackmar-Diemer_Gambit"@[19] == 'b');
    assert("Elephant_Gambit"@.len() == 15 && "Elephant_Gambit"@[0] == 'E' && "Elephant_Gambit"@[12] == 'b');
    assert("Polish_Opening"@.len() == 14 && "Polish_Opening"@[0] == 'P' && "Polish_Opening"@[11] == 'i');
    assert("Danish_Gambit"@.len() == 13 && "Danish_Gambit"@[0] == 'D' && "Danish_Gambit"@[10] == 'b');
    assert("Kings_Indian_Attack"@.len() == 19 && "Kings_Indian_Attack"@[0] == 'K' && "Kings_Indian_Attack"@[16] == 'a');
    assert("Trompowsky_Attack"@.len() == 17 && "Trompowsky_Attack"@[0] == 'T' && "Trompowsky_Attack"@[14] == 'a');
    assert("English_Defense"@.len() == 15 && "English_Defense"@[0] == 'E' && "English_Defense"@[12] == 'n');
    assert("Grob_Opening"@.len() == 12 && "Grob_Opening"@[0] == 'G' && "Grob_Opening"@[9] == 'i');
    assert("Rapport-Jobava_System"@.len() == 21 && "Rapport-Jobava_System"@[0] == 'R' && "Rapport-Jobava_System"@[18] == 't');
    assert("Tarrasch_Defense"@.len() == 16 && "Tarrasch_Defense"@[0] == 'T' && "Tarrasch_Defense"@[13] == 'n');
    assert("Catalan_Opening"@.len() == 15 && "Catalan_Opening"@[0] == 'C' && "Catalan_Opening"@[12] == 'i');
    assert("Reti_Opening"@.len() == 12 && "Reti_Opening"@[0] == 'R' && "Reti_Opening"@[9] == 'i');
    assert("Queens_Indian_Defense"@.len() == 21 && "Queens_Indian_Defense"@[0] == 'Q' && "Queens_Indian_Defense"@[18] == 'n');
    assert("London_System"@.len() == 13 && "London_System"@[0] == 'L' && "London_System"@[10] == 't');
    match o {
        Openings::Any => assert(""@.len() == 0),
        Openings::Sicilian => {},
        Openings::French => {},
        Openings::QueensPawnGame => {},
        Openings::ItalianGame => {},
        Openings::CaroKann => {},
        Openings::Scandinavian => {},
        Openings::QueensGambitDeclined => {},
        Openings::English => {},
        Openings::RuyLopez => {},
        Openings::IndianDefense => {},
        Openings::ScotchGame => {},
        Openings::RussianGame => {},
        Openings::PhilidorDefense => {},
        Openings::ModernDefense => {},
        Openings::FourKnightsGame => {},
        Openings::KingsGambitAccepted => {},
        Openings::ZukertortOpening => {},
        Openings::BishopsOpening => {},
        Openings::SlavDefense => {},
        Openings::PircDefense => {},
        Openings::KingsPawnGame => {},
        Openings::ViennaGame => {},
        Openings::QueensGambitAccepted => {},
        Openings::KingsIndianDefense => {},
        Openings::Benoni => {},
        Openings::NimzowitschDefense => {},
        Openings::AlekhineDefense => {},
        Openings::NimzoLarsenAttack => {},
        Openings::HorwitzDefense => {},
        Openings::KingsGambitDeclined => {},
        Openings::OwenDefense => {},
        Openings::Bird => {},
        Openings::Dutch => {},
        Openings::NimzoIndianDefense => {},
        Openings::VantKruijsOpening => {},
        Openings::SemiSlav => {},
        Openings::CenterGame => {},
        Openings::HungarianOpening => {},
        Openings::ThreeKnightsOpening => {},
        Openings::PonzianiOpening => {},
        Openings::EnglundGambit => {},
        Openings::GrunfeldDefense => {},
        Openings::BlackmarDiemerGambit => {},
        Openings::ElephantGambit => {},
        Openings::PolishOpening => {},
        Openings::DanishGambit => {},
        Openings::KingsIndianAttack => {},
        Openings::TrompowskyAttack => {},
        Openings::EnglishDefense => {},
        Openings::GrobOpening => {},
        Openings::RapportJobavaSystem => {},
        Openings::TarraschDefense => {},
        Openings::CatalanOpening => {},
        Openings::Reti => {},
        Openings::QueensIndianDefense => {},
        Openings::LondonSystem => {},
    }
}

/// Distinct openings have distinct tags.
pub proof fn lemma_field_names_distinct(a: Openings, b: Openings)
    requires
        a != b,
    ensures
        a.spec_field_name() != b.spec_field_name(),
{
    lemma_tag_names_opening(a);
    lemma_tag_names_opening(b);
}

/// No opening tag holds a space.
pub proof fn lemma_field_names_have_no_space(o: Openings)
    ensures
        forall|i: int| 0 <= i < o.spec_field_name().len() ==> o.spec_field_name()[i] != ' ',
{
    reveal_strlit("");
    reveal_strlit("Sicilian_Defense");
    reveal_strlit("French_Defense");
    reveal_strlit("Queens_Pawn_Game");
    reveal_strlit("Italian_Game");
    reveal_strlit("Caro-Kann_Defense");
    reveal_strlit("Scandinavian_Defense");
    reveal_strlit("Queens_Gambit_Declined");
    reveal_strlit("English_Opening");
    reveal_strlit("Ruy_Lopez");
    reveal_strlit("Indian_Defense");
    reveal_strlit("Scotch_Game");
    reveal_strlit("Russian_Game");
    reveal_strlit("Philidor_Defense");
    reveal_strlit("Modern_Defense");
    reveal_strlit("Four_Knights_Game");
    reveal_strlit("Kings_Gambit_Accepted");
    reveal_strlit("Zukertort_Opening");
    reveal_strlit("Bishops_Opening");
    reveal_strlit("Slav_Defense");
    reveal_strlit("Pirc_Defense");
    reveal_strlit("Kings_Pawn_Game");
    reveal_strlit("Vienna_Game");
    reveal_strlit("Queens_Gambit_Accepted");
    reveal_strlit("Kings_Indian_Defense");
    reveal_strlit("Benoni_Defense");
    reveal_strlit("Nimzowitsch_Defense");
    reveal_strlit("Alekhine_Defense");
    reveal_strlit("Nimzo-Larsen_Attack");
    reveal_strlit("Horwitz_Defense");
    reveal_strlit("Kings_Gambit_Declined");
    reveal_strlit("Owen_Defense");
    reveal_strlit("Bird_Opening");
    reveal_strlit("Dutch_Defense");
    reveal_strlit("Nimzo-Indian_Defense");
    reveal_strlit("Vant_Kruijs_Opening");
    reveal_strlit("Semi-Slav_Defense");
    reveal_strlit("Center_Game");
    reveal_strlit("Hungarian_Opening");
    reveal_strlit("Three_Knights_Opening");
    reveal_strlit("Ponziani_Opening");
    reveal_strlit("Englund_Gambit");
    reveal_strlit("Grunfeld_Defense");
    reveal_strlit("Blackmar-Diemer_Gambit");
    reveal_strlit("Elephant_Gambit");
    reveal_strlit("Polish_Opening");
    reveal_strlit("Danish_Gambit");
    reveal_strlit("Kings_Indian_Attack");
    reveal_strlit("Trompowsky_Attack");
    reveal_strlit("English_Defense");
    reveal_strlit("Grob_Opening");
    reveal_strlit("Rapport-Jobava_System");
    reveal_strlit("Tarrasch_Defense");
    reveal_strlit("Catalan_Opening");
    reveal_strlit("Reti_Opening");
    reveal_strlit("Queens_Indian_Defense");
    reveal_strlit("London_System");
}

impl PickListWrapper<Openings> {
    /// Every opening, each shown in the language `lang`.
    pub fn get_openings(lang: Language) -> (r: Vec<PickListWrapper<Openings>>)
        ensures
            r.len() == all_openings().len(),
            forall|i: int|
                0 <= i < r.len() ==> #[trigger] r[i].lang == lang && r[i].item == all_openings()[i],
    {
        let all = Openings::all();
        let mut r: Vec<PickListWrapper<Openings>> = Vec::new();
        let mut i: usize = 0;
        while i < all.len()
            invariant
                i <= all.len(),
                all@ == all_openings(),
                r.len() == i,
                forall|j: int| 0 <= j < i ==> #[trigger] r[j].lang == lang && r[j].item == all@[j],
            decreases all.len() - i,
        {
            r.push(PickListWrapper { lang, item: all[i] });
            i = i + 1;
        }
        r
    }

    /// The opening `opening` shown in the language `lang`.
    pub fn new_opening(lang: Language, opening: Openings) -> (r: Self)
        ensures
            r.lang == lang,
            r.item == opening,
    {
        Self { lang, item: opening }
    }
}

/// A variation of an opening, by its tag in the puzzle database.
#[derive(Debug)]
pub struct Variation {
    pub name: String,
    pub family: Openings,
}

impl Clone for Variation {
    fn clone(&self) -> (r: Self)
        ensures
            r == *self,
    {
        Variation { name: self.name.clone(), family: self.family }
    }
}

impl PartialEq for Variation {
    /// Two variations are the same when they have the same name, of the same opening.
    fn eq(&self, other: &Self) -> (r: bool) {
        self.name == other.name && self.family == other.family
    }
}

impl vstd::std_specs::cmp::PartialEqSpecImpl for Variation {
    open spec fn obeys_eq_spec() -> bool {
        true
    }

    open spec fn eq_spec(&self, other: &Self) -> bool {
        self.name@ == other.name@ && self.family == other.family
    }
}

/// The name of the variation that stands for any variation.
pub open spec fn any_variation_name() -> Seq<char> {
    "Any_Variation"@
}

impl Variation {
    /// The name of the variation that stands for any variation.
    pub fn any_str() -> (r: &'static str)
        ensures
            r@ == any_variation_name(),
    {
        "Any_Variation"
    }

    /// The variation that stands for any variation of any opening.
    pub fn any() -> (r: Variation)
        ensures
            r.name@ == any_variation_name(),
            r.family == Openings::Any,
    {
        Variation { name: String::from_str("Any_Variation"), family: Openings::Any }
    }
}

impl DisplayTranslated for Variation {
    open spec fn spec_tr_key(&self) -> Seq<char> {
        self.name@
    }

    fn to_str_tr(&self) -> (r: &str) {
        self.name.as_str()
    }
}

/// Whether the variation picker lists the variations of `o` (else it only offers `Any`).
pub open spec fn has_variation_table(o: Openings) -> bool {
    match o {
        Openings::Sicilian => true,
        Openings::French => true,
        Openings::QueensPawnGame => true,
        Openings::ItalianGame => true,
        Openings::CaroKann => true,
        Openings::Scandinavian => true,
        Openings::QueensGambitDeclined => true,
        Openings::English => true,
        Openings::RuyLopez => true,
        Openings::IndianDefense => true,
        Openings::ScotchGame => true,
        Openings::RussianGame => true,
        Openings::KingsGambitAccepted => true,
        Openings::SlavDefense => true,
        Openings::ViennaGame => true,
        Openings::QueensGambitAccepted => true,
        Openings::KingsIndianDefense => true,
        Openings::Benoni => true,
        Openings::KingsGambitDeclined => true,
        Openings::GrunfeldDefense => true,
        _ => false,
    }
}

/// The variations listed for `o`, `Any_Variation` first.
pub open spec fn variation_names(o: Openings) -> Seq<Seq<char>> {
    match o {
        Openings::Sicilian => seq![
            "Any_Variation"@,
            "Sicilian_Defense_Bowdler_Attack"@,
            "Sicilian_Defense_Old_Sicilian"@,
            "Sicilian_Defense_Closed"@,
            "Sicilian_Defense_Najdorf_Variation"@,
            "Sicilian_Defense_Alapin_Variation"@,
            "Sicilian_Defense_Modern_Variations"@,
            "Sicilian_Defense_Smith-Morra_Gambit"@,
            "Sicilian_Defense_McDonnell_Attack"@,
            "Sicilian_Defense_Open"@,
            "Sicilian_Defense_Taimanov_Variation"@,
            "Sicilian_Defense_French_Variation"@,
            "Sicilian_Defense_Nyezhmetdinov-Rossolimo_Attack"@,
            "Sicilian_Defense_Accelerated_Dragon"@,
            "Sicilian_Defense_Dragon_Variation"@,
            "Sicilian_Defense_Kan_Variation"@,
            "Sicilian_Defense_Lowenthal_Variation"@,
            "Sicilian_Defense_Lasker-Pelikan_Variation"@,
            "Sicilian_Defense_Four_Knights_Variation"@,
            "Sicilian_Defense_OKelly_Variation"@,
            "Sicilian_Defense_Smith-Morra_Gambit_Accepted"@,
            "Sicilian_Defense_Grand_Prix_Attack"@,
            "Sicilian_Defense_Hyperaccelerated_Fianchetto"@,
            "Sicilian_Defense_Hyperaccelerated_Dragon"@,
            "Sicilian_Defense_Delayed_Alapin_Variation"@,
            "Sicilian_Defense_Wing_Gambit"@,
            "Sicilian_Defense_Classical_Variation"@,
            "Sicilian_Defense_Staunton-Cochrane_Variation"@,
            "Sicilian_Defense_Marshall_Gambit"@,
            "Sicilian_Defense_Scheveningen_Variation"@,
            "Sicilian_Defense_Smith-Morra_Gambit_Declined"@,
        ],
        Openings::French => seq![
            "Any_Variation"@,
            "French_Defense_Advance_Variation"@,
            "French_Defense_Knight_Variation"@,
            "French_Defense_Exchange_Variation"@,
            "French_Defense_Tarrasch_Variation"@,
            "French_Defense_Normal_Variation"@,
            "French_Defense_Winawer_Variation"@,
            "French_Defense_Rubinstein_Variation"@,
            "French_Defense_Classical_Variation"@,
            "French_Defense_La_Bourdonnais_Variation"@,
            "French_Defense_Queens_Knight"@,
            "French_Defense_Kings_Indian_Attack"@,
            "French_Defense_Steiner_Variation"@,
            "French_Defense_Two_Knights_Variation"@,
        ],
        Openings::QueensPawnGame => seq![
            "Any_Variation"@,
            "Queens_Pawn_Game_Accelerated_London_System"@,
            "Queens_Pawn_Game_Chigorin_Variation"@,
            "Queens_Pawn_Game_Zukertort_Variation"@,
            "Queens_Pawn_Game_London_System"@,
            "Queens_Pawn_Game_Colle_System"@,
            "Queens_Pawn_Game_Symmetrical_Variation"@,
            "Queens_Pawn_Game_Levitsky_Attack"@,
            "Queens_Pawn_Game_Krause_Variation"@,
            "Queens_Pawn_Game_Torre_Attack"@,
        ],
        Openings::ItalianGame => seq![
            "Any_Variation"@,
            "Italian_Game_Two_Knights_Defense"@,
            "Italian_Game_Classical_Variation"@,
            "Italian_Game_Giuoco_Pianissimo"@,
            "Italian_Game_Anti-Fried_Liver_Defense"@,
            "Italian_Game_Giuoco_Piano"@,
            "Italian_Game_Evans_Gambit"@,
            "Italian_Game_Scotch_Gambit"@,
            "Italian_Game_Blackburne-Kostic_Gambit"@,
            "Italian_Game_Hungarian_Defense"@,
        ],
        Openings::CaroKann => seq![
            "Any_Variation"@,
            "Caro-Kann_Defense_Advance_Variation"@,
            "Caro-Kann_Defense_Exchange_Variation"@,
            "Caro-Kann_Defense_Classical_Variation"@,
            "Caro-Kann_Defense_Two_Knights_Attack"@,
            "Caro-Kann_Defense_Panov_Attack"@,
            "Caro-Kann_Defense_Hillbilly_Attack"@,
            "Caro-Kann_Defense_Accelerated_Panov_Attack"@,
            "Caro-Kann_Defense_Maroczy_Variation"@,
            "Caro-Kann_Defense_Tartakower_Variation"@,
            "Caro-Kann_Defense_Karpov_Variation"@,
        ],
        Openings::Scandinavian => seq![
            "Any_Variation"@,
            "Scandinavian_Defense_Mieses-Kotroc_Variation"@,
            "Scandinavian_Defense_Modern_Variation"@,
            "Scandinavian_Defense_Main_Line"@,
            "Scandinavian_Defense_Gubinsky-Melts_Defense"@,
            "Scandinavian_Defense_Icelandic-Palme_Gambit"@,
            "Scandinavian_Defense_Panov_Transfer"@,
        ],
        Openings::QueensGambitDeclined => seq![
            "Any_Variation"@,
            "Queens_Gambit_Declined_Marshall_Defense"@,
            "Queens_Gambit_Declined_Albin_Countergambit"@,
            "Queens_Gambit_Declined_Exchange_Variation"@,
            "Queens_Gambit_Declined_Modern_Variation"@,
            "Queens_Gambit_Declined_Chigorin_Defense"@,
            "Queens_Gambit_Declined_Ragozin_Defense"@,
            "Queens_Gambit_Declined_Queens_Knight_Variation"@,
            "Queens_Gambit_Declined_Baltic_Defense"@,
            "Queens_Gambit_Declined_Normal_Defense"@,
            "Queens_Gambit_Declined_Three_Knights_Variation"@,
            "Queens_Gambit_Declined_Harrwitz_Attack"@,
            "Queens_Gambit_Declined_Semi-Tarrasch_Defense"@,
            "Queens_Gambit_Declined_Tarrasch_Defense"@,
        ],
        Openings::English => seq![
            "Any_Variation"@,
            "English_Opening_Kings_English_Variation"@,
            "English_Opening_Symmetrical_Variation"@,
            "English_Opening_Anglo-Indian_Defense"@,
            "English_Opening_Agincourt_Defense"@,
            "English_Opening_Anglo-Scandinavian_Defense"@,
            "English_Opening_Caro-Kann_Defensive_System"@,
        ],
        Openings::RuyLopez => seq![
            "Any_Variation"@,
            "Ruy_Lopez_Morphy_Defense"@,
            "Ruy_Lopez_Berlin_Defense"@,
            "Ruy_Lopez_Steinitz_Defense"@,
            "Ruy_Lopez_Classical_Variation"@,
            "Ruy_Lopez_Exchange_Variation"@,
            "Ruy_Lopez_Bird_Variation"@,
            "Ruy_Lopez_Cozio_Defense"@,
            "Ruy_Lopez_Schliemann_Defense"@,
            "Ruy_Lopez_Closed"@,
            "Ruy_Lopez_Open"@,
            "Ruy_Lopez_Marshall_Attack"@,
        ],
        Openings::IndianDefense => seq![
            "Any_Variation"@,
            "Indian_Defense_Budapest_Defense"@,
            "Indian_Defense_Normal_Variation"@,
            "Indian_Defense_London_System"@,
        ],
        Openings::ScotchGame => seq![
            "Any_Variation"@,
            "Scotch_Game_Scotch_Gambit"@,
            "Scotch_Game_Classical_Variation"@,
            "Scotch_Game_Schmidt_Variation"@,
            "Scotch_Game_Goring_Gambit"@,
        ],
        Openings::RussianGame => seq![
            "Any_Variation"@,
            "Russian_Game_Stafford_Gambit"@,
            "Russian_Game_Italian_Variation"@,
            "Russian_Game_Three_Knights_Game"@,
            "Russian_Game_Modern_Attack"@,
            "Russian_Game_Classical_Attack"@,
        ],
        Openings::KingsGambitAccepted => seq![
            "Any_Variation"@,
            "Kings_Gambit_Accepted_MacLeod_Defense"@,
            "Kings_Gambit_Accepted_Fischer_Defense"@,
            "Kings_Gambit_Accepted_Kings_Knights_Gambit"@,
            "Kings_Gambit_Accepted_Bishops_Gambit"@,
            "Kings_Gambit_Accepted_Cunningham_Defense"@,
            "Kings_Gambit_Accepted_Modern_Defense"@,
            "Kings_Gambit_Accepted_Schallopp_Defense"@,
        ],
        Openings::SlavDefense => seq![
            "Any_Variation"@,
            "Slav_Defense_Exchange_Variation"@,
            "Slav_Defense_Three_Knights_Variation"@,
            "Slav_Defense_Modern_Line"@,
            "Slav_Defense_Quiet_Variation"@,
        ],
        Openings::ViennaGame => seq![
            "Any_Variation"@,
            "Vienna_Game_Vienna_Gambit"@,
            "Vienna_Game_Stanley_Variation"@,
            "Vienna_Game_Max_Lange_Defense"@,
        ],
        Openings::QueensGambitAccepted => seq![
            "Any_Variation"@,
            "Queens_Gambit_Accepted_Old_Variation"@,
            "Queens_Gambit_Accepted_Central_Variation"@,
        ],
        Openings::KingsIndianDefense => seq![
            "Any_Variation"@,
            "Kings_Indian_Defense_Normal_Variation"@,
            "Kings_Indian_Defense_Orthodox_Variation"@,
            "Kings_Indian_Defense_Fianchetto_Variation"@,
            "Kings_Indian_Defense_Samisch_Variation"@,
            "Kings_Indian_Defense_Four_Pawns_Attack"@,
        ],
        Openings::Benoni => seq![
            "Any_Variation"@,
            "Benoni_Defense_Old_Benoni"@,
            "Benoni_Defense_Benoni_Gambit_Accepted"@,
            "Benoni_Defense_French_Benoni"@,
            "Benoni_Defense_Modern_Variation"@,
        ],
        Openings::KingsGambitDeclined => seq![
            "Any_Variation"@,
            "Kings_Gambit_Declined_Queens_Knight_Defense"@,
            "Kings_Gambit_Declined_Falkbeer_Countergambit"@,
            "Kings_Gambit_Declined_Classical_Variation"@,
        ],
        Openings::GrunfeldDefense => seq![
            "Any_Variation"@,
            "Grunfeld_Defense_Exchange_Variation"@,
            "Grunfeld_Defense_Three_Knights_Variation"@,
        ],
        _ => seq!["Any_Variation"@],
    }
}

/// The variation list of an opening starts with `Any_Variation`, holds nothing else for an
/// opening without a table, names no variation twice, and tags every other entry with the
/// opening's tag and an underscore.
pub proof fn lemma_variation_names_shape(o: Openings)
    ensures
        variation_names(o).len() >= 1,
        variation_names(o)[0] == any_variation_name(),
        !has_variation_table(o) ==> variation_names(o) == seq![any_variation_name()],
        variation_names(o).no_duplicates(),
        forall|i: int|
            1 <= i < variation_names(o).len() ==> (o.spec_field_name() + "_"@).is_prefix_of(
                #[trigger] variation_names(o)[i],
            ),
{
    reveal_strlit("Any_Variation");
    match o {
        Openings::Sicilian => {
            reveal_strlit("Sicilian_Defense");
            reveal_strlit("_");
            reveal_strlit("Any_Variation");
            reveal_strlit("Sicilian_Defense_Bowdler_Attack");
            reveal_strlit("Sicilian_Defense_Old_Sicilian");
            reveal_strlit("Sicilian_Defense_Closed");
            reveal_strlit("Sicilian_Defense_Najdorf_Variation");
            reveal_strlit("Sicilian_Defense_Alapin_Variation");
            reveal_strlit("Sicilian_Defense_Modern_Variations");
            reveal_strlit("Sicilian_Defense_Smith-Morra_Gambit");
            reveal_strlit("Sicilian_Defense_McDonnell_Attack");
            reveal_strlit("Sicilian_Defense_Open");
            reveal_strlit("Sicilian_Defense_Taimanov_Variation");
            reveal_strlit("Sicilian_Defense_French_Variation");
            reveal_strlit("Sicilian_Defense_Nyezhmetdinov-Rossolimo_Attack");
            reveal_strlit("Sicilian_Defense_Accelerated_Dragon");
            reveal_strlit("Sicilian_Defense_Dragon_Variation");
            reveal_strlit("Sicilian_Defense_Kan_Variation");
            reveal_strlit("Sicilian_Defense_Lowenthal_Variation");
            reveal_strlit("Sicilian_Defense_Lasker-Pelikan_Variation");
            reveal_strlit("Sicilian_Defense_Four_Knights_Variation");
            reveal_strlit("Sicilian_Defense_OKelly_Variation");
            reveal_strlit("Sicilian_Defense_Smith-Morra_Gambit_Accepted");
            reveal_strlit("Sicilian_Defense_Grand_Prix_Attack");
            reveal_strlit("Sicilian_Defense_Hyperaccelerated_Fianchetto");
            reveal_strlit("Sicilian_Defense_Hyperaccelerated_Dragon");
            reveal_strlit("Sicilian_Defense_Delayed_Alapin_Variation");
            reveal_strlit("Sicilian_Defense_Wing_Gambit");
            reveal_strlit("Sicilian_Defense_Classical_Variation");
            reveal_strlit("Sicilian_Defense_Staunton-Cochrane_Variation");
            reveal_strlit("Sicilian_Defense_Marshall_Gambit");
            reveal_strlit("Sicilian_Defense_Scheveningen_Variation");
            reveal_strlit("Sicilian_Defense_Smith-Morra_Gambit_Declined");
            assert("Any_Variation"@.len() == 13);
            assert("Sicilian_Defense_Bowdler_Attack"@.len() == 31 && "Sicilian_Defense_Bowdler_Attack"@[20] == 'd');
            assert("Sicilian_Defense_Old_Sicilian"@.len() == 29 && "Sicilian_Defense_Old_Sicilian"@[20] == '_');
            assert("Sicilian_Defense_Closed"@.len() == 23 && "Sicilian_Defense_Closed"@[20] == 's');
            assert("Sicilian_Defense_Najdorf_Variation"@.len() == 34 && "Sicilian_Defense_Najdorf_Variation"@[20] == 'd');
            assert("Sicilian_Defense_Alapin_Variation"@.len() == 33 && "Sicilian_Defense_Alapin_Variation"@[20] == 'p');
            assert("Sicilian_Defense_Modern_Variations"@.len() == 34 && "Sicilian_Defense_Modern_Variations"@[20] == 'e');
            assert("Sicilian_Defense_Smith-Morra_Gambit"@.len() == 35 && "Sicilian_Defense_Smith-Morra_Gambit"@[20] == 't');
            assert("Sicilian_Defense_McDonnell_Attack"@.len() == 33 && "Sicilian_Defense_McDonnell_Attack"@[20] == 'o');
            assert("Sicilian_Defense_Open"@.len() == 21 && "Sicilian_Defense_Open"@[20] == 'n');
            assert("Sicilian_Defense_Taimanov_Variation"@.len() == 35 && "Sicilian_Defense_Taimanov_Variation"@[20] == 'm');
            assert("Sicilian_Defense_French_Variation"@.len() == 33 && "Sicilian_Defense_French_Variation"@[20] == 'n');
            assert("Sicilian_Defense_Nyezhmetdinov-Rossolimo_Attack"@.len() == 47 && "Sicilian_Defense_Nyezhmetdinov-Rossolimo_Attack"@[20] == 'z' && "Sicilian_Defense_Nyezhmetdinov-Rossolimo_Attack"@[36] == 'l');
            assert("Sicilian_Defense_Accelerated_Dragon"@.len() == 35 && "Sicilian_Defense_Accelerated_Dragon"@[20] == 'e');
            assert("Sicilian_Defense_Dragon_Variation"@.len() == 33 && "Sicilian_Defense_Dragon_Variation"@[20] == 'g');
            assert("Sicilian_Defense_Kan_Variation"@.len() == 30 && "Sicilian_Defense_Kan_Variation"@[20] == '_');
            assert("Sicilian_Defense_Lowenthal_Variation"@.len() == 36 && "Sicilian_Defense_Lowenthal_Variation"@[20] == 'e');
            assert("Sicilian_Defense_Lasker-Pelikan_Variation"@.len() == 41 && "Sicilian_Defense_Lasker-Pelikan_Variation"@[20] == 'k' && "Sicilian_Defense_Lasker-Pelikan_Variation"@[36] == 'a');
            assert("Sicilian_Defense_Four_Knights_Variation"@.len() == 39 && "Sicilian_Defense_Four_Knights_Variation"@[20] == 'r' && "Sicilian_Defense_Four_Knights_Variation"@[36] == 'i');
            assert("Sicilian_Defense_OKelly_Variation"@.len() == 33 && "Sicilian_Defense_OKelly_Variation"@[20] == 'l');
            assert("Sicilian_Defense_Smith-Morra_Gambit_Accepted"@.len() == 44 && "Sicilian_Defense_Smith-Morra_Gambit_Accepted"@[20] == 't' && "Sicilian_Defense_Smith-Morra_Gambit_Accepted"@[36] == 'A');
            assert("Sicilian_Defense_Grand_Prix_Attack"@.len() == 34 && "Sicilian_Defense_Grand_Prix_Attack"@[20] == 'n');
            assert("Sicilian_Defense_Hyperaccelerated_Fianchetto"@.len() == 44 && "Sicilian_Defense_Hyperaccelerated_Fianchetto"@[20] == 'e' && "Sicilian_Defense_Hyperaccelerated_Fianchetto"@[36] == 'a');
            assert("Sicilian_Defense_Hyperaccelerated_Dragon"@.len() == 40 && "Sicilian_Defense_Hyperaccelerated_Dragon"@[20] == 'e' && "Sicilian_Defense_Hyperaccelerated_Dragon"@[36] == 'a');
            assert("Sicilian_Defense_Delayed_Alapin_Variation"@.len() == 41 && "Sicilian_Defense_Delayed_Alapin_Variation"@[20] == 'a' && "Sicilian_Defense_Delayed_Alapin_Variation"@[36] == 'a');
            assert("Sicilian_Defense_Wing_Gambit"@.len() == 28 && "Sicilian_Defense_Wing_Gambit"@[20] == 'g');
            assert("Sicilian_Defense_Classical_Variation"@.len() == 36 && "Sicilian_Defense_Classical_Variation"@[20] == 's');
            assert("Sicilian_Defense_Staunton-Cochrane_Variation"@.len() == 44 && "Sicilian_Defense_Staunton-Cochrane_Variation"@[20] == 'u' && "Sicilian_Defense_Staunton-Cochrane_Variation"@[36] == 'a');
            assert("Sicilian_Defense_Marshall_Gambit"@.len() == 32 && "Sicilian_Defense_Marshall_Gambit"@[20] == 's');
            assert("Sicilian_Defense_Scheveningen_Variation"@.len() == 39 && "Sicilian_Defense_Scheveningen_Variation"@[20] == 'e' && "Sicilian_Defense_Scheveningen_Variation"@[36] == 'i');
            assert("Sicilian_Defense_Smith-Morra_Gambit_Declined"@.len() == 44 && "Sicilian_Defense_Smith-Morra_Gambit_Declined"@[20] == 't' && "Sicilian_Defense_Smith-Morra_Gambit_Declined"@[36] == 'D');
        },
        Openings::French => {
            reveal_strlit("French_Defense");
            reveal_strlit("_");
            reveal_strlit("Any_Variation");
            reveal_strlit("French_Defense_Advance_Variation");
            reveal_strlit("French_Defense_Knight_Variation");
            reveal_strlit("French_Defense_Exchange_Variation");
            reveal_strlit("French_Defense_Tarrasch_Variation");
            reveal_strlit("French_Defense_Normal_Variation");
            reveal_strlit("French_Defense_Winawer_Variation");
            reveal_strlit("French_Defense_Rubinstein_Variation");
            reveal_strlit("French_Defense_Classical_Variation");
            reveal_strlit("French_Defense_La_Bourdonnais_Variation");
            reveal_strlit("French_Defense_Queens_Knight");
            reveal_strlit("French_Defense_Kings_Indian_Attack");
            reveal_strlit("French_Defense_Steiner_Variation");
            reveal_strlit("French_Defense_Two_Knights_Variation");
            assert("Any_Variation"@.len() == 13);
            assert("French_Defense_Advance_Variation"@.len() == 32 && "French_Defense_Advance_Variation"@[15] == 'A');
            assert("French_Defense_Knight_Variation"@.len() == 31 && "French_Defense_Knight_Variation"@[15] == 'K');
            assert("French_Defense_Exchange_Variation"@.len() == 33 && "French_Defense_Exchange_Variation"@[15] == 'E');
            assert("French_Defense_Tarrasch_Variation"@.len() == 33 && "French_Defense_Tarrasch_Variation"@[15] == 'T');
            assert("French_Defense_Normal_Variation"@.len() == 31 && "French_Defense_Normal_Variation"@[15] == 'N');
            assert("French_Defense_Winawer_Variation"@.len() == 32 && "French_Defense_Winawer_Variation"@[15] == 'W');
            assert("French_Defense_Rubinstein_Variation"@.len() == 35 && "French_Defense_Rubinstein_Variation"@[15] == 'R');
            assert("French_Defense_Classical_Variation"@.len() == 34 && "French_Defense_Classical_Variation"@[15] == 'C');
            assert("French_Defense_La_Bourdonnais_Variation"@.len() == 39 && "French_Defense_La_Bourdonnais_Variation"@[15] == 'L');
            assert("French_Defense_Queens_Knight"@.len() == 28 && "French_Defense_Queens_Knight"@[15] == 'Q');
            assert("French_Defense_Kings_Indian_Attack"@.len() == 34 && "French_Defense_Kings_Indian_Attack"@[15] == 'K');
            assert("French_Defense_Steiner_Variation"@.len() == 32 && "French_Defense_Steiner_Variation"@[15] == 'S');
            assert("French_Defense_Two_Knights_Variation"@.len() == 36 && "French_Defense_Two_Knights_Variation"@[15] == 'T');
        },
        Openings::QueensPawnGame => {
            reveal_strlit("Queens_Pawn_Game");
            reveal_strlit("_");
            reveal_strlit("Any_Variation");
            reveal_strlit("Queens_Pawn_Game_Accelerated_London_System");
            reveal_strlit("Queens_Pawn_Game_Chigorin_Variation");
            reveal_strlit("Queens_Pawn_Game_Zukertort_Variation");
            reveal_strlit("Queens_Pawn_Game_London_System");
            reveal_strlit("Queens_Pawn_Game_Colle_System");
            reveal_strlit("Queens_Pawn_Game_Symmetrical_Variation");
            reveal_strlit("Queens_Pawn_Game_Levitsky_Attack");
            reveal_strlit("Queens_Pawn_Game_Krause_Variation");
            reveal_strlit("Queens_Pawn_Game_Torre_Attack");
            assert("Any_Variation"@.len() == 13);
            assert("Queens_Pawn_Game_Accelerated_London_System"@.len() == 42 && "Queens_Pawn_Game_Accelerated_London_System"@[17] == 'A');
            assert("Queens_Pawn_Game_Chigorin_Variation"@.len() == 35 && "Queens_Pawn_Game_Chigorin_Variation"@[17] == 'C');
            assert("Queens_Pawn_Game_Zukertort_Variation"@.len() == 36 && "Queens_Pawn_Game_Zukertort_Variation"@[17] == 'Z');
            assert("Queens_Pawn_Game_London_System"@.len() == 30 && "Queens_Pawn_Game_London_System"@[17] == 'L');
            assert("Queens_Pawn_Game_Colle_System"@.len() == 29 && "Queens_Pawn_Game_Colle_System"@[17] == 'C');
            assert("Queens_Pawn_Game_Symmetrical_Variation"@.len() == 38 && "Queens_Pawn_Game_Symmetrical_Variation"@[17] == 'S');
            assert("Queens_Pawn_Game_Levitsky_Attack"@.len() == 32 && "Queens_Pawn_Game_Levitsky_Attack"@[17] == 'L');
            assert("Queens_Pawn_Game_Krause_Variation"@.len() == 33 && "Queens_Pawn_Game_Krause_Variation"@[17] == 'K');
            assert("Queens_Pawn_Game_Torre_Attack"@.len() == 29 && "Queens_Pawn_Game_Torre_Attack"@[17] == 'T');
        },
        Openings::ItalianGame => {
            reveal_strlit("Italian_Game");
            reveal_strlit("_");
            reveal_strlit("Any_Variation");
            reveal_strlit("Italian_Game_Two_Knights_Defense");
            reveal_strlit("Italian_Game_Classical_Variation");
            reveal_strlit("Italian_Game_Giuoco_Pianissimo");
            reveal_strlit("Italian_Game_Anti-Fried_Liver_Defense");
            reveal_strlit("Italian_Game_Giuoco_Piano");
            reveal_strlit("Italian_Game_Evans_Gambit");
            reveal_strlit("Italian_Game_Scotch_Gambit");
            reveal_strlit("Italian_Game_Blackburne-Kostic_Gambit");
            reveal_strlit("Italian_Game_Hungarian_Defense");
            assert("Any_Variation"@.len() == 13);
            assert("Italian_Game_Two_Knights_Defense"@.len() == 32 && "Italian_Game_Two_Knights_Defense"@[13] == 'T');
            assert("Italian_Game_Classical_Variation"@.len() == 32 && "Italian_Game_Classical_Variation"@[13] == 'C');
            assert("Italian_Game_Giuoco_Pianissimo"@.len() == 30 && "Italian_Game_Giuoco_Pianissimo"@[13] == 'G');
            assert("Italian_Game_Anti-Fried_Liver_Defense"@.len() == 37 && "Italian_Game_Anti-Fried_Liver_Defense"@[13] == 'A');
            assert("Italian_Game_Giuoco_Piano"@.len() == 25 && "Italian_Game_Giuoco_Piano"@[13] == 'G');
            assert("Italian_Game_Evans_Gambit"@.len() == 25 && "Italian_Game_Evans_Gambit"@[13] == 'E');
            assert("Italian_Game_Scotch_Gambit"@.len() == 26 && "Italian_Game_Scotch_Gambit"@[13] == 'S');
            assert("Italian_Game_Blackburne-Kostic_Gambit"@.len() == 37 && "Italian_Game_Blackburne-Kostic_Gambit"@[13] == 'B');
            assert("Italian_Game_Hungarian_Defense"@.len() == 30 && "Italian_Game_Hungarian_Defense"@[13] == 'H');
        },
        Openings::CaroKann => {
            reveal_strlit("Caro-Kann_Defense");
            reveal_strlit("_");
            reveal_strlit("Any_Variation");
            reveal_strlit("Caro-Kann_Defense_Advance_Variation");
            reveal_strlit("Caro-Kann_Defense_Exchange_Variation");
            reveal_strlit("Caro-Kann_Defense_Classical_Variation");
            reveal_strlit("Caro-Kann_Defense_Two_Knights_Attack");
            reveal_strlit("Caro-Kann_Defense_Panov_Attack");
            reveal_strlit("Caro-Kann_Defense_Hillbilly_Attack");
            reveal_strlit("Caro-Kann_Defense_Accelerated_Panov_Attack");
            reveal_strlit("Caro-Kann_Defense_Maroczy_Variation");
            reveal_strlit("Caro-Kann_Defense_Tartakower_Variation");
            reveal_strlit("Caro-Kann_Defense_Karpov_Variation");
            assert("Any_Variation"@.len() == 13);
            assert("Caro-Kann_Defense_Advance_Variation"@.len() == 35 && "Caro-Kann_Defense_Advance_Variation"@[18] == 'A');
            assert("Caro-Kann_Defense_Exchange_Variation"@.len() == 36 && "Caro-Kann_Defense_Exchange_Variation"@[18] == 'E');
            assert("Caro-Kann_Defense_Classical_Variation"@.len() == 37 && "Caro-Kann_Defense_Classical_Variation"@[18] == 'C');
            assert("Caro-Kann_Defense_Two_Knights_Attack"@.len() == 36 && "Caro-Kann_Defense_Two_Knights_Attack"@[18] == 'T');
            assert("Caro-Kann_Defense_Panov_Attack"@.len() == 30 && "Caro-Kann_Defense_Panov_Attack"@[18] == 'P');
            assert("Caro-Kann_Defense_Hillbilly_Attack"@.len() == 34 && "Caro-Kann_Defense_Hillbilly_Attack"@[18] == 'H');
            assert("Caro-Kann_Defense_Accelerated_Panov_Attack"@.len() == 42 && "Caro-Kann_Defense_Accelerated_Panov_Attack"@[18] == 'A');
            assert("Caro-Kann_Defense_Maroczy_Variation"@.len() == 35 && "Caro-Kann_Defense_Maroczy_Variation"@[18] == 'M');
            assert("Caro-Kann_Defense_Tartakower_Variation"@.len() == 38 && "Caro-Kann_Defense_Tartakower_Variation"@[18] == 'T');
            assert("Caro-Kann_Defense_Karpov_Variation"@.len() == 34 && "Caro-Kann_Defense_Karpov_Variation"@[18] == 'K');
        },
        Openings::Scandinavian => {
            reveal_strlit("Scandinavian_Defense");
            reveal_strlit("_");
            reveal_strlit("Any_Variation");
            reveal_strlit("Scandinavian_Defense_Mieses-Kotroc_Variation");
            reveal_strlit("Scandinavian_Defense_Modern_Variation");
            reveal_strlit("Scandinavian_Defense_Main_Line");
            reveal_strlit("Scandinavian_Defense_Gubinsky-Melts_Defense");
            reveal_strlit("Scandinavian_Defense_Icelandic-Palme_Gambit");
            reveal_strlit("Scandinavian_Defense_Panov_Transfer");
            assert("Any_Variation"@.len() == 13);
            assert("Scandinavian_Defense_Mieses-Kotroc_Variation"@.len() == 44 && "Scandinavian_Defense_Mieses-Kotroc_Variation"@[21] == 'M');
            assert("Scandinavian_Defense_Modern_Variation"@.len() == 37 && "Scandinavian_Defense_Modern_Variation"@[21] == 'M');
            assert("Scandinavian_Defense_Main_Line"@.len() == 30 && "Scandinavian_Defense_Main_Line"@[21] == 'M');
            assert("Scandinavian_Defense_Gubinsky-Melts_Defense"@.len() == 43 && "Scandinavian_Defense_Gubinsky-Melts_Defense"@[21] == 'G');
            assert("Scandinavian_Defense_Icelandic-Palme_Gambit"@.len() == 43 && "Scandinavian_Defense_Icelandic-Palme_Gambit"@[21] == 'I');
            assert("Scandinavian_Defense_Panov_Transfer"@.len() == 35 && "Scandinavian_Defense_Panov_Transfer"@[21] == 'P');
        },
        Openings::QueensGambitDeclined => {
            reveal_strlit("Queens_Gambit_Declined");
            reveal_strlit("_");
            reveal_strlit("Any_Variation");
            reveal_strlit("Queens_Gambit_Declined_Marshall_Defense");
            reveal_strlit("Queens_Gambit_Declined_Albin_Countergambit");
            reveal_strlit("Queens_Gambit_Declined_Exchange_Variation");
            reveal_strlit("Queens_Gambit_Declined_Modern_Variation");
            reveal_strlit("Queens_Gambit_Declined_Chigorin_Defense");
            reveal_strlit("Queens_Gambit_Declined_Ragozin_Defense");
            reveal_strlit("Queens_Gambit_Declined_Queens_Knight_Variation");
            reveal_strlit("Queens_Gambit_Declined_Baltic_Defense");
            reveal_strlit("Queens_Gambit_Declined_Normal_Defense");
            reveal_strlit("Queens_Gambit_Declined_Three_Knights_Variation");
            reveal_strlit("Queens_Gambit_Declined_Harrwitz_Attack");
            reveal_strlit("Queens_Gambit_Declined_Semi-Tarrasch_Defense");
            reveal_strlit("Queens_Gambit_Declined_Tarrasch_Defense");
            assert("Any_Variation"@.len() == 13);
            assert("Queens_Gambit_Declined_Marshall_Defense"@.len() == 39 && "Queens_Gambit_Declined_Marshall_Defense"@[27] == 'h');
            assert("Queens_Gambit_Declined_Albin_Countergambit"@.len() == 42 && "Queens_Gambit_Declined_Albin_Countergambit"@[27] == 'n');
            assert("Queens_Gambit_Declined_Exchange_Variation"@.len() == 41 && "Queens_Gambit_Declined_Exchange_Variation"@[27] == 'a');
            assert("Queens_Gambit_Declined_Modern_Variation"@.len() == 39 && "Queens_Gambit_Declined_Modern_Variation"@[27] == 'r');
            assert("Queens_Gambit_Declined_Chigorin_Defense"@.len() == 39 && "Queens_Gambit_Declined_Chigorin_Defense"@[27] == 'o');
            assert("Queens_Gambit_Declined_Ragozin_Defense"@.len() == 38 && "Queens_Gambit_Declined_Ragozin_Defense"@[27] == 'z');
            assert("Queens_Gambit_Declined_Queens_Knight_Variation"@.len() == 46 && "Queens_Gambit_Declined_Queens_Knight_Variation"@[27] == 'n');
            assert("Queens_Gambit_Declined_Baltic_Defense"@.len() == 37 && "Queens_Gambit_Declined_Baltic_Defense"@[27] == 'i');
            assert("Queens_Gambit_Declined_Normal_Defense"@.len() == 37 && "Queens_Gambit_Declined_Normal_Defense"@[27] == 'a');
            assert("Queens_Gambit_Declined_Three_Knights_Variation"@.len() == 46 && "Queens_Gambit_Declined_Three_Knights_Variation"@[27] == 'e');
            assert("Queens_Gambit_Declined_Harrwitz_Attack"@.len() == 38 && "Queens_Gambit_Declined_Harrwitz_Attack"@[27] == 'w');
            assert("Queens_Gambit_Declined_Semi-Tarrasch_Defense"@.len() == 44 && "Queens_Gambit_Declined_Semi-Tarrasch_Defense"@[27] == '-');
            assert("Queens_Gambit_Declined_Tarrasch_Defense"@.len() == 39 && "Queens_Gambit_Declined_Tarrasch_Defense"@[27] == 'a');
        },
        Openings::English => {
            reveal_strlit("English_Opening");
            reveal_strlit("_");
            reveal_strlit("Any_Variation");
            reveal_strlit("English_Opening_Kings_English_Variation");
            reveal_strlit("English_Opening_Symmetrical_Variation");
            reveal_strlit("English_Opening_Anglo-Indian_Defense");
            reveal_strlit("English_Opening_Agincourt_Defense");
            reveal_strlit("English_Opening_Anglo-Scandinavian_Defense");
            reveal_strlit("English_Opening_Caro-Kann_Defensive_System");
            assert("Any_Variation"@.len() == 13);
            assert("English_Opening_Kings_English_Variation"@.len() == 39 && "English_Opening_Kings_English_Variation"@[16] == 'K');
            assert("English_Opening_Symmetrical_Variation"@.len() == 37 && "English_Opening_Symmetrical_Variation"@[16] == 'S');
            assert("English_Opening_Anglo-Indian_Defense"@.len() == 36 && "English_Opening_Anglo-Indian_Defense"@[16] == 'A');
            assert("English_Opening_Agincourt_Defense"@.len() == 33 && "English_Opening_Agincourt_Defense"@[16] == 'A');
            assert("English_Opening_Anglo-Scandinavian_Defense"@.len() == 42 && "English_Opening_Anglo-Scandinavian_Defense"@[16] == 'A');
            assert("English_Opening_Caro-Kann_Defensive_System"@.len() == 42 && "English_Opening_Caro-Kann_Defensive_System"@[16] == 'C');
        },
        Openings::RuyLopez => {
            reveal_strlit("Ruy_Lopez");
            reveal_strlit("_");
            reveal_strlit("Any_Variation");
            reveal_strlit("Ruy_Lopez_Morphy_Defense");
            reveal_strlit("Ruy_Lopez_Berlin_Defense");
            reveal_strlit("Ruy_Lopez_Steinitz_Defense");
            reveal_strlit("Ruy_Lopez_Classical_Variation");
            reveal_strlit("Ruy_Lopez_Exchange_Variation");
            reveal_strlit("Ruy_Lopez_Bird_Variation");
            reveal_strlit("Ruy_Lopez_Cozio_Defense");
            reveal_strlit("Ruy_Lopez_Schliemann_Defense");
            reveal_strlit("Ruy_Lopez_Closed");
            reveal_strlit("Ruy_Lopez_Open");
            reveal_strlit("Ruy_Lopez_Marshall_Attack");
            assert("Any_Variation"@.len() == 13 && "Any_Variation"@[11] == 'o');
            assert("Ruy_Lopez_Morphy_Defense"@.len() == 24 && "Ruy_Lopez_Morphy_Defense"@[11] == 'o');
            assert("Ruy_Lopez_Berlin_Defense"@.len() == 24 && "Ruy_Lopez_Berlin_Defense"@[11] == 'e');
            assert("Ruy_Lopez_Steinitz_Defense"@.len() == 26 && "Ruy_Lopez_Steinitz_Defense"@[11] == 't');
            assert("Ruy_Lopez_Classical_Variation"@.len() == 29 && "Ruy_Lopez_Classical_Variation"@[11] == 'l');
            assert("Ruy_Lopez_Exchange_Variation"@.len() == 28 && "Ruy_Lopez_Exchange_Variation"@[11] == 'x');
            assert("Ruy_Lopez_Bird_Variation"@.len() == 24 && "Ruy_Lopez_Bird_Variation"@[11] == 'i');
            assert("Ruy_Lopez_Cozio_Defense"@.len() == 23 && "Ruy_Lopez_Cozio_Defense"@[11] == 'o');
            assert("Ruy_Lopez_Schliemann_Defense"@.len() == 28 && "Ruy_Lopez_Schliemann_Defense"@[11] == 'c');
            assert("Ruy_Lopez_Closed"@.len() == 16 && "Ruy_Lopez_Closed"@[11] == 'l');
            assert("Ruy_Lopez_Open"@.len() == 14 && "Ruy_Lopez_Open"@[11] == 'p');
            assert("Ruy_Lopez_Marshall_Attack"@.len() == 25 && "Ruy_Lopez_Marshall_Attack"@[11] == 'a');
        },
        Openings::IndianDefense => {
            reveal_strlit("Indian_Defense");
            reveal_strlit("_");
            reveal_strlit("Any_Variation");
            reveal_strlit("Indian_Defense_Budapest_Defense");
            reveal_strlit("Indian_Defense_Normal_Variation");
            reveal_strlit("Indian_Defense_London_System");
            assert("Any_Variation"@.len() == 13);
            assert("Indian_Defense_Budapest_Defense"@.len() == 31 && "Indian_Defense_Budapest_Defense"@[15] == 'B');
            assert("Indian_Defense_Normal_Variation"@.len() == 31 && "Indian_Defense_Normal_Variation"@[15] == 'N');
            assert("Indian_Defense_London_System"@.len() == 28 && "Indian_Defense_London_System"@[15] == 'L');
        },
        Openings::ScotchGame => {
            reveal_strlit("Scotch_Game");
            reveal_strlit("_");
            reveal_strlit("Any_Variation");
            reveal_strlit("Scotch_Game_Scotch_Gambit");
            reveal_strlit("Scotch_Game_Classical_Variation");
            reveal_strlit("Scotch_Game_Schmidt_Variation");
            reveal_strlit("Scotch_Game_Goring_Gambit");
            assert("Any_Variation"@.len() == 13 && "Any_Variation"@[12] == 'n');
            assert("Scotch_Game_Scotch_Gambit"@.len() == 25 && "Scotch_Game_Scotch_Gambit"@[12] == 'S');
            assert("Scotch_Game_Classical_Variation"@.len() == 31 && "Scotch_Game_Classical_Variation"@[12] == 'C');
            assert("Scotch_Game_Schmidt_Variation"@.len() == 29 && "Scotch_Game_Schmidt_Variation"@[12] == 'S');
            assert("Scotch_Game_Goring_Gambit"@.len() == 25 && "Scotch_Game_Goring_Gambit"@[12] == 'G');
        },
        Openings::RussianGame => {
            reveal_strlit("Russian_Game");
            reveal_strlit("_");
            reveal_strlit("Any_Variation");
            reveal_strlit("Russian_Game_Stafford_Gambit");
            reveal_strlit("Russian_Game_Italian_Variation");
            reveal_strlit("Russian_Game_Three_Knights_Game");
            reveal_strlit("Russian_Game_Modern_Attack");
            reveal_strlit("Russian_Game_Classical_Attack");
            assert("Any_Variation"@.len() == 13);
            assert("Russian_Game_Stafford_Gambit"@.len() == 28);
            assert("Russian_Game_Italian_Variation"@.len() == 30);
            assert("Russian_Game_Three_Knights_Game"@.len() == 31);
            assert("Russian_Game_Modern_Attack"@.len() == 26);
            assert("Russian_Game_Classical_Attack"@.len() == 29);
        },
        Openings::KingsGambitAccepted => {
            reveal_strlit("Kings_Gambit_Accepted");
            reveal_strlit("_");
            reveal_strlit("Any_Variation");
            reveal_strlit("Kings_Gambit_Accepted_MacLeod_Defense");
            reveal_strlit("Kings_Gambit_Accepted_Fischer_Defense");
            reveal_strlit("Kings_Gambit_Accepted_Kings_Knights_Gambit");
            reveal_strlit("Kings_Gambit_Accepted_Bishops_Gambit");
            reveal_strlit("Kings_Gambit_Accepted_Cunningham_Defense");
            reveal_strlit("Kings_Gambit_Accepted_Modern_Defense");
            reveal_strlit("Kings_Gambit_Accepted_Schallopp_Defense");
            assert("Any_Variation"@.len() == 13);
            assert("Kings_Gambit_Accepted_MacLeod_Defense"@.len() == 37 && "Kings_Gambit_Accepted_MacLeod_Defense"@[22] == 'M');
            assert("Kings_Gambit_Accepted_Fischer_Defense"@.len() == 37 && "Kings_Gambit_Accepted_Fischer_Defense"@[22] == 'F');
            assert("Kings_Gambit_Accepted_Kings_Knights_Gambit"@.len() == 42 && "Kings_Gambit_Accepted_Kings_Knights_Gambit"@[22] == 'K');
            assert("Kings_Gambit_Accepted_Bishops_Gambit"@.len() == 36 && "Kings_Gambit_Accepted_Bishops_Gambit"@[22] == 'B');
            assert("Kings_Gambit_Accepted_Cunningham_Defense"@.len() == 40 && "Kings_Gambit_Accepted_Cunningham_Defense"@[22] == 'C');
            assert("Kings_Gambit_Accepted_Modern_Defense"@.len() == 36 && "Kings_Gambit_Accepted_Modern_Defense"@[22] == 'M');
            assert("Kings_Gambit_Accepted_Schallopp_Defense"@.len() == 39 && "Kings_Gambit_Accepted_Schallopp_Defense"@[22] == 'S');
        },
        Openings::SlavDefense => {
            reveal_strlit("Slav_Defense");
            reveal_strlit("_");
            reveal_strlit("Any_Variation");
            reveal_strlit("Slav_Defense_Exchange_Variation");
            reveal_strlit("Slav_Defense_Three_Knights_Variation");
            reveal_strlit("Slav_Defense_Modern_Line");
            reveal_strlit("Slav_Defense_Quiet_Variation");
            assert("Any_Variation"@.len() == 13);
            assert("Slav_Defense_Exchange_Variation"@.len() == 31);
            assert("Slav_Defense_Three_Knights_Variation"@.len() == 36);
            assert("Slav_Defense_Modern_Line"@.len() == 24);
            assert("Slav_Defense_Quiet_Variation"@.len() == 28);
        },
        Openings::ViennaGame => {
            reveal_strlit("Vienna_Game");
            reveal_strlit("_");
            reveal_strlit("Any_Variation");
            reveal_strlit("Vienna_Game_Vienna_Gambit");
            reveal_strlit("Vienna_Game_Stanley_Variation");
            reveal_strlit("Vienna_Game_Max_Lange_Defense");
            assert("Any_Variation"@.len() == 13 && "Any_Variation"@[12] == 'n');
            assert("Vienna_Game_Vienna_Gambit"@.len() == 25 && "Vienna_Game_Vienna_Gambit"@[12] == 'V');
            assert("Vienna_Game_Stanley_Variation"@.len() == 29 && "Vienna_Game_Stanley_Variation"@[12] == 'S');
            assert("Vienna_Game_Max_Lange_Defense"@.len() == 29 && "Vienna_Game_Max_Lange_Defense"@[12] == 'M');
        },
        Openings::QueensGambitAccepted => {
            reveal_strlit("Queens_Gambit_Accepted");
            reveal_strlit("_");
            reveal_strlit("Any_Variation");
            reveal_strlit("Queens_Gambit_Accepted_Old_Variation");
            reveal_strlit("Queens_Gambit_Accepted_Central_Variation");
            assert("Any_Variation"@.len() == 13);
            assert("Queens_Gambit_Accepted_Old_Variation"@.len() == 36);
            assert("Queens_Gambit_Accepted_Central_Variation"@.len() == 40);
        },
        Openings::KingsIndianDefense => {
            reveal_strlit("Kings_Indian_Defense");
            reveal_strlit("_");
            reveal_strlit("Any_Variation");
            reveal_strlit("Kings_Indian_Defense_Normal_Variation");
            reveal_strlit("Kings_Indian_Defense_Orthodox_Variation");
            reveal_strlit("Kings_Indian_Defense_Fianchetto_Variation");
            reveal_strlit("Kings_Indian_Defense_Samisch_Variation");
            reveal_strlit("Kings_Indian_Defense_Four_Pawns_Attack");
            assert("Any_Variation"@.len() == 13);
            assert("Kings_Indian_Defense_Normal_Variation"@.len() == 37 && "Kings_Indian_Defense_Normal_Variation"@[21] == 'N');
            assert("Kings_Indian_Defense_Orthodox_Variation"@.len() == 39 && "Kings_Indian_Defense_Orthodox_Variation"@[21] == 'O');
            assert("Kings_Indian_Defense_Fianchetto_Variation"@.len() == 41 && "Kings_Indian_Defense_Fianchetto_Variation"@[21] == 'F');
            assert("Kings_Indian_Defense_Samisch_Variation"@.len() == 38 && "Kings_Indian_Defense_Samisch_Variation"@[21] == 'S');
            assert("Kings_Indian_Defense_Four_Pawns_Attack"@.len() == 38 && "Kings_Indian_Defense_Four_Pawns_Attack"@[21] == 'F');
        },
        Openings::Benoni => {
            reveal_strlit("Benoni_Defense");
            reveal_strlit("_");
            reveal_strlit("Any_Variation");
            reveal_strlit("Benoni_Defense_Old_Benoni");
            reveal_strlit("Benoni_Defense_Benoni_Gambit_Accepted");
            reveal_strlit("Benoni_Defense_French_Benoni");
            reveal_strlit("Benoni_Defense_Modern_Variation");
            assert("Any_Variation"@.len() == 13);
            assert("Benoni_Defense_Old_Benoni"@.len() == 25);
            assert("Benoni_Defense_Benoni_Gambit_Accepted"@.len() == 37);
            assert("Benoni_Defense_French_Benoni"@.len() == 28);
            assert("Benoni_Defense_Modern_Variation"@.len() == 31);
        },
        Openings::KingsGambitDeclined => {
            reveal_strlit("Kings_Gambit_Declined");
            reveal_strlit("_");
            reveal_strlit("Any_Variation");
            reveal_strlit("Kings_Gambit_Declined_Queens_Knight_Defense");
            reveal_strlit("Kings_Gambit_Declined_Falkbeer_Countergambit");
            reveal_strlit("Kings_Gambit_Declined_Classical_Variation");
            assert("Any_Variation"@.len() == 13);
            assert("Kings_Gambit_Declined_Queens_Knight_Defense"@.len() == 43);
            assert("Kings_Gambit_Declined_Falkbeer_Countergambit"@.len() == 44);
            assert("Kings_Gambit_Declined_Classical_Variation"@.len() == 41);
        },
        Openings::GrunfeldDefense => {
            reveal_strlit("Grunfeld_Defense");
            reveal_strlit("_");
            reveal_strlit("Any_Variation");
            reveal_strlit("Grunfeld_Defense_Exchange_Variation");
            reveal_strlit("Grunfeld_Defense_Three_Knights_Variation");
            assert("Any_Variation"@.len() == 13);
            assert("Grunfeld_Defense_Exchange_Variation"@.len() == 35);
            assert("Grunfeld_Defense_Three_Knights_Variation"@.len() == 40);
        },
        _ => {},
    }
}

/// The family of the variations listed for `o`: `o` itself when it has a table,
/// else `Any`.
pub open spec fn listed_family(o: Openings) -> Openings {
    if has_variation_table(o) {
        o
    } else {
        Openings::Any
    }
}

fn variation_table(o: Openings) -> (r: Vec<&'static str>)
    ensures
        r@.map_values(|s: &str| s@) == variation_names(o),
{
    let r = match o {
        Openings::Sicilian => vec![
            "Any_Variation",
            "Sicilian_Defense_Bowdler_Attack",
            "Sicilian_Defense_Old_Sicilian",
            "Sicilian_Defense_Closed",
            "Sicilian_Defense_Najdorf_Variation",
            "Sicilian_Defense_Alapin_Variation",
            "Sicilian_Defense_Modern_Variations",
            "Sicilian_Defense_Smith-Morra_Gambit",
            "Sicilian_Defense_McDonnell_Attack",
            "Sicilian_Defense_Open",
            "Sicilian_Defense_Taimanov_Variation",
            "Sicilian_Defense_French_Variation",
            "Sicilian_Defense_Nyezhmetdinov-Rossolimo_Attack",
            "Sicilian_Defense_Accelerated_Dragon",
            "Sicilian_Defense_Dragon_Variation",
            "Sicilian_Defense_Kan_Variation",
            "Sicilian_Defense_Lowenthal_Variation",
            "Sicilian_Defense_Lasker-Pelikan_Variation",
            "Sicilian_Defense_Four_Knights_Variation",
            "Sicilian_Defense_OKelly_Variation",
            "Sicilian_Defense_Smith-Morra_Gambit_Accepted",
            "Sicilian_Defense_Grand_Prix_Attack",
            "Sicilian_Defense_Hyperaccelerated_Fianchetto",
            "Sicilian_Defense_Hyperaccelerated_Dragon",
            "Sicilian_Defense_Delayed_Alapin_Variation",
            "Sicilian_Defense_Wing_Gambit",
            "Sicilian_Defense_Classical_Variation",
            "Sicilian_Defense_Staunton-Cochrane_Variation",
            "Sicilian_Defense_Marshall_Gambit",
            "Sicilian_Defense_Scheveningen_Variation",
            "Sicilian_Defense_Smith-Morra_Gambit_Declined",
        ],
        Openings::French => vec![
            "Any_Variation",
            "French_Defense_Advance_Variation",
            "French_Defense_Knight_Variation",
            "French_Defense_Exchange_Variation",
            "French_Defense_Tarrasch_Variation",
            "French_Defense_Normal_Variation",
            "French_Defense_Winawer_Variation",
            "French_Defense_Rubinstein_Variation",
            "French_Defense_Classical_Variation",
            "French_Defense_La_Bourdonnais_Variation",
            "French_Defense_Queens_Knight",
            "French_Defense_Kings_Indian_Attack",
            "French_Defense_Steiner_Variation",
            "French_Defense_Two_Knights_Variation",
        ],
        Openings::QueensPawnGame => vec![
            "Any_Variation",
            "Queens_Pawn_Game_Accelerated_London_System",
            "Queens_Pawn_Game_Chigorin_Variation",
            "Queens_Pawn_Game_Zukertort_Variation",
            "Queens_Pawn_Game_London_System",
            "Queens_Pawn_Game_Colle_System",
            "Queens_Pawn_Game_Symmetrical_Variation",
            "Queens_Pawn_Game_Levitsky_Attack",
            "Queens_Pawn_Game_Krause_Variation",
            "Queens_Pawn_Game_Torre_Attack",
        ],
        Openings::ItalianGame => vec![
            "Any_Variation",
            "Italian_Game_Two_Knights_Defense",
            "Italian_Game_Classical_Variation",
            "Italian_Game_Giuoco_Pianissimo",
            "Italian_Game_Anti-Fried_Liver_Defense",
            "Italian_Game_Giuoco_Piano",
            "Italian_Game_Evans_Gambit",
            "Italian_Game_Scotch_Gambit",
            "Italian_Game_Blackburne-Kostic_Gambit",
            "Italian_Game_Hungarian_Defense",
        ],
        Openings::CaroKann => vec![
            "Any_Variation",
            "Caro-Kann_Defense_Advance_Variation",
            "Caro-Kann_Defense_Exchange_Variation",
            "Caro-Kann_Defense_Classical_Variation",
            "Caro-Kann_Defense_Two_Knights_Attack",
            "Caro-Kann_Defense_Panov_Attack",
            "Caro-Kann_Defense_Hillbilly_Attack",
            "Caro-Kann_Defense_Accelerated_Panov_Attack",
            "Caro-Kann_Defense_Maroczy_Variation",
            "Caro-Kann_Defense_Tartakower_Variation",
            "Caro-Kann_Defense_Karpov_Variation",
        ],
        Openings::Scandinavian => vec![
            "Any_Variation",
            "Scandinavian_Defense_Mieses-Kotroc_Variation",
            "Scandinavian_Defense_Modern_Variation",
            "Scandinavian_Defense_Main_Line",
            "Scandinavian_Defense_Gubinsky-Melts_Defense",
            "Scandinavian_Defense_Icelandic-Palme_Gambit",
            "Scandinavian_Defense_Panov_Transfer",
        ],
        Openings::QueensGambitDeclined => vec![
            "Any_Variation",
            "Queens_Gambit_Declined_Marshall_Defense",
            "Queens_Gambit_Declined_Albin_Countergambit",
            "Queens_Gambit_Declined_Exchange_Variation",
            "Queens_Gambit_Declined_Modern_Variation",
            "Queens_Gambit_Declined_Chigorin_Defense",
            "Queens_Gambit_Declined_Ragozin_Defense",
            "Queens_Gambit_Declined_Queens_Knight_Variation",
            "Queens_Gambit_Declined_Baltic_Defense",
            "Queens_Gambit_Declined_Normal_Defense",
            "Queens_Gambit_Declined_Three_Knights_Variation",
            "Queens_Gambit_Declined_Harrwitz_Attack",
            "Queens_Gambit_Declined_Semi-Tarrasch_Defense",
            "Queens_Gambit_Declined_Tarrasch_Defense",
        ],
        Openings::English => vec![
            "Any_Variation",
            "English_Opening_Kings_English_Variation",
            "English_Opening_Symmetrical_Variation",
            "English_Opening_Anglo-Indian_Defense",
            "English_Opening_Agincourt_Defense",
            "English_Opening_Anglo-Scandinavian_Defense",
            "English_Opening_Caro-Kann_Defensive_System",
        ],
        Openings::RuyLopez => vec![
            "Any_Variation",
            "Ruy_Lopez_Morphy_Defense",
            "Ruy_Lopez_Berlin_Defense",
            "Ruy_Lopez_Steinitz_Defense",
            "Ruy_Lopez_Classical_Variation",
            "Ruy_Lopez_Exchange_Variation",
            "Ruy_Lopez_Bird_Variation",
            "Ruy_Lopez_Cozio_Defense",
            "Ruy_Lopez_Schliemann_Defense",
            "Ruy_Lopez_Closed",
            "Ruy_Lopez_Open",
            "Ruy_Lopez_Marshall_Attack",
        ],
        Openings::IndianDefense => vec![
            "Any_Variation",
            "Indian_Defense_Budapest_Defense",
            "Indian_Defense_Normal_Variation",
            "Indian_Defense_London_System",
        ],
        Openings::ScotchGame => vec![
            "Any_Variation",
            "Scotch_Game_Scotch_Gambit",
            "Scotch_Game_Classical_Variation",
            "Scotch_Game_Schmidt_Variation",
            "Scotch_Game_Goring_Gambit",
        ],
        Openings::RussianGame => vec![
            "Any_Variation",
            "Russian_Game_Stafford_Gambit",
            "Russian_Game_Italian_Variation",
            "Russian_Game_Three_Knights_Game",
            "Russian_Game_Modern_Attack",
            "Russian_Game_Classical_Attack",
        ],
        Openings::KingsGambitAccepted => vec![
            "Any_Variation",
            "Kings_Gambit_Accepted_MacLeod_Defense",
            "Kings_Gambit_Accepted_Fischer_Defense",
            "Kings_Gambit_Accepted_Kings_Knights_Gambit",
            "Kings_Gambit_Accepted_Bishops_Gambit",
            "Kings_Gambit_Accepted_Cunningham_Defense",
            "Kings_Gambit_Accepted_Modern_Defense",
            "Kings_Gambit_Accepted_Schallopp_Defense",
        ],
        Openings::SlavDefense => vec![
            "Any_Variation",
            "Slav_Defense_Exchange_Variation",
            "Slav_Defense_Three_Knights_Variation",
            "Slav_Defense_Modern_Line",
            "Slav_Defense_Quiet_Variation",
        ],
        Openings::ViennaGame => vec![
            "Any_Variation",
            "Vienna_Game_Vienna_Gambit",
            "Vienna_Game_Stanley_Variation",
            "Vienna_Game_Max_Lange_Defense",
        ],
        Openings::QueensGambitAccepted => vec![
            "Any_Variation",
            "Queens_Gambit_Accepted_Old_Variation",
            "Queens_Gambit_Accepted_Central_Variation",
        ],
        Openings::KingsIndianDefense => vec![
            "Any_Variation",
            "Kings_Indian_Defense_Normal_Variation",
            "Kings_Indian_Defense_Orthodox_Variation",
            "Kings_Indian_Defense_Fianchetto_Variation",
            "Kings_Indian_Defense_Samisch_Variation",
            "Kings_Indian_Defense_Four_Pawns_Attack",
        ],
        Openings::Benoni => vec![
            "Any_Variation",
            "Benoni_Defense_Old_Benoni",
            "Benoni_Defense_Benoni_Gambit_Accepted",
            "Benoni_Defense_French_Benoni",
            "Benoni_Defense_Modern_Variation",
        ],
        Openings::KingsGambitDeclined => vec![
            "Any_Variation",
            "Kings_Gambit_Declined_Queens_Knight_Defense",
            "Kings_Gambit_Declined_Falkbeer_Countergambit",
            "Kings_Gambit_Declined_Classical_Variation",
        ],
        Openings::GrunfeldDefense => vec![
            "Any_Variation",
            "Grunfeld_Defense_Exchange_Variation",
            "Grunfeld_Defense_Three_Knights_Variation",
        ],
        _ => vec!["Any_Variation"],
    };
    proof {
        assert(r@.map_values(|s: &str| s@) =~= variation_names(o));
    }
    r
}

impl PickListWrapper<Variation> {
    /// The variations of `family` (none when no family is given), each shown in `lang`.
    pub fn get_variations(lang: Language, family: Option<&Openings>) -> (r: Vec<
        PickListWrapper<Variation>,
    >)
        ensures
            family is None ==> r.len() == 0,
            family matches Some(f) ==> {
                &&& r.len() == variation_names(*f).len()
                &&& forall|i: int|
                    0 <= i < r.len() ==> {
                        &&& #[trigger] r[i].lang == lang
                        &&& r[i].item.name@ == variation_names(*f)[i]
                        &&& r[i].item.family == listed_family(*f)
                    }
            },
    {
        let mut r: Vec<PickListWrapper<Variation>> = Vec::new();
        if let Some(f) = family {
            let table = variation_table(*f);
            let fam = if table.len() > 1 {
                *f
            } else {
                Openings::Any
            };
            proof {
                assert(table@.map_values(|s: &str| s@).len() == table.len());
                assert(fam == listed_family(*f));
            }
            let mut i: usize = 0;
            while i < table.len()
                invariant
                    i <= table.len(),
                    table@.map_values(|s: &str| s@) == variation_names(*f),
                    fam == listed_family(*f),
                    r.len() == i,
                    forall|j: int|
                        0 <= j < i ==> {
                            &&& #[trigger] r[j].lang == lang
                            &&& r[j].item.name@ == variation_names(*f)[j]
                            &&& r[j].item.family == fam
                        },
                decreases table.len() - i,
            {
                proof {
                    assert(table@.map_values(|s: &str| s@)[i as int] == table@[i as int]@);
                }
                r.push(
                    PickListWrapper {
                        lang,
                        item: Variation { name: String::from_str(table[i]), family: fam },
                    },
                );
                i = i + 1;
            }
        }
        r
    }

    /// The variation `var` shown in the language `lang`.
    pub fn new_variation(lang: Language, var: Variation) -> (r: Self)
        ensures
            r.lang == lang,
            r.item == var,
    {
        Self { lang, item: var }
    }
}

} // verus!
