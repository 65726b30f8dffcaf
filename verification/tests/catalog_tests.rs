use offline_chess_puzzles::lang::{tr, Language, PickListWrapper, Translations};
use offline_chess_puzzles::notation::PieceNames;
use offline_chess_puzzles::openings::{Openings, Variation};
use offline_chess_puzzles::styles::{BoardTheme, PieceTheme};
use offline_chess_puzzles::themes::TaticsThemes;

fn translations() -> Translations {
    Translations {
        english: String::from("hello = Hello\nbishop = B\nknight = N\nrook = R\nqueen = Q\nking = K\n"),
        portuguese: String::from("hello = Olá\n"),
        spanish: String::from("hello = Hola\n"),
        french: String::from("hello = Bonjour\n"),
        chinese: String::from("hello = 你好\n"),
    }
}

#[test]
fn messages_are_translated() {
    let t = translations();
    assert_eq!(tr(&t, &Language::English, "hello"), Some(String::from("Hello")));
    assert_eq!(tr(&t, &Language::Portuguese, "hello"), Some(String::from("Olá")));
    assert_eq!(tr(&t, &Language::Chinese, "hello"), Some(String::from("你好")));
    assert_eq!(tr(&t, &Language::French, "missing"), None);
}

#[test]
fn piece_names_come_from_the_translations() {
    let t = translations();
    let n = PieceNames::translated(&t, &Language::English).unwrap();
    assert_eq!(n.knight, String::from("N"));
    assert!(PieceNames::translated(&t, &Language::Spanish).is_none());
}

#[test]
fn every_language_theme_and_opening_is_listed() {
    assert_eq!(Language::all().len(), 5);
    assert_eq!(PickListWrapper::<Language>::get_langs(Language::French).len(), 5);
    assert_eq!(TaticsThemes::all().len(), 61);
    assert!(TaticsThemes::all().contains(&TaticsThemes::SmotheredMate));
    assert_eq!(PickListWrapper::<TaticsThemes>::get_themes(Language::English).len(), 61);
    assert!(Openings::all().contains(&Openings::CaroKann));
    assert_eq!(PickListWrapper::<Openings>::get_openings(Language::English).len(), Openings::all().len());
}

#[test]
fn tags_and_keys() {
    assert_eq!(TaticsThemes::MateIn2.get_tag_name(), "mateIn2");
    assert_eq!(TaticsThemes::All.get_tag_name(), "");
    assert_eq!(Openings::Sicilian.get_field_name(), "Sicilian_Defense");
    assert_eq!(Variation::any_str(), "Any_Variation");
    assert_eq!(PieceTheme::FontAlpha.name(), "Paper - chess alpha");
    assert_eq!(BoardTheme::default(), BoardTheme::Blue);
}

#[test]
fn variations_of_an_opening() {
    assert!(PickListWrapper::<Variation>::get_variations(Language::English, None).is_empty());
    let v = PickListWrapper::<Variation>::get_variations(Language::English, Some(&Openings::Sicilian));
    assert!(!v.is_empty());
    assert!(v.iter().all(|w| w.item.family == Openings::Sicilian));
    let w = PickListWrapper::new_variation(Language::Spanish, Variation::any());
    assert_eq!(w.lang, Language::Spanish);
}

#[test]
fn picker_entries_compare_by_item() {
    let a = PickListWrapper::new_lang(Language::English, Language::French);
    let b = PickListWrapper::new_lang(Language::Chinese, Language::French);
    let c = PickListWrapper::new_lang(Language::English, Language::Spanish);
    assert!(a == b);
    assert!(a != c);
    let v1 = PickListWrapper::new_variation(Language::English, Variation::any());
    let v2 = PickListWrapper::new_variation(Language::French, Variation::any());
    assert!(v1 == v2);
    let t1 = PickListWrapper::new_theme(Language::English, TaticsThemes::Fork);
    let t2 = PickListWrapper::new_theme(Language::English, TaticsThemes::Pin);
    assert!(t1 != t2);
}

#[test]
fn tab_titles() {
    assert_eq!(offline_chess_puzzles::board_view::TabId::Search.title_key(), "search");
    assert_eq!(offline_chess_puzzles::board_view::TabId::CurrentPuzzle.title_key(), "current_puzzle");
}

#[test]
fn opening_tags_are_distinct_and_empty_only_for_any() {
    let all = Openings::all();
    for (i, a) in all.iter().enumerate() {
        assert_eq!(a.get_field_name().is_empty(), *a == Openings::Any);
        assert!(!a.get_field_name().contains(' '));
        for b in all.iter().skip(i + 1) {
            assert_ne!(a.get_field_name(), b.get_field_name());
        }
    }
    assert_eq!(Openings::CaroKann.get_field_name(), "Caro-Kann_Defense");
    assert_eq!(Openings::Reti.get_field_name(), "Reti_Opening");
}

#[test]
fn variation_lists_start_with_any_and_carry_the_opening_tag() {
    for o in Openings::all() {
        let v = PickListWrapper::<Variation>::get_variations(Language::French, Some(&o));
        assert_eq!(v[0].item.name, "Any_Variation");
        let prefix = format!("{}_", o.get_field_name());
        for (i, w) in v.iter().enumerate() {
            assert_eq!(w.lang, Language::French);
            if i > 0 {
                assert!(w.item.name.starts_with(&prefix));
                assert_eq!(w.item.family, o);
            }
            for x in v.iter().skip(i + 1) {
                assert_ne!(w.item.name, x.item.name);
            }
        }
    }
    let dutch = PickListWrapper::<Variation>::get_variations(Language::English, Some(&Openings::Dutch));
    assert_eq!(dutch.len(), 1);
    assert_eq!(dutch[0].item.family, Openings::Any);
}
