//! Languages of the interface and the translation of message keys (Fluent).
use vstd::prelude::*;
use vstd::string::*;
use vstd::std_specs::cmp::PartialEqSpec;

verus! {

/// The languages the interface is translated to.
#[derive(Debug, Clone, Copy, PartialEq, Eq, Structural)]
pub enum Language {
    English,
    Portuguese,
    Spanish,
    French,
    Chinese,
}

/// Every language, in the order the language picker lists them.
pub open spec fn all_languages() -> Seq<Language> {
    seq![
        Language::English,
        Language::Portuguese,
        Language::Spanish,
        Language::French,
        Language::Chinese,
    ]
}

impl Language {
    /// Every language, in the order the language picker lists them.
    pub fn all() -> (r: Vec<Language>)
        ensures
            r@ == all_languages(),
    {
        vec![
            Language::English,
            Language::Portuguese,
            Language::Spanish,
            Language::French,
            Language::Chinese,
        ]
    }

    /// The key under which a language's own name is translated.
    pub open spec fn spec_key(self) -> Seq<char> {
        match self {
            Language::English => "english"@,
            Language::Portuguese => "portuguese"@,
            Language::Spanish => "spanish"@,
            Language::French => "french"@,
            Language::Chinese => "chinese"@,
        }
    }

    /// The locale that the messages of a language are formatted for (the Chinese
    /// messages are formatted with the French locale).
    pub open spec fn spec_locale(self) -> Seq<char> {
        match self {
            Language::English => "en-US"@,
            Language::Portuguese => "pt-BR"@,
            Language::Spanish => "es"@,
            Language::French => "fr"@,
            Language::Chinese => "fr"@,
        }
    }

    /// The locale that the messages of this language are formatted for.
    pub fn locale(&self) -> (r: &'static str)
        ensures
            r@ == self.spec_locale(),
    {
        match self {
            Language::English => "en-US",
            Language::Portuguese => "pt-BR",
            Language::Spanish => "es",
            Language::French => "fr",
            Language::Chinese => "fr",
        }
    }

    /// Where the Fluent file of a language lies, below the translations directory.
    pub open spec fn spec_translation_file(self) -> Seq<char> {
        match self {
            Language::English => "en-US/ocp.ftl"@,
            Language::Portuguese => "pt-BR/ocp.ftl"@,
            Language::Spanish => "es/ocp.ftl"@,
            Language::French => "fr/ocp.ftl"@,
            Language::Chinese => "cn/ocp.ftl"@,
        }
    }

    /// The Fluent file of this language, below the translations directory.
    pub fn translation_file(&self) -> (r: &'static str)
        ensures
            r@ == self.spec_translation_file(),
    {
        match self {
            Language::English => "en-US/ocp.ftl",
            Language::Portuguese => "pt-BR/ocp.ftl",
            Language::Spanish => "es/ocp.ftl",
            Language::French => "fr/ocp.ftl",
            Language::Chinese => "cn/ocp.ftl",
        }
    }
}

/// Items that a picker shows under a translated name: the translation key of the item.
pub trait DisplayTranslated {
    /// The translation key of the item.
    spec fn spec_tr_key(&self) -> Seq<char>;

    /// The translation key of the item.
    fn to_str_tr(&self) -> (r: &str)
        ensures
            r@ == self.spec_tr_key(),
    ;
}

impl DisplayTranslated for Language {
    open spec fn spec_tr_key(&self) -> Seq<char> {
        self.spec_key()
    }

    fn to_str_tr(&self) -> (r: &str) {
        match self {
            Language::English => "english",
            Language::Portuguese => "portuguese",
            Language::Spanish => "spanish",
            Language::French => "french",
            Language::Chinese => "chinese",
        }
    }
}

/// The text of message `key` that the Fluent source `source` gives in `locale`
/// (`None` when the source does not parse or has no such message with a value).
pub uninterp spec fn fluent_message(locale: Seq<char>, source: Seq<char>, key: Seq<char>) -> Option<
    Seq<char>,
>;

/// Builds a `fluent_bundle::FluentBundle` for `locale` from the Fluent text `source`
/// (`FluentResource::try_new`, `add_resource`) and formats the value of message `key`
/// (`get_message`, `value`, `format_pattern` with no arguments). The contract only names
/// the result: what Fluent produces from a source is the crate's business.
#[verifier::external_body]
fn format_message(locale: &str, source: &str, key: &str) -> (r: Option<String>)
    ensures
        match r {
            Some(s) => fluent_message(locale@, source@, key@) == Some(s@),
            None => fluent_message(locale@, source@, key@) is None,
        },
{
    let langid: unic_langid::LanguageIdentifier = locale.parse().ok()?;
    let resource = fluent_bundle::FluentResource::try_new(source.to_string()).ok()?;
    let mut bundle = fluent_bundle::FluentBundle::new(vec![langid]);
    bundle.add_resource(resource).ok()?;
    let pattern = bundle.get_message(key)?.value()?;
    let mut errors = vec![];
    Some(bundle.format_pattern(pattern, None, &mut errors).to_string())
}

/// The Fluent sources of the interface, one per language (as read from the
/// translation files).
#[derive(Debug)]
pub struct Translations {
    pub english: String,
    pub portuguese: String,
    pub spanish: String,
    pub french: String,
    pub chinese: String,
}

impl Translations {
    /// The Fluent source of `lang`.
    pub open spec fn spec_source(self, lang: Language) -> Seq<char> {
        match lang {
            Language::English => self.english@,
            Language::Portuguese => self.portuguese@,
            Language::Spanish => self.spanish@,
            Language::French => self.french@,
            Language::Chinese => self.chinese@,
        }
    }

    /// The Fluent source of `lang`.
    pub fn source(&self, lang: &Language) -> (r: &String)
        ensures
            r@ == self.spec_source(*lang),
    {
        match lang {
            Language::English => &self.english,
            Language::Portuguese => &self.portuguese,
            Language::Spanish => &self.spanish,
            Language::French => &self.french,
            Language::Chinese => &self.chinese,
        }
    }
}

/// The translation of `key` into `lang`.
pub open spec fn spec_tr(t: Translations, lang: Language, key: Seq<char>) -> Option<Seq<char>> {
    fluent_message(lang.spec_locale(), t.spec_source(lang), key)
}

/// The translation of the message `key` into `lang`, formatted from that language's
/// Fluent source with that language's locale. A message missing from the source (or a
/// source Fluent cannot read) gives `None`, for the caller to handle, rather than stopping
/// the program.
pub fn tr(translations: &Translations, lang: &Language, key: &str) -> (r: Option<String>)
    ensures
        match r {
            Some(s) => spec_tr(*translations, *lang, key@) == Some(s@),
            None => spec_tr(*translations, *lang, key@) is None,
        },
{
    format_message(lang.locale(), translations.source(lang).as_str(), key)
}

/// An item of a picker together with the language its name is shown in.
#[derive(Debug, Clone)]
pub struct PickListWrapper<D: DisplayTranslated> {
    pub lang: Language,
    pub item: D,
}

impl<D: DisplayTranslated> PickListWrapper<D> {
    /// The name shown for the item: its key translated into the wrapper's language.
    pub fn label(&self, translations: &Translations) -> (r: Option<String>)
        ensures
            match r {
                Some(s) => spec_tr(*translations, self.lang, self.item.spec_tr_key()) == Some(s@),
                None => spec_tr(*translations, self.lang, self.item.spec_tr_key()) is None,
            },
    {
        tr(translations, &self.lang, self.item.to_str_tr())
    }
}

impl<D: DisplayTranslated + PartialEq> PartialEq for PickListWrapper<D> {
    /// Two entries of a picker are the same when they stand for the same item, whatever
    /// language they are shown in.
    fn eq(&self, other: &Self) -> (r: bool) {
        self.item == other.item
    }
}

impl<D: DisplayTranslated + PartialEq> vstd::std_specs::cmp::PartialEqSpecImpl for PickListWrapper<D> {
    open spec fn obeys_eq_spec() -> bool {
        D::obeys_eq_spec()
    }

    open spec fn eq_spec(&self, other: &Self) -> bool {
        self.item.eq_spec(&other.item)
    }
}

/// Two entries of a picker are equal exactly when their items are, whatever languages they
/// are shown in.
pub proof fn lemma_picker_equality_ignores_language<D: DisplayTranslated + PartialEq>(
    a: PickListWrapper<D>,
    b: PickListWrapper<D>,
)
    ensures
        a.eq_spec(&b) == a.item.eq_spec(&b.item),
        PickListWrapper::<D>::obeys_eq_spec() == D::obeys_eq_spec(),
{
}

impl PickListWrapper<Language> {
    /// Every language, each shown in the language `lang`.
    pub fn get_langs(lang: Language) -> (r: Vec<PickListWrapper<Language>>)
        ensures
            r.len() == all_languages().len(),
            forall|i: int|
                0 <= i < r.len() ==> #[trigger] r[i].lang == lang && r[i].item == all_languages()[i],
    {
        let all = Language::all();
        let mut r: Vec<PickListWrapper<Language>> = Vec::new();
        let mut i: usize = 0;
        while i < all.len()
            invariant
                i <= all.len(),
                all@ == all_languages(),
                r.len() == i,
                forall|j: int| 0 <= j < i ==> #[trigger] r[j].lang == lang && r[j].item == all@[j],
            decreases all.len() - i,
        {
            r.push(PickListWrapper { lang, item: all[i] });
            i = i + 1;
        }
        r
    }

    /// The language `item` shown in the language `lang`.
    pub fn new_lang(lang: Language, item: Language) -> (r: Self)
        ensures
            r.lang == lang,
            r.item == item,
    {
        Self { lang, item }
    }
}

/// The messages of each language come from that language's own Fluent source, formatted
/// with its own locale (Chinese uses the French one); no other language's source is read.
pub proof fn lemma_translation_reads_its_own_source(t: Translations, key: Seq<char>)
    ensures
        spec_tr(t, Language::English, key) == fluent_message("en-US"@, t.english@, key),
        spec_tr(t, Language::Portuguese, key) == fluent_message("pt-BR"@, t.portuguese@, key),
        spec_tr(t, Language::Spanish, key) == fluent_message("es"@, t.spanish@, key),
        spec_tr(t, Language::French, key) == fluent_message("fr"@, t.french@, key),
        spec_tr(t, Language::Chinese, key) == fluent_message("fr"@, t.chinese@, key),
{
}

} // verus!
