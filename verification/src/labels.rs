//! Menu texts, looked up in a catalog of localized strings.

use vstd::prelude::*;
use rust_i18n::SimpleBackend;

verus! {

#[verifier::external_type_specification]
#[verifier::external_body]
pub struct ExSimpleBackend(SimpleBackend);

/// What a `rust_i18n::SimpleBackend` holds: for each locale, the text stored
/// under each key.
pub uninterp spec fn catalog_texts(catalog: &SimpleBackend) -> Map<Seq<char>, Map<Seq<char>, Seq<char>>>;

/// Whether a catalog holds a text for `key` in `locale`.
pub open spec fn has_text(catalog: &SimpleBackend, locale: Seq<char>, key: Seq<char>) -> bool {
    catalog_texts(catalog).contains_key(locale) && catalog_texts(catalog)[locale].contains_key(key)
}

/// Calls `rust_i18n::Backend::translate` on a `SimpleBackend`. The backend
/// finds the table of `locale`, then the entry of `key` in it, and hands out
/// the stored text; it answers `None` where either is absent.
#[verifier::external_body]
fn stored_text<'a>(catalog: &'a SimpleBackend, locale: &str, key: &str) -> (found: Option<&'a str>)
    ensures
        found.is_some() == has_text(catalog, locale@, key@),
        found.is_some() ==> found.unwrap()@ == catalog_texts(catalog)[locale@][key@],
{
    rust_i18n::Backend::translate(catalog, locale, key)
}

/// Calls `rust_i18n::locale`, which reads the locale that the process
/// currently has. Nothing is claimed of the text that comes back.
#[verifier::external_body]
pub(crate) fn active_locale() -> (lang: String)
{
    rust_i18n::locale().to_string()
}

/// Calls `rust_i18n::set_locale`, which replaces the locale of the process.
#[verifier::external_body]
pub(crate) fn activate_locale(lang: &str)
{
    rust_i18n::set_locale(lang)
}

/// The locale whose texts stand in for one that another locale lacks.
pub const DEFAULT_LOCALE: &'static str = "en_US";

/// The texts that the tray shows.
#[derive(Clone, Copy, Debug, PartialEq, Eq, Structural)]
pub enum LabelKey {
    HideWindow,
    ShowWindow,
    PauseSync,
    ResumeSync,
    Quit,
    AppName,
}

impl LabelKey {
    /// The key under which catalogs store the text. It is the English text
    /// itself.
    pub open spec fn text_spec(self) -> Seq<char> {
        match self {
            LabelKey::HideWindow => "Hide Window"@,
            LabelKey::ShowWindow => "Show Window"@,
            LabelKey::PauseSync => "Pause Sync"@,
            LabelKey::ResumeSync => "Resume Sync"@,
            LabelKey::Quit => "Quit"@,
            LabelKey::AppName => "CloudBoard"@,
        }
    }

    pub fn text(self) -> (key: &'static str)
        ensures
            key@ == self.text_spec(),
    {
        match self {
            LabelKey::HideWindow => "Hide Window",
            LabelKey::ShowWindow => "Show Window",
            LabelKey::PauseSync => "Pause Sync",
            LabelKey::ResumeSync => "Resume Sync",
            LabelKey::Quit => "Quit",
            LabelKey::AppName => "CloudBoard",
        }
    }

    /// No key is the empty text.
    pub proof fn lemma_text_nonempty(self)
        ensures
            self.text_spec().len() > 0,
    {
        reveal_strlit("Hide Window");
        reveal_strlit("Show Window");
        reveal_strlit("Pause Sync");
        reveal_strlit("Resume Sync");
        reveal_strlit("Quit");
        reveal_strlit("CloudBoard");
    }
}

/// Whether a catalog holds a text for `key` in `locale` that is not empty.
pub open spec fn has_usable_text(catalog: &SimpleBackend, locale: Seq<char>, key: Seq<char>) -> bool {
    has_text(catalog, locale, key) && catalog_texts(catalog)[locale][key].len() > 0
}

/// The text shown for a key: the one that the catalog holds for the locale;
/// where that is absent or empty, the one it holds for the default locale;
/// where that is absent or empty too, the key itself.
pub open spec fn label_spec(catalog: &SimpleBackend, locale: Seq<char>, key: LabelKey) -> Seq<char> {
    if has_usable_text(catalog, locale, key.text_spec()) {
        catalog_texts(catalog)[locale][key.text_spec()]
    } else if has_usable_text(catalog, DEFAULT_LOCALE@, key.text_spec()) {
        catalog_texts(catalog)[DEFAULT_LOCALE@][key.text_spec()]
    } else {
        key.text_spec()
    }
}

/// A label is never empty, whatever the catalog holds and whichever locale is
/// asked for.
pub proof fn lemma_label_nonempty(catalog: &SimpleBackend, locale: Seq<char>, key: LabelKey)
    ensures
        label_spec(catalog, locale, key).len() > 0,
{
    key.lemma_text_nonempty();
}

/// The text of one locale, if the catalog holds one that is not empty.
fn usable_text<'a>(catalog: &'a SimpleBackend, locale: &str, key: &str) -> (found: Option<&'a str>)
    ensures
        found.is_some() == has_usable_text(catalog, locale@, key@),
        found.is_some() ==> found.unwrap()@ == catalog_texts(catalog)[locale@][key@],
{
    match stored_text(catalog, locale, key) {
        Some(text) => if text.is_empty() {
            None
        } else {
            Some(text)
        },
        None => None,
    }
}

/// Resolves a label against a catalog for a locale.
pub fn label(catalog: &SimpleBackend, locale: &str, key: LabelKey) -> (text: String)
    ensures
        text@ == label_spec(catalog, locale@, key),
        text@.len() > 0,
{
    proof {
        lemma_label_nonempty(catalog, locale@, key);
    }
    let name = key.text();
    match usable_text(catalog, locale, name) {
        Some(text) => text.to_owned(),
        None => match usable_text(catalog, DEFAULT_LOCALE, name) {
            Some(text) => text.to_owned(),
            None => name.to_owned(),
        },
    }
}

} // verus!
