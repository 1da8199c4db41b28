//! Translated user-interface strings and the active UI language.
//!
//! The language in force is held by a [`Locale`] value that callers own;
//! every lookup goes through it.

pub mod en;
pub mod keys;
pub mod zh_cn;
pub mod zh_tw;

use vstd::prelude::*;

use crate::text::{replace, replace_all, str_eq, to_wide, wide};

verus! {

// ---------------------------------------------------------------------------
// Specifications
// ---------------------------------------------------------------------------

/// The language codes that have a table of their own.
pub open spec fn is_supported(code: Seq<char>) -> bool {
    code == "en"@ || code == "zh_CN"@ || code == "zh_TW"@
}

/// The supported code a requested language tag resolves to; anything
/// unrecognised resolves to English.
pub open spec fn normalized(lang: Seq<char>) -> Seq<char> {
    if lang == "zh_CN"@ || lang == "zh-CN"@ || lang == "zh-Hans"@ || lang == "zh"@ {
        "zh_CN"@
    } else if lang == "zh_TW"@ || lang == "zh-TW"@ || lang == "zh-Hant"@ {
        "zh_TW"@
    } else {
        "en"@
    }
}

/// The text shown for `key` under language code `lang`.
pub open spec fn translated(lang: Seq<char>, key: Seq<char>) -> Seq<char> {
    if lang == "zh_CN"@ {
        zh_cn::text(key)
    } else if lang == "zh_TW"@ {
        zh_tw::text(key)
    } else {
        en::text(key)
    }
}

/// The offered languages in menu order: (code, label key).
pub open spec fn language_list() -> Seq<(Seq<char>, Seq<char>)> {
    seq![("en"@, keys::LANG_EN@), ("zh_CN"@, keys::LANG_ZH_CN@), ("zh_TW"@, keys::LANG_ZH_TW@)]
}

/// The language a Windows UI language identifier selects: any Chinese
/// primary language maps to Chinese, simplified only for the
/// simplified sub-language; everything else is English.
pub open spec fn language_of_langid(lang_id: u16) -> Seq<char> {
    let primary = lang_id % 1024;
    let sub = (lang_id / 1024) % 64;
    if primary == 4 && sub == 2 {
        "zh_CN"@
    } else if primary == 4 {
        "zh_TW"@
    } else {
        "en"@
    }
}

// ---------------------------------------------------------------------------
// The active language
// ---------------------------------------------------------------------------

/// The UI language in force. It always holds one of the supported codes.
#[derive(Debug, Clone, Copy)]
pub struct Locale {
    code: &'static str,
}

impl Locale {
    #[verifier::type_invariant]
    spec fn supported(self) -> bool {
        is_supported(self.code@)
    }

    /// The language code this locale holds.
    pub closed spec fn code(self) -> Seq<char> {
        self.code@
    }

    /// A locale set to English, the language used before any choice is made.
    pub fn new() -> (l: Locale)
        ensures
            l.code() == "en"@,
    {
        Locale { code: "en" }
    }
}

/// Resolve a requested language tag (`"en"`, `"zh-CN"`, `"zh_TW"`, ...)
/// to one of the supported codes.
pub fn normalize_lang(lang: &str) -> (r: &'static str)
    ensures
        r@ == normalized(lang@),
{
    if str_eq(lang, "zh_CN") || str_eq(lang, "zh-CN") || str_eq(lang, "zh-Hans") || str_eq(
        lang,
        "zh",
    ) {
        "zh_CN"
    } else if str_eq(lang, "zh_TW") || str_eq(lang, "zh-TW") || str_eq(lang, "zh-Hant") {
        "zh_TW"
    } else {
        "en"
    }
}

/// Switch `locale` to the language `lang` asks for; unrecognised tags
/// select English.
pub fn init(locale: &mut Locale, lang: &str)
    ensures
        final(locale).code() == normalized(lang@),
{
    let code = normalize_lang(lang);
    *locale = Locale { code };
}

/// The current language code.
pub fn lang(locale: &Locale) -> (r: &'static str)
    ensures
        r@ == locale.code(),
        is_supported(r@),
{
    proof {
        use_type_invariant(locale);
    }
    locale.code
}

/// Look `key` up in the table of language `lang`; codes without a table of
/// their own use the English one.
pub fn translate(lang: &str, key: &'static str) -> (r: &'static str)
    ensures
        r@ == translated(lang@, key@),
{
    if str_eq(lang, "zh_CN") {
        zh_cn::translate(key)
    } else if str_eq(lang, "zh_TW") {
        zh_tw::translate(key)
    } else {
        en::translate(key)
    }
}

/// The text for `key` in the current language.
pub fn t(locale: &Locale, key: &'static str) -> (r: &'static str)
    ensures
        r@ == translated(locale.code(), key@),
{
    translate(lang(locale), key)
}

/// The text for `key` in the current language as null-terminated UTF-16.
pub fn tw(locale: &Locale, key: &'static str) -> (r: Vec<u16>)
    ensures
        r@ == wide(translated(locale.code(), key@)),
{
    to_wide(t(locale, key))
}

/// The template for `key` in the current language with every `{}`
/// replaced by `name`.
pub fn t_named(locale: &Locale, key: &'static str, name: &str) -> (r: String)
    ensures
        r@ == replace_all(translated(locale.code(), key@), "{}"@, name@),
{
    proof {
        reveal_strlit("{}");
    }
    replace(translate(lang(locale), key), "{}", name)
}

/// [`t_named`] as null-terminated UTF-16.
pub fn tw_named(locale: &Locale, key: &'static str, name: &str) -> (r: Vec<u16>)
    ensures
        r@ == wide(replace_all(translated(locale.code(), key@), "{}"@, name@)),
{
    let s = t_named(locale, key, name);
    to_wide(s.as_str())
}

/// The supported languages: (code, label key).
pub fn languages() -> (r: &'static [(&'static str, &'static str)])
    ensures
        r@.len() == language_list().len(),
        forall|i: int|
            0 <= i < r@.len() ==> (#[trigger] r@[i]).0@ == language_list()[i].0 && r@[i].1@
                == language_list()[i].1,
{
    &[("en", keys::LANG_EN), ("zh_CN", keys::LANG_ZH_CN), ("zh_TW", keys::LANG_ZH_TW)]
}

/// The UI language selected by a Windows language identifier.
pub fn language_for_langid(lang_id: u16) -> (r: &'static str)
    ensures
        r@ == language_of_langid(lang_id),
{
    let primary = lang_id & 0x3ff;
    let sub = (lang_id >> 10) & 0x3f;
    assert(lang_id & 0x3ff == lang_id % 1024) by (bit_vector);
    assert((lang_id >> 10) & 0x3f == (lang_id / 1024) % 64) by (bit_vector);
    if primary == 4 && sub == 2 {
        "zh_CN"
    } else if primary == 4 {
        "zh_TW"
    } else {
        "en"
    }
}

// ---------------------------------------------------------------------------
// Laws
// ---------------------------------------------------------------------------

/// The language-tag literals above are pairwise different.
proof fn lemma_tags_distinct()
    ensures
        "en"@ != "zh_CN"@,
        "en"@ != "zh_TW"@,
        "zh_CN"@ != "zh_TW"@,
        "zh_CN"@ != "zh-CN"@ && "zh_CN"@ != "zh-Hans"@ && "zh_CN"@ != "zh"@,
        "zh_TW"@ != "zh-TW"@ && "zh_TW"@ != "zh-Hant"@,
        "zh_TW"@ != "zh-CN"@ && "zh_TW"@ != "zh-Hans"@ && "zh_TW"@ != "zh"@,
        "en"@ != "zh-CN"@ && "en"@ != "zh-Hans"@ && "en"@ != "zh"@ && "en"@ != "zh-TW"@ && "en"@
            != "zh-Hant"@,
{
    reveal_strlit("en");
    reveal_strlit("zh_CN");
    reveal_strlit("zh-CN");
    reveal_strlit("zh-Hans");
    reveal_strlit("zh");
    reveal_strlit("zh_TW");
    reveal_strlit("zh-TW");
    reveal_strlit("zh-Hant");
    let e = "en"@;
    let c = "zh_CN"@;
    let w = "zh_TW"@;
    assert(e.len() != c.len());
    assert(e.len() != w.len());
    assert(c[3] != w[3]);
    assert(c[2] != "zh-CN"@[2]);
    assert(c.len() != "zh-Hans"@.len());
    assert(c.len() != "zh"@.len());
    assert(w[2] != "zh-TW"@[2]);
    assert(w.len() != "zh-Hant"@.len());
    assert(w[2] != "zh-CN"@[2]);
    assert(w.len() != "zh-Hans"@.len());
    assert(w.len() != "zh"@.len());
    assert(e[1] != "zh"@[1]);
    assert(e.len() != "zh-CN"@.len());
    assert(e.len() != "zh-Hans"@.len());
    assert(e.len() != "zh-TW"@.len());
    assert(e.len() != "zh-Hant"@.len());
}

/// A supported code resolves to itself.
pub proof fn lemma_supported_is_fixed(code: Seq<char>)
    requires
        is_supported(code),
    ensures
        normalized(code) == code,
{
    lemma_tags_distinct();
}

/// Every language tag resolves to a supported code, and resolving a
/// resolved code again changes nothing.
pub proof fn lemma_normalize_idempotent(lang: Seq<char>)
    ensures
        is_supported(normalized(lang)),
        normalized(normalized(lang)) == normalized(lang),
{
    lemma_tags_distinct();
}

/// Every offered language is a supported code that resolves to itself,
/// and every supported code is offered.
pub proof fn lemma_languages_cover_supported()
    ensures
        forall|i: int|
            0 <= i < language_list().len() ==> is_supported(#[trigger] language_list()[i].0)
                && normalized(language_list()[i].0) == language_list()[i].0,
        forall|code: Seq<char>|
            is_supported(code) ==> exists|i: int|
                0 <= i < language_list().len() && #[trigger] language_list()[i].0 == code,
{
    lemma_tags_distinct();
    assert(language_list()[0].0 == "en"@);
    assert(language_list()[1].0 == "zh_CN"@);
    assert(language_list()[2].0 == "zh_TW"@);
    assert forall|i: int| 0 <= i < language_list().len() implies is_supported(
        #[trigger] language_list()[i].0,
    ) && normalized(language_list()[i].0) == language_list()[i].0 by {
        if i == 0 {
            assert(language_list()[i].0 == "en"@);
        } else if i == 1 {
            assert(language_list()[i].0 == "zh_CN"@);
        } else {
            assert(language_list()[i].0 == "zh_TW"@);
        }
    }
    assert forall|code: Seq<char>| is_supported(code) implies exists|i: int|
        0 <= i < language_list().len() && #[trigger] language_list()[i].0 == code by {
        if code == "en"@ {
            assert(language_list()[0].0 == code);
        } else if code == "zh_CN"@ {
            assert(language_list()[1].0 == code);
        } else {
            assert(language_list()[2].0 == code);
        }
    }
}

} // verus!
