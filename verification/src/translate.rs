//! Looking up translations, with English as the fallback.

use vstd::prelude::*;
use crate::catalog::{catalog, strings_view, CatalogView, Catalogs};
use crate::decimal::{decimal, decimal_string};
use crate::key::Key;
use crate::locale::Locale;
use crate::template::{
    arguments_view, fill_template, fill_template_str, lemma_fill_permuted_arguments,
    lemma_fill_unmatched, no_argument_matches,
};

verus! {

/// The translation of `key` in `locale`, else in English, else empty.
pub open spec fn spec_text_in(catalogs: Seq<CatalogView>, locale: Locale, key: Key) -> Seq<char> {
    match catalogs[locale.spec_index() as int].text(key) {
        Some(text) => text,
        None => match catalogs[Locale::En.spec_index() as int].text(key) {
            Some(text) => text,
            None => Seq::empty(),
        },
    }
}

/// The template behind `key` in `locale`, with `arguments` substituted.
pub open spec fn spec_fill_in(
    catalogs: Seq<CatalogView>,
    locale: Locale,
    key: Key,
    arguments: Seq<(Seq<char>, Seq<char>)>,
) -> Seq<char> {
    fill_template(spec_text_in(catalogs, locale, key), arguments)
}

/// The label of palette color `index` in `locale`: the catalog's label, or
/// the fallback template filled with the one-based color number.
pub open spec fn spec_palette_label_in(
    catalogs: Seq<CatalogView>,
    locale: Locale,
    index: nat,
) -> Seq<char> {
    let labels = catalogs[locale.spec_index() as int].palette_labels;
    if index < labels.len() {
        labels[index as int]
    } else {
        spec_fill_in(
            catalogs,
            locale,
            Key::TplPaletteFallbackLabel,
            seq![(seq!['i', 'n', 'd', 'e', 'x'], decimal(index + 1))],
        )
    }
}

/// A partial catalog degrades to readable text instead of blank UI: when
/// English translates `key` and no catalog holds an empty translation of it,
/// `key` reads as non-empty text in every locale.
pub proof fn lemma_text_never_blank(catalogs: Seq<CatalogView>, locale: Locale, key: Key)
    requires
        catalogs.len() == crate::locale::LOCALE_COUNT,
        catalogs[Locale::En.spec_index() as int].text(key) is Some,
        forall|i: int|
            0 <= i < catalogs.len() ==> match (#[trigger] catalogs[i]).text(key) {
                Some(text) => text.len() > 0,
                None => true,
            },
    ensures
        spec_text_in(catalogs, locale, key).len() > 0,
{
    assert(locale.spec_index() < crate::locale::LOCALE_COUNT);
}

/// When no argument names a placeholder of the template behind `key`, the
/// filled text is the template itself.
pub proof fn lemma_fill_in_unmatched(
    catalogs: Seq<CatalogView>,
    locale: Locale,
    key: Key,
    arguments: Seq<(Seq<char>, Seq<char>)>,
)
    requires
        no_argument_matches(spec_text_in(catalogs, locale, key), arguments),
    ensures
        spec_fill_in(catalogs, locale, key, arguments) == spec_text_in(catalogs, locale, key),
{
    lemma_fill_unmatched(spec_text_in(catalogs, locale, key), arguments);
}

/// Passing arguments with distinct names in another order fills the template
/// behind `key` the same way.
pub proof fn lemma_fill_in_permuted(
    catalogs: Seq<CatalogView>,
    locale: Locale,
    key: Key,
    a: Seq<(Seq<char>, Seq<char>)>,
    b: Seq<(Seq<char>, Seq<char>)>,
)
    requires
        a.to_multiset() == b.to_multiset(),
        forall|i: int, j: int| 0 <= i < j < a.len() ==> (#[trigger] a[i]).0 != (#[trigger] a[j]).0,
    ensures
        spec_fill_in(catalogs, locale, key, a) == spec_fill_in(catalogs, locale, key, b),
{
    lemma_fill_permuted_arguments(spec_text_in(catalogs, locale, key), a, b);
}

/// Return the translation of `key` in `locale`.
///
/// Falls back to English when a key is absent, so a partial catalog degrades
/// to readable text instead of blank UI.
pub fn text_in<'a>(catalogs: &'a Catalogs, locale: Locale, key: Key) -> (r: &'a str)
    ensures
        r@ == spec_text_in(catalogs@, locale, key),
{
    if let Some(value) = catalog(catalogs, locale).get(key) {
        return value;
    }
    match catalog(catalogs, Locale::En).get(key) {
        Some(value) => value,
        None => {
            proof {
                reveal_strlit("");
            }
            ""
        },
    }
}

/// Substitute `{name}` placeholders in the `locale` template behind `key`.
pub fn fill_in(catalogs: &Catalogs, locale: Locale, key: Key, arguments: &[(&str, &str)]) -> (r:
    String)
    ensures
        r@ == spec_fill_in(catalogs@, locale, key, arguments_view(arguments@)),
{
    let template = text_in(catalogs, locale, key);
    fill_template_str(template, arguments)
}

/// Return the label for the palette color at `index` in `locale`.
pub fn palette_label_in(catalogs: &Catalogs, locale: Locale, index: usize) -> (r: String)
    requires
        index < usize::MAX,
    ensures
        r@ == spec_palette_label_in(catalogs@, locale, index as nat),
{
    let labels = catalog(catalogs, locale).palette_labels();
    if index < labels.len() {
        assert(strings_view(labels@)[index as int] == labels@[index as int]@);
        return labels[index].clone();
    }
    let display_index = decimal_string(index + 1);
    let arguments = [("index", display_index.as_str())];
    proof {
        reveal_strlit("index");
        assert("index"@ =~= seq!['i', 'n', 'd', 'e', 'x']);
        assert(arguments@.len() == 1);
        assert(arguments@[0].0@ == "index"@);
        assert(arguments_view(arguments@) =~= seq![
            (seq!['i', 'n', 'd', 'e', 'x'], decimal((index + 1) as nat)),
        ]);
    }
    fill_in(catalogs, locale, Key::TplPaletteFallbackLabel, &arguments)
}

} // verus!
