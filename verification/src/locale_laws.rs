//! Laws relating the locale identifiers to each other.

use vstd::prelude::*;
use crate::locale::Locale;
use crate::tag::{
    is_tag_terminator, lemma_normalize_pointwise, lemma_split_after_sep, lemma_split_without_sep,
    normalize_char, normalize_chars, normalized_tag, subtags,
};
use crate::chars::{first_where, lemma_first_where_bounds, lemma_first_where_is};

verus! {

/// Decoding the index of a locale gives the locale back.
pub proof fn lemma_index_round_trip(locale: Locale)
    ensures
        Locale::spec_from_index(locale.spec_index() as int) == locale,
{
}

/// The index of a locale is its position in [`Locale::ALL`].
pub proof fn lemma_index_is_position(i: int)
    requires
        0 <= i < 10,
    ensures
        Locale::ALL@[i].spec_index() == i,
{
}

/// The tag of a locale has no `.` or `@`.
proof fn lemma_tag_is_whole(locale: Locale)
    ensures
        first_where(locale.spec_tag(), is_tag_terminator()) == locale.spec_tag().len(),
{
    let t = locale.spec_tag();
    lemma_first_where_is(t, is_tag_terminator(), t.len() as int);
}

/// Resolving the tag of a locale gives the locale back.
pub proof fn lemma_tag_round_trip(locale: Locale)
    ensures
        Locale::spec_from_tag(locale.spec_tag()) == locale,
{
    let t = locale.spec_tag();
    lemma_tag_is_whole(locale);
    assert(t.take(t.len() as int) =~= t);
    lemma_normalize_pointwise(t);
    let n = normalize_chars(t);
    assert(normalized_tag(t) == n);
    match locale {
        Locale::ZhCn => {
            assert(n =~= seq!['z', 'h'] + seq!['-'] + seq!['c', 'n']);
            lemma_split_without_sep(seq!['z', 'h'], '-');
            lemma_split_after_sep(seq!['z', 'h'], '-', seq!['c', 'n']);
            assert(subtags(t) =~= seq![seq!['z', 'h'], seq!['c', 'n']]);
            assert(!subtags(t).contains(seq!['h', 'a', 'n', 's']));
            assert(!subtags(t).contains(seq!['h', 'a', 'n', 't']));
            assert(!subtags(t).contains(seq!['t', 'w']));
            assert(!subtags(t).contains(seq!['h', 'k']));
            assert(!subtags(t).contains(seq!['m', 'o']));
        },
        Locale::ZhTw => {
            assert(n =~= seq!['z', 'h'] + seq!['-'] + seq!['t', 'w']);
            lemma_split_without_sep(seq!['z', 'h'], '-');
            lemma_split_after_sep(seq!['z', 'h'], '-', seq!['t', 'w']);
            assert(subtags(t) =~= seq![seq!['z', 'h'], seq!['t', 'w']]);
            assert(!subtags(t).contains(seq!['h', 'a', 'n', 's']));
            assert(!subtags(t).contains(seq!['h', 'a', 'n', 't']));
            assert(subtags(t)[1] == seq!['t', 'w']);
        },
        Locale::PtBr => {
            assert(n =~= seq!['p', 't'] + seq!['-'] + seq!['b', 'r']);
            lemma_split_without_sep(seq!['p', 't'], '-');
            lemma_split_after_sep(seq!['p', 't'], '-', seq!['b', 'r']);
            assert(subtags(t)[0] == seq!['p', 't']);
        },
        _ => {
            assert(n =~= t);
            lemma_split_without_sep(t, '-');
            assert(subtags(t)[0] == t);
        },
    }
}

/// Different locales have different tags.
pub proof fn lemma_tags_distinct(a: Locale, b: Locale)
    requires
        a != b,
    ensures
        a.spec_tag() != b.spec_tag(),
{
}

/// Different locales have different native names.
pub proof fn lemma_native_names_distinct(a: Locale, b: Locale)
    requires
        a != b,
    ensures
        a.spec_native_name() != b.spec_native_name(),
{
}

} // verus!

verus! {

/// Normalizing a character twice is normalizing it once, and normalization
/// neither creates nor removes a `.` or `@`.
proof fn lemma_normalize_char_stable(c: char)
    ensures
        normalize_char(normalize_char(c)) == normalize_char(c),
        (is_tag_terminator())(normalize_char(c)) == (is_tag_terminator())(c),
{
}

/// Resolving a tag depends only on its normalized language part: ASCII case,
/// `_` versus `-`, and an encoding or modifier suffix make no difference.
pub proof fn lemma_from_tag_normalized(tag: Seq<char>)
    ensures
        Locale::spec_from_tag(tag) == Locale::spec_from_tag(normalized_tag(tag)),
{
    let end = first_where(tag, is_tag_terminator());
    lemma_first_where_bounds(tag, is_tag_terminator());
    let prefix = tag.take(end as int);
    let n = normalized_tag(tag);
    lemma_normalize_pointwise(prefix);
    assert forall|j: int| 0 <= j < n.len() implies !(is_tag_terminator())(#[trigger] n[j]) by {
        lemma_normalize_char_stable(prefix[j]);
        assert(prefix[j] == tag[j]);
    }
    lemma_first_where_is(n, is_tag_terminator(), n.len() as int);
    assert(n.take(n.len() as int) =~= n);
    lemma_normalize_pointwise(n);
    assert forall|j: int| 0 <= j < n.len() implies #[trigger] normalize_chars(n)[j] == n[j] by {
        lemma_normalize_char_stable(prefix[j]);
    }
    assert(normalize_chars(n) =~= n);
    assert(normalized_tag(n) == n);
}

} // verus!

verus! {

/// Everything from the first `.` (the encoding, as in `zh_TW.UTF-8`) or `@`
/// (the modifier, as in `de_AT@euro`) on is ignored when resolving a tag.
pub proof fn lemma_from_tag_ignores_suffix(tag: Seq<char>, sep: char, suffix: Seq<char>)
    requires
        !tag.contains('.'),
        !tag.contains('@'),
        sep == '.' || sep == '@',
    ensures
        Locale::spec_from_tag(tag + seq![sep] + suffix) == Locale::spec_from_tag(tag),
{
    let full = tag + seq![sep] + suffix;
    assert forall|j: int| 0 <= j < tag.len() implies !(is_tag_terminator())(#[trigger] full[j]) by {
        assert(full[j] == tag[j]);
        if tag[j] == '.' {
            assert(tag.contains('.'));
        }
        if tag[j] == '@' {
            assert(tag.contains('@'));
        }
    }
    assert(full[tag.len() as int] == sep);
    lemma_first_where_is(full, is_tag_terminator(), tag.len() as int);
    assert forall|j: int| 0 <= j < tag.len() implies !(is_tag_terminator())(#[trigger] tag[j]) by {
        assert(full[j] == tag[j]);
    }
    lemma_first_where_is(tag, is_tag_terminator(), tag.len() as int);
    assert(full.take(tag.len() as int) =~= tag.take(tag.len() as int));
}

/// Each locale's settings tag and its name in its own language.
pub proof fn lemma_tags_and_endonyms()
    ensures
        Locale::En.spec_tag() == "en"@ && Locale::En.spec_native_name() == "English"@,
        Locale::ZhCn.spec_tag() == "zh-CN"@ && Locale::ZhCn.spec_native_name() == "简体中文"@,
        Locale::ZhTw.spec_tag() == "zh-TW"@ && Locale::ZhTw.spec_native_name() == "繁體中文"@,
        Locale::Ja.spec_tag() == "ja"@ && Locale::Ja.spec_native_name() == "日本語"@,
        Locale::Ko.spec_tag() == "ko"@ && Locale::Ko.spec_native_name() == "한국어"@,
        Locale::Fr.spec_tag() == "fr"@ && Locale::Fr.spec_native_name() == "Français"@,
        Locale::De.spec_tag() == "de"@ && Locale::De.spec_native_name() == "Deutsch"@,
        Locale::Es.spec_tag() == "es"@ && Locale::Es.spec_native_name() == "Español"@,
        Locale::PtBr.spec_tag() == "pt-BR"@ && Locale::PtBr.spec_native_name()
            == "Português (Brasil)"@,
        Locale::Ru.spec_tag() == "ru"@ && Locale::Ru.spec_native_name() == "Русский"@,
{
    reveal_strlit("en");
    reveal_strlit("English");
    reveal_strlit("zh-CN");
    reveal_strlit("简体中文");
    reveal_strlit("zh-TW");
    reveal_strlit("繁體中文");
    reveal_strlit("ja");
    reveal_strlit("日本語");
    reveal_strlit("ko");
    reveal_strlit("한국어");
    reveal_strlit("fr");
    reveal_strlit("Français");
    reveal_strlit("de");
    reveal_strlit("Deutsch");
    reveal_strlit("es");
    reveal_strlit("Español");
    reveal_strlit("pt-BR");
    reveal_strlit("Português (Brasil)");
    reveal_strlit("ru");
    reveal_strlit("Русский");
    assert(Locale::En.spec_tag() =~= "en"@);
    assert(Locale::En.spec_native_name() =~= "English"@);
    assert(Locale::ZhCn.spec_tag() =~= "zh-CN"@);
    assert(Locale::ZhCn.spec_native_name() =~= "简体中文"@);
    assert(Locale::ZhTw.spec_tag() =~= "zh-TW"@);
    assert(Locale::ZhTw.spec_native_name() =~= "繁體中文"@);
    assert(Locale::Ja.spec_tag() =~= "ja"@);
    assert(Locale::Ja.spec_native_name() =~= "日本語"@);
    assert(Locale::Ko.spec_tag() =~= "ko"@);
    assert(Locale::Ko.spec_native_name() =~= "한국어"@);
    assert(Locale::Fr.spec_tag() =~= "fr"@);
    assert(Locale::Fr.spec_native_name() =~= "Français"@);
    assert(Locale::De.spec_tag() =~= "de"@);
    assert(Locale::De.spec_native_name() =~= "Deutsch"@);
    assert(Locale::Es.spec_tag() =~= "es"@);
    assert(Locale::Es.spec_native_name() =~= "Español"@);
    assert(Locale::PtBr.spec_tag() =~= "pt-BR"@);
    assert(Locale::PtBr.spec_native_name() =~= "Português (Brasil)"@);
    assert(Locale::Ru.spec_tag() =~= "ru"@);
    assert(Locale::Ru.spec_native_name() =~= "Русский"@);
}

/// Membership in a two-element sequence.
proof fn lemma_pair_contains(a: Seq<char>, b: Seq<char>, x: Seq<char>)
    ensures
        seq![a, b].contains(x) <==> (x == a || x == b),
{
    if x == a {
        assert(seq![a, b][0] == x);
    }
    if x == b {
        assert(seq![a, b][1] == x);
    }
}

/// Chinese is resolved by script first and by region second: a `hans`
/// subtag gives Simplified Chinese, otherwise a `hant` subtag gives
/// Traditional Chinese, otherwise Traditional Chinese exactly when a subtag
/// is one of the regions `tw`, `hk` or `mo`, and Simplified Chinese for every
/// other region.
pub proof fn lemma_chinese_script_then_region(tag: Seq<char>)
    requires
        subtags(tag)[0] == "zh"@,
    ensures
        subtags(tag).contains("hans"@) ==> Locale::spec_from_tag(tag) == Locale::ZhCn,
        !subtags(tag).contains("hans"@) && subtags(tag).contains("hant"@)
            ==> Locale::spec_from_tag(tag) == Locale::ZhTw,
        !subtags(tag).contains("hans"@) && !subtags(tag).contains("hant"@) ==> (
        Locale::spec_from_tag(tag) == Locale::ZhTw <==> (subtags(tag).contains("tw"@)
            || subtags(tag).contains("hk"@) || subtags(tag).contains("mo"@))),
        !subtags(tag).contains("hans"@) && !subtags(tag).contains("hant"@) ==> (
        Locale::spec_from_tag(tag) == Locale::ZhCn <==> !(subtags(tag).contains("tw"@)
            || subtags(tag).contains("hk"@) || subtags(tag).contains("mo"@))),
{
    reveal_strlit("zh");
    reveal_strlit("hans");
    reveal_strlit("hant");
    reveal_strlit("tw");
    reveal_strlit("hk");
    reveal_strlit("mo");
    assert("zh"@ =~= seq!['z', 'h']);
    assert("hans"@ =~= seq!['h', 'a', 'n', 's']);
    assert("hant"@ =~= seq!['h', 'a', 'n', 't']);
    assert("tw"@ =~= seq!['t', 'w']);
    assert("hk"@ =~= seq!['h', 'k']);
    assert("mo"@ =~= seq!['m', 'o']);
}

/// A Chinese tag `zh-<region>` with a lower-case region: `hans` gives
/// Simplified Chinese, `hant`, `tw`, `hk` and `mo` give Traditional Chinese,
/// and every other region (such as `sg` or `cn`) gives Simplified Chinese.
pub proof fn lemma_chinese_region_tag(region: Seq<char>)
    requires
        forall|i: int| 0 <= i < region.len() ==> 'a' <= #[trigger] region[i] && region[i] <= 'z',
    ensures
        Locale::spec_from_tag("zh-"@ + region) == if region == "hant"@ || region == "tw"@ || region
            == "hk"@ || region == "mo"@ {
            Locale::ZhTw
        } else {
            Locale::ZhCn
        },
{
    reveal_strlit("zh-");
    reveal_strlit("hans");
    reveal_strlit("hant");
    reveal_strlit("tw");
    reveal_strlit("hk");
    reveal_strlit("mo");
    let zh = seq!['z', 'h'];
    let t = "zh-"@ + region;
    assert(t =~= zh + seq!['-'] + region);
    assert forall|j: int| 0 <= j < t.len() implies !(is_tag_terminator())(#[trigger] t[j])
        && normalize_char(t[j]) == t[j] by {
        if j >= 3 {
            assert(t[j] == region[j - 3]);
        }
    }
    lemma_first_where_is(t, is_tag_terminator(), t.len() as int);
    assert(t.take(t.len() as int) =~= t);
    lemma_normalize_pointwise(t);
    assert(normalize_chars(t) =~= t);
    assert(normalized_tag(t) == t);
    assert(!region.contains('-')) by {
        if region.contains('-') {
            let k = choose|k: int| 0 <= k < region.len() && region[k] == '-';
            assert('a' <= region[k]);
        }
    }
    lemma_split_without_sep(zh, '-');
    lemma_split_after_sep(zh, '-', region);
    assert(subtags(t) =~= seq![zh, region]);
    lemma_pair_contains(zh, region, seq!['h', 'a', 'n', 's']);
    lemma_pair_contains(zh, region, seq!['h', 'a', 'n', 't']);
    lemma_pair_contains(zh, region, seq!['t', 'w']);
    lemma_pair_contains(zh, region, seq!['h', 'k']);
    lemma_pair_contains(zh, region, seq!['m', 'o']);
    assert("hans"@ =~= seq!['h', 'a', 'n', 's']);
    assert("hant"@ =~= seq!['h', 'a', 'n', 't']);
    assert("tw"@ =~= seq!['t', 'w']);
    assert("hk"@ =~= seq!['h', 'k']);
    assert("mo"@ =~= seq!['m', 'o']);
    assert(subtags(t)[0] == zh);
}

} // verus!

verus! {

/// `s` spells the word written `lower` in lower case and `upper` in upper
/// case, each letter in either case.
pub open spec fn equals_ignoring_ascii_case(s: Seq<char>, lower: Seq<char>, upper: Seq<char>) -> bool {
    &&& s.len() == lower.len()
    &&& forall|i: int| 0 <= i < s.len() ==> #[trigger] s[i] == lower[i] || s[i] == upper[i]
}

/// Every element is an ASCII letter.
pub open spec fn ascii_letters(s: Seq<char>) -> bool {
    forall|i: int| 0 <= i < s.len() ==> ('a' <= #[trigger] s[i] && s[i] <= 'z') || ('A' <= s[i] && s[i] <= 'Z')
}

/// Normalizing letters matches a lower-case word exactly when the letters
/// spell it in any mix of cases.
proof fn lemma_normalized_letters(s: Seq<char>, lower: Seq<char>, upper: Seq<char>)
    requires
        ascii_letters(s),
        lower.len() == upper.len(),
        forall|i: int|
            0 <= i < lower.len() ==> 'a' <= #[trigger] lower[i] && lower[i] <= 'z' && 'A' <= upper[i]
                && upper[i] <= 'Z' && upper[i] as u32 + 32 == lower[i] as u32,
    ensures
        normalize_chars(s) == lower <==> equals_ignoring_ascii_case(s, lower, upper),
        forall|i: int| 0 <= i < s.len() ==> 'a' <= #[trigger] normalize_chars(s)[i] <= 'z',
{
    lemma_normalize_pointwise(s);
    assert forall|i: int| 0 <= i < s.len() implies 'a' <= #[trigger] normalize_chars(s)[i] <= 'z' by {
        let c = s[i];
        if 'A' <= c && c <= 'Z' {
            assert(normalize_char(c) as u32 == c as u32 + 32);
        }
    }
    if s.len() == lower.len() {
        assert forall|i: int| 0 <= i < s.len() implies (#[trigger] normalize_chars(s)[i] == lower[i]
            <==> (s[i] == lower[i] || s[i] == upper[i])) by {
            let c = s[i];
            let l = lower[i];
            let u = upper[i];
            if 'A' <= c && c <= 'Z' {
                assert(normalize_char(c) as u32 == c as u32 + 32);
                if c == u {
                    assert(normalize_char(c) == l);
                }
                if normalize_char(c) == l {
                    assert(c as u32 == u as u32);
                    assert(c == u);
                }
            } else {
                assert(normalize_char(c) == c);
                assert(c != u);
            }
        }
        if equals_ignoring_ascii_case(s, lower, upper) {
            assert(normalize_chars(s) =~= lower);
        }
    }
}

/// The subtags of a tag made of `lang`, or of `lang`, a `-` or `_`, and
/// `region`, all ASCII letters.
proof fn lemma_letter_subtags(lang: Seq<char>, sep: Option<char>, region: Seq<char>) -> (t: Seq<char>)
    requires
        ascii_letters(lang),
        ascii_letters(region),
        sep matches Some(c) ==> c == '-' || c == '_',
    ensures
        t == match sep {
            Some(c) => lang + seq![c] + region,
            None => lang,
        },
        subtags(t) == match sep {
            Some(c) => seq![normalize_chars(lang), normalize_chars(region)],
            None => seq![normalize_chars(lang)],
        },
{
    let t = match sep {
        Some(c) => lang + seq![c] + region,
        None => lang,
    };
    assert forall|j: int| 0 <= j < t.len() implies !(is_tag_terminator())(#[trigger] t[j]) by {
        if j < lang.len() {
            assert(t[j] == lang[j]);
        } else if j > lang.len() {
            assert(t[j] == region[j - lang.len() - 1]);
        }
    }
    lemma_first_where_is(t, is_tag_terminator(), t.len() as int);
    assert(t.take(t.len() as int) =~= t);
    lemma_normalize_pointwise(t);
    lemma_normalize_pointwise(lang);
    lemma_normalize_pointwise(region);
    let nl = normalize_chars(lang);
    let nr = normalize_chars(region);
    assert forall|i: int| 0 <= i < nl.len() implies #[trigger] nl[i] != '-' by {
        let c = lang[i];
        if 'A' <= c && c <= 'Z' {
            assert(normalize_char(c) as u32 == c as u32 + 32);
        }
    }
    assert forall|i: int| 0 <= i < nr.len() implies #[trigger] nr[i] != '-' by {
        let c = region[i];
        if 'A' <= c && c <= 'Z' {
            assert(normalize_char(c) as u32 == c as u32 + 32);
        }
    }
    assert(!nl.contains('-'));
    assert(!nr.contains('-'));
    lemma_split_without_sep(nl, '-');
    match sep {
        Some(c) => {
            assert(normalize_chars(t) =~= nl + seq!['-'] + nr) by {
                assert forall|j: int| 0 <= j < t.len() implies normalize_chars(t)[j] == (nl
                    + seq!['-'] + nr)[j] by {
                    if j < lang.len() {
                        assert(t[j] == lang[j]);
                    } else if j > lang.len() {
                        assert(t[j] == region[j - lang.len() - 1]);
                    }
                }
            }
            lemma_split_after_sep(nl, '-', nr);
        },
        None => {},
    }
    t
}

/// A tag of two ASCII letters names its language in any case: `ja`, `ko`,
/// `fr`, `de`, `es`, `pt` and `ru` give their locales (Portuguese is Brazilian
/// Portuguese), `zh` gives Simplified Chinese, and any other pair English.
pub proof fn lemma_language_code(lang: Seq<char>)
    requires
        lang.len() == 2,
        ascii_letters(lang),
    ensures
        Locale::spec_from_tag(lang) == if equals_ignoring_ascii_case(lang, "zh"@, "ZH"@) {
            Locale::ZhCn
        } else if equals_ignoring_ascii_case(lang, "ja"@, "JA"@) {
            Locale::Ja
        } else if equals_ignoring_ascii_case(lang, "ko"@, "KO"@) {
            Locale::Ko
        } else if equals_ignoring_ascii_case(lang, "fr"@, "FR"@) {
            Locale::Fr
        } else if equals_ignoring_ascii_case(lang, "de"@, "DE"@) {
            Locale::De
        } else if equals_ignoring_ascii_case(lang, "es"@, "ES"@) {
            Locale::Es
        } else if equals_ignoring_ascii_case(lang, "pt"@, "PT"@) {
            Locale::PtBr
        } else if equals_ignoring_ascii_case(lang, "ru"@, "RU"@) {
            Locale::Ru
        } else {
            Locale::En
        },
{
    reveal_strlit("zh");
    reveal_strlit("ZH");
    reveal_strlit("ja");
    reveal_strlit("JA");
    reveal_strlit("ko");
    reveal_strlit("KO");
    reveal_strlit("fr");
    reveal_strlit("FR");
    reveal_strlit("de");
    reveal_strlit("DE");
    reveal_strlit("es");
    reveal_strlit("ES");
    reveal_strlit("pt");
    reveal_strlit("PT");
    reveal_strlit("ru");
    reveal_strlit("RU");
    lemma_letter_subtags(lang, None, Seq::empty());
    lemma_normalized_letters(lang, "zh"@, "ZH"@);
    lemma_normalized_letters(lang, "ja"@, "JA"@);
    lemma_normalized_letters(lang, "ko"@, "KO"@);
    lemma_normalized_letters(lang, "fr"@, "FR"@);
    lemma_normalized_letters(lang, "de"@, "DE"@);
    lemma_normalized_letters(lang, "es"@, "ES"@);
    lemma_normalized_letters(lang, "pt"@, "PT"@);
    lemma_normalized_letters(lang, "ru"@, "RU"@);
    assert("zh"@ =~= seq!['z', 'h']);
    assert("ja"@ =~= seq!['j', 'a']);
    assert("ko"@ =~= seq!['k', 'o']);
    assert("fr"@ =~= seq!['f', 'r']);
    assert("de"@ =~= seq!['d', 'e']);
    assert("es"@ =~= seq!['e', 's']);
    assert("pt"@ =~= seq!['p', 't']);
    assert("ru"@ =~= seq!['r', 'u']);
}

/// A Chinese tag written `zh`, a `-` or `_`, and a region of ASCII letters,
/// each letter in either case: the region `hant`, `tw`, `hk` or `mo` gives
/// Traditional Chinese, and every other one (such as `SG`, `CN` or `Hans`)
/// Simplified Chinese.
pub proof fn lemma_chinese_letter_tag(lang: Seq<char>, sep: char, region: Seq<char>)
    requires
        equals_ignoring_ascii_case(lang, "zh"@, "ZH"@),
        sep == '-' || sep == '_',
        ascii_letters(region),
    ensures
        Locale::spec_from_tag(lang + seq![sep] + region) == if equals_ignoring_ascii_case(
            region,
            "hant"@,
            "HANT"@,
        ) || equals_ignoring_ascii_case(region, "tw"@, "TW"@) || equals_ignoring_ascii_case(
            region,
            "hk"@,
            "HK"@,
        ) || equals_ignoring_ascii_case(region, "mo"@, "MO"@) {
            Locale::ZhTw
        } else {
            Locale::ZhCn
        },
{
    reveal_strlit("zh");
    reveal_strlit("ZH");
    reveal_strlit("hans");
    reveal_strlit("HANS");
    reveal_strlit("hant");
    reveal_strlit("HANT");
    reveal_strlit("tw");
    reveal_strlit("TW");
    reveal_strlit("hk");
    reveal_strlit("HK");
    reveal_strlit("mo");
    reveal_strlit("MO");
    assert(ascii_letters(lang)) by {
        assert forall|i: int| 0 <= i < lang.len() implies ('a' <= #[trigger] lang[i] && lang[i]
            <= 'z') || ('A' <= lang[i] && lang[i] <= 'Z') by {
            assert(lang[i] == "zh"@[i] || lang[i] == "ZH"@[i]);
        }
    }
    lemma_letter_subtags(lang, Some(sep), region);
    lemma_normalized_letters(lang, "zh"@, "ZH"@);
    lemma_normalized_letters(region, "hans"@, "HANS"@);
    lemma_normalized_letters(region, "hant"@, "HANT"@);
    lemma_normalized_letters(region, "tw"@, "TW"@);
    lemma_normalized_letters(region, "hk"@, "HK"@);
    lemma_normalized_letters(region, "mo"@, "MO"@);
    let zh = normalize_chars(lang);
    let nr = normalize_chars(region);
    assert(zh =~= seq!['z', 'h']);
    lemma_pair_contains(zh, nr, seq!['h', 'a', 'n', 's']);
    lemma_pair_contains(zh, nr, seq!['h', 'a', 'n', 't']);
    lemma_pair_contains(zh, nr, seq!['t', 'w']);
    lemma_pair_contains(zh, nr, seq!['h', 'k']);
    lemma_pair_contains(zh, nr, seq!['m', 'o']);
    assert("hans"@ =~= seq!['h', 'a', 'n', 's']);
    assert("hant"@ =~= seq!['h', 'a', 'n', 't']);
    assert("tw"@ =~= seq!['t', 'w']);
    assert("hk"@ =~= seq!['h', 'k']);
    assert("mo"@ =~= seq!['m', 'o']);
    if equals_ignoring_ascii_case(region, "hans"@, "HANS"@) {
        assert(!equals_ignoring_ascii_case(region, "hant"@, "HANT"@)) by {
            assert(region[3] == 's' || region[3] == 'S');
        }
    }
}

} // verus!
