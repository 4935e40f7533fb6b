//! Interface locales and their identifiers.

use vstd::prelude::*;
use crate::chars::{chars_equal, chars_of, lemma_chars_deep_view, lemma_first_where_bounds};
use crate::tag::{
    has_piece, is_tag_terminator, lemma_split_nonempty, normalize_prefix, split_chars, subtags,
    tag_end,
};

verus! {

/// Number of interface locales shipped with the application.
pub const LOCALE_COUNT: usize = 10;

/// Interface locales shipped with the application.
#[derive(Debug, Clone, Copy, PartialEq, Eq, Structural, Hash)]
pub enum Locale {
    /// English.
    En,
    /// Simplified Chinese.
    ZhCn,
    /// Traditional Chinese.
    ZhTw,
    /// Japanese.
    Ja,
    /// Korean.
    Ko,
    /// French.
    Fr,
    /// German.
    De,
    /// Spanish.
    Es,
    /// Brazilian Portuguese.
    PtBr,
    /// Russian.
    Ru,
}

impl Locale {
    /// Every shipped locale, in the order shown by the language selector.
    pub const ALL: [Locale; 10] = [
        Locale::En,
        Locale::ZhCn,
        Locale::ZhTw,
        Locale::Ja,
        Locale::Ko,
        Locale::Fr,
        Locale::De,
        Locale::Es,
        Locale::PtBr,
        Locale::Ru,
    ];

    /// BCP 47 tag of the locale, as persisted in the settings file.
    pub open spec fn spec_tag(self) -> Seq<char> {
        match self {
            Locale::En => seq!['e', 'n'],
            Locale::ZhCn => seq!['z', 'h', '-', 'C', 'N'],
            Locale::ZhTw => seq!['z', 'h', '-', 'T', 'W'],
            Locale::Ja => seq!['j', 'a'],
            Locale::Ko => seq!['k', 'o'],
            Locale::Fr => seq!['f', 'r'],
            Locale::De => seq!['d', 'e'],
            Locale::Es => seq!['e', 's'],
            Locale::PtBr => seq!['p', 't', '-', 'B', 'R'],
            Locale::Ru => seq!['r', 'u'],
        }
    }

    /// Name of the language written in that language.
    pub open spec fn spec_native_name(self) -> Seq<char> {
        match self {
            Locale::En => seq!['E', 'n', 'g', 'l', 'i', 's', 'h'],
            Locale::ZhCn => seq!['简', '体', '中', '文'],
            Locale::ZhTw => seq!['繁', '體', '中', '文'],
            Locale::Ja => seq!['日', '本', '語'],
            Locale::Ko => seq!['한', '국', '어'],
            Locale::Fr => seq!['F', 'r', 'a', 'n', 'ç', 'a', 'i', 's'],
            Locale::De => seq!['D', 'e', 'u', 't', 's', 'c', 'h'],
            Locale::Es => seq!['E', 's', 'p', 'a', 'ñ', 'o', 'l'],
            Locale::PtBr => seq!['P', 'o', 'r', 't', 'u', 'g', 'u', 'ê', 's', ' ', '(', 'B', 'r', 'a', 's', 'i', 'l', ')'],
            Locale::Ru => seq!['Р', 'у', 'с', 'с', 'к', 'и', 'й'],
        }
    }

    /// BCP 47 tag persisted in the settings file.
    pub fn tag(self) -> (r: &'static str)
        ensures
            r@ == self.spec_tag(),
    {
        match self {
            Locale::ZhCn => {
                proof {
                    reveal_strlit("zh-CN");
                }
                "zh-CN"
            },
            Locale::ZhTw => {
                proof {
                    reveal_strlit("zh-TW");
                }
                "zh-TW"
            },
            Locale::Ja => {
                proof {
                    reveal_strlit("ja");
                }
                "ja"
            },
            Locale::Ko => {
                proof {
                    reveal_strlit("ko");
                }
                "ko"
            },
            Locale::Fr => {
                proof {
                    reveal_strlit("fr");
                }
                "fr"
            },
            Locale::De => {
                proof {
                    reveal_strlit("de");
                }
                "de"
            },
            Locale::Es => {
                proof {
                    reveal_strlit("es");
                }
                "es"
            },
            Locale::PtBr => {
                proof {
                    reveal_strlit("pt-BR");
                }
                "pt-BR"
            },
            Locale::Ru => {
                proof {
                    reveal_strlit("ru");
                }
                "ru"
            },
            _ => {
                proof {
                    reveal_strlit("en");
                }
                "en"
            },
        }
    }

    /// Language name written in that language, as shown in the selector.
    ///
    /// Endonyms are used so a user can find their language without already
    /// reading the current interface language.
    pub fn native_name(self) -> (r: &'static str)
        ensures
            r@ == self.spec_native_name(),
    {
        match self {
            Locale::ZhCn => {
                proof {
                    reveal_strlit("简体中文");
                }
                "简体中文"
            },
            Locale::ZhTw => {
                proof {
                    reveal_strlit("繁體中文");
                }
                "繁體中文"
            },
            Locale::Ja => {
                proof {
                    reveal_strlit("日本語");
                }
                "日本語"
            },
            Locale::Ko => {
                proof {
                    reveal_strlit("한국어");
                }
                "한국어"
            },
            Locale::Fr => {
                proof {
                    reveal_strlit("Français");
                }
                "Français"
            },
            Locale::De => {
                proof {
                    reveal_strlit("Deutsch");
                }
                "Deutsch"
            },
            Locale::Es => {
                proof {
                    reveal_strlit("Español");
                }
                "Español"
            },
            Locale::PtBr => {
                proof {
                    reveal_strlit("Português (Brasil)");
                }
                "Português (Brasil)"
            },
            Locale::Ru => {
                proof {
                    reveal_strlit("Русский");
                }
                "Русский"
            },
            _ => {
                proof {
                    reveal_strlit("English");
                }
                "English"
            },
        }
    }


    /// The locale named by a BCP 47 tag or POSIX locale string.
    ///
    /// Only the part before the first `.` or `@` counts; it is read
    /// case-insensitively, with `_` standing for `-`. Chinese is chosen by
    /// script: an explicit `hans` or `hant` subtag wins, otherwise the
    /// traditional-script regions `tw`, `hk` and `mo` select Traditional
    /// Chinese. Other languages go by their primary subtag; anything
    /// unknown is English.
    pub open spec fn spec_from_tag(tag: Seq<char>) -> Locale {
        let parts = subtags(tag);
        let primary = parts[0];
        if primary == seq!['z', 'h'] {
            if parts.contains(seq!['h', 'a', 'n', 's']) {
                Locale::ZhCn
            } else if parts.contains(seq!['h', 'a', 'n', 't']) {
                Locale::ZhTw
            } else if parts.contains(seq!['t', 'w']) || parts.contains(seq!['h', 'k'])
                || parts.contains(seq!['m', 'o']) {
                Locale::ZhTw
            } else {
                Locale::ZhCn
            }
        } else if primary == seq!['j', 'a'] {
            Locale::Ja
        } else if primary == seq!['k', 'o'] {
            Locale::Ko
        } else if primary == seq!['f', 'r'] {
            Locale::Fr
        } else if primary == seq!['d', 'e'] {
            Locale::De
        } else if primary == seq!['e', 's'] {
            Locale::Es
        } else if primary == seq!['p', 't'] {
            Locale::PtBr
        } else if primary == seq!['r', 'u'] {
            Locale::Ru
        } else {
            Locale::En
        }
    }

    /// Resolve a locale from a BCP 47 tag or POSIX locale string.
    ///
    /// Accepts forms such as `zh_TW.UTF-8` and `pt-BR`. Unknown or malformed
    /// values fall back to English rather than failing.
    pub fn from_tag(tag: &str) -> (r: Locale)
        ensures
            r == Locale::spec_from_tag(tag@),
    {
        let chars = chars_of(tag);
        let end = tag_end(&chars);
        proof {
            lemma_first_where_bounds(chars@, is_tag_terminator());
        }
        let normalized = normalize_prefix(&chars, end);
        let parts = split_chars(&normalized, '-');
        proof {
            lemma_split_nonempty(normalized@, '-');
            lemma_chars_deep_view(parts@[0]);
        }
        assert(parts.deep_view() == subtags(tag@));
        let primary = parts[0].as_slice();
        if chars_equal(primary, &['z', 'h']) {
            if has_piece(&parts, &['h', 'a', 'n', 's']) {
                return Locale::ZhCn;
            }
            if has_piece(&parts, &['h', 'a', 'n', 't']) {
                return Locale::ZhTw;
            }
            let traditional = has_piece(&parts, &['t', 'w']) || has_piece(&parts, &['h', 'k'])
                || has_piece(&parts, &['m', 'o']);
            return if traditional {
                Locale::ZhTw
            } else {
                Locale::ZhCn
            };
        }
        if chars_equal(primary, &['j', 'a']) {
            Locale::Ja
        } else if chars_equal(primary, &['k', 'o']) {
            Locale::Ko
        } else if chars_equal(primary, &['f', 'r']) {
            Locale::Fr
        } else if chars_equal(primary, &['d', 'e']) {
            Locale::De
        } else if chars_equal(primary, &['e', 's']) {
            Locale::Es
        } else if chars_equal(primary, &['p', 't']) {
            Locale::PtBr
        } else if chars_equal(primary, &['r', 'u']) {
            Locale::Ru
        } else {
            Locale::En
        }
    }

    /// Position of the locale in [`Locale::ALL`].
    pub open spec fn spec_index(self) -> nat {
        match self {
            Locale::En => 0,
            Locale::ZhCn => 1,
            Locale::ZhTw => 2,
            Locale::Ja => 3,
            Locale::Ko => 4,
            Locale::Fr => 5,
            Locale::De => 6,
            Locale::Es => 7,
            Locale::PtBr => 8,
            Locale::Ru => 9,
        }
    }

    /// The locale at position `value` of [`Locale::ALL`], English when out of range.
    pub open spec fn spec_from_index(value: int) -> Locale {
        if value == 1 {
            Locale::ZhCn
        } else if value == 2 {
            Locale::ZhTw
        } else if value == 3 {
            Locale::Ja
        } else if value == 4 {
            Locale::Ko
        } else if value == 5 {
            Locale::Fr
        } else if value == 6 {
            Locale::De
        } else if value == 7 {
            Locale::Es
        } else if value == 8 {
            Locale::PtBr
        } else if value == 9 {
            Locale::Ru
        } else {
            Locale::En
        }
    }

    /// Position in [`Locale::ALL`], used to index catalog tables and to
    /// encode the active locale as a small integer.
    pub fn index(self) -> (r: usize)
        ensures
            r == self.spec_index(),
            r < LOCALE_COUNT,
    {
        match self {
            Locale::ZhCn => 1,
            Locale::ZhTw => 2,
            Locale::Ja => 3,
            Locale::Ko => 4,
            Locale::Fr => 5,
            Locale::De => 6,
            Locale::Es => 7,
            Locale::PtBr => 8,
            Locale::Ru => 9,
            _ => 0,
        }
    }

    /// Decode a locale previously encoded by [`Locale::index`].
    pub fn from_index(value: usize) -> (r: Locale)
        ensures
            r == Locale::spec_from_index(value as int),
    {
        let all = Locale::ALL;
        if value < all.len() {
            all[value]
        } else {
            Locale::En
        }
    }
}

} // verus!
