//! Choosing the interface locale from the operating system's preference.

use vstd::prelude::*;
use crate::locale::Locale;

verus! {

/// The locale for a platform preference: the locale its tag names, or
/// English when the platform reports none.
pub open spec fn spec_locale_from_preference(preference: Option<Seq<char>>) -> Locale {
    match preference {
        Some(tag) => Locale::spec_from_tag(tag),
        None => Locale::En,
    }
}

/// `sys_locale::get_locale`: the most preferred locale of the system, as a
/// BCP 47 tag, or `None` when none could be obtained.
///
/// The answer comes from the environment and the platform's settings, so
/// nothing is stated about it.
#[verifier::external_body]
fn system_preference() -> (r: Option<String>) {
    sys_locale::get_locale()
}

/// Resolve the locale for a platform preference; without one, English.
pub fn locale_from_system_preference(preference: Option<&str>) -> (r: Locale)
    ensures
        r == spec_locale_from_preference(
            match preference {
                Some(p) => Some(p@),
                None => None,
            },
        ),
{
    match preference {
        Some(tag) => Locale::from_tag(tag),
        None => Locale::En,
    }
}

/// Detect the preferred locale through the current platform's native source.
///
/// Whatever the platform reports, the result is the locale that
/// [`locale_from_system_preference`] gives for that report.
pub fn detect_system_locale() -> (r: Locale)
    ensures
        exists|preference: Option<Seq<char>>| r == spec_locale_from_preference(preference),
{
    let preference = system_preference();
    match &preference {
        Some(tag) => locale_from_system_preference(Some(tag.as_str())),
        None => locale_from_system_preference(None),
    }
}

} // verus!
