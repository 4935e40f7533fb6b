//! Choosing the text that a terminal paste inserts.

use vstd::prelude::*;
use crate::chars::chars_of;

verus! {

/// ASCII lower-casing of one character.
pub open spec fn ascii_lower(c: char) -> char {
    if 'A' <= c && c <= 'Z' {
        ((c as u32) + 32) as char
    } else {
        c
    }
}

/// Whether a URL scheme is `file`, ignoring ASCII case.
pub open spec fn is_file_scheme(scheme: Seq<char>) -> bool {
    scheme.len() == 4 && forall|i: int|
        0 <= i < 4 ==> ascii_lower(#[trigger] scheme[i]) == seq!['f', 'i', 'l', 'e'][i]
}

/// A scheme counts as `file` exactly when it is `file` up to ASCII case:
/// each of its four characters is the one of `file` or of `FILE`.
pub proof fn lemma_file_scheme_is_file(scheme: Seq<char>)
    ensures
        is_file_scheme(scheme) <==> (scheme.len() == "file"@.len() && forall|i: int|
            0 <= i < "file"@.len() ==> #[trigger] scheme[i] == "file"@[i] || scheme[i]
                == "FILE"@[i]),
{
    reveal_strlit("file");
    reveal_strlit("FILE");
    if scheme.len() == 4 {
        assert forall|i: int| 0 <= i < 4 implies (ascii_lower(#[trigger] scheme[i]) == seq![
            'f',
            'i',
            'l',
            'e',
        ][i] <==> (scheme[i] == "file"@[i] || scheme[i] == "FILE"@[i])) by {
            let c = scheme[i];
            if 'A' <= c && c <= 'Z' {
                assert(ascii_lower(c) as u32 == c as u32 + 32);
            }
        }
    }
}

/// A parsed URL yields a local path only when its scheme is `file` up to
/// ASCII case; then it yields the URL's path. Every other scheme, such as
/// `http`, yields nothing.
pub proof fn lemma_posix_path_only_for_file(scheme: Seq<char>, path: Option<String>)
    ensures
        spec_posix_path(Some(scheme), path) == if scheme.len() == "file"@.len() && forall|i: int|
            0 <= i < "file"@.len() ==> #[trigger] scheme[i] == "file"@[i] || scheme[i]
                == "FILE"@[i] {
            path
        } else {
            None
        },
        spec_posix_path(None, path) is None,
{
    lemma_file_scheme_is_file(scheme);
}

/// The local path of a parsed URL: its path when its scheme is `file`
/// (in any ASCII case), and nothing for other schemes or a URL without one.
pub open spec fn spec_posix_path(scheme: Option<Seq<char>>, path: Option<String>) -> Option<String> {
    match scheme {
        Some(s) => if is_file_scheme(s) {
            path
        } else {
            None
        },
        None => None,
    }
}

/// Turns the parts of a parsed URL into a local path: the URL's `path` when
/// its `scheme` is `file` (ASCII case ignored), otherwise nothing.
pub fn file_url_to_posix_path(scheme: Option<&str>, path: Option<String>) -> (r: Option<String>)
    ensures
        r == spec_posix_path(
            match scheme {
                Some(s) => Some(s@),
                None => None,
            },
            path,
        ),
{
    let name = match scheme {
        Some(s) => s,
        None => return None,
    };
    let chars = chars_of(name);
    if chars.len() != 4 {
        return None;
    }
    let expected = ['f', 'i', 'l', 'e'];
    let mut i: usize = 0;
    while i < 4
        invariant
            scheme == Some(name),
            chars@ == name@,
            chars@.len() == 4,
            expected@ == seq!['f', 'i', 'l', 'e'],
            i <= 4,
            forall|j: int| 0 <= j < i ==> ascii_lower(#[trigger] chars@[j]) == expected@[j],
        decreases 4 - i,
    {
        let c = chars[i];
        let lower = if c >= 'A' && c <= 'Z' {
            ((c as u8) + 32) as char
        } else {
            c
        };
        assert(lower == ascii_lower(c));
        if lower != expected[i] {
            assert(!is_file_scheme(name@));
            return None;
        }
        i += 1;
    }
    path
}

/// The text a paste inserts, preferring a file path the platform offers
/// over the clipboard text: `native_file_path` if there is one; otherwise
/// the clipboard text, replaced by `clipboard_text_path` (the local path
/// that the text names as a `file` URL) when there is such a path.
pub fn read_paste_text_from(
    native_file_path: Option<String>,
    clipboard_text: Option<String>,
    clipboard_text_path: Option<String>,
) -> (r: Option<String>)
    ensures
        r == match native_file_path {
            Some(p) => Some(p),
            None => match clipboard_text {
                Some(text) => match clipboard_text_path {
                    Some(p) => Some(p),
                    None => Some(text),
                },
                None => None,
            },
        },
{
    if native_file_path.is_some() {
        return native_file_path;
    }
    match clipboard_text {
        Some(text) => match clipboard_text_path {
            Some(path) => Some(path),
            None => Some(text),
        },
        None => None,
    }
}

} // verus!
