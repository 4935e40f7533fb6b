//! Normalization and subtag splitting of BCP 47 tags and POSIX locale strings.

use vstd::prelude::*;
use crate::chars::{chars_equal, first_where, lemma_chars_deep_view, lemma_first_where_is};

verus! {

/// Characters that end the language part of a POSIX locale string
/// (`.` before the encoding, `@` before the modifier).
pub open spec fn is_tag_terminator() -> spec_fn(char) -> bool {
    |c: char| c == '.' || c == '@'
}

/// ASCII lower-casing, with `_` read as the BCP 47 separator `-`.
pub open spec fn normalize_char(c: char) -> char {
    if 'A' <= c && c <= 'Z' {
        ((c as u32) + 32) as char
    } else if c == '_' {
        '-'
    } else {
        c
    }
}

/// `normalize_char` applied to every character of `s`.
pub open spec fn normalize_chars(s: Seq<char>) -> Seq<char>
    decreases s.len(),
{
    if s.len() == 0 {
        Seq::empty()
    } else {
        normalize_chars(s.drop_last()).push(normalize_char(s.last()))
    }
}

/// The language part of `tag` (everything before the first `.` or `@`),
/// lower-cased, with underscores turned into hyphens.
pub open spec fn normalized_tag(tag: Seq<char>) -> Seq<char> {
    normalize_chars(tag.take(first_where(tag, is_tag_terminator()) as int))
}

/// The pieces of `s` between occurrences of `sep`, in order (as `str::split`).
pub open spec fn split_on(s: Seq<char>, sep: char) -> Seq<Seq<char>>
    decreases s.len(),
{
    if s.len() == 0 {
        seq![Seq::empty()]
    } else {
        let init = split_on(s.drop_last(), sep);
        if s.last() == sep {
            init.push(Seq::empty())
        } else {
            init.update(init.len() - 1, init.last().push(s.last()))
        }
    }
}

/// The hyphen-separated subtags of the normalized tag.
pub open spec fn subtags(tag: Seq<char>) -> Seq<Seq<char>> {
    split_on(normalized_tag(tag), '-')
}

/// Splitting always yields at least one piece.
pub proof fn lemma_split_nonempty(s: Seq<char>, sep: char)
    ensures
        split_on(s, sep).len() >= 1,
    decreases s.len(),
{
    if s.len() > 0 {
        lemma_split_nonempty(s.drop_last(), sep);
    }
}

/// A sequence without the separator splits into itself alone.
pub proof fn lemma_split_without_sep(s: Seq<char>, sep: char)
    requires
        !s.contains(sep),
    ensures
        split_on(s, sep) == seq![s],
    decreases s.len(),
{
    if s.len() > 0 {
        assert(!s.drop_last().contains(sep)) by {
            if s.drop_last().contains(sep) {
                let j = choose|j: int| 0 <= j < s.drop_last().len() && s.drop_last()[j] == sep;
                assert(s[j] == sep);
            }
        }
        lemma_split_without_sep(s.drop_last(), sep);
        assert(s[s.len() - 1] != sep);
        assert(s.drop_last().push(s.last()) =~= s);
        assert(split_on(s, sep) =~= seq![s]);
    } else {
        assert(s =~= Seq::<char>::empty());
    }
}

/// Appending a separator and a separator-free piece appends that piece.
pub proof fn lemma_split_after_sep(a: Seq<char>, sep: char, b: Seq<char>)
    requires
        !b.contains(sep),
    ensures
        split_on(a + seq![sep] + b, sep) == split_on(a, sep).push(b),
    decreases b.len(),
{
    let s = a + seq![sep] + b;
    if b.len() == 0 {
        assert(s.drop_last() =~= a);
        assert(b =~= Seq::<char>::empty());
    } else {
        assert(!b.drop_last().contains(sep)) by {
            if b.drop_last().contains(sep) {
                let j = choose|j: int| 0 <= j < b.drop_last().len() && b.drop_last()[j] == sep;
                assert(b[j] == sep);
            }
        }
        lemma_split_after_sep(a, sep, b.drop_last());
        assert(s.drop_last() =~= a + seq![sep] + b.drop_last());
        assert(b[b.len() - 1] != sep);
        assert(b.drop_last().push(b.last()) =~= b);
        assert(split_on(s, sep) =~= split_on(a, sep).push(b));
    }
}

/// `normalize_chars` maps each character on its own.
pub proof fn lemma_normalize_pointwise(s: Seq<char>)
    ensures
        normalize_chars(s).len() == s.len(),
        forall|i: int| 0 <= i < s.len() ==> #[trigger] normalize_chars(s)[i] == normalize_char(s[i]),
    decreases s.len(),
{
    if s.len() > 0 {
        lemma_normalize_pointwise(s.drop_last());
    }
}

/// Lower-cases ASCII letters and maps `_` to `-` in `s[0..end]`.
pub fn normalize_prefix(s: &Vec<char>, end: usize) -> (r: Vec<char>)
    requires
        end <= s@.len(),
    ensures
        r@ == normalize_chars(s@.take(end as int)),
{
    let mut out: Vec<char> = Vec::new();
    let mut i: usize = 0;
    while i < end
        invariant
            end <= s@.len(),
            i <= end,
            out@ == normalize_chars(s@.take(i as int)),
        decreases end - i,
    {
        let c = s[i];
        let n = if c >= 'A' && c <= 'Z' {
            ((c as u8) + 32) as char
        } else if c == '_' {
            '-'
        } else {
            c
        };
        assert(n == normalize_char(c));
        assert(s@.take(i + 1).drop_last() =~= s@.take(i as int));
        out.push(n);
        i += 1;
    }
    out
}

/// Index of the first `.` or `@` in `s`, or its length.
pub fn tag_end(s: &Vec<char>) -> (r: usize)
    ensures
        r == first_where(s@, is_tag_terminator()),
{
    let mut i: usize = 0;
    while i < s.len() && s[i] != '.' && s[i] != '@'
        invariant
            i <= s@.len(),
            forall|j: int| 0 <= j < i ==> !(is_tag_terminator())(#[trigger] s@[j]),
        decreases s@.len() - i,
    {
        i += 1;
    }
    proof {
        lemma_first_where_is(s@, is_tag_terminator(), i as int);
    }
    i
}

/// Splits `s` at every `sep`, as `str::split` does.
pub fn split_chars(s: &Vec<char>, sep: char) -> (r: Vec<Vec<char>>)
    ensures
        r.deep_view() == split_on(s@, sep),
{
    let mut done: Vec<Vec<char>> = Vec::new();
    let mut current: Vec<char> = Vec::new();
    let mut i: usize = 0;
    assert(done.deep_view().push(current@) =~= split_on(s@.take(0), sep));
    while i < s.len()
        invariant
            i <= s@.len(),
            done.deep_view().push(current@) == split_on(s@.take(i as int), sep),
        decreases s@.len() - i,
    {
        let c = s[i];
        let ghost before = done.deep_view().push(current@);
        assert(s@.take(i + 1).drop_last() =~= s@.take(i as int));
        if c == sep {
            proof {
                lemma_chars_deep_view(current);
            }
            done.push(current);
            current = Vec::new();
            assert(done.deep_view().push(current@) =~= before.push(Seq::empty()));
        } else {
            current.push(c);
            assert(done.deep_view().push(current@) =~= before.update(
                before.len() - 1,
                before.last().push(c),
            ));
        }
        i += 1;
    }
    let ghost last = current@;
    proof {
        lemma_chars_deep_view(current);
    }
    let ghost prefix = done.deep_view();
    done.push(current);
    assert(done.deep_view() =~= prefix.push(last));
    assert(s@.take(s@.len() as int) =~= s@);
    done
}

/// Whether one of `pieces` equals `word`.
pub fn has_piece(pieces: &Vec<Vec<char>>, word: &[char]) -> (r: bool)
    ensures
        r == pieces.deep_view().contains(word@),
{
    let mut i: usize = 0;
    while i < pieces.len()
        invariant
            i <= pieces@.len(),
            forall|j: int| 0 <= j < i ==> pieces.deep_view()[j] != word@,
        decreases pieces@.len() - i,
    {
        proof {
            lemma_chars_deep_view(pieces@[i as int]);
        }
        if chars_equal(pieces[i].as_slice(), word) {
            assert(pieces.deep_view()[i as int] == word@);
            return true;
        }
        i += 1;
    }
    assert forall|j: int| 0 <= j < pieces.deep_view().len() implies pieces.deep_view()[j]
        != word@ by {}
    false
}

} // verus!
