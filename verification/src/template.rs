//! `{name}` placeholder substitution in translated templates.

use vstd::prelude::*;
use vstd::string::*;
use crate::chars::{chars_of, first_where, lemma_first_where_bounds, lemma_first_where_is};

verus! {

/// Opening brace of a placeholder.
pub open spec fn is_open_brace() -> spec_fn(char) -> bool {
    |c: char| c == '{'
}

/// Closing brace of a placeholder.
pub open spec fn is_close_brace() -> spec_fn(char) -> bool {
    |c: char| c == '}'
}

/// Template arguments as `(name, value)` character sequences.
pub open spec fn arguments_view(arguments: Seq<(&str, &str)>) -> Seq<(Seq<char>, Seq<char>)> {
    Seq::new(arguments.len(), |i: int| (arguments[i].0@, arguments[i].1@))
}

/// The value of the first argument called `name`, if there is one.
pub open spec fn argument_value(arguments: Seq<(Seq<char>, Seq<char>)>, name: Seq<char>) -> Option<
    Seq<char>,
>
    decreases arguments.len(),
{
    if arguments.len() == 0 {
        None
    } else if arguments[0].0 == name {
        Some(arguments[0].1)
    } else {
        argument_value(arguments.drop_first(), name)
    }
}

/// What replaces the placeholder `{name}`: the argument's value, or the
/// placeholder itself when no argument has that name.
pub open spec fn placeholder_text(arguments: Seq<(Seq<char>, Seq<char>)>, name: Seq<char>) -> Seq<
    char,
> {
    match argument_value(arguments, name) {
        Some(value) => value,
        None => seq!['{'] + name + seq!['}'],
    }
}

/// The template with every `{name}` placeholder replaced, left to right.
///
/// Text between placeholders is copied; the text of a substituted value is
/// never scanned again. From an opening brace that has no closing brace
/// after it, the rest of the template is copied unchanged.
pub open spec fn fill_template(template: Seq<char>, arguments: Seq<(Seq<char>, Seq<char>)>) -> Seq<
    char,
>
    decreases template.len(),
{
    let open = first_where(template, is_open_brace());
    if open >= template.len() {
        template
    } else {
        let after_open = template.skip(open + 1 as int);
        let close = first_where(after_open, is_close_brace());
        if close >= after_open.len() {
            template
        } else {
            template.take(open as int) + placeholder_text(arguments, after_open.take(close as int))
                + fill_template(after_open.skip(close + 1 as int), arguments)
        }
    }
}

/// `String::push`: appends one character.
#[verifier::external_body]
pub(crate) fn push_char(s: &mut String, c: char)
    ensures
        final(s)@ == old(s)@.push(c),
{
    s.push(c);
}

/// Appends `s[from..to]` to `out`.
fn push_range(out: &mut String, s: &Vec<char>, from: usize, to: usize)
    requires
        from <= to <= s@.len(),
    ensures
        final(out)@ == old(out)@ + s@.subrange(from as int, to as int),
{
    let mut i = from;
    while i < to
        invariant
            from <= i <= to <= s@.len(),
            out@ == old(out)@ + s@.subrange(from as int, i as int),
        decreases to - i,
    {
        push_char(out, s[i]);
        i += 1;
        assert(out@ =~= old(out)@ + s@.subrange(from as int, i as int));
    }
}

/// Whether `s[from..to]` spells `word`.
fn range_equals(s: &Vec<char>, from: usize, to: usize, word: &str) -> (r: bool)
    requires
        from <= to <= s@.len(),
    ensures
        r == (s@.subrange(from as int, to as int) == word@),
{
    let w = chars_of(word);
    if w.len() != to - from {
        return false;
    }
    let mut i: usize = 0;
    while i < w.len()
        invariant
            from <= to <= s@.len(),
            w@ == word@,
            w@.len() == to - from,
            i <= w@.len(),
            forall|j: int| 0 <= j < i ==> s@[from + j] == w@[j],
        decreases w@.len() - i,
    {
        if s[from + i] != w[i] {
            assert(s@.subrange(from as int, to as int)[i as int] != w@[i as int]);
            return false;
        }
        i += 1;
    }
    assert(s@.subrange(from as int, to as int) =~= w@);
    true
}

/// Skipping arguments with other names does not change the lookup.
proof fn lemma_argument_value_skip(
    arguments: Seq<(Seq<char>, Seq<char>)>,
    name: Seq<char>,
    i: int,
)
    requires
        0 <= i <= arguments.len(),
        forall|j: int| 0 <= j < i ==> (#[trigger] arguments[j]).0 != name,
    ensures
        argument_value(arguments, name) == argument_value(arguments.skip(i), name),
    decreases i,
{
    if i == 0 {
        assert(arguments.skip(0) =~= arguments);
    } else {
        assert(arguments[0].0 != name);
        assert forall|j: int| 0 <= j < i - 1 implies (#[trigger] arguments.drop_first()[j]).0
            != name by {
            assert(arguments.drop_first()[j] == arguments[j + 1]);
        }
        lemma_argument_value_skip(arguments.drop_first(), name, i - 1);
        assert(arguments.drop_first().skip(i - 1) =~= arguments.skip(i));
    }
}

/// The value of the first argument whose name is `s[from..to]`.
fn find_argument<'a>(arguments: &[(&'a str, &'a str)], s: &Vec<char>, from: usize, to: usize) -> (r:
    Option<&'a str>)
    requires
        from <= to <= s@.len(),
    ensures
        match r {
            Some(value) => argument_value(arguments_view(arguments@), s@.subrange(
                from as int,
                to as int,
            )) == Some(value@),
            None => argument_value(
                arguments_view(arguments@),
                s@.subrange(from as int, to as int),
            ) is None,
        },
{
    let ghost args = arguments_view(arguments@);
    let ghost name = s@.subrange(from as int, to as int);
    let mut i: usize = 0;
    while i < arguments.len()
        invariant
            from <= to <= s@.len(),
            args == arguments_view(arguments@),
            name == s@.subrange(from as int, to as int),
            i <= arguments@.len(),
            forall|j: int| 0 <= j < i ==> (#[trigger] args[j]).0 != name,
        decreases arguments@.len() - i,
    {
        let (argument, value) = arguments[i];
        if range_equals(s, from, to, argument) {
            proof {
                lemma_argument_value_skip(args, name, i as int);
                assert(args.skip(i as int)[0] == args[i as int]);
            }
            return Some(value);
        }
        i += 1;
    }
    proof {
        lemma_argument_value_skip(args, name, i as int);
    }
    None
}

/// One step of `fill_template`, seen from position `pos` of a template with
/// an opening brace at `open` and the next closing brace at `close`.
proof fn lemma_fill_step(
    t: Seq<char>,
    arguments: Seq<(Seq<char>, Seq<char>)>,
    pos: int,
    open: int,
    close: int,
)
    requires
        0 <= pos <= open < close < t.len(),
        forall|j: int| pos <= j < open ==> t[j] != '{',
        t[open] == '{',
        forall|j: int| open < j < close ==> t[j] != '}',
        t[close] == '}',
    ensures
        fill_template(t.skip(pos), arguments) == t.subrange(pos, open) + placeholder_text(
            arguments,
            t.subrange(open + 1, close),
        ) + fill_template(t.skip(close + 1), arguments),
{
    let s = t.skip(pos);
    lemma_first_where_is(s, is_open_brace(), open - pos);
    let after_open = s.skip(open - pos + 1);
    assert(after_open =~= t.skip(open + 1));
    lemma_first_where_is(after_open, is_close_brace(), close - open - 1);
    assert(s.take(open - pos) =~= t.subrange(pos, open));
    assert(after_open.take(close - open - 1) =~= t.subrange(open + 1, close));
    assert(after_open.skip(close - open) =~= t.skip(close + 1));
}

/// The final step of `fill_template`: from position `pos`, either no opening
/// brace or no closing brace after it remains, and the rest is copied.
proof fn lemma_fill_tail(t: Seq<char>, arguments: Seq<(Seq<char>, Seq<char>)>, pos: int, open: int)
    requires
        0 <= pos <= open <= t.len(),
        forall|j: int| pos <= j < open ==> t[j] != '{',
        open < t.len() ==> t[open] == '{',
        open < t.len() ==> forall|j: int| open < j < t.len() ==> t[j] != '}',
    ensures
        fill_template(t.skip(pos), arguments) == t.skip(pos),
{
    let s = t.skip(pos);
    lemma_first_where_is(s, is_open_brace(), open - pos);
    if open < t.len() {
        let after_open = s.skip(open - pos + 1);
        lemma_first_where_is(after_open, is_close_brace(), after_open.len() as int);
    }
}

/// Substitutes `{name}` placeholders in `template`, taking each value from
/// the first argument with that name; placeholders without an argument and
/// an unterminated `{` are kept as they are.
pub fn fill_template_str(template: &str, arguments: &[(&str, &str)]) -> (r: String)
    ensures
        r@ == fill_template(template@, arguments_view(arguments@)),
{
    let ghost args = arguments_view(arguments@);
    let t = chars_of(template);
    let n = t.len();
    let mut text = String::new();
    let mut pos: usize = 0;
    assert(t@.skip(0) =~= t@);
    loop
        invariant
            n == t@.len(),
            t@ == template@,
            args == arguments_view(arguments@),
            pos <= n,
            text@ + fill_template(t@.skip(pos as int), args) == fill_template(t@, args),
        decreases n - pos,
    {
        let mut open = pos;
        while open < n && t[open] != '{'
            invariant
                n == t@.len(),
                pos <= open <= n,
                forall|j: int| pos <= j < open ==> t@[j] != '{',
            decreases n - open,
        {
            open += 1;
        }
        let mut close = if open < n {
            open + 1
        } else {
            n
        };
        while close < n && t[close] != '}'
            invariant
                n == t@.len(),
                open < n ==> open < close <= n,
                open == n ==> close == n,
                forall|j: int| open < j < close ==> t@[j] != '}',
            decreases n - close,
        {
            close += 1;
        }
        if close >= n {
            proof {
                lemma_fill_tail(t@, args, pos as int, open as int);
            }
            let ghost before = text@;
            push_range(&mut text, &t, pos, n);
            assert(t@.subrange(pos as int, n as int) =~= t@.skip(pos as int));
            return text;
        }
        proof {
            lemma_fill_step(t@, args, pos as int, open as int, close as int);
        }
        push_range(&mut text, &t, pos, open);
        match find_argument(arguments, &t, open + 1, close) {
            Some(value) => {
                text.append(value);
            },
            None => {
                push_char(&mut text, '{');
                push_range(&mut text, &t, open + 1, close);
                push_char(&mut text, '}');
            },
        }
        assert(text@ + fill_template(t@.skip(close + 1), args) =~= fill_template(t@, args));
        pos = close + 1;
    }
}

} // verus!

verus! {

/// A template without an opening brace is returned unchanged.
pub proof fn lemma_fill_without_placeholders(
    template: Seq<char>,
    arguments: Seq<(Seq<char>, Seq<char>)>,
)
    requires
        !template.contains('{'),
    ensures
        fill_template(template, arguments) == template,
{
    lemma_first_where_bounds(template, is_open_brace());
    let open = first_where(template, is_open_brace());
    if open < template.len() {
        assert(template[open as int] == '{');
    }
}

/// With no arguments, every placeholder is kept and the template comes back unchanged.
pub proof fn lemma_fill_without_arguments(template: Seq<char>)
    ensures
        fill_template(template, Seq::empty()) == template,
    decreases template.len(),
{
    let args = Seq::<(Seq<char>, Seq<char>)>::empty();
    lemma_first_where_bounds(template, is_open_brace());
    let open = first_where(template, is_open_brace());
    if open < template.len() {
        let after_open = template.skip(open + 1 as int);
        lemma_first_where_bounds(after_open, is_close_brace());
        let close = first_where(after_open, is_close_brace());
        if close < after_open.len() {
            let name = after_open.take(close as int);
            let rest = after_open.skip(close + 1 as int);
            lemma_fill_without_arguments(rest);
            assert(argument_value(args, name) is None);
            assert(template =~= template.take(open as int) + (seq!['{'] + name + seq!['}']) + rest);
        }
    }
}

/// A placeholder after placeholder-free text is replaced by its argument's
/// value (or kept), and the rest of the template is filled on its own: the
/// value is never scanned for further placeholders.
pub proof fn lemma_fill_substitutes(
    prefix: Seq<char>,
    name: Seq<char>,
    rest: Seq<char>,
    arguments: Seq<(Seq<char>, Seq<char>)>,
)
    requires
        !prefix.contains('{'),
        !name.contains('}'),
    ensures
        fill_template(prefix + seq!['{'] + name + seq!['}'] + rest, arguments) == prefix
            + placeholder_text(arguments, name) + fill_template(rest, arguments),
{
    let t = prefix + seq!['{'] + name + seq!['}'] + rest;
    let open = prefix.len() as int;
    let close = open + 1 + name.len();
    assert forall|j: int| 0 <= j < open implies t[j] != '{' by {
        assert(t[j] == prefix[j]);
    }
    assert forall|j: int| open < j < close implies t[j] != '}' by {
        assert(t[j] == name[j - open - 1]);
    }
    lemma_fill_step(t, arguments, 0, open, close);
    assert(t.skip(0) =~= t);
    assert(t.subrange(0, open) =~= prefix);
    assert(t.subrange(open + 1, close) =~= name);
    assert(t.skip(close + 1) =~= rest);
}

} // verus!

verus! {

/// `t[i..=j]` is a placeholder: an opening brace at `i` and the first closing
/// brace after it at `j`. Its name is the text between them.
pub open spec fn is_placeholder(t: Seq<char>, i: int, j: int) -> bool {
    &&& 0 <= i < j < t.len()
    &&& t[i] == '{'
    &&& t[j] == '}'
    &&& forall|k: int| i < k < j ==> t[k] != '}'
}

/// No argument is named like a placeholder of `t`.
pub open spec fn no_argument_matches(t: Seq<char>, arguments: Seq<(Seq<char>, Seq<char>)>) -> bool {
    forall|i: int, j: int|
        #[trigger] is_placeholder(t, i, j) ==> argument_value(arguments, t.subrange(i + 1, j))
            is None
}

/// Filling is the identity when no argument names one of the template's
/// placeholders: unmatched placeholders, and an unclosed `{` with everything
/// after it, are copied unchanged.
pub proof fn lemma_fill_unmatched(template: Seq<char>, arguments: Seq<(Seq<char>, Seq<char>)>)
    requires
        no_argument_matches(template, arguments),
    ensures
        fill_template(template, arguments) == template,
    decreases template.len(),
{
    let t = template;
    lemma_first_where_bounds(t, is_open_brace());
    let open = first_where(t, is_open_brace()) as int;
    if open < t.len() {
        let after_open = t.skip(open + 1);
        lemma_first_where_bounds(after_open, is_close_brace());
        let close = first_where(after_open, is_close_brace()) as int;
        if close < after_open.len() {
            let c = open + 1 + close;
            assert forall|k: int| open < k < c implies t[k] != '}' by {
                assert(t[k] == after_open[k - open - 1]);
            }
            assert(t[c] == after_open[close]);
            assert(is_placeholder(t, open, c));
            let name = after_open.take(close);
            assert(name =~= t.subrange(open + 1, c));
            let rest = after_open.skip(close + 1);
            assert(rest =~= t.skip(c + 1));
            assert forall|i: int, j: int| #[trigger]
                is_placeholder(rest, i, j) implies argument_value(
                arguments,
                rest.subrange(i + 1, j),
            ) is None by {
                assert forall|k: int| i + c + 1 < k < j + c + 1 implies t[k] != '}' by {
                    assert(t[k] == rest[k - c - 1]);
                }
                assert(t[i + c + 1] == rest[i]);
                assert(t[j + c + 1] == rest[j]);
                assert(is_placeholder(t, i + c + 1, j + c + 1));
                assert(rest.subrange(i + 1, j) =~= t.subrange(i + c + 2, j + c + 1));
            }
            lemma_fill_unmatched(rest, arguments);
            assert(t =~= t.take(open) + (seq!['{'] + name + seq!['}']) + rest);
        }
    }
}

/// Filling reads the arguments only through `argument_value`.
pub proof fn lemma_fill_same_lookup(
    template: Seq<char>,
    a: Seq<(Seq<char>, Seq<char>)>,
    b: Seq<(Seq<char>, Seq<char>)>,
)
    requires
        forall|name: Seq<char>| #[trigger] argument_value(a, name) == argument_value(b, name),
    ensures
        fill_template(template, a) == fill_template(template, b),
    decreases template.len(),
{
    let t = template;
    lemma_first_where_bounds(t, is_open_brace());
    let open = first_where(t, is_open_brace()) as int;
    if open < t.len() {
        let after_open = t.skip(open + 1);
        lemma_first_where_bounds(after_open, is_close_brace());
        let close = first_where(after_open, is_close_brace()) as int;
        if close < after_open.len() {
            let name = after_open.take(close);
            assert(argument_value(a, name) == argument_value(b, name));
            lemma_fill_same_lookup(after_open.skip(close + 1), a, b);
        }
    }
}

/// The lookup finds a value exactly when some argument has that name, and
/// the value found is one that an argument with that name carries.
proof fn lemma_argument_value_found(arguments: Seq<(Seq<char>, Seq<char>)>, name: Seq<char>)
    ensures
        argument_value(arguments, name) is None <==> forall|i: int|
            0 <= i < arguments.len() ==> (#[trigger] arguments[i]).0 != name,
        argument_value(arguments, name) matches Some(v) ==> arguments.contains((name, v)),
    decreases arguments.len(),
{
    if arguments.len() > 0 {
        let rest = arguments.drop_first();
        lemma_argument_value_found(rest, name);
        if arguments[0].0 == name {
            assert(arguments[0] == (name, arguments[0].1));
        } else {
            assert forall|i: int| 0 < i < arguments.len() implies #[trigger] arguments[i]
                == rest[i - 1] by {}
            if argument_value(arguments, name) is None {
                assert forall|i: int| 0 <= i < arguments.len() implies (
                #[trigger] arguments[i]).0 != name by {
                    if i > 0 {
                        assert(arguments[i] == rest[i - 1]);
                    }
                }
            } else {
                let v = argument_value(arguments, name)->0;
                let k = choose|k: int| 0 <= k < rest.len() && rest[k] == (name, v);
                assert(arguments[k + 1] == (name, v));
            }
            if forall|i: int| 0 <= i < arguments.len() ==> (#[trigger] arguments[i]).0 != name {
                assert forall|i: int| 0 <= i < rest.len() implies (#[trigger] rest[i]).0
                    != name by {
                    assert(rest[i] == arguments[i + 1]);
                }
            }
        }
    }
}

/// With distinct argument names, the lookup gives the value of the one
/// argument that carries the name.
proof fn lemma_argument_value_distinct(
    arguments: Seq<(Seq<char>, Seq<char>)>,
    name: Seq<char>,
    value: Seq<char>,
)
    requires
        forall|i: int, j: int|
            0 <= i < j < arguments.len() ==> (#[trigger] arguments[i]).0 != (#[trigger] arguments[j]).0,
        arguments.contains((name, value)),
    ensures
        argument_value(arguments, name) == Some(value),
    decreases arguments.len(),
{
    let rest = arguments.drop_first();
    let k = choose|k: int| 0 <= k < arguments.len() && arguments[k] == (name, value);
    if k > 0 {
        assert(arguments[0].0 != arguments[k].0);
        assert(rest[k - 1] == (name, value));
        assert forall|i: int, j: int| 0 <= i < j < rest.len() implies (#[trigger] rest[i]).0
            != (#[trigger] rest[j]).0 by {
            assert(rest[i] == arguments[i + 1]);
            assert(rest[j] == arguments[j + 1]);
        }
        lemma_argument_value_distinct(rest, name, value);
    }
}

/// Reordering arguments whose names are distinct does not change the
/// lookup, nor, therefore, the filled template.
pub proof fn lemma_fill_permuted_arguments(
    template: Seq<char>,
    a: Seq<(Seq<char>, Seq<char>)>,
    b: Seq<(Seq<char>, Seq<char>)>,
)
    requires
        a.to_multiset() == b.to_multiset(),
        forall|i: int, j: int| 0 <= i < j < a.len() ==> (#[trigger] a[i]).0 != (#[trigger] a[j]).0,
    ensures
        forall|name: Seq<char>| #[trigger] argument_value(a, name) == argument_value(b, name),
        fill_template(template, a) == fill_template(template, b),
{
    broadcast use vstd::seq_lib::group_to_multiset_ensures;

    assert forall|name: Seq<char>| #[trigger] argument_value(a, name) == argument_value(b, name) by {
        lemma_argument_value_found(a, name);
        lemma_argument_value_found(b, name);
        match argument_value(b, name) {
            Some(v) => {
                assert(b.to_multiset().count((name, v)) > 0);
                assert(a.contains((name, v)));
                lemma_argument_value_distinct(a, name, v);
            },
            None => {
                if argument_value(a, name) is Some {
                    let v = argument_value(a, name)->0;
                    assert(a.to_multiset().count((name, v)) > 0);
                    assert(b.contains((name, v)));
                    let k = choose|k: int| 0 <= k < b.len() && b[k] == (name, v);
                    assert(b[k].0 == name);
                }
            },
        }
    }
    lemma_fill_same_lookup(template, a, b);
}

} // verus!
