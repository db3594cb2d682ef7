//! Template substitution: `{name}` placeholders replaced by bound texts.

use vstd::prelude::*;
use crate::strmap::StringMap;
use crate::text::{chars_of, push_text, string_of};

verus! {

/// A character that may begin a placeholder's name: an ASCII letter or `_`.
pub open spec fn is_name_start(c: char) -> bool {
    ('a' <= c && c <= 'z') || ('A' <= c && c <= 'Z') || c == '_'
}

/// A character that may continue a placeholder's name: an ASCII letter, an
/// ASCII digit or `_`.
pub open spec fn is_name_char(c: char) -> bool {
    is_name_start(c) || ('0' <= c && c <= '9')
}

/// The index of the first character of `t` at or after `from` that cannot
/// continue a name, or `t.len()` when there is none.
pub open spec fn spec_name_end(t: Seq<char>, from: int) -> int
    decreases t.len() - from,
{
    if from < 0 || from >= t.len() {
        t.len() as int
    } else if !is_name_char(t[from]) {
        from
    } else {
        spec_name_end(t, from + 1)
    }
}

/// Where a placeholder opens at index `i` of `t`, the index of its closing
/// brace: `t[i]` is `{`, a name follows, and `}` follows the name.
pub open spec fn spec_placeholder_close(t: Seq<char>, i: int) -> Option<int> {
    if 0 <= i && i + 1 < t.len() && t[i] == '{' && is_name_start(t[i + 1]) {
        let e = spec_name_end(t, i + 2);
        if i + 2 <= e && e < t.len() && t[e] == '}' {
            Some(e)
        } else {
            None
        }
    } else {
        None
    }
}

/// The text bound to `name`, or the empty text when `name` is unbound.
pub open spec fn spec_bound_text(vars: Map<Seq<char>, Seq<char>>, name: Seq<char>) -> Seq<char> {
    if vars.contains_key(name) {
        vars[name]
    } else {
        Seq::empty()
    }
}

/// The substitution of `t` from index `i` on. Reading from the left, each
/// placeholder is replaced by the text bound to its name and every other
/// character is kept. Replaced text is not read again.
pub open spec fn spec_substitute_from(
    t: Seq<char>,
    i: int,
    vars: Map<Seq<char>, Seq<char>>,
) -> Seq<char>
    decreases t.len() - i,
{
    if i < 0 || i >= t.len() {
        Seq::empty()
    } else {
        match spec_placeholder_close(t, i) {
            Some(e) => spec_bound_text(vars, t.subrange(i + 1, e)) + spec_substitute_from(
                t,
                e + 1,
                vars,
            ),
            None => seq![t[i]] + spec_substitute_from(t, i + 1, vars),
        }
    }
}

/// The template `t` with every placeholder replaced.
pub open spec fn spec_substitute(t: Seq<char>, vars: Map<Seq<char>, Seq<char>>) -> Seq<char> {
    spec_substitute_from(t, 0, vars)
}

fn is_name_start_char(c: char) -> (b: bool)
    ensures
        b == is_name_start(c),
{
    ('a' <= c && c <= 'z') || ('A' <= c && c <= 'Z') || c == '_'
}

fn is_name_char_at(c: char) -> (b: bool)
    ensures
        b == is_name_char(c),
{
    is_name_start_char(c) || ('0' <= c && c <= '9')
}

fn name_end(t: &Vec<char>, from: usize) -> (e: usize)
    requires
        from <= t.len(),
    ensures
        e == spec_name_end(t@, from as int),
        from <= e <= t.len(),
{
    let mut i: usize = from;
    while i < t.len() && is_name_char_at(t[i])
        invariant
            from <= i <= t.len(),
            spec_name_end(t@, from as int) == spec_name_end(t@, i as int),
        decreases t.len() - i,
    {
        i += 1;
    }
    i
}

/// Replaces every `{name}` of `template` by the text bound to `name` in
/// `vars`, or by nothing when `name` is unbound. A name is an ASCII letter or
/// `_` followed by ASCII letters, digits and `_`. Braces that enclose no name
/// stay as they are.
pub fn substitute_template(template: &str, vars: &StringMap) -> (out: String)
    ensures
        out@ == spec_substitute(template@, vars@),
{
    let t = chars_of(template);
    let mut out = String::new();
    let mut i: usize = 0;
    while i < t.len()
        invariant
            i <= t.len(),
            spec_substitute(t@, vars@) == out@ + spec_substitute_from(t@, i as int, vars@),
        decreases t.len() - i,
    {
        let ghost before = out@;
        let mut close: Option<usize> = None;
        if t[i] == '{' && i + 1 < t.len() && is_name_start_char(t[i + 1]) {
            let e = name_end(&t, i + 2);
            if e < t.len() && t[e] == '}' {
                close = Some(e);
            }
        }
        match close {
            Some(e) => {
                let name = string_of(&t, i + 1, e);
                match vars.get(name.as_str()) {
                    Some(v) => {
                        push_text(&mut out, v.as_str());
                    },
                    None => {},
                }
                proof {
                    assert(spec_placeholder_close(t@, i as int) == Some(e as int));
                    assert(out@ =~= before + spec_bound_text(vars@, name@));
                    assert(out@ + spec_substitute_from(t@, e + 1, vars@) =~= before
                        + spec_substitute_from(t@, i as int, vars@));
                }
                i = e + 1;
            },
            None => {
                out.push(t[i]);
                proof {
                    assert(spec_placeholder_close(t@, i as int) is None);
                    assert(out@ + spec_substitute_from(t@, i + 1, vars@) =~= before
                        + spec_substitute_from(t@, i as int, vars@));
                }
                i += 1;
            },
        }
    }
    proof {
        assert(out@ + Seq::<char>::empty() =~= out@);
    }
    out
}

} // verus!
