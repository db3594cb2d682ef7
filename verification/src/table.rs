//! Column hints for tables: which value a column shows, in which unit, and
//! under which label.

use vstd::prelude::*;
use crate::text::{
    ascii_lower, ascii_upper, chars_of, find_from, join, push_text, spec_ascii_lower,
    spec_ascii_upper, spec_find_from, spec_join, spec_words, string_of, text_eq, unicode_lower,
    views, words,
};

verus! {

/// The unit in which a size is shown.
#[derive(Debug, Clone, Copy, PartialEq, Eq, Structural)]
pub enum SizeModifier {
    Gigabytes,
    Megabytes,
    Kilobytes,
}

/// A column: the path of its value and the unit of a size.
#[derive(Debug, Clone)]
pub struct ColumnSpec {
    pub path: String,
    pub modifier: Option<SizeModifier>,
}

/// The unit that a lower-case name stands for.
pub open spec fn spec_size_modifier(name: Seq<char>) -> Option<SizeModifier> {
    if name == "gb"@ {
        Some(SizeModifier::Gigabytes)
    } else if name == "mb"@ {
        Some(SizeModifier::Megabytes)
    } else if name == "kb"@ {
        Some(SizeModifier::Kilobytes)
    } else {
        None
    }
}

/// The unit that `name` stands for, letter for letter.
pub fn size_modifier_named(name: &str) -> (m: Option<SizeModifier>)
    ensures
        m == spec_size_modifier(name@),
{
    if text_eq(name, "gb") {
        Some(SizeModifier::Gigabytes)
    } else if text_eq(name, "mb") {
        Some(SizeModifier::Megabytes)
    } else if text_eq(name, "kb") {
        Some(SizeModifier::Kilobytes)
    } else {
        None
    }
}

/// What a column says.
pub struct ColumnModel {
    pub path: Seq<char>,
    pub modifier: Option<SizeModifier>,
}

impl View for ColumnSpec {
    type V = ColumnModel;

    open spec fn view(&self) -> ColumnModel {
        ColumnModel { path: self.path@, modifier: self.modifier }
    }
}

/// The column that a hint of the form `path` or `path:unit` stands for. The
/// path is what stands before the first colon. The unit is read without
/// regard to case; an unknown unit is no unit.
pub open spec fn spec_column(hint: Seq<char>) -> ColumnModel {
    let colon = spec_find_from(hint, ':', 0);
    if colon >= hint.len() {
        ColumnModel { path: hint, modifier: None }
    } else {
        ColumnModel {
            path: hint.take(colon),
            modifier: spec_size_modifier(unicode_lower(hint.skip(colon + 1))),
        }
    }
}

/// Reads a column hint of the form `path` or `path:unit`.
pub fn parse_column_spec(spec: &str) -> (c: ColumnSpec)
    ensures
        c@ == spec_column(spec@),
{
    let v = chars_of(spec);
    let colon = find_from(&v, ':', 0);
    if colon >= v.len() {
        ColumnSpec { path: spec.to_owned(), modifier: None }
    } else {
        let path = string_of(&v, 0, colon);
        let unit = string_of(&v, colon + 1, v.len());
        let lower = unit.as_str().to_lowercase();
        proof {
            assert(v@.subrange(0, colon as int) == v@.take(colon as int));
            assert(v@.subrange(colon + 1, v.len() as int) == v@.skip(colon + 1));
        }
        ColumnSpec { path, modifier: size_modifier_named(lower.as_str()) }
    }
}

/// The length of the part of `s` up to and with its last `c`, or 0 when `s`
/// holds no `c`.
pub open spec fn spec_after_last(s: Seq<char>, c: char) -> int
    decreases s.len(),
{
    if s.len() == 0 {
        0
    } else if s.last() == c {
        s.len() as int
    } else {
        spec_after_last(s.drop_last(), c)
    }
}

/// The last segment of a dotted path.
pub open spec fn spec_last_segment(path: Seq<char>) -> Seq<char> {
    path.skip(spec_after_last(path, '.'))
}

/// `s` with every `_` and `-` turned into a space.
pub open spec fn spec_spaced(s: Seq<char>) -> Seq<char> {
    Seq::new(
        s.len(),
        |i: int|
            if s[i] == '_' || s[i] == '-' {
                ' '
            } else {
                s[i]
            },
    )
}

/// A word with its first character in ASCII upper case and the others in
/// ASCII lower case.
pub open spec fn spec_capitalized(w: Seq<char>) -> Seq<char> {
    Seq::new(
        w.len(),
        |i: int|
            if i == 0 {
                spec_ascii_upper(w[i])
            } else {
                spec_ascii_lower(w[i])
            },
    )
}

/// Each word capitalized.
pub open spec fn spec_capitalized_all(ws: Seq<Seq<char>>) -> Seq<Seq<char>> {
    Seq::new(ws.len(), |i: int| spec_capitalized(ws[i]))
}

/// The label of a column: the words of the last segment of its path, `_` and
/// `-` counting as spaces, each capitalized, with one space between them. A
/// segment without words is its own label.
pub open spec fn spec_humanize(path: Seq<char>) -> Seq<char> {
    let last = spec_last_segment(path);
    let ws = spec_words(spec_spaced(last));
    if ws.len() == 0 {
        last
    } else {
        spec_join(spec_capitalized_all(ws), " "@)
    }
}

fn after_last_dot(v: &Vec<char>) -> (n: usize)
    ensures
        n == spec_after_last(v@, '.'),
        n <= v.len(),
{
    let mut n: usize = v.len();
    proof {
        assert(v@.take(v.len() as int) == v@);
    }
    while n > 0 && v[n - 1] != '.'
        invariant
            n <= v.len(),
            spec_after_last(v@, '.') == spec_after_last(v@.take(n as int), '.'),
        decreases n,
    {
        proof {
            assert(v@.take(n as int).drop_last() == v@.take(n - 1));
        }
        n -= 1;
    }
    n
}

fn capitalized(word: &str) -> (s: String)
    ensures
        s@ == spec_capitalized(word@),
{
    let w = chars_of(word);
    let mut s = String::new();
    let mut i: usize = 0;
    while i < w.len()
        invariant
            i <= w.len(),
            w@ == word@,
            s@ == spec_capitalized(word@).take(i as int),
        decreases w.len() - i,
    {
        let c = if i == 0 {
            ascii_upper(w[i])
        } else {
            ascii_lower(w[i])
        };
        s.push(c);
        i += 1;
        proof {
            assert(spec_capitalized(word@).take(i as int) == spec_capitalized(word@).take(
                i - 1,
            ).push(c));
        }
    }
    proof {
        assert(spec_capitalized(word@).take(w.len() as int) == spec_capitalized(word@));
    }
    s
}

/// The label of the column that shows the value under `path`.
pub fn humanize_column_label(path: &str) -> (label: String)
    ensures
        label@ == spec_humanize(path@),
{
    let v = chars_of(path);
    let start = after_last_dot(&v);
    let mut spaced: Vec<char> = Vec::new();
    let ghost last = spec_last_segment(path@);
    let mut i: usize = start;
    while i < v.len()
        invariant
            start <= i <= v.len(),
            v@ == path@,
            last == v@.skip(start as int),
            spaced@ == spec_spaced(last).take(i - start),
        decreases v.len() - i,
    {
        let c = v[i];
        let d = if c == '_' || c == '-' {
            ' '
        } else {
            c
        };
        spaced.push(d);
        i += 1;
        proof {
            assert(last[i - 1 - start] == c);
            assert(spec_spaced(last).take(i - start) == spec_spaced(last).take(
                i - 1 - start,
            ).push(d));
        }
    }
    proof {
        assert(spec_spaced(last).take(v.len() - start) == spec_spaced(last));
    }
    let ws = words(&spaced);
    if ws.len() == 0 {
        let label = string_of(&v, start, v.len());
        proof {
            assert(v@.subrange(start as int, v.len() as int) == v@.skip(start as int));
        }
        return label;
    }
    let mut caps: Vec<String> = Vec::new();
    let mut k: usize = 0;
    while k < ws.len()
        invariant
            k <= ws.len(),
            caps@.len() == k,
            forall|j: int| 0 <= j < k ==> caps@[j]@ == spec_capitalized(ws@[j]@),
        decreases ws.len() - k,
    {
        caps.push(capitalized(ws[k].as_str()));
        k += 1;
    }
    proof {
        assert(views(caps@) =~= spec_capitalized_all(views(ws@)));
    }
    join(&caps, " ")
}

/// The label of a unit, as it stands under the label of its column.
pub open spec fn spec_unit_suffix(modifier: Option<SizeModifier>) -> Seq<char> {
    match modifier {
        Some(SizeModifier::Gigabytes) => "\nGB"@,
        Some(SizeModifier::Megabytes) => "\nMB"@,
        Some(SizeModifier::Kilobytes) => "\nKB"@,
        None => Seq::empty(),
    }
}

/// The label of a column with its unit on a line of its own.
pub fn humanize_column_label_with_modifier(path: &str, modifier: &Option<SizeModifier>) -> (label:
    String)
    ensures
        label@ == spec_humanize(path@) + spec_unit_suffix(*modifier),
{
    let mut label = humanize_column_label(path);
    match modifier {
        Some(SizeModifier::Gigabytes) => {
            push_text(&mut label, "\nGB");
        },
        Some(SizeModifier::Megabytes) => {
            push_text(&mut label, "\nMB");
        },
        Some(SizeModifier::Kilobytes) => {
            push_text(&mut label, "\nKB");
        },
        None => {
            proof {
                assert(label@ + Seq::<char>::empty() =~= label@);
            }
        },
    }
    label
}

} // verus!
