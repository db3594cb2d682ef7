//! Text utilities. Strings are reasoned about as the sequences of characters
//! they stand for; the executable helpers work on `Vec<char>`.

use vstd::prelude::*;

verus! {

/// `String::push` appends one character to the end of the string.
pub assume_specification[ String::push ](s: &mut String, c: char)
    ensures
        final(s)@ == old(s)@.push(c),
;

/// Whether `c` is white space: one of the characters that carry the Unicode
/// property `White_Space`. These are the tab, the line feed, the vertical
/// tab, the form feed, the carriage return and the space; the next line
/// (U+0085) and the no-break space (U+00A0); the Ogham space mark (U+1680);
/// the spaces from the en quad to the hair space (U+2000 to U+200A); the
/// line and paragraph separators (U+2028, U+2029); the narrow no-break space
/// (U+202F), the medium mathematical space (U+205F) and the ideographic
/// space (U+3000).
pub open spec fn is_whitespace(c: char) -> bool {
    ||| ('\u{9}' <= c && c <= '\u{D}')
    ||| c == ' '
    ||| c == '\u{85}'
    ||| c == '\u{A0}'
    ||| c == '\u{1680}'
    ||| ('\u{2000}' <= c && c <= '\u{200A}')
    ||| c == '\u{2028}'
    ||| c == '\u{2029}'
    ||| c == '\u{202F}'
    ||| c == '\u{205F}'
    ||| c == '\u{3000}'
}

/// Whether `c` is white space.
pub fn char_is_whitespace(c: char) -> (b: bool)
    ensures
        b == is_whitespace(c),
{
    ('\u{9}' <= c && c <= '\u{D}') || c == ' ' || c == '\u{85}' || c == '\u{A0}' || c
        == '\u{1680}' || ('\u{2000}' <= c && c <= '\u{200A}') || c == '\u{2028}' || c
        == '\u{2029}' || c == '\u{202F}' || c == '\u{205F}' || c == '\u{3000}'
}

/// The upper-case form of a text under the Unicode case mapping, as
/// `str::to_uppercase` produces it.
pub uninterp spec fn unicode_upper(s: Seq<char>) -> Seq<char>;

/// `str::to_uppercase` depends on the characters of the string alone.
pub assume_specification[ str::to_uppercase ](s: &str) -> (r: String)
    ensures
        r@ == unicode_upper(s@),
;

/// The lower-case form of a text under the Unicode case mapping, as
/// `str::to_lowercase` produces it.
pub uninterp spec fn unicode_lower(s: Seq<char>) -> Seq<char>;

/// `str::to_lowercase` depends on the characters of the string alone.
pub assume_specification[ str::to_lowercase ](s: &str) -> (r: String)
    ensures
        r@ == unicode_lower(s@),
;

/// The characters of `s`, in order.
pub fn chars_of(s: &str) -> (v: Vec<char>)
    ensures
        v@ == s@,
{
    let mut v: Vec<char> = Vec::new();
    for c in it: s.chars()
        invariant
            it.seq() == s@,
            v@ == s@.take(it.index() as int),
    {
        v.push(c);
    }
    v
}

/// Appends the characters `v[from..to]` to `s`.
pub fn push_chars(s: &mut String, v: &Vec<char>, from: usize, to: usize)
    requires
        from <= to <= v.len(),
    ensures
        final(s)@ == old(s)@ + v@.subrange(from as int, to as int),
{
    let mut i: usize = from;
    while i < to
        invariant
            from <= i <= to <= v.len(),
            s@ == old(s)@ + v@.subrange(from as int, i as int),
        decreases to - i,
    {
        s.push(v[i]);
        i += 1;
        proof {
            assert(v@.subrange(from as int, i as int) == v@.subrange(from as int, i - 1).push(
                v@[i - 1],
            ));
        }
    }
}

/// The string made of the characters `v[from..to]`.
pub fn string_of(v: &Vec<char>, from: usize, to: usize) -> (s: String)
    requires
        from <= to <= v.len(),
    ensures
        s@ == v@.subrange(from as int, to as int),
{
    let mut s = String::new();
    push_chars(&mut s, v, from, to);
    s
}

/// Appends the text `t` to `s`.
pub fn push_text(s: &mut String, t: &str)
    ensures
        final(s)@ == old(s)@ + t@,
{
    for c in it: t.chars()
        invariant
            it.seq() == t@,
            s@ == old(s)@ + t@.take(it.index() as int),
    {
        s.push(c);
        proof {
            assert(t@.take(it.index() + 1) == t@.take(it.index() as int).push(c));
        }
    }
}

/// Whether two texts hold the same characters.
pub fn text_eq(a: &str, b: &str) -> (r: bool)
    ensures
        r == (a@ == b@),
{
    let x = a.to_owned();
    let y = b.to_owned();
    x == y
}

/// Whether `v` holds `p` at position `at`.
pub open spec fn spec_has_at(v: Seq<char>, at: int, p: Seq<char>) -> bool {
    0 <= at && at + p.len() <= v.len() && v.subrange(at, at + p.len()) == p
}

/// Whether `v` holds `p` at position `at`.
pub fn has_at(v: &Vec<char>, at: usize, p: &Vec<char>) -> (r: bool)
    ensures
        r == spec_has_at(v@, at as int, p@),
{
    if at > v.len() || p.len() > v.len() - at {
        return false;
    }
    let mut i: usize = 0;
    while i < p.len()
        invariant
            at + p.len() <= v.len(),
            i <= p.len(),
            forall|k: int| 0 <= k < i ==> v@[at + k] == p@[k],
        decreases p.len() - i,
    {
        if v[at + i] != p[i] {
            proof {
                assert(v@.subrange(at as int, at + p.len())[i as int] == v@[at + i]);
            }
            return false;
        }
        i += 1;
    }
    proof {
        assert(v@.subrange(at as int, at + p.len()) =~= p@);
    }
    true
}

/// Whether the text `s` begins with `p`.
pub open spec fn spec_starts_with(s: Seq<char>, p: Seq<char>) -> bool {
    spec_has_at(s, 0, p)
}

/// The index of the first `c` in `s` at or after `from`, or `s.len()` when
/// there is none.
pub open spec fn spec_find_from(s: Seq<char>, c: char, from: int) -> int
    decreases s.len() - from,
{
    if from < 0 || from >= s.len() {
        s.len() as int
    } else if s[from] == c {
        from
    } else {
        spec_find_from(s, c, from + 1)
    }
}

/// The index of the first `c` in `v` at or after `from`, or `v.len()`.
pub fn find_from(v: &Vec<char>, c: char, from: usize) -> (r: usize)
    requires
        from <= v.len(),
    ensures
        r == spec_find_from(v@, c, from as int),
        from <= r <= v.len(),
{
    let mut i: usize = from;
    while i < v.len() && v[i] != c
        invariant
            from <= i <= v.len(),
            spec_find_from(v@, c, from as int) == spec_find_from(v@, c, i as int),
        decreases v.len() - i,
    {
        i += 1;
    }
    i
}

/// The length of `s` once every trailing `c` is dropped.
pub open spec fn spec_trim_end_len(s: Seq<char>, c: char) -> int
    decreases s.len(),
{
    if s.len() > 0 && s.last() == c {
        spec_trim_end_len(s.drop_last(), c)
    } else {
        s.len() as int
    }
}

/// `s` without its trailing run of `c`.
pub open spec fn spec_trim_end_matches(s: Seq<char>, c: char) -> Seq<char> {
    s.take(spec_trim_end_len(s, c))
}

/// The length of `v[..end]` once every trailing `c` is dropped.
pub fn trim_end_len(v: &Vec<char>, end: usize, c: char) -> (r: usize)
    requires
        end <= v.len(),
    ensures
        r == spec_trim_end_len(v@.take(end as int), c),
        r <= end,
{
    let mut n: usize = end;
    while n > 0 && v[n - 1] == c
        invariant
            n <= end <= v.len(),
            spec_trim_end_len(v@.take(end as int), c) == spec_trim_end_len(v@.take(n as int), c),
        decreases n,
    {
        proof {
            assert(v@.take(n as int).drop_last() == v@.take(n - 1));
        }
        n -= 1;
    }
    n
}

/// The index of the first character of `s` at or after `from` that is not
/// `c`, or `s.len()` when there is none.
pub open spec fn spec_skip_char(s: Seq<char>, c: char, from: int) -> int
    decreases s.len() - from,
{
    if from < 0 || from >= s.len() {
        s.len() as int
    } else if s[from] != c {
        from
    } else {
        spec_skip_char(s, c, from + 1)
    }
}

/// The index of the first character of `v` at or after `from` that is not `c`.
pub fn skip_char(v: &Vec<char>, c: char, from: usize) -> (r: usize)
    requires
        from <= v.len(),
    ensures
        r == spec_skip_char(v@, c, from as int),
        from <= r <= v.len(),
{
    let mut i: usize = from;
    while i < v.len() && v[i] == c
        invariant
            from <= i <= v.len(),
            spec_skip_char(v@, c, from as int) == spec_skip_char(v@, c, i as int),
        decreases v.len() - i,
    {
        i += 1;
    }
    i
}

/// The index of the first character of `s` at or after `from` that is not
/// white space, or `s.len()` when there is none.
pub open spec fn spec_skip_space(s: Seq<char>, from: int) -> int
    decreases s.len() - from,
{
    if from < 0 || from >= s.len() {
        s.len() as int
    } else if !is_whitespace(s[from]) {
        from
    } else {
        spec_skip_space(s, from + 1)
    }
}

/// The index of the first white-space character of `s` at or after `from`, or
/// `s.len()` when there is none.
pub open spec fn spec_skip_word(s: Seq<char>, from: int) -> int
    decreases s.len() - from,
{
    if from < 0 || from >= s.len() {
        s.len() as int
    } else if is_whitespace(s[from]) {
        from
    } else {
        spec_skip_word(s, from + 1)
    }
}

/// Skipping white space or a word moves forward and stays within the text;
/// skipping white space ends at a character that is none, and from such a
/// character a word is not empty.
pub proof fn lemma_skip_bounds(s: Seq<char>, from: int)
    requires
        0 <= from <= s.len(),
    ensures
        from <= spec_skip_space(s, from) <= s.len(),
        from <= spec_skip_word(s, from) <= s.len(),
        from < s.len() && !is_whitespace(s[from]) ==> from < spec_skip_word(s, from),
        spec_skip_space(s, from) < s.len() ==> !is_whitespace(s[spec_skip_space(s, from)]),
    decreases s.len() - from,
{
    if from < s.len() {
        lemma_skip_bounds(s, from + 1);
    }
}

/// The index of the first character of `v` at or after `from` that is not white space.
pub fn skip_space(v: &Vec<char>, from: usize) -> (r: usize)
    requires
        from <= v.len(),
    ensures
        r == spec_skip_space(v@, from as int),
        from <= r <= v.len(),
{
    let mut i: usize = from;
    while i < v.len() && char_is_whitespace(v[i])
        invariant
            from <= i <= v.len(),
            spec_skip_space(v@, from as int) == spec_skip_space(v@, i as int),
        decreases v.len() - i,
    {
        i += 1;
    }
    i
}

/// The index of the first white-space character of `v` at or after `from`.
pub fn skip_word(v: &Vec<char>, from: usize) -> (r: usize)
    requires
        from <= v.len(),
    ensures
        r == spec_skip_word(v@, from as int),
        from <= r <= v.len(),
{
    let mut i: usize = from;
    while i < v.len() && !char_is_whitespace(v[i])
        invariant
            from <= i <= v.len(),
            spec_skip_word(v@, from as int) == spec_skip_word(v@, i as int),
        decreases v.len() - i,
    {
        i += 1;
    }
    i
}

/// The words of `s` from index `from` on: its maximal runs of characters that
/// are not white space, in order.
pub open spec fn spec_words_from(s: Seq<char>, from: int) -> Seq<Seq<char>>
    decreases s.len() - from,
{
    let start = spec_skip_space(s, from);
    let end = spec_skip_word(s, start);
    if from < 0 || start < from || end <= start || end > s.len() {
        Seq::empty()
    } else {
        seq![s.subrange(start, end)] + spec_words_from(s, end)
    }
}

/// The words of `s`: what `split_whitespace` yields.
pub open spec fn spec_words(s: Seq<char>) -> Seq<Seq<char>> {
    spec_words_from(s, 0)
}

/// The words of `v`, in order.
pub fn words(v: &Vec<char>) -> (r: Vec<String>)
    ensures
        views(r@) == spec_words(v@),
{
    let mut r: Vec<String> = Vec::new();
    let mut i: usize = 0;
    proof {
        assert(views(r@) =~= Seq::empty());
    }
    loop
        invariant
            i <= v.len(),
            spec_words(v@) == views(r@) + spec_words_from(v@, i as int),
        ensures
            spec_words(v@) == views(r@),
        decreases v.len() - i,
    {
        let start = skip_space(v, i);
        proof {
            lemma_skip_bounds(v@, i as int);
            lemma_skip_bounds(v@, start as int);
        }
        if start >= v.len() {
            proof {
                assert(spec_words_from(v@, i as int) =~= Seq::empty());
            }
            break;
        }
        let end = skip_word(v, start);
        let ghost before = views(r@);
        r.push(string_of(v, start, end));
        proof {
            assert(views(r@) =~= before + seq![v@.subrange(start as int, end as int)]);
        }
        i = end;
    }
    r
}

/// The length of `s` once trailing white space is dropped.
pub open spec fn spec_trim_space_end(s: Seq<char>) -> int
    decreases s.len(),
{
    if s.len() > 0 && is_whitespace(s.last()) {
        spec_trim_space_end(s.drop_last())
    } else {
        s.len() as int
    }
}

/// `s` without leading and trailing white space.
pub open spec fn spec_trim(s: Seq<char>) -> Seq<char> {
    let start = spec_skip_space(s, 0);
    let end = spec_trim_space_end(s);
    if start >= end {
        Seq::empty()
    } else {
        s.subrange(start, end)
    }
}

/// The length of `v[..end]` once trailing white space is dropped.
pub fn trim_space_end(v: &Vec<char>, end: usize) -> (r: usize)
    requires
        end <= v.len(),
    ensures
        r == spec_trim_space_end(v@.take(end as int)),
        r <= end,
{
    let mut n: usize = end;
    while n > 0 && char_is_whitespace(v[n - 1])
        invariant
            n <= end <= v.len(),
            spec_trim_space_end(v@.take(end as int)) == spec_trim_space_end(v@.take(n as int)),
        decreases n,
    {
        proof {
            assert(v@.take(n as int).drop_last() == v@.take(n - 1));
        }
        n -= 1;
    }
    n
}

/// The text of `v` without leading and trailing white space.
pub fn trimmed(v: &Vec<char>) -> (s: String)
    ensures
        s@ == spec_trim(v@),
{
    let start = skip_space(v, 0);
    let end = trim_space_end(v, v.len());
    proof {
        assert(v@.take(v.len() as int) == v@);
    }
    if start >= end {
        String::new()
    } else {
        string_of(v, start, end)
    }
}

/// The decimal digit for `d`.
pub open spec fn spec_digit(d: int) -> char {
    if d == 0 {
        '0'
    } else if d == 1 {
        '1'
    } else if d == 2 {
        '2'
    } else if d == 3 {
        '3'
    } else if d == 4 {
        '4'
    } else if d == 5 {
        '5'
    } else if d == 6 {
        '6'
    } else if d == 7 {
        '7'
    } else if d == 8 {
        '8'
    } else {
        '9'
    }
}

/// The decimal notation of `n`, without leading zeros.
pub open spec fn spec_decimal(n: nat) -> Seq<char>
    decreases n,
{
    if n < 10 {
        seq![spec_digit(n as int)]
    } else {
        spec_decimal(n / 10).push(spec_digit((n % 10) as int))
    }
}

fn digit(d: u64) -> (c: char)
    requires
        d < 10,
    ensures
        c == spec_digit(d as int),
{
    if d == 0 {
        '0'
    } else if d == 1 {
        '1'
    } else if d == 2 {
        '2'
    } else if d == 3 {
        '3'
    } else if d == 4 {
        '4'
    } else if d == 5 {
        '5'
    } else if d == 6 {
        '6'
    } else if d == 7 {
        '7'
    } else if d == 8 {
        '8'
    } else {
        '9'
    }
}

/// Appends the decimal notation of `n` to `s`.
pub fn push_decimal(s: &mut String, n: u64)
    ensures
        final(s)@ == old(s)@ + spec_decimal(n as nat),
    decreases n,
{
    if n < 10 {
        s.push(digit(n));
        proof {
            assert(old(s)@.push(spec_digit(n as int)) =~= old(s)@ + spec_decimal(n as nat));
        }
    } else {
        push_decimal(s, n / 10);
        s.push(digit(n % 10));
        proof {
            assert((old(s)@ + spec_decimal((n / 10) as nat)).push(spec_digit((n % 10) as int))
                =~= old(s)@ + spec_decimal(n as nat));
        }
    }
}

/// The upper-case form of an ASCII letter; any other character unchanged.
pub open spec fn spec_ascii_upper(c: char) -> char {
    if 'a' <= c && c <= 'z' {
        ((c as u8) - 32) as char
    } else {
        c
    }
}

/// The lower-case form of an ASCII letter; any other character unchanged.
pub open spec fn spec_ascii_lower(c: char) -> char {
    if 'A' <= c && c <= 'Z' {
        ((c as u8) + 32) as char
    } else {
        c
    }
}

/// The upper-case form of an ASCII letter; any other character unchanged.
pub fn ascii_upper(c: char) -> (r: char)
    ensures
        r == spec_ascii_upper(c),
{
    if 'a' <= c && c <= 'z' {
        ((c as u8) - 32) as char
    } else {
        c
    }
}

/// The lower-case form of an ASCII letter; any other character unchanged.
pub fn ascii_lower(c: char) -> (r: char)
    ensures
        r == spec_ascii_lower(c),
{
    if 'A' <= c && c <= 'Z' {
        ((c as u8) + 32) as char
    } else {
        c
    }
}

/// The texts of `parts` joined, with `sep` between neighbours.
pub open spec fn spec_join(parts: Seq<Seq<char>>, sep: Seq<char>) -> Seq<char>
    decreases parts.len(),
{
    if parts.len() == 0 {
        Seq::empty()
    } else if parts.len() == 1 {
        parts[0]
    } else {
        spec_join(parts.drop_last(), sep) + sep + parts.last()
    }
}

/// The views of the strings of `v`.
pub open spec fn views(v: Seq<String>) -> Seq<Seq<char>> {
    Seq::new(v.len(), |i: int| v[i]@)
}

/// The strings of `parts` joined, with `sep` between neighbours.
pub fn join(parts: &Vec<String>, sep: &str) -> (s: String)
    ensures
        s@ == spec_join(views(parts@), sep@),
{
    let mut s = String::new();
    let mut i: usize = 0;
    while i < parts.len()
        invariant
            i <= parts.len(),
            s@ == spec_join(views(parts@).take(i as int), sep@),
        decreases parts.len() - i,
    {
        if i > 0 {
            push_text(&mut s, sep);
        }
        push_text(&mut s, parts[i].as_str());
        i += 1;
        proof {
            let t = views(parts@).take(i as int);
            assert(t.drop_last() == views(parts@).take(i - 1));
            assert(t.last() == parts@[i - 1]@);
            if i == 1 {
                assert(s@ =~= parts@[0]@);
            }
        }
    }
    proof {
        assert(views(parts@).take(parts.len() as int) == views(parts@));
    }
    s
}

} // verus!
