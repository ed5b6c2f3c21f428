//! Small text utilities over character sequences.

use vstd::prelude::*;

verus! {

/// Whether two pieces of text hold the same characters.
pub fn text_eq(a: &str, b: &str) -> (same: bool)
    ensures
        same == (a@ == b@),
{
    let x: String = String::from_str(a);
    let y: String = String::from_str(b);
    x == y
}

/// The characters of `s`, for constant-time indexing.
pub fn chars_of(s: &str) -> (chars: Vec<char>)
    ensures
        chars@ == s@,
{
    let mut out: Vec<char> = Vec::new();
    let n: usize = s.unicode_len();
    let mut i: usize = 0;
    while i < n
        invariant
            n == s@.len(),
            i <= n,
            out@ == s@.subrange(0, i as int),
        decreases n - i,
    {
        out.push(s.get_char(i));
        i += 1;
    }
    assert(out@ == s@);
    out
}

/// Whether `needle` stands in `hay` at position `at`.
pub open spec fn occurs_at(hay: Seq<char>, at: int, needle: Seq<char>) -> bool {
    0 <= at && at + needle.len() <= hay.len() && hay.subrange(at, at + needle.len()) == needle
}

/// Whether `needle` stands somewhere in `hay`.
pub open spec fn contains(hay: Seq<char>, needle: Seq<char>) -> bool {
    exists|at: int| occurs_at(hay, at, needle)
}

/// Whether `c` stands nowhere in `text`.
pub open spec fn lacks(text: Seq<char>, c: char) -> bool {
    forall|i: int| 0 <= i < text.len() ==> text[i] != c
}

/// Whether `text` begins with `prefix`.
pub open spec fn has_prefix(text: Seq<char>, prefix: Seq<char>) -> bool {
    occurs_at(text, 0, prefix)
}

/// Tells whether `needle` stands in `hay` at position `at`, looking no further than `end`.
pub fn occurs_within(hay: &Vec<char>, at: usize, end: usize, needle: &Vec<char>) -> (found: bool)
    requires
        at <= end <= hay@.len(),
    ensures
        found == (at + needle@.len() <= end && hay@.subrange(
            at as int,
            at + needle@.len(),
        ) == needle@),
{
    let m: usize = needle.len();
    if m > end - at {
        return false;
    }
    let ghost window = hay@.subrange(at as int, at + m);
    let mut k: usize = 0;
    while k < m
        invariant
            at + m <= end <= hay@.len(),
            m == needle@.len(),
            k <= m,
            window == hay@.subrange(at as int, at + m),
            forall|j: int| 0 <= j < k ==> window[j] == needle@[j],
        decreases m - k,
    {
        if hay[at + k] != needle[k] {
            assert(window[k as int] != needle@[k as int]);
            return false;
        }
        k += 1;
    }
    assert(window =~= needle@);
    true
}

/// Tells whether `needle` stands somewhere in `hay`.
pub fn text_contains(hay: &str, needle: &str) -> (found: bool)
    ensures
        found == contains(hay@, needle@),
{
    let h = chars_of(hay);
    let p = chars_of(needle);
    let n: usize = h.len();
    if p.len() > n {
        return false;
    }
    if p.len() == 0 {
        assert(occurs_at(hay@, 0, needle@)) by {
            assert(hay@.subrange(0, 0) =~= needle@);
        }
        return true;
    }
    let last: usize = n - p.len();
    let mut i: usize = 0;
    while i <= last
        invariant
            n == h@.len(),
            h@ == hay@,
            p@ == needle@,
            last + p@.len() == n,
            last < n,
            i <= last + 1,
            forall|j: int| 0 <= j < i ==> !occurs_at(hay@, j, needle@),
        decreases last + 1 - i,
    {
        if occurs_within(&h, i, n, &p) {
            assert(occurs_at(hay@, i as int, needle@));
            return true;
        }
        i += 1;
    }
    false
}

/// The kinds of character that trimming removes from the ends of a text.
#[derive(Debug, Clone, Copy, PartialEq, Eq, Structural)]
pub enum Trim {
    /// The double quote.
    Quotes,
    /// Space, tab, line feed, carriage return, vertical tab and form feed.
    Whitespace,
}

impl Trim {
    /// Whether trimming of this kind removes `c`.
    pub open spec fn strips(self, c: char) -> bool {
        match self {
            Trim::Quotes => c == '"',
            Trim::Whitespace => c == ' ' || c == '\t' || c == '\n' || c == '\r' || c == '\x0b'
                || c == '\x0c',
        }
    }

    /// Tells whether trimming of this kind removes `c`.
    pub fn removes(self, c: char) -> (yes: bool)
        ensures
            yes == self.strips(c),
    {
        match self {
            Trim::Quotes => c == '"',
            Trim::Whitespace => c == ' ' || c == '\t' || c == '\n' || c == '\r' || c == '\x0b'
                || c == '\x0c',
        }
    }
}

/// `s` without the removable characters at its start.
pub open spec fn skip_leading(s: Seq<char>, kind: Trim) -> Seq<char>
    decreases s.len(),
{
    if s.len() > 0 && kind.strips(s[0]) {
        skip_leading(s.drop_first(), kind)
    } else {
        s
    }
}

/// `s` without the removable characters at its end.
pub open spec fn skip_trailing(s: Seq<char>, kind: Trim) -> Seq<char>
    decreases s.len(),
{
    if s.len() > 0 && kind.strips(s.last()) {
        skip_trailing(s.drop_last(), kind)
    } else {
        s
    }
}

/// `s` without the removable characters at either end.
pub open spec fn trimmed(s: Seq<char>, kind: Trim) -> Seq<char> {
    skip_trailing(skip_leading(s, kind), kind)
}

/// Finds the part of `chars[from..to]` that remains after trimming.
pub fn trim_bounds(chars: &Vec<char>, from: usize, to: usize, kind: Trim) -> (r: (usize, usize))
    requires
        from <= to <= chars@.len(),
    ensures
        from <= r.0 <= r.1 <= to,
        chars@.subrange(r.0 as int, r.1 as int) == trimmed(
            chars@.subrange(from as int, to as int),
            kind,
        ),
{
    let mut a: usize = from;
    while a < to && kind.removes(chars[a])
        invariant
            from <= a <= to <= chars@.len(),
            skip_leading(chars@.subrange(from as int, to as int), kind) == skip_leading(
                chars@.subrange(a as int, to as int),
                kind,
            ),
        decreases to - a,
    {
        assert(chars@.subrange(a as int, to as int).drop_first() =~= chars@.subrange(
            a + 1,
            to as int,
        ));
        a += 1;
    }
    let mut b: usize = to;
    while b > a && kind.removes(chars[b - 1])
        invariant
            a <= b <= to <= chars@.len(),
            skip_trailing(chars@.subrange(a as int, to as int), kind) == skip_trailing(
                chars@.subrange(a as int, b as int),
                kind,
            ),
        decreases b - a,
    {
        assert(chars@.subrange(a as int, b as int).drop_last() =~= chars@.subrange(
            a as int,
            b - 1,
        ));
        b -= 1;
    }
    (a, b)
}

/// The text without the removable characters at either end.
pub fn trim(s: &str, kind: Trim) -> (r: &str)
    ensures
        r@ == trimmed(s@, kind),
{
    let chars = chars_of(s);
    assert(chars@.subrange(0, chars@.len() as int) =~= chars@);
    let (a, b) = trim_bounds(&chars, 0, chars.len(), kind);
    s.substring_char(a, b)
}

} // verus!
