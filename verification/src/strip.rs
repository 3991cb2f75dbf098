//! Text with its ends stripped, and the order of texts.
use vstd::prelude::*;

use crate::text::{chars_of, text_of};

verus! {

/// The kinds of characters that are stripped from the ends of a text.
#[derive(Clone, Copy, Debug, PartialEq, Eq, Structural)]
pub enum Edge {
    /// Unicode white space.
    Space,
    /// Curly braces.
    Brace,
}

/// Whether a character is of the given kind. White space is the set of
/// characters with the Unicode property of that name.
pub open spec fn is_edge(kind: Edge, c: char) -> bool {
    match kind {
        Edge::Space => {
            ||| '\t' <= c <= '\r'
            ||| c == ' '
            ||| c == '\u{85}'
            ||| c == '\u{a0}'
            ||| c == '\u{1680}'
            ||| '\u{2000}' <= c <= '\u{200a}'
            ||| c == '\u{2028}'
            ||| c == '\u{2029}'
            ||| c == '\u{202f}'
            ||| c == '\u{205f}'
            ||| c == '\u{3000}'
        },
        Edge::Brace => c == '{' || c == '}',
    }
}

/// `s` without the characters of the given kind at its start.
pub open spec fn strip_start(s: Seq<char>, kind: Edge) -> Seq<char>
    decreases s.len(),
{
    if s.len() > 0 && is_edge(kind, s[0]) {
        strip_start(s.skip(1), kind)
    } else {
        s
    }
}

/// `s` without the characters of the given kind at its end.
pub open spec fn strip_end(s: Seq<char>, kind: Edge) -> Seq<char>
    decreases s.len(),
{
    if s.len() > 0 && is_edge(kind, s.last()) {
        strip_end(s.drop_last(), kind)
    } else {
        s
    }
}

/// `s` without the characters of the given kind at its two ends.
pub open spec fn strip(s: Seq<char>, kind: Edge) -> Seq<char> {
    strip_end(strip_start(s, kind), kind)
}

/// Whether a character is of the given kind.
fn has_kind(kind: Edge, c: char) -> (r: bool)
    ensures
        r == is_edge(kind, c),
{
    match kind {
        Edge::Space => ('\t' <= c && c <= '\r') || c == ' ' || c == '\u{85}' || c == '\u{a0}' || c
            == '\u{1680}' || ('\u{2000}' <= c && c <= '\u{200a}') || c == '\u{2028}' || c
            == '\u{2029}' || c == '\u{202f}' || c == '\u{205f}' || c == '\u{3000}',
        Edge::Brace => c == '{' || c == '}',
    }
}

/// Strips the characters of the given kind from the two ends of a text.
pub fn stripped(s: &str, kind: Edge) -> (r: String)
    ensures
        r@ == strip(s@, kind),
{
    let chars: Vec<char> = chars_of(s);
    let mut from: usize = 0;
    assert(s@.skip(0) =~= s@);
    while from < chars.len() && has_kind(kind, chars[from])
        invariant
            chars@ == s@,
            from <= chars@.len(),
            strip_start(s@.skip(from as int), kind) == strip_start(s@, kind),
        decreases chars@.len() - from,
    {
        assert(s@.skip(from as int).skip(1) =~= s@.skip(from + 1));
        from += 1;
    }
    let ghost rest = s@.skip(from as int);
    assert(strip_start(s@, kind) == rest);
    let mut to: usize = chars.len();
    assert(s@.subrange(from as int, to as int) =~= rest);
    while to > from && has_kind(kind, chars[to - 1])
        invariant
            chars@ == s@,
            from <= to <= chars@.len(),
            strip_end(s@.subrange(from as int, to as int), kind) == strip_end(rest, kind),
        decreases to - from,
    {
        assert(s@.subrange(from as int, to as int).drop_last() =~= s@.subrange(
            from as int,
            to - 1,
        ));
        to -= 1;
    }
    text_of(&chars, from, to)
}

/// `a` comes before `b`: at the first place where they differ its character is
/// the smaller one, or it ends there.
pub open spec fn text_before(a: Seq<char>, b: Seq<char>) -> bool
    decreases a.len(),
{
    if b.len() == 0 {
        false
    } else if a.len() == 0 {
        true
    } else if a[0] != b[0] {
        a[0] < b[0]
    } else {
        text_before(a.skip(1), b.skip(1))
    }
}

/// Whether `a` comes before `b`.
pub fn comes_before(a: &str, b: &str) -> (r: bool)
    ensures
        r == text_before(a@, b@),
{
    let x: Vec<char> = chars_of(a);
    let y: Vec<char> = chars_of(b);
    let mut i: usize = 0;
    assert(a@.skip(0) =~= a@);
    assert(b@.skip(0) =~= b@);
    while i < x.len() && i < y.len()
        invariant
            x@ == a@,
            y@ == b@,
            i <= x@.len(),
            i <= y@.len(),
            text_before(a@.skip(i as int), b@.skip(i as int)) == text_before(a@, b@),
        decreases x@.len() - i,
    {
        if x[i] != y[i] {
            return x[i] < y[i];
        }
        assert(a@.skip(i as int).skip(1) =~= a@.skip(i + 1));
        assert(b@.skip(i as int).skip(1) =~= b@.skip(i + 1));
        i += 1;
    }
    i < y.len()
}

/// No text comes before itself.
pub proof fn order_is_irreflexive(a: Seq<char>)
    ensures
        !text_before(a, a),
    decreases a.len(),
{
    if a.len() > 0 {
        order_is_irreflexive(a.skip(1));
    }
}

/// What comes before a text comes before everything behind that text.
pub proof fn order_is_transitive(a: Seq<char>, b: Seq<char>, c: Seq<char>)
    requires
        text_before(a, b),
        text_before(b, c),
    ensures
        text_before(a, c),
    decreases a.len(),
{
    if a.len() > 0 && a[0] == b[0] && b[0] == c[0] {
        order_is_transitive(a.skip(1), b.skip(1), c.skip(1));
    }
}

/// Of two different texts one comes before the other.
pub proof fn order_is_total(a: Seq<char>, b: Seq<char>)
    requires
        a != b,
    ensures
        text_before(a, b) || text_before(b, a),
    decreases a.len(),
{
    if a.len() == 0 || b.len() == 0 {
        if a.len() == b.len() {
            assert(a =~= b);
        }
    } else if a[0] == b[0] {
        if a.skip(1) == b.skip(1) {
            assert(a =~= seq![a[0]] + a.skip(1));
            assert(b =~= seq![b[0]] + b.skip(1));
        }
        order_is_total(a.skip(1), b.skip(1));
    }
}

} // verus!
