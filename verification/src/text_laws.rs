//! What the functions on texts are for: how a text is found and cut, put into
//! lower case, stripped, ordered, written as a number and read as one, and made
//! wide.
use vstd::prelude::*;

use crate::strip::{is_edge, strip, strip_end, strip_start, text_before, Edge};
use crate::text::{
    contains_text, decimal, decimal_int, digits_value, first_at, int_value, lower, occurs_at, utf16,
    utf16_char, without,
};

verus! {

/// Two characters are the same, or the two cases of one ASCII letter.
pub open spec fn same_letter(x: char, y: char) -> bool {
    ||| x == y
    ||| 'A' <= x <= 'Z' && y as int == x as int + 32
    ||| 'A' <= y <= 'Z' && x as int == y as int + 32
}

/// Two texts are the same up to the case of ASCII letters.
pub open spec fn same_letters(a: Seq<char>, b: Seq<char>) -> bool {
    a.len() == b.len() && forall|i: int| 0 <= i < a.len() ==> same_letter(#[trigger] a[i], b[i])
}

/// Lower case moves the letters from A to Z by 32 and keeps every other
/// character, each at its place.
pub proof fn lower_case_keeps_the_rest(s: Seq<char>, i: int)
    requires
        0 <= i < s.len(),
    ensures
        lower(s).len() == s.len(),
        'A' <= s[i] <= 'Z' ==> lower(s)[i] as int == s[i] as int + 32,
        !('A' <= s[i] <= 'Z') ==> lower(s)[i] == s[i],
{
}

/// Two texts have the same lower case exactly when they are the same up to the
/// case of ASCII letters.
pub proof fn lower_case_tells_letters(a: Seq<char>, b: Seq<char>)
    ensures
        lower(a) == lower(b) <==> same_letters(a, b),
{
    if lower(a) == lower(b) {
        assert(lower(a).len() == a.len() && lower(b).len() == b.len());
        assert forall|i: int| 0 <= i < a.len() implies same_letter(#[trigger] a[i], b[i]) by {
            assert(lower(a)[i] == lower(b)[i]);
            lower_case_keeps_the_rest(a, i);
            lower_case_keeps_the_rest(b, i);
        }
    }
    if same_letters(a, b) {
        assert forall|i: int| 0 <= i < a.len() implies lower(a)[i] == lower(b)[i] by {
            assert(same_letter(a[i], b[i]));
            lower_case_keeps_the_rest(a, i);
            lower_case_keeps_the_rest(b, i);
        }
        assert(lower(a) =~= lower(b));
    }
}

/// Lower case is taken character by character.
pub proof fn lower_case_of_parts(a: Seq<char>, b: Seq<char>)
    ensures
        lower(a + b) == lower(a) + lower(b),
{
    assert(lower(a + b) =~= lower(a) + lower(b));
}

/// A text is found wherever it stands in another one, and only there.
pub proof fn text_is_found_where_it_stands(a: Seq<char>, p: Seq<char>, b: Seq<char>, s: Seq<char>)
    ensures
        contains_text(a + p + b, p),
        occurs_at(a + p + b, p, a.len() as int),
        contains_text(s, p) ==> exists|x: Seq<char>, y: Seq<char>| s == #[trigger] (x + p + y),
{
    let t = a + p + b;
    assert(t.subrange(a.len() as int, (a.len() + p.len()) as int) =~= p);
    assert(occurs_at(t, p, a.len() as int));
    if contains_text(s, p) {
        let i = choose|i: int| occurs_at(s, p, i);
        let x = s.take(i);
        let y = s.skip(i + p.len());
        assert(s =~= x + p + y);
    }
}

/// What is taken out of a text is its first occurrence, and then those in what
/// follows; a text without any occurrence is kept.
pub proof fn occurrences_are_taken_out(a: Seq<char>, p: Seq<char>, b: Seq<char>)
    requires
        p.len() > 0,
        first_at(a + p + b, p, a.len() as int),
    ensures
        without(a + p + b, p) == a + without(b, p),
    decreases a.len(),
{
    let s = a + p + b;
    if a.len() == 0 {
        assert(s.skip(p.len() as int) =~= b);
        assert(without(b, p) =~= a + without(b, p));
    } else {
        let c = a.skip(1);
        assert(!occurs_at(s, p, 0));
        assert(s.skip(1) =~= c + p + b);
        assert(s.skip(1).subrange(c.len() as int, (c.len() + p.len()) as int) =~= p);
        assert forall|j: int| 0 <= j < c.len() implies !occurs_at(c + p + b, p, j) by {
            if occurs_at(c + p + b, p, j) {
                assert(s.subrange(j + 1, j + 1 + p.len()) =~= (c + p + b).subrange(
                    j,
                    j + p.len(),
                ));
                assert(occurs_at(s, p, j + 1));
            }
        }
        occurrences_are_taken_out(c, p, b);
        assert(seq![s[0]] + (c + without(b, p)) =~= a + without(b, p));
    }
}

/// A text that does not hold another one is kept when that is taken out.
pub proof fn absent_text_is_not_taken_out(s: Seq<char>, p: Seq<char>)
    requires
        !contains_text(s, p),
    ensures
        without(s, p) == s,
    decreases s.len(),
{
    if p.len() > 0 && s.len() > 0 {
        assert(!occurs_at(s, p, 0));
        assert(!contains_text(s.skip(1), p)) by {
            if contains_text(s.skip(1), p) {
                let i = choose|i: int| occurs_at(s.skip(1), p, i);
                assert(s.skip(1).subrange(i, i + p.len()) =~= s.subrange(i + 1, i + 1 + p.len()));
                assert(occurs_at(s, p, i + 1));
            }
        }
        absent_text_is_not_taken_out(s.skip(1), p);
        assert(seq![s[0]] + s.skip(1) =~= s);
    }
}

/// White space is what Unicode calls so, by number; braces are the curly ones.
pub proof fn edges_are_these(c: char)
    ensures
        is_edge(Edge::Brace, c) <==> c == '{' || c == '}',
        is_edge(Edge::Space, c) <==> {
            let n = c as int;
            ||| n == 9
            ||| n == 10
            ||| n == 11
            ||| n == 12
            ||| n == 13
            ||| n == 32
            ||| n == 0x85
            ||| n == 0xa0
            ||| n == 0x1680
            ||| 0x2000 <= n <= 0x200a
            ||| n == 0x2028
            ||| n == 0x2029
            ||| n == 0x202f
            ||| n == 0x205f
            ||| n == 0x3000
        },
{
}

/// Every character of a text is of a kind.
pub open spec fn all_edge(s: Seq<char>, kind: Edge) -> bool {
    forall|i: int| 0 <= i < s.len() ==> is_edge(kind, #[trigger] s[i])
}

/// Stripping gives what stands between the characters of the kind at the two
/// ends, whole and unchanged.
pub proof fn stripping_keeps_the_middle(a: Seq<char>, m: Seq<char>, b: Seq<char>, kind: Edge)
    requires
        all_edge(a, kind),
        all_edge(b, kind),
        m.len() > 0 ==> !is_edge(kind, m[0]) && !is_edge(kind, m.last()),
    ensures
        strip(a + m + b, kind) == m,
    decreases a.len() + b.len(),
{
    let s = a + m + b;
    if a.len() > 0 {
        let c = a.skip(1);
        assert(s[0] == a[0]);
        assert(s.skip(1) =~= c + m + b);
        assert forall|i: int| 0 <= i < c.len() implies is_edge(kind, #[trigger] c[i]) by {
            assert(c[i] == a[i + 1]);
        }
        stripping_keeps_the_middle(c, m, b, kind);
    } else if m.len() == 0 {
        if b.len() > 0 {
            assert(s =~= b);
            assert forall|i: int| 0 <= i < b.skip(1).len() implies is_edge(
                kind,
                #[trigger] b.skip(1)[i],
            ) by {
                assert(b.skip(1)[i] == b[i + 1]);
            }
            stripping_keeps_the_middle(a, m, b.skip(1), kind);
            assert(a + m + b.skip(1) =~= b.skip(1));
        } else {
            assert(s =~= m);
        }
    } else {
        assert(s[0] == m[0]);
        assert(s =~= m + b);
        lemma_strip_end(m, b, kind);
    }
}

/// Stripping the end takes away the characters of the kind that stand there.
proof fn lemma_strip_end(m: Seq<char>, b: Seq<char>, kind: Edge)
    requires
        all_edge(b, kind),
        m.len() > 0,
        !is_edge(kind, m.last()),
    ensures
        strip_end(m + b, kind) == m,
    decreases b.len(),
{
    let s = m + b;
    if b.len() == 0 {
        assert(s =~= m);
    } else {
        assert(s.last() == b.last());
        assert(s.drop_last() =~= m + b.drop_last());
        lemma_strip_end(m, b.drop_last(), kind);
    }
}

/// Every text is made of characters of the kind, its stripped form, and
/// characters of the kind again; the stripped form has none at its ends.
pub proof fn stripped_form_lies_inside(s: Seq<char>, kind: Edge) -> (parts: (Seq<char>, Seq<char>))
    ensures
        s == parts.0 + strip(s, kind) + parts.1,
        all_edge(parts.0, kind),
        all_edge(parts.1, kind),
        strip(s, kind).len() > 0 ==> !is_edge(kind, strip(s, kind)[0]) && !is_edge(
            kind,
            strip(s, kind).last(),
        ),
    decreases s.len(),
{
    if s.len() > 0 && is_edge(kind, s[0]) {
        let (a, b) = stripped_form_lies_inside(s.skip(1), kind);
        let c = seq![s[0]] + a;
        let m = strip(s, kind);
        assert(s.skip(1) == a + m + b);
        assert(s =~= seq![s[0]] + s.skip(1));
        assert(seq![s[0]] + (a + m + b) =~= c + m + b);
        assert forall|i: int| 0 <= i < c.len() implies is_edge(kind, #[trigger] c[i]) by {
            if i > 0 {
                assert(c[i] == a[i - 1]);
            }
        }
        (c, b)
    } else {
        let b = lemma_end_part(s, kind);
        let m = strip_end(s, kind);
        if m.len() > 0 {
            assert(m[0] == s[0]);
        }
        assert(s =~= seq![] + m + b);
        (seq![], b)
    }
}

/// What stripping the end takes away.
proof fn lemma_end_part(s: Seq<char>, kind: Edge) -> (b: Seq<char>)
    ensures
        s == strip_end(s, kind) + b,
        all_edge(b, kind),
        strip_end(s, kind).len() > 0 ==> !is_edge(kind, strip_end(s, kind).last()),
    decreases s.len(),
{
    if s.len() > 0 && is_edge(kind, s.last()) {
        let c = lemma_end_part(s.drop_last(), kind);
        let m = strip_end(s, kind);
        assert(s.drop_last() == m + c);
        assert(s =~= s.drop_last().push(s.last()));
        assert((m + c).push(s.last()) =~= m + c.push(s.last()));
        c.push(s.last())
    } else {
        assert(s =~= s + seq![]);
        seq![]
    }
}

/// The first place where two texts differ decides which comes first: the one
/// with the smaller character there, or the one that ends there.
pub proof fn first_difference_decides(
    p: Seq<char>,
    x: char,
    a: Seq<char>,
    y: char,
    b: Seq<char>,
)
    requires
        x != y,
    ensures
        text_before(p + seq![x] + a, p + seq![y] + b) <==> x < y,
        text_before(p, p + seq![y] + b),
        !text_before(p + seq![y] + b, p),
    decreases p.len(),
{
    let s = p + seq![x] + a;
    let t = p + seq![y] + b;
    if p.len() == 0 {
        assert(s[0] == x && t[0] == y);
    } else {
        let q = p.skip(1);
        assert(s.skip(1) =~= q + seq![x] + a);
        assert(t.skip(1) =~= q + seq![y] + b);
        first_difference_decides(q, x, a, y, b);
    }
}

/// A number is written digit by digit, the last one being the rest by ten, and
/// reads back; but for zero itself it does not begin with a zero.
pub proof fn number_reads_back(n: nat)
    ensures
        digits_value(decimal(n)) == Some(n),
        decimal(n).last() as int == 48 + n % 10,
        n < 10 ==> decimal(n).len() == 1,
        n >= 10 ==> decimal(n).drop_last() == decimal(n / 10),
        n > 0 ==> decimal(n)[0] != '0',
        decimal(n).len() > 0,
        forall|i: int| 0 <= i < decimal(n).len() ==> '0' <= #[trigger] decimal(n)[i] <= '9',
    decreases n,
{
    if n >= 10 {
        number_reads_back(n / 10);
        let d = decimal(n / 10);
        assert(decimal(n).drop_last() =~= d);
        assert(decimal(n)[0] == d[0]);
    }
}

/// A signed number reads back, with a minus sign exactly where it is negative.
pub proof fn signed_number_reads_back(n: i32)
    ensures
        int_value(decimal_int(n as int)) == Some(n as int),
        n < 0 <==> decimal_int(n as int)[0] == '-',
        n >= 0 ==> decimal_int(n as int) == decimal(n as nat),
        n < 0 ==> decimal_int(n as int) == seq!['-'] + decimal((-n) as nat),
{
    if n < 0 {
        number_reads_back((-n) as nat);
        assert(decimal_int(n as int).skip(1) =~= decimal((-n) as nat));
    } else {
        number_reads_back(n as nat);
    }
}

/// Only digits with at most one sign before them are a number.
pub proof fn only_digits_are_a_number(s: Seq<char>, i: int)
    requires
        int_value(s) is Some,
        0 <= i < s.len(),
    ensures
        '0' <= s[i] <= '9' || i == 0 && s.len() > 1 && (s[i] == '-' || s[i] == '+'),
        -0x8000_0000 <= int_value(s)->0 <= 0x7fff_ffff,
{
    if s[0] == '-' || s[0] == '+' {
        if i > 0 {
            lemma_digit_at(s.skip(1), i - 1);
        }
    } else {
        lemma_digit_at(s, i);
    }
}

/// A run of digits is made of digits.
proof fn lemma_digit_at(s: Seq<char>, i: int)
    requires
        digits_value(s) is Some,
        0 <= i < s.len(),
    ensures
        '0' <= s[i] <= '9',
    decreases s.len(),
{
    if i < s.len() - 1 {
        lemma_digit_at(s.drop_last(), i);
    }
}

/// A number is read digit by digit: one digit is its value, one more digit
/// multiplies by ten and adds, and a sign before it counts for all of it. Where
/// the value leaves 32 bits there is no number. The empty text is none.
pub proof fn digits_are_read_in_order(s: Seq<char>, c: char, v: int)
    requires
        '0' <= c <= '9',
        digits_value(s) == Some(v as nat),
        v >= 0,
    ensures
        ({
            let d = c as int - 48;
            let longer = 10 * v + d;
            &&& int_value(seq![]) is None
            &&& int_value(seq!['-']) is None
            &&& int_value(seq!['+']) is None
            &&& int_value(seq![c]) == Some(d)
            &&& digits_value(seq![c]) == Some(d as nat)
            &&& digits_value(s.push(c)) == Some(longer as nat)
            &&& int_value(s.push(c)) == if longer <= 0x7fff_ffff {
                Some(longer)
            } else {
                None
            }
            &&& int_value(seq!['+'] + s.push(c)) == int_value(s.push(c))
            &&& int_value(seq!['-'] + s.push(c)) == if longer <= 0x8000_0000 {
                Some(-longer)
            } else {
                None
            }
        }),
{
    let t = s.push(c);
    assert(t.drop_last() =~= s);
    assert(s.len() > 0);
    lemma_digit_at(s, 0);
    assert(t[0] == s[0]);
    assert((seq!['+'] + t).skip(1) =~= t);
    assert((seq!['-'] + t).skip(1) =~= t);
    assert(seq!['-'].skip(1) =~= Seq::<char>::empty());
    assert(seq!['+'].skip(1) =~= Seq::<char>::empty());
}

/// A text is made wide character by character. One of the basic plane is one
/// unit of its number; any other one is a high and a low surrogate that give the
/// number back.
pub proof fn wide_text_keeps_the_characters(a: Seq<char>, b: Seq<char>, c: char)
    ensures
        utf16(a + b) == utf16(a) + utf16(b),
        utf16(seq![]) == Seq::<u16>::empty(),
        utf16(seq![c]) == utf16_char(c),
        (c as int) < 0x1_0000 ==> utf16_char(c).len() == 1 && utf16_char(c)[0] == c as int,
        (c as int) >= 0x1_0000 ==> {
            let u = utf16_char(c);
            &&& u.len() == 2
            &&& 0xd800 <= u[0] < 0xdc00
            &&& 0xdc00 <= u[1] < 0xe000
            &&& 0x1_0000 + (u[0] - 0xd800) * 0x400 + (u[1] - 0xdc00) == c as int
        },
    decreases b.len(),
{
    if b.len() == 0 {
        assert(a + b =~= a);
        assert(utf16(a) + utf16(b) =~= utf16(a));
    } else {
        assert((a + b).drop_last() =~= a + b.drop_last());
        wide_text_keeps_the_characters(a, b.drop_last(), c);
        assert(utf16(a) + (utf16(b.drop_last()) + utf16_char(b.last())) =~= utf16(a) + utf16(
            b.drop_last(),
        ) + utf16_char(b.last()));
    }
    let one = seq![c];
    assert(one.drop_last() =~= Seq::<char>::empty());
    assert(utf16(one.drop_last()) =~= Seq::<u16>::empty());
    assert(utf16(one) =~= utf16_char(c));
}

/// The first place of a text in another one is that which no place of it comes
/// before.
pub proof fn first_place_comes_first(a: Seq<char>, p: Seq<char>, b: Seq<char>)
    ensures
        first_at(a + p + b, p, a.len() as int) <==> forall|j: int|
            0 <= j < a.len() ==> #[trigger] (a + p + b).subrange(j, j + p.len()) != p,
{
    let s = a + p + b;
    text_is_found_where_it_stands(a, p, b, s);
    assert forall|j: int| 0 <= j < a.len() implies (occurs_at(s, p, j) <==> #[trigger] s.subrange(
        j,
        j + p.len(),
    ) == p) by {}
    if first_at(s, p, a.len() as int) {
        assert forall|j: int| 0 <= j < a.len() implies #[trigger] s.subrange(j, j + p.len()) != p by {
            assert(!occurs_at(s, p, j));
        }
    } else {
        let j = choose|j: int| 0 <= j < a.len() && occurs_at(s, p, j);
        assert(s.subrange(j, j + p.len()) == p);
    }
}

} // verus!
