//! Text as sequences of characters: case folding, searching, numbers, and the
//! wide strings that the platform takes.
use vstd::prelude::*;

verus! {

/// Appends one character to a string. `String::push` does exactly this.
pub assume_specification[ String::push ](s: &mut String, c: char)
    ensures
        final(s)@ == old(s)@.push(c),
;

/// The ASCII lower-case form of a character; any other character is kept.
pub open spec fn lower_char(c: char) -> char {
    if 'A' <= c <= 'Z' {
        (c as u32 + 32) as char
    } else {
        c
    }
}

/// The ASCII lower-case form of a text.
pub open spec fn lower(s: Seq<char>) -> Seq<char> {
    s.map_values(|c: char| lower_char(c))
}

/// `p` stands in `s` at position `i`.
pub open spec fn occurs_at(s: Seq<char>, p: Seq<char>, i: int) -> bool {
    0 <= i && i + p.len() <= s.len() && s.subrange(i, i + p.len()) == p
}

/// `p` stands somewhere in `s`.
pub open spec fn contains_text(s: Seq<char>, p: Seq<char>) -> bool {
    exists|i: int| occurs_at(s, p, i)
}

/// `i` is the first position of `p` in `s`.
pub open spec fn first_at(s: Seq<char>, p: Seq<char>, i: int) -> bool {
    occurs_at(s, p, i) && forall|j: int| 0 <= j < i ==> !occurs_at(s, p, j)
}

/// The characters of a text.
pub fn chars_of(s: &str) -> (r: Vec<char>)
    ensures
        r@ == s@,
{
    let mut out: Vec<char> = Vec::new();
    for c in it: s.chars()
        invariant
            it.seq() == s@,
            out@ == s@.take(it.index() as int),
    {
        out.push(c);
    }
    out
}

/// The text made of the characters from `from` up to `to`.
pub fn text_of(chars: &[char], from: usize, to: usize) -> (r: String)
    requires
        from <= to <= chars@.len(),
    ensures
        r@ == chars@.subrange(from as int, to as int),
{
    let mut out = String::new();
    let mut i: usize = from;
    while i < to
        invariant
            from <= i <= to <= chars@.len(),
            out@ == chars@.subrange(from as int, i as int),
        decreases to - i,
    {
        out.push(chars[i]);
        i += 1;
    }
    out
}

/// Whether two texts are the same.
pub fn text_eq(a: &str, b: &str) -> (r: bool)
    ensures
        r == (a@ == b@),
{
    let x: Vec<char> = chars_of(a);
    let y: Vec<char> = chars_of(b);
    if x.len() != y.len() {
        return false;
    }
    let mut i: usize = 0;
    while i < x.len()
        invariant
            x@ == a@,
            y@ == b@,
            x@.len() == y@.len(),
            i <= x@.len(),
            forall|j: int| 0 <= j < i ==> x@[j] == y@[j],
        decreases x@.len() - i,
    {
        if x[i] != y[i] {
            return false;
        }
        i += 1;
    }
    assert(x@ =~= y@);
    true
}

/// Lower-cases one character.
fn to_lower(c: char) -> (r: char)
    ensures
        r == lower_char(c),
{
    if 'A' <= c && c <= 'Z' {
        ((c as u8) + 32) as char
    } else {
        c
    }
}

/// Lower-cases the ASCII letters of a text.
pub fn to_ascii_lowercase(s: &str) -> (r: String)
    ensures
        r@ == lower(s@),
{
    let chars: Vec<char> = chars_of(s);
    let mut out = String::new();
    let mut i: usize = 0;
    while i < chars.len()
        invariant
            chars@ == s@,
            i <= chars@.len(),
            out@ == lower(s@.take(i as int)),
        decreases chars@.len() - i,
    {
        out.push(to_lower(chars[i]));
        i += 1;
        assert(out@ =~= lower(s@.take(i as int)));
    }
    assert(s@.take(i as int) =~= s@);
    out
}

/// Whether `p` stands in `s` at position `i`.
fn matches_at(s: &[char], p: &[char], i: usize) -> (r: bool)
    ensures
        r == occurs_at(s@, p@, i as int),
{
    let n: usize = s.len();
    if p.len() > n || i > n - p.len() {
        return false;
    }
    let mut k: usize = 0;
    while k < p.len()
        invariant
            k <= p@.len(),
            i + p@.len() <= s@.len(),
            n == s@.len(),
            forall|j: int| 0 <= j < k ==> s@[i + j] == p@[j],
        decreases p@.len() - k,
    {
        if s[i + k] != p[k] {
            assert(s@.subrange(i as int, i + p@.len())[k as int] != p@[k as int]);
            return false;
        }
        k += 1;
    }
    assert(s@.subrange(i as int, i + p@.len()) =~= p@);
    true
}

/// The first position of `p` in `s`, counted in characters.
pub fn find_text(s: &str, p: &str) -> (r: Option<usize>)
    ensures
        match r {
            Some(i) => first_at(s@, p@, i as int),
            None => !contains_text(s@, p@),
        },
{
    let x: Vec<char> = chars_of(s);
    let y: Vec<char> = chars_of(p);
    let mut i: usize = 0;
    while i < x.len()
        invariant
            x@ == s@,
            y@ == p@,
            i <= x@.len(),
            forall|j: int| 0 <= j < i ==> !occurs_at(s@, p@, j),
        decreases x@.len() - i,
    {
        if matches_at(&x, &y, i) {
            return Some(i);
        }
        i += 1;
    }
    if matches_at(&x, &y, i) {
        return Some(i);
    }
    None
}

/// Whether `p` stands somewhere in `s`.
pub fn has_text(s: &str, p: &str) -> (r: bool)
    ensures
        r == contains_text(s@, p@),
{
    match find_text(s, p) {
        Some(_) => true,
        None => false,
    }
}

/// Whether `s` begins with `p`.
pub fn starts_with(s: &str, p: &str) -> (r: bool)
    ensures
        r == occurs_at(s@, p@, 0),
{
    let x: Vec<char> = chars_of(s);
    let y: Vec<char> = chars_of(p);
    matches_at(&x, &y, 0)
}

/// `s` with every occurrence of `p` taken out, found from left to right and
/// without overlap.
pub open spec fn without(s: Seq<char>, p: Seq<char>) -> Seq<char>
    decreases s.len(),
{
    if p.len() == 0 || s.len() == 0 {
        s
    } else if occurs_at(s, p, 0) {
        without(s.skip(p.len() as int), p)
    } else {
        seq![s[0]] + without(s.skip(1), p)
    }
}

/// Takes every occurrence of `p` out of `s`.
pub fn remove_text(s: &str, p: &str) -> (r: String)
    requires
        p@.len() > 0,
    ensures
        r@ == without(s@, p@),
{
    let x: Vec<char> = chars_of(s);
    let y: Vec<char> = chars_of(p);
    let mut out = String::new();
    let mut i: usize = 0;
    assert(s@.skip(0) =~= s@);
    while i < x.len()
        invariant
            x@ == s@,
            y@ == p@,
            p@.len() > 0,
            i <= x@.len(),
            out@ + without(s@.skip(i as int), p@) == without(s@, p@),
        decreases x@.len() - i,
    {
        let ghost rest = s@.skip(i as int);
        if matches_at(&x, &y, i) {
            assert(rest.subrange(0, p@.len() as int) =~= s@.subrange(i as int, i + p@.len()));
            assert(occurs_at(rest, p@, 0));
            assert(rest.skip(p@.len() as int) =~= s@.skip(i + p@.len()));
            i += y.len();
        } else {
            assert(!occurs_at(rest, p@, 0)) by {
                if occurs_at(rest, p@, 0) {
                    assert(rest.subrange(0, p@.len() as int) =~= s@.subrange(
                        i as int,
                        i + p@.len(),
                    ));
                }
            }
            assert(rest.skip(1) =~= s@.skip(i + 1));
            let ghost before = out@;
            out.push(x[i]);
            assert(out@ + without(rest.skip(1), p@) =~= before + (seq![rest[0]] + without(
                rest.skip(1),
                p@,
            )));
            i += 1;
        }
    }
    assert(s@.skip(i as int).len() == 0);
    assert(out@ =~= out@ + without(s@.skip(i as int), p@));
    out
}

/// The decimal digit of a number below ten.
pub open spec fn digit(n: nat) -> char {
    (('0' as u32) + n) as char
}

/// A natural number in decimal.
pub open spec fn decimal(n: nat) -> Seq<char>
    decreases n,
{
    if n < 10 {
        seq![digit(n)]
    } else {
        decimal(n / 10).push(digit(n % 10))
    }
}

/// An integer in decimal, with a minus sign where it is negative.
pub open spec fn decimal_int(n: int) -> Seq<char> {
    if n < 0 {
        seq!['-'] + decimal((-n) as nat)
    } else {
        decimal(n as nat)
    }
}

/// Writes a natural number in decimal.
pub fn decimal_text(n: u64) -> (r: String)
    ensures
        r@ == decimal(n as nat),
    decreases n,
{
    let mut out = if n < 10 {
        String::new()
    } else {
        decimal_text(n / 10)
    };
    out.push(('0' as u8 + (n % 10) as u8) as char);
    assert(out@ =~= decimal(n as nat));
    out
}

/// Writes an integer in decimal.
pub fn decimal_int_text(n: i32) -> (r: String)
    ensures
        r@ == decimal_int(n as int),
{
    if n < 0 {
        let mut out = String::new();
        out.push('-');
        let magnitude: u64 = (-(n as i64)) as u64;
        out.append(decimal_text(magnitude).as_str());
        out
    } else {
        decimal_text(n as u64)
    }
}

/// The number that a run of decimal digits stands for.
pub open spec fn digits_value(s: Seq<char>) -> Option<nat>
    decreases s.len(),
{
    if s.len() == 0 {
        None
    } else if !('0' <= s.last() <= '9') {
        None
    } else if s.len() == 1 {
        Some((s.last() as nat - '0' as nat) as nat)
    } else {
        match digits_value(s.drop_last()) {
            Some(v) => Some(v * 10 + (s.last() as nat - '0' as nat) as nat),
            None => None,
        }
    }
}

/// The integer that a text stands for: decimal digits, at least one, with at
/// most one sign before them, and a value that fits in 32 bits.
pub open spec fn int_value(s: Seq<char>) -> Option<int> {
    let value = if s.len() > 0 && s[0] == '-' {
        match digits_value(s.skip(1)) {
            Some(v) => Some(-(v as int)),
            None => None,
        }
    } else if s.len() > 0 && s[0] == '+' {
        match digits_value(s.skip(1)) {
            Some(v) => Some(v as int),
            None => None,
        }
    } else {
        match digits_value(s) {
            Some(v) => Some(v as int),
            None => None,
        }
    };
    match value {
        Some(v) if i32::MIN <= v <= i32::MAX => Some(v),
        _ => None,
    }
}

/// A longer run of digits never stands for less, and a run that fails to be
/// digits stays so when it grows.
proof fn lemma_digits_prefix(s: Seq<char>, n: int)
    requires
        0 < n <= s.len(),
    ensures
        digits_value(s.take(n)) is None ==> digits_value(s) is None,
        digits_value(s) is Some ==> digits_value(s.take(n))->0 <= digits_value(s)->0,
    decreases s.len(),
{
    if n == s.len() {
        assert(s.take(n) =~= s);
    } else {
        lemma_digits_prefix(s.drop_last(), n);
        assert(s.drop_last().take(n) =~= s.take(n));
    }
}

/// The value of a run of decimal digits, as long as it is at most `limit`.
fn parse_digits(chars: &[char], from: usize, limit: u64) -> (r: Option<u64>)
    requires
        from <= chars@.len(),
        limit <= 0xffff_ffff,
    ensures
        r == match digits_value(chars@.skip(from as int)) {
            Some(v) if v <= limit => Some(v as u64),
            _ => None,
        },
{
    let ghost all = chars@.skip(from as int);
    if from == chars.len() {
        return None;
    }
    let mut acc: u64 = 0;
    let mut i: usize = from;
    while i < chars.len()
        invariant
            from <= i <= chars@.len(),
            from < chars@.len(),
            all == chars@.skip(from as int),
            limit <= 0xffff_ffff,
            acc <= limit,
            i == from ==> acc == 0,
            i > from ==> digits_value(all.take(i - from)) == Some(acc as nat),
        decreases chars@.len() - i,
    {
        let c: char = chars[i];
        let ghost upto = all.take(i - from + 1);
        assert(upto.last() == c);
        assert(upto.drop_last() =~= all.take(i - from));
        proof {
            lemma_digits_prefix(all, i - from + 1);
        }
        if !('0' <= c && c <= '9') {
            return None;
        }
        acc = acc * 10 + (c as u8 - '0' as u8) as u64;
        assert(digits_value(upto) == Some(acc as nat));
        if acc > limit {
            return None;
        }
        i += 1;
    }
    assert(all.take(i - from) =~= all);
    Some(acc)
}

/// Reads a 32-bit integer in decimal.
pub fn parse_i32(s: &str) -> (r: Option<i32>)
    ensures
        r == match int_value(s@) {
            Some(v) => Some(v as i32),
            None => None,
        },
{
    let chars: Vec<char> = chars_of(s);
    if chars.len() > 0 && chars[0] == '-' {
        match parse_digits(&chars, 1, 0x8000_0000) {
            Some(v) => Some((-(v as i64)) as i32),
            None => None,
        }
    } else {
        let from: usize = if chars.len() > 0 && chars[0] == '+' {
            1
        } else {
            0
        };
        assert(chars@.skip(0) =~= chars@);
        match parse_digits(&chars, from, 0x7fff_ffff) {
            Some(v) => Some(v as i32),
            None => None,
        }
    }
}

/// The UTF-16 form of one character: one unit, or a pair of surrogates for a
/// character beyond the basic plane.
pub open spec fn utf16_char(c: char) -> Seq<u16> {
    let v = c as int;
    if v < 0x1_0000 {
        seq![v as u16]
    } else {
        seq![(0xd800 + (v - 0x1_0000) / 0x400) as u16, (0xdc00 + (v - 0x1_0000) % 0x400) as u16]
    }
}

/// The UTF-16 form of a text.
pub open spec fn utf16(s: Seq<char>) -> Seq<u16>
    decreases s.len(),
{
    if s.len() == 0 {
        seq![]
    } else {
        utf16(s.drop_last()) + utf16_char(s.last())
    }
}

/// Appends the UTF-16 form of one character.
fn push_utf16(out: &mut Vec<u16>, c: char)
    ensures
        final(out)@ == old(out)@ + utf16_char(c),
{
    let v: u32 = c as u32;
    if v < 0x1_0000 {
        out.push(v as u16);
        assert(out@ =~= old(out)@ + utf16_char(c));
    } else {
        out.push((0xd800 + (v - 0x1_0000) / 0x400) as u16);
        out.push((0xdc00 + (v - 0x1_0000) % 0x400) as u16);
        assert(out@ =~= old(out)@ + utf16_char(c));
    }
}

/// The UTF-16 units of a text.
pub fn utf16_units(s: &str) -> (r: Vec<u16>)
    ensures
        r@ == utf16(s@),
{
    let chars: Vec<char> = chars_of(s);
    let mut out: Vec<u16> = Vec::new();
    let mut i: usize = 0;
    while i < chars.len()
        invariant
            chars@ == s@,
            i <= chars@.len(),
            out@ == utf16(s@.take(i as int)),
        decreases chars@.len() - i,
    {
        push_utf16(&mut out, chars[i]);
        i += 1;
        assert(s@.take(i as int).drop_last() =~= s@.take(i - 1));
        assert(s@.take(i as int).last() == s@[i - 1]);
    }
    assert(s@.take(i as int) =~= s@);
    out
}

/// A wide string: the UTF-16 units of a text and a zero after them.
pub fn wide(s: &str) -> (r: Vec<u16>)
    ensures
        r@ == utf16(s@).push(0),
{
    let mut out: Vec<u16> = utf16_units(s);
    out.push(0);
    out
}

/// Copies a text into a fixed buffer of UTF-16 units, as much of it as leaves
/// room for a zero, and puts the zero after it. What lies behind is kept.
pub fn copy_utf16<const N: usize>(s: &str, buf: &mut [u16; N])
    requires
        N > 0,
    ensures
        ({
            let n = if utf16(s@).len() < N {
                utf16(s@).len() as int
            } else {
                N - 1
            };
            final(buf)@ == utf16(s@).take(n).push(0) + old(buf)@.skip(n + 1)
        }),
{
    let units: Vec<u16> = utf16_units(s);
    let mut i: usize = 0;
    while i < units.len() && i < N - 1
        invariant
            N > 0,
            units@ == utf16(s@),
            i <= units@.len(),
            i <= N - 1,
            buf@.len() == N,
            buf@ == units@.take(i as int) + old(buf)@.skip(i as int),
        decreases units@.len() - i,
    {
        buf[i] = units[i];
        i += 1;
        assert(buf@ =~= units@.take(i as int) + old(buf)@.skip(i as int));
    }
    buf[i] = 0;
    assert(buf@ =~= utf16(s@).take(i as int).push(0) + old(buf)@.skip(i + 1));
}

} // verus!
