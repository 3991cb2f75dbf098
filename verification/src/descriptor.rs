//! The security descriptor of the audio service, as text, and the entry in it
//! that lets interactive users start and stop the service.
use vstd::prelude::*;
use vstd::utf8::{decode_utf8, valid_utf8};

use crate::strip::{is_edge, strip, stripped, Edge};
use crate::text::{
    chars_of, contains_text, find_text, first_at, has_text, occurs_at, remove_text, starts_with,
    text_of, without,
};
use crate::text_laws::{
    absent_text_is_not_taken_out, all_edge, occurrences_are_taken_out, stripped_form_lies_inside,
    stripping_keeps_the_middle, text_is_found_where_it_stands,
};

verus! {

/// The entry that lets interactive users start, stop and query the service,
/// with the rights in the order in which the system reports them.
pub const LOUDEQ_ACE: &'static str = "(A;;LCRPWP;;;IU)";

/// What `String::from_utf8_lossy` makes of the output of a program.
pub uninterp spec fn lossy_utf8(bytes: Seq<u8>) -> Seq<char>;

/// Reads bytes as text with `String::from_utf8_lossy`, which depends on the
/// bytes alone. Bytes that are valid UTF-8 give the text that they encode. What
/// other bytes give is not stated beyond that.
#[verifier::external_body]
fn text_from_bytes(bytes: &[u8]) -> (r: String)
    ensures
        r@ == lossy_utf8(bytes@),
        valid_utf8(bytes@) ==> r@ == decode_utf8(bytes@),
{
    String::from_utf8_lossy(bytes).into_owned()
}

/// The number of characters before the first line break.
pub open spec fn line_length(s: Seq<char>) -> int
    decreases s.len(),
{
    if s.len() == 0 || s[0] == '\n' {
        0
    } else {
        1 + line_length(s.skip(1))
    }
}

/// The first line that, without the white space around it, begins with "D:":
/// the line that holds a security descriptor.
pub open spec fn descriptor_line(s: Seq<char>) -> Option<Seq<char>>
    decreases s.len(),
    via descriptor_line_decreases
{
    let n = line_length(s);
    let line = strip(s.take(n), Edge::Space);
    if occurs_at(line, "D:"@, 0) {
        Some(line)
    } else if n < s.len() {
        descriptor_line(s.skip(n + 1))
    } else {
        None
    }
}

#[via_fn]
proof fn descriptor_line_decreases(s: Seq<char>) {
    lemma_line_length(s);
}

/// No line is longer than the text.
proof fn lemma_line_length(s: Seq<char>)
    ensures
        0 <= line_length(s) <= s.len(),
    decreases s.len(),
{
    if s.len() > 0 && s[0] != '\n' {
        lemma_line_length(s.skip(1));
    }
}

/// The length of a line is where its first line break is.
proof fn lemma_line_end(s: Seq<char>, n: int)
    requires
        0 <= n <= s.len(),
        forall|i: int| 0 <= i < n ==> s[i] != '\n',
        n < s.len() ==> s[n] == '\n',
    ensures
        line_length(s) == n,
    decreases n,
{
    if n > 0 {
        assert forall|i: int| 0 <= i < n - 1 implies s.skip(1)[i] != '\n' by {
            assert(s.skip(1)[i] == s[i + 1]);
        }
        lemma_line_end(s.skip(1), n - 1);
    }
}

/// The security descriptor in the output of `sc sdshow`.
pub fn descriptor_of(output: &str) -> (r: Result<String, String>)
    ensures
        match (descriptor_line(output@), r) {
            (Some(line), Ok(sddl)) => sddl@ == line,
            (None, Err(e)) => e@ == "unexpected `sc sdshow` output: "@ + strip(
                output@,
                Edge::Space,
            ),
            _ => false,
        },
{
    let chars: Vec<char> = chars_of(output);
    let mut from: usize = 0;
    let mut more: bool = true;
    assert(output@.skip(0) =~= output@);
    while more
        invariant
            chars@ == output@,
            from <= chars@.len(),
            more ==> descriptor_line(output@.skip(from as int)) == descriptor_line(output@),
            !more ==> descriptor_line(output@) is None,
        decreases
            chars@.len() - from + if more {
                1int
            } else {
                0int
            },
    {
        let ghost rest = output@.skip(from as int);
        let mut to: usize = from;
        while to < chars.len() && chars[to] != '\n'
            invariant
                from <= to <= chars@.len(),
                forall|i: int| from <= i < to ==> chars@[i] != '\n',
            decreases chars@.len() - to,
        {
            to += 1;
        }
        proof {
            assert forall|i: int| 0 <= i < to - from implies rest[i] != '\n' by {
                assert(rest[i] == chars@[from + i]);
            }
            lemma_line_end(rest, to - from);
            assert(rest.take(to - from) =~= chars@.subrange(from as int, to as int));
        }
        let whole: String = text_of(&chars, from, to);
        let line: String = stripped(whole.as_str(), Edge::Space);
        if starts_with(line.as_str(), "D:") {
            return Ok(line);
        }
        if to < chars.len() {
            assert(rest.skip(to - from + 1) =~= output@.skip(to + 1));
            from = to + 1;
        } else {
            more = false;
        }
    }
    let mut message: String = "unexpected `sc sdshow` output: ".to_owned();
    message.append(stripped(output, Edge::Space).as_str());
    Err(message)
}

/// The security descriptor of the audio service, from what `sc sdshow` wrote to
/// its standard output.
pub fn audiosrv_sddl(stdout: &[u8]) -> (r: Result<String, String>)
    ensures
        match (descriptor_line(lossy_utf8(stdout@)), r) {
            (Some(line), Ok(sddl)) => sddl@ == line,
            (None, Err(e)) => e@ == "unexpected `sc sdshow` output: "@ + strip(
                lossy_utf8(stdout@),
                Edge::Space,
            ),
            _ => false,
        },
{
    let output: String = text_from_bytes(stdout);
    descriptor_of(output.as_str())
}

/// What a run of `sc sdset` came to, by what it wrote.
pub fn sdset_outcome(success: bool, out: &str, err: &str) -> (r: Result<(), String>)
    ensures
        match r {
            Ok(_) => success,
            Err(e) => !success && e@ == "`sc sdset` failed: "@ + strip(out@, Edge::Space) + " "@
                + strip(err@, Edge::Space),
        },
{
    if success {
        return Ok(());
    }
    let mut message: String = "`sc sdset` failed: ".to_owned();
    message.append(stripped(out, Edge::Space).as_str());
    message.append(" ");
    message.append(stripped(err, Edge::Space).as_str());
    Err(message)
}

/// What a run of `sc sdset` came to.
pub fn set_audiosrv_sddl(success: bool, stdout: &[u8], stderr: &[u8]) -> (r: Result<(), String>)
    ensures
        match r {
            Ok(_) => success,
            Err(e) => !success && e@ == "`sc sdset` failed: "@ + strip(
                lossy_utf8(stdout@),
                Edge::Space,
            ) + " "@ + strip(lossy_utf8(stderr@), Edge::Space),
        },
{
    let out: String = text_from_bytes(stdout);
    let err: String = text_from_bytes(stderr);
    sdset_outcome(success, out.as_str(), err.as_str())
}

/// The descriptor holds the entry.
pub open spec fn has_grant(sddl: Seq<char>) -> bool {
    contains_text(sddl, LOUDEQ_ACE@)
}

/// Where the entry goes: at the end of the discretionary part, which is where
/// the part that begins with "S:" starts, or the end.
pub open spec fn grant_place(sddl: Seq<char>) -> int {
    if contains_text(sddl, "S:"@) {
        choose|i: int| first_at(sddl, "S:"@, i)
    } else {
        sddl.len() as int
    }
}

/// The descriptor with the entry put in.
pub open spec fn granted(sddl: Seq<char>) -> Seq<char> {
    let i = grant_place(sddl);
    sddl.take(i) + LOUDEQ_ACE@ + sddl.skip(i)
}

/// The descriptor with the entry taken out, wherever it stands.
pub open spec fn revoked(sddl: Seq<char>) -> Seq<char> {
    without(sddl, LOUDEQ_ACE@)
}

/// Whether a descriptor holds the entry.
pub fn is_granted(sddl: &str) -> (r: bool)
    ensures
        r == has_grant(sddl@),
{
    has_text(sddl, LOUDEQ_ACE)
}

/// Puts the entry into a descriptor.
pub fn with_grant(sddl: &str) -> (r: String)
    ensures
        r@ == granted(sddl@),
{
    let chars: Vec<char> = chars_of(sddl);
    let place: usize = match find_text(sddl, "S:") {
        Some(i) => {
            let ghost k = choose|k: int| first_at(sddl@, "S:"@, k);
            assert(occurs_at(sddl@, "S:"@, i as int));
            assert(first_at(sddl@, "S:"@, i as int));
            assert(k == i);
            i
        },
        None => chars.len(),
    };
    let mut out: String = text_of(&chars, 0, place);
    out.append(LOUDEQ_ACE);
    out.append(text_of(&chars, place, chars.len()).as_str());
    assert(sddl@.take(place as int) =~= sddl@.subrange(0, place as int));
    assert(sddl@.skip(place as int) =~= sddl@.subrange(place as int, sddl@.len() as int));
    out
}

/// Takes the entry out of a descriptor.
pub fn without_grant(sddl: &str) -> (r: String)
    ensures
        r@ == revoked(sddl@),
{
    proof {
        reveal_strlit("(A;;LCRPWP;;;IU)");
    }
    remove_text(sddl, LOUDEQ_ACE)
}

/// Where `p` begins with a character that does not come again in it, putting
/// `p` into a text that does not hold it and taking it out gives the text back.
proof fn lemma_insert_remove(a: Seq<char>, p: Seq<char>, b: Seq<char>)
    requires
        p.len() > 0,
        forall|k: int| 0 < k < p.len() ==> #[trigger] p[k] != p[0],
        !contains_text(a + b, p),
    ensures
        without(a + p + b, p) == a + b,
    decreases a.len(),
{
    let s = a + p + b;
    if a.len() == 0 {
        assert(a + b =~= b);
        assert(s =~= p + b);
        assert(s.subrange(0, p.len() as int) =~= p);
        assert(s.skip(p.len() as int) =~= b);
        absent_text_is_not_taken_out(b, p);
    } else {
        assert(!occurs_at(s, p, 0)) by {
            if occurs_at(s, p, 0) {
                let head = s.subrange(0, p.len() as int);
                if a.len() >= p.len() {
                    assert((a + b).subrange(0, p.len() as int) =~= head);
                    assert(occurs_at(a + b, p, 0));
                } else {
                    assert(head[a.len() as int] == p[0]);
                }
            }
        }
        let c = a.skip(1);
        assert(s.skip(1) =~= c + p + b);
        assert(!contains_text(c + b, p)) by {
            if contains_text(c + b, p) {
                let i = choose|i: int| occurs_at(c + b, p, i);
                assert((c + b).subrange(i, i + p.len()) =~= (a + b).subrange(
                    i + 1,
                    i + 1 + p.len(),
                ));
                assert(occurs_at(a + b, p, i + 1));
            }
        }
        lemma_insert_remove(c, p, b);
        assert(seq![s[0]] + (c + b) =~= a + b);
    }
}

/// The place of the entry lies in the descriptor, and what follows it is
/// nothing or begins with "S:".
pub proof fn grant_keeps_the_parts(sddl: Seq<char>)
    ensures
        0 <= grant_place(sddl) <= sddl.len(),
        sddl.take(grant_place(sddl)) + sddl.skip(grant_place(sddl)) == sddl,
        !contains_text(sddl, "S:"@) ==> granted(sddl) == sddl + LOUDEQ_ACE@,
        contains_text(sddl, "S:"@) ==> occurs_at(sddl.skip(grant_place(sddl)), "S:"@, 0),
{
    let i = grant_place(sddl);
    if contains_text(sddl, "S:"@) {
        let k = choose|k: int| occurs_at(sddl, "S:"@, k);
        lemma_first_exists(sddl, "S:"@, k);
        assert(first_at(sddl, "S:"@, i));
        assert(sddl.skip(i).subrange(0, "S:"@.len() as int) =~= sddl.subrange(
            i,
            i + "S:"@.len(),
        ));
    } else {
        assert(sddl.take(i) + LOUDEQ_ACE@ + sddl.skip(i) =~= sddl + LOUDEQ_ACE@);
    }
    assert(sddl.take(i) + sddl.skip(i) =~= sddl);
}

/// What occurs has a first place.
proof fn lemma_first_exists(s: Seq<char>, p: Seq<char>, k: int)
    requires
        occurs_at(s, p, k),
    ensures
        exists|i: int| first_at(s, p, i),
    decreases k,
{
    if exists|j: int| 0 <= j < k && occurs_at(s, p, j) {
        let j = choose|j: int| 0 <= j < k && occurs_at(s, p, j);
        lemma_first_exists(s, p, j);
    } else {
        assert(first_at(s, p, k));
    }
}

/// Taking the entry out after it was put in restores the descriptor.
pub proof fn revoking_undoes_granting(sddl: Seq<char>)
    requires
        !has_grant(sddl),
    ensures
        revoked(granted(sddl)) == sddl,
{
    reveal_strlit("(A;;LCRPWP;;;IU)");
    grant_keeps_the_parts(sddl);
    let i = grant_place(sddl);
    lemma_insert_remove(sddl.take(i), LOUDEQ_ACE@, sddl.skip(i));
}

/// A descriptor with the entry put in holds the entry.
pub proof fn granting_grants(sddl: Seq<char>)
    ensures
        has_grant(granted(sddl)),
{
    grant_keeps_the_parts(sddl);
    let i = grant_place(sddl);
    assert(granted(sddl).subrange(i, i + LOUDEQ_ACE@.len()) =~= LOUDEQ_ACE@);
    assert(occurs_at(granted(sddl), LOUDEQ_ACE@, i));
}

/// A line starts at position `i`, and from there to `j` is nothing but white
/// space.
pub open spec fn blank_from(s: Seq<char>, i: int, j: int) -> bool {
    &&& 0 <= i <= j
    &&& i == 0 || s[i - 1] == '\n'
    &&& forall|k: int| i <= k < j ==> is_edge(Edge::Space, #[trigger] s[k])
}

/// "D:" stands at position `j`, with nothing but white space before it on its
/// line.
pub open spec fn begins_a_line(s: Seq<char>, j: int) -> bool {
    &&& 0 <= j < s.len() - 1
    &&& s[j] == 'D'
    &&& s[j + 1] == ':'
    &&& exists|i: int| blank_from(s, i, j)
}

/// A line that, stripped, begins with "D:" has "D:" behind white space.
proof fn lemma_line_begins(s: Seq<char>, n: int)
    requires
        0 <= n <= s.len(),
        occurs_at(strip(s.take(n), Edge::Space), "D:"@, 0),
    ensures
        exists|j: int| 0 <= j < n - 1 && begins_a_line(s, j),
{
    reveal_strlit("D:");
    let line = s.take(n);
    let m = strip(line, Edge::Space);
    let (a, b) = stripped_form_lies_inside(line, Edge::Space);
    let j = a.len() as int;
    assert(m[0] == m.subrange(0, 2)[0] && m[1] == m.subrange(0, 2)[1]);
    assert(line[j] == m[0] && line[j + 1] == m[1]);
    assert(s[j] == 'D' && s[j + 1] == ':');
    assert forall|k: int| 0 <= k < j implies is_edge(Edge::Space, #[trigger] s[k]) by {
        assert(s[k] == line[k]);
        assert((a + m + b)[k] == a[k]);
    }
    assert(blank_from(s, 0, j));
    assert(begins_a_line(s, j));
}

/// Where "D:" begins a line behind a line break, it does so in the text before.
proof fn lemma_begins_behind(s: Seq<char>, n: int, j: int)
    requires
        0 <= n < s.len(),
        s[n] == '\n',
        begins_a_line(s.skip(n + 1), j),
    ensures
        begins_a_line(s, j + n + 1),
{
    let t = s.skip(n + 1);
    let i = choose|i: int| blank_from(t, i, j);
    let at = i + n + 1;
    if i > 0 {
        assert(s[at - 1] == t[i - 1]);
    }
    assert forall|k: int| at <= k < j + n + 1 implies is_edge(Edge::Space, #[trigger] s[k]) by {
        assert(s[k] == t[k - n - 1]);
    }
    assert(blank_from(s, at, j + n + 1));
}

/// The first line break of a text, or its end.
proof fn lemma_line_break(s: Seq<char>)
    ensures
        0 <= line_length(s) <= s.len(),
        forall|i: int| 0 <= i < line_length(s) ==> s[i] != '\n',
        line_length(s) < s.len() ==> s[line_length(s)] == '\n',
    decreases s.len(),
{
    if s.len() > 0 && s[0] != '\n' {
        let t = s.skip(1);
        lemma_line_break(t);
        assert forall|i: int| 0 <= i < line_length(s) implies s[i] != '\n' by {
            if i > 0 {
                assert(s[i] == t[i - 1]);
            }
        }
    }
}

/// The whole of the first line that begins with "D:" is the descriptor, but for
/// the white space around it. Nothing that stands inside the line is lost, and
/// what comes before and behind the line does not matter.
pub proof fn whole_line_is_the_descriptor(a: Seq<char>, line: Seq<char>, b: Seq<char>)
    requires
        a.len() > 0 ==> a.last() == '\n',
        forall|j: int| !#[trigger] begins_a_line(a, j),
        b.len() > 0 ==> b[0] == '\n',
        !line.contains('\n'),
        line.len() >= 2 && line[0] == 'D' && line[1] == ':',
        !is_edge(Edge::Space, line.last()),
    ensures
        descriptor_line(a + line + b) == Some(line),
    decreases a.len(),
{
    reveal_strlit("D:");
    let s = a + line + b;
    if a.len() == 0 {
        let n = line.len() as int;
        assert forall|i: int| 0 <= i < n implies s[i] != '\n' by {
            assert(s[i] == line[i]);
            assert(line.contains(line[i]));
        }
        lemma_line_end(s, n);
        assert(s.take(n) =~= Seq::<char>::empty() + line + Seq::<char>::empty());
        stripping_keeps_the_middle(Seq::empty(), line, Seq::empty(), Edge::Space);
        assert(line.subrange(0, 2) =~= "D:"@);
    } else {
        lemma_line_break(a);
        let n = line_length(a);
        assert(n < a.len());
        assert forall|i: int| 0 <= i < n implies s[i] != '\n' by {
            assert(s[i] == a[i]);
        }
        assert(s[n] == a[n]);
        lemma_line_end(s, n);
        assert(s.take(n) =~= a.take(n));
        if occurs_at(strip(a.take(n), Edge::Space), "D:"@, 0) {
            lemma_line_begins(a, n);
        }
        let c = a.skip(n + 1);
        assert(s.skip(n + 1) =~= c + line + b);
        assert forall|j: int| !#[trigger] begins_a_line(c, j) by {
            if begins_a_line(c, j) {
                lemma_begins_behind(a, n, j);
            }
        }
        whole_line_is_the_descriptor(c, line, b);
    }
}

/// The same with white space around the line: it is stripped away, and the rest
/// of the line is the descriptor.
pub proof fn white_space_round_the_descriptor_is_lost(
    x: Seq<char>,
    line: Seq<char>,
    y: Seq<char>,
    b: Seq<char>,
)
    requires
        all_edge(x, Edge::Space),
        all_edge(y, Edge::Space),
        !x.contains('\n'),
        !y.contains('\n'),
        b.len() > 0 ==> b[0] == '\n',
        !line.contains('\n'),
        line.len() >= 2 && line[0] == 'D' && line[1] == ':',
        !is_edge(Edge::Space, line.last()),
    ensures
        descriptor_line(x + line + y + b) == Some(line),
{
    reveal_strlit("D:");
    let s = x + line + y + b;
    let n = (x.len() + line.len() + y.len()) as int;
    assert forall|i: int| 0 <= i < n implies s[i] != '\n' by {
        let l = x.len() as int;
        let m = l + line.len();
        if i < l {
            assert(x.contains(x[i]));
        } else if i < m {
            assert(line.contains(line[i - l]));
        } else {
            assert(y.contains(y[i - m]));
        }
    }
    lemma_line_end(s, n);
    assert(s.take(n) =~= x + line + y);
    stripping_keeps_the_middle(x, line, y, Edge::Space);
    assert(line.subrange(0, 2) =~= "D:"@);
}

/// There is a descriptor exactly where a line begins with "D:".
pub proof fn a_line_that_begins_so_is_found(s: Seq<char>)
    ensures
        descriptor_line(s) is Some <==> exists|j: int| begins_a_line(s, j),
    decreases s.len(),
{
    reveal_strlit("D:");
    lemma_line_break(s);
    let n = line_length(s);
    let found = occurs_at(strip(s.take(n), Edge::Space), "D:"@, 0);
    if found {
        lemma_line_begins(s, n);
    } else {
        if exists|j: int| begins_a_line(s, j) {
            let j = choose|j: int| begins_a_line(s, j);
            lemma_line_not_first(s, n, j);
        }
        if n < s.len() {
            let t = s.skip(n + 1);
            a_line_that_begins_so_is_found(t);
            if exists|j: int| begins_a_line(t, j) {
                let j = choose|j: int| begins_a_line(t, j);
                lemma_begins_behind(s, n, j);
            }
        }
    }
}

/// Where the first line does not begin with "D:", a line that does so comes
/// behind it.
proof fn lemma_line_not_first(s: Seq<char>, n: int, j: int)
    requires
        n == line_length(s),
        0 <= n <= s.len(),
        forall|i: int| 0 <= i < n ==> s[i] != '\n',
        n < s.len() ==> s[n] == '\n',
        begins_a_line(s, j),
        !occurs_at(strip(s.take(n), Edge::Space), "D:"@, 0),
    ensures
        n < j,
        begins_a_line(s.skip(n + 1), j - n - 1),
{
    reveal_strlit("D:");
    let i = choose|i: int| blank_from(s, i, j);
    if j < n {
        assert(i == 0);
        assert(j + 1 < n);
        let line = s.take(n);
        let (a, b) = stripped_form_lies_inside(line, Edge::Space);
        let m = strip(line, Edge::Space);
        assert(!is_edge(Edge::Space, 'D') && !is_edge(Edge::Space, ':'));
        // The stripped form begins where the white space ends.
        if a.len() > j {
            assert(a[j] == line[j]);
            assert(is_edge(Edge::Space, a[j]));
        }
        if a.len() + m.len() <= j {
            assert(b[j - a.len() - m.len()] == line[j]);
        }
        if a.len() + m.len() <= j + 1 {
            assert(b[j + 1 - a.len() - m.len()] == line[j + 1]);
        }
        if a.len() < j {
            assert(m[0] == line[a.len() as int]);
            assert(is_edge(Edge::Space, s[a.len() as int]));
        }
        assert(a.len() == j);
        assert(m[0] == line[j] && m[1] == line[j + 1]);
        assert(m.subrange(0, 2) =~= "D:"@);
        assert(false);
    }
    assert(j != n);
    let t = s.skip(n + 1);
    let at = j - n - 1;
    assert(t[at] == s[j] && t[at + 1] == s[j + 1]);
    if i <= n {
        assert forall|k: int| 0 <= k < at implies is_edge(Edge::Space, #[trigger] t[k]) by {
            assert(t[k] == s[k + n + 1]);
        }
        assert(blank_from(t, 0, at));
    } else {
        let z = i - n - 1;
        assert forall|k: int| z <= k < at implies is_edge(Edge::Space, #[trigger] t[k]) by {
            assert(t[k] == s[k + n + 1]);
        }
        if z > 0 {
            assert(t[z - 1] == s[i - 1]);
        }
        assert(blank_from(t, z, at));
    }
    assert(begins_a_line(t, at));
}

/// A descriptor holds the grant exactly where the entry for interactive users
/// stands somewhere in it.
pub proof fn grant_is_this_entry(a: Seq<char>, b: Seq<char>, sddl: Seq<char>)
    ensures
        has_grant(a + "(A;;LCRPWP;;;IU)"@ + b),
        has_grant(sddl) ==> exists|x: Seq<char>, y: Seq<char>|
            sddl == #[trigger] (x + "(A;;LCRPWP;;;IU)"@ + y),
{
    text_is_found_where_it_stands(a, LOUDEQ_ACE@, b, sddl);
}

/// The entry is put right before the first "S:", or at the end where there is
/// none, and everything else stays as it is.
pub proof fn entry_goes_before_the_audit_part(a: Seq<char>, b: Seq<char>, plain: Seq<char>)
    requires
        !contains_text(plain, "S:"@),
        first_at(a + "S:"@ + b, "S:"@, a.len() as int),
    ensures
        granted(a + "S:"@ + b) == a + "(A;;LCRPWP;;;IU)"@ + "S:"@ + b,
        granted(plain) == plain + "(A;;LCRPWP;;;IU)"@,
{
    let s = a + "S:"@ + b;
    grant_keeps_the_parts(plain);
    assert(contains_text(s, "S:"@));
    let i = grant_place(s);
    assert(first_at(s, "S:"@, i));
    assert(i == a.len()) by {
        if i < a.len() {
            assert(!occurs_at(s, "S:"@, i));
        } else if i > a.len() {
            assert(!occurs_at(s, "S:"@, a.len() as int));
        }
    }
    assert(s.take(i) =~= a);
    assert(s.skip(i) =~= "S:"@ + b);
    assert(granted(s) =~= a + "(A;;LCRPWP;;;IU)"@ + "S:"@ + b);
}

/// Taking the grant back takes out the entry where it first stands, and then
/// wherever it stands behind that; everything else stays as it is.
pub proof fn every_entry_is_taken_out(a: Seq<char>, b: Seq<char>, plain: Seq<char>)
    requires
        first_at(a + "(A;;LCRPWP;;;IU)"@ + b, "(A;;LCRPWP;;;IU)"@, a.len() as int),
        !has_grant(plain),
    ensures
        revoked(a + "(A;;LCRPWP;;;IU)"@ + b) == a + revoked(b),
        revoked(plain) == plain,
{
    reveal_strlit("(A;;LCRPWP;;;IU)");
    occurrences_are_taken_out(a, LOUDEQ_ACE@, b);
    absent_text_is_not_taken_out(plain, LOUDEQ_ACE@);
}

} // verus!
