//! Identifiers of effect instances.
use vstd::prelude::*;

use crate::strip::{strip, stripped, Edge};
use crate::text::chars_of;

verus! {

/// A hexadecimal digit, in either case.
pub open spec fn is_hex(c: char) -> bool {
    '0' <= c <= '9' || 'a' <= c <= 'f' || 'A' <= c <= 'F'
}

/// The value of a hexadecimal digit.
pub open spec fn hex_digit(c: char) -> nat {
    if '0' <= c <= '9' {
        (c as nat - '0' as nat) as nat
    } else if 'a' <= c <= 'f' {
        (c as nat - 'a' as nat + 10) as nat
    } else {
        (c as nat - 'A' as nat + 10) as nat
    }
}

/// The places of the hyphens in an identifier.
pub open spec fn is_hyphen_place(i: int) -> bool {
    i == 8 || i == 13 || i == 18 || i == 23
}

/// The text of an identifier, without braces: 32 hexadecimal digits in groups
/// of eight, four, four, four and twelve, with hyphens between them.
pub open spec fn guid_text(s: Seq<char>) -> bool {
    s.len() == 36 && forall|i: int|
        0 <= i < 36 ==> if is_hyphen_place(i) {
            #[trigger] s[i] == '-'
        } else {
            is_hex(s[i])
        }
}

/// The number that the hexadecimal digits of a text stand for, read over its
/// hyphens.
pub open spec fn guid_value(s: Seq<char>) -> nat
    decreases s.len(),
{
    if s.len() == 0 {
        0
    } else if s.last() == '-' {
        guid_value(s.drop_last())
    } else {
        guid_value(s.drop_last()) * 16 + hex_digit(s.last())
    }
}

/// Reads an identifier with `windows::core::GUID::from::<&str>` and hands it out
/// as the number that `GUID::to_u128` makes of it. On the text of an identifier
/// the digits are taken in their order, the first one being the most
/// significant. On any other text `from` panics, so such a text is left out.
#[verifier::external_body]
fn guid_from_text(text: &str) -> (value: u128)
    requires
        guid_text(text@),
    ensures
        value == guid_value(text@),
{
    windows::core::GUID::from(text).to_u128()
}

/// Whether a text, without the braces around it, is that of an identifier.
pub fn is_instance_name(name: &str) -> (r: bool)
    ensures
        r == guid_text(strip(name@, Edge::Brace)),
{
    let bare: String = stripped(name, Edge::Brace);
    let chars: Vec<char> = chars_of(bare.as_str());
    if chars.len() != 36 {
        return false;
    }
    let mut i: usize = 0;
    while i < 36
        invariant
            chars@ == strip(name@, Edge::Brace),
            chars@.len() == 36,
            i <= 36,
            forall|j: int|
                0 <= j < i ==> if is_hyphen_place(j) {
                    #[trigger] chars@[j] == '-'
                } else {
                    is_hex(chars@[j])
                },
        decreases 36 - i,
    {
        let c: char = chars[i];
        let fits: bool = if i == 8 || i == 13 || i == 18 || i == 23 {
            c == '-'
        } else {
            ('0' <= c && c <= '9') || ('a' <= c && c <= 'f') || ('A' <= c && c <= 'F')
        };
        if !fits {
            return false;
        }
        i += 1;
    }
    true
}

/// The identifier that names an effect instance, written with or without
/// braces.
pub fn instance_guid(name: &str) -> (r: u128)
    requires
        guid_text(strip(name@, Edge::Brace)),
    ensures
        r == guid_value(strip(name@, Edge::Brace)),
{
    let bare: String = stripped(name, Edge::Brace);
    guid_from_text(bare.as_str())
}

/// The identifier of each named effect instance, in order.
pub fn instance_guids(names: &[String]) -> (r: Vec<u128>)
    requires
        forall|i: int| 0 <= i < names@.len() ==> guid_text(strip(#[trigger] names@[i]@, Edge::Brace)),
    ensures
        r@.len() == names@.len(),
        forall|i: int|
            0 <= i < names@.len() ==> #[trigger] r@[i] == guid_value(strip(names@[i]@, Edge::Brace)),
{
    let mut out: Vec<u128> = Vec::new();
    let mut i: usize = 0;
    while i < names.len()
        invariant
            i <= names@.len(),
            forall|i: int|
                0 <= i < names@.len() ==> guid_text(strip(#[trigger] names@[i]@, Edge::Brace)),
            out@.len() == i,
            forall|j: int|
                0 <= j < i ==> #[trigger] out@[j] == guid_value(strip(names@[j]@, Edge::Brace)),
        decreases names@.len() - i,
    {
        out.push(instance_guid(names[i].as_str()));
        i += 1;
    }
    out
}

} // verus!
