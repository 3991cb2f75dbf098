//! Raw registry values, and the switches and numbers that they hold.
//!
//! A value in a property store is either of a native registry type or a
//! serialized property: a 32-bit type tag, a reserved 32-bit word, and then the
//! payload, all little-endian.
use vstd::prelude::*;

verus! {

/// Type tag of a signed 32-bit property.
pub const VT_I4: u16 = 3;

/// Type tag of a boolean property.
pub const VT_BOOL: u16 = 11;

/// Type tag of an unsigned 32-bit property.
pub const VT_UI4: u16 = 19;

/// Type tag of a property that holds a class identifier.
pub const VT_CLSID: u16 = 72;

/// The types that a registry value can have.
#[allow(non_camel_case_types)]
#[derive(Clone, Copy, Debug, PartialEq, Eq, Structural)]
pub enum RegType {
    REG_NONE,
    REG_SZ,
    REG_EXPAND_SZ,
    REG_BINARY,
    REG_DWORD,
    REG_DWORD_BIG_ENDIAN,
    REG_LINK,
    REG_MULTI_SZ,
    REG_RESOURCE_LIST,
    REG_FULL_RESOURCE_DESCRIPTOR,
    REG_RESOURCE_REQUIREMENTS_LIST,
    REG_QWORD,
}

/// A registry value as it is stored: its type and its bytes.
#[derive(Debug, PartialEq, Eq)]
pub struct RegValue {
    pub bytes: Vec<u8>,
    pub vtype: RegType,
}

/// A registry value as contracts see it.
pub struct StoredView {
    pub vtype: RegType,
    pub bytes: Seq<u8>,
}

impl View for RegValue {
    type V = StoredView;

    open spec fn view(&self) -> StoredView {
        StoredView { vtype: self.vtype, bytes: self.bytes@ }
    }
}

/// The 16-bit little-endian number at position `at`.
pub open spec fn le16(bytes: Seq<u8>, at: int) -> nat {
    (bytes[at] + 0x100 * bytes[at + 1]) as nat
}

/// The 32-bit little-endian number at position `at`.
pub open spec fn le32(bytes: Seq<u8>, at: int) -> nat {
    (le16(bytes, at) + 0x1_0000 * le16(bytes, at + 2)) as nat
}

/// The two's complement reading of a 32-bit number.
pub open spec fn signed32(n: nat) -> int {
    if n < 0x8000_0000 {
        n as int
    } else {
        n - 0x1_0000_0000
    }
}

/// The four little-endian bytes of a 32-bit number.
pub open spec fn le_bytes(n: nat) -> Seq<u8> {
    seq![
        (n % 0x100) as u8,
        (n / 0x100 % 0x100) as u8,
        (n / 0x1_0000 % 0x100) as u8,
        (n / 0x100_0000 % 0x100) as u8,
    ]
}

/// The number that a stored value holds, as its 32 bits: the first word of a
/// DWORD, or the payload of a serialized 32-bit integer.
pub open spec fn stored_word(vtype: RegType, bytes: Seq<u8>) -> Option<nat> {
    if vtype == RegType::REG_DWORD && bytes.len() >= 4 {
        Some(le32(bytes, 0))
    } else if vtype == RegType::REG_BINARY && bytes.len() >= 12 && (le32(bytes, 0) == VT_I4 || le32(
        bytes,
        0,
    ) == VT_UI4) {
        Some(le32(bytes, 8))
    } else {
        None
    }
}

/// The switch that a stored value holds: whether its number is not zero, or the
/// 16-bit payload of a serialized boolean is not.
pub open spec fn stored_bool(vtype: RegType, bytes: Seq<u8>) -> Option<bool> {
    if vtype == RegType::REG_BINARY && bytes.len() >= 10 && le32(bytes, 0) == VT_BOOL {
        Some(le16(bytes, 8) != 0)
    } else {
        match stored_word(vtype, bytes) {
            Some(n) => Some(n != 0),
            None => None,
        }
    }
}

impl StoredView {
    /// The switch that this value holds.
    pub open spec fn as_bool(self) -> Option<bool> {
        stored_bool(self.vtype, self.bytes)
    }

    /// The signed number that this value holds.
    pub open spec fn as_i32(self) -> Option<int> {
        match stored_word(self.vtype, self.bytes) {
            Some(n) => Some(signed32(n)),
            None => None,
        }
    }
}

/// Reads the 16-bit number at position `at`.
fn read_u16(bytes: &[u8], at: usize) -> (r: Option<u16>)
    requires
        at <= 8,
    ensures
        r == if at + 2 <= bytes@.len() {
            Some(le16(bytes@, at as int) as u16)
        } else {
            None
        },
{
    if bytes.len() < at + 2 {
        return None;
    }
    Some(bytes[at] as u16 + 0x100 * (bytes[at + 1] as u16))
}

/// Reads the 32-bit number at position `at`.
fn read_u32(bytes: &[u8], at: usize) -> (r: Option<u32>)
    requires
        at <= 8,
    ensures
        r == if at + 4 <= bytes@.len() {
            Some(le32(bytes@, at as int) as u32)
        } else {
            None
        },
{
    if bytes.len() < at + 4 {
        return None;
    }
    Some(
        bytes[at] as u32 + 0x100 * (bytes[at + 1] as u32) + 0x1_0000 * (bytes[at + 2] as u32)
            + 0x100_0000 * (bytes[at + 3] as u32),
    )
}

/// Reads a number as two's complement.
fn to_signed(n: u32) -> (r: i32)
    ensures
        r == signed32(n as nat),
{
    if n < 0x8000_0000 {
        n as i32
    } else {
        (n as i64 - 0x1_0000_0000) as i32
    }
}

/// Reads the 32-bit number that a value holds.
fn read_word(rv: &RegValue) -> (r: Option<u32>)
    ensures
        r == match stored_word(rv.vtype, rv.bytes@) {
            Some(n) => Some(n as u32),
            None => None,
        },
{
    match rv.vtype {
        RegType::REG_DWORD => read_u32(&rv.bytes, 0),
        RegType::REG_BINARY => {
            match read_u32(&rv.bytes, 0) {
                Some(vt) => {
                    if vt == VT_I4 as u32 || vt == VT_UI4 as u32 {
                        read_u32(&rv.bytes, 8)
                    } else {
                        None
                    }
                },
                None => None,
            }
        },
        _ => None,
    }
}

/// The switch that a value holds: a DWORD, or a serialized boolean or 32-bit
/// integer. A value of another type, or one that is too short, holds none.
pub fn parse_bool_value(rv: &RegValue) -> (r: Option<bool>)
    ensures
        r == rv@.as_bool(),
{
    if rv.vtype == RegType::REG_BINARY {
        match read_u32(&rv.bytes, 0) {
            Some(vt) => {
                if vt == VT_BOOL as u32 {
                    return match read_u16(&rv.bytes, 8) {
                        Some(payload) => Some(payload != 0),
                        None => None,
                    };
                }
            },
            None => {},
        }
    }
    match read_word(rv) {
        Some(n) => Some(n != 0),
        None => None,
    }
}

/// The signed number that a value holds: a DWORD, or a serialized 32-bit
/// integer. A serialized boolean holds none.
pub fn parse_i32_value(rv: &RegValue) -> (r: Option<i32>)
    ensures
        r == match rv@.as_i32() {
            Some(n) => Some(n as i32),
            None => None,
        },
{
    match read_word(rv) {
        Some(n) => Some(to_signed(n)),
        None => None,
    }
}

/// The bytes of a serialized boolean property.
pub open spec fn bool_blob(enable: bool) -> Seq<u8> {
    let payload = if enable {
        0xffu8
    } else {
        0u8
    };
    le_bytes(VT_BOOL as nat) + le_bytes(1) + seq![payload, payload, 0u8, 0u8]
}

/// The serialized boolean property, in the form that the Enhancements dialog
/// writes.
pub fn vt_bool_value(enable: bool) -> (r: RegValue)
    ensures
        r.vtype == RegType::REG_BINARY,
        r.bytes@ == bool_blob(enable),
{
    let payload: u8 = if enable {
        0xff
    } else {
        0
    };
    let mut bytes: Vec<u8> = Vec::new();
    push_le(&mut bytes, VT_BOOL as u32);
    push_le(&mut bytes, 1);
    bytes.push(payload);
    bytes.push(payload);
    bytes.push(0);
    bytes.push(0);
    assert(bytes@ =~= bool_blob(enable));
    RegValue { bytes, vtype: RegType::REG_BINARY }
}

/// Appends the little-endian bytes of a number.
fn push_le(bytes: &mut Vec<u8>, n: u32)
    ensures
        final(bytes)@ == old(bytes)@ + le_bytes(n as nat),
{
    bytes.push((n % 0x100) as u8);
    bytes.push((n / 0x100 % 0x100) as u8);
    bytes.push((n / 0x1_0000 % 0x100) as u8);
    bytes.push((n / 0x100_0000 % 0x100) as u8);
    assert(bytes@ =~= old(bytes)@ + le_bytes(n as nat));
}

/// A DWORD value.
pub fn dword_value(n: u32) -> (r: RegValue)
    ensures
        r.vtype == RegType::REG_DWORD,
        r.bytes@ == le_bytes(n as nat),
{
    let mut bytes: Vec<u8> = Vec::new();
    push_le(&mut bytes, n);
    RegValue { bytes, vtype: RegType::REG_DWORD }
}

/// Whatever switch is written as a serialized boolean reads back the same.
pub proof fn bool_blob_reads_back(enable: bool)
    ensures
        stored_bool(RegType::REG_BINARY, bool_blob(enable)) == Some(enable),
{
    let bytes = bool_blob(enable);
    assert(bytes[0] == 11u8 && bytes[1] == 0u8 && bytes[2] == 0u8 && bytes[3] == 0u8);
}

/// Whatever number is written as a DWORD reads back the same, as a number and
/// as a switch.
pub proof fn dword_reads_back(n: u32)
    ensures
        stored_word(RegType::REG_DWORD, le_bytes(n as nat)) == Some(n as nat),
        stored_bool(RegType::REG_DWORD, le_bytes(n as nat)) == Some(n != 0),
{
}

/// A value that holds a number also holds a switch, and the switch is on
/// exactly when the number is not zero.
pub proof fn number_and_switch_agree(rv: StoredView)
    requires
        rv.as_i32() is Some,
    ensures
        rv.as_bool() == Some(rv.as_i32() != Some(0int)),
{
}

/// A signed number serialized with its type tag reads back the same, whatever
/// stands in the reserved word.
pub proof fn serialized_number_reads_back(rv: StoredView, n: i32, reserved: nat)
    requires
        rv.vtype == RegType::REG_BINARY,
        rv.bytes == le_bytes(VT_I4 as nat) + le_bytes(reserved) + le_bytes(
            (n as int % 0x1_0000_0000) as nat,
        ),
    ensures
        rv.as_i32() == Some(n as int),
{
    let bytes = rv.bytes;
    let word = (n as int % 0x1_0000_0000) as nat;
    assert(bytes[0] == 3u8 && bytes[1] == 0u8 && bytes[2] == 0u8 && bytes[3] == 0u8);
    assert(bytes.subrange(8, 12) =~= le_bytes(word));
    assert(bytes[8] == le_bytes(word)[0]);
    assert(bytes[9] == le_bytes(word)[1]);
    assert(bytes[10] == le_bytes(word)[2]);
    assert(bytes[11] == le_bytes(word)[3]);
    assert(le32(bytes, 8) == word);
}

} // verus!
