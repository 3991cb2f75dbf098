//! Property keys and the typed values that are written under them.
use vstd::prelude::*;

use crate::regvalue::{
    bool_blob, le32, le_bytes, signed32, stored_bool, stored_word, RegType, VT_BOOL, VT_CLSID,
    VT_I4, VT_UI4,
};

verus! {

/// A property key: the identifier of its set and its number in the set.
#[derive(Clone, Copy, Debug, PartialEq, Eq, Structural)]
pub struct PropertyKey {
    pub fmtid: u128,
    pub pid: u32,
}

/// Set of the Loudness Equalization switch.
pub const LOUDNESS_FMTID: u128 = 0xfc52a749_4be9_4510_896e_966ba6525980;

/// Set of the switch that turns all enhancements off.
pub const DISABLE_SYSFX_FMTID: u128 = 0x1da5d803_d492_4edd_8c23_e0c0ffee7f0e;

/// Set of the release time.
pub const RELEASE_TIME_FMTID: u128 = 0x9c00eeed_edce_4cd8_ae08_cb05e8ef57a0;

/// The properties of an endpoint that are written.
#[derive(Clone, Copy, Debug, PartialEq, Eq, Structural)]
pub enum Property {
    /// The switch of Loudness Equalization, which `LOUDNESS_VALUE` names.
    LoudnessEq,
    /// The switch that turns all enhancements off, which `DISABLE_SYSFX_VALUE`
    /// names.
    DisableSysfx,
    /// The release time of Loudness Equalization, which is meant to be from 2
    /// to 7.
    ReleaseTime,
    /// The second property that carries the release time. It is written with
    /// the same data.
    ReleaseTimeAlt,
}

impl Property {
    /// The key of this property.
    pub open spec fn key_of(self) -> PropertyKey {
        match self {
            Property::LoudnessEq => PropertyKey { fmtid: LOUDNESS_FMTID, pid: 3 },
            Property::DisableSysfx => PropertyKey { fmtid: DISABLE_SYSFX_FMTID, pid: 5 },
            Property::ReleaseTime => PropertyKey { fmtid: RELEASE_TIME_FMTID, pid: 3 },
            Property::ReleaseTimeAlt => PropertyKey { fmtid: RELEASE_TIME_FMTID, pid: 1599 },
        }
    }

    /// The key of this property.
    pub fn key(self) -> (r: PropertyKey)
        ensures
            r == self.key_of(),
    {
        match self {
            Property::LoudnessEq => PropertyKey { fmtid: LOUDNESS_FMTID, pid: 3 },
            Property::DisableSysfx => PropertyKey { fmtid: DISABLE_SYSFX_FMTID, pid: 5 },
            Property::ReleaseTime => PropertyKey { fmtid: RELEASE_TIME_FMTID, pid: 3 },
            Property::ReleaseTimeAlt => PropertyKey { fmtid: RELEASE_TIME_FMTID, pid: 1599 },
        }
    }
}

/// The payload of a property value.
#[derive(Clone, Copy, Debug, PartialEq, Eq, Structural)]
pub enum Payload {
    /// A boolean: -1 for true, 0 for false.
    Bool(i16),
    /// An unsigned 32-bit number.
    U32(u32),
    /// A signed 32-bit number.
    I32(i32),
    /// A class identifier.
    Clsid(u128),
}

/// A property value: its type tag and its payload.
#[derive(Clone, Copy, Debug, PartialEq, Eq, Structural)]
pub struct PropVariant {
    pub vt: u16,
    pub payload: Payload,
}

impl PropVariant {
    /// The type tag is the one of the payload.
    pub open spec fn well_typed(self) -> bool {
        self.vt == match self.payload {
            Payload::Bool(_) => VT_BOOL,
            Payload::U32(_) => VT_UI4,
            Payload::I32(_) => VT_I4,
            Payload::Clsid(_) => VT_CLSID,
        }
    }
}

/// A boolean property value.
pub open spec fn bool_property(v: bool) -> PropVariant {
    PropVariant {
        vt: VT_BOOL,
        payload: Payload::Bool(
            if v {
                -1i16
            } else {
                0i16
            },
        ),
    }
}

/// An unsigned property value.
pub open spec fn u32_property(v: u32) -> PropVariant {
    PropVariant { vt: VT_UI4, payload: Payload::U32(v) }
}

/// A signed property value.
pub open spec fn i32_property(v: i32) -> PropVariant {
    PropVariant { vt: VT_I4, payload: Payload::I32(v) }
}

/// A property value that holds a class identifier.
pub open spec fn clsid_property(guid: u128) -> PropVariant {
    PropVariant { vt: VT_CLSID, payload: Payload::Clsid(guid) }
}

/// Makes a boolean property value.
pub fn propvariant_bool(v: bool) -> (r: PropVariant)
    ensures
        r == bool_property(v),
        r.well_typed(),
{
    PropVariant {
        vt: VT_BOOL,
        payload: Payload::Bool(
            if v {
                -1
            } else {
                0
            },
        ),
    }
}

/// Makes an unsigned property value.
pub fn propvariant_u32(v: u32) -> (r: PropVariant)
    ensures
        r == u32_property(v),
        r.well_typed(),
{
    PropVariant { vt: VT_UI4, payload: Payload::U32(v) }
}

/// Makes a signed property value, the type that the release time has.
pub fn propvariant_i32(v: i32) -> (r: PropVariant)
    ensures
        r == i32_property(v),
        r.well_typed(),
{
    PropVariant { vt: VT_I4, payload: Payload::I32(v) }
}

/// Makes a property value that holds a class identifier.
pub fn propvariant_clsid(guid: u128) -> (r: PropVariant)
    ensures
        r == clsid_property(guid),
        r.well_typed(),
{
    PropVariant { vt: VT_CLSID, payload: Payload::Clsid(guid) }
}

/// The word that the payload of a property takes when it is stored. An
/// identifier is stored in another way.
pub open spec fn payload_word(payload: Payload) -> nat {
    match payload {
        Payload::Bool(v) => (v as int % 0x1_0000) as nat,
        Payload::U32(v) => v as nat,
        Payload::I32(v) => (v as int % 0x1_0000_0000) as nat,
        Payload::Clsid(_) => 0,
    }
}

/// The form in which a property store keeps a boolean or a number: the type
/// tag, a reserved word that is 1, and the payload.
pub open spec fn serialized(value: PropVariant) -> Seq<u8> {
    le_bytes(value.vt as nat) + le_bytes(1) + le_bytes(payload_word(value.payload))
}

/// A switch that a property store keeps reads back the same, and its form is
/// that which is written to the registry directly.
pub proof fn stored_switch_reads_back(v: bool)
    ensures
        serialized(bool_property(v)) == bool_blob(v),
        stored_bool(RegType::REG_BINARY, serialized(bool_property(v))) == Some(v),
{
    assert(serialized(bool_property(v)) =~= bool_blob(v));
    crate::regvalue::bool_blob_reads_back(v);
}

/// A signed number that a property store keeps reads back the same.
pub proof fn stored_number_reads_back(v: i32)
    ensures
        stored_word(RegType::REG_BINARY, serialized(i32_property(v))) is Some,
        signed32(stored_word(RegType::REG_BINARY, serialized(i32_property(v)))->0) == v,
{
    let bytes = serialized(i32_property(v));
    let word = payload_word(Payload::I32(v));
    assert(bytes[0] == 3u8 && bytes[1] == 0u8 && bytes[2] == 0u8 && bytes[3] == 0u8);
    assert(bytes[8] == le_bytes(word)[0]);
    assert(bytes[9] == le_bytes(word)[1]);
    assert(bytes[10] == le_bytes(word)[2]);
    assert(bytes[11] == le_bytes(word)[3]);
    assert(le32(bytes, 8) == word);
}

} // verus!
