//! What stored values mean, byte by byte, which of several settings has the say,
//! and what the fallback path writes.
use vstd::prelude::*;

use crate::fallback::{loudness_writes, FlatValue, FlatWriteView};
use crate::fx::{
    first_some, fx_view, instance_names, loudness_state, names_of, release_time_state, sysfx_disabled,
    user_settings, user_times, FxKey, FxView, InstanceView, UserView,
};
use crate::property::{
    bool_property, clsid_property, i32_property, payload_word, serialized, u32_property, Payload,
    PropVariant,
};
use crate::regvalue::{bool_blob, le_bytes, RegType, RegValue, StoredView};

verus! {

/// The number that four bytes stand for, the first one being the least.
pub open spec fn number_in(b: Seq<u8>) -> int {
    b[0] + 0x100 * b[1] + 0x1_0000 * b[2] + 0x100_0000 * b[3]
}

/// A DWORD holds the number of its first four bytes, and so does a serialized
/// 32-bit integer in the four behind its eighth: as a signed number, and as a
/// switch that is on unless the number is zero. The reserved word and whatever
/// follows do not matter.
pub proof fn stored_numbers_are_read(b: Seq<u8>, reserved: Seq<u8>, tail: Seq<u8>, unsigned: bool)
    requires
        b.len() == 4,
        reserved.len() == 4,
    ensures
        ({
            let n = number_in(b);
            let signed = if n < 0x8000_0000 {
                n
            } else {
                n - 0x1_0000_0000
            };
            let tag = if unsigned {
                0x13u8
            } else {
                0x03u8
            };
            let dword = StoredView { vtype: RegType::REG_DWORD, bytes: b + tail };
            let blob = StoredView {
                vtype: RegType::REG_BINARY,
                bytes: seq![tag, 0u8, 0u8, 0u8] + reserved + b + tail,
            };
            &&& dword.as_i32() == Some(signed)
            &&& dword.as_bool() == Some(n != 0)
            &&& blob.as_i32() == Some(signed)
            &&& blob.as_bool() == Some(n != 0)
        }),
{
    let tag = if unsigned {
        0x13u8
    } else {
        0x03u8
    };
    let d = b + tail;
    assert(d[0] == b[0] && d[1] == b[1] && d[2] == b[2] && d[3] == b[3]);
    let s = seq![tag, 0u8, 0u8, 0u8] + reserved + b + tail;
    assert(s[0] == tag && s[1] == 0 && s[2] == 0 && s[3] == 0);
    assert(s[8] == b[0] && s[9] == b[1] && s[10] == b[2] && s[11] == b[3]);
}

/// A serialized boolean is on unless the two bytes behind its eighth are zero,
/// and it is no number.
pub proof fn stored_booleans_are_read(p: u8, q: u8, reserved: Seq<u8>, tail: Seq<u8>)
    requires
        reserved.len() == 4,
    ensures
        ({
            let blob = StoredView {
                vtype: RegType::REG_BINARY,
                bytes: seq![0x0bu8, 0u8, 0u8, 0u8] + reserved + seq![p, q] + tail,
            };
            &&& blob.as_bool() == Some(p != 0 || q != 0)
            &&& blob.as_i32() is None
        }),
{
    let s = seq![0x0bu8, 0u8, 0u8, 0u8] + reserved + seq![p, q] + tail;
    assert(s[0] == 0x0b && s[1] == 0 && s[2] == 0 && s[3] == 0);
    assert(s[8] == p && s[9] == q);
}

/// Nothing else holds a setting: no other type, no other tag, and nothing that
/// ends before its payload does.
pub proof fn other_values_hold_nothing(rv: StoredView)
    ensures
        rv.vtype != RegType::REG_DWORD && rv.vtype != RegType::REG_BINARY ==> rv.as_bool() is None
            && rv.as_i32() is None,
        rv.vtype == RegType::REG_DWORD && rv.bytes.len() < 4 ==> rv.as_bool() is None && rv.as_i32()
            is None,
        rv.vtype == RegType::REG_BINARY && rv.bytes.len() < 10 ==> rv.as_bool() is None,
        rv.vtype == RegType::REG_BINARY && rv.bytes.len() < 12 ==> rv.as_i32() is None,
        rv.vtype == RegType::REG_BINARY && 4 <= rv.bytes.len() < 12 && rv.bytes[0] != 0x0b
            ==> rv.as_bool() is None,
        rv.vtype == RegType::REG_BINARY && rv.bytes.len() >= 4 && !(rv.bytes[1] == 0 && rv.bytes[2]
            == 0 && rv.bytes[3] == 0) ==> rv.as_bool() is None && rv.as_i32() is None,
        rv.vtype == RegType::REG_BINARY && rv.bytes.len() >= 4 && rv.bytes[0] != 0x03 && rv.bytes[0]
            != 0x13 ==> rv.as_i32() is None,
        rv.vtype == RegType::REG_BINARY && rv.bytes.len() >= 4 && rv.bytes[0] != 0x03 && rv.bytes[0]
            != 0x13 && rv.bytes[0] != 0x0b ==> rv.as_bool() is None,
{
}

/// A number is written as the four bytes that stand for it, and a switch as
/// twelve bytes: the tag of a boolean, a reserved word that is 1, two bytes that
/// are all ones or all zeros, and two zeros.
pub proof fn values_are_written_in_these_bytes(n: u32)
    ensures
        le_bytes(n as nat).len() == 4,
        number_in(le_bytes(n as nat)) == n,
        bool_blob(true) == seq![0x0bu8, 0u8, 0u8, 0u8, 1u8, 0u8, 0u8, 0u8, 0xffu8, 0xffu8, 0u8, 0u8],
        bool_blob(false) == seq![0x0bu8, 0u8, 0u8, 0u8, 1u8, 0u8, 0u8, 0u8, 0u8, 0u8, 0u8, 0u8],
{
    assert(bool_blob(true) =~= seq![
        0x0bu8,
        0u8,
        0u8,
        0u8,
        1u8,
        0u8,
        0u8,
        0u8,
        0xffu8,
        0xffu8,
        0u8,
        0u8,
    ]);
    assert(bool_blob(false) =~= seq![
        0x0bu8,
        0u8,
        0u8,
        0u8,
        1u8,
        0u8,
        0u8,
        0u8,
        0u8,
        0u8,
        0u8,
        0u8,
    ]);
}

/// A property value carries what it was made of, under its own tag.
pub proof fn property_values_carry_their_payload(b: bool, u: u32, i: i32, g: u128)
    ensures
        bool_property(b) == (PropVariant {
            vt: 11,
            payload: Payload::Bool(
                if b {
                    -1i16
                } else {
                    0i16
                },
            ),
        }),
        u32_property(u) == (PropVariant { vt: 19, payload: Payload::U32(u) }),
        i32_property(i) == (PropVariant { vt: 3, payload: Payload::I32(i) }),
        clsid_property(g) == (PropVariant { vt: 72, payload: Payload::Clsid(g) }),
{
}

/// A number that a property store keeps is serialized with its tag, a reserved
/// word that is 1, and its four bytes.
pub proof fn kept_numbers_have_these_bytes(i: i32)
    ensures
        ({
            let s = serialized(i32_property(i));
            &&& s.len() == 12
            &&& s.take(8) == seq![3u8, 0u8, 0u8, 0u8, 1u8, 0u8, 0u8, 0u8]
            &&& number_in(s.skip(8)) == if i >= 0 {
                i as int
            } else {
                i + 0x1_0000_0000
            }
        }),
{
    let s = serialized(i32_property(i));
    assert(s.take(8) =~= seq![3u8, 0u8, 0u8, 0u8, 1u8, 0u8, 0u8, 0u8]);
    let word = payload_word(Payload::I32(i));
    assert(s.skip(8) =~= le_bytes(word));
    values_are_written_in_these_bytes(word as u32);
}

/// An instance has no readable setting of Loudness Equalization of its own.
pub open spec fn has_no_setting(instance: Option<InstanceView>) -> bool {
    match instance {
        Some(InstanceView { user: Some(UserView { loudness: Some(v), .. }), .. }) => v.as_bool()
            is None,
        _ => true,
    }
}

/// An instance has no readable release time of its own.
pub open spec fn has_no_time(instance: Option<InstanceView>) -> bool {
    match instance {
        Some(InstanceView { user: Some(UserView { release_time: Some(v), .. }), .. }) => v.as_i32()
            is None,
        _ => true,
    }
}

/// What is there first is found.
proof fn lemma_first<T>(settings: Seq<Option<T>>, k: int)
    requires
        0 <= k <= settings.len(),
        forall|j: int| 0 <= j < k ==> #[trigger] settings[j] is None,
        k < settings.len() ==> settings[k] is Some,
    ensures
        first_some(settings) == if k < settings.len() {
            settings[k]
        } else {
            None
        },
    decreases k,
{
    if k > 0 {
        let t = settings.skip(1);
        assert(settings[0] is None);
        assert forall|j: int| 0 <= j < k - 1 implies #[trigger] t[j] is None by {
            assert(t[j] == settings[j + 1]);
        }
        lemma_first(t, k - 1);
    }
}

/// The first user store with a readable setting has the say, whatever the stores
/// behind it and the flat value hold.
pub proof fn first_user_store_has_the_say(fx: FxView, k: int, v: StoredView, on: bool)
    requires
        0 <= k < fx.instances.len(),
        forall|j: int| 0 <= j < k ==> has_no_setting(#[trigger] fx.instances[j]),
        fx.instances[k] is Some,
        fx.instances[k]->0.user is Some,
        fx.instances[k]->0.user->0.loudness == Some(v),
        v.as_bool() == Some(on),
    ensures
        loudness_state(Some(fx)) == Some(on),
{
    let settings = user_settings(fx);
    assert forall|j: int| 0 <= j < k implies #[trigger] settings[j] is None by {
        assert(has_no_setting(fx.instances[j]));
    }
    lemma_first(settings, k);
}

/// Where no user store has a readable setting, the flat value has the say, if it
/// is there and holds one. Without an effects key there is no setting.
pub proof fn flat_value_is_the_last_resort(fx: FxView, v: StoredView)
    requires
        forall|j: int| 0 <= j < fx.instances.len() ==> has_no_setting(#[trigger] fx.instances[j]),
    ensures
        fx.loudness == Some(v) ==> loudness_state(Some(fx)) == v.as_bool(),
        fx.loudness is None ==> loudness_state(Some(fx)) is None,
        loudness_state(None) is None,
{
    let settings = user_settings(fx);
    assert forall|j: int| 0 <= j < settings.len() implies #[trigger] settings[j] is None by {
        assert(has_no_setting(fx.instances[j]));
    }
    lemma_first(settings, settings.len() as int);
}

/// The first user store with a readable release time has the say.
pub proof fn first_release_time_has_the_say(fx: FxView, k: int, v: StoredView, time: int)
    requires
        0 <= k < fx.instances.len(),
        forall|j: int| 0 <= j < k ==> has_no_time(#[trigger] fx.instances[j]),
        fx.instances[k] is Some,
        fx.instances[k]->0.user is Some,
        fx.instances[k]->0.user->0.release_time == Some(v),
        v.as_i32() == Some(time),
    ensures
        release_time_state(Some(fx)) == Some(time),
{
    let times = user_times(fx);
    assert forall|j: int| 0 <= j < k implies #[trigger] times[j] is None by {
        assert(has_no_time(fx.instances[j]));
    }
    lemma_first(times, k);
}

/// Where no user store has a readable release time, the flat value has the say.
pub proof fn flat_release_time_is_the_last_resort(fx: FxView, v: StoredView)
    requires
        forall|j: int| 0 <= j < fx.instances.len() ==> has_no_time(#[trigger] fx.instances[j]),
    ensures
        fx.release_time == Some(v) ==> release_time_state(Some(fx)) == v.as_i32(),
        fx.release_time is None ==> release_time_state(Some(fx)) is None,
        release_time_state(None) is None,
{
    let times = user_times(fx);
    assert forall|j: int| 0 <= j < times.len() implies #[trigger] times[j] is None by {
        assert(has_no_time(fx.instances[j]));
    }
    lemma_first(times, times.len() as int);
}

/// Enhancements are turned off exactly where the switch for that is there and on.
pub proof fn enhancements_are_off_by_their_switch(fx: FxView, v: StoredView)
    ensures
        fx.disable_sysfx == Some(v) ==> (sysfx_disabled(Some(fx)) <==> v.as_bool() == Some(true)),
        fx.disable_sysfx is None ==> !sysfx_disabled(Some(fx)),
        !sysfx_disabled(None),
{
}

/// The names of the instances are those that could be read, whole and in order.
pub proof fn names_are_kept_in_order(
    a: Seq<Option<InstanceView>>,
    b: Seq<Option<InstanceView>>,
    i: InstanceView,
    fx: FxView,
)
    ensures
        instance_names(a + b) == instance_names(a) + instance_names(b),
        instance_names(seq![]) == Seq::<Seq<char>>::empty(),
        instance_names(seq![Some(i)]) == seq![i.guid],
        instance_names(seq![None]) == Seq::<Seq<char>>::empty(),
        names_of(Some(fx)) == instance_names(fx.instances),
        names_of(None) == Seq::<Seq<char>>::empty(),
    decreases b.len(),
{
    reveal_with_fuel(instance_names, 2);
    if b.len() == 0 {
        assert(a + b =~= a);
        assert(instance_names(a) + instance_names(b) =~= instance_names(a));
    } else {
        names_are_kept_in_order(a, b.drop_last(), i, fx);
        assert((a + b).drop_last() =~= a + b.drop_last());
        assert((a + b).last() == b.last());
        assert(instance_names(a + b) =~= instance_names(a) + instance_names(b));
    }
    let one = seq![Some(i)];
    assert(one.drop_last() =~= Seq::empty());
    assert(instance_names(one) =~= seq![i.guid]);
    let none = seq![None::<InstanceView>];
    assert(none.drop_last() =~= Seq::empty());
}

/// What the fallback path writes: first the switch, as a DWORD that is 1 or 0
/// where a DWORD is there, and else as a serialized boolean; then, where it turns
/// the effect on and all enhancements are turned off, their switch, as a DWORD
/// that is 0. It writes nothing else.
pub proof fn fallback_writes_these_values(fx: FxView, enable: bool)
    ensures
        ({
            let dword = fx.loudness is Some && fx.loudness->0.vtype == RegType::REG_DWORD;
            let ones = if enable {
                0xffu8
            } else {
                0u8
            };
            let one = if enable {
                1u8
            } else {
                0u8
            };
            let switch = FlatWriteView {
                value: FlatValue::Loudness,
                data: if dword {
                    StoredView { vtype: RegType::REG_DWORD, bytes: seq![one, 0u8, 0u8, 0u8] }
                } else {
                    StoredView {
                        vtype: RegType::REG_BINARY,
                        bytes: seq![
                            0x0bu8,
                            0u8,
                            0u8,
                            0u8,
                            1u8,
                            0u8,
                            0u8,
                            0u8,
                            ones,
                            ones,
                            0u8,
                            0u8,
                        ],
                    }
                },
            };
            let clear = FlatWriteView {
                value: FlatValue::DisableSysfx,
                data: StoredView {
                    vtype: RegType::REG_DWORD,
                    bytes: seq![0u8, 0u8, 0u8, 0u8],
                },
            };
            let off = fx.disable_sysfx is Some && fx.disable_sysfx->0.as_bool() == Some(true);
            loudness_writes(fx, enable) == if enable && off {
                seq![switch, clear]
            } else {
                seq![switch]
            }
        }),
{
    values_are_written_in_these_bytes(0);
    assert(le_bytes(0) =~= seq![0u8, 0u8, 0u8, 0u8]);
    assert(le_bytes(1) =~= seq![1u8, 0u8, 0u8, 0u8]);
}

/// An effects key is seen whole: every instance at its place, with its name and
/// its user store, and every value as it is stored.
pub proof fn effects_key_is_seen_whole(key: FxKey, i: int, value: RegValue)
    requires
        0 <= i < key.instances@.len(),
    ensures
        value@.vtype == value.vtype,
        value@.bytes == value.bytes@,
        key@.instances.len() == key.instances@.len(),
        key@.instances[i] is Some <==> key.instances@[i] is Some,
        key.instances@[i] is Some ==> {
            let seen = key@.instances[i]->0;
            let held = key.instances@[i]->0;
            &&& seen.guid == held.guid@
            &&& seen.user is Some <==> held.user is Some
            &&& held.user is Some ==> {
                &&& seen.user->0.loudness == seen_value(held.user->0.loudness)
                &&& seen.user->0.release_time == seen_value(held.user->0.release_time)
            }
        },
        key@.loudness == seen_value(key.loudness),
        key@.release_time == seen_value(key.release_time),
        key@.disable_sysfx == seen_value(key.disable_sysfx),
        fx_view(Some(key)) == Some(key@),
        fx_view(None) is None,
{
}

/// A value that may be missing, as it is seen.
pub open spec fn seen_value(value: Option<RegValue>) -> Option<StoredView> {
    match value {
        Some(v) => Some(StoredView { vtype: v.vtype, bytes: v.bytes@ }),
        None => None,
    }
}

} // verus!
