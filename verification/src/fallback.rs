//! The fallback path: settings that are written to the registry directly. They
//! take effect when the audio service starts anew.
use vstd::prelude::*;

use crate::fx::{bool_of, first_some, loudness_state, sysfx_disabled, user_settings, FxKey, FxView};
use crate::regvalue::{
    bool_blob, bool_blob_reads_back, dword_reads_back, dword_value, le_bytes, parse_bool_value,
    vt_bool_value, RegType, RegValue, StoredView,
};

verus! {

/// What stopped an operation on the registry.
#[derive(Clone, Copy, Debug, PartialEq, Eq, Structural)]
pub enum FailureKind {
    NotFound,
    PermissionDenied,
    Other,
}

/// A failed operation on the registry: what stopped it, and in words.
#[derive(Debug)]
pub struct Failure {
    pub kind: FailureKind,
    pub message: String,
}

/// A flat value of an effects key.
#[derive(Clone, Copy, Debug, PartialEq, Eq, Structural)]
pub enum FlatValue {
    /// The value `LOUDNESS_VALUE`.
    Loudness,
    /// The value `DISABLE_SYSFX_VALUE`.
    DisableSysfx,
}

/// A flat value and what it is set to.
#[derive(Debug)]
pub struct FlatWrite {
    pub value: FlatValue,
    pub data: RegValue,
}

/// A write as contracts see it.
pub struct FlatWriteView {
    pub value: FlatValue,
    pub data: StoredView,
}

impl View for FlatWrite {
    type V = FlatWriteView;

    open spec fn view(&self) -> FlatWriteView {
        FlatWriteView { value: self.value, data: self.data@ }
    }
}

/// The form in which the switch is written: the type of the value that is
/// there, if that is a DWORD, and else that of a serialized boolean.
pub open spec fn switch_data(existing: Option<StoredView>, enable: bool) -> StoredView {
    if existing is Some && existing->0.vtype == RegType::REG_DWORD {
        StoredView {
            vtype: RegType::REG_DWORD,
            bytes: le_bytes(
                if enable {
                    1
                } else {
                    0
                },
            ),
        }
    } else {
        StoredView { vtype: RegType::REG_BINARY, bytes: bool_blob(enable) }
    }
}

/// The writes that set Loudness Equalization. While all enhancements are turned
/// off it has no effect, so turning it on takes that back.
pub open spec fn loudness_writes(fx: FxView, enable: bool) -> Seq<FlatWriteView> {
    let switch = FlatWriteView {
        value: FlatValue::Loudness,
        data: switch_data(fx.loudness, enable),
    };
    if enable && sysfx_disabled(Some(fx)) {
        seq![
            switch,
            FlatWriteView {
                value: FlatValue::DisableSysfx,
                data: StoredView { vtype: RegType::REG_DWORD, bytes: le_bytes(0) },
            },
        ]
    } else {
        seq![switch]
    }
}

/// The writes that set Loudness Equalization on an endpoint, to be made in
/// order until one fails. An endpoint without an effects key cannot be set, and
/// the failure says so; any other failure to open the key is handed on.
pub fn write_loudness(opened: Result<FxKey, Failure>, enable: bool) -> (r: Result<
    Vec<FlatWrite>,
    Failure,
>)
    ensures
        match (opened, r) {
            (Ok(key), Ok(writes)) => writes@.map_values(|w: FlatWrite| w@) == loudness_writes(
                key@,
                enable,
            ),
            (Err(failure), Err(e)) => {
                &&& e.kind == failure.kind
                &&& e.message@ == if failure.kind == FailureKind::NotFound {
                    "this device has no FxProperties key — it likely does not support Windows audio enhancements at all"@
                } else {
                    failure.message@
                }
            },
            _ => false,
        },
{
    let key: FxKey = match opened {
        Ok(key) => key,
        Err(failure) => {
            if failure.kind == FailureKind::NotFound {
                return Err(
                    Failure {
                        kind: FailureKind::NotFound,
                        message:
                            "this device has no FxProperties key — it likely does not support Windows audio enhancements at all".to_owned(),
                    },
                );
            }
            return Err(failure);
        },
    };
    let is_dword: bool = match &key.loudness {
        Some(existing) => existing.vtype == RegType::REG_DWORD,
        None => false,
    };
    let data: RegValue = if is_dword {
        dword_value(
            if enable {
                1
            } else {
                0
            },
        )
    } else {
        vt_bool_value(enable)
    };
    let mut writes: Vec<FlatWrite> = Vec::new();
    writes.push(FlatWrite { value: FlatValue::Loudness, data });
    if enable {
        if let Some(disabled) = &key.disable_sysfx {
            if parse_bool_value(disabled) == Some(true) {
                writes.push(FlatWrite { value: FlatValue::DisableSysfx, data: dword_value(0) });
            }
        }
    }
    assert(writes@.map_values(|w: FlatWrite| w@) =~= loudness_writes(key@, enable));
    Ok(writes)
}

/// An effects key after a write.
pub open spec fn written(fx: FxView, write: FlatWriteView) -> FxView {
    match write.value {
        FlatValue::Loudness => FxView { loudness: Some(write.data), ..fx },
        FlatValue::DisableSysfx => FxView { disable_sysfx: Some(write.data), ..fx },
    }
}

/// An effects key after a number of writes.
pub open spec fn all_written(fx: FxView, writes: Seq<FlatWriteView>) -> FxView
    decreases writes.len(),
{
    if writes.len() == 0 {
        fx
    } else {
        written(all_written(fx, writes.drop_last()), writes.last())
    }
}

/// What is written to the registry reads back, as long as no user store holds a
/// setting of its own; one that does keeps the say. Once the setting is on,
/// enhancements are not turned off, and turning the setting off leaves the
/// switch for all enhancements as it was.
pub proof fn written_setting_reads_back(fx: FxView, enable: bool)
    ensures
        ({
            let after = all_written(fx, loudness_writes(fx, enable));
            &&& bool_of(after.loudness) == Some(enable)
            &&& loudness_state(Some(after)) == match first_some(user_settings(fx)) {
                Some(own) => Some(own),
                None => Some(enable),
            }
            &&& enable ==> !sysfx_disabled(Some(after))
            &&& !enable ==> after.disable_sysfx == fx.disable_sysfx
        }),
{
    reveal_with_fuel(all_written, 3);
    bool_blob_reads_back(enable);
    dword_reads_back(0);
    dword_reads_back(1);
    let writes = loudness_writes(fx, enable);
    assert(writes.drop_last().drop_last() =~= seq![] || writes.len() == 1);
    let after = all_written(fx, writes);
    assert(user_settings(after) =~= user_settings(fx));
}

} // verus!
