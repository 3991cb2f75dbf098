//! The effects key of an endpoint: what it says, and what is written to it.
//!
//! A setting lives in two places: the flat value of the key, and the user store
//! of each effect instance. The user stores are what the effects engine goes
//! by, so a setting found there is preferred.
use vstd::prelude::*;

use crate::device::RENDER_PATH;
use crate::regvalue::{parse_bool_value, parse_i32_value, RegValue, StoredView};

verus! {

/// Value that holds the switch of Loudness Equalization.
pub const LOUDNESS_VALUE: &'static str = "{fc52a749-4be9-4510-896e-966ba6525980},3";

/// Value that turns all enhancements off.
pub const DISABLE_SYSFX_VALUE: &'static str = "{1da5d803-d492-4edd-8c23-e0c0ffee7f0e},5";

/// Value that holds the release time.
pub const RELEASE_TIME_VALUE: &'static str = "{9c00eeed-edce-4cd8-ae08-cb05e8ef57a0},3";

/// The path of an endpoint's effects key, under the local machine.
pub fn fx_properties_path(guid: &str) -> (r: String)
    ensures
        r@ == RENDER_PATH@ + "\\"@ + guid@ + "\\FxProperties"@,
{
    let mut out: String = RENDER_PATH.to_owned();
    out.append("\\");
    out.append(guid);
    out.append("\\FxProperties");
    out
}

/// The path of an effect instance's user store, under the effects key.
pub fn user_store_path(instance: &str) -> (r: String)
    ensures
        r@ == instance@ + "\\User"@,
{
    let mut out: String = instance.to_owned();
    out.append("\\User");
    out
}

/// The user store of an effect instance.
#[derive(Debug)]
pub struct UserStore {
    pub loudness: Option<RegValue>,
    pub release_time: Option<RegValue>,
}

/// An effect instance below an effects key.
#[derive(Debug)]
pub struct FxInstance {
    /// The name of its key.
    pub guid: String,
    /// Its user store, if that can be opened.
    pub user: Option<UserStore>,
}

/// The effects key of an endpoint.
#[derive(Debug)]
pub struct FxKey {
    /// The effect instances; one whose name could not be read is `None`.
    pub instances: Vec<Option<FxInstance>>,
    pub loudness: Option<RegValue>,
    pub release_time: Option<RegValue>,
    pub disable_sysfx: Option<RegValue>,
}

/// A user store as contracts see it.
pub struct UserView {
    pub loudness: Option<StoredView>,
    pub release_time: Option<StoredView>,
}

/// An effect instance as contracts see it.
pub struct InstanceView {
    pub guid: Seq<char>,
    pub user: Option<UserView>,
}

/// An effects key as contracts see it.
pub struct FxView {
    pub instances: Seq<Option<InstanceView>>,
    pub loudness: Option<StoredView>,
    pub release_time: Option<StoredView>,
    pub disable_sysfx: Option<StoredView>,
}

/// A value that may be missing, as contracts see it.
pub open spec fn stored(value: Option<RegValue>) -> Option<StoredView> {
    match value {
        Some(v) => Some(v@),
        None => None,
    }
}

/// An effect instance as contracts see it.
pub open spec fn instance_view(instance: Option<FxInstance>) -> Option<InstanceView> {
    match instance {
        Some(i) => Some(
            InstanceView {
                guid: i.guid@,
                user: match i.user {
                    Some(u) => Some(
                        UserView {
                            loudness: stored(u.loudness),
                            release_time: stored(u.release_time),
                        },
                    ),
                    None => None,
                },
            },
        ),
        None => None,
    }
}

impl View for FxKey {
    type V = FxView;

    open spec fn view(&self) -> FxView {
        FxView {
            instances: self.instances@.map_values(|i: Option<FxInstance>| instance_view(i)),
            loudness: stored(self.loudness),
            release_time: stored(self.release_time),
            disable_sysfx: stored(self.disable_sysfx),
        }
    }
}

/// An effects key that may be missing, as contracts see it.
pub open spec fn fx_view(fx: Option<FxKey>) -> Option<FxView> {
    match fx {
        Some(k) => Some(k@),
        None => None,
    }
}

/// The switch that a value holds, if it is there and holds one.
pub open spec fn bool_of(value: Option<StoredView>) -> Option<bool> {
    match value {
        Some(v) => v.as_bool(),
        None => None,
    }
}

/// The number that a value holds, if it is there and holds one.
pub open spec fn number_of(value: Option<StoredView>) -> Option<int> {
    match value {
        Some(v) => v.as_i32(),
        None => None,
    }
}

/// The Loudness Equalization setting in an instance's user store.
pub open spec fn user_loudness(instance: Option<InstanceView>) -> Option<bool> {
    match instance {
        Some(InstanceView { user: Some(u), .. }) => bool_of(u.loudness),
        _ => None,
    }
}

/// The release time in an instance's user store.
pub open spec fn user_release_time(instance: Option<InstanceView>) -> Option<int> {
    match instance {
        Some(InstanceView { user: Some(u), .. }) => number_of(u.release_time),
        _ => None,
    }
}

/// The first setting that is there.
pub open spec fn first_some<T>(settings: Seq<Option<T>>) -> Option<T>
    decreases settings.len(),
{
    if settings.len() == 0 {
        None
    } else if settings[0] is Some {
        settings[0]
    } else {
        first_some(settings.skip(1))
    }
}

/// The Loudness Equalization settings in the user stores.
pub open spec fn user_settings(fx: FxView) -> Seq<Option<bool>> {
    fx.instances.map_values(|i: Option<InstanceView>| user_loudness(i))
}

/// The release times in the user stores.
pub open spec fn user_times(fx: FxView) -> Seq<Option<int>> {
    fx.instances.map_values(|i: Option<InstanceView>| user_release_time(i))
}

/// The state of Loudness Equalization: what the first user store with a setting
/// says, or else the flat value.
pub open spec fn loudness_state(fx: Option<FxView>) -> Option<bool> {
    match fx {
        Some(k) => match first_some(user_settings(k)) {
            Some(b) => Some(b),
            None => bool_of(k.loudness),
        },
        None => None,
    }
}

/// The release time: what the first user store with one says, or else the flat
/// value.
pub open spec fn release_time_state(fx: Option<FxView>) -> Option<int> {
    match fx {
        Some(k) => match first_some(user_times(k)) {
            Some(t) => Some(t),
            None => number_of(k.release_time),
        },
        None => None,
    }
}

/// All enhancements are turned off.
pub open spec fn sysfx_disabled(fx: Option<FxView>) -> bool {
    match fx {
        Some(k) => bool_of(k.disable_sysfx) == Some(true),
        None => false,
    }
}

/// The names of the effect instances, those that could be read.
pub open spec fn instance_names(instances: Seq<Option<InstanceView>>) -> Seq<Seq<char>>
    decreases instances.len(),
{
    if instances.len() == 0 {
        seq![]
    } else {
        match instances.last() {
            Some(i) => instance_names(instances.drop_last()).push(i.guid),
            None => instance_names(instances.drop_last()),
        }
    }
}

/// The names of an endpoint's effect instances. There are none where the
/// endpoint has no effects key.
pub open spec fn names_of(fx: Option<FxView>) -> Seq<Seq<char>> {
    match fx {
        Some(k) => instance_names(k.instances),
        None => seq![],
    }
}

/// The names of an endpoint's effect instances.
pub fn fx_instance_guids(fx: &Option<FxKey>) -> (r: Vec<String>)
    ensures
        r@.map_values(|s: String| s@) == names_of(fx_view(*fx)),
{
    let mut out: Vec<String> = Vec::new();
    match fx {
        Some(key) => {
            let mut i: usize = 0;
            assert(out@.map_values(|s: String| s@) =~= instance_names(key@.instances.take(0)));
            while i < key.instances.len()
                invariant
                    i <= key.instances@.len(),
                    out@.map_values(|s: String| s@) == instance_names(
                        key@.instances.take(i as int),
                    ),
                decreases key.instances@.len() - i,
            {
                let ghost before = out@;
                let ghost upto = key@.instances.take(i + 1);
                assert(upto.drop_last() =~= key@.instances.take(i as int));
                assert(upto.last() == instance_view(key.instances@[i as int]));
                if let Some(instance) = &key.instances[i] {
                    out.push(instance.guid.clone());
                    assert(out@.map_values(|s: String| s@) =~= before.map_values(
                        |s: String| s@,
                    ).push(instance.guid@));
                }
                i += 1;
            }
            assert(key@.instances.take(i as int) =~= key@.instances);
        },
        None => {
            assert(out@.map_values(|s: String| s@) =~= seq![]);
        },
    }
    out
}

/// The switch that a value holds, if it is there and holds one.
fn read_bool(value: &Option<RegValue>) -> (r: Option<bool>)
    ensures
        r == bool_of(stored(*value)),
{
    match value {
        Some(v) => parse_bool_value(v),
        None => None,
    }
}

/// The number that a value holds, if it is there and holds one.
fn read_number(value: &Option<RegValue>) -> (r: Option<i32>)
    ensures
        r == match number_of(stored(*value)) {
            Some(n) => Some(n as i32),
            None => None,
        },
{
    match value {
        Some(v) => parse_i32_value(v),
        None => None,
    }
}

/// The state of Loudness Equalization on an endpoint.
pub fn read_loudness(fx: &Option<FxKey>) -> (r: Option<bool>)
    ensures
        r == loudness_state(fx_view(*fx)),
{
    let key: &FxKey = match fx {
        Some(key) => key,
        None => return None,
    };
    let ghost all = user_settings(key@);
    let mut i: usize = 0;
    assert(all.skip(0) =~= all);
    while i < key.instances.len()
        invariant
            *fx == Some(*key),
            all == user_settings(key@),
            i <= key.instances@.len(),
            first_some(all.skip(i as int)) == first_some(all),
        decreases key.instances@.len() - i,
    {
        assert(all.skip(i as int).skip(1) =~= all.skip(i + 1));
        assert(all[i as int] == user_loudness(instance_view(key.instances@[i as int])));
        if let Some(instance) = &key.instances[i] {
            if let Some(user) = &instance.user {
                let setting: Option<bool> = read_bool(&user.loudness);
                if setting.is_some() {
                    return setting;
                }
            }
        }
        i += 1;
    }
    read_bool(&key.loudness)
}

/// The release time on an endpoint.
pub fn read_release_time(fx: &Option<FxKey>) -> (r: Option<i32>)
    ensures
        r == match release_time_state(fx_view(*fx)) {
            Some(t) => Some(t as i32),
            None => None,
        },
{
    let key: &FxKey = match fx {
        Some(key) => key,
        None => return None,
    };
    let ghost all = user_times(key@);
    let mut i: usize = 0;
    assert(all.skip(0) =~= all);
    while i < key.instances.len()
        invariant
            *fx == Some(*key),
            all == user_times(key@),
            i <= key.instances@.len(),
            first_some(all.skip(i as int)) == first_some(all),
        decreases key.instances@.len() - i,
    {
        assert(all.skip(i as int).skip(1) =~= all.skip(i + 1));
        assert(all[i as int] == user_release_time(instance_view(key.instances@[i as int])));
        if let Some(instance) = &key.instances[i] {
            if let Some(user) = &instance.user {
                let time: Option<i32> = read_number(&user.release_time);
                if time.is_some() {
                    return time;
                }
            }
        }
        i += 1;
    }
    read_number(&key.release_time)
}

/// Whether all enhancements are turned off on an endpoint.
pub fn read_sysfx_disabled(fx: &Option<FxKey>) -> (r: bool)
    ensures
        r == sysfx_disabled(fx_view(*fx)),
{
    match fx {
        Some(key) => {
            match read_bool(&key.disable_sysfx) {
                Some(b) => b,
                None => false,
            }
        },
        None => false,
    }
}

} // verus!
