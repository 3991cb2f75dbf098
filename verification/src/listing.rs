//! The list of active playback devices: their names and their order.
use vstd::prelude::*;

use crate::device::{views, Device, DeviceView};
use crate::strip::{
    comes_before, order_is_irreflexive, order_is_total, order_is_transitive, text_before,
};
use crate::text::{chars_of, text_eq, text_of};

verus! {

/// Value with the name of an endpoint, such as "Speakers".
pub const ENDPOINT_NAME_VALUE: &'static str = "{a45c254e-df1c-4efd-8020-67d146a850e0},2";

/// Value with the name of the device behind an endpoint.
pub const DEVICE_DESC_VALUE: &'static str = "{b3f8fa53-0004-438e-9003-51a46e139bfc},6";

/// Value with the state of an endpoint.
pub const DEVICE_STATE_VALUE: &'static str = "DeviceState";

/// What comes before the key name of an endpoint in its full identifier.
pub const ENDPOINT_PREFIX: &'static str = "{0.0.0.00000000}.";

/// The names that an endpoint's properties give.
#[derive(Debug)]
pub struct EndpointProperties {
    /// The value `ENDPOINT_NAME_VALUE`, if it is there.
    pub endpoint: Option<String>,
    /// The value `DEVICE_DESC_VALUE`, if it is there.
    pub desc: Option<String>,
}

/// The key of an endpoint.
#[derive(Debug)]
pub struct EndpointKey {
    /// The value `DEVICE_STATE_VALUE`, if it is there.
    pub state: Option<u32>,
    /// The properties of the endpoint, if they can be opened.
    pub properties: Option<EndpointProperties>,
}

/// A key below `RENDER_PATH`.
#[derive(Debug)]
pub struct EndpointEntry {
    /// The name of the key.
    pub guid: String,
    /// The key, if it can be opened.
    pub key: Option<EndpointKey>,
}

/// A text that may be missing, which then counts as empty.
pub open spec fn text_or_empty(text: Option<String>) -> Seq<char> {
    match text {
        Some(t) => t@,
        None => seq![],
    }
}

/// The name that a device goes by: the name of the endpoint with that of the
/// device behind it, the one of the two that is there, or the key name.
pub open spec fn display_name(
    properties: Option<EndpointProperties>,
    guid: Seq<char>,
) -> Seq<char> {
    match properties {
        Some(p) => {
            let endpoint = text_or_empty(p.endpoint);
            let desc = text_or_empty(p.desc);
            if endpoint.len() > 0 && desc.len() > 0 {
                endpoint + " ("@ + desc + ")"@
            } else if endpoint.len() > 0 {
                endpoint
            } else if desc.len() > 0 {
                desc
            } else {
                guid
            }
        },
        None => guid,
    }
}

/// The entry is an active endpoint: it could be read and opened, and the lowest
/// bit of its state is set. The other bits say nothing of that.
pub open spec fn is_active(entry: Option<EndpointEntry>) -> bool {
    entry is Some && entry->0.key is Some && entry->0.key->0.state is Some
        && entry->0.key->0.state->0 % 2 == 1
}

/// The device of an active endpoint.
pub open spec fn device_of(entry: EndpointEntry, default_guid: Option<Seq<char>>) -> DeviceView {
    DeviceView {
        guid: entry.guid@,
        full_id: ENDPOINT_PREFIX@ + entry.guid@,
        name: display_name(entry.key->0.properties, entry.guid@),
        is_default: default_guid == Some(entry.guid@),
    }
}

/// The devices of the active endpoints, in the order of the entries.
pub open spec fn active_devices(
    entries: Seq<Option<EndpointEntry>>,
    default_guid: Option<Seq<char>>,
) -> Seq<DeviceView>
    decreases entries.len(),
{
    if entries.len() == 0 {
        seq![]
    } else if is_active(entries.last()) {
        active_devices(entries.drop_last(), default_guid).push(
            device_of(entries.last()->0, default_guid),
        )
    } else {
        active_devices(entries.drop_last(), default_guid)
    }
}

/// `a` is listed before `b`: the default device comes first, and the others
/// follow by name.
pub open spec fn device_before(a: DeviceView, b: DeviceView) -> bool {
    if a.is_default != b.is_default {
        a.is_default
    } else {
        text_before(a.name, b.name)
    }
}

/// `places` says where each listed device comes from: every device is listed
/// once, none is listed before one that it should follow, and devices that
/// neither should follow the other keep their order.
pub open spec fn arranged_by(
    devices: Seq<DeviceView>,
    listed: Seq<DeviceView>,
    places: Seq<int>,
) -> bool {
    &&& listed.len() == devices.len()
    &&& places.len() == devices.len()
    &&& forall|i: int|
        0 <= i < places.len() ==> 0 <= #[trigger] places[i] < devices.len() && listed[i]
            == devices[places[i]]
    &&& forall|i: int, j: int|
        0 <= i < j < places.len() ==> #[trigger] places[i] != #[trigger] places[j]
    &&& forall|i: int, j: int|
        0 <= i < j < listed.len() ==> !device_before(#[trigger] listed[j], #[trigger] listed[i])
    &&& forall|i: int, j: int|
        0 <= i < j < places.len() && !device_before(listed[i], listed[j]) ==> #[trigger] places[i]
            < #[trigger] places[j]
}

/// `listed` is what becomes of `devices` when they are put in order.
pub open spec fn arranged(devices: Seq<DeviceView>, listed: Seq<DeviceView>) -> bool {
    exists|places: Seq<int>| arranged_by(devices, listed, places)
}

/// What should not come before a device does not come before one that is
/// listed behind it.
proof fn lemma_before_all(a: DeviceView, b: DeviceView, c: DeviceView)
    requires
        device_before(a, b),
        !device_before(c, b),
    ensures
        device_before(a, c),
        !device_before(c, a),
{
    if a.is_default == b.is_default && b.is_default == c.is_default {
        if c.name != b.name {
            order_is_total(b.name, c.name);
            order_is_transitive(a.name, b.name, c.name);
        }
        if text_before(c.name, a.name) {
            order_is_transitive(c.name, a.name, b.name);
        }
    }
}

/// A device that is put before all that should follow it, and behind all
/// others, is in its place.
proof fn lemma_insert(
    devices: Seq<DeviceView>,
    listed: Seq<DeviceView>,
    places: Seq<int>,
    d: DeviceView,
    k: int,
)
    requires
        arranged_by(devices, listed, places),
        0 <= k <= listed.len(),
        forall|j: int| 0 <= j < k ==> !device_before(d, #[trigger] listed[j]),
        k < listed.len() ==> device_before(d, listed[k]),
    ensures
        arranged_by(
            devices.push(d),
            listed.insert(k, d),
            places.insert(k, devices.len() as int),
        ),
{
    let all = devices.push(d);
    let now = listed.insert(k, d);
    let at = places.insert(k, devices.len() as int);
    assert forall|j: int| k <= j < listed.len() implies device_before(d, #[trigger] listed[j])
        && !device_before(listed[j], d) by {
        if j == k {
            order_is_irreflexive(listed[k].name);
            lemma_before_all(d, listed[k], listed[k]);
        } else {
            lemma_before_all(d, listed[k], listed[j]);
        }
    }
    assert forall|i: int| 0 <= i < at.len() implies 0 <= #[trigger] at[i] < all.len() && now[i]
        == all[at[i]] by {
        if i < k {
            assert(at[i] == places[i]);
        } else if i > k {
            assert(at[i] == places[i - 1]);
        }
    }
    assert forall|i: int, j: int| 0 <= i < j < at.len() implies #[trigger] at[i]
        != #[trigger] at[j] && !device_before(now[j], now[i]) && (!device_before(now[i], now[j])
        ==> at[i] < at[j]) by {
        let i0 = if i < k {
            i
        } else {
            i - 1
        };
        let j0 = if j < k {
            j
        } else {
            j - 1
        };
        if i != k {
            assert(at[i] == places[i0] && now[i] == listed[i0]);
        }
        if j != k {
            assert(at[j] == places[j0] && now[j] == listed[j0]);
        }
    }
}

/// The text that an optional string slice holds.
pub open spec fn slice_text(text: Option<&str>) -> Option<Seq<char>> {
    match text {
        Some(t) => Some(t@),
        None => None,
    }
}

/// The name that a device goes by.
fn name_of(properties: &Option<EndpointProperties>, guid: &str) -> (r: String)
    ensures
        r@ == display_name(*properties, guid@),
{
    match properties {
        Some(p) => {
            let endpoint: &str = match &p.endpoint {
                Some(t) => t.as_str(),
                None => {
                    proof {
                        reveal_strlit("");
                    }
                    ""
                },
            };
            let desc: &str = match &p.desc {
                Some(t) => t.as_str(),
                None => {
                    proof {
                        reveal_strlit("");
                    }
                    ""
                },
            };
            assert(endpoint@ =~= text_or_empty(p.endpoint));
            assert(desc@ =~= text_or_empty(p.desc));
            if !endpoint.is_empty() && !desc.is_empty() {
                let mut out: String = endpoint.to_owned();
                out.append(" (");
                out.append(desc);
                out.append(")");
                out
            } else if !endpoint.is_empty() {
                endpoint.to_owned()
            } else if !desc.is_empty() {
                desc.to_owned()
            } else {
                guid.to_owned()
            }
        },
        None => guid.to_owned(),
    }
}

/// The device of an active endpoint.
fn make_device(entry: &EndpointEntry, key: &EndpointKey, default_guid: Option<&str>) -> (r: Device)
    requires
        entry.key == Some(*key),
    ensures
        r@ == device_of(*entry, slice_text(default_guid)),
{
    let mut full_id: String = ENDPOINT_PREFIX.to_owned();
    full_id.append(entry.guid.as_str());
    let is_default: bool = match default_guid {
        Some(d) => text_eq(d, entry.guid.as_str()),
        None => false,
    };
    Device {
        guid: entry.guid.clone(),
        full_id,
        name: name_of(&key.properties, entry.guid.as_str()),
        is_default,
    }
}

/// Whether `a` is listed before `b`.
fn listed_before(a: &Device, b: &Device) -> (r: bool)
    ensures
        r == device_before(a@, b@),
{
    if a.is_default != b.is_default {
        a.is_default
    } else {
        comes_before(a.name.as_str(), b.name.as_str())
    }
}

/// Puts a device into its place in a list.
fn insert_device(listed: &mut Vec<Device>, d: Device) -> (k: usize)
    ensures
        k <= old(listed)@.len(),
        final(listed)@ == old(listed)@.insert(k as int, d),
        forall|j: int| 0 <= j < k ==> !device_before(d@, #[trigger] old(listed)@[j]@),
        k < old(listed)@.len() ==> device_before(d@, old(listed)@[k as int]@),
{
    let mut k: usize = 0;
    while k < listed.len() && !listed_before(&d, &listed[k])
        invariant
            listed@ == old(listed)@,
            k <= listed@.len(),
            forall|j: int| 0 <= j < k ==> !device_before(d@, #[trigger] listed@[j]@),
        decreases listed@.len() - k,
    {
        k += 1;
    }
    listed.insert(k, d);
    k
}

/// A number is odd exactly when its lowest bit is set.
proof fn lemma_lowest_bit(n: u32)
    ensures
        n % 2 == 1 <==> n & 1 == 1,
{
    assert(n % 2 == 1 <==> n & 1 == 1) by (bit_vector);
}

/// The device of an active entry is among the active devices.
proof fn lemma_active_is_found(
    entries: Seq<Option<EndpointEntry>>,
    default_guid: Option<Seq<char>>,
    i: int,
)
    requires
        0 <= i < entries.len(),
        is_active(entries[i]),
    ensures
        active_devices(entries, default_guid).contains(device_of(entries[i]->0, default_guid)),
    decreases entries.len(),
{
    let all = active_devices(entries, default_guid);
    let before = active_devices(entries.drop_last(), default_guid);
    let d = device_of(entries[i]->0, default_guid);
    if i == entries.len() - 1 {
        assert(all.last() == d);
    } else {
        lemma_active_is_found(entries.drop_last(), default_guid, i);
        let k = choose|k: int| 0 <= k < before.len() && before[k] == d;
        assert(all[k] == d);
    }
}

/// An active device is that of an active entry.
proof fn lemma_found_is_active(
    entries: Seq<Option<EndpointEntry>>,
    default_guid: Option<Seq<char>>,
    d: DeviceView,
) -> (i: int)
    requires
        active_devices(entries, default_guid).contains(d),
    ensures
        0 <= i < entries.len(),
        is_active(entries[i]),
        d == device_of(entries[i]->0, default_guid),
    decreases entries.len(),
{
    let all = active_devices(entries, default_guid);
    let before = active_devices(entries.drop_last(), default_guid);
    let k = choose|k: int| 0 <= k < all.len() && all[k] == d;
    if is_active(entries.last()) && k == all.len() - 1 {
        entries.len() - 1
    } else {
        assert(before[k] == d);
        lemma_found_is_active(entries.drop_last(), default_guid, d)
    }
}

/// As many devices are active as entries are.
proof fn lemma_active_count(
    entries: Seq<Option<EndpointEntry>>,
    default_guid: Option<Seq<char>>,
)
    ensures
        active_devices(entries, default_guid).len() == entries.filter(
            |e: Option<EndpointEntry>|
                e matches Some(EndpointEntry {
                    key: Some(EndpointKey { state: Some(state), .. }),
                    ..
                }) && state & 1 == 1,
        ).len(),
    decreases entries.len(),
{
    reveal(Seq::filter);
    if entries.len() > 0 {
        lemma_active_count(entries.drop_last(), default_guid);
        if let Some(EndpointEntry { key: Some(EndpointKey { state: Some(state), .. }), .. }) =
            entries.last() {
            lemma_lowest_bit(state);
        }
    }
}

/// The active playback devices among the keys that were found below
/// `RENDER_PATH`, the default one first and the others by name. A key whose
/// name could not be read, or that could not be opened, is passed over; the
/// listing fails only where the keys could not be had at all.
pub fn enumerate_devices(
    render: &Result<Vec<Option<EndpointEntry>>, String>,
    default_guid: Option<&str>,
) -> (r: Result<Vec<Device>, String>)
    ensures
        match (render, r) {
            (Ok(entries), Ok(listed)) => {
                &&& arranged(
                    active_devices(entries@, slice_text(default_guid)),
                    views(listed@),
                )
                // An endpoint is listed if and only if the lowest bit of its
                // state is set.
                &&& forall|i: int|
                    #![trigger entries@[i]]
                    0 <= i < entries@.len() && (entries@[i] matches Some(EndpointEntry {
                        key: Some(EndpointKey { state: Some(state), .. }),
                        ..
                    }) && state & 1 == 1) ==> exists|j: int|
                        0 <= j < listed@.len() && #[trigger] listed@[j].guid@ == entries@[i]->0.guid@
                &&& forall|d: Device| #[trigger]
                    listed@.contains(d) ==> exists|i: int|
                        #![trigger entries@[i]]
                        {
                            &&& 0 <= i < entries@.len()
                            &&& (entries@[i] matches Some(EndpointEntry {
                                key: Some(EndpointKey { state: Some(state), .. }),
                                ..
                            }) && state & 1 == 1)
                            &&& entries@[i]->0.guid@ == d.guid@
                        }
            },
            (Err(e), Err(message)) => message@ == "cannot open audio endpoint registry key: "@ + e@,
            _ => false,
        },
{
    match render {
        Err(e) => {
            let mut message: String = "cannot open audio endpoint registry key: ".to_owned();
            message.append(e.as_str());
            Err(message)
        },
        Ok(entries) => {
            let mut listed: Vec<Device> = Vec::new();
            let ghost mut places: Seq<int> = seq![];
            let mut i: usize = 0;
            while i < entries.len()
                invariant
                    i <= entries@.len(),
                    arranged_by(
                        active_devices(entries@.take(i as int), slice_text(default_guid)),
                        views(listed@),
                        places,
                    ),
                decreases entries@.len() - i,
            {
                let ghost upto = entries@.take(i + 1);
                let ghost so_far = active_devices(entries@.take(i as int), slice_text(default_guid));
                assert(upto.drop_last() =~= entries@.take(i as int));
                assert(upto.last() == entries@[i as int]);
                if let Some(entry) = &entries[i] {
                    if let Some(key) = &entry.key {
                        let active: bool = match key.state {
                            Some(state) => state % 2 == 1,
                            None => false,
                        };
                        if active {
                            let d: Device = make_device(entry, key, default_guid);
                            let ghost before = listed@;
                            let ghost dv = d@;
                            let k: usize = insert_device(&mut listed, d);
                            proof {
                                lemma_insert(so_far, views(before), places, dv, k as int);
                                places = places.insert(k as int, so_far.len() as int);
                                assert(views(listed@) =~= views(before).insert(k as int, dv));
                            }
                        }
                    }
                }
                i += 1;
            }
            assert(entries@.take(i as int) =~= entries@);
            proof {
                let all = active_devices(entries@, slice_text(default_guid));
                let vs = views(listed@);
                assert forall|i: int|
                    #![trigger entries@[i]]
                    0 <= i < entries@.len() && (entries@[i] matches Some(EndpointEntry {
                        key: Some(EndpointKey { state: Some(state), .. }),
                        ..
                    }) && state & 1 == 1) implies exists|j: int|
                    0 <= j < listed@.len() && #[trigger] listed@[j].guid@ == entries@[i]->0.guid@ by {
                    let d = device_of(entries@[i]->0, slice_text(default_guid));
                    lemma_lowest_bit(entries@[i]->0.key->0.state->0);
                    lemma_active_is_found(entries@, slice_text(default_guid), i);
                    listing_keeps_every_device(all, vs, d);
                    let j = choose|j: int| 0 <= j < vs.len() && vs[j] == d;
                    assert(listed@[j]@ == d);
                }
                assert forall|d: Device| #[trigger] listed@.contains(d) implies exists|i: int|
                    #![trigger entries@[i]]
                    {
                        &&& 0 <= i < entries@.len()
                        &&& (entries@[i] matches Some(EndpointEntry {
                            key: Some(EndpointKey { state: Some(state), .. }),
                            ..
                        }) && state & 1 == 1)
                        &&& entries@[i]->0.guid@ == d.guid@
                    } by {
                    let j = choose|j: int| 0 <= j < listed@.len() && listed@[j] == d;
                    assert(vs[j] == d@);
                    listing_keeps_every_device(all, vs, d@);
                    let i = lemma_found_is_active(entries@, slice_text(default_guid), d@);
                    lemma_lowest_bit(entries@[i]->0.key->0.state->0);
                    assert(entries@[i]->0.guid@ == d.guid@);
                }
            }
            Ok(listed)
        },
    }
}

/// `rest` is what stands behind the last dot of `id`.
pub open spec fn behind_last_dot(id: Seq<char>, rest: Seq<char>) -> bool {
    exists|i: int|
        {
            &&& 0 <= i < id.len()
            &&& #[trigger] id[i] == '.'
            &&& !rest.contains('.')
            &&& rest == id.skip(i + 1)
        }
}

/// The key name of the endpoint with the given full identifier: what stands
/// behind the last dot. There is none where the identifier could not be had or
/// holds no dot.
pub fn default_endpoint_guid(full_id: Option<&str>) -> (r: Option<String>)
    ensures
        match (full_id, r) {
            (Some(id), Some(guid)) => behind_last_dot(id@, guid@),
            (Some(id), None) => !id@.contains('.'),
            (None, None) => true,
            (None, Some(_)) => false,
        },
{
    let id: &str = match full_id {
        Some(id) => id,
        None => return None,
    };
    let chars: Vec<char> = chars_of(id);
    let mut i: usize = chars.len();
    while i > 0
        invariant
            full_id == Some(id),
            chars@ == id@,
            i <= chars@.len(),
            forall|j: int| i <= j < chars@.len() ==> chars@[j] != '.',
        decreases i,
    {
        i -= 1;
        if chars[i] == '.' {
            let guid: String = text_of(&chars, i + 1, chars.len());
            assert(guid@ =~= id@.skip(i + 1));
            assert(id@[i as int] == '.');
            return Some(guid);
        }
    }
    None
}

/// Where a device is the default one, the list begins with a default device.
pub proof fn default_device_comes_first(
    devices: Seq<DeviceView>,
    listed: Seq<DeviceView>,
    i: int,
)
    requires
        arranged(devices, listed),
        0 <= i < listed.len(),
        listed[i].is_default,
    ensures
        listed[0].is_default,
{
    if i > 0 {
        assert(!device_before(listed[i], listed[0]));
    }
}

/// Whatever is listed was found, and whatever was found is listed.
pub proof fn listing_keeps_every_device(
    devices: Seq<DeviceView>,
    listed: Seq<DeviceView>,
    d: DeviceView,
)
    requires
        arranged(devices, listed),
    ensures
        devices.contains(d) <==> listed.contains(d),
{
    let places = choose|places: Seq<int>| arranged_by(devices, listed, places);
    if listed.contains(d) {
        let i = choose|i: int| 0 <= i < listed.len() && listed[i] == d;
        assert(devices[places[i]] == d);
    }
    if devices.contains(d) {
        let k = choose|k: int| 0 <= k < devices.len() && devices[k] == d;
        lemma_places_cover(places, devices.len() as int, k);
        let i = choose|i: int| 0 <= i < places.len() && places[i] == k;
        assert(listed[i] == d);
    }
}

/// As many different places as there are devices leave no device out.
proof fn lemma_places_cover(places: Seq<int>, n: int, k: int)
    requires
        places.len() == n,
        forall|i: int| 0 <= i < n ==> 0 <= #[trigger] places[i] < n,
        forall|i: int, j: int| 0 <= i < j < n ==> #[trigger] places[i] != #[trigger] places[j],
        0 <= k < n,
    ensures
        exists|i: int| 0 <= i < places.len() && places[i] == k,
{
    let all = vstd::set_lib::set_int_range(0, n);
    vstd::set_lib::lemma_int_range(0, n);
    assert(places.no_duplicates());
    places.unique_seq_to_set();
    assert(places.to_set().subset_of(all)) by {
        assert forall|x: int| places.to_set().contains(x) implies all.contains(x) by {
            let i = choose|i: int| 0 <= i < places.len() && places[i] == x;
            assert(0 <= places[i] < n);
        }
    }
    vstd::set_lib::lemma_subset_equality(places.to_set(), all);
    assert(places.to_set().contains(k));
}

/// There is only one way to list devices.
pub proof fn listing_is_determined(
    devices: Seq<DeviceView>,
    one: Seq<DeviceView>,
    other: Seq<DeviceView>,
)
    requires
        arranged(devices, one),
        arranged(devices, other),
    ensures
        one == other,
{
    let p = choose|places: Seq<int>| arranged_by(devices, one, places);
    let q = choose|places: Seq<int>| arranged_by(devices, other, places);
    lemma_same_places(devices, one, p, other, q, devices.len() as int);
    assert forall|i: int| 0 <= i < one.len() implies one[i] == other[i] by {
        assert(p[i] == q[i]);
    }
    assert(one =~= other);
}

/// Two lists of the same devices agree on their first `n` places.
proof fn lemma_same_places(
    devices: Seq<DeviceView>,
    one: Seq<DeviceView>,
    p: Seq<int>,
    other: Seq<DeviceView>,
    q: Seq<int>,
    n: int,
)
    requires
        arranged_by(devices, one, p),
        arranged_by(devices, other, q),
        0 <= n <= devices.len(),
    ensures
        forall|i: int| 0 <= i < n ==> #[trigger] p[i] == q[i],
    decreases n,
{
    if n > 0 {
        lemma_same_places(devices, one, p, other, q, n - 1);
        let i = n - 1;
        if p[i] != q[i] {
            lemma_places_cover(p, devices.len() as int, q[i]);
            lemma_places_cover(q, devices.len() as int, p[i]);
            let m = choose|m: int| 0 <= m < p.len() && p[m] == q[i];
            let k = choose|k: int| 0 <= k < q.len() && q[k] == p[i];
            assert(m > i);
            assert(k > i) by {
                if k < i {
                    assert(p[k] == q[k]);
                }
            }
            assert(!device_before(one[m], one[i]));
            assert(!device_before(other[k], other[i]));
            assert(p[i] < p[m]);
            assert(q[i] < q[k]);
        }
    }
}

/// The key name of an endpoint is found again in the full identifier that a
/// listed device has, as long as the key name holds no dot.
pub proof fn key_name_is_found_again(entry: EndpointEntry, default_guid: Option<Seq<char>>, guid: Seq<char>)
    requires
        !entry.guid@.contains('.'),
    ensures
        behind_last_dot(device_of(entry, default_guid).full_id, guid) <==> guid == entry.guid@,
{
    reveal_strlit("{0.0.0.00000000}.");
    let id = device_of(entry, default_guid).full_id;
    assert(id[16] == '.');
    assert(id.skip(17) =~= entry.guid@);
    if behind_last_dot(id, guid) {
        let i = choose|i: int|
            0 <= i < id.len() && #[trigger] id[i] == '.' && !guid.contains('.') && guid == id.skip(
                i + 1,
            );
        if i < 16 {
            assert(guid[15 - i] == '.');
        } else if i > 16 {
            assert(entry.guid@[i - 17] == '.');
        }
    }
}

/// Every endpoint with the lowest bit of its state set is listed, whatever the
/// other bits are, and nothing else is. So an endpoint whose state is only 2, 4
/// or 8 is never listed, nor one that could not be opened or has no state. As
/// many devices are listed as there are such endpoints.
pub proof fn active_endpoints_are_listed(
    entries: Seq<Option<EndpointEntry>>,
    default_guid: Option<Seq<char>>,
    listed: Seq<DeviceView>,
    i: int,
    j: int,
)
    requires
        arranged(active_devices(entries, default_guid), listed),
        0 <= i < entries.len(),
        0 <= j < listed.len() || listed.len() == 0,
    ensures
        (entries[i] matches Some(EndpointEntry {
            key: Some(EndpointKey { state: Some(state), .. }),
            ..
        }) && state & 1 == 1) ==> exists|k: int|
            0 <= k < listed.len() && #[trigger] listed[k].guid == entries[i]->0.guid@,
        listed.len() > 0 ==> exists|k: int|
            {
                &&& 0 <= k < entries.len()
                &&& (#[trigger] entries[k] matches Some(EndpointEntry {
                    key: Some(EndpointKey { state: Some(state), .. }),
                    ..
                }) && state & 1 == 1)
                &&& entries[k]->0.guid@ == listed[j].guid
            },
        listed.len() == entries.filter(
            |e: Option<EndpointEntry>|
                e matches Some(EndpointEntry {
                    key: Some(EndpointKey { state: Some(state), .. }),
                    ..
                }) && state & 1 == 1,
        ).len(),
{
    lemma_active_count(entries, default_guid);
    let all = active_devices(entries, default_guid);
    if let Some(EndpointEntry { key: Some(EndpointKey { state: Some(state), .. }), .. }) = entries[i] {
        lemma_lowest_bit(state);
        if state & 1 == 1 {
            let d = device_of(entries[i]->0, default_guid);
            lemma_active_is_found(entries, default_guid, i);
            listing_keeps_every_device(all, listed, d);
            let k = choose|k: int| 0 <= k < listed.len() && listed[k] == d;
            assert(listed[k].guid == entries[i]->0.guid@);
        }
    }
    if listed.len() > 0 {
        let d = listed[j];
        assert(listed.contains(d));
        listing_keeps_every_device(all, listed, d);
        let k = lemma_found_is_active(entries, default_guid, d);
        lemma_lowest_bit(entries[k]->0.key->0.state->0);
        assert(entries[k]->0.guid@ == listed[j].guid);
    }
}

/// A listed device has the key name of its endpoint, that name behind the prefix
/// as its full identifier, and is the default one exactly when that name is the
/// one of the default endpoint. It goes by the name of the endpoint with that of
/// the device behind it in brackets, by the one of the two that is there and not
/// empty, or by the key name.
pub proof fn listed_device_is_described(
    entries: Seq<Option<EndpointEntry>>,
    default_guid: Option<Seq<char>>,
    listed: Seq<DeviceView>,
    j: int,
) -> (i: int)
    requires
        arranged(active_devices(entries, default_guid), listed),
        0 <= j < listed.len(),
    ensures
        0 <= i < entries.len(),
        ({
            let d = listed[j];
            let e = entries[i]->0;
            let names = e.key->0.properties;
            let endpoint = match names {
                Some(EndpointProperties { endpoint: Some(t), .. }) => t@,
                _ => seq![],
            };
            let desc = match names {
                Some(EndpointProperties { desc: Some(t), .. }) => t@,
                _ => seq![],
            };
            &&& entries[i] is Some && e.key is Some
            &&& d.guid == e.guid@
            &&& d.full_id == "{0.0.0.00000000}."@ + e.guid@
            &&& d.is_default <==> default_guid == Some(e.guid@)
            &&& endpoint.len() > 0 && desc.len() > 0 ==> d.name == endpoint + " ("@ + desc + ")"@
            &&& endpoint.len() > 0 && desc.len() == 0 ==> d.name == endpoint
            &&& endpoint.len() == 0 && desc.len() > 0 ==> d.name == desc
            &&& endpoint.len() == 0 && desc.len() == 0 ==> d.name == e.guid@
        }),
{
    let d = listed[j];
    assert(listed.contains(d));
    listing_keeps_every_device(active_devices(entries, default_guid), listed, d);
    lemma_found_is_active(entries, default_guid, d)
}

/// A device that is not the default one never stands before one that is, and of
/// two that are alike in that, none stands before one with a smaller name.
pub proof fn list_is_in_order(
    devices: Seq<DeviceView>,
    listed: Seq<DeviceView>,
    i: int,
    j: int,
)
    requires
        arranged(devices, listed),
        0 <= i < j < listed.len(),
    ensures
        listed[j].is_default ==> listed[i].is_default,
        listed[i].is_default == listed[j].is_default ==> !text_before(
            listed[j].name,
            listed[i].name,
        ),
{
    assert(!device_before(listed[j], listed[i]));
}

/// Of two devices of one name, neither or both being the default one, that which
/// was found first is listed first.
pub proof fn equal_devices_keep_their_order(
    a: Seq<DeviceView>,
    x: DeviceView,
    b: Seq<DeviceView>,
    y: DeviceView,
    c: Seq<DeviceView>,
    listed: Seq<DeviceView>,
)
    requires
        arranged(a + seq![x] + b + seq![y] + c, listed),
        x.is_default == y.is_default,
        x.name == y.name,
    ensures
        exists|i: int, j: int|
            0 <= i < j < listed.len() && #[trigger] listed[i] == x && #[trigger] listed[j] == y,
{
    let devices = a + seq![x] + b + seq![y] + c;
    let places = choose|places: Seq<int>| arranged_by(devices, listed, places);
    let m = a.len() as int;
    let n = (a.len() + 1 + b.len()) as int;
    assert(devices[m] == x && devices[n] == y);
    lemma_places_cover(places, devices.len() as int, m);
    lemma_places_cover(places, devices.len() as int, n);
    let i = choose|i: int| 0 <= i < places.len() && places[i] == m;
    let j = choose|j: int| 0 <= j < places.len() && places[j] == n;
    assert(listed[i] == x && listed[j] == y);
    order_is_irreflexive(x.name);
    if j < i {
        assert(!device_before(listed[j], listed[i]));
        assert(places[j] < places[i]);
    }
}

/// What stands behind the last dot is found, whatever stands before that dot.
pub proof fn text_behind_the_last_dot(a: Seq<char>, r: Seq<char>, found: Seq<char>)
    requires
        !r.contains('.'),
    ensures
        behind_last_dot(a + seq!['.'] + r, found) <==> found == r,
{
    let id = a + seq!['.'] + r;
    let n = a.len() as int;
    assert(id[n] == '.');
    assert(id.skip(n + 1) =~= r);
    if behind_last_dot(id, found) {
        let i = choose|i: int|
            0 <= i < id.len() && #[trigger] id[i] == '.' && !found.contains('.') && found
                == id.skip(i + 1);
        if i < n {
            assert(found[n - i - 1] == '.');
        } else if i > n {
            assert(r[i - n - 1] == '.');
        }
    }
}

/// The key name of the default endpoint is seen as it is given.
pub proof fn default_name_is_seen_whole(name: &str)
    ensures
        slice_text(Some(name)) == Some(name@),
        slice_text(None) is None,
{
}

} // verus!
