//! Playback devices, and how one is picked.
use vstd::prelude::*;

use crate::text::{
    contains_text, decimal, decimal_text, has_text, lower, occurs_at, to_ascii_lowercase,
};
use crate::text_laws::{
    lower_case_of_parts, lower_case_tells_letters, same_letters, text_is_found_where_it_stands,
};

verus! {

/// Registry key, under the local machine, that holds one key per endpoint.
pub const RENDER_PATH: &'static str = r"SOFTWARE\Microsoft\Windows\CurrentVersion\MMDevices\Audio\Render";

/// An active playback device.
#[derive(Debug)]
pub struct Device {
    pub guid: String,
    /// Full identifier of the endpoint, e.g. "{0.0.0.00000000}.{a748ee06-...}".
    pub full_id: String,
    pub name: String,
    pub is_default: bool,
}

/// A device as contracts see it.
pub struct DeviceView {
    pub guid: Seq<char>,
    pub full_id: Seq<char>,
    pub name: Seq<char>,
    pub is_default: bool,
}

impl View for Device {
    type V = DeviceView;

    open spec fn view(&self) -> DeviceView {
        DeviceView {
            guid: self.guid@,
            full_id: self.full_id@,
            name: self.name@,
            is_default: self.is_default,
        }
    }
}

/// Devices as contracts see them.
pub open spec fn views(devices: Seq<Device>) -> Seq<DeviceView> {
    devices.map_values(|d: Device| d@)
}

/// The text for the state of an effect.
pub open spec fn state_words(state: Option<bool>) -> Seq<char> {
    match state {
        Some(true) => "ON"@,
        Some(false) => "OFF"@,
        None => "OFF (never set)"@,
    }
}

/// The text for the state of an effect.
pub fn state_text(state: Option<bool>) -> (r: &'static str)
    ensures
        r@ == state_words(state),
{
    match state {
        Some(true) => "ON",
        Some(false) => "OFF",
        None => "OFF (never set)",
    }
}

/// A device's name contains the filter, in any mix of ASCII cases.
pub open spec fn matches_filter(d: DeviceView, filter: Seq<char>) -> bool {
    contains_text(lower(d.name), lower(filter))
}

/// The positions of the devices that match a filter, in order.
pub open spec fn matching(devices: Seq<DeviceView>, filter: Seq<char>) -> Seq<int>
    decreases devices.len(),
{
    if devices.len() == 0 {
        seq![]
    } else if matches_filter(devices.last(), filter) {
        matching(devices.drop_last(), filter).push(devices.len() - 1)
    } else {
        matching(devices.drop_last(), filter)
    }
}

/// The names at the given positions, one to a line, each behind two spaces.
pub open spec fn name_lines(devices: Seq<DeviceView>, at: Seq<int>) -> Seq<char>
    decreases at.len(),
{
    if at.len() == 0 {
        seq![]
    } else if at.len() == 1 {
        "  "@ + devices[at[0]].name
    } else {
        name_lines(devices, at.drop_last()) + "\n"@ + "  "@ + devices[at.last()].name
    }
}

/// The message when no device matches.
pub open spec fn no_match_message(filter: Seq<char>) -> Seq<char> {
    "no active playback device matches \""@ + filter + "\" — try `loudeq list`"@
}

/// The message when more than one device matches.
pub open spec fn ambiguous_message(
    devices: Seq<DeviceView>,
    filter: Seq<char>,
    at: Seq<int>,
) -> Seq<char> {
    "\""@ + filter + "\" matches "@ + decimal(at.len()) + " devices — be more specific:\n"@
        + name_lines(devices, at)
}

/// The message when no device is the default one.
pub open spec fn no_default_message() -> Seq<char> {
    "could not determine the default playback device — pass --device"@
}

/// The message of a search that matched the devices at the given positions.
fn search_error(devices: &[Device], filter: &str, at: &Vec<usize>) -> (r: String)
    requires
        forall|i: int| 0 <= i < at@.len() ==> #[trigger] at@[i] < devices@.len(),
    ensures
        r@ == if at@.len() == 0 {
            no_match_message(filter@)
        } else {
            ambiguous_message(views(devices@), filter@, at@.map_values(|i: usize| i as int))
        },
{
    let mut out = String::new();
    if at.len() == 0 {
        out.append("no active playback device matches \"");
        out.append(filter);
        out.append("\" — try `loudeq list`");
        assert(out@ =~= no_match_message(filter@));
        return out;
    }
    let ghost ats = at@.map_values(|i: usize| i as int);
    out.append("\"");
    out.append(filter);
    out.append("\" matches ");
    out.append(decimal_text(at.len() as u64).as_str());
    out.append(" devices — be more specific:\n");
    let ghost head = out@;
    assert(head =~= "\""@ + filter@ + "\" matches "@ + decimal(ats.len())
        + " devices — be more specific:\n"@);
    let mut i: usize = 0;
    while i < at.len()
        invariant
            i <= at@.len(),
            forall|i: int| 0 <= i < at@.len() ==> #[trigger] at@[i] < devices@.len(),
            ats == at@.map_values(|i: usize| i as int),
            out@ == head + name_lines(views(devices@), ats.take(i as int)),
        decreases at@.len() - i,
    {
        let ghost before = out@;
        if i > 0 {
            out.append("\n");
        }
        out.append("  ");
        out.append(devices[at[i]].name.as_str());
        proof {
            let now = ats.take(i + 1);
            assert(now.drop_last() =~= ats.take(i as int));
            assert(now.last() == at@[i as int]);
            assert(views(devices@)[now.last()].name == devices@[at@[i as int] as int].name@);
            assert(out@ =~= head + name_lines(views(devices@), now));
        }
        i += 1;
    }
    assert(ats.take(i as int) =~= ats);
    out
}

/// Picks the device that a command is meant for: the only one whose name
/// contains the filter, or the default one where there is no filter.
pub fn resolve_target<'a>(devices: &'a [Device], filter: Option<&str>) -> (r: Result<
    &'a Device,
    String,
>)
    ensures
        match filter {
            Some(f) => {
                let at = matching(views(devices@), f@);
                match r {
                    Ok(d) => at.len() == 1 && *d == devices@[at[0]],
                    Err(e) => at.len() != 1 && e@ == if at.len() == 0 {
                        no_match_message(f@)
                    } else {
                        ambiguous_message(views(devices@), f@, at)
                    },
                }
            },
            None => match r {
                Ok(d) => exists|i: int|
                    {
                        &&& 0 <= i < devices@.len()
                        &&& #[trigger] devices@[i].is_default
                        &&& *d == devices@[i]
                        &&& forall|j: int| 0 <= j < i ==> !(#[trigger] devices@[j].is_default)
                    },
                Err(e) => {
                    &&& forall|i: int| 0 <= i < devices@.len() ==> !(#[trigger] devices@[i].is_default)
                    &&& e@ == no_default_message()
                },
            },
        },
{
    match filter {
        Some(f) => {
            let needle: String = to_ascii_lowercase(f);
            let mut at: Vec<usize> = Vec::new();
            let mut i: usize = 0;
            while i < devices.len()
                invariant
                    i <= devices@.len(),
                    needle@ == lower(f@),
                    at@.map_values(|i: usize| i as int) == matching(
                        views(devices@).take(i as int),
                        f@,
                    ),
                    forall|j: int| 0 <= j < at@.len() ==> #[trigger] at@[j] < i,
                decreases devices@.len() - i,
            {
                let ghost vs = views(devices@);
                let ghost before = at@;
                let name: String = to_ascii_lowercase(devices[i].name.as_str());
                assert(vs.take(i + 1).drop_last() =~= vs.take(i as int));
                assert(vs.take(i + 1).last() == devices@[i as int]@);
                if has_text(name.as_str(), needle.as_str()) {
                    at.push(i);
                    assert(at@.map_values(|i: usize| i as int) =~= before.map_values(
                        |i: usize| i as int,
                    ).push(i as int));
                }
                i += 1;
            }
            assert(views(devices@).take(i as int) =~= views(devices@));
            let ghost ats = at@.map_values(|i: usize| i as int);
            if at.len() == 1 {
                assert(ats[0] == at@[0]);
                Ok(&devices[at[0]])
            } else {
                Err(search_error(devices, f, &at))
            }
        },
        None => {
            let mut i: usize = 0;
            while i < devices.len()
                invariant
                    filter is None,
                    i <= devices@.len(),
                    forall|j: int| 0 <= j < i ==> !(#[trigger] devices@[j].is_default),
                decreases devices@.len() - i,
            {
                if devices[i].is_default {
                    return Ok(&devices[i]);
                }
                i += 1;
            }
            let mut message = String::new();
            message.append("could not determine the default playback device — pass --device");
            assert(message@ =~= no_default_message());
            Err(message)
        },
    }
}

/// The case of ASCII letters in a filter does not matter.
pub proof fn filter_case_does_not_matter(
    devices: Seq<DeviceView>,
    filter: Seq<char>,
    other: Seq<char>,
)
    requires
        lower(filter) == lower(other),
    ensures
        matching(devices, filter) == matching(devices, other),
    decreases devices.len(),
{
    if devices.len() > 0 {
        filter_case_does_not_matter(devices.drop_last(), filter, other);
    }
}

/// A filter finds a device wherever its name holds the filter, up to the case of
/// ASCII letters and whatever stands around it.
pub proof fn name_with_the_filter_matches(
    d: DeviceView,
    a: Seq<char>,
    g: Seq<char>,
    b: Seq<char>,
    filter: Seq<char>,
)
    requires
        d.name == a + g + b,
        same_letters(g, filter),
    ensures
        matches_filter(d, filter),
{
    lower_case_of_parts(a + g, b);
    lower_case_of_parts(a, g);
    lower_case_tells_letters(g, filter);
    text_is_found_where_it_stands(lower(a), lower(g), lower(b), lower(d.name));
}

/// A device that a filter finds has a name that holds the filter, up to the case
/// of ASCII letters. The parts of the name before it and at it are handed out.
pub proof fn matching_name_holds_the_filter(d: DeviceView, filter: Seq<char>) -> (parts: (
    Seq<char>,
    Seq<char>,
    Seq<char>,
))
    requires
        matches_filter(d, filter),
    ensures
        d.name == parts.0 + parts.1 + parts.2,
        same_letters(parts.1, filter),
{
    let i = choose|i: int| occurs_at(lower(d.name), lower(filter), i);
    let n = lower(filter).len() as int;
    let a = d.name.take(i);
    let g = d.name.subrange(i, i + n);
    let b = d.name.skip(i + n);
    assert(d.name =~= a + g + b);
    assert(lower(g) =~= lower(d.name).subrange(i, i + n));
    lower_case_tells_letters(g, filter);
    (a, g, b)
}

/// The positions that match are those of the devices that the filter finds, each
/// once and in order.
pub proof fn every_match_is_counted_once(devices: Seq<DeviceView>, filter: Seq<char>)
    ensures
        forall|i: int| #[trigger]
            matching(devices, filter).contains(i) <==> 0 <= i < devices.len() && matches_filter(
                devices[i],
                filter,
            ),
        forall|j: int, k: int|
            0 <= j < k < matching(devices, filter).len() ==> #[trigger] matching(devices, filter)[j]
                < #[trigger] matching(devices, filter)[k],
    decreases devices.len(),
{
    let all = matching(devices, filter);
    if devices.len() > 0 {
        let before = matching(devices.drop_last(), filter);
        let last = devices.len() - 1;
        every_match_is_counted_once(devices.drop_last(), filter);
        assert forall|i: int| #[trigger] all.contains(i) <==> 0 <= i < devices.len()
            && matches_filter(devices[i], filter) by {
            assert(before.contains(i) <==> 0 <= i < last && matches_filter(devices[i], filter));
            if matches_filter(devices.last(), filter) {
                if all.contains(i) {
                    let j = choose|j: int| 0 <= j < all.len() && all[j] == i;
                    if j < before.len() {
                        assert(before[j] == i);
                    }
                }
                if before.contains(i) {
                    let j = choose|j: int| 0 <= j < before.len() && before[j] == i;
                    assert(all[j] == i);
                }
                assert(all[before.len() as int] == last);
            }
        }
        assert forall|j: int, k: int| 0 <= j < k < all.len() implies #[trigger] all[j]
            < #[trigger] all[k] by {
            assert(before.contains(before[j]));
        }
    }
}

/// A filter that the names of no two devices hold, and that the name of one does
/// hold, picks that one.
pub proof fn only_match_is_picked(devices: Seq<DeviceView>, filter: Seq<char>, i: int)
    requires
        0 <= i < devices.len(),
        matches_filter(devices[i], filter),
        forall|j: int|
            0 <= j < devices.len() && j != i ==> !matches_filter(#[trigger] devices[j], filter),
    ensures
        matching(devices, filter) == seq![i],
{
    let at = matching(devices, filter);
    every_match_is_counted_once(devices, filter);
    assert(at.contains(i));
    let k = choose|k: int| 0 <= k < at.len() && at[k] == i;
    assert(at.len() == 1) by {
        if at.len() > 1 {
            let j = if k == 0 {
                1int
            } else {
                0int
            };
            assert(at.contains(at[j]));
            if j < k {
                assert(at[j] < at[k]);
            } else {
                assert(at[k] < at[j]);
            }
        }
    }
    assert(at =~= seq![i]);
}

/// A search that fails tells the filter as it was given; where more than one
/// device matches, it tells how many, and the name of each on a line of its own.
pub proof fn failed_search_tells_the_filter(
    devices: Seq<DeviceView>,
    filter: Seq<char>,
    at: Seq<int>,
    i: int,
)
    requires
        at.len() > 0,
    ensures
        no_match_message(filter) == "no active playback device matches \""@ + filter
            + "\" — try `loudeq list`"@,
        ambiguous_message(devices, filter, at) == "\""@ + filter + "\" matches "@ + decimal(
            at.len(),
        ) + " devices — be more specific:\n"@ + name_lines(devices, at),
        name_lines(devices, seq![i]) == "  "@ + devices[i].name,
        name_lines(devices, at.push(i)) == name_lines(devices, at) + "\n  "@ + devices[i].name,
        no_default_message()
            == "could not determine the default playback device — pass --device"@,
{
    reveal_strlit("\n");
    reveal_strlit("  ");
    reveal_strlit("\n  ");
    let longer = at.push(i);
    assert(longer.drop_last() =~= at);
    let lines = name_lines(devices, at);
    assert(lines + "\n"@ + "  "@ + devices[i].name =~= lines + "\n  "@ + devices[i].name);
}

/// A state is told as ON or OFF; one that was never set is told as such.
pub proof fn state_is_told(on: bool)
    ensures
        state_words(Some(true)) == "ON"@,
        state_words(Some(false)) == "OFF"@,
        state_words(None) == "OFF (never set)"@,
        state_words(Some(on)) == "ON"@ <==> on,
{
    reveal_strlit("ON");
    reveal_strlit("OFF");
    assert("ON"@.len() == 2 && "OFF"@.len() == 3);
}

/// A device is seen whole, and so is every device of a list, at its place.
pub proof fn device_is_seen_whole(devices: Seq<Device>, i: int)
    requires
        0 <= i < devices.len(),
    ensures
        views(devices).len() == devices.len(),
        views(devices)[i].guid == devices[i].guid@,
        views(devices)[i].full_id == devices[i].full_id@,
        views(devices)[i].name == devices[i].name@,
        views(devices)[i].is_default == devices[i].is_default,
{
}

} // verus!
