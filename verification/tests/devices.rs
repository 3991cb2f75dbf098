use loudeq::cli::{Action, FxOp, Options};
use loudeq::listing::{EndpointEntry, EndpointKey, EndpointProperties};
use loudeq::run::pick_device;
use loudeq::{
    default_endpoint_guid, enumerate_devices, fx_properties_path, resolve_target, state_text,
    Device,
};

fn device(name: &str, guid: &str, is_default: bool) -> Device {
    Device {
        guid: guid.into(),
        full_id: format!("{{0.0.0.00000000}}.{guid}"),
        name: name.into(),
        is_default,
    }
}

fn entry(guid: &str, state: Option<u32>, endpoint: Option<&str>, desc: Option<&str>) -> Option<EndpointEntry> {
    Some(EndpointEntry {
        guid: guid.into(),
        key: Some(EndpointKey {
            state,
            properties: Some(EndpointProperties {
                endpoint: endpoint.map(String::from),
                desc: desc.map(String::from),
            }),
        }),
    })
}

fn options(action: Action, filter: Option<&str>) -> Options {
    Options {
        action,
        device_filter: filter.map(String::from),
        no_restart: false,
        remove: false,
        elevated: false,
    }
}

#[test]
fn state_text_formats_all_three_states() {
    assert_eq!(state_text(Some(true)), "ON");
    assert_eq!(state_text(Some(false)), "OFF");
    assert_eq!(state_text(None), "OFF (never set)");
}

#[test]
fn resolve_target_defaults_to_the_default_device() {
    let devices = vec![
        device("Speakers", "guid-a", false),
        device("Headphones", "guid-b", true),
    ];
    let picked = resolve_target(&devices, None).unwrap();
    assert_eq!(picked.guid, "guid-b");
}

#[test]
fn resolve_target_errs_with_no_default_and_no_filter() {
    let devices = vec![device("Speakers", "guid-a", false)];
    assert!(resolve_target(&devices, None).is_err());
}

#[test]
fn resolve_target_matches_by_case_insensitive_substring() {
    let devices = vec![
        device("Speakers (Philips SPA6109)", "guid-a", true),
        device("EDIFIER W830NB", "guid-b", false),
    ];
    let picked = resolve_target(&devices, Some("philips")).unwrap();
    assert_eq!(picked.guid, "guid-a");
}

#[test]
fn resolve_target_errs_on_no_match() {
    let devices = vec![device("Speakers", "guid-a", true)];
    assert!(resolve_target(&devices, Some("nonexistent")).is_err());
}

#[test]
fn resolve_target_errs_on_ambiguous_match() {
    let devices = vec![
        device("EDIFIER W830NB", "guid-a", false),
        device("EDIFIER W830NB Hands-Free", "guid-b", false),
    ];
    let err = resolve_target(&devices, Some("edifier")).unwrap_err();
    assert!(err.contains("2 devices"));
}

#[test]
fn resolve_target_says_what_went_wrong() {
    let devices = vec![
        device("EDIFIER W830NB", "guid-a", false),
        device("Speakers", "guid-c", false),
        device("EDIFIER W830NB Hands-Free", "guid-b", false),
    ];
    assert_eq!(
        resolve_target(&devices, Some("eDi")).unwrap_err(),
        "\"eDi\" matches 2 devices — be more specific:\n  EDIFIER W830NB\n  EDIFIER W830NB Hands-Free"
    );
    assert_eq!(
        resolve_target(&devices, Some("xyz")).unwrap_err(),
        "no active playback device matches \"xyz\" — try `loudeq list`"
    );
    assert_eq!(
        resolve_target(&devices, None).unwrap_err(),
        "could not determine the default playback device — pass --device"
    );
    assert_eq!(resolve_target(&devices, Some("SPEAK")).unwrap().guid, "guid-c");
}

#[test]
fn filter_case_is_ignored_for_ascii_only() {
    let devices = vec![device("Lautsprecher GRÜN", "a", false)];
    assert_eq!(resolve_target(&devices, Some("GrÜn")).unwrap().guid, "a");
    assert!(resolve_target(&devices, Some("grün")).is_err());
}

#[test]
fn only_active_endpoints_are_listed_default_first() {
    let render = Ok(vec![
        entry("{b}", Some(1), Some("Speakers"), Some("USB")),
        entry("{off}", Some(4), Some("Unplugged"), None),
        entry("{none}", None, Some("Stateless"), None),
        None,
        Some(EndpointEntry { guid: "{closed}".into(), key: None }),
        entry("{c}", Some(0x1000_0001), None, Some("Alpha")),
        entry("{d}", Some(1), Some("Zeta"), None),
        entry("{e}", Some(1), None, None),
        Some(EndpointEntry {
            guid: "{f}".into(),
            key: Some(EndpointKey { state: Some(1), properties: None }),
        }),
    ]);
    let listed = enumerate_devices(&render, Some("{d}")).unwrap();
    let names: Vec<&str> = listed.iter().map(|d| d.name.as_str()).collect();
    assert_eq!(names, vec!["Zeta", "Alpha", "Speakers (USB)", "{e}", "{f}"]);
    let defaults: Vec<bool> = listed.iter().map(|d| d.is_default).collect();
    assert_eq!(defaults, vec![true, false, false, false, false]);
    assert_eq!(listed[0].guid, "{d}");
    assert_eq!(listed[0].full_id, "{0.0.0.00000000}.{d}");
}

#[test]
fn devices_of_one_name_keep_their_order() {
    let render = Ok(vec![
        entry("{2}", Some(1), Some("Same"), None),
        entry("{1}", Some(1), Some("Same"), None),
        entry("{3}", Some(1), Some("Other"), None),
    ]);
    let listed = enumerate_devices(&render, None).unwrap();
    let guids: Vec<&str> = listed.iter().map(|d| d.guid.as_str()).collect();
    assert_eq!(guids, vec!["{3}", "{2}", "{1}"]);
    assert!(listed.iter().all(|d| !d.is_default));
}

#[test]
fn a_missing_endpoint_key_is_an_error() {
    let err = enumerate_devices(&Err("no such key".into()), None).unwrap_err();
    assert_eq!(err, "cannot open audio endpoint registry key: no such key");
}

#[test]
fn key_name_is_behind_the_last_dot() {
    let id = "{0.0.0.00000000}.{a748ee06-0000-1111-2222-333344445555}";
    assert_eq!(
        default_endpoint_guid(Some(id)),
        Some("{a748ee06-0000-1111-2222-333344445555}".to_string())
    );
    assert_eq!(default_endpoint_guid(Some("ends with a dot.")), Some(String::new()));
    assert_eq!(default_endpoint_guid(Some("no dot")), None);
    assert_eq!(default_endpoint_guid(None), None);
}

#[test]
fn effects_key_lies_below_the_endpoint() {
    assert_eq!(
        fx_properties_path("{x}"),
        r"SOFTWARE\Microsoft\Windows\CurrentVersion\MMDevices\Audio\Render\{x}\FxProperties"
    );
    assert_eq!(loudeq::fx::user_store_path("{i}"), r"{i}\User");
}

#[test]
fn a_run_picks_its_device() {
    let devices = vec![device("A", "a", true), device("B", "b", false)];
    let none: Vec<Device> = Vec::new();
    assert!(pick_device(&options(Action::Tray, None), &none).unwrap().is_none());
    assert_eq!(
        pick_device(&options(Action::List, None), &none).unwrap_err(),
        "no active playback devices found"
    );
    assert!(pick_device(&options(Action::List, Some("nothing")), &devices).unwrap().is_none());
    assert!(pick_device(&options(Action::Setup, Some("nothing")), &devices).unwrap().is_none());
    let picked = pick_device(&options(Action::Toggle, None), &devices).unwrap().unwrap();
    assert_eq!(picked.guid, "a");
    let picked = pick_device(&options(Action::Bass(FxOp::On), Some("b")), &devices).unwrap().unwrap();
    assert_eq!(picked.guid, "b");
    assert!(pick_device(&options(Action::Status, Some("c")), &devices).is_err());
}
