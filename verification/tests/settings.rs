use loudeq::fallback::{Failure, FailureKind, FlatValue};
use loudeq::fx::{FxInstance, FxKey, UserStore};
use loudeq::property::{Payload, PropVariant, Property};
use loudeq::regvalue::{dword_value, vt_bool_value, VT_CLSID};
use loudeq::service::{
    wait_for_state, Restart, RestartCommand, RestartEvent, Wait, ERROR_ACCESS_DENIED,
    ERROR_SERVICE_ALREADY_RUNNING, ERROR_SERVICE_NOT_ACTIVE, SERVICE_RUNNING, SERVICE_STOPPED,
    WAIT_LIMIT_NANOS, WAIT_PAUSE_MILLIS,
};
use loudeq::session::{PolicyCall, PolicySession, PropertyWrite, Role, SessionCommand};
use loudeq::{
    apply_loudness_live, fx_instance_guids, loudness_session, parse_bool_value, read_loudness, read_release_time,
    read_sysfx_disabled, reset_endpoint, restart_audio_service, set_default_device,
    set_enhancements_enabled, set_release_time, write_loudness, Device, RegType, RegValue, RestartError,
};

const ONE: &str = "{00000000-0000-0000-0000-000000000001}";
const TWO: &str = "{00000000-0000-0000-0000-000000000002}";

fn number(n: i32) -> RegValue {
    let mut bytes = 3u32.to_le_bytes().to_vec();
    bytes.extend_from_slice(&1u32.to_le_bytes());
    bytes.extend_from_slice(&n.to_le_bytes());
    RegValue { bytes, vtype: RegType::REG_BINARY }
}

fn instance(guid: &str, loudness: Option<RegValue>, release_time: Option<RegValue>) -> Option<FxInstance> {
    Some(FxInstance { guid: guid.into(), user: Some(UserStore { loudness, release_time }) })
}

fn empty_key() -> FxKey {
    FxKey { instances: Vec::new(), loudness: None, release_time: None, disable_sysfx: None }
}

/// Keeps a property value as the stores of Windows do.
fn kept(value: PropVariant) -> RegValue {
    let mut bytes = u32::from(value.vt).to_le_bytes().to_vec();
    bytes.extend_from_slice(&1u32.to_le_bytes());
    match value.payload {
        Payload::Bool(v) => {
            bytes.extend_from_slice(&v.to_le_bytes());
            bytes.extend_from_slice(&[0, 0]);
        }
        Payload::U32(v) => bytes.extend_from_slice(&v.to_le_bytes()),
        Payload::I32(v) => bytes.extend_from_slice(&v.to_le_bytes()),
        Payload::Clsid(v) => bytes.extend_from_slice(&v.to_be_bytes()),
    }
    RegValue { bytes, vtype: RegType::REG_BINARY }
}

/// Performs a session on an effects key, and hands out what was asked for. The
/// call with the number `broken` fails.
fn perform(session: &mut PolicySession, key: &mut FxKey, broken: Option<usize>) -> Vec<SessionCommand> {
    let mut seen = Vec::new();
    let mut at = usize::MAX;
    loop {
        let command = session.command();
        seen.push(command);
        let ok = broken != Some(seen.len() - 1);
        match command {
            SessionCommand::Finish(_) | SessionCommand::Fail => return seen,
            SessionCommand::Policy(PolicyCall::SetProperty(write)) if ok => match write.property {
                Property::LoudnessEq => key.loudness = Some(kept(write.value)),
                Property::DisableSysfx => key.disable_sysfx = Some(kept(write.value)),
                Property::ReleaseTime => key.release_time = Some(kept(write.value)),
                Property::ReleaseTimeAlt => {}
            },
            SessionCommand::Activate(_) => at = at.wrapping_add(1),
            SessionCommand::SetUser(write) if ok => {
                let found = key.instances[at].as_mut().unwrap();
                let store = found
                    .user
                    .get_or_insert(UserStore { loudness: None, release_time: None });
                match write.property {
                    Property::LoudnessEq => store.loudness = Some(kept(write.value)),
                    Property::ReleaseTime => store.release_time = Some(kept(write.value)),
                    _ => panic!("not a property of a user store"),
                }
            }
            _ => {}
        }
        session.advance(ok);
    }
}

#[test]
fn user_stores_have_the_say() {
    let mut key = empty_key();
    assert_eq!(read_loudness(&None), None);
    assert_eq!(read_loudness(&Some(empty_key())), None);
    key.loudness = Some(vt_bool_value(true));
    key.release_time = Some(number(4));
    key.instances = vec![
        None,
        Some(FxInstance { guid: "{x}".into(), user: None }),
        instance("{y}", Some(RegValue { bytes: vec![], vtype: RegType::REG_SZ }), None),
        instance("{z}", Some(vt_bool_value(false)), Some(number(6))),
        instance("{w}", Some(vt_bool_value(true)), Some(number(7))),
    ];
    assert_eq!(fx_instance_guids(&Some(key_names())), vec!["{p}", "{q}"]);
    let key = Some(key);
    assert_eq!(read_loudness(&key), Some(false));
    assert_eq!(read_release_time(&key), Some(6));
    assert_eq!(fx_instance_guids(&key), vec!["{x}", "{y}", "{z}", "{w}"]);
    assert_eq!(fx_instance_guids(&None), Vec::<String>::new());
}

fn key_names() -> FxKey {
    let mut key = empty_key();
    key.instances = vec![instance("{p}", None, None), None, instance("{q}", None, None)];
    key
}

#[test]
fn flat_values_are_read_where_no_store_has_one() {
    let mut key = key_names();
    key.loudness = Some(dword_value(1));
    key.release_time = Some(dword_value(5));
    key.disable_sysfx = Some(dword_value(1));
    let key = Some(key);
    assert_eq!(read_loudness(&key), Some(true));
    assert_eq!(read_release_time(&key), Some(5));
    assert!(read_sysfx_disabled(&key));
    assert!(!read_sysfx_disabled(&None));
    assert!(!read_sysfx_disabled(&Some(empty_key())));
    assert_eq!(read_release_time(&None), None);
}

#[test]
fn a_setting_keeps_the_type_that_is_there() {
    let mut key = empty_key();
    key.loudness = Some(dword_value(0));
    let writes = write_loudness(Ok(key), true).unwrap();
    assert_eq!(writes.len(), 1);
    assert_eq!(writes[0].value, FlatValue::Loudness);
    assert_eq!(writes[0].data, dword_value(1));
    let writes = write_loudness(Ok(empty_key()), true).unwrap();
    assert_eq!(writes[0].data, vt_bool_value(true));
    assert_eq!(parse_bool_value(&writes[0].data), Some(true));
}

#[test]
fn turning_on_takes_back_disabled_enhancements() {
    let disabled = || FxKey { disable_sysfx: Some(dword_value(1)), ..empty_key() };
    let on = write_loudness(Ok(disabled()), true).unwrap();
    assert_eq!(on.len(), 2);
    assert_eq!(on[1].value, FlatValue::DisableSysfx);
    assert_eq!(on[1].data, dword_value(0));
    let off = write_loudness(Ok(disabled()), false).unwrap();
    assert_eq!(off.len(), 1);
    assert_eq!(off[0].data, vt_bool_value(false));
}

#[test]
fn written_setting_is_read_again() {
    for enable in [true, false] {
        let mut key = empty_key();
        key.disable_sysfx = Some(vt_bool_value(true));
        for write in write_loudness(Ok(FxKey { disable_sysfx: Some(vt_bool_value(true)), ..empty_key() }), enable)
            .unwrap()
        {
            match write.value {
                FlatValue::Loudness => key.loudness = Some(write.data),
                FlatValue::DisableSysfx => key.disable_sysfx = Some(write.data),
            }
        }
        let key = Some(key);
        assert_eq!(read_loudness(&key), Some(enable));
        assert_eq!(read_sysfx_disabled(&key), !enable);
    }
}

#[test]
fn an_endpoint_without_effects_is_told_so() {
    let missing = Failure { kind: FailureKind::NotFound, message: "os error 2".into() };
    let e = write_loudness(Err(missing), true).unwrap_err();
    assert_eq!(e.kind, FailureKind::NotFound);
    assert_eq!(
        e.message,
        "this device has no FxProperties key — it likely does not support Windows audio enhancements at all"
    );
    let denied = Failure { kind: FailureKind::PermissionDenied, message: "os error 5".into() };
    let e = write_loudness(Err(denied), false).unwrap_err();
    assert_eq!(e.kind, FailureKind::PermissionDenied);
    assert_eq!(e.message, "os error 5");
    let other = Failure { kind: FailureKind::Other, message: "odd".into() };
    assert_eq!(write_loudness(Err(other), false).unwrap_err().message, "odd");
}

fn two_instances() -> FxKey {
    let mut key = empty_key();
    key.instances = vec![
        instance(ONE, Some(vt_bool_value(false)), Some(number(2))),
        Some(FxInstance { guid: TWO.into(), user: None }),
    ];
    key
}

#[test]
fn live_setting_is_read_again() {
    let mut key = two_instances();
    key.disable_sysfx = Some(dword_value(1));
    let names = vec![ONE.to_string(), TWO.to_string()];
    let mut session = apply_loudness_live("id", true, true, &names);
    let seen = perform(&mut session, &mut key, None);
    assert_eq!(seen.last(), Some(&SessionCommand::Finish(2)));
    let key = Some(key);
    assert_eq!(read_loudness(&key), Some(true));
    assert!(!read_sysfx_disabled(&key));
    assert_eq!(read_release_time(&key), Some(2));
}

#[test]
fn two_live_toggles_restore_the_state() {
    let names = vec![ONE.to_string(), TWO.to_string()];
    let mut key = two_instances();
    for expected in [true, false, true] {
        let read = Some(key);
        let desired = read_loudness(&read) != Some(true);
        assert_eq!(desired, expected);
        let disabled = read_sysfx_disabled(&read);
        key = read.unwrap();
        perform(&mut apply_loudness_live("id", desired, disabled, &names), &mut key, None);
    }
    assert_eq!(read_loudness(&Some(key)), Some(true));
}

#[test]
fn live_release_time_is_read_again() {
    let mut key = two_instances();
    let names = vec![ONE.to_string(), TWO.to_string()];
    for value in [5, 3] {
        let mut session = set_release_time("id", value, &names);
        let seen = perform(&mut session, &mut key, None);
        assert_eq!(seen.last(), Some(&SessionCommand::Finish(2)));
        let stored = key.instances[1].as_ref().unwrap().user.as_ref().unwrap();
        assert_eq!(stored.release_time, Some(number(value)));
        assert_eq!(key.release_time, Some(number(value)));
        let read = Some(key);
        assert_eq!(read_release_time(&read), Some(value));
        assert_eq!(read_loudness(&read), Some(false));
        key = read.unwrap();
    }
}

#[test]
fn a_device_is_changed_by_what_its_key_says() {
    let device = Device {
        guid: "{g}".into(),
        full_id: "ab".into(),
        name: "Speakers".into(),
        is_default: true,
    };
    for enable in [true, false] {
        for disabled in [0, 1] {
            let mut held = two_instances();
            held.instances.insert(1, None);
            held.disable_sysfx = Some(dword_value(disabled));
            let fx = Some(held);
            let mut session = loudness_session(&device, &fx, enable);
            assert_eq!(session.id(), [97, 98, 0]);
            let names = vec![ONE.to_string(), TWO.to_string()];
            let mut same = apply_loudness_live("ab", enable, disabled == 1, &names);
            let seen = perform(&mut session, &mut two_instances(), None);
            assert_eq!(seen, perform(&mut same, &mut two_instances(), None));
            assert_eq!(seen.last(), Some(&SessionCommand::Finish(2)));
        }
    }
    let seen = perform(&mut loudness_session(&device, &None, true), &mut empty_key(), None);
    assert_eq!(seen.len(), 5);
    assert_eq!(seen[4], SessionCommand::Finish(0));
}

#[test]
fn a_session_asks_in_order() {
    let names = vec![ONE.to_string()];
    let mut session = apply_loudness_live("ab", true, true, &names);
    assert_eq!(session.id(), [97, 98, 0]);
    let write = PropertyWrite {
        property: Property::LoudnessEq,
        value: PropVariant { vt: 11, payload: Payload::Bool(-1) },
    };
    let clear = PropertyWrite {
        property: Property::DisableSysfx,
        value: PropVariant { vt: 19, payload: Payload::U32(0) },
    };
    let store = PropVariant { vt: VT_CLSID, payload: Payload::Clsid(1) };
    let mut key = two_instances();
    assert_eq!(
        perform(&mut session, &mut key, None),
        vec![
            SessionCommand::ConnectPolicy,
            SessionCommand::Policy(PolicyCall::SetProperty(clear)),
            SessionCommand::Policy(PolicyCall::SetProperty(write)),
            SessionCommand::ConnectEnumerator,
            SessionCommand::OpenDevice,
            SessionCommand::Activate(store),
            SessionCommand::OpenUserStore,
            SessionCommand::SetUser(write),
            SessionCommand::Commit,
            SessionCommand::Finish(1),
        ]
    );
}

#[test]
fn a_policy_failure_ends_a_session() {
    let names = vec![ONE.to_string(), TWO.to_string()];
    for broken in 0..4 {
        let mut session = apply_loudness_live("id", false, true, &names);
        let seen = perform(&mut session, &mut two_instances(), Some(broken));
        assert_eq!(seen.len(), broken + 2);
        assert_eq!(seen.last(), Some(&SessionCommand::Fail));
    }
}

#[test]
fn an_instance_failure_only_skips_that_instance() {
    let names = vec![ONE.to_string(), TWO.to_string()];
    for broken in 4..7 {
        let mut session = apply_loudness_live("id", true, false, &names);
        let seen = perform(&mut session, &mut two_instances(), Some(broken));
        assert_eq!(seen.last(), Some(&SessionCommand::Finish(1)));
    }
    // A commit that fails does not count against the store.
    let mut session = apply_loudness_live("id", true, false, &names);
    let seen = perform(&mut session, &mut two_instances(), Some(7));
    assert_eq!(seen[7], SessionCommand::Commit);
    assert_eq!(seen.last(), Some(&SessionCommand::Finish(2)));
}

#[test]
fn a_store_that_refused_keeps_the_say() {
    let names = vec![ONE.to_string(), TWO.to_string()];
    // The first store, which holds another setting, cannot be opened.
    let mut key = two_instances();
    let mut session = apply_loudness_live("id", true, false, &names);
    let seen = perform(&mut session, &mut key, Some(5));
    assert_eq!(seen[5], SessionCommand::OpenUserStore);
    assert_eq!(seen.last(), Some(&SessionCommand::Finish(1)));
    assert_eq!(read_loudness(&Some(key)), Some(false));
    // The first store holds the same setting, and the second one is written.
    let mut key = two_instances();
    let mut session = apply_loudness_live("id", false, false, &names);
    let seen = perform(&mut session, &mut key, Some(5));
    assert_eq!(seen.last(), Some(&SessionCommand::Finish(1)));
    assert_eq!(read_loudness(&Some(key)), Some(false));
}

#[test]
fn default_device_is_set_for_two_roles() {
    let mut session = set_default_device("id");
    assert_eq!(
        perform(&mut session, &mut empty_key(), None),
        vec![
            SessionCommand::ConnectPolicy,
            SessionCommand::Policy(PolicyCall::SetDefault(Role::Console)),
            SessionCommand::Policy(PolicyCall::SetDefault(Role::Multimedia)),
            SessionCommand::Finish(0),
        ]
    );
}

#[test]
fn enhancements_are_switched_for_an_endpoint() {
    for enabled in [true, false] {
        let mut key = empty_key();
        let mut session = set_enhancements_enabled("id", enabled);
        let seen = perform(&mut session, &mut key, None);
        assert_eq!(seen.len(), 3);
        assert_eq!(seen[2], SessionCommand::Finish(0));
        assert_eq!(read_sysfx_disabled(&Some(key)), !enabled);
    }
}

#[test]
fn an_endpoint_is_reset_by_its_own_format() {
    let mut session = reset_endpoint("id");
    assert_eq!(
        perform(&mut session, &mut empty_key(), None),
        vec![
            SessionCommand::ConnectPolicy,
            SessionCommand::Policy(PolicyCall::GetFormat),
            SessionCommand::Policy(PolicyCall::SetFormat),
            SessionCommand::Finish(0),
        ]
    );
    let mut session = reset_endpoint("id");
    let seen = perform(&mut session, &mut empty_key(), Some(1));
    assert_eq!(seen.last(), Some(&SessionCommand::Fail));
}

fn code_of(error: u32) -> i32 {
    windows::Win32::Foundation::WIN32_ERROR(error).to_hresult().0
}

fn failed(code: i32) -> RestartEvent {
    RestartEvent::Failed { code, message: "why".into() }
}

fn state(state: u32, waited_nanos: u64) -> RestartEvent {
    RestartEvent::State { state, waited_nanos }
}

fn after(events: Vec<RestartEvent>) -> Restart {
    let mut restart = restart_audio_service();
    for event in events {
        restart.advance(event);
    }
    restart
}

fn words(restart: Restart) -> String {
    match restart.result() {
        Err(RestartError::Other(message)) => message,
        Err(RestartError::AccessDenied) => "denied".into(),
        Ok(()) => "ok".into(),
    }
}

const OK: RestartEvent = RestartEvent::Succeeded;

#[test]
fn a_restart_stops_and_starts() {
    let mut restart = restart_audio_service();
    let steps = vec![
        (RestartCommand::OpenManager, OK),
        (RestartCommand::OpenService, OK),
        (RestartCommand::Stop, OK),
        (RestartCommand::Query { begin: true }, state(3, 0)),
        (RestartCommand::Sleep(WAIT_PAUSE_MILLIS), OK),
        (RestartCommand::Query { begin: false }, state(SERVICE_STOPPED, 1)),
        (RestartCommand::Start, OK),
        (RestartCommand::Query { begin: true }, state(2, 0)),
        (RestartCommand::Sleep(200), OK),
        (RestartCommand::Query { begin: false }, state(SERVICE_RUNNING, 1)),
    ];
    for (command, event) in steps {
        assert_eq!(restart.command(), command);
        restart.advance(event);
    }
    assert_eq!(restart.command(), RestartCommand::Release { service: true, manager: true });
    assert!(restart.result().is_ok());
}

#[test]
fn a_restart_says_which_step_failed() {
    let r = after(vec![failed(1)]);
    assert_eq!(r.command(), RestartCommand::Release { service: false, manager: false });
    assert_eq!(words(r), "cannot connect to SCM: why");
    let r = after(vec![OK, failed(1)]);
    assert_eq!(r.command(), RestartCommand::Release { service: false, manager: true });
    assert_eq!(words(r), "cannot open Audiosrv: why");
    assert_eq!(words(after(vec![OK, OK, failed(1)])), "cannot stop Audiosrv: why");
    assert_eq!(words(after(vec![OK, OK, OK, failed(1)])), "cannot query Audiosrv: why");
    assert_eq!(
        words(after(vec![OK, OK, OK, state(SERVICE_STOPPED, 0), failed(1)])),
        "cannot start Audiosrv: why"
    );
    let late = after(vec![OK, OK, OK, state(3, WAIT_LIMIT_NANOS + 1)]);
    assert_eq!(late.command(), RestartCommand::Release { service: true, manager: true });
    assert_eq!(words(late), "timed out waiting for the audio service to change state");
}

#[test]
fn denied_access_is_told_apart() {
    let denied = code_of(ERROR_ACCESS_DENIED);
    assert_eq!(words(after(vec![OK, failed(denied)])), "denied");
    assert_eq!(words(after(vec![OK, OK, failed(denied)])), "denied");
    assert_eq!(words(after(vec![failed(denied)])), "cannot connect to SCM: why");
    assert_eq!(
        words(after(vec![OK, OK, OK, state(SERVICE_STOPPED, 0), failed(denied)])),
        "cannot start Audiosrv: why"
    );
}

#[test]
fn a_service_that_is_stopped_or_running_is_fine() {
    let idle = code_of(ERROR_SERVICE_NOT_ACTIVE);
    let running = code_of(ERROR_SERVICE_ALREADY_RUNNING);
    let r = after(vec![
        OK,
        OK,
        failed(idle),
        state(SERVICE_STOPPED, 0),
        failed(running),
        state(SERVICE_RUNNING, 0),
    ]);
    assert_eq!(words(r), "ok");
}

#[test]
fn a_wait_ends_in_time() {
    assert_eq!(wait_for_state(4, 4, u64::MAX), Wait::Reached);
    assert_eq!(wait_for_state(3, 4, WAIT_LIMIT_NANOS), Wait::Again);
    assert_eq!(wait_for_state(3, 4, WAIT_LIMIT_NANOS + 1), Wait::TimedOut);
    assert_eq!(WAIT_LIMIT_NANOS, 20_000_000_000);
}

#[test]
fn service_numbers_are_those_of_windows() {
    assert_eq!(ERROR_ACCESS_DENIED, windows::Win32::Foundation::ERROR_ACCESS_DENIED.0);
    assert_eq!(ERROR_SERVICE_ALREADY_RUNNING, windows::Win32::Foundation::ERROR_SERVICE_ALREADY_RUNNING.0);
    assert_eq!(ERROR_SERVICE_NOT_ACTIVE, windows::Win32::Foundation::ERROR_SERVICE_NOT_ACTIVE.0);
    assert_eq!(SERVICE_STOPPED, windows::Win32::System::Services::SERVICE_STOPPED.0);
    assert_eq!(SERVICE_RUNNING, windows::Win32::System::Services::SERVICE_RUNNING.0);
}
