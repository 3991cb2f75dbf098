use loudeq::descriptor::{
    audiosrv_sddl, descriptor_of, is_granted, sdset_outcome, set_audiosrv_sddl, with_grant,
    without_grant, LOUDEQ_ACE,
};
use loudeq::setup::{
    grant_service_rights, remove_service_grant, setup_lines, Setup, SetupCommand, SetupNote,
};

const PLAIN: &str = "D:(A;;CCLCSWLOCRRC;;;IU)(A;;CCLCSWLOCRRC;;;SU)";
const AUDITED: &str = "D:(A;;CCLCSWLOCRRC;;;IU)S:(AU;FA;CCDC;;;WD)";

fn fine() -> Result<String, String> {
    Ok(String::new())
}

fn bad(reason: &str) -> Result<String, String> {
    Err(reason.into())
}

fn after(mut setup: Setup, answers: Vec<Result<String, String>>) -> SetupCommand {
    for answer in answers {
        setup.advance(answer);
    }
    setup.command()
}

fn set(command: SetupCommand) -> String {
    match command {
        SetupCommand::SetDescriptor(sddl) => sddl,
        other => panic!("{other:?}"),
    }
}

fn reason(command: SetupCommand) -> String {
    match command {
        SetupCommand::Failed(reason) => reason,
        other => panic!("{other:?}"),
    }
}

fn note(command: SetupCommand) -> SetupNote {
    match command {
        SetupCommand::Done(note) => note,
        other => panic!("{other:?}"),
    }
}

#[test]
fn the_descriptor_is_found_in_the_output() {
    let out = format!("\r\n  {PLAIN}  \r\n");
    assert_eq!(audiosrv_sddl(out.as_bytes()), Ok(PLAIN.to_string()));
    assert_eq!(descriptor_of("noise D:\nD:one\nD:two"), Ok("D:one".to_string()));
    assert_eq!(descriptor_of("a\r\n\tD:x\r"), Ok("D:x".to_string()));
}

#[test]
fn output_without_a_descriptor_is_an_error() {
    assert_eq!(
        audiosrv_sddl(b" [SC] OpenService FAILED 5: \r\n"),
        Err("unexpected `sc sdshow` output: [SC] OpenService FAILED 5:".to_string())
    );
    assert_eq!(descriptor_of(""), Err("unexpected `sc sdshow` output: ".to_string()));
}

#[test]
fn bytes_that_are_not_text_are_replaced() {
    assert_eq!(
        audiosrv_sddl(&[0x66, 0xff, 0x67]),
        Err("unexpected `sc sdshow` output: f\u{fffd}g".to_string())
    );
    assert_eq!(audiosrv_sddl(&[0xff, 10, 68, 58, 0xc3, 0xa9]), Ok("D:é".to_string()));
}

#[test]
fn setting_the_descriptor_may_fail() {
    assert_eq!(set_audiosrv_sddl(true, b"anything", b""), Ok(()));
    assert_eq!(
        set_audiosrv_sddl(false, b" out \r\n", b" err \xfe"),
        Err("`sc sdset` failed: out err \u{fffd}".to_string())
    );
    assert_eq!(sdset_outcome(false, "", ""), Err("`sc sdset` failed:  ".to_string()));
    assert_eq!(sdset_outcome(true, "x", "y"), Ok(()));
}

#[test]
fn the_entry_goes_before_the_audit_part() {
    assert!(!is_granted(PLAIN));
    assert_eq!(with_grant(PLAIN), format!("{PLAIN}{LOUDEQ_ACE}"));
    assert_eq!(
        with_grant(AUDITED),
        "D:(A;;CCLCSWLOCRRC;;;IU)(A;;LCRPWP;;;IU)S:(AU;FA;CCDC;;;WD)"
    );
    assert!(is_granted(&with_grant(AUDITED)));
}

#[test]
fn taking_the_entry_out_restores_the_descriptor() {
    for sddl in [PLAIN, AUDITED, "D:", "S:", ""] {
        assert_eq!(without_grant(&with_grant(sddl)), sddl);
    }
    assert_eq!(without_grant("D:(A;;LCRPWP;;;IU)x(A;;LCRPWP;;;IU)"), "D:x");
}

#[test]
fn a_setup_backs_up_and_grants() {
    let mut setup = grant_service_rights();
    assert!(matches!(setup.command(), SetupCommand::ReadDescriptor));
    setup.advance(Ok(AUDITED.into()));
    assert!(matches!(setup.command(), SetupCommand::OpenBackup));
    setup.advance(fine());
    assert!(matches!(setup.command(), SetupCommand::ReadBackup));
    setup.advance(bad("none"));
    match setup.command() {
        SetupCommand::SaveBackup(sddl) => assert_eq!(sddl, AUDITED),
        other => panic!("{other:?}"),
    }
    setup.advance(fine());
    assert_eq!(set(setup.command()), with_grant(AUDITED));
    setup.advance(fine());
    assert_eq!(note(setup.command()), SetupNote::Granted);
}

#[test]
fn an_older_backup_is_kept() {
    let c = after(grant_service_rights(), vec![Ok(PLAIN.into()), fine(), Ok("older".into())]);
    assert_eq!(set(c), with_grant(PLAIN));
}

#[test]
fn a_second_setup_does_nothing() {
    let c = after(grant_service_rights(), vec![Ok(with_grant(PLAIN))]);
    assert_eq!(note(c), SetupNote::AlreadyGranted);
}

#[test]
fn a_removal_restores_and_drops_the_backup() {
    let mut setup = remove_service_grant();
    setup.advance(Ok(with_grant(AUDITED)));
    assert!(matches!(setup.command(), SetupCommand::ReadBackup));
    setup.advance(Ok(AUDITED.into()));
    assert_eq!(set(setup.command()), AUDITED);
    setup.advance(fine());
    assert!(matches!(setup.command(), SetupCommand::DropBackup));
    setup.advance(bad("does not matter"));
    assert_eq!(note(setup.command()), SetupNote::Removed);
    let c = after(remove_service_grant(), vec![Ok(PLAIN.into())]);
    assert_eq!(note(c), SetupNote::NothingToRemove);
}

#[test]
fn a_removal_sets_the_backup_whatever_came_since() {
    let changed = with_grant("D:(A;;GA;;;SY)");
    let c = after(remove_service_grant(), vec![Ok(changed.clone()), Ok(PLAIN.into())]);
    assert_eq!(set(c), PLAIN);
    let c = after(remove_service_grant(), vec![Ok(changed), bad("none")]);
    assert_eq!(set(c), "D:(A;;GA;;;SY)");
}

#[test]
fn a_setup_says_why_it_failed() {
    assert_eq!(reason(after(grant_service_rights(), vec![bad("r")])), "r");
    assert_eq!(reason(after(remove_service_grant(), vec![bad("r")])), "r");
    assert_eq!(
        reason(after(grant_service_rights(), vec![Ok(PLAIN.into()), bad("r")])),
        "cannot create backup registry key: r"
    );
    assert_eq!(
        reason(after(
            grant_service_rights(),
            vec![Ok(PLAIN.into()), fine(), bad("none"), bad("r")]
        )),
        "cannot back up current permissions: r"
    );
    assert_eq!(
        reason(after(
            grant_service_rights(),
            vec![Ok(PLAIN.into()), fine(), fine(), bad("r")]
        )),
        "r"
    );
    assert_eq!(
        reason(after(
            remove_service_grant(),
            vec![Ok(with_grant(PLAIN)), bad("none"), bad("r")]
        )),
        "r"
    );
}

#[test]
fn a_setup_has_its_words() {
    assert_eq!(
        setup_lines(SetupNote::Granted),
        vec![
            "Setup complete — from now on, toggling Loudness Equalization won't show UAC prompts.",
            "(undo anytime with `loudeq setup --remove`)",
        ]
    );
    assert_eq!(
        setup_lines(SetupNote::AlreadyGranted),
        vec!["Already set up — toggling works without UAC prompts."]
    );
    assert_eq!(
        setup_lines(SetupNote::NothingToRemove),
        vec!["Nothing to remove — the service permissions were not modified."]
    );
    assert_eq!(
        setup_lines(SetupNote::Removed),
        vec!["Removed — toggling will ask for UAC elevation again."]
    );
}
