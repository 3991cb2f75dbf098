use loudeq::cli::{parse_args, parse_fx_op, Action, FxOp, Invocation, Options, USAGE};
use loudeq::relaunch::{elevated_params, explicit_args, is_elevated, own_args, shell_started};

fn texts(words: &[&str]) -> Vec<String> {
    words.iter().map(|w| w.to_string()).collect()
}

fn parsed(words: &[&str]) -> Options {
    match parse_args(&texts(words)) {
        Ok(Invocation::Run(options)) => options,
        other => panic!("{other:?}"),
    }
}

fn refused(words: &[&str]) -> String {
    match parse_args(&texts(words)) {
        Err(message) => message,
        other => panic!("{other:?}"),
    }
}

#[test]
fn no_words_mean_a_toggle() {
    let o = parsed(&[]);
    assert_eq!(o.action, Action::Toggle);
    assert_eq!(o.device_filter, None);
    assert!(!o.no_restart && !o.remove && !o.elevated);
}

#[test]
fn commands_are_read_in_any_case() {
    for (word, action) in [
        ("on", Action::On),
        ("ENABLE", Action::On),
        ("Off", Action::Off),
        ("disable", Action::Off),
        ("toggle", Action::Toggle),
        ("status", Action::Status),
        ("list", Action::List),
        ("setup", Action::Setup),
        ("meter", Action::Meter),
        ("tray", Action::Tray),
        ("bass", Action::Bass(FxOp::Toggle)),
        ("BassBoost", Action::Bass(FxOp::Toggle)),
        ("surround", Action::Surround(FxOp::Toggle)),
        ("virtualsurround", Action::Surround(FxOp::Toggle)),
    ] {
        assert_eq!(parsed(&[word]).action, action);
    }
    assert_eq!(parsed(&["on", "status"]).action, Action::Status);
}

#[test]
fn options_are_read_anywhere() {
    let o = parsed(&["--no-restart", "-D", "My Speakers", "on", "--remove", "--ELEVATED"]);
    assert_eq!(o.action, Action::On);
    assert_eq!(o.device_filter, Some("My Speakers".to_string()));
    assert!(o.no_restart && o.remove && o.elevated);
    assert_eq!(parsed(&["-d", "a", "--device", "B"]).device_filter, Some("B".to_string()));
    assert_eq!(parsed(&["-d", "off"]).action, Action::Toggle);
}

#[test]
fn effects_take_a_sub_command() {
    assert_eq!(parsed(&["bass", "ON"]).action, Action::Bass(FxOp::On));
    assert_eq!(parsed(&["bass", "disable"]).action, Action::Bass(FxOp::Off));
    assert_eq!(parsed(&["bass", "status", "on"]).action, Action::On);
    assert_eq!(parsed(&["bass", "freq", "120"]).action, Action::Bass(FxOp::Freq(120)));
    assert_eq!(parsed(&["bass", "frequency", "-1"]).action, Action::Bass(FxOp::Freq(-1)));
    assert_eq!(parsed(&["bass", "level", "+9"]).action, Action::Bass(FxOp::Level(9)));
    assert_eq!(parsed(&["surround", "off"]).action, Action::Surround(FxOp::Off));
    assert_eq!(
        parse_fx_op(&texts(&["x", "enable", "y"]), 1, false),
        Ok((FxOp::On, 1))
    );
    assert_eq!(parse_fx_op(&texts(&["level", "3"]), 0, true), Ok((FxOp::Level(3), 2)));
    assert_eq!(parse_fx_op(&texts(&[]), 0, true), Ok((FxOp::Toggle, 0)));
}

#[test]
fn an_option_behind_an_effect_leaves_a_toggle() {
    let o = parsed(&["bass", "-d", "Speakers"]);
    assert_eq!(o.action, Action::Bass(FxOp::Toggle));
    assert_eq!(o.device_filter, Some("Speakers".to_string()));
    assert!(!o.no_restart && !o.remove && !o.elevated);
    let o = parsed(&["surround", "--DEVICE", "on", "--no-restart"]);
    assert_eq!(o.action, Action::Surround(FxOp::Toggle));
    assert_eq!(o.device_filter, Some("on".to_string()));
    assert!(o.no_restart);
    assert!(parsed(&["bass", "--No-Restart"]).no_restart);
    assert_eq!(refused(&["bass", "--elevated"]), "unknown sub-command: --elevated");
    assert_eq!(refused(&["surround", "--Remove"]), "unknown sub-command: --remove");
    for word in ["-h", "--help"] {
        assert!(matches!(parse_args(&texts(&["bass", word])), Ok(Invocation::Help)));
    }
    assert_eq!(parse_fx_op(&texts(&["-d", "x"]), 0, true), Ok((FxOp::Toggle, 0)));
    assert_eq!(refused(&["bass", "help"]), "unknown sub-command: help");
    assert_eq!(refused(&["bass", "-d"]), "--device requires a name (substring)");
}

#[test]
fn the_mark_may_follow_a_request() {
    for line in [
        vec![],
        vec!["off"],
        vec!["bass", "level", "3"],
        vec!["surround", "toggle"],
        vec!["bass", "-d", "bass"],
    ] {
        let first = parsed(&line);
        let mut again = line.clone();
        again.push("--elevated");
        let second = parsed(&again);
        assert_eq!(second.action, first.action);
        assert!(second.elevated && !first.elevated);
    }
}

#[test]
fn wrong_words_are_refused() {
    assert_eq!(refused(&["Fast"]), "unknown argument: fast");
    assert_eq!(refused(&["on", "-d"]), "--device requires a name (substring)");
    assert_eq!(refused(&["bass", "Loud"]), "unknown sub-command: loud");
    assert_eq!(refused(&["surround", "freq", "60"]), "unknown sub-command: freq");
    assert_eq!(refused(&["bass", "freq"]), "`bass freq` needs a value in Hz (50-600)");
    assert_eq!(refused(&["bass", "level"]), "`bass level` needs a value in dB (3-24)");
    assert_eq!(refused(&["bass", "freq", "1X"]), "invalid frequency: 1X");
    assert_eq!(refused(&["bass", "level", ""]), "invalid level: ");
}

#[test]
fn help_wins_over_what_follows() {
    for word in ["-h", "--help", "HELP"] {
        assert!(matches!(parse_args(&texts(&["on", word, "nonsense"])), Ok(Invocation::Help)));
    }
    assert_eq!(refused(&["nonsense", "--help"]), "unknown argument: nonsense");
    assert!(USAGE.starts_with("loudeq — toggle Windows Loudness Equalization\n\nUSAGE:\n"));
    assert!(USAGE.ends_with("run `loudeq setup` once to make that UAC-free too."));
}

#[test]
fn own_arguments_are_those_behind_the_name() {
    assert_eq!(
        own_args(&texts(&["loudeq", "on", "--elevated", "-d", "X Y"])),
        texts(&["on", "-d", "X Y"])
    );
    assert_eq!(own_args(&texts(&["--elevated", "--ELEVATED"])), texts(&["--ELEVATED"]));
    assert_eq!(own_args(&texts(&[])), texts(&[]));
}

#[test]
fn an_elevated_run_gets_quoted_words() {
    assert_eq!(
        elevated_params(&texts(&["off", "--device", "My Speakers"])),
        "\"off\" \"--device\" \"My Speakers\" --elevated"
    );
    assert_eq!(elevated_params(&texts(&[])), "--elevated");
}

#[test]
fn a_settled_state_is_asked_for_outright() {
    for (desired, action) in [(true, Action::On), (false, Action::Off)] {
        for filter in [None, Some("My Speakers".to_string())] {
            let mut args = explicit_args(desired, &filter);
            args.push("--elevated".into());
            match parse_args(&args) {
                Ok(Invocation::Run(o)) => {
                    assert_eq!(o.action, action);
                    assert_eq!(o.device_filter, filter);
                    assert!(o.elevated && !o.no_restart && !o.remove);
                }
                other => panic!("{other:?}"),
            }
        }
    }
    assert_eq!(explicit_args(true, &Some("x".into())), texts(&["on", "--device", "x"]));
    assert_eq!(explicit_args(false, &None), texts(&["off"]));
}

#[test]
fn a_relaunch_asks_for_the_same() {
    let line = ["setup", "--remove", "-d", "x", "--no-restart"];
    let first = parsed(&line);
    let mut again = vec!["loudeq"];
    again.extend_from_slice(&line);
    let mut args = own_args(&texts(&again));
    args.push("--elevated".into());
    match parse_args(&args) {
        Ok(Invocation::Run(o)) => {
            assert_eq!(o.action, first.action);
            assert_eq!(o.device_filter, first.device_filter);
            assert_eq!(o.remove, first.remove);
            assert_eq!(o.no_restart, first.no_restart);
            assert!(o.elevated && !first.elevated);
        }
        other => panic!("{other:?}"),
    }
}

#[test]
fn small_handles_are_errors() {
    assert!(!shell_started(32));
    assert!(!shell_started(0));
    assert!(!shell_started(-1));
    assert!(shell_started(33));
}

#[test]
fn a_token_tells_whether_rights_are_elevated() {
    assert!(is_elevated(Some(1)));
    assert!(!is_elevated(Some(0)));
    assert!(!is_elevated(None));
}
