use loudeq::cli::{Action, FxOp, Options};
use loudeq::lines::{
    effect_name, line_channel, line_text, list_line, problem_text, reset_word, Channel,
};
use loudeq::run::{
    advance, begin, is_valid_param, mode_of, Effect, Line, Mode, Param, Problem, Relaunch, RunEvent,
    RunStage,
};
use loudeq::Device;

fn mode(action: Action) -> Mode {
    Mode { action, no_restart: false, remove: false, elevated: false }
}

/// Goes through a run, and hands out its stages and its lines.
fn go(mode: Mode, events: &[RunEvent]) -> (Vec<RunStage>, Vec<Line>) {
    let first = begin(mode.action);
    let mut stages = vec![first.stage];
    let mut lines = first.lines;
    for event in events {
        let turn = advance(mode, stages[stages.len() - 1], *event);
        stages.push(turn.stage);
        lines.extend(turn.lines);
    }
    (stages, lines)
}

fn end(mode: Mode, events: &[RunEvent]) -> RunStage {
    *go(mode, events).0.last().unwrap()
}

const OK: RunEvent = RunEvent::Succeeded;
const BAD: RunEvent = RunEvent::Failed;
const DENIED: RunEvent = RunEvent::Denied;

fn state(s: Option<bool>) -> RunEvent {
    RunEvent::State(s)
}

#[test]
fn a_toggle_flips_live() {
    for (current, desired) in [(Some(true), false), (Some(false), true), (None, true)] {
        let (stages, lines) =
            go(mode(Action::Toggle), &[state(current), RunEvent::Wrote(2), OK]);
        assert_eq!(
            stages,
            vec![
                RunStage::ReadLoudness,
                RunStage::ApplyLoudness(desired),
                RunStage::ResetLoudness(desired),
                RunStage::Done,
            ]
        );
        assert_eq!(
            lines,
            vec![Line::StoresWritten(2), Line::LoudnessSet { desired, live: true }]
        );
    }
}

#[test]
fn on_and_off_do_not_depend_on_the_state() {
    for current in [Some(true), Some(false), None] {
        assert_eq!(end(mode(Action::On), &[state(current)]), RunStage::ApplyLoudness(true));
        assert_eq!(end(mode(Action::Off), &[state(current)]), RunStage::ApplyLoudness(false));
    }
    let (stages, lines) = go(mode(Action::Off), &[state(None), RunEvent::Wrote(0), BAD]);
    assert_eq!(stages.last(), Some(&RunStage::Done));
    assert_eq!(lines[1], Line::LoudnessSet { desired: false, live: false });
}

#[test]
fn the_fallback_writes_and_restarts() {
    let (stages, lines) = go(mode(Action::On), &[state(None), BAD, OK, OK]);
    assert_eq!(
        stages[2..],
        [RunStage::WriteLoudness(true), RunStage::RestartService(true), RunStage::Done]
    );
    assert_eq!(
        lines,
        vec![Line::LiveFailed, Line::LoudnessWritten(true), Line::Restarting, Line::Restarted]
    );
}

#[test]
fn a_restart_can_be_declined() {
    let m = Mode { no_restart: true, ..mode(Action::On) };
    let (stages, lines) = go(m, &[state(None), BAD, OK]);
    assert_eq!(stages.last(), Some(&RunStage::Done));
    assert_eq!(lines[1..], [Line::LoudnessWritten(true), Line::RestartSkipped]);
}

#[test]
fn missing_rights_lead_to_an_elevated_run_once() {
    let m = mode(Action::Toggle);
    let elevated = Mode { elevated: true, ..m };
    let write = [state(Some(true)), BAD, DENIED];
    let restart = [state(Some(true)), BAD, OK, DENIED];
    assert_eq!(end(m, &write), RunStage::Elevate(Relaunch::Own));
    assert_eq!(go(m, &write).1.last(), Some(&Line::RegistryNeedsRights));
    assert_eq!(end(m, &restart), RunStage::Elevate(Relaunch::Explicit(false)));
    assert_eq!(go(m, &restart).1[3..], [Line::RestartNeedsRights, Line::SetupTip]);
    assert_eq!(end(elevated, &write), RunStage::Failed(Problem::RegistryDenied));
    assert_eq!(end(elevated, &restart), RunStage::Failed(Problem::RestartDenied));
    let setup = mode(Action::Setup);
    assert_eq!(end(setup, &[RunEvent::Answer(false)]), RunStage::Elevate(Relaunch::Own));
    let elevated = Mode { elevated: true, ..setup };
    assert_eq!(
        end(elevated, &[RunEvent::Answer(false)]),
        RunStage::Failed(Problem::StillNotElevated)
    );
}

#[test]
fn other_failures_end_a_run() {
    let m = mode(Action::On);
    assert_eq!(end(m, &[state(None), BAD, BAD]), RunStage::Failed(Problem::WriteFailed));
    assert_eq!(end(m, &[state(None), BAD, OK, BAD]), RunStage::Failed(Problem::RestartFailed));
    assert_eq!(end(mode(Action::Meter), &[BAD]), RunStage::Failed(Problem::MeterFailed));
    assert_eq!(end(mode(Action::Tray), &[BAD]), RunStage::Failed(Problem::TrayFailed));
    let s = mode(Action::Setup);
    assert_eq!(end(s, &[RunEvent::Answer(true), BAD]), RunStage::Failed(Problem::SetupFailed));
    let b = mode(Action::Bass(FxOp::Off));
    assert_eq!(end(b, &[BAD]), RunStage::Failed(Problem::EffectFailed));
    let f = mode(Action::Bass(FxOp::Freq(60)));
    assert_eq!(end(f, &[BAD]), RunStage::Failed(Problem::EffectFailed));
}

#[test]
fn simple_runs_do_one_thing() {
    assert_eq!(go(mode(Action::Tray), &[OK]).1, vec![Line::TrayStarted, Line::TrayHint]);
    assert_eq!(go(mode(Action::List), &[OK]).1, vec![Line::ListFooter]);
    assert_eq!(go(mode(Action::Meter), &[OK]).1, vec![Line::Sampling]);
    assert_eq!(end(mode(Action::Meter), &[]), RunStage::Meter { seconds: 5 });
    assert_eq!(end(mode(Action::Meter), &[OK]), RunStage::Done);
    assert_eq!(
        go(mode(Action::Status), &[state(Some(true))]).1,
        vec![Line::LoudnessIs(Some(true))]
    );
    for remove in [true, false] {
        let m = Mode { remove, ..mode(Action::Setup) };
        assert_eq!(end(m, &[RunEvent::Answer(true)]), RunStage::Setup { remove });
        assert_eq!(end(m, &[RunEvent::Answer(true), OK]), RunStage::Done);
    }
}

#[test]
fn bass_status_tells_its_parameters() {
    let m = mode(Action::Bass(FxOp::Status));
    let (stages, lines) =
        go(m, &[state(None), RunEvent::Number(Some(80)), RunEvent::Number(Some(6))]);
    assert_eq!(stages.last(), Some(&RunStage::Done));
    assert_eq!(lines, vec![Line::EffectIs(Effect::Bass, None), Line::BassParams(80, 6)]);
    let (_, lines) = go(m, &[state(None), RunEvent::Number(Some(80)), RunEvent::Number(None)]);
    assert_eq!(lines, vec![Line::EffectIs(Effect::Bass, None)]);
    let (_, lines) = go(m, &[state(None), RunEvent::Number(None), RunEvent::Number(Some(6))]);
    assert_eq!(lines, vec![Line::EffectIs(Effect::Bass, None)]);
    let s = mode(Action::Surround(FxOp::Status));
    let (stages, lines) = go(s, &[state(Some(false))]);
    assert_eq!(stages.last(), Some(&RunStage::Done));
    assert_eq!(lines, vec![Line::EffectIs(Effect::Surround, Some(false))]);
}

#[test]
fn an_effect_is_turned_on_after_enhancements() {
    let m = mode(Action::Surround(FxOp::Toggle));
    let (stages, lines) =
        go(m, &[state(None), RunEvent::Answer(true), OK, RunEvent::Wrote(1), OK]);
    assert_eq!(
        stages,
        vec![
            RunStage::ReadEffect(Effect::Surround),
            RunStage::CheckEnhancements(Effect::Surround, true),
            RunStage::EnableEnhancements(Effect::Surround, true),
            RunStage::SetEffect(Effect::Surround, true),
            RunStage::ResetEffect(Effect::Surround, true),
            RunStage::Done,
        ]
    );
    assert_eq!(
        lines,
        vec![
            Line::EnhancementsOn,
            Line::StoresWritten(1),
            Line::EffectSet { effect: Effect::Surround, desired: true, live: true },
        ]
    );
    let on = mode(Action::Bass(FxOp::On));
    assert_eq!(
        end(on, &[RunEvent::Answer(false)]),
        RunStage::SetEffect(Effect::Bass, true)
    );
    let (stages, lines) = go(on, &[RunEvent::Answer(true), BAD]);
    assert_eq!(stages.last(), Some(&RunStage::SetEffect(Effect::Bass, true)));
    assert!(lines.is_empty());
    assert_eq!(end(mode(Action::Bass(FxOp::Off)), &[]), RunStage::SetEffect(Effect::Bass, false));
    assert_eq!(
        end(mode(Action::Bass(FxOp::Toggle)), &[state(Some(true))]),
        RunStage::SetEffect(Effect::Bass, false)
    );
}

#[test]
fn parameters_are_checked() {
    for hz in [50, 51, 600] {
        assert!(is_valid_param(Param::Freq(hz)));
        assert_eq!(end(mode(Action::Bass(FxOp::Freq(hz))), &[]), RunStage::SetParam(Param::Freq(hz)));
    }
    for hz in [49, 601, -60] {
        assert_eq!(
            end(mode(Action::Bass(FxOp::Freq(hz))), &[]),
            RunStage::Failed(Problem::FreqOutOfRange)
        );
    }
    for db in [3, 6, 9, 12, 15, 18, 21, 24] {
        assert_eq!(
            end(mode(Action::Bass(FxOp::Level(db))), &[]),
            RunStage::SetParam(Param::Level(db))
        );
    }
    for db in [0, 4, 27, -3] {
        assert!(!is_valid_param(Param::Level(db)));
        assert_eq!(
            end(mode(Action::Bass(FxOp::Level(db))), &[]),
            RunStage::Failed(Problem::LevelOutOfRange)
        );
    }
    for op in [FxOp::Freq(60), FxOp::Level(3)] {
        assert_eq!(
            end(mode(Action::Surround(op)), &[]),
            RunStage::Failed(Problem::NoSuchParam)
        );
    }
}

#[test]
fn a_parameter_comes_with_a_hint() {
    let m = mode(Action::Bass(FxOp::Level(9)));
    let set = Line::ParamSet(Param::Level(9));
    for reset in [OK, BAD] {
        let (stages, lines) = go(m, &[RunEvent::Wrote(1), reset, state(Some(true))]);
        assert_eq!(stages.last(), Some(&RunStage::Done));
        assert_eq!(lines, vec![Line::StoresWritten(1), set]);
    }
    for off in [None, Some(false)] {
        let (_, lines) = go(m, &[RunEvent::Wrote(1), OK, state(off)]);
        assert_eq!(lines, vec![Line::StoresWritten(1), set, Line::BassIsOff]);
    }
}

#[test]
fn the_mode_is_taken_from_the_options() {
    let options = Options {
        action: Action::Off,
        device_filter: None,
        no_restart: true,
        remove: false,
        elevated: true,
    };
    assert_eq!(
        mode_of(&options),
        Mode { action: Action::Off, no_restart: true, remove: false, elevated: true }
    );
}

#[test]
fn lines_have_their_words() {
    for (line, text) in [
        (Line::LoudnessIs(None), "Dev: Loudness Equalization is OFF (never set)"),
        (
            Line::LoudnessSet { desired: true, live: true },
            "Dev: Loudness Equalization set to ON (applied live)",
        ),
        (
            Line::LoudnessSet { desired: false, live: false },
            "Dev: Loudness Equalization set to OFF (applied — restart playback in running apps to hear it)",
        ),
        (Line::LoudnessWritten(true), "Dev: Loudness Equalization set to ON"),
        (Line::StoresWritten(12), "instance user stores written: 12"),
        (
            Line::LiveFailed,
            "Live apply failed (why); falling back to registry + service restart.",
        ),
        (
            Line::RegistryNeedsRights,
            "Administrator rights are needed — requesting elevation...",
        ),
        (
            Line::RestartSkipped,
            "Skipped the audio service restart; the change applies after the device or service restarts.",
        ),
        (Line::Restarting, "Restarting the Windows Audio service..."),
        (
            Line::Restarted,
            "Done. Audio output was interrupted for a moment while the service restarted.",
        ),
        (
            Line::RestartNeedsRights,
            "Restarting the audio service needs administrator rights — requesting elevation...",
        ),
        (
            Line::SetupTip,
            "(tip: run `loudeq setup` once and you'll never see this UAC prompt again)",
        ),
        (
            Line::SetupNeedsRights,
            "Setup needs administrator rights once — requesting elevation...",
        ),
        (Line::EffectIs(Effect::Bass, Some(true)), "Dev: Bass Boost is ON"),
        (Line::EffectIs(Effect::Surround, None), "Dev: Virtual Surround is OFF (never set)"),
        (Line::BassParams(80, -6), "  frequency: 80 Hz   boost level: -6 dB"),
        (
            Line::EnhancementsOn,
            "(also turned the master \"Audio enhancements\" switch back on)",
        ),
        (
            Line::EffectSet { effect: Effect::Surround, desired: false, live: true },
            "Dev: Virtual Surround set to OFF (applied live)",
        ),
        (Line::ParamSet(Param::Freq(75)), "Dev: Bass Boost frequency set to 75 Hz"),
        (Line::ParamSet(Param::Level(24)), "Dev: Bass Boost level set to 24 dB"),
        (
            Line::BassIsOff,
            "(note: Bass Boost is currently OFF — run `loudeq bass on` to hear it)",
        ),
        (
            Line::Sampling,
            "Sampling output level of Dev for 5 seconds — play some audio now...",
        ),
        (Line::TrayStarted, "Tray app started — look for the loudeq icon near the clock."),
        (
            Line::TrayHint,
            "(if the tray was already running, this toggles Loudness EQ instead)",
        ),
        (Line::ListFooter, "\n(* = default playback device)"),
    ] {
        assert_eq!(line_text(line, "Dev", "why"), text);
    }
    assert_eq!(reset_word(true), "applied live");
    assert_eq!(effect_name(Effect::Bass), "Bass Boost");
}

#[test]
fn lines_go_to_their_channels() {
    for line in [
        Line::LoudnessIs(None),
        Line::RegistryNeedsRights,
        Line::RestartNeedsRights,
        Line::SetupTip,
        Line::SetupNeedsRights,
        Line::EffectIs(Effect::Bass, None),
        Line::BassParams(1, 2),
        Line::Sampling,
        Line::TrayStarted,
        Line::TrayHint,
        Line::ListFooter,
    ] {
        assert_eq!(line_channel(line), Channel::Print);
    }
    for line in [
        Line::LoudnessSet { desired: true, live: true },
        Line::LoudnessWritten(true),
        Line::LiveFailed,
        Line::RestartSkipped,
        Line::Restarting,
        Line::Restarted,
        Line::EnhancementsOn,
        Line::EffectSet { effect: Effect::Bass, desired: true, live: true },
        Line::ParamSet(Param::Freq(50)),
        Line::BassIsOff,
    ] {
        assert_eq!(line_channel(line), Channel::Say);
    }
    assert_eq!(line_channel(Line::StoresWritten(0)), Channel::Log);
}

#[test]
fn failures_have_their_words() {
    for (problem, text) in [
        (Problem::StillNotElevated, "still not elevated after requesting elevation"),
        (Problem::SetupFailed, "why"),
        (Problem::MeterFailed, "why"),
        (Problem::TrayFailed, "why"),
        (
            Problem::RegistryDenied,
            "access denied writing to the registry even though elevated",
        ),
        (Problem::WriteFailed, "failed to write setting: why"),
        (
            Problem::RestartDenied,
            "access denied restarting the audio service even though elevated",
        ),
        (Problem::RestartFailed, "why"),
        (Problem::FreqOutOfRange, "frequency must be between 50 and 600 Hz"),
        (
            Problem::LevelOutOfRange,
            "boost level must be one of 3, 6, 9, 12, 15, 18, 21, 24 (dB)",
        ),
        (Problem::NoSuchParam, "Virtual Surround has no frequency/level settings"),
        (
            Problem::EffectFailed,
            "live apply failed: why\n(check the master \"Audio enhancements\" switch is on, or set it from the Enhancements tab)",
        ),
    ] {
        assert_eq!(problem_text(problem, "why"), text);
    }
}

#[test]
fn devices_are_listed_with_their_state() {
    let mut device = Device {
        guid: "g".into(),
        full_id: "f".into(),
        name: "Speakers".into(),
        is_default: true,
    };
    assert_eq!(
        list_line(&device, Some(true)),
        "* Speakers  —  Loudness Equalization: ON"
    );
    device.is_default = false;
    assert_eq!(
        list_line(&device, None),
        "  Speakers  —  Loudness Equalization: OFF (never set)"
    );
}

/// What a stage can bring.
fn outcomes(stage: RunStage) -> Vec<RunEvent> {
    match stage {
        RunStage::List => vec![OK],
        RunStage::StartTray
        | RunStage::Meter { .. }
        | RunStage::Setup { .. }
        | RunStage::ResetLoudness(_)
        | RunStage::EnableEnhancements(_, _)
        | RunStage::ResetEffect(_, _)
        | RunStage::ResetParam(_) => vec![OK, BAD],
        RunStage::AskElevated | RunStage::CheckEnhancements(_, _) => {
            vec![RunEvent::Answer(true), RunEvent::Answer(false)]
        }
        RunStage::LoudnessStatus
        | RunStage::ReadLoudness
        | RunStage::EffectStatus(_)
        | RunStage::ReadEffect(_)
        | RunStage::HintParam => vec![state(None), state(Some(false)), state(Some(true))],
        RunStage::ApplyLoudness(_) | RunStage::SetEffect(_, _) | RunStage::SetParam(_) => {
            vec![RunEvent::Wrote(1), BAD]
        }
        RunStage::WriteLoudness(_) | RunStage::RestartService(_) => vec![OK, DENIED, BAD],
        RunStage::StatusFreq | RunStage::StatusLevel(_) => {
            vec![RunEvent::Number(None), RunEvent::Number(Some(60))]
        }
        RunStage::Done | RunStage::Failed(_) | RunStage::Elevate(_) => vec![],
    }
}

/// Every stage that a run can come to from another one in so many steps.
fn reached(mode: Mode, stage: RunStage, steps: usize) -> Vec<RunStage> {
    let mut all = vec![stage];
    let events = outcomes(stage);
    assert!(events.is_empty() || steps > 0, "{stage:?} is not the end");
    for event in events {
        all.extend(reached(mode, advance(mode, stage, event).stage, steps - 1));
    }
    all
}

#[test]
fn every_run_ends_and_does_what_was_asked() {
    for action in [Action::Toggle, Action::On, Action::Off, Action::Setup, Action::Status] {
        for no_restart in [true, false] {
            for elevated in [true, false] {
                let m = Mode { action, no_restart, remove: false, elevated };
                for stage in reached(m, begin(action).stage, 5) {
                    assert!(!(elevated && matches!(stage, RunStage::Elevate(_))));
                    assert!(!(no_restart && matches!(stage, RunStage::RestartService(_))));
                    assert!(stage != RunStage::Setup { remove: true });
                    if action == Action::On {
                        assert!(stage != RunStage::ApplyLoudness(false));
                        assert!(stage != RunStage::WriteLoudness(false));
                    }
                }
            }
        }
    }
    for op in [FxOp::Toggle, FxOp::On, FxOp::Off, FxOp::Status, FxOp::Freq(60), FxOp::Level(3)] {
        for action in [Action::Bass(op), Action::Surround(op)] {
            for stage in reached(mode(action), begin(action).stage, 5) {
                assert!(!matches!(stage, RunStage::Elevate(_)));
            }
        }
    }
}
