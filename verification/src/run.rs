//! What a run of the program does, step by step. A run is a script: its stage
//! says what to do next, the caller does it and hands back what came of it, and
//! then prints the lines that the run has to say.
use vstd::prelude::*;

use crate::cli::{Action, FxOp, Options};
use crate::device::{
    ambiguous_message, matching, no_default_message, no_match_message, resolve_target, views, Device,
};

verus! {

/// How long the output level is measured, in seconds.
pub const METER_SECONDS: u32 = 5;

/// An effect besides Loudness Equalization.
#[derive(Clone, Copy, Debug, PartialEq, Eq, Structural)]
pub enum Effect {
    Bass,
    Surround,
}

/// A parameter of Bass Boost.
#[derive(Clone, Copy, Debug, PartialEq, Eq, Structural)]
pub enum Param {
    /// The frequency, in Hz.
    Freq(i32),
    /// The boost level, in dB.
    Level(i32),
}

/// Why a run failed. Some failures are told with the words of the error that
/// caused them.
#[derive(Clone, Copy, Debug, PartialEq, Eq, Structural)]
pub enum Problem {
    StillNotElevated,
    SetupFailed,
    MeterFailed,
    TrayFailed,
    RegistryDenied,
    WriteFailed,
    RestartDenied,
    RestartFailed,
    FreqOutOfRange,
    LevelOutOfRange,
    NoSuchParam,
    EffectFailed,
}

/// With which arguments the program starts itself again.
#[derive(Clone, Copy, Debug, PartialEq, Eq, Structural)]
pub enum Relaunch {
    /// With its own ones.
    Own,
    /// With ones that ask for this state outright.
    Explicit(bool),
}

/// What a run does next.
#[derive(Clone, Copy, Debug, PartialEq, Eq, Structural)]
pub enum RunStage {
    /// Start the tray program.
    StartTray,
    /// List the devices and their states.
    List,
    /// Measure the output level for so many seconds.
    Meter { seconds: u32 },
    /// Find out whether the program runs elevated.
    AskElevated,
    /// Grant the rights on the service, or take them back.
    Setup { remove: bool },
    /// Read the state of Loudness Equalization, to tell it.
    LoudnessStatus,
    /// Read the state of Loudness Equalization, to change it.
    ReadLoudness,
    /// Set Loudness Equalization through the policy service.
    ApplyLoudness(bool),
    /// Reset the endpoint after that.
    ResetLoudness(bool),
    /// Write Loudness Equalization to the registry.
    WriteLoudness(bool),
    /// Restart the audio service after that.
    RestartService(bool),
    /// Read the state of an effect, to tell it.
    EffectStatus(Effect),
    /// Read the frequency of Bass Boost, to tell it.
    StatusFreq,
    /// Read the level of Bass Boost, to tell it along with the frequency.
    StatusLevel(Option<i32>),
    /// Read the state of an effect, to change it.
    ReadEffect(Effect),
    /// Find out whether all enhancements are turned off.
    CheckEnhancements(Effect, bool),
    /// Turn enhancements on.
    EnableEnhancements(Effect, bool),
    /// Set an effect.
    SetEffect(Effect, bool),
    /// Reset the endpoint after that.
    ResetEffect(Effect, bool),
    /// Set a parameter of Bass Boost.
    SetParam(Param),
    /// Reset the endpoint after that.
    ResetParam(Param),
    /// Read the state of Bass Boost, to give a hint.
    HintParam,
    /// The run has ended well.
    Done,
    /// The run has failed.
    Failed(Problem),
    /// Start the program again with elevated rights; the run has ended.
    Elevate(Relaunch),
}

/// What came of a stage.
#[derive(Clone, Copy, Debug, PartialEq, Eq, Structural)]
pub enum RunEvent {
    /// It succeeded.
    Succeeded,
    /// It succeeded, with this many user stores written.
    Wrote(usize),
    /// It failed.
    Failed,
    /// It failed for lack of rights.
    Denied,
    /// The answer to a question.
    Answer(bool),
    /// The state of an effect.
    State(Option<bool>),
    /// The value of a parameter.
    Number(Option<i32>),
}

/// A line that a run has to say.
#[derive(Clone, Copy, Debug, PartialEq, Eq, Structural)]
pub enum Line {
    LoudnessIs(Option<bool>),
    LoudnessSet { desired: bool, live: bool },
    LoudnessWritten(bool),
    StoresWritten(usize),
    LiveFailed,
    RegistryNeedsRights,
    RestartSkipped,
    Restarting,
    Restarted,
    RestartNeedsRights,
    SetupTip,
    SetupNeedsRights,
    EffectIs(Effect, Option<bool>),
    BassParams(i32, i32),
    EnhancementsOn,
    EffectSet { effect: Effect, desired: bool, live: bool },
    ParamSet(Param),
    BassIsOff,
    Sampling,
    TrayStarted,
    TrayHint,
    ListFooter,
}

/// The options that bear on how a run goes.
#[derive(Clone, Copy, Debug, PartialEq, Eq, Structural)]
pub struct Mode {
    pub action: Action,
    pub no_restart: bool,
    pub remove: bool,
    pub elevated: bool,
}

/// The lines that a run has to say, and what it does then.
#[derive(Debug)]
pub struct Turn {
    pub lines: Vec<Line>,
    pub stage: RunStage,
}

/// A turn as contracts see it.
pub struct TurnView {
    pub lines: Seq<Line>,
    pub stage: RunStage,
}

impl View for Turn {
    type V = TurnView;

    open spec fn view(&self) -> TurnView {
        TurnView { lines: self.lines@, stage: self.stage }
    }
}

/// The options that bear on how a run goes.
pub fn mode_of(options: &Options) -> (r: Mode)
    ensures
        r == (Mode {
            action: options.action,
            no_restart: options.no_restart,
            remove: options.remove,
            elevated: options.elevated,
        }),
{
    Mode {
        action: options.action,
        no_restart: options.no_restart,
        remove: options.remove,
        elevated: options.elevated,
    }
}

/// The action is about one device.
pub open spec fn needs_device(action: Action) -> bool {
    !(action is List) && !(action is Setup) && !(action is Tray)
}

/// Picks the device that a run is about. Every run but the start of the tray
/// program needs some device to be there.
pub fn pick_device<'a>(options: &Options, devices: &'a [Device]) -> (r: Result<
    Option<&'a Device>,
    String,
>)
    ensures
        if options.action is Tray {
            r == Ok::<Option<&Device>, String>(None)
        } else if devices@.len() == 0 {
            r is Err && r->Err_0@ == "no active playback devices found"@
        } else if !needs_device(options.action) {
            r == Ok::<Option<&Device>, String>(None)
        } else {
            match options.device_filter {
                Some(f) => {
                    let at = matching(views(devices@), f@);
                    match r {
                        Ok(d) => at.len() == 1 && d == Some(&devices@[at[0]]),
                        Err(e) => at.len() != 1 && e@ == if at.len() == 0 {
                            no_match_message(f@)
                        } else {
                            ambiguous_message(views(devices@), f@, at)
                        },
                    }
                },
                None => match r {
                    Ok(d) => exists|i: int|
                        {
                            &&& 0 <= i < devices@.len()
                            &&& #[trigger] devices@[i].is_default
                            &&& d == Some(&devices@[i])
                            &&& forall|j: int| 0 <= j < i ==> !(#[trigger] devices@[j].is_default)
                        },
                    Err(e) => {
                        &&& forall|i: int|
                            0 <= i < devices@.len() ==> !(#[trigger] devices@[i].is_default)
                        &&& e@ == no_default_message()
                    },
                },
            }
        },
{
    if options.action == Action::Tray {
        return Ok(None);
    }
    if devices.len() == 0 {
        return Err("no active playback devices found".to_owned());
    }
    if options.action == Action::List || options.action == Action::Setup {
        return Ok(None);
    }
    let filter: Option<&str> = match &options.device_filter {
        Some(f) => Some(f.as_str()),
        None => None,
    };
    match resolve_target(devices, filter) {
        Ok(d) => Ok(Some(d)),
        Err(e) => Err(e),
    }
}

/// A value that Bass Boost takes for a parameter: a frequency from 50 to 600,
/// or a level from 3 to 24 in steps of 3.
pub open spec fn valid_param(param: Param) -> bool {
    match param {
        Param::Freq(hz) => 50 <= hz <= 600,
        Param::Level(db) => 3 <= db <= 24 && db % 3 == 0,
    }
}

/// The stage at which a change of an effect begins once the state is settled:
/// an effect does nothing while all enhancements are turned off, so turning it
/// on looks at that first.
pub open spec fn change_effect(effect: Effect, desired: bool) -> RunStage {
    if desired {
        RunStage::CheckEnhancements(effect, true)
    } else {
        RunStage::SetEffect(effect, false)
    }
}

/// The stage at which an operation on an effect begins.
pub open spec fn effect_begin(effect: Effect, op: FxOp) -> RunStage {
    match op {
        FxOp::Status => RunStage::EffectStatus(effect),
        FxOp::Toggle => RunStage::ReadEffect(effect),
        FxOp::On => change_effect(effect, true),
        FxOp::Off => change_effect(effect, false),
        FxOp::Freq(hz) => match effect {
            Effect::Bass => if valid_param(Param::Freq(hz)) {
                RunStage::SetParam(Param::Freq(hz))
            } else {
                RunStage::Failed(Problem::FreqOutOfRange)
            },
            Effect::Surround => RunStage::Failed(Problem::NoSuchParam),
        },
        FxOp::Level(db) => match effect {
            Effect::Bass => if valid_param(Param::Level(db)) {
                RunStage::SetParam(Param::Level(db))
            } else {
                RunStage::Failed(Problem::LevelOutOfRange)
            },
            Effect::Surround => RunStage::Failed(Problem::NoSuchParam),
        },
    }
}

/// The stage at which a run begins.
pub open spec fn first_stage(action: Action) -> RunStage {
    match action {
        Action::Tray => RunStage::StartTray,
        Action::List => RunStage::List,
        Action::Meter => RunStage::Meter { seconds: METER_SECONDS },
        Action::Status => RunStage::LoudnessStatus,
        Action::Setup => RunStage::AskElevated,
        Action::Toggle | Action::On | Action::Off => RunStage::ReadLoudness,
        Action::Bass(op) => effect_begin(Effect::Bass, op),
        Action::Surround(op) => effect_begin(Effect::Surround, op),
    }
}

/// The state that a run is to bring about, given the state that is there. One
/// that was never set counts as off.
pub open spec fn desired_state(action: Action, current: Option<bool>) -> bool {
    match action {
        Action::On => true,
        Action::Off => false,
        _ => current != Some(true),
    }
}

/// The event is one that the stage can bring.
pub open spec fn accepts(stage: RunStage, event: RunEvent) -> bool {
    match stage {
        RunStage::List => event is Succeeded,
        RunStage::StartTray | RunStage::Meter { .. } | RunStage::Setup { .. }
        | RunStage::ResetLoudness(_) | RunStage::EnableEnhancements(_, _) | RunStage::ResetEffect(
            _,
            _,
        ) | RunStage::ResetParam(_) => event is Succeeded || event is Failed,
        RunStage::AskElevated | RunStage::CheckEnhancements(_, _) => event is Answer,
        RunStage::LoudnessStatus | RunStage::ReadLoudness | RunStage::EffectStatus(_)
        | RunStage::ReadEffect(_) | RunStage::HintParam => event is State,
        RunStage::ApplyLoudness(_) | RunStage::SetEffect(_, _) | RunStage::SetParam(_) => event
            is Wrote || event is Failed,
        RunStage::WriteLoudness(_) | RunStage::RestartService(_) => event is Succeeded
            || event is Denied || event is Failed,
        RunStage::StatusFreq | RunStage::StatusLevel(_) => event is Number,
        RunStage::Done | RunStage::Failed(_) | RunStage::Elevate(_) => false,
    }
}

/// A turn.
pub open spec fn turn(lines: Seq<Line>, stage: RunStage) -> TurnView {
    TurnView { lines, stage }
}

/// What a run says and does after what came of a stage.
pub open spec fn next_turn(mode: Mode, stage: RunStage, event: RunEvent) -> TurnView {
    match (stage, event) {
        (RunStage::StartTray, RunEvent::Succeeded) => turn(
            seq![Line::TrayStarted, Line::TrayHint],
            RunStage::Done,
        ),
        (RunStage::List, _) => turn(seq![Line::ListFooter], RunStage::Done),
        (RunStage::Meter { .. }, RunEvent::Succeeded) => turn(seq![], RunStage::Done),
        (RunStage::Setup { .. }, RunEvent::Succeeded) => turn(seq![], RunStage::Done),
        (RunStage::StartTray, _) => turn(seq![], RunStage::Failed(Problem::TrayFailed)),
        (RunStage::Meter { .. }, _) => turn(seq![], RunStage::Failed(Problem::MeterFailed)),
        (RunStage::Setup { .. }, _) => turn(seq![], RunStage::Failed(Problem::SetupFailed)),
        // Setup needs elevated rights once.
        (RunStage::AskElevated, RunEvent::Answer(true)) => turn(
            seq![],
            RunStage::Setup { remove: mode.remove },
        ),
        (RunStage::AskElevated, _) => if mode.elevated {
            turn(seq![], RunStage::Failed(Problem::StillNotElevated))
        } else {
            turn(seq![Line::SetupNeedsRights], RunStage::Elevate(Relaunch::Own))
        },
        // Loudness Equalization: live if possible, else by the registry and a
        // restart of the service.
        (RunStage::LoudnessStatus, RunEvent::State(state)) => turn(
            seq![Line::LoudnessIs(state)],
            RunStage::Done,
        ),
        (RunStage::ReadLoudness, RunEvent::State(current)) => turn(
            seq![],
            RunStage::ApplyLoudness(desired_state(mode.action, current)),
        ),
        (RunStage::ApplyLoudness(desired), RunEvent::Wrote(n)) => turn(
            seq![Line::StoresWritten(n)],
            RunStage::ResetLoudness(desired),
        ),
        (RunStage::ApplyLoudness(desired), _) => turn(
            seq![Line::LiveFailed],
            RunStage::WriteLoudness(desired),
        ),
        (RunStage::ResetLoudness(desired), _) => turn(
            seq![Line::LoudnessSet { desired, live: event is Succeeded }],
            RunStage::Done,
        ),
        (RunStage::WriteLoudness(desired), RunEvent::Succeeded) => if mode.no_restart {
            turn(seq![Line::LoudnessWritten(desired), Line::RestartSkipped], RunStage::Done)
        } else {
            turn(
                seq![Line::LoudnessWritten(desired), Line::Restarting],
                RunStage::RestartService(desired),
            )
        },
        (RunStage::WriteLoudness(_), RunEvent::Denied) => if mode.elevated {
            turn(seq![], RunStage::Failed(Problem::RegistryDenied))
        } else {
            turn(seq![Line::RegistryNeedsRights], RunStage::Elevate(Relaunch::Own))
        },
        (RunStage::WriteLoudness(_), _) => turn(seq![], RunStage::Failed(Problem::WriteFailed)),
        (RunStage::RestartService(_), RunEvent::Succeeded) => turn(
            seq![Line::Restarted],
            RunStage::Done,
        ),
        (RunStage::RestartService(desired), RunEvent::Denied) => if mode.elevated {
            turn(seq![], RunStage::Failed(Problem::RestartDenied))
        } else {
            turn(
                seq![Line::RestartNeedsRights, Line::SetupTip],
                RunStage::Elevate(Relaunch::Explicit(desired)),
            )
        },
        (RunStage::RestartService(_), _) => turn(seq![], RunStage::Failed(Problem::RestartFailed)),
        // Bass Boost and Virtual Surround.
        (RunStage::EffectStatus(effect), RunEvent::State(state)) => turn(
            seq![Line::EffectIs(effect, state)],
            match effect {
                Effect::Bass => RunStage::StatusFreq,
                Effect::Surround => RunStage::Done,
            },
        ),
        (RunStage::StatusFreq, RunEvent::Number(freq)) => turn(seq![], RunStage::StatusLevel(freq)),
        (RunStage::StatusLevel(Some(freq)), RunEvent::Number(Some(level))) => turn(
            seq![Line::BassParams(freq, level)],
            RunStage::Done,
        ),
        (RunStage::StatusLevel(_), _) => turn(seq![], RunStage::Done),
        (RunStage::ReadEffect(effect), RunEvent::State(current)) => turn(
            seq![],
            change_effect(effect, current != Some(true)),
        ),
        (RunStage::CheckEnhancements(effect, desired), RunEvent::Answer(true)) => turn(
            seq![],
            RunStage::EnableEnhancements(effect, desired),
        ),
        (RunStage::CheckEnhancements(effect, desired), _) => turn(
            seq![],
            RunStage::SetEffect(effect, desired),
        ),
        (RunStage::EnableEnhancements(effect, desired), RunEvent::Succeeded) => turn(
            seq![Line::EnhancementsOn],
            RunStage::SetEffect(effect, desired),
        ),
        (RunStage::EnableEnhancements(effect, desired), _) => turn(
            seq![],
            RunStage::SetEffect(effect, desired),
        ),
        (RunStage::SetEffect(effect, desired), RunEvent::Wrote(n)) => turn(
            seq![Line::StoresWritten(n)],
            RunStage::ResetEffect(effect, desired),
        ),
        (RunStage::SetEffect(_, _), _) => turn(seq![], RunStage::Failed(Problem::EffectFailed)),
        (RunStage::ResetEffect(effect, desired), _) => turn(
            seq![Line::EffectSet { effect, desired, live: event is Succeeded }],
            RunStage::Done,
        ),
        (RunStage::SetParam(param), RunEvent::Wrote(n)) => turn(
            seq![Line::StoresWritten(n)],
            RunStage::ResetParam(param),
        ),
        (RunStage::SetParam(_), _) => turn(seq![], RunStage::Failed(Problem::EffectFailed)),
        (RunStage::ResetParam(param), _) => turn(seq![Line::ParamSet(param)], RunStage::HintParam),
        (RunStage::HintParam, RunEvent::State(state)) => if state == Some(true) {
            turn(seq![], RunStage::Done)
        } else {
            turn(seq![Line::BassIsOff], RunStage::Done)
        },
        _ => turn(seq![], RunStage::Done),
    }
}

/// How a run begins.
pub open spec fn first_turn(action: Action) -> TurnView {
    match action {
        Action::Meter => turn(seq![Line::Sampling], first_stage(action)),
        _ => turn(seq![], first_stage(action)),
    }
}

/// Whether Bass Boost takes this value for a parameter.
pub fn is_valid_param(param: Param) -> (r: bool)
    ensures
        r == valid_param(param),
{
    match param {
        Param::Freq(hz) => 50 <= hz && hz <= 600,
        Param::Level(db) => 3 <= db && db <= 24 && db % 3 == 0,
    }
}

/// The stage at which a change of an effect begins.
fn effect_change(effect: Effect, desired: bool) -> (r: RunStage)
    ensures
        r == change_effect(effect, desired),
{
    if desired {
        RunStage::CheckEnhancements(effect, true)
    } else {
        RunStage::SetEffect(effect, false)
    }
}

/// The stage at which an operation on an effect begins.
fn effect_start(effect: Effect, op: FxOp) -> (r: RunStage)
    ensures
        r == effect_begin(effect, op),
{
    match op {
        FxOp::Status => RunStage::EffectStatus(effect),
        FxOp::Toggle => RunStage::ReadEffect(effect),
        FxOp::On => effect_change(effect, true),
        FxOp::Off => effect_change(effect, false),
        FxOp::Freq(hz) => match effect {
            Effect::Bass => if is_valid_param(Param::Freq(hz)) {
                RunStage::SetParam(Param::Freq(hz))
            } else {
                RunStage::Failed(Problem::FreqOutOfRange)
            },
            Effect::Surround => RunStage::Failed(Problem::NoSuchParam),
        },
        FxOp::Level(db) => match effect {
            Effect::Bass => if is_valid_param(Param::Level(db)) {
                RunStage::SetParam(Param::Level(db))
            } else {
                RunStage::Failed(Problem::LevelOutOfRange)
            },
            Effect::Surround => RunStage::Failed(Problem::NoSuchParam),
        },
    }
}

/// A turn that says nothing.
fn silent(stage: RunStage) -> (r: Turn)
    ensures
        r@ == turn(seq![], stage),
{
    let lines: Vec<Line> = Vec::new();
    assert(lines@ =~= seq![]);
    Turn { lines, stage }
}

/// A turn that says one line.
fn saying(line: Line, stage: RunStage) -> (r: Turn)
    ensures
        r@ == turn(seq![line], stage),
{
    let lines: Vec<Line> = vec![line];
    assert(lines@ =~= seq![line]);
    Turn { lines, stage }
}

/// A turn that says two lines.
fn saying_two(line: Line, other: Line, stage: RunStage) -> (r: Turn)
    ensures
        r@ == turn(seq![line, other], stage),
{
    let lines: Vec<Line> = vec![line, other];
    assert(lines@ =~= seq![line, other]);
    Turn { lines, stage }
}

/// Begins a run.
pub fn begin(action: Action) -> (r: Turn)
    ensures
        r@ == first_turn(action),
{
    match action {
        Action::Tray => silent(RunStage::StartTray),
        Action::List => silent(RunStage::List),
        Action::Meter => saying(Line::Sampling, RunStage::Meter { seconds: METER_SECONDS }),
        Action::Status => silent(RunStage::LoudnessStatus),
        Action::Setup => silent(RunStage::AskElevated),
        Action::Toggle | Action::On | Action::Off => silent(RunStage::ReadLoudness),
        Action::Bass(op) => silent(effect_start(Effect::Bass, op)),
        Action::Surround(op) => silent(effect_start(Effect::Surround, op)),
    }
}

/// Goes on after what came of a stage.
pub fn advance(mode: Mode, stage: RunStage, event: RunEvent) -> (r: Turn)
    requires
        accepts(stage, event),
    ensures
        r@ == next_turn(mode, stage, event),
{
    match stage {
        RunStage::StartTray => match event {
            RunEvent::Succeeded => saying_two(Line::TrayStarted, Line::TrayHint, RunStage::Done),
            _ => silent(RunStage::Failed(Problem::TrayFailed)),
        },
        RunStage::List => saying(Line::ListFooter, RunStage::Done),
        RunStage::Meter { .. } => match event {
            RunEvent::Succeeded => silent(RunStage::Done),
            _ => silent(RunStage::Failed(Problem::MeterFailed)),
        },
        RunStage::Setup { .. } => match event {
            RunEvent::Succeeded => silent(RunStage::Done),
            _ => silent(RunStage::Failed(Problem::SetupFailed)),
        },
        RunStage::AskElevated => match event {
            RunEvent::Answer(true) => silent(RunStage::Setup { remove: mode.remove }),
            _ => if mode.elevated {
                silent(RunStage::Failed(Problem::StillNotElevated))
            } else {
                saying(Line::SetupNeedsRights, RunStage::Elevate(Relaunch::Own))
            },
        },
        RunStage::LoudnessStatus | RunStage::ReadLoudness | RunStage::ApplyLoudness(_)
        | RunStage::ResetLoudness(_) | RunStage::WriteLoudness(_) | RunStage::RestartService(
            _,
        ) => advance_loudness(mode, stage, event),
        _ => advance_effect(mode, stage, event),
    }
}

/// Goes on after a stage of a run that is about Loudness Equalization.
fn advance_loudness(mode: Mode, stage: RunStage, event: RunEvent) -> (r: Turn)
    requires
        accepts(stage, event),
        stage is LoudnessStatus || stage is ReadLoudness || stage is ApplyLoudness || stage
            is ResetLoudness || stage is WriteLoudness || stage is RestartService,
    ensures
        r@ == next_turn(mode, stage, event),
{
    match (stage, event) {
        (RunStage::LoudnessStatus, RunEvent::State(state)) => saying(
            Line::LoudnessIs(state),
            RunStage::Done,
        ),
        (RunStage::ReadLoudness, RunEvent::State(current)) => {
            let desired: bool = match mode.action {
                Action::On => true,
                Action::Off => false,
                _ => match current {
                    Some(on) => !on,
                    None => true,
                },
            };
            silent(RunStage::ApplyLoudness(desired))
        },
        (RunStage::ApplyLoudness(desired), RunEvent::Wrote(n)) => saying(
            Line::StoresWritten(n),
            RunStage::ResetLoudness(desired),
        ),
        (RunStage::ApplyLoudness(desired), _) => saying(
            Line::LiveFailed,
            RunStage::WriteLoudness(desired),
        ),
        (RunStage::ResetLoudness(desired), _) => {
            let live: bool = matches!(event, RunEvent::Succeeded);
            saying(Line::LoudnessSet { desired, live }, RunStage::Done)
        },
        (RunStage::WriteLoudness(desired), RunEvent::Succeeded) => if mode.no_restart {
            saying_two(Line::LoudnessWritten(desired), Line::RestartSkipped, RunStage::Done)
        } else {
            saying_two(
                Line::LoudnessWritten(desired),
                Line::Restarting,
                RunStage::RestartService(desired),
            )
        },
        (RunStage::WriteLoudness(_), RunEvent::Denied) => if mode.elevated {
            silent(RunStage::Failed(Problem::RegistryDenied))
        } else {
            saying(Line::RegistryNeedsRights, RunStage::Elevate(Relaunch::Own))
        },
        (RunStage::WriteLoudness(_), _) => silent(RunStage::Failed(Problem::WriteFailed)),
        (RunStage::RestartService(_), RunEvent::Succeeded) => saying(
            Line::Restarted,
            RunStage::Done,
        ),
        (RunStage::RestartService(desired), RunEvent::Denied) => if mode.elevated {
            silent(RunStage::Failed(Problem::RestartDenied))
        } else {
            saying_two(
                Line::RestartNeedsRights,
                Line::SetupTip,
                RunStage::Elevate(Relaunch::Explicit(desired)),
            )
        },
        _ => silent(RunStage::Failed(Problem::RestartFailed)),
    }
}

/// Goes on after a stage of a run that is about another effect.
fn advance_effect(mode: Mode, stage: RunStage, event: RunEvent) -> (r: Turn)
    requires
        accepts(stage, event),
        stage is EffectStatus || stage is StatusFreq || stage is StatusLevel || stage is ReadEffect
            || stage is CheckEnhancements || stage is EnableEnhancements || stage is SetEffect
            || stage is ResetEffect || stage is SetParam || stage is ResetParam || stage
            is HintParam,
    ensures
        r@ == next_turn(mode, stage, event),
{
    match (stage, event) {
        (RunStage::EffectStatus(effect), RunEvent::State(state)) => match effect {
            Effect::Bass => saying(Line::EffectIs(effect, state), RunStage::StatusFreq),
            Effect::Surround => saying(Line::EffectIs(effect, state), RunStage::Done),
        },
        (RunStage::StatusFreq, RunEvent::Number(freq)) => silent(RunStage::StatusLevel(freq)),
        (RunStage::StatusLevel(Some(freq)), RunEvent::Number(Some(level))) => saying(
            Line::BassParams(freq, level),
            RunStage::Done,
        ),
        (RunStage::StatusLevel(_), _) => silent(RunStage::Done),
        (RunStage::ReadEffect(effect), RunEvent::State(current)) => {
            let desired: bool = match current {
                Some(on) => !on,
                None => true,
            };
            silent(effect_change(effect, desired))
        },
        (RunStage::CheckEnhancements(effect, desired), RunEvent::Answer(true)) => silent(
            RunStage::EnableEnhancements(effect, desired),
        ),
        (RunStage::CheckEnhancements(effect, desired), _) => silent(
            RunStage::SetEffect(effect, desired),
        ),
        (RunStage::EnableEnhancements(effect, desired), RunEvent::Succeeded) => saying(
            Line::EnhancementsOn,
            RunStage::SetEffect(effect, desired),
        ),
        (RunStage::EnableEnhancements(effect, desired), _) => silent(
            RunStage::SetEffect(effect, desired),
        ),
        (RunStage::SetEffect(effect, desired), RunEvent::Wrote(n)) => saying(
            Line::StoresWritten(n),
            RunStage::ResetEffect(effect, desired),
        ),
        (RunStage::SetEffect(_, _), _) => silent(RunStage::Failed(Problem::EffectFailed)),
        (RunStage::ResetEffect(effect, desired), _) => {
            let live: bool = matches!(event, RunEvent::Succeeded);
            saying(Line::EffectSet { effect, desired, live }, RunStage::Done)
        },
        (RunStage::SetParam(param), RunEvent::Wrote(n)) => saying(
            Line::StoresWritten(n),
            RunStage::ResetParam(param),
        ),
        (RunStage::SetParam(_), _) => silent(RunStage::Failed(Problem::EffectFailed)),
        (RunStage::ResetParam(param), _) => saying(Line::ParamSet(param), RunStage::HintParam),
        (RunStage::HintParam, RunEvent::State(Some(true))) => silent(RunStage::Done),
        _ => saying(Line::BassIsOff, RunStage::Done),
    }
}

/// A stage at which nothing is left to do.
pub open spec fn ended(stage: RunStage) -> bool {
    stage is Done || stage is Failed || stage is Elevate
}

/// How many steps a run has before it at most.
pub open spec fn steps_left(stage: RunStage) -> nat {
    match stage {
        RunStage::Done | RunStage::Failed(_) | RunStage::Elevate(_) => 0,
        RunStage::StartTray | RunStage::List | RunStage::Meter { .. } | RunStage::Setup { .. }
        | RunStage::LoudnessStatus | RunStage::ResetLoudness(_) | RunStage::RestartService(_)
        | RunStage::StatusLevel(_) | RunStage::ResetEffect(_, _) | RunStage::HintParam => 1,
        RunStage::AskElevated | RunStage::WriteLoudness(_) | RunStage::StatusFreq
        | RunStage::SetEffect(_, _) | RunStage::ResetParam(_) => 2,
        RunStage::ApplyLoudness(_) | RunStage::EffectStatus(_) | RunStage::EnableEnhancements(_, _)
        | RunStage::SetParam(_) => 3,
        RunStage::ReadLoudness | RunStage::CheckEnhancements(_, _) => 4,
        RunStage::ReadEffect(_) => 5,
    }
}

/// A run ends after at most five steps, whatever comes of them.
pub proof fn run_ends(mode: Mode, stage: RunStage, event: RunEvent)
    requires
        accepts(stage, event),
    ensures
        steps_left(next_turn(mode, stage, event).stage) < steps_left(stage) <= 5,
{
}

/// A run goes on until it ends: something can come of every stage but those at
/// which nothing is left to do.
pub proof fn run_goes_on(stage: RunStage)
    ensures
        ended(stage) <==> !(exists|event: RunEvent| accepts(stage, event)),
        ended(stage) <==> steps_left(stage) == 0,
{
    assert(ended(stage) || accepts(stage, RunEvent::Succeeded) || accepts(stage, RunEvent::Failed)
        || accepts(stage, RunEvent::Answer(true)) || accepts(stage, RunEvent::State(None))
        || accepts(stage, RunEvent::Number(None)));
}

/// A run that is marked as elevated never starts the program again.
pub proof fn elevated_run_does_not_relaunch(mode: Mode, stage: RunStage, event: RunEvent)
    requires
        mode.elevated,
        accepts(stage, event),
    ensures
        !(next_turn(mode, stage, event).stage is Elevate),
        !(first_stage(mode.action) is Elevate),
{
}

/// The actions on which a run may start the program again.
pub open spec fn may_elevate(action: Action) -> bool {
    action is Setup || action is Toggle || action is On || action is Off
}

/// The stages of a run that is about an action.
pub open spec fn belongs(mode: Mode, stage: RunStage) -> bool {
    match stage {
        RunStage::Done | RunStage::Failed(_) => true,
        RunStage::StartTray => mode.action is Tray,
        RunStage::List => mode.action is List,
        RunStage::Meter { seconds } => mode.action is Meter && seconds == METER_SECONDS,
        RunStage::AskElevated => mode.action is Setup,
        RunStage::Setup { remove } => mode.action is Setup && remove == mode.remove,
        RunStage::LoudnessStatus => mode.action is Status,
        RunStage::ReadLoudness => mode.action is Toggle || mode.action is On || mode.action is Off,
        RunStage::ApplyLoudness(desired) | RunStage::ResetLoudness(desired)
        | RunStage::WriteLoudness(desired) => match mode.action {
            Action::Toggle => true,
            Action::On => desired,
            Action::Off => !desired,
            _ => false,
        },
        RunStage::RestartService(desired) => !mode.no_restart && match mode.action {
            Action::Toggle => true,
            Action::On => desired,
            Action::Off => !desired,
            _ => false,
        },
        RunStage::Elevate(relaunch) => !mode.elevated && match relaunch {
            Relaunch::Own => may_elevate(mode.action),
            Relaunch::Explicit(desired) => !mode.no_restart && match mode.action {
                Action::Toggle => true,
                Action::On => desired,
                Action::Off => !desired,
                _ => false,
            },
        },
        RunStage::EffectStatus(Effect::Bass) | RunStage::StatusFreq | RunStage::StatusLevel(
            _,
        ) => mode.action == Action::Bass(FxOp::Status),
        RunStage::EffectStatus(Effect::Surround) => mode.action == Action::Surround(FxOp::Status),
        RunStage::ReadEffect(Effect::Bass) => mode.action == Action::Bass(FxOp::Toggle),
        RunStage::ReadEffect(Effect::Surround) => mode.action == Action::Surround(FxOp::Toggle),
        RunStage::CheckEnhancements(effect, desired) | RunStage::EnableEnhancements(
            effect,
            desired,
        ) => desired && changes(mode.action, effect, desired),
        RunStage::SetEffect(effect, desired) | RunStage::ResetEffect(effect, desired) => changes(
            mode.action,
            effect,
            desired,
        ),
        RunStage::SetParam(param) | RunStage::ResetParam(param) => valid_param(param)
            && mode.action == Action::Bass(
            match param {
                Param::Freq(hz) => FxOp::Freq(hz),
                Param::Level(db) => FxOp::Level(db),
            },
        ),
        RunStage::HintParam => mode.action is Bass,
    }
}

/// The action may bring an effect to a state.
pub open spec fn changes(action: Action, effect: Effect, desired: bool) -> bool {
    let op = if desired {
        FxOp::On
    } else {
        FxOp::Off
    };
    match effect {
        Effect::Bass => action == Action::Bass(op) || action == Action::Bass(FxOp::Toggle),
        Effect::Surround => action == Action::Surround(op) || action == Action::Surround(
            FxOp::Toggle,
        ),
    }
}

/// A run begins with what its options ask for.
pub proof fn run_begins_as_asked(mode: Mode)
    ensures
        belongs(mode, first_stage(mode.action)),
{
}

/// A run only ever does what its options ask for. So "on" and "off" never bring
/// about the other state, the service is not restarted where that was declined,
/// rights are taken back only where that was asked for, no parameter is set to
/// a value that it does not take, and only a change of Loudness Equalization or
/// a setup may ask for elevated rights.
pub proof fn run_does_what_was_asked(mode: Mode, stage: RunStage, event: RunEvent)
    requires
        belongs(mode, stage),
        accepts(stage, event),
    ensures
        belongs(mode, next_turn(mode, stage, event).stage),
{
}

/// The state that a change of Loudness Equalization is to bring about.
pub open spec fn loudness_goal(stage: RunStage) -> Option<bool> {
    match stage {
        RunStage::ApplyLoudness(desired) | RunStage::ResetLoudness(desired)
        | RunStage::WriteLoudness(desired) | RunStage::RestartService(desired) | RunStage::Elevate(
            Relaunch::Explicit(desired),
        ) => Some(desired),
        _ => None,
    }
}

/// Once it is settled which state a run brings about, that stays: each way to
/// bring it about, and an elevated run that is told it, are given the same.
pub proof fn settled_state_stays(mode: Mode, stage: RunStage, event: RunEvent)
    requires
        accepts(stage, event),
        loudness_goal(stage) is Some,
        loudness_goal(next_turn(mode, stage, event).stage) is Some,
    ensures
        loudness_goal(next_turn(mode, stage, event).stage) == loudness_goal(stage),
{
}

/// Every change of Loudness Equalization is tried live exactly once: right after
/// the state was read, with the state that was asked for. "On" and "off" do not
/// depend on the state that was read.
pub proof fn live_change_is_made_once(mode: Mode, stage: RunStage, event: RunEvent)
    requires
        accepts(stage, event),
    ensures
        first_stage(mode.action) is ReadLoudness <==> mode.action is Toggle || mode.action is On
            || mode.action is Off,
        !(first_stage(mode.action) is ApplyLoudness),
        !(next_turn(mode, stage, event).stage is ReadLoudness),
        next_turn(mode, stage, event).stage is ApplyLoudness <==> stage is ReadLoudness,
        stage is ReadLoudness ==> next_turn(mode, stage, event).stage == RunStage::ApplyLoudness(
            match mode.action {
                Action::On => true,
                Action::Off => false,
                _ => event != RunEvent::State(Some(true)),
            },
        ),
{
}

/// A toggle brings about the other state. One that was never set counts as off.
pub proof fn toggle_flips(mode: Mode, current: Option<bool>)
    requires
        mode.action is Toggle,
    ensures
        loudness_goal(next_turn(mode, RunStage::ReadLoudness, RunEvent::State(current)).stage)
            == Some(
            match current {
                Some(on) => !on,
                None => true,
            },
        ),
{
}

/// The registry is written only after the change could not be made live, and
/// the user is told so; the service is restarted only after the registry was
/// written, and the endpoint is reset only after the change was made live.
pub proof fn fallback_comes_last(mode: Mode, stage: RunStage, event: RunEvent)
    requires
        accepts(stage, event),
    ensures
        next_turn(mode, stage, event).stage is WriteLoudness ==> stage is ApplyLoudness && event
            is Failed && next_turn(mode, stage, event).lines == seq![Line::LiveFailed],
        next_turn(mode, stage, event).stage is RestartService ==> stage is WriteLoudness && event
            is Succeeded,
        next_turn(mode, stage, event).stage is ResetLoudness ==> stage is ApplyLoudness && event
            is Wrote,
{
}

/// A run asks for elevated rights by itself where it lacks them, and only there;
/// one that has asked before fails instead.
pub proof fn missing_rights_are_asked_for_once(mode: Mode, stage: RunStage, event: RunEvent)
    requires
        accepts(stage, event),
    ensures
        ({
            let lacking = (stage is WriteLoudness && event is Denied) || (stage is RestartService
                && event is Denied) || (stage is AskElevated && event == RunEvent::Answer(false));
            let next = next_turn(mode, stage, event).stage;
            &&& next is Elevate <==> lacking && !mode.elevated
            &&& lacking && mode.elevated ==> next is Failed
        }),
{
}

/// An effect is turned on only after it was found out whether all enhancements
/// are turned off, and, where they are, after it was tried to turn them on.
pub proof fn enhancements_come_first(mode: Mode, stage: RunStage, event: RunEvent)
    requires
        accepts(stage, event),
        next_turn(mode, stage, event).stage is SetEffect,
        next_turn(mode, stage, event).stage->SetEffect_1,
    ensures
        stage is EnableEnhancements || (stage is CheckEnhancements && event == RunEvent::Answer(
            false,
        )),
{
}

} // verus!
