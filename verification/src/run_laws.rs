//! What a run does and says from its beginning to its end, way by way.
use vstd::prelude::*;

use crate::cli::{Action, FxOp};
use crate::run::{
    accepts, first_turn, needs_device, next_turn, valid_param, Effect, Line, Mode, Param, Problem,
    Relaunch, RunEvent, RunStage, TurnView,
};

verus! {

/// What a run says and does.
pub open spec fn says(lines: Seq<Line>, stage: RunStage) -> TurnView {
    TurnView { lines, stage }
}

/// A run goes from a stage to another one, without a word.
pub open spec fn goes(mode: Mode, stage: RunStage, event: RunEvent, next: RunStage) -> bool {
    accepts(stage, event) && next_turn(mode, stage, event) == says(seq![], next)
}

/// A run goes from a stage to another one, and says a line.
pub open spec fn tells(
    mode: Mode,
    stage: RunStage,
    event: RunEvent,
    line: Line,
    next: RunStage,
) -> bool {
    accepts(stage, event) && next_turn(mode, stage, event) == says(seq![line], next)
}

/// The runs on one device are all but the list, the setup and the start of the
/// tray program.
pub proof fn runs_on_one_device(action: Action)
    ensures
        needs_device(action) <==> action is Toggle || action is On || action is Off || action
            is Status || action is Meter || action is Bass || action is Surround,
{
}

/// The runs that only look: the status tells the state that was read, the list
/// ends with what the star means, and the level is measured for five seconds.
pub proof fn runs_that_look(mode: Mode, state: Option<bool>)
    ensures
        first_turn(Action::Status) == says(seq![], RunStage::LoudnessStatus),
        tells(
            mode,
            RunStage::LoudnessStatus,
            RunEvent::State(state),
            Line::LoudnessIs(state),
            RunStage::Done,
        ),
        first_turn(Action::List) == says(seq![], RunStage::List),
        tells(mode, RunStage::List, RunEvent::Succeeded, Line::ListFooter, RunStage::Done),
        first_turn(Action::Meter) == says(seq![Line::Sampling], RunStage::Meter { seconds: 5 }),
        goes(mode, RunStage::Meter { seconds: 5 }, RunEvent::Succeeded, RunStage::Done),
        goes(
            mode,
            RunStage::Meter { seconds: 5 },
            RunEvent::Failed,
            RunStage::Failed(Problem::MeterFailed),
        ),
        first_turn(Action::Tray) == says(seq![], RunStage::StartTray),
        next_turn(mode, RunStage::StartTray, RunEvent::Succeeded) == says(
            seq![Line::TrayStarted, Line::TrayHint],
            RunStage::Done,
        ),
        goes(
            mode,
            RunStage::StartTray,
            RunEvent::Failed,
            RunStage::Failed(Problem::TrayFailed),
        ),
{
}

/// A setup is made with elevated rights: where they are there, it grants or takes
/// back as was asked for; where they are not, they are asked for once.
pub proof fn run_that_sets_up(mode: Mode, remove: bool)
    ensures
        first_turn(Action::Setup) == says(seq![], RunStage::AskElevated),
        goes(
            mode,
            RunStage::AskElevated,
            RunEvent::Answer(true),
            RunStage::Setup { remove: mode.remove },
        ),
        mode.elevated ==> goes(
            mode,
            RunStage::AskElevated,
            RunEvent::Answer(false),
            RunStage::Failed(Problem::StillNotElevated),
        ),
        !mode.elevated ==> tells(
            mode,
            RunStage::AskElevated,
            RunEvent::Answer(false),
            Line::SetupNeedsRights,
            RunStage::Elevate(Relaunch::Own),
        ),
        goes(mode, RunStage::Setup { remove }, RunEvent::Succeeded, RunStage::Done),
        goes(
            mode,
            RunStage::Setup { remove },
            RunEvent::Failed,
            RunStage::Failed(Problem::SetupFailed),
        ),
{
}

/// A change of Loudness Equalization: the state is read, the other one or the one
/// that was asked for is set live, and the endpoint is reset; what is told is the
/// state that was set, and that it is heard at once exactly where the reset
/// succeeded.
pub proof fn run_that_changes_live(mode: Mode, current: Option<bool>, desired: bool, n: usize)
    requires
        mode.action is Toggle || mode.action is On || mode.action is Off,
    ensures
        first_turn(mode.action) == says(seq![], RunStage::ReadLoudness),
        mode.action is On ==> goes(
            mode,
            RunStage::ReadLoudness,
            RunEvent::State(current),
            RunStage::ApplyLoudness(true),
        ),
        mode.action is Off ==> goes(
            mode,
            RunStage::ReadLoudness,
            RunEvent::State(current),
            RunStage::ApplyLoudness(false),
        ),
        mode.action is Toggle ==> goes(
            mode,
            RunStage::ReadLoudness,
            RunEvent::State(current),
            RunStage::ApplyLoudness(current != Some(true)),
        ),
        tells(
            mode,
            RunStage::ApplyLoudness(desired),
            RunEvent::Wrote(n),
            Line::StoresWritten(n),
            RunStage::ResetLoudness(desired),
        ),
        tells(
            mode,
            RunStage::ResetLoudness(desired),
            RunEvent::Succeeded,
            Line::LoudnessSet { desired, live: true },
            RunStage::Done,
        ),
        tells(
            mode,
            RunStage::ResetLoudness(desired),
            RunEvent::Failed,
            Line::LoudnessSet { desired, live: false },
            RunStage::Done,
        ),
{
}

/// Where a change cannot be made live, the same state is written to the registry,
/// and the service is restarted unless that was declined. Rights that are missing
/// are asked for, unless they were asked for before; after the write, the
/// elevated run is told the state outright. Any other failure ends the run.
pub proof fn run_that_falls_back(mode: Mode, desired: bool)
    ensures
        tells(
            mode,
            RunStage::ApplyLoudness(desired),
            RunEvent::Failed,
            Line::LiveFailed,
            RunStage::WriteLoudness(desired),
        ),
        accepts(RunStage::WriteLoudness(desired), RunEvent::Succeeded),
        mode.no_restart ==> next_turn(mode, RunStage::WriteLoudness(desired), RunEvent::Succeeded)
            == says(seq![Line::LoudnessWritten(desired), Line::RestartSkipped], RunStage::Done),
        !mode.no_restart ==> next_turn(mode, RunStage::WriteLoudness(desired), RunEvent::Succeeded)
            == says(
            seq![Line::LoudnessWritten(desired), Line::Restarting],
            RunStage::RestartService(desired),
        ),
        mode.elevated ==> goes(
            mode,
            RunStage::WriteLoudness(desired),
            RunEvent::Denied,
            RunStage::Failed(Problem::RegistryDenied),
        ),
        !mode.elevated ==> tells(
            mode,
            RunStage::WriteLoudness(desired),
            RunEvent::Denied,
            Line::RegistryNeedsRights,
            RunStage::Elevate(Relaunch::Own),
        ),
        goes(
            mode,
            RunStage::WriteLoudness(desired),
            RunEvent::Failed,
            RunStage::Failed(Problem::WriteFailed),
        ),
        tells(
            mode,
            RunStage::RestartService(desired),
            RunEvent::Succeeded,
            Line::Restarted,
            RunStage::Done,
        ),
        mode.elevated ==> goes(
            mode,
            RunStage::RestartService(desired),
            RunEvent::Denied,
            RunStage::Failed(Problem::RestartDenied),
        ),
        !mode.elevated ==> next_turn(mode, RunStage::RestartService(desired), RunEvent::Denied)
            == says(
            seq![Line::RestartNeedsRights, Line::SetupTip],
            RunStage::Elevate(Relaunch::Explicit(desired)),
        ),
        goes(
            mode,
            RunStage::RestartService(desired),
            RunEvent::Failed,
            RunStage::Failed(Problem::RestartFailed),
        ),
{
}

/// The command for an operation on an effect.
pub open spec fn command_for(effect: Effect, op: FxOp) -> Action {
    match effect {
        Effect::Bass => Action::Bass(op),
        Effect::Surround => Action::Surround(op),
    }
}

/// The status of an effect tells the state that was read; of Bass Boost also the
/// frequency and the level, where both are there.
pub proof fn run_that_tells_an_effect(
    mode: Mode,
    effect: Effect,
    state: Option<bool>,
    freq: i32,
    level: i32,
    any: Option<i32>,
)
    ensures
        first_turn(command_for(effect, FxOp::Status)) == says(
            seq![],
            RunStage::EffectStatus(effect),
        ),
        tells(
            mode,
            RunStage::EffectStatus(effect),
            RunEvent::State(state),
            Line::EffectIs(effect, state),
            if effect is Bass {
                RunStage::StatusFreq
            } else {
                RunStage::Done
            },
        ),
        goes(mode, RunStage::StatusFreq, RunEvent::Number(any), RunStage::StatusLevel(any)),
        tells(
            mode,
            RunStage::StatusLevel(Some(freq)),
            RunEvent::Number(Some(level)),
            Line::BassParams(freq, level),
            RunStage::Done,
        ),
        goes(mode, RunStage::StatusLevel(None), RunEvent::Number(any), RunStage::Done),
        goes(mode, RunStage::StatusLevel(any), RunEvent::Number(None), RunStage::Done),
{
}

/// A change of an effect: before it is turned on, enhancements are turned on where
/// they are off, and that is told where it succeeded; then the state that was
/// asked for, or the other one, is set, and the endpoint is reset.
pub proof fn run_that_changes_an_effect(
    mode: Mode,
    effect: Effect,
    current: Option<bool>,
    desired: bool,
    n: usize,
)
    ensures
        first_turn(command_for(effect, FxOp::On)) == says(
            seq![],
            RunStage::CheckEnhancements(effect, true),
        ),
        first_turn(command_for(effect, FxOp::Off)) == says(
            seq![],
            RunStage::SetEffect(effect, false),
        ),
        first_turn(command_for(effect, FxOp::Toggle)) == says(seq![], RunStage::ReadEffect(effect)),
        goes(
            mode,
            RunStage::ReadEffect(effect),
            RunEvent::State(current),
            if current == Some(true) {
                RunStage::SetEffect(effect, false)
            } else {
                RunStage::CheckEnhancements(effect, true)
            },
        ),
        goes(
            mode,
            RunStage::CheckEnhancements(effect, desired),
            RunEvent::Answer(true),
            RunStage::EnableEnhancements(effect, desired),
        ),
        goes(
            mode,
            RunStage::CheckEnhancements(effect, desired),
            RunEvent::Answer(false),
            RunStage::SetEffect(effect, desired),
        ),
        tells(
            mode,
            RunStage::EnableEnhancements(effect, desired),
            RunEvent::Succeeded,
            Line::EnhancementsOn,
            RunStage::SetEffect(effect, desired),
        ),
        goes(
            mode,
            RunStage::EnableEnhancements(effect, desired),
            RunEvent::Failed,
            RunStage::SetEffect(effect, desired),
        ),
        tells(
            mode,
            RunStage::SetEffect(effect, desired),
            RunEvent::Wrote(n),
            Line::StoresWritten(n),
            RunStage::ResetEffect(effect, desired),
        ),
        goes(
            mode,
            RunStage::SetEffect(effect, desired),
            RunEvent::Failed,
            RunStage::Failed(Problem::EffectFailed),
        ),
        tells(
            mode,
            RunStage::ResetEffect(effect, desired),
            RunEvent::Succeeded,
            Line::EffectSet { effect, desired, live: true },
            RunStage::Done,
        ),
        tells(
            mode,
            RunStage::ResetEffect(effect, desired),
            RunEvent::Failed,
            Line::EffectSet { effect, desired, live: false },
            RunStage::Done,
        ),
{
}

/// A parameter of Bass Boost is set exactly where it is a frequency from 50 to
/// 600, or a level that is 3, 6, 9, 12, 15, 18, 21 or 24, and to that value. It is
/// told whatever becomes of the reset, with a hint where Bass Boost is not on.
/// Virtual Surround has no parameters.
pub proof fn run_that_sets_a_parameter(
    mode: Mode,
    hz: i32,
    db: i32,
    param: Param,
    state: Option<bool>,
    n: usize,
)
    ensures
        valid_param(Param::Freq(hz)) <==> 50 <= hz && hz <= 600,
        valid_param(Param::Level(db)) <==> db == 3 || db == 6 || db == 9 || db == 12 || db == 15
            || db == 18 || db == 21 || db == 24,
        first_turn(Action::Bass(FxOp::Freq(hz))) == says(
            seq![],
            if 50 <= hz && hz <= 600 {
                RunStage::SetParam(Param::Freq(hz))
            } else {
                RunStage::Failed(Problem::FreqOutOfRange)
            },
        ),
        first_turn(Action::Bass(FxOp::Level(db))) == says(
            seq![],
            if db == 3 || db == 6 || db == 9 || db == 12 || db == 15 || db == 18 || db == 21 || db
                == 24 {
                RunStage::SetParam(Param::Level(db))
            } else {
                RunStage::Failed(Problem::LevelOutOfRange)
            },
        ),
        first_turn(Action::Surround(FxOp::Freq(hz))) == says(
            seq![],
            RunStage::Failed(Problem::NoSuchParam),
        ),
        first_turn(Action::Surround(FxOp::Level(db))) == says(
            seq![],
            RunStage::Failed(Problem::NoSuchParam),
        ),
        tells(
            mode,
            RunStage::SetParam(param),
            RunEvent::Wrote(n),
            Line::StoresWritten(n),
            RunStage::ResetParam(param),
        ),
        goes(
            mode,
            RunStage::SetParam(param),
            RunEvent::Failed,
            RunStage::Failed(Problem::EffectFailed),
        ),
        tells(
            mode,
            RunStage::ResetParam(param),
            RunEvent::Succeeded,
            Line::ParamSet(param),
            RunStage::HintParam,
        ),
        tells(
            mode,
            RunStage::ResetParam(param),
            RunEvent::Failed,
            Line::ParamSet(param),
            RunStage::HintParam,
        ),
        goes(mode, RunStage::HintParam, RunEvent::State(Some(true)), RunStage::Done),
        state != Some(true) ==> tells(
            mode,
            RunStage::HintParam,
            RunEvent::State(state),
            Line::BassIsOff,
            RunStage::Done,
        ),
{
}

} // verus!
