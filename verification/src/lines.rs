//! The words of a run.
use vstd::prelude::*;

use crate::device::{state_text, state_words, Device};
use crate::run::{Effect, Line, Param, Problem};
use crate::text::{decimal, decimal_int, decimal_int_text, decimal_text};

verus! {

/// Where a line goes.
#[derive(Clone, Copy, Debug, PartialEq, Eq, Structural)]
pub enum Channel {
    /// To the console.
    Print,
    /// To the transcript.
    Log,
    /// To both.
    Say,
}

/// The name of an effect.
pub open spec fn effect_words(effect: Effect) -> Seq<char> {
    match effect {
        Effect::Bass => "Bass Boost"@,
        Effect::Surround => "Virtual Surround"@,
    }
}

/// The name of an effect.
pub fn effect_name(effect: Effect) -> (r: &'static str)
    ensures
        r@ == effect_words(effect),
{
    match effect {
        Effect::Bass => "Bass Boost",
        Effect::Surround => "Virtual Surround",
    }
}

/// The note on a change, by whether the endpoint could be reset.
pub open spec fn reset_words(live: bool) -> Seq<char> {
    if live {
        "applied live"@
    } else {
        "applied — restart playback in running apps to hear it"@
    }
}

/// The note on a change, by whether the endpoint could be reset.
pub fn reset_word(live: bool) -> (r: &'static str)
    ensures
        r@ == reset_words(live),
{
    if live {
        "applied live"
    } else {
        "applied — restart playback in running apps to hear it"
    }
}

/// The channel of a line. What leads to an elevated run is not told in the
/// transcript, nor is an answer to a question.
pub open spec fn channel_of(line: Line) -> Channel {
    match line {
        Line::StoresWritten(_) => Channel::Log,
        Line::LoudnessIs(_)
        | Line::RegistryNeedsRights
        | Line::RestartNeedsRights
        | Line::SetupTip
        | Line::SetupNeedsRights
        | Line::EffectIs(_, _)
        | Line::BassParams(_, _)
        | Line::Sampling
        | Line::TrayStarted
        | Line::TrayHint
        | Line::ListFooter => Channel::Print,
        _ => Channel::Say,
    }
}

/// The channel of a line.
pub fn line_channel(line: Line) -> (r: Channel)
    ensures
        r == channel_of(line),
{
    match line {
        Line::StoresWritten(_) => Channel::Log,
        Line::LoudnessIs(_)
        | Line::RegistryNeedsRights
        | Line::RestartNeedsRights
        | Line::SetupTip
        | Line::SetupNeedsRights
        | Line::EffectIs(_, _)
        | Line::BassParams(_, _)
        | Line::Sampling
        | Line::TrayStarted
        | Line::TrayHint
        | Line::ListFooter => Channel::Print,
        _ => Channel::Say,
    }
}

/// The words of a line, of a run on a device. The reason is that of the failure
/// that the line tells, if any.
pub open spec fn line_words(line: Line, device: Seq<char>, reason: Seq<char>) -> Seq<char> {
    match line {
        Line::LoudnessIs(state) => device + ": Loudness Equalization is "@ + state_words(state),
        Line::LoudnessSet { desired, live } => device + ": Loudness Equalization set to "@
            + state_words(Some(desired)) + " ("@ + reset_words(live) + ")"@,
        Line::LoudnessWritten(desired) => device + ": Loudness Equalization set to "@
            + state_words(Some(desired)),
        Line::StoresWritten(n) => "instance user stores written: "@ + decimal(n as nat),
        Line::LiveFailed => "Live apply failed ("@ + reason
            + "); falling back to registry + service restart."@,
        Line::RegistryNeedsRights => "Administrator rights are needed — requesting elevation..."@,
        Line::RestartSkipped => "Skipped the audio service restart; the change applies after the device or service restarts."@,
        Line::Restarting => "Restarting the Windows Audio service..."@,
        Line::Restarted => "Done. Audio output was interrupted for a moment while the service restarted."@,
        Line::RestartNeedsRights => "Restarting the audio service needs administrator rights — requesting elevation..."@,
        Line::SetupTip => "(tip: run `loudeq setup` once and you'll never see this UAC prompt again)"@,
        Line::SetupNeedsRights => "Setup needs administrator rights once — requesting elevation..."@,
        Line::EffectIs(effect, state) => device + ": "@ + effect_words(effect) + " is "@
            + state_words(state),
        Line::BassParams(freq, level) => "  frequency: "@ + decimal_int(freq as int)
            + " Hz   boost level: "@ + decimal_int(level as int) + " dB"@,
        Line::EnhancementsOn => "(also turned the master \"Audio enhancements\" switch back on)"@,
        Line::EffectSet { effect, desired, live } => device + ": "@ + effect_words(effect)
            + " set to "@ + state_words(Some(desired)) + " ("@ + reset_words(live) + ")"@,
        Line::ParamSet(Param::Freq(hz)) => device + ": Bass Boost frequency set to "@
            + decimal_int(hz as int) + " Hz"@,
        Line::ParamSet(Param::Level(db)) => device + ": Bass Boost level set to "@
            + decimal_int(db as int) + " dB"@,
        Line::BassIsOff => "(note: Bass Boost is currently OFF — run `loudeq bass on` to hear it)"@,
        Line::Sampling => "Sampling output level of "@ + device
            + " for 5 seconds — play some audio now..."@,
        Line::TrayStarted => "Tray app started — look for the loudeq icon near the clock."@,
        Line::TrayHint => "(if the tray was already running, this toggles Loudness EQ instead)"@,
        Line::ListFooter => "\n(* = default playback device)"@,
    }
}

/// The words of a line.
pub fn line_text(line: Line, device: &str, reason: &str) -> (r: String)
    ensures
        r@ == line_words(line, device@, reason@),
{
    match line {
        Line::LoudnessIs(state) => {
            let mut out: String = device.to_owned();
            out.append(": Loudness Equalization is ");
            out.append(state_text(state));
            out
        },
        Line::LoudnessSet { desired, live } => {
            let mut out: String = device.to_owned();
            out.append(": Loudness Equalization set to ");
            out.append(state_text(Some(desired)));
            out.append(" (");
            out.append(reset_word(live));
            out.append(")");
            out
        },
        Line::LoudnessWritten(desired) => {
            let mut out: String = device.to_owned();
            out.append(": Loudness Equalization set to ");
            out.append(state_text(Some(desired)));
            out
        },
        Line::StoresWritten(n) => {
            let mut out: String = "instance user stores written: ".to_owned();
            out.append(decimal_text(n as u64).as_str());
            out
        },
        Line::LiveFailed => {
            let mut out: String = "Live apply failed (".to_owned();
            out.append(reason);
            out.append("); falling back to registry + service restart.");
            out
        },
        Line::RegistryNeedsRights => "Administrator rights are needed — requesting elevation...".to_owned(),
        Line::RestartSkipped => "Skipped the audio service restart; the change applies after the device or service restarts.".to_owned(),
        Line::Restarting => "Restarting the Windows Audio service...".to_owned(),
        Line::Restarted => "Done. Audio output was interrupted for a moment while the service restarted.".to_owned(),
        Line::RestartNeedsRights => "Restarting the audio service needs administrator rights — requesting elevation...".to_owned(),
        Line::SetupTip => "(tip: run `loudeq setup` once and you'll never see this UAC prompt again)".to_owned(),
        Line::SetupNeedsRights => "Setup needs administrator rights once — requesting elevation...".to_owned(),
        Line::EffectIs(effect, state) => {
            let mut out: String = device.to_owned();
            out.append(": ");
            out.append(effect_name(effect));
            out.append(" is ");
            out.append(state_text(state));
            out
        },
        Line::BassParams(freq, level) => {
            let mut out: String = "  frequency: ".to_owned();
            out.append(decimal_int_text(freq).as_str());
            out.append(" Hz   boost level: ");
            out.append(decimal_int_text(level).as_str());
            out.append(" dB");
            out
        },
        Line::EnhancementsOn => "(also turned the master \"Audio enhancements\" switch back on)".to_owned(),
        Line::EffectSet { effect, desired, live } => {
            let mut out: String = device.to_owned();
            out.append(": ");
            out.append(effect_name(effect));
            out.append(" set to ");
            out.append(state_text(Some(desired)));
            out.append(" (");
            out.append(reset_word(live));
            out.append(")");
            out
        },
        Line::ParamSet(Param::Freq(hz)) => {
            let mut out: String = device.to_owned();
            out.append(": Bass Boost frequency set to ");
            out.append(decimal_int_text(hz).as_str());
            out.append(" Hz");
            out
        },
        Line::ParamSet(Param::Level(db)) => {
            let mut out: String = device.to_owned();
            out.append(": Bass Boost level set to ");
            out.append(decimal_int_text(db).as_str());
            out.append(" dB");
            out
        },
        Line::BassIsOff => "(note: Bass Boost is currently OFF — run `loudeq bass on` to hear it)".to_owned(),
        Line::Sampling => {
            let mut out: String = "Sampling output level of ".to_owned();
            out.append(device);
            out.append(" for 5 seconds — play some audio now...");
            out
        },
        Line::TrayStarted => "Tray app started — look for the loudeq icon near the clock.".to_owned(),
        Line::TrayHint => "(if the tray was already running, this toggles Loudness EQ instead)".to_owned(),
        Line::ListFooter => "\n(* = default playback device)".to_owned(),
    }
}

/// The words of a failure, with the words of the error that caused it.
pub open spec fn problem_words(problem: Problem, reason: Seq<char>) -> Seq<char> {
    match problem {
        Problem::StillNotElevated => "still not elevated after requesting elevation"@,
        Problem::SetupFailed => reason,
        Problem::MeterFailed => reason,
        Problem::TrayFailed => reason,
        Problem::RegistryDenied => "access denied writing to the registry even though elevated"@,
        Problem::WriteFailed => "failed to write setting: "@ + reason,
        Problem::RestartDenied => "access denied restarting the audio service even though elevated"@,
        Problem::RestartFailed => reason,
        Problem::FreqOutOfRange => "frequency must be between 50 and 600 Hz"@,
        Problem::LevelOutOfRange => "boost level must be one of 3, 6, 9, 12, 15, 18, 21, 24 (dB)"@,
        Problem::NoSuchParam => "Virtual Surround has no frequency/level settings"@,
        Problem::EffectFailed => "live apply failed: "@ + reason
            + "\n(check the master \"Audio enhancements\" switch is on, or set it from the Enhancements tab)"@,
    }
}

/// The words of a failure.
pub fn problem_text(problem: Problem, reason: &str) -> (r: String)
    ensures
        r@ == problem_words(problem, reason@),
{
    match problem {
        Problem::StillNotElevated => "still not elevated after requesting elevation".to_owned(),
        Problem::SetupFailed => reason.to_owned(),
        Problem::MeterFailed => reason.to_owned(),
        Problem::TrayFailed => reason.to_owned(),
        Problem::RegistryDenied => "access denied writing to the registry even though elevated".to_owned(),
        Problem::WriteFailed => {
            let mut out: String = "failed to write setting: ".to_owned();
            out.append(reason);
            out
        },
        Problem::RestartDenied => "access denied restarting the audio service even though elevated".to_owned(),
        Problem::RestartFailed => reason.to_owned(),
        Problem::FreqOutOfRange => "frequency must be between 50 and 600 Hz".to_owned(),
        Problem::LevelOutOfRange => "boost level must be one of 3, 6, 9, 12, 15, 18, 21, 24 (dB)".to_owned(),
        Problem::NoSuchParam => "Virtual Surround has no frequency/level settings".to_owned(),
        Problem::EffectFailed => {
            let mut out: String = "live apply failed: ".to_owned();
            out.append(reason);
            out.append("\n(check the master \"Audio enhancements\" switch is on, or set it from the Enhancements tab)");
            out
        },
    }
}

/// The entry of a device in the list of devices: a star before the default one,
/// the name, and the state.
pub open spec fn list_words(is_default: bool, name: Seq<char>, state: Option<bool>) -> Seq<char> {
    (if is_default {
        "* "@
    } else {
        "  "@
    }) + name + "  —  Loudness Equalization: "@ + state_words(state)
}

/// The entry of a device in the list of devices.
pub fn list_line(device: &Device, state: Option<bool>) -> (r: String)
    ensures
        r@ == list_words(device.is_default, device.name@, state),
{
    let mut out: String = if device.is_default {
        "* ".to_owned()
    } else {
        "  ".to_owned()
    };
    out.append(device.name.as_str());
    out.append("  —  Loudness Equalization: ");
    out.append(state_text(state));
    out
}

/// What status prints is the name of the device and the state that was read: ON,
/// OFF, or that it was never set.
pub proof fn status_tells_the_state(device: Seq<char>, reason: Seq<char>)
    ensures
        line_words(Line::LoudnessIs(Some(true)), device, reason) == device
            + ": Loudness Equalization is "@ + "ON"@,
        line_words(Line::LoudnessIs(Some(false)), device, reason) == device
            + ": Loudness Equalization is "@ + "OFF"@,
        line_words(Line::LoudnessIs(None), device, reason) == device
            + ": Loudness Equalization is "@ + "OFF (never set)"@,
        line_words(Line::EffectIs(Effect::Bass, Some(true)), device, reason) == device + ": "@
            + "Bass Boost"@ + " is "@ + "ON"@,
        line_words(Line::EffectIs(Effect::Bass, Some(false)), device, reason) == device + ": "@
            + "Bass Boost"@ + " is "@ + "OFF"@,
        line_words(Line::EffectIs(Effect::Bass, None), device, reason) == device + ": "@
            + "Bass Boost"@ + " is "@ + "OFF (never set)"@,
        line_words(Line::EffectIs(Effect::Surround, Some(true)), device, reason) == device + ": "@
            + "Virtual Surround"@ + " is "@ + "ON"@,
        line_words(Line::EffectIs(Effect::Surround, Some(false)), device, reason) == device + ": "@
            + "Virtual Surround"@ + " is "@ + "OFF"@,
        line_words(Line::EffectIs(Effect::Surround, None), device, reason) == device + ": "@
            + "Virtual Surround"@ + " is "@ + "OFF (never set)"@,
{
}

/// The words for the state that a change brought about.
pub open spec fn on_or_off(on: bool) -> Seq<char> {
    if on {
        "ON"@
    } else {
        "OFF"@
    }
}

/// What a change prints is the name of the device and the state that was set,
/// and, where it was made live, whether what runs has picked it up.
pub proof fn change_tells_the_state(device: Seq<char>, reason: Seq<char>, desired: bool)
    ensures
        line_words(Line::LoudnessWritten(desired), device, reason) == device
            + ": Loudness Equalization set to "@ + on_or_off(desired),
        line_words(Line::LoudnessSet { desired, live: true }, device, reason) == device
            + ": Loudness Equalization set to "@ + on_or_off(desired) + " ("@ + "applied live"@
            + ")"@,
        line_words(Line::LoudnessSet { desired, live: false }, device, reason) == device
            + ": Loudness Equalization set to "@ + on_or_off(desired) + " ("@
            + "applied — restart playback in running apps to hear it"@ + ")"@,
        line_words(Line::EffectSet { effect: Effect::Bass, desired, live: true }, device, reason)
            == device + ": "@ + "Bass Boost"@ + " set to "@ + on_or_off(desired) + " ("@
            + "applied live"@ + ")"@,
        line_words(Line::EffectSet { effect: Effect::Bass, desired, live: false }, device, reason)
            == device + ": "@ + "Bass Boost"@ + " set to "@ + on_or_off(desired) + " ("@
            + "applied — restart playback in running apps to hear it"@ + ")"@,
        line_words(
            Line::EffectSet { effect: Effect::Surround, desired, live: true },
            device,
            reason,
        ) == device + ": "@ + "Virtual Surround"@ + " set to "@ + on_or_off(desired) + " ("@
            + "applied live"@ + ")"@,
        line_words(
            Line::EffectSet { effect: Effect::Surround, desired, live: false },
            device,
            reason,
        ) == device + ": "@ + "Virtual Surround"@ + " set to "@ + on_or_off(desired) + " ("@
            + "applied — restart playback in running apps to hear it"@ + ")"@,
{
}

/// Numbers are told as they are: of stores, and of each parameter, the frequency
/// in Hz and the level in dB.
pub proof fn numbers_are_told(
    device: Seq<char>,
    reason: Seq<char>,
    n: usize,
    freq: i32,
    level: i32,
)
    ensures
        line_words(Line::StoresWritten(n), device, reason) == "instance user stores written: "@
            + decimal(n as nat),
        line_words(Line::BassParams(freq, level), device, reason) == "  frequency: "@ + decimal_int(
            freq as int,
        ) + " Hz   boost level: "@ + decimal_int(level as int) + " dB"@,
        line_words(Line::ParamSet(Param::Freq(freq)), device, reason) == device
            + ": Bass Boost frequency set to "@ + decimal_int(freq as int) + " Hz"@,
        line_words(Line::ParamSet(Param::Level(level)), device, reason) == device
            + ": Bass Boost level set to "@ + decimal_int(level as int) + " dB"@,
        line_words(Line::Sampling, device, reason) == "Sampling output level of "@ + device
            + " for 5 seconds — play some audio now..."@,
{
}

/// A failure is told with the words of the error that caused it, whole and
/// unchanged, wherever an error caused it.
pub proof fn reasons_are_told(device: Seq<char>, reason: Seq<char>)
    ensures
        line_words(Line::LiveFailed, device, reason) == "Live apply failed ("@ + reason
            + "); falling back to registry + service restart."@,
        problem_words(Problem::SetupFailed, reason) == reason,
        problem_words(Problem::MeterFailed, reason) == reason,
        problem_words(Problem::TrayFailed, reason) == reason,
        problem_words(Problem::RestartFailed, reason) == reason,
        problem_words(Problem::WriteFailed, reason) == "failed to write setting: "@ + reason,
        problem_words(Problem::EffectFailed, reason) == "live apply failed: "@ + reason
            + "\n(check the master \"Audio enhancements\" switch is on, or set it from the Enhancements tab)"@,
{
}

/// The other lines and failures do not depend on the device or on an error.
pub proof fn fixed_words_are_fixed(
    line: Line,
    problem: Problem,
    device: Seq<char>,
    reason: Seq<char>,
    other_device: Seq<char>,
    other_reason: Seq<char>,
)
    ensures
        !(line is LiveFailed) ==> line_words(line, device, reason) == line_words(
            line,
            device,
            other_reason,
        ),
        line is StoresWritten || line is LiveFailed || line is RegistryNeedsRights || line
            is RestartSkipped || line is Restarting || line is Restarted || line
            is RestartNeedsRights || line is SetupTip || line is SetupNeedsRights || line
            is BassParams || line is EnhancementsOn || line is BassIsOff || line is TrayStarted
            || line is TrayHint || line is ListFooter ==> line_words(line, device, reason)
            == line_words(line, other_device, reason),
        problem is StillNotElevated || problem is RegistryDenied || problem is RestartDenied
            || problem is FreqOutOfRange || problem is LevelOutOfRange || problem is NoSuchParam
            ==> problem_words(problem, reason) == problem_words(problem, other_reason),
{
}

/// The list tells of each device whether it is the default one, its name, and
/// its state.
pub proof fn list_tells_name_and_state(name: Seq<char>)
    ensures
        list_words(true, name, Some(true)) == "* "@ + name + "  —  Loudness Equalization: "@
            + "ON"@,
        list_words(true, name, Some(false)) == "* "@ + name + "  —  Loudness Equalization: "@
            + "OFF"@,
        list_words(true, name, None) == "* "@ + name + "  —  Loudness Equalization: "@
            + "OFF (never set)"@,
        list_words(false, name, Some(true)) == "  "@ + name + "  —  Loudness Equalization: "@
            + "ON"@,
        list_words(false, name, Some(false)) == "  "@ + name + "  —  Loudness Equalization: "@
            + "OFF"@,
        list_words(false, name, None) == "  "@ + name + "  —  Loudness Equalization: "@
            + "OFF (never set)"@,
{
}

/// A change is told on the console and in the transcript; an answer to a question,
/// and what leads to an elevated run, on the console alone; the number of stores
/// in the transcript alone.
pub proof fn changes_are_logged(line: Line)
    ensures
        line is LoudnessSet || line is LoudnessWritten || line is LiveFailed || line
            is RestartSkipped || line is Restarting || line is Restarted || line is EnhancementsOn
            || line is EffectSet || line is ParamSet || line is BassIsOff ==> channel_of(line)
            == Channel::Say,
        line is LoudnessIs || line is EffectIs || line is BassParams || line is Sampling || line
            is ListFooter || line is TrayStarted || line is TrayHint || line is RegistryNeedsRights
            || line is RestartNeedsRights || line is SetupTip || line is SetupNeedsRights
            ==> channel_of(line) == Channel::Print,
        line is StoresWritten ==> channel_of(line) == Channel::Log,
{
}

} // verus!
