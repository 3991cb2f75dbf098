//! The command line.
use vstd::prelude::*;

use crate::text::{int_value, lower, parse_i32, text_eq, to_ascii_lowercase};

verus! {

/// How the program is used.
pub const USAGE: &'static str = "loudeq — toggle Windows Loudness Equalization

USAGE:
    loudeq [COMMAND] [OPTIONS]

COMMANDS:
    toggle      Flip Loudness Equalization on the default playback device (default)
    on          Enable it
    off         Disable it
    status      Show the current state
    list        List active playback devices and their state
    bass [on|off|status]        Toggle Bass Boost (default: toggle)
    bass freq <Hz>              Set Bass Boost cutoff frequency (50-600)
    bass level <dB>             Set Bass Boost level (3,6,9,12,15,18,21,24)
    surround [on|off|status]    Toggle Virtual Surround (default: toggle)
    meter       Sample the device's output level for 5 s (verify the effect)
    tray        Start the tray app (loudeq-tray.exe): icon shows the state,
                click toggles
    setup       One-time UAC-free fallback setup: allow your user to restart
                the audio service. `setup --remove` restores the permissions.

OPTIONS:
    -d, --device <NAME>   Target a device by name substring instead of the default one
    --no-restart          Fallback path only: write the setting but skip the
                          audio service restart
    -h, --help            Show this help

Changes apply live (like the Sound control panel), no admin rights needed.
If the live path fails, loudeq falls back to registry + audio service restart,
which asks for elevation — run `loudeq setup` once to make that UAC-free too.";

/// What a Bass Boost or Virtual Surround command does. A frequency and a level
/// are for Bass Boost alone.
#[derive(Clone, Copy, Debug, PartialEq, Eq, Structural)]
pub enum FxOp {
    Toggle,
    On,
    Off,
    Status,
    Freq(i32),
    Level(i32),
}

/// What the program is asked to do.
#[derive(Clone, Copy, Debug, PartialEq, Eq, Structural)]
pub enum Action {
    Toggle,
    On,
    Off,
    Status,
    List,
    Setup,
    Meter,
    Tray,
    Bass(FxOp),
    Surround(FxOp),
}

/// The options of a run.
#[derive(Debug)]
pub struct Options {
    pub action: Action,
    /// Part of the name of the device that is meant, instead of the default one.
    pub device_filter: Option<String>,
    /// On the fallback path, do not restart the audio service.
    pub no_restart: bool,
    /// Undo the setup.
    pub remove: bool,
    /// The program was started by itself, with elevated rights.
    pub elevated: bool,
}

/// What a command line asks for.
#[derive(Debug)]
pub enum Invocation {
    Run(Options),
    Help,
}

/// Options as contracts see them.
pub struct OptionsView {
    pub action: Action,
    pub device_filter: Option<Seq<char>>,
    pub no_restart: bool,
    pub remove: bool,
    pub elevated: bool,
}

impl View for Options {
    type V = OptionsView;

    open spec fn view(&self) -> OptionsView {
        OptionsView {
            action: self.action,
            device_filter: match self.device_filter {
                Some(f) => Some(f@),
                None => None,
            },
            no_restart: self.no_restart,
            remove: self.remove,
            elevated: self.elevated,
        }
    }
}

/// What a command line asks for, as contracts see it.
pub enum InvocationView {
    Run(OptionsView),
    Help,
}

impl View for Invocation {
    type V = InvocationView;

    open spec fn view(&self) -> InvocationView {
        match self {
            Invocation::Run(options) => InvocationView::Run(options@),
            Invocation::Help => InvocationView::Help,
        }
    }
}

/// What a word of the command line means.
#[derive(Clone, Copy, Debug, PartialEq, Eq, Structural)]
pub enum Word {
    Command(Action),
    Bass,
    Surround,
    Device,
    NoRestart,
    Remove,
    Elevated,
    Help,
    Unknown,
}

/// The meaning of a lower-case word.
pub open spec fn word_meaning(w: Seq<char>) -> Word {
    if w == "on"@ || w == "enable"@ {
        Word::Command(Action::On)
    } else if w == "off"@ || w == "disable"@ {
        Word::Command(Action::Off)
    } else if w == "toggle"@ {
        Word::Command(Action::Toggle)
    } else if w == "status"@ {
        Word::Command(Action::Status)
    } else if w == "list"@ {
        Word::Command(Action::List)
    } else if w == "setup"@ {
        Word::Command(Action::Setup)
    } else if w == "meter"@ {
        Word::Command(Action::Meter)
    } else if w == "tray"@ {
        Word::Command(Action::Tray)
    } else if w == "bass"@ || w == "bassboost"@ {
        Word::Bass
    } else if w == "surround"@ || w == "virtualsurround"@ {
        Word::Surround
    } else if w == "-d"@ || w == "--device"@ {
        Word::Device
    } else if w == "--no-restart"@ {
        Word::NoRestart
    } else if w == "--remove"@ {
        Word::Remove
    } else if w == "--elevated"@ {
        Word::Elevated
    } else if w == "-h"@ || w == "--help"@ || w == "help"@ {
        Word::Help
    } else {
        Word::Unknown
    }
}

/// The lower-case word is an option of every command, as the usage lists them.
/// The one that goes with "setup", and the mark of an elevated run, are not.
pub open spec fn is_option(w: Seq<char>) -> bool {
    w == "-d"@ || w == "--device"@ || w == "--no-restart"@ || w == "-h"@ || w == "--help"@
}

/// The operation that stands behind "bass" or "surround", with the number of
/// words that it takes. Where there is none, because nothing or an option
/// follows, the effect is toggled. Only Bass Boost has parameters.
pub open spec fn fx_op(args: Seq<Seq<char>>, params: bool) -> Result<(FxOp, int), Seq<char>> {
    if args.len() == 0 || is_option(lower(args[0])) {
        Ok((FxOp::Toggle, 0))
    } else {
        let w = lower(args[0]);
        if w == "toggle"@ {
            Ok((FxOp::Toggle, 1))
        } else if w == "on"@ || w == "enable"@ {
            Ok((FxOp::On, 1))
        } else if w == "off"@ || w == "disable"@ {
            Ok((FxOp::Off, 1))
        } else if w == "status"@ {
            Ok((FxOp::Status, 1))
        } else if (w == "freq"@ || w == "frequency"@) && params {
            if args.len() == 1 {
                Err("`bass freq` needs a value in Hz (50-600)"@)
            } else {
                match int_value(args[1]) {
                    Some(v) => Ok((FxOp::Freq(v as i32), 2)),
                    None => Err("invalid frequency: "@ + args[1]),
                }
            }
        } else if w == "level"@ && params {
            if args.len() == 1 {
                Err("`bass level` needs a value in dB (3-24)"@)
            } else {
                match int_value(args[1]) {
                    Some(v) => Ok((FxOp::Level(v as i32), 2)),
                    None => Err("invalid level: "@ + args[1]),
                }
            }
        } else {
            Err("unknown sub-command: "@ + w)
        }
    }
}

/// The options before any word is read. Without a command the effect is
/// toggled.
pub open spec fn no_options() -> OptionsView {
    OptionsView {
        action: Action::Toggle,
        device_filter: None,
        no_restart: false,
        remove: false,
        elevated: false,
    }
}

/// What the words that are left ask for, behind words that asked for `seen`.
/// Each word replaces or adds to what was asked for before it.
pub open spec fn reading(args: Seq<Seq<char>>, seen: OptionsView) -> Result<
    InvocationView,
    Seq<char>,
>
    decreases args.len(),
{
    if args.len() == 0 {
        Ok(InvocationView::Run(seen))
    } else {
        let rest = args.skip(1);
        match word_meaning(lower(args[0])) {
            Word::Command(action) => reading(rest, OptionsView { action, ..seen }),
            Word::Bass => match fx_op(rest, true) {
                Ok((op, n)) => reading(
                    args.skip(1 + n),
                    OptionsView { action: Action::Bass(op), ..seen },
                ),
                Err(e) => Err(e),
            },
            Word::Surround => match fx_op(rest, false) {
                Ok((op, n)) => reading(
                    args.skip(1 + n),
                    OptionsView { action: Action::Surround(op), ..seen },
                ),
                Err(e) => Err(e),
            },
            Word::Device => if args.len() == 1 {
                Err("--device requires a name (substring)"@)
            } else {
                reading(args.skip(2), OptionsView { device_filter: Some(args[1]), ..seen })
            },
            Word::NoRestart => reading(rest, OptionsView { no_restart: true, ..seen }),
            Word::Remove => reading(rest, OptionsView { remove: true, ..seen }),
            Word::Elevated => reading(rest, OptionsView { elevated: true, ..seen }),
            Word::Help => Ok(InvocationView::Help),
            Word::Unknown => Err("unknown argument: "@ + lower(args[0])),
        }
    }
}

/// The words of a command line as contracts see them.
pub open spec fn words(args: Seq<String>) -> Seq<Seq<char>> {
    args.map_values(|s: String| s@)
}

/// The meaning of a lower-case word.
fn meaning(w: &str) -> (r: Word)
    ensures
        r == word_meaning(w@),
{
    if text_eq(w, "on") || text_eq(w, "enable") {
        Word::Command(Action::On)
    } else if text_eq(w, "off") || text_eq(w, "disable") {
        Word::Command(Action::Off)
    } else if text_eq(w, "toggle") {
        Word::Command(Action::Toggle)
    } else if text_eq(w, "status") {
        Word::Command(Action::Status)
    } else if text_eq(w, "list") {
        Word::Command(Action::List)
    } else if text_eq(w, "setup") {
        Word::Command(Action::Setup)
    } else if text_eq(w, "meter") {
        Word::Command(Action::Meter)
    } else if text_eq(w, "tray") {
        Word::Command(Action::Tray)
    } else if text_eq(w, "bass") || text_eq(w, "bassboost") {
        Word::Bass
    } else if text_eq(w, "surround") || text_eq(w, "virtualsurround") {
        Word::Surround
    } else if text_eq(w, "-d") || text_eq(w, "--device") {
        Word::Device
    } else if text_eq(w, "--no-restart") {
        Word::NoRestart
    } else if text_eq(w, "--remove") {
        Word::Remove
    } else if text_eq(w, "--elevated") {
        Word::Elevated
    } else if text_eq(w, "-h") || text_eq(w, "--help") || text_eq(w, "help") {
        Word::Help
    } else {
        Word::Unknown
    }
}

/// Whether a lower-case word is an option.
fn names_option(w: &str) -> (r: bool)
    ensures
        r == is_option(w@),
{
    text_eq(w, "-d") || text_eq(w, "--device") || text_eq(w, "--no-restart") || text_eq(w, "-h")
        || text_eq(w, "--help")
}

/// `what` with a word behind it.
fn complaint(what: &str, word: &str) -> (r: String)
    ensures
        r@ == what@ + word@,
{
    let mut out: String = what.to_owned();
    out.append(word);
    out
}

/// Reads the operation that stands behind "bass" or "surround", from position
/// `from` on, and says how many words it takes.
pub fn parse_fx_op(args: &Vec<String>, from: usize, allow_params: bool) -> (r: Result<
    (FxOp, usize),
    String,
>)
    requires
        from <= args@.len(),
    ensures
        match (fx_op(words(args@).skip(from as int), allow_params), r) {
            (Ok((op, n)), Ok((o, k))) => o == op && k == n,
            (Err(e), Err(message)) => message@ == e,
            _ => false,
        },
{
    if from == args.len() {
        return Ok((FxOp::Toggle, 0));
    }
    let ghost rest = words(args@).skip(from as int);
    assert(rest[0] == args@[from as int]@);
    let lowered: String = to_ascii_lowercase(args[from].as_str());
    let w: &str = lowered.as_str();
    if names_option(w) {
        Ok((FxOp::Toggle, 0))
    } else if text_eq(w, "toggle") {
        Ok((FxOp::Toggle, 1))
    } else if text_eq(w, "on") || text_eq(w, "enable") {
        Ok((FxOp::On, 1))
    } else if text_eq(w, "off") || text_eq(w, "disable") {
        Ok((FxOp::Off, 1))
    } else if text_eq(w, "status") {
        Ok((FxOp::Status, 1))
    } else if (text_eq(w, "freq") || text_eq(w, "frequency")) && allow_params {
        if args.len() - from == 1 {
            Err("`bass freq` needs a value in Hz (50-600)".to_owned())
        } else {
            assert(rest[1] == args@[from + 1]@);
            match parse_i32(args[from + 1].as_str()) {
                Some(v) => Ok((FxOp::Freq(v), 2)),
                None => Err(complaint("invalid frequency: ", args[from + 1].as_str())),
            }
        }
    } else if text_eq(w, "level") && allow_params {
        if args.len() - from == 1 {
            Err("`bass level` needs a value in dB (3-24)".to_owned())
        } else {
            assert(rest[1] == args@[from + 1]@);
            match parse_i32(args[from + 1].as_str()) {
                Some(v) => Ok((FxOp::Level(v), 2)),
                None => Err(complaint("invalid level: ", args[from + 1].as_str())),
            }
        }
    } else {
        Err(complaint("unknown sub-command: ", w))
    }
}

/// Reads a command line, without the name of the program.
pub fn parse_args(args: &Vec<String>) -> (r: Result<Invocation, String>)
    ensures
        match (reading(words(args@), no_options()), r) {
            (Ok(asked), Ok(invocation)) => invocation@ == asked,
            (Err(e), Err(message)) => message@ == e,
            _ => false,
        },
{
    let ghost all = words(args@);
    let mut options = Options {
        action: Action::Toggle,
        device_filter: None,
        no_restart: false,
        remove: false,
        elevated: false,
    };
    let mut i: usize = 0;
    assert(all.skip(0) =~= all);
    while i < args.len()
        invariant
            all == words(args@),
            i <= args@.len(),
            reading(all.skip(i as int), options@) == reading(all, no_options()),
        decreases args@.len() - i,
    {
        let ghost here = all.skip(i as int);
        assert(here[0] == args@[i as int]@);
        assert(here.skip(1) =~= all.skip(i + 1));
        let lowered: String = to_ascii_lowercase(args[i].as_str());
        match meaning(lowered.as_str()) {
            Word::Command(action) => {
                options.action = action;
            },
            Word::Bass => {
                match parse_fx_op(args, i + 1, true) {
                    Ok((op, n)) => {
                        options.action = Action::Bass(op);
                        assert(here.skip(1 + n) =~= all.skip(i + 1 + n));
                        i += n;
                    },
                    Err(message) => return Err(message),
                }
            },
            Word::Surround => {
                match parse_fx_op(args, i + 1, false) {
                    Ok((op, n)) => {
                        options.action = Action::Surround(op);
                        assert(here.skip(1 + n) =~= all.skip(i + 1 + n));
                        i += n;
                    },
                    Err(message) => return Err(message),
                }
            },
            Word::Device => {
                if args.len() - i == 1 {
                    return Err("--device requires a name (substring)".to_owned());
                }
                assert(here[1] == args@[i + 1]@);
                assert(here.skip(2) =~= all.skip(i + 2));
                options.device_filter = Some(args[i + 1].clone());
                i += 1;
            },
            Word::NoRestart => {
                options.no_restart = true;
            },
            Word::Remove => {
                options.remove = true;
            },
            Word::Elevated => {
                options.elevated = true;
            },
            Word::Help => return Ok(Invocation::Help),
            Word::Unknown => return Err(complaint("unknown argument: ", lowered.as_str())),
        }
        i += 1;
    }
    Ok(Invocation::Run(options))
}

/// An option right behind "bass" or "surround" leaves the effect to be toggled
/// and is read as an option.
pub proof fn option_behind_an_effect_is_read(
    args: Seq<Seq<char>>,
    seen: OptionsView,
    params: bool,
)
    requires
        args.len() > 1,
        is_option(lower(args[1])),
    ensures
        fx_op(args.skip(1), params) == Ok::<(FxOp, int), Seq<char>>((FxOp::Toggle, 0)),
        word_meaning(lower(args[0])) is Bass ==> reading(args, seen) == reading(
            args.skip(1),
            OptionsView { action: Action::Bass(FxOp::Toggle), ..seen },
        ),
        word_meaning(lower(args[0])) is Surround ==> reading(args, seen) == reading(
            args.skip(1),
            OptionsView { action: Action::Surround(FxOp::Toggle), ..seen },
        ),
{
    assert(args.skip(1)[0] == args[1]);
}

/// The case of ASCII letters in a command or an option does not matter, and
/// neither does it behind "bass" or "surround".
pub proof fn word_case_does_not_matter(
    args: Seq<Seq<char>>,
    word: Seq<char>,
    seen: OptionsView,
    params: bool,
)
    requires
        args.len() > 0,
        lower(word) == lower(args[0]),
    ensures
        reading(args.update(0, word), seen) == reading(args, seen),
        fx_op(args.update(0, word), params) == fx_op(args, params),
{
    let other = args.update(0, word);
    assert forall|k: int| 1 <= k <= args.len() implies #[trigger] other.skip(k) == args.skip(k) by {
        assert(other.skip(k) =~= args.skip(k));
    }
    assert(other.skip(1) == args.skip(1));
}

} // verus!
