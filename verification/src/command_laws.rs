//! What the words of a command line ask for, one by one and together.
use vstd::prelude::*;

use crate::cli::{
    no_options, reading, word_meaning, words, Action, FxOp, Invocation, InvocationView, Options,
    OptionsView, Word,
};
use crate::text::{int_value, lower};

verus! {

/// The words differ from each other.
proof fn lemma_meanings()
    ensures
        word_meaning("on"@) == Word::Command(Action::On),
        word_meaning("enable"@) == Word::Command(Action::On),
        word_meaning("off"@) == Word::Command(Action::Off),
        word_meaning("disable"@) == Word::Command(Action::Off),
        word_meaning("toggle"@) == Word::Command(Action::Toggle),
        word_meaning("status"@) == Word::Command(Action::Status),
        word_meaning("list"@) == Word::Command(Action::List),
        word_meaning("setup"@) == Word::Command(Action::Setup),
        word_meaning("meter"@) == Word::Command(Action::Meter),
        word_meaning("tray"@) == Word::Command(Action::Tray),
        word_meaning("bass"@) == Word::Bass,
        word_meaning("bassboost"@) == Word::Bass,
        word_meaning("surround"@) == Word::Surround,
        word_meaning("virtualsurround"@) == Word::Surround,
        word_meaning("-d"@) == Word::Device,
        word_meaning("--device"@) == Word::Device,
        word_meaning("--no-restart"@) == Word::NoRestart,
        word_meaning("--remove"@) == Word::Remove,
        word_meaning("--elevated"@) == Word::Elevated,
        word_meaning("-h"@) == Word::Help,
        word_meaning("--help"@) == Word::Help,
        word_meaning("help"@) == Word::Help,
{
    reveal_strlit("on");
    assert("on"@.len() == 2);
    reveal_strlit("enable");
    assert("enable"@.len() == 6);
    reveal_strlit("off");
    assert("off"@.len() == 3);
    reveal_strlit("disable");
    assert("disable"@.len() == 7);
    reveal_strlit("toggle");
    assert("toggle"@.len() == 6);
    reveal_strlit("status");
    assert("status"@.len() == 6);
    reveal_strlit("list");
    assert("list"@.len() == 4);
    reveal_strlit("setup");
    assert("setup"@.len() == 5);
    reveal_strlit("meter");
    assert("meter"@.len() == 5);
    reveal_strlit("tray");
    assert("tray"@.len() == 4);
    reveal_strlit("bass");
    assert("bass"@.len() == 4);
    reveal_strlit("bassboost");
    assert("bassboost"@.len() == 9);
    reveal_strlit("surround");
    assert("surround"@.len() == 8);
    reveal_strlit("virtualsurround");
    assert("virtualsurround"@.len() == 15);
    reveal_strlit("-d");
    assert("-d"@.len() == 2);
    reveal_strlit("--device");
    assert("--device"@.len() == 8);
    reveal_strlit("--no-restart");
    assert("--no-restart"@.len() == 12);
    reveal_strlit("--remove");
    assert("--remove"@.len() == 8);
    reveal_strlit("--elevated");
    assert("--elevated"@.len() == 10);
    reveal_strlit("-h");
    assert("-h"@.len() == 2);
    reveal_strlit("--help");
    assert("--help"@.len() == 6);
    reveal_strlit("help");
    assert("help"@.len() == 4);
    assert("on"@[0] == 'o');
    assert("enable"@[0] == 'e');
    assert("off"@[0] == 'o');
    assert("disable"@[0] == 'd');
    assert("toggle"@[0] == 't');
    assert("status"@[0] == 's');
    assert("list"@[0] == 'l');
    assert("setup"@[0] == 's');
    assert("meter"@[0] == 'm');
    assert("tray"@[0] == 't');
    assert("bass"@[0] == 'b');
    assert("bassboost"@[0] == 'b');
    assert("surround"@[0] == 's');
    assert("virtualsurround"@[0] == 'v');
    assert("-d"@[1] == 'd');
    assert("--device"@[2] == 'd');
    assert("--no-restart"@[2] == 'n');
    assert("--remove"@[2] == 'r');
    assert("--elevated"@[2] == 'e');
    assert("-h"@[1] == 'h');
    assert("--help"@[2] == 'h');
    assert("help"@[0] == 'h');
}

/// Without words nothing is asked for but a toggle on the default device.
pub proof fn no_words_ask_for_a_toggle(seen: OptionsView)
    ensures
        reading(seq![], seen) == Ok::<InvocationView, Seq<char>>(InvocationView::Run(seen)),
        no_options().action == Action::Toggle,
        no_options().device_filter is None,
        !no_options().no_restart,
        !no_options().remove,
        !no_options().elevated,
{
}

/// A command replaces the one before it and leaves the options as they are,
/// whatever stands behind it.
pub proof fn command_is_read(w: Seq<char>, rest: Seq<Seq<char>>, seen: OptionsView)
    ensures
        ({
            let line = seq![w] + rest;
            let l = lower(w);
            &&& l == "on"@ || l == "enable"@ ==> reading(line, seen) == reading(
                rest,
                OptionsView { action: Action::On, ..seen },
            )
            &&& l == "off"@ || l == "disable"@ ==> reading(line, seen) == reading(
                rest,
                OptionsView { action: Action::Off, ..seen },
            )
            &&& l == "toggle"@ ==> reading(line, seen) == reading(
                rest,
                OptionsView { action: Action::Toggle, ..seen },
            )
            &&& l == "status"@ ==> reading(line, seen) == reading(
                rest,
                OptionsView { action: Action::Status, ..seen },
            )
            &&& l == "list"@ ==> reading(line, seen) == reading(
                rest,
                OptionsView { action: Action::List, ..seen },
            )
            &&& l == "setup"@ ==> reading(line, seen) == reading(
                rest,
                OptionsView { action: Action::Setup, ..seen },
            )
            &&& l == "meter"@ ==> reading(line, seen) == reading(
                rest,
                OptionsView { action: Action::Meter, ..seen },
            )
            &&& l == "tray"@ ==> reading(line, seen) == reading(
                rest,
                OptionsView { action: Action::Tray, ..seen },
            )
        }),
{
    lemma_meanings();
    let line = seq![w] + rest;
    assert(line[0] == w);
    assert(line.skip(1) =~= rest);
}

/// An option adds to what was asked for and leaves the rest as it is. The word
/// behind the one for a device is the name, as it was given and whatever it is;
/// without one the line is refused. A call for help is answered at once.
pub proof fn option_is_read(
    w: Seq<char>,
    name: Seq<char>,
    rest: Seq<Seq<char>>,
    seen: OptionsView,
)
    ensures
        ({
            let line = seq![w] + rest;
            let l = lower(w);
            &&& l == "--no-restart"@ ==> reading(line, seen) == reading(
                rest,
                OptionsView { no_restart: true, ..seen },
            )
            &&& l == "--remove"@ ==> reading(line, seen) == reading(
                rest,
                OptionsView { remove: true, ..seen },
            )
            &&& l == "--elevated"@ ==> reading(line, seen) == reading(
                rest,
                OptionsView { elevated: true, ..seen },
            )
            &&& l == "-h"@ || l == "--help"@ || l == "help"@ ==> reading(line, seen) == Ok::<
                InvocationView,
                Seq<char>,
            >(InvocationView::Help)
            &&& l == "-d"@ || l == "--device"@ ==> reading(seq![w, name] + rest, seen) == reading(
                rest,
                OptionsView { device_filter: Some(name), ..seen },
            )
            &&& l == "-d"@ || l == "--device"@ ==> reading(seq![w], seen) == Err::<
                InvocationView,
                Seq<char>,
            >("--device requires a name (substring)"@)
        }),
{
    lemma_meanings();
    let line = seq![w] + rest;
    assert(line[0] == w);
    assert(line.skip(1) =~= rest);
    let named = seq![w, name] + rest;
    assert(named[0] == w && named[1] == name);
    assert(named.skip(2) =~= rest);
}

/// Any other word is refused, and named in lower case.
pub proof fn other_word_is_refused(w: Seq<char>, rest: Seq<Seq<char>>, seen: OptionsView)
    requires
        lower(w) != "on"@,
        lower(w) != "enable"@,
        lower(w) != "off"@,
        lower(w) != "disable"@,
        lower(w) != "toggle"@,
        lower(w) != "status"@,
        lower(w) != "list"@,
        lower(w) != "setup"@,
        lower(w) != "meter"@,
        lower(w) != "tray"@,
        lower(w) != "bass"@,
        lower(w) != "bassboost"@,
        lower(w) != "surround"@,
        lower(w) != "virtualsurround"@,
        lower(w) != "-d"@,
        lower(w) != "--device"@,
        lower(w) != "--no-restart"@,
        lower(w) != "--remove"@,
        lower(w) != "--elevated"@,
        lower(w) != "-h"@,
        lower(w) != "--help"@,
        lower(w) != "help"@,
    ensures
        reading(seq![w] + rest, seen) == Err::<InvocationView, Seq<char>>(
            "unknown argument: "@ + lower(w),
        ),
{
    assert((seq![w] + rest)[0] == w);
}

/// The action of an operation on Bass Boost or Virtual Surround.
pub open spec fn effect_action(bass: bool, op: FxOp) -> Action {
    if bass {
        Action::Bass(op)
    } else {
        Action::Surround(op)
    }
}

/// The word is that of Bass Boost, or that of Virtual Surround.
pub open spec fn names_effect(w: Seq<char>, bass: bool) -> bool {
    if bass {
        lower(w) == "bass"@ || lower(w) == "bassboost"@
    } else {
        lower(w) == "surround"@ || lower(w) == "virtualsurround"@
    }
}

/// The meaning of the word of an effect.
proof fn lemma_effect(w: Seq<char>, bass: bool)
    requires
        names_effect(w, bass),
    ensures
        word_meaning(lower(w)) == if bass {
            Word::Bass
        } else {
            Word::Surround
        },
{
    lemma_meanings();
}

/// The words behind an effect differ from each other.
proof fn lemma_operation_words()
    ensures
        "toggle"@.len() == 6,
        "on"@.len() == 2,
        "enable"@.len() == 6,
        "off"@.len() == 3,
        "disable"@.len() == 7,
        "status"@.len() == 6,
        "freq"@.len() == 4,
        "frequency"@.len() == 9,
        "level"@.len() == 5,
        "-d"@.len() == 2,
        "--device"@.len() == 8,
        "--no-restart"@.len() == 12,
        "-h"@.len() == 2,
        "--help"@.len() == 6,
        "toggle"@ != "enable"@,
        "toggle"@ != "status"@,
        "toggle"@ != "--help"@,
        "on"@ != "-d"@,
        "on"@ != "-h"@,
        "enable"@ != "status"@,
        "enable"@ != "--help"@,
        "status"@ != "--help"@,
{
    reveal_strlit("toggle");
    reveal_strlit("on");
    reveal_strlit("enable");
    reveal_strlit("off");
    reveal_strlit("disable");
    reveal_strlit("status");
    reveal_strlit("freq");
    reveal_strlit("frequency");
    reveal_strlit("level");
    reveal_strlit("-d");
    reveal_strlit("--device");
    reveal_strlit("--no-restart");
    reveal_strlit("-h");
    reveal_strlit("--help");
    assert("toggle"@[0] != "enable"@[0]);
    assert("toggle"@[0] != "status"@[0]);
    assert("toggle"@[0] != "--help"@[0]);
    assert("on"@[0] != "-d"@[0]);
    assert("on"@[0] != "-h"@[0]);
    assert("enable"@[0] != "status"@[0]);
    assert("enable"@[0] != "--help"@[0]);
    assert("status"@[0] != "--help"@[0]);
}

/// The word behind an effect says what becomes of it, in any case of its ASCII
/// letters; what stands behind that word is read on.
pub proof fn effect_word_is_read(
    bass: bool,
    w: Seq<char>,
    o: Seq<char>,
    rest: Seq<Seq<char>>,
    seen: OptionsView,
)
    requires
        names_effect(w, bass),
    ensures
        ({
            let line = seq![w, o] + rest;
            let l = lower(o);
            &&& reading(seq![w], seen) == Ok::<InvocationView, Seq<char>>(
                InvocationView::Run(
                    OptionsView { action: effect_action(bass, FxOp::Toggle), ..seen },
                ),
            )
            &&& l == "toggle"@ ==> reading(line, seen) == reading(
                rest,
                OptionsView { action: effect_action(bass, FxOp::Toggle), ..seen },
            )
            &&& l == "on"@ || l == "enable"@ ==> reading(line, seen) == reading(
                rest,
                OptionsView { action: effect_action(bass, FxOp::On), ..seen },
            )
            &&& l == "off"@ || l == "disable"@ ==> reading(line, seen) == reading(
                rest,
                OptionsView { action: effect_action(bass, FxOp::Off), ..seen },
            )
            &&& l == "status"@ ==> reading(line, seen) == reading(
                rest,
                OptionsView { action: effect_action(bass, FxOp::Status), ..seen },
            )
            &&& l == "-d"@ || l == "--device"@ || l == "--no-restart"@ || l == "-h"@ || l
                == "--help"@ ==> reading(line, seen) == reading(
                seq![o] + rest,
                OptionsView { action: effect_action(bass, FxOp::Toggle), ..seen },
            )
        }),
{
    lemma_effect(w, bass);
    lemma_operation_words();
    let line = seq![w, o] + rest;
    assert(line[0] == w);
    assert(line.skip(1) =~= seq![o] + rest);
    assert(line.skip(1)[0] == o);
    assert(line.skip(2) =~= rest);
    let one = seq![w];
    assert(one.skip(1) =~= Seq::empty());
    let now = OptionsView { action: effect_action(bass, FxOp::Toggle), ..seen };
    assert(reading(one.skip(1), now) == Ok::<InvocationView, Seq<char>>(InvocationView::Run(now)));
}

/// A parameter of Bass Boost is read as the number that is given, whatever it
/// is. A missing value, one that is no number, and a parameter of Virtual
/// Surround are refused; so is any other word, which is named in lower case.
pub proof fn effect_parameter_is_read(
    bass: bool,
    w: Seq<char>,
    o: Seq<char>,
    v: Seq<char>,
    rest: Seq<Seq<char>>,
    seen: OptionsView,
)
    requires
        names_effect(w, bass),
    ensures
        ({
            let line = seq![w, o, v] + rest;
            let l = lower(o);
            let freq = l == "freq"@ || l == "frequency"@;
            let level = l == "level"@;
            &&& bass && freq && int_value(v) is Some ==> reading(line, seen) == reading(
                rest,
                OptionsView { action: Action::Bass(FxOp::Freq(int_value(v)->0 as i32)), ..seen },
            )
            &&& bass && level && int_value(v) is Some ==> reading(line, seen) == reading(
                rest,
                OptionsView { action: Action::Bass(FxOp::Level(int_value(v)->0 as i32)), ..seen },
            )
            &&& bass && freq && int_value(v) is None ==> reading(line, seen) == Err::<
                InvocationView,
                Seq<char>,
            >("invalid frequency: "@ + v)
            &&& bass && level && int_value(v) is None ==> reading(line, seen) == Err::<
                InvocationView,
                Seq<char>,
            >("invalid level: "@ + v)
            &&& bass && freq ==> reading(seq![w, o], seen) == Err::<InvocationView, Seq<char>>(
                "`bass freq` needs a value in Hz (50-600)"@,
            )
            &&& bass && level ==> reading(seq![w, o], seen) == Err::<InvocationView, Seq<char>>(
                "`bass level` needs a value in dB (3-24)"@,
            )
            &&& (!bass || !freq && !level) && l != "toggle"@ && l != "on"@ && l != "enable"@ && l
                != "off"@ && l != "disable"@ && l != "status"@ && l != "-d"@ && l != "--device"@
                && l != "--no-restart"@ && l != "-h"@ && l != "--help"@ ==> reading(line, seen)
                == Err::<InvocationView, Seq<char>>("unknown sub-command: "@ + l)
        }),
{
    lemma_effect(w, bass);
    lemma_operation_words();
    let line = seq![w, o, v] + rest;
    assert(line[0] == w);
    assert(line.skip(1)[0] == o && line.skip(1)[1] == v);
    assert(line.skip(3) =~= rest);
    let short = seq![w, o];
    assert(short[0] == w && short.skip(1)[0] == o);
    assert(short.skip(1).len() == 1);
}

/// Options are seen whole, and so are the words of a command line, each at its
/// place.
pub proof fn options_are_seen_whole(options: Options, args: Seq<String>, i: int)
    requires
        0 <= i < args.len(),
    ensures
        options@.action == options.action,
        options@.device_filter is Some <==> options.device_filter is Some,
        options.device_filter is Some ==> options@.device_filter->0 == options.device_filter->0@,
        options@.no_restart == options.no_restart,
        options@.remove == options.remove,
        options@.elevated == options.elevated,
        Invocation::Run(options)@ == InvocationView::Run(options@),
        Invocation::Help@ == InvocationView::Help,
        words(args).len() == args.len(),
        words(args)[i] == args[i]@,
{
}

} // verus!
