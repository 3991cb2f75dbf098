//! Starting the program again with elevated rights.
use vstd::prelude::*;

use crate::cli::{
    fx_op, no_options, reading, word_meaning, words, Action, FxOp, InvocationView, OptionsView, Word,
};
use crate::run::may_elevate;
use crate::text::{lower, text_eq};

verus! {

/// The words other than the one that marks an elevated run.
pub open spec fn unmarked(args: Seq<Seq<char>>) -> Seq<Seq<char>>
    decreases args.len(),
{
    if args.len() == 0 {
        seq![]
    } else if args.last() == "--elevated"@ {
        unmarked(args.drop_last())
    } else {
        unmarked(args.drop_last()).push(args.last())
    }
}

/// The program's own arguments, without its name and without the mark of an
/// elevated run.
pub fn own_args(command_line: &Vec<String>) -> (r: Vec<String>)
    ensures
        words(r@) == if command_line@.len() == 0 {
            seq![]
        } else {
            unmarked(words(command_line@).skip(1))
        },
{
    let mut out: Vec<String> = Vec::new();
    assert(words(out@) =~= seq![]);
    if command_line.len() == 0 {
        return out;
    }
    let ghost all = words(command_line@).skip(1);
    assert(all.take(0) =~= seq![]);
    let mut i: usize = 1;
    while i < command_line.len()
        invariant
            all == words(command_line@).skip(1),
            1 <= i <= command_line@.len(),
            words(out@) == unmarked(all.take(i - 1)),
        decreases command_line@.len() - i,
    {
        let ghost before = out@;
        assert(all.take(i as int).drop_last() =~= all.take(i - 1));
        assert(all.take(i as int).last() == command_line@[i as int]@);
        if !text_eq(command_line[i].as_str(), "--elevated") {
            out.push(command_line[i].clone());
            assert(words(out@) =~= words(before).push(command_line@[i as int]@));
        }
        i += 1;
    }
    assert(all.take(i - 1) =~= all);
    out
}

/// The words that ask for a state of Loudness Equalization outright, on the
/// device that is meant.
pub open spec fn explicit_words(desired: bool, filter: Option<Seq<char>>) -> Seq<Seq<char>> {
    let state = if desired {
        "on"@
    } else {
        "off"@
    };
    match filter {
        Some(f) => seq![state, "--device"@, f],
        None => seq![state],
    }
}

/// The arguments for an elevated run that only has to bring about a state that
/// is settled already.
pub fn explicit_args(desired: bool, filter: &Option<String>) -> (r: Vec<String>)
    ensures
        words(r@) == explicit_words(
            desired,
            match *filter {
                Some(f) => Some(f@),
                None => None,
            },
        ),
{
    let mut out: Vec<String> = Vec::new();
    if desired {
        out.push("on".to_owned());
    } else {
        out.push("off".to_owned());
    }
    if let Some(f) = filter {
        out.push("--device".to_owned());
        out.push(f.clone());
    }
    assert(words(out@) =~= explicit_words(
        desired,
        match *filter {
            Some(f) => Some(f@),
            None => None,
        },
    ));
    out
}

/// Words in double quotes, each with a space behind it.
pub open spec fn quoted(args: Seq<Seq<char>>) -> Seq<char>
    decreases args.len(),
{
    if args.len() == 0 {
        seq![]
    } else {
        quoted(args.drop_last()) + "\""@ + args.last() + "\" "@
    }
}

/// The parameters of an elevated run: the arguments in double quotes, and the
/// mark of an elevated run behind them, with single spaces between.
pub fn elevated_params(args: &Vec<String>) -> (r: String)
    ensures
        r@ == quoted(words(args@)) + "--elevated"@,
{
    let ghost all = words(args@);
    let mut out = String::new();
    let mut i: usize = 0;
    assert(out@ =~= quoted(all.take(0)));
    while i < args.len()
        invariant
            all == words(args@),
            i <= args@.len(),
            out@ == quoted(all.take(i as int)),
        decreases args@.len() - i,
    {
        assert(all.take(i + 1).drop_last() =~= all.take(i as int));
        assert(all.take(i + 1).last() == args@[i as int]@);
        out.append("\"");
        out.append(args[i].as_str());
        out.append("\" ");
        i += 1;
    }
    assert(all.take(i as int) =~= all);
    out.append("--elevated");
    out
}

/// Whether the shell has started the program, by what it returned: small
/// numbers are error codes.
pub fn shell_started(handle: i64) -> (r: bool)
    ensures
        r == (handle > 32),
{
    handle > 32
}

/// Whether the program runs elevated, by what its token says. A token that
/// cannot be read counts as not elevated.
pub fn is_elevated(token: Option<u32>) -> (r: bool)
    ensures
        r == (token is Some && token->Some_0 != 0),
{
    match token {
        Some(flag) => flag != 0,
        None => false,
    }
}

/// What the words mean that a relaunch writes.
proof fn lemma_own_words()
    ensures
        word_meaning(lower("on"@)) == Word::Command(Action::On),
        word_meaning(lower("off"@)) == Word::Command(Action::Off),
        word_meaning(lower("--device"@)) == Word::Device,
        word_meaning(lower("--elevated"@)) == Word::Elevated,
{
    reveal_strlit("on");
    reveal_strlit("enable");
    reveal_strlit("off");
    reveal_strlit("disable");
    reveal_strlit("toggle");
    reveal_strlit("status");
    reveal_strlit("list");
    reveal_strlit("setup");
    reveal_strlit("meter");
    reveal_strlit("tray");
    reveal_strlit("bass");
    reveal_strlit("bassboost");
    reveal_strlit("surround");
    reveal_strlit("virtualsurround");
    reveal_strlit("-d");
    reveal_strlit("--device");
    reveal_strlit("--no-restart");
    reveal_strlit("--remove");
    reveal_strlit("--elevated");
    assert(lower("on"@) =~= "on"@);
    assert(lower("off"@) =~= "off"@);
    assert(lower("--device"@) =~= "--device"@);
    assert(lower("--elevated"@) =~= "--elevated"@);
    assert("--device"@[2] == 'd');
    assert("--elevated"@[2] == 'e');
    assert("off"@[1] == 'f');
}

/// An elevated run that is given a settled state understands exactly that: the
/// state, the device, and that it runs elevated. It never toggles again.
pub proof fn settled_state_is_understood(desired: bool, filter: Option<Seq<char>>)
    ensures
        reading(explicit_words(desired, filter).push("--elevated"@), no_options()) == Ok::<
            InvocationView,
            Seq<char>,
        >(
            InvocationView::Run(
                OptionsView {
                    action: if desired {
                        Action::On
                    } else {
                        Action::Off
                    },
                    device_filter: filter,
                    no_restart: false,
                    remove: false,
                    elevated: true,
                },
            ),
        ),
{
    lemma_own_words();
    let args = explicit_words(desired, filter).push("--elevated"@);
    let seen = OptionsView {
        action: if desired {
            Action::On
        } else {
            Action::Off
        },
        ..no_options()
    };
    let rest = args.skip(1);
    assert(reading(args, no_options()) == reading(rest, seen));
    let mark = seq!["--elevated"@];
    let asked = OptionsView { device_filter: filter, ..seen };
    if filter is Some {
        assert(rest[0] == "--device"@);
        assert(rest[1] == filter->Some_0);
        assert(rest.skip(2) =~= mark);
        assert(reading(rest, seen) == reading(mark, asked));
    } else {
        assert(rest =~= mark);
    }
    let marked = OptionsView { elevated: true, ..asked };
    assert(mark.skip(1) =~= seq![]);
    assert(reading(mark, asked) == reading(mark.skip(1), marked));
    assert(reading(mark.skip(1), marked) == Ok::<InvocationView, Seq<char>>(
        InvocationView::Run(marked),
    ));
}

/// The last command of a command line is "bass" or "surround" with nothing
/// behind it, so that a word put there would be taken for its operation.
pub open spec fn ends_bare(args: Seq<Seq<char>>) -> bool
    decreases args.len(),
{
    if args.len() == 0 {
        false
    } else {
        match word_meaning(lower(args[0])) {
            Word::Bass => args.len() == 1 || match fx_op(args.skip(1), true) {
                Ok((_, n)) => ends_bare(args.skip(1 + n)),
                Err(_) => false,
            },
            Word::Surround => args.len() == 1 || match fx_op(args.skip(1), false) {
                Ok((_, n)) => ends_bare(args.skip(1 + n)),
                Err(_) => false,
            },
            Word::Device => args.len() > 1 && ends_bare(args.skip(2)),
            _ => ends_bare(args.skip(1)),
        }
    }
}

/// A run that was asked for with "bass" or "surround" at the end toggles that
/// effect, and so never starts the program again.
pub proof fn bare_effect_is_not_elevated(
    args: Seq<Seq<char>>,
    seen: OptionsView,
    asked: OptionsView,
)
    requires
        reading(args, seen) == Ok::<InvocationView, Seq<char>>(InvocationView::Run(asked)),
        ends_bare(args),
    ensures
        asked.action == Action::Bass(FxOp::Toggle) || asked.action == Action::Surround(
            FxOp::Toggle,
        ),
        !may_elevate(asked.action),
    decreases args.len(),
{
    let rest = args.skip(1);
    match word_meaning(lower(args[0])) {
        Word::Command(action) => {
            bare_effect_is_not_elevated(rest, OptionsView { action, ..seen }, asked);
        },
        Word::Bass => {
            let (op, n) = fx_op(rest, true)->Ok_0;
            let now = OptionsView { action: Action::Bass(op), ..seen };
            if args.len() == 1 {
                assert(reading(rest, now) == Ok::<InvocationView, Seq<char>>(
                    InvocationView::Run(now),
                ));
            } else {
                bare_effect_is_not_elevated(args.skip(1 + n), now, asked);
            }
        },
        Word::Surround => {
            let (op, n) = fx_op(rest, false)->Ok_0;
            let now = OptionsView { action: Action::Surround(op), ..seen };
            if args.len() == 1 {
                assert(reading(rest, now) == Ok::<InvocationView, Seq<char>>(
                    InvocationView::Run(now),
                ));
            } else {
                bare_effect_is_not_elevated(args.skip(1 + n), now, asked);
            }
        },
        Word::Device => {
            bare_effect_is_not_elevated(
                args.skip(2),
                OptionsView { device_filter: Some(args[1]), ..seen },
                asked,
            );
        },
        Word::NoRestart => {
            bare_effect_is_not_elevated(rest, OptionsView { no_restart: true, ..seen }, asked);
        },
        Word::Remove => {
            bare_effect_is_not_elevated(rest, OptionsView { remove: true, ..seen }, asked);
        },
        Word::Elevated => {
            bare_effect_is_not_elevated(rest, OptionsView { elevated: true, ..seen }, asked);
        },
        Word::Help => {},
        Word::Unknown => {},
    }
}

/// The mark of an elevated run at the end of a command line changes nothing
/// else of what the command line asks for, unless it comes right behind "bass"
/// or "surround".
pub proof fn mark_keeps_the_request(args: Seq<Seq<char>>, seen: OptionsView, asked: OptionsView)
    requires
        reading(args, seen) == Ok::<InvocationView, Seq<char>>(InvocationView::Run(asked)),
        !ends_bare(args),
    ensures
        reading(args.push("--elevated"@), seen) == Ok::<InvocationView, Seq<char>>(
            InvocationView::Run(OptionsView { elevated: true, ..asked }),
        ),
    decreases args.len(), 1int,
{
    lemma_own_words();
    let longer = args.push("--elevated"@);
    if args.len() == 0 {
        assert(longer.skip(1) =~= seq![]);
        assert(reading(longer.skip(1), OptionsView { elevated: true, ..seen }) is Ok);
    } else {
        let rest = args.skip(1);
        assert(longer[0] == args[0]);
        assert(longer.skip(1) =~= rest.push("--elevated"@));
        match word_meaning(lower(args[0])) {
            Word::Command(action) => {
                mark_keeps_the_request(rest, OptionsView { action, ..seen }, asked);
            },
            Word::Bass => {
                lemma_mark_behind_op(args, seen, asked, true);
            },
            Word::Surround => {
                lemma_mark_behind_op(args, seen, asked, false);
            },
            Word::Device => {
                assert(longer[1] == args[1]);
                assert(longer.skip(2) =~= args.skip(2).push("--elevated"@));
                mark_keeps_the_request(
                    args.skip(2),
                    OptionsView { device_filter: Some(args[1]), ..seen },
                    asked,
                );
            },
            Word::NoRestart => {
                mark_keeps_the_request(rest, OptionsView { no_restart: true, ..seen }, asked);
            },
            Word::Remove => {
                mark_keeps_the_request(rest, OptionsView { remove: true, ..seen }, asked);
            },
            Word::Elevated => {
                mark_keeps_the_request(rest, OptionsView { elevated: true, ..seen }, asked);
            },
            Word::Help => {},
            Word::Unknown => {},
        }
    }
}

/// The same behind "bass" or "surround".
proof fn lemma_mark_behind_op(
    args: Seq<Seq<char>>,
    seen: OptionsView,
    asked: OptionsView,
    bass: bool,
)
    requires
        args.len() > 0,
        word_meaning(lower(args[0])) == if bass {
            Word::Bass
        } else {
            Word::Surround
        },
        reading(args, seen) == Ok::<InvocationView, Seq<char>>(InvocationView::Run(asked)),
        !ends_bare(args),
    ensures
        reading(args.push("--elevated"@), seen) == Ok::<InvocationView, Seq<char>>(
            InvocationView::Run(OptionsView { elevated: true, ..asked }),
        ),
    decreases args.len(), 0int,
{
    let longer = args.push("--elevated"@);
    let rest = args.skip(1);
    assert(longer[0] == args[0]);
    assert(longer.skip(1) =~= rest.push("--elevated"@));
    let (op, n) = fx_op(rest, bass)->Ok_0;
    let action = if bass {
        Action::Bass(op)
    } else {
        Action::Surround(op)
    };
    let now = OptionsView { action, ..seen };
    assert(rest.push("--elevated"@)[0] == rest[0]);
    if rest.len() > 1 {
        assert(rest.push("--elevated"@)[1] == rest[1]);
    }
    assert(fx_op(rest.push("--elevated"@), bass) == fx_op(rest, bass));
    assert(longer.skip(1 + n) =~= args.skip(1 + n).push("--elevated"@));
    mark_keeps_the_request(args.skip(1 + n), now, asked);
}

/// Where the mark does not come in a command line, the program's own arguments
/// are all of it behind the name.
proof fn lemma_unmarked(args: Seq<Seq<char>>)
    requires
        !args.contains("--elevated"@),
    ensures
        unmarked(args) == args,
    decreases args.len(),
{
    if args.len() > 0 {
        assert(args.contains(args.last()));
        assert(!args.drop_last().contains("--elevated"@)) by {
            if args.drop_last().contains("--elevated"@) {
                let i = choose|i: int| 0 <= i < args.len() - 1 && args.drop_last()[i] == "--elevated"@;
                assert(args[i] == "--elevated"@);
            }
        }
        lemma_unmarked(args.drop_last());
        assert(args.drop_last().push(args.last()) =~= args);
    }
}

/// A run that starts the program again with its own arguments asks for what it
/// was asked for itself, and only adds that the new run is elevated. It is not
/// marked as elevated itself, or it would not start the program again. The same
/// holds of any other command line that does not end with "bass" or "surround".
pub proof fn relaunch_keeps_the_request(args: Seq<Seq<char>>, asked: OptionsView)
    requires
        !args.contains("--elevated"@),
        reading(args, no_options()) == Ok::<InvocationView, Seq<char>>(InvocationView::Run(asked)),
        !ends_bare(args) || may_elevate(asked.action),
    ensures
        reading(unmarked(args).push("--elevated"@), no_options()) == Ok::<InvocationView, Seq<char>>(
            InvocationView::Run(OptionsView { elevated: true, ..asked }),
        ),
{
    lemma_unmarked(args);
    if ends_bare(args) {
        bare_effect_is_not_elevated(args, no_options(), asked);
    }
    mark_keeps_the_request(args, no_options(), asked);
}

/// The program's own arguments are its words, in their order and unchanged, but
/// for every mark of an elevated run.
pub proof fn own_words_are_kept(a: Seq<Seq<char>>, b: Seq<Seq<char>>, w: Seq<char>)
    ensures
        unmarked(a + b) == unmarked(a) + unmarked(b),
        unmarked(seq![]) == Seq::<Seq<char>>::empty(),
        unmarked(seq!["--elevated"@]) == Seq::<Seq<char>>::empty(),
        w != "--elevated"@ ==> unmarked(seq![w]) == seq![w],
    decreases b.len(),
{
    reveal_with_fuel(unmarked, 2);
    if b.len() == 0 {
        assert(a + b =~= a);
        assert(unmarked(a) + unmarked(b) =~= unmarked(a));
    } else {
        own_words_are_kept(a, b.drop_last(), w);
        assert((a + b).drop_last() =~= a + b.drop_last());
        assert((a + b).last() == b.last());
        assert(unmarked(a + b) =~= unmarked(a) + unmarked(b));
    }
    let one = seq![w];
    assert(one.drop_last() =~= Seq::empty());
    assert(w != "--elevated"@ ==> unmarked(one) =~= seq![w]);
    let mark = seq!["--elevated"@];
    assert(mark.drop_last() =~= Seq::empty());
}

/// Each argument of an elevated run stands in double quotes with a space behind
/// it, unchanged and in its order.
pub proof fn arguments_are_quoted_one_by_one(a: Seq<Seq<char>>, b: Seq<Seq<char>>, w: Seq<char>)
    ensures
        quoted(a + b) == quoted(a) + quoted(b),
        quoted(seq![]) == Seq::<char>::empty(),
        quoted(seq![w]) == seq!['"'] + w + seq!['"', ' '],
    decreases b.len(),
{
    reveal_with_fuel(quoted, 2);
    reveal_strlit("\"");
    reveal_strlit("\" ");
    if b.len() == 0 {
        assert(a + b =~= a);
        assert(quoted(a) + quoted(b) =~= quoted(a));
    } else {
        arguments_are_quoted_one_by_one(a, b.drop_last(), w);
        assert((a + b).drop_last() =~= a + b.drop_last());
        assert((a + b).last() == b.last());
        assert(quoted(a + b) =~= quoted(a) + quoted(b));
    }
    let one = seq![w];
    assert(one.drop_last() =~= Seq::empty());
    assert(quoted(one) =~= seq!['"'] + w + seq!['"', ' ']);
}

/// A settled state is asked for by its word, and the device by its filter, as it
/// was given.
pub proof fn settled_state_is_spelled_out(filter: Seq<char>)
    ensures
        explicit_words(true, None) == seq!["on"@],
        explicit_words(false, None) == seq!["off"@],
        explicit_words(true, Some(filter)) == seq!["on"@, "--device"@, filter],
        explicit_words(false, Some(filter)) == seq!["off"@, "--device"@, filter],
{
}

} // verus!
