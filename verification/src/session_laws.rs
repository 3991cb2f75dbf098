//! What a session with the policy service asks for, from its beginning to its
//! end: which calls, in which order, and which effect instance each of them is
//! about.
use vstd::prelude::*;

use crate::fx::{sysfx_disabled, FxView};
use crate::guid::{guid_text, guid_value, is_hex, is_hyphen_place};
use crate::property::{Payload, PropVariant, Property};
use crate::session::{
    guids_of, loudness_calls, release_time_calls, session_ends, step_keeps_session_valid, steps_left,
    stores_written, PolicyCall, PropertyWrite, SessionCommand, SessionView, Stage,
};
use crate::strip::Edge;
use crate::text_laws::stripping_keeps_the_middle;

verus! {

/// The commands of a session whose calls succeed or fail as `answers` says,
/// given the stage and the place of each call.
pub open spec fn commands(s: SessionView, answers: spec_fn(Stage, int) -> bool) -> Seq<
    SessionCommand,
>
    decreases steps_left(s),
    when s.wf()
    via commands_decreases
{
    if s.ended() {
        seq![s.asks()]
    } else {
        seq![s.asks()] + commands(s.next(answers(s.stage, s.at)), answers)
    }
}

#[via_fn]
proof fn commands_decreases(s: SessionView, answers: spec_fn(Stage, int) -> bool) {
    if !s.ended() {
        session_ends(s, answers(s.stage, s.at));
        step_keeps_session_valid(s, answers(s.stage, s.at));
    }
}

/// The commands for one effect instance: its own store is activated, its user
/// part opened, written and committed, as far as the calls before succeed.
pub open spec fn store_commands(
    guid: u128,
    write: PropertyWrite,
    activated: bool,
    opened: bool,
    written: bool,
) -> Seq<SessionCommand> {
    let activate = SessionCommand::Activate(PropVariant { vt: 72, payload: Payload::Clsid(guid) });
    if !activated {
        seq![activate]
    } else if !opened {
        seq![activate, SessionCommand::OpenUserStore]
    } else if !written {
        seq![activate, SessionCommand::OpenUserStore, SessionCommand::SetUser(write)]
    } else {
        seq![
            activate,
            SessionCommand::OpenUserStore,
            SessionCommand::SetUser(write),
            SessionCommand::Commit,
        ]
    }
}

/// The commands for the effect instances from the one at place `k` on.
pub open spec fn stores_commands(
    guids: Seq<u128>,
    write: PropertyWrite,
    answers: spec_fn(Stage, int) -> bool,
    k: int,
) -> Seq<SessionCommand>
    decreases guids.len() - k,
{
    if k >= guids.len() {
        seq![]
    } else {
        store_commands(
            guids[k],
            write,
            answers(Stage::Activate, k),
            answers(Stage::OpenStore, k),
            answers(Stage::SetUser, k),
        ) + stores_commands(guids, write, answers, k + 1)
    }
}

/// One step of a session.
proof fn lemma_step(s: SessionView, answers: spec_fn(Stage, int) -> bool)
    requires
        s.wf(),
        !s.ended(),
    ensures
        s.next(answers(s.stage, s.at)).wf(),
        commands(s, answers) == seq![s.asks()] + commands(s.next(answers(s.stage, s.at)), answers),
{
    step_keeps_session_valid(s, answers(s.stage, s.at));
}

/// The commands of a session from the store of an instance on.
proof fn lemma_store_commands(s: SessionView, answers: spec_fn(Stage, int) -> bool)
    requires
        s.wf(),
        s.stage == Stage::Activate,
        s.wrote == stores_written(answers, s.at),
        s.instances.len() <= usize::MAX,
    ensures
        commands(s, answers) == stores_commands(s.instances, s.user->0, answers, s.at) + seq![
            SessionCommand::Finish(
                stores_written(answers, s.instances.len() as int) as usize,
            ),
        ],
    decreases s.instances.len() - s.at,
{
    let at = s.at;
    let write = s.user->0;
    let activate = s.asks();
    let a = answers(Stage::Activate, at);
    let o = answers(Stage::OpenStore, at);
    let w = answers(Stage::SetUser, at);
    lemma_step(s, answers);
    let s1 = s.next(a);
    let head = store_commands(s.instances[at], write, a, o, w);
    let last = if !a {
        s1
    } else {
        lemma_step(s1, answers);
        let s2 = s1.next(o);
        if !o {
            s2
        } else {
            lemma_step(s2, answers);
            let s3 = s2.next(w);
            if !w {
                s3
            } else {
                lemma_step(s3, answers);
                s3.next(answers(Stage::Commit, at))
            }
        }
    };
    assert(commands(s, answers) =~= head + commands(last, answers));
    assert(last.wrote == stores_written(answers, at + 1));
    let finish = seq![
        SessionCommand::Finish(stores_written(answers, s.instances.len() as int) as usize),
    ];
    if last.stage == Stage::Activate {
        lemma_store_commands(last, answers);
        assert(commands(s, answers) =~= stores_commands(s.instances, write, answers, at) + finish);
    } else {
        assert(commands(last, answers) =~= finish);
        assert(stores_commands(s.instances, write, answers, at + 1) =~= Seq::empty());
        assert(commands(s, answers) =~= stores_commands(s.instances, write, answers, at) + finish);
    }
}

/// The policy calls from the one that a session stands at on, where they all
/// succeed.
proof fn lemma_call_commands(s: SessionView, answers: spec_fn(Stage, int) -> bool)
    requires
        s.wf(),
        s.stage == Stage::Call,
        forall|i: int| s.at <= i < s.calls.len() ==> #[trigger] answers(Stage::Call, i),
    ensures
        ({
            let after = s.moved(
                if s.user is Some {
                    Stage::Enumerate
                } else {
                    Stage::Done
                },
                0,
                0,
            );
            &&& after.wf()
            &&& commands(s, answers) == s.calls.skip(s.at).map_values(
                |c: PolicyCall| SessionCommand::Policy(c),
            ) + commands(after, answers)
        }),
    decreases s.calls.len() - s.at,
{
    lemma_step(s, answers);
    assert(answers(Stage::Call, s.at));
    let n = s.next(true);
    let rest = s.calls.skip(s.at);
    let asked = rest.map_values(|c: PolicyCall| SessionCommand::Policy(c));
    assert(asked[0] == SessionCommand::Policy(s.calls[s.at]));
    if n.stage == Stage::Call {
        lemma_call_commands(n, answers);
        assert(rest.skip(1) =~= s.calls.skip(n.at));
        assert(asked =~= seq![asked[0]] + s.calls.skip(n.at).map_values(
            |c: PolicyCall| SessionCommand::Policy(c),
        ));
        assert(commands(s, answers) =~= asked + commands(
            n.moved(
                if s.user is Some {
                    Stage::Enumerate
                } else {
                    Stage::Done
                },
                0,
                0,
            ),
            answers,
        ));
    } else {
        assert(asked =~= seq![asked[0]]);
    }
}

/// A session connects, makes its policy calls in their order, and, where there
/// is something to write to user stores, opens the endpoint and goes through the
/// effect instances in their order, each one once and under its own identifier.
/// It ends with the number of stores that were written.
pub proof fn session_asks_in_order(
    id: Seq<u16>,
    calls: Seq<PolicyCall>,
    user: Option<PropertyWrite>,
    guids: Seq<u128>,
    answers: spec_fn(Stage, int) -> bool,
)
    requires
        calls.len() > 0,
        guids.len() <= usize::MAX,
        answers(Stage::Connect, 0),
        forall|i: int| 0 <= i < calls.len() ==> #[trigger] answers(Stage::Call, i),
        user is Some ==> answers(Stage::Enumerate, 0) && answers(Stage::OpenDevice, 0),
    ensures
        commands(SessionView::fresh(id, calls, user, guids), answers) == seq![
            SessionCommand::ConnectPolicy,
        ] + calls.map_values(|c: PolicyCall| SessionCommand::Policy(c)) + if user is Some {
            seq![SessionCommand::ConnectEnumerator, SessionCommand::OpenDevice]
                + stores_commands(guids, user->0, answers, 0) + seq![
                SessionCommand::Finish(stores_written(answers, guids.len() as int) as usize),
            ]
        } else {
            seq![SessionCommand::Finish(0)]
        },
{
    let s = SessionView::fresh(id, calls, user, guids);
    lemma_step(s, answers);
    let s1 = s.next(true);
    lemma_call_commands(s1, answers);
    assert(calls.skip(0) =~= calls);
    let asked = calls.map_values(|c: PolicyCall| SessionCommand::Policy(c));
    if user is Some {
        let s2 = s1.moved(Stage::Enumerate, 0, 0);
        lemma_step(s2, answers);
        let s3 = s2.next(true);
        lemma_step(s3, answers);
        let s4 = s3.next(true);
        let finish = seq![
            SessionCommand::Finish(stores_written(answers, guids.len() as int) as usize),
        ];
        if guids.len() > 0 {
            lemma_store_commands(s4, answers);
        } else {
            assert(commands(s4, answers) =~= finish);
        }
        let stores = stores_commands(guids, user->0, answers, 0);
        assert(commands(s4, answers) =~= stores + finish);
        assert(commands(s, answers) =~= seq![SessionCommand::ConnectPolicy] + asked + (seq![
            SessionCommand::ConnectEnumerator,
            SessionCommand::OpenDevice,
        ] + stores + finish));
    } else {
        let s2 = s1.moved(Stage::Done, 0, 0);
        assert(commands(s2, answers) =~= seq![SessionCommand::Finish(0)]);
        assert(commands(s, answers) =~= seq![SessionCommand::ConnectPolicy] + asked + seq![
            SessionCommand::Finish(0),
        ]);
    }
}

/// The identifiers of the instances whose store is activated, in order.
pub open spec fn activated(asked: Seq<SessionCommand>) -> Seq<u128>
    decreases asked.len(),
{
    if asked.len() == 0 {
        seq![]
    } else {
        match asked.last() {
            SessionCommand::Activate(PropVariant { payload: Payload::Clsid(guid), .. }) => activated(
                asked.drop_last(),
            ).push(guid),
            _ => activated(asked.drop_last()),
        }
    }
}

/// The identifiers are found part by part.
proof fn lemma_activated(a: Seq<SessionCommand>, b: Seq<SessionCommand>)
    ensures
        activated(a + b) == activated(a) + activated(b),
    decreases b.len(),
{
    if b.len() == 0 {
        assert(a + b =~= a);
        assert(activated(a) + activated(b) =~= activated(a));
    } else {
        lemma_activated(a, b.drop_last());
        assert((a + b).drop_last() =~= a + b.drop_last());
        assert((a + b).last() == b.last());
        assert(activated(a + b) =~= activated(a) + activated(b));
    }
}

/// Policy calls activate nothing.
proof fn lemma_calls_activate_nothing(calls: Seq<PolicyCall>)
    ensures
        activated(calls.map_values(|c: PolicyCall| SessionCommand::Policy(c))) == Seq::<
            u128,
        >::empty(),
    decreases calls.len(),
{
    let asked = calls.map_values(|c: PolicyCall| SessionCommand::Policy(c));
    if calls.len() > 0 {
        lemma_calls_activate_nothing(calls.drop_last());
        assert(asked.drop_last() =~= calls.drop_last().map_values(
            |c: PolicyCall| SessionCommand::Policy(c),
        ));
        assert(asked.last() == SessionCommand::Policy(calls.last()));
    }
}

/// The commands for the instances activate each one once, in order.
proof fn lemma_stores_activated(
    guids: Seq<u128>,
    write: PropertyWrite,
    answers: spec_fn(Stage, int) -> bool,
    k: int,
)
    requires
        0 <= k <= guids.len(),
    ensures
        activated(stores_commands(guids, write, answers, k)) == guids.skip(k),
    decreases guids.len() - k,
{
    reveal_with_fuel(activated, 5);
    if k < guids.len() {
        lemma_stores_activated(guids, write, answers, k + 1);
        let head = store_commands(
            guids[k],
            write,
            answers(Stage::Activate, k),
            answers(Stage::OpenStore, k),
            answers(Stage::SetUser, k),
        );
        lemma_activated(head, stores_commands(guids, write, answers, k + 1));
        let one = seq![head[0]];
        assert(activated(one) =~= seq![guids[k]]) by {
            assert(one.drop_last() =~= Seq::empty());
        }
        lemma_only_first_activates(head);
        assert(activated(head) =~= seq![guids[k]]);
        assert(guids.skip(k) =~= seq![guids[k]] + guids.skip(k + 1));
    } else {
        assert(guids.skip(k) =~= Seq::empty());
    }
}

/// Commands behind the first that activate nothing add no identifier.
proof fn lemma_only_first_activates(asked: Seq<SessionCommand>)
    requires
        asked.len() > 0,
        forall|i: int| 1 <= i < asked.len() ==> !(#[trigger] asked[i] is Activate),
    ensures
        activated(asked) == activated(seq![asked[0]]),
    decreases asked.len(),
{
    if asked.len() == 1 {
        assert(asked =~= seq![asked[0]]);
    } else {
        let before = asked.drop_last();
        assert forall|i: int| 1 <= i < before.len() implies !(#[trigger] before[i] is Activate) by {
            assert(before[i] == asked[i]);
        }
        lemma_only_first_activates(before);
        assert(before[0] == asked[0]);
    }
}

/// Over a session that reaches the user stores, the identifiers of the stores
/// that it activates are exactly those of the instances that it was given, each
/// one once and in their order, whatever becomes of the single stores.
pub proof fn every_instance_is_activated_once(
    id: Seq<u16>,
    calls: Seq<PolicyCall>,
    write: PropertyWrite,
    guids: Seq<u128>,
    answers: spec_fn(Stage, int) -> bool,
)
    requires
        calls.len() > 0,
        guids.len() <= usize::MAX,
        answers(Stage::Connect, 0),
        forall|i: int| 0 <= i < calls.len() ==> #[trigger] answers(Stage::Call, i),
        answers(Stage::Enumerate, 0),
        answers(Stage::OpenDevice, 0),
    ensures
        activated(commands(SessionView::fresh(id, calls, Some(write), guids), answers)) == guids,
{
    reveal_with_fuel(activated, 2);
    session_asks_in_order(id, calls, Some(write), guids, answers);
    let connect = seq![SessionCommand::ConnectPolicy];
    let asked = calls.map_values(|c: PolicyCall| SessionCommand::Policy(c));
    let open = seq![SessionCommand::ConnectEnumerator, SessionCommand::OpenDevice];
    let stores = stores_commands(guids, write, answers, 0);
    let finish = seq![
        SessionCommand::Finish(stores_written(answers, guids.len() as int) as usize),
    ];
    lemma_activated(connect + asked, open + stores + finish);
    lemma_activated(connect, asked);
    lemma_activated(open + stores, finish);
    lemma_activated(open, stores);
    lemma_calls_activate_nothing(calls);
    lemma_stores_activated(guids, write, answers, 0);
    lemma_only_first_activates(connect);
    lemma_only_first_activates(open);
    lemma_only_first_activates(finish);
    assert(activated(connect) =~= Seq::empty()) by {
        assert(connect.drop_last() =~= Seq::empty());
    }
    let first = seq![open[0]];
    assert(activated(first) =~= Seq::empty()) by {
        assert(first.drop_last() =~= Seq::empty());
    }
    assert(activated(finish) =~= Seq::empty()) by {
        assert(finish.drop_last() =~= Seq::empty());
    }
    assert(guids.skip(0) =~= guids);
    assert(activated(commands(SessionView::fresh(id, calls, Some(write), guids), answers)) =~= guids);
}

/// Where every call succeeds, every store is written.
proof fn lemma_all_stores(answers: spec_fn(Stage, int) -> bool, n: int)
    requires
        0 <= n,
        forall|stage: Stage, i: int| #[trigger] answers(stage, i),
    ensures
        stores_written(answers, n) == n,
    decreases n,
{
    if n > 0 {
        lemma_all_stores(answers, n - 1);
        assert(answers(Stage::Activate, n - 1));
        assert(answers(Stage::OpenStore, n - 1));
        assert(answers(Stage::SetUser, n - 1));
    }
}

/// A session whose calls all succeed ends with the number of its instances.
pub proof fn undisturbed_session_writes_every_store(
    id: Seq<u16>,
    calls: Seq<PolicyCall>,
    write: PropertyWrite,
    guids: Seq<u128>,
    answers: spec_fn(Stage, int) -> bool,
)
    requires
        calls.len() > 0,
        guids.len() <= usize::MAX,
        forall|stage: Stage, i: int| #[trigger] answers(stage, i),
    ensures
        commands(SessionView::fresh(id, calls, Some(write), guids), answers).last()
            == SessionCommand::Finish(guids.len() as usize),
{
    assert(answers(Stage::Connect, 0));
    assert(answers(Stage::Enumerate, 0));
    assert(answers(Stage::OpenDevice, 0));
    session_asks_in_order(id, calls, Some(write), guids, answers);
    lemma_all_stores(answers, guids.len() as int);
}

/// The first call that must succeed and does not ends the session with a
/// failure: no further call is made.
pub proof fn failed_call_ends_the_session(s: SessionView, answers: spec_fn(Stage, int) -> bool)
    requires
        s.wf(),
        s.stage == Stage::Connect || s.stage == Stage::Call || s.stage == Stage::Enumerate || s.stage
            == Stage::OpenDevice,
        !answers(s.stage, s.at),
    ensures
        commands(s, answers) == seq![s.asks(), SessionCommand::Fail],
{
    lemma_step(s, answers);
    let n = s.next(false);
    assert(commands(n, answers) =~= seq![SessionCommand::Fail]);
    assert(commands(s, answers) =~= seq![s.asks(), SessionCommand::Fail]);
}

/// What sets Loudness Equalization: the switch, as a boolean that is -1 for on
/// and 0 for off; before it, where all enhancements are turned off and the effect
/// is turned on, their switch, as the number 0.
pub proof fn loudness_is_set_by_these_calls(fx: FxView, enable: bool)
    ensures
        ({
            let set = PolicyCall::SetProperty(
                PropertyWrite {
                    property: Property::LoudnessEq,
                    value: PropVariant {
                        vt: 11,
                        payload: Payload::Bool(
                            if enable {
                                -1i16
                            } else {
                                0i16
                            },
                        ),
                    },
                },
            );
            let clear = PolicyCall::SetProperty(
                PropertyWrite {
                    property: Property::DisableSysfx,
                    value: PropVariant { vt: 19, payload: Payload::U32(0) },
                },
            );
            let off = fx.disable_sysfx is Some && fx.disable_sysfx->0.as_bool() == Some(true);
            loudness_calls(enable, sysfx_disabled(Some(fx))) == if enable && off {
                seq![clear, set]
            } else {
                seq![set]
            }
        }),
        loudness_calls(enable, sysfx_disabled(None)).len() == 1,
{
}

/// What sets the release time: the number itself, whatever it is, as a signed
/// one, under each of the two properties.
pub proof fn release_time_is_set_by_these_calls(value: i32)
    ensures
        release_time_calls(value) == seq![
            PolicyCall::SetProperty(
                PropertyWrite {
                    property: Property::ReleaseTime,
                    value: PropVariant { vt: 3, payload: Payload::I32(value) },
                },
            ),
            PolicyCall::SetProperty(
                PropertyWrite {
                    property: Property::ReleaseTimeAlt,
                    value: PropVariant { vt: 3, payload: Payload::I32(value) },
                },
            ),
        ],
{
}

/// The properties are these, by the identifier of their set and their number.
pub proof fn properties_have_these_keys()
    ensures
        Property::LoudnessEq.key_of().fmtid == 0xfc52a749_4be9_4510_896e_966ba6525980u128,
        Property::LoudnessEq.key_of().pid == 3,
        Property::DisableSysfx.key_of().fmtid == 0x1da5d803_d492_4edd_8c23_e0c0ffee7f0eu128,
        Property::DisableSysfx.key_of().pid == 5,
        Property::ReleaseTime.key_of().fmtid == 0x9c00eeed_edce_4cd8_ae08_cb05e8ef57a0u128,
        Property::ReleaseTime.key_of().pid == 3,
        Property::ReleaseTimeAlt.key_of().fmtid == 0x9c00eeed_edce_4cd8_ae08_cb05e8ef57a0u128,
        Property::ReleaseTimeAlt.key_of().pid == 1599,
{
}

/// Each name of an instance gives its own identifier, at its own place, with or
/// without braces around it.
pub proof fn names_give_their_own_identifiers(names: Seq<String>, i: int, bare: Seq<char>)
    requires
        0 <= i < names.len(),
        guid_text(bare),
        names[i]@ == bare || names[i]@ == seq!['{'] + bare + seq!['}'],
    ensures
        guids_of(names).len() == names.len(),
        guids_of(names)[i] == guid_value(bare) as u128,
{
    let open = seq!['{'];
    let close = seq!['}'];
    assert(bare[0] != '{' && bare[0] != '}' && bare.last() != '{' && bare.last() != '}') by {
        assert(!is_hyphen_place(0) && !is_hyphen_place(35));
        assert(is_hex(bare[0]) && is_hex(bare[35]));
    }
    stripping_keeps_the_middle(Seq::empty(), bare, Seq::empty(), Edge::Brace);
    assert(Seq::<char>::empty() + bare + Seq::<char>::empty() =~= bare);
    stripping_keeps_the_middle(open, bare, close, Edge::Brace);
}

/// An identifier is written in five groups of hexadecimal digits in either case,
/// of eight, four, four, four and twelve, with hyphens between them, and nothing
/// else is one.
pub proof fn identifiers_have_five_groups(s: Seq<char>)
    ensures
        guid_text(s) <==> {
            &&& s.len() == 36
            &&& s[8] == '-' && s[13] == '-' && s[18] == '-' && s[23] == '-'
            &&& forall|i: int|
                0 <= i < 36 && i != 8 && i != 13 && i != 18 && i != 23 ==> ('0' <= #[trigger] s[i]
                    <= '9' || 'a' <= s[i] <= 'f' || 'A' <= s[i] <= 'F')
        },
{
    if guid_text(s) {
        assert(is_hyphen_place(8) && is_hyphen_place(13) && is_hyphen_place(18) && is_hyphen_place(
            23,
        ));
        assert forall|i: int|
            0 <= i < 36 && i != 8 && i != 13 && i != 18 && i != 23 implies ('0' <= #[trigger] s[i]
            <= '9' || 'a' <= s[i] <= 'f' || 'A' <= s[i] <= 'F') by {
            assert(!is_hyphen_place(i));
        }
    }
}

/// The value of an identifier is read digit by digit, in base sixteen and over
/// the hyphens.
pub proof fn identifier_is_read_in_order(s: Seq<char>, c: char)
    ensures
        guid_value(seq![]) == 0,
        guid_value(s.push('-')) == guid_value(s),
        '0' <= c <= '9' ==> guid_value(s.push(c)) == 16 * guid_value(s) + (c as int - 48),
        'a' <= c <= 'f' ==> guid_value(s.push(c)) == 16 * guid_value(s) + (c as int - 87),
        'A' <= c <= 'F' ==> guid_value(s.push(c)) == 16 * guid_value(s) + (c as int - 55),
{
    assert(s.push(c).drop_last() =~= s);
    assert(s.push('-').drop_last() =~= s);
}

/// The stores that are written are counted one by one: a store counts exactly
/// where it is activated, opened and set, whatever becomes of the commit.
pub proof fn each_written_store_counts_once(answers: spec_fn(Stage, int) -> bool, n: int)
    requires
        0 <= n,
    ensures
        stores_written(answers, 0) == 0,
        stores_written(answers, n + 1) == stores_written(answers, n) + if answers(
            Stage::Activate,
            n,
        ) && answers(Stage::OpenStore, n) && answers(Stage::SetUser, n) {
            1int
        } else {
            0int
        },
{
}

} // verus!
