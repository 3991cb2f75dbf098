//! Changes that are made through the audio policy service.
//!
//! A session is a script of calls that the caller performs. The session says
//! which call comes next; the caller makes it and says whether it succeeded.
//! The policy calls come first, and the first one that fails ends the session.
//! After them the user store of each effect instance is written, where a
//! failure only skips that instance.
use vstd::prelude::*;

use crate::device::Device;
use crate::fx::{fx_instance_guids, fx_view, names_of, read_sysfx_disabled, sysfx_disabled, FxKey};
use crate::guid::{guid_text, guid_value, instance_guids};
use crate::property::{
    bool_property, clsid_property, i32_property, propvariant_bool, propvariant_clsid,
    propvariant_i32, propvariant_u32, u32_property, PropVariant, Property,
};
use crate::strip::{strip, Edge};
use crate::text::{utf16, wide};

verus! {

/// What a playback device can be the default for.
#[derive(Clone, Copy, Debug, PartialEq, Eq, Structural)]
pub enum Role {
    /// General playback.
    Console,
    /// Music and films.
    Multimedia,
    /// Calls.
    Communications,
}

/// A property and the value that it gets.
#[derive(Clone, Copy, Debug, PartialEq, Eq, Structural)]
pub struct PropertyWrite {
    pub property: Property,
    pub value: PropVariant,
}

/// A call of the audio policy interface.
#[derive(Clone, Copy, Debug, PartialEq, Eq, Structural)]
pub enum PolicyCall {
    /// Write a property into the endpoint's effects store.
    SetProperty(PropertyWrite),
    /// Make the endpoint the default device for a role.
    SetDefault(Role),
    /// Fetch the configured shared-mode format of the endpoint.
    GetFormat,
    /// Set the format that was fetched, which makes the endpoint start anew.
    SetFormat,
}

/// How far a session has come.
#[derive(Clone, Copy, Debug, PartialEq, Eq, Structural)]
pub enum Stage {
    Connect,
    Call,
    Enumerate,
    OpenDevice,
    Activate,
    OpenStore,
    SetUser,
    Commit,
    Done,
    Failed,
}

/// What the caller of a session does next.
#[derive(Clone, Copy, Debug, PartialEq, Eq, Structural)]
pub enum SessionCommand {
    /// Create the policy client.
    ConnectPolicy,
    /// Make a policy call on the endpoint.
    Policy(PolicyCall),
    /// Create the device enumerator.
    ConnectEnumerator,
    /// Open the endpoint as a device.
    OpenDevice,
    /// Activate the property store of the effect instance that this names.
    Activate(PropVariant),
    /// Open the user part of the store that was activated.
    OpenUserStore,
    /// Write a property into the user part.
    SetUser(PropertyWrite),
    /// Commit the user part. Whether that succeeds does not matter.
    Commit,
    /// The session has succeeded, with this many user stores written.
    Finish(usize),
    /// The session has failed, with the error of the last call.
    Fail,
}

/// A session as its contracts see it.
pub struct SessionView {
    pub id: Seq<u16>,
    pub calls: Seq<PolicyCall>,
    pub user: Option<PropertyWrite>,
    pub instances: Seq<u128>,
    pub stage: Stage,
    pub at: int,
    pub wrote: int,
}

impl SessionView {
    /// A session that has not begun.
    pub open spec fn fresh(
        id: Seq<u16>,
        calls: Seq<PolicyCall>,
        user: Option<PropertyWrite>,
        instances: Seq<u128>,
    ) -> SessionView {
        SessionView { id, calls, user, instances, stage: Stage::Connect, at: 0, wrote: 0 }
    }

    /// The session is at the store of some effect instance.
    pub open spec fn at_instance(self) -> bool {
        self.stage == Stage::Activate || self.stage == Stage::OpenStore || self.stage
            == Stage::SetUser || self.stage == Stage::Commit
    }

    /// The session has ended.
    pub open spec fn ended(self) -> bool {
        self.stage == Stage::Done || self.stage == Stage::Failed
    }

    /// What holds of every session: it has a policy call to make, it stands at
    /// a call or an instance that it has, and it has written no more user
    /// stores than it has passed instances.
    pub open spec fn wf(self) -> bool {
        &&& self.calls.len() > 0
        &&& 0 <= self.wrote <= self.instances.len()
        &&& self.stage == Stage::Call ==> 0 <= self.at < self.calls.len()
        &&& self.stage == Stage::Enumerate || self.stage == Stage::OpenDevice ==> self.user is Some
        &&& self.at_instance() ==> self.user is Some && 0 <= self.at < self.instances.len()
            && self.wrote <= self.at
        &&& !self.at_instance() && self.stage != Stage::Done ==> self.wrote == 0
    }

    /// The session moved to a stage.
    pub open spec fn moved(self, stage: Stage, at: int, wrote: int) -> SessionView {
        SessionView { stage, at, wrote, ..self }
    }

    /// The session after it is done with the instance that it stands at.
    pub open spec fn past_instance(self, wrote: int) -> SessionView {
        if self.at + 1 < self.instances.len() {
            self.moved(Stage::Activate, self.at + 1, wrote)
        } else {
            self.moved(Stage::Done, 0, wrote)
        }
    }

    /// The session after the call that it asked for has succeeded or failed.
    pub open spec fn next(self, ok: bool) -> SessionView {
        match self.stage {
            Stage::Connect if ok => self.moved(Stage::Call, 0, 0),
            Stage::Call if ok => if self.at + 1 < self.calls.len() {
                self.moved(Stage::Call, self.at + 1, 0)
            } else if self.user is Some {
                self.moved(Stage::Enumerate, 0, 0)
            } else {
                self.moved(Stage::Done, 0, 0)
            },
            Stage::Enumerate if ok => self.moved(Stage::OpenDevice, 0, 0),
            Stage::OpenDevice if ok => if self.instances.len() > 0 {
                self.moved(Stage::Activate, 0, 0)
            } else {
                self.moved(Stage::Done, 0, 0)
            },
            Stage::Connect | Stage::Call | Stage::Enumerate | Stage::OpenDevice => self.moved(
                Stage::Failed,
                0,
                0,
            ),
            Stage::Activate if ok => self.moved(Stage::OpenStore, self.at, self.wrote),
            Stage::OpenStore if ok => self.moved(Stage::SetUser, self.at, self.wrote),
            Stage::SetUser if ok => self.moved(Stage::Commit, self.at, self.wrote),
            Stage::Activate | Stage::OpenStore | Stage::SetUser => self.past_instance(self.wrote),
            Stage::Commit => self.past_instance(self.wrote + 1),
            Stage::Done | Stage::Failed => self,
        }
    }

    /// What the session asks for.
    pub open spec fn asks(self) -> SessionCommand {
        match self.stage {
            Stage::Connect => SessionCommand::ConnectPolicy,
            Stage::Call => SessionCommand::Policy(self.calls[self.at]),
            Stage::Enumerate => SessionCommand::ConnectEnumerator,
            Stage::OpenDevice => SessionCommand::OpenDevice,
            Stage::Activate => SessionCommand::Activate(clsid_property(self.instances[self.at])),
            Stage::OpenStore => SessionCommand::OpenUserStore,
            Stage::SetUser => SessionCommand::SetUser(self.user->0),
            Stage::Commit => SessionCommand::Commit,
            Stage::Done => SessionCommand::Finish(self.wrote as usize),
            Stage::Failed => SessionCommand::Fail,
        }
    }
}

/// A session with the audio policy service on one endpoint.
#[derive(Debug)]
pub struct PolicySession {
    id: Vec<u16>,
    calls: Vec<PolicyCall>,
    user: Option<PropertyWrite>,
    instances: Vec<u128>,
    stage: Stage,
    at: usize,
    wrote: usize,
}

impl View for PolicySession {
    type V = SessionView;

    closed spec fn view(&self) -> SessionView {
        SessionView {
            id: self.id@,
            calls: self.calls@,
            user: self.user,
            instances: self.instances@,
            stage: self.stage,
            at: self.at as int,
            wrote: self.wrote as int,
        }
    }
}

impl PolicySession {
    /// A session that has not begun.
    fn new(
        full_id: &str,
        calls: Vec<PolicyCall>,
        user: Option<PropertyWrite>,
        instances: Vec<u128>,
    ) -> (r: PolicySession)
        requires
            calls@.len() > 0,
        ensures
            r@ == SessionView::fresh(utf16(full_id@).push(0), calls@, user, instances@),
            r@.wf(),
    {
        PolicySession {
            id: wide(full_id),
            calls,
            user,
            instances,
            stage: Stage::Connect,
            at: 0,
            wrote: 0,
        }
    }

    /// The identifier of the endpoint, as a wide string with a zero at its end.
    pub fn id(&self) -> (r: &[u16])
        ensures
            r@ == self@.id,
    {
        self.id.as_slice()
    }

    /// What the caller does next.
    pub fn command(&self) -> (r: SessionCommand)
        requires
            self@.wf(),
        ensures
            r == self@.asks(),
    {
        match self.stage {
            Stage::Connect => SessionCommand::ConnectPolicy,
            Stage::Call => SessionCommand::Policy(self.calls[self.at]),
            Stage::Enumerate => SessionCommand::ConnectEnumerator,
            Stage::OpenDevice => SessionCommand::OpenDevice,
            Stage::Activate => SessionCommand::Activate(propvariant_clsid(self.instances[self.at])),
            Stage::OpenStore => SessionCommand::OpenUserStore,
            Stage::SetUser => {
                match self.user {
                    Some(write) => SessionCommand::SetUser(write),
                    None => SessionCommand::Fail,
                }
            },
            Stage::Commit => SessionCommand::Commit,
            Stage::Done => SessionCommand::Finish(self.wrote),
            Stage::Failed => SessionCommand::Fail,
        }
    }

    /// Goes on after the call that `command` asked for, which succeeded or not.
    pub fn advance(&mut self, ok: bool)
        requires
            old(self)@.wf(),
        ensures
            final(self)@ == old(self)@.next(ok),
            final(self)@.wf(),
    {
        proof {
            step_keeps_session_valid(self@, ok);
        }
        match self.stage {
            Stage::Connect | Stage::Call | Stage::Enumerate | Stage::OpenDevice => {
                if ok {
                    self.advance_policy();
                } else {
                    self.stage = Stage::Failed;
                    self.at = 0;
                }
            },
            Stage::Activate => {
                if ok {
                    self.stage = Stage::OpenStore;
                } else {
                    self.leave_instance();
                }
            },
            Stage::OpenStore => {
                if ok {
                    self.stage = Stage::SetUser;
                } else {
                    self.leave_instance();
                }
            },
            Stage::SetUser => {
                if ok {
                    self.stage = Stage::Commit;
                } else {
                    self.leave_instance();
                }
            },
            Stage::Commit => {
                assert(self.wrote < self.instances.len());
                self.wrote = self.wrote + 1;
                self.leave_instance();
            },
            Stage::Done | Stage::Failed => {},
        }
    }

    /// Goes on after a policy call that succeeded.
    fn advance_policy(&mut self)
        requires
            old(self)@.wf(),
            !old(self)@.at_instance(),
            !old(self)@.ended(),
        ensures
            final(self)@ == old(self)@.next(true),
    {
        match self.stage {
            Stage::Connect => {
                self.stage = Stage::Call;
                self.at = 0;
            },
            Stage::Call => {
                if self.calls.len() - self.at > 1 {
                    self.at = self.at + 1;
                } else {
                    self.at = 0;
                    self.stage = match self.user {
                        Some(_) => Stage::Enumerate,
                        None => Stage::Done,
                    };
                }
            },
            Stage::Enumerate => {
                self.stage = Stage::OpenDevice;
                self.at = 0;
            },
            _ => {
                self.at = 0;
                self.stage = if self.instances.len() > 0 {
                    Stage::Activate
                } else {
                    Stage::Done
                };
            },
        }
    }

    /// Goes on to the instance after the one that the session stands at.
    fn leave_instance(&mut self)
        requires
            old(self)@.at < old(self)@.instances.len(),
        ensures
            final(self)@ == old(self)@.past_instance(old(self)@.wrote),
    {
        if self.instances.len() - self.at > 1 {
            self.stage = Stage::Activate;
            self.at = self.at + 1;
        } else {
            self.stage = Stage::Done;
            self.at = 0;
        }
    }
}

/// The identifiers that name effect instances.
pub open spec fn guids_of(names: Seq<String>) -> Seq<u128> {
    Seq::new(names.len(), |i: int| guid_value(strip(names[i]@, Edge::Brace)) as u128)
}

/// Every name is, without its braces, the text of an identifier.
pub open spec fn all_instance_names(names: Seq<String>) -> bool {
    forall|i: int| 0 <= i < names.len() ==> guid_text(strip(#[trigger] names[i]@, Edge::Brace))
}

/// The policy calls that set Loudness Equalization. While "disable all
/// enhancements" is set the effect does nothing, so turning the effect on
/// clears that first.
pub open spec fn loudness_calls(enable: bool, sysfx_disabled: bool) -> Seq<PolicyCall> {
    let clear = PropertyWrite { property: Property::DisableSysfx, value: u32_property(0) };
    let set = PropertyWrite { property: Property::LoudnessEq, value: bool_property(enable) };
    if enable && sysfx_disabled {
        seq![PolicyCall::SetProperty(clear), PolicyCall::SetProperty(set)]
    } else {
        seq![PolicyCall::SetProperty(set)]
    }
}

/// Sets Loudness Equalization the way the Sound control panel does: through the
/// policy service, and in the user store of each effect instance.
pub fn apply_loudness_live(
    full_id: &str,
    enable: bool,
    sysfx_disabled: bool,
    instances: &[String],
) -> (r: PolicySession)
    requires
        all_instance_names(instances@),
    ensures
        r@ == SessionView::fresh(
            utf16(full_id@).push(0),
            loudness_calls(enable, sysfx_disabled),
            Some(PropertyWrite { property: Property::LoudnessEq, value: bool_property(enable) }),
            guids_of(instances@),
        ),
        r@.wf(),
{
    let mut calls: Vec<PolicyCall> = Vec::new();
    if enable && sysfx_disabled {
        calls.push(
            PolicyCall::SetProperty(
                PropertyWrite { property: Property::DisableSysfx, value: propvariant_u32(0) },
            ),
        );
    }
    let set = PropertyWrite { property: Property::LoudnessEq, value: propvariant_bool(enable) };
    calls.push(PolicyCall::SetProperty(set));
    assert(calls@ =~= loudness_calls(enable, sysfx_disabled));
    let guids: Vec<u128> = instance_guids(instances);
    assert(guids@ =~= guids_of(instances@));
    PolicySession::new(full_id, calls, Some(set), guids)
}

/// The session that sets Loudness Equalization on a device: on the endpoint of
/// the device, with what its effects key says of disabled enhancements and of
/// effect instances.
pub fn loudness_session(device: &Device, fx: &Option<FxKey>, enable: bool) -> (r: PolicySession)
    requires
        forall|i: int|
            0 <= i < names_of(fx_view(*fx)).len() ==> guid_text(
                strip(#[trigger] names_of(fx_view(*fx))[i], Edge::Brace),
            ),
    ensures
        r@ == SessionView::fresh(
            utf16(device.full_id@).push(0),
            loudness_calls(enable, sysfx_disabled(fx_view(*fx))),
            Some(PropertyWrite { property: Property::LoudnessEq, value: bool_property(enable) }),
            names_of(fx_view(*fx)).map_values(
                |name: Seq<char>| guid_value(strip(name, Edge::Brace)) as u128,
            ),
        ),
        r@.wf(),
{
    let names: Vec<String> = fx_instance_guids(fx);
    let ghost texts = names_of(fx_view(*fx));
    assert forall|i: int| 0 <= i < names@.len() implies #[trigger] names@[i]@ == texts[i] by {
        assert(names@.map_values(|s: String| s@)[i] == texts[i]);
    }
    assert(names@.len() == texts.len());
    let disabled: bool = read_sysfx_disabled(fx);
    assert(guids_of(names@) =~= texts.map_values(
        |name: Seq<char>| guid_value(strip(name, Edge::Brace)) as u128,
    ));
    apply_loudness_live(device.full_id.as_str(), enable, disabled, names.as_slice())
}

/// The policy calls that set the release time.
pub open spec fn release_time_calls(value: i32) -> Seq<PolicyCall> {
    seq![
        PolicyCall::SetProperty(
            PropertyWrite { property: Property::ReleaseTime, value: i32_property(value) },
        ),
        PolicyCall::SetProperty(
            PropertyWrite { property: Property::ReleaseTimeAlt, value: i32_property(value) },
        ),
    ]
}

/// Sets the release time, under both of its properties through the policy
/// service and under the first one in each user store.
pub fn set_release_time(full_id: &str, value: i32, instances: &[String]) -> (r: PolicySession)
    requires
        all_instance_names(instances@),
    ensures
        r@ == SessionView::fresh(
            utf16(full_id@).push(0),
            release_time_calls(value),
            Some(PropertyWrite { property: Property::ReleaseTime, value: i32_property(value) }),
            guids_of(instances@),
        ),
        r@.wf(),
{
    let set = PropertyWrite { property: Property::ReleaseTime, value: propvariant_i32(value) };
    let alt = PropertyWrite { property: Property::ReleaseTimeAlt, value: propvariant_i32(value) };
    let mut calls: Vec<PolicyCall> = Vec::new();
    calls.push(PolicyCall::SetProperty(set));
    calls.push(PolicyCall::SetProperty(alt));
    assert(calls@ =~= release_time_calls(value));
    let guids: Vec<u128> = instance_guids(instances);
    assert(guids@ =~= guids_of(instances@));
    PolicySession::new(full_id, calls, Some(set), guids)
}

/// Turns all enhancements of an endpoint on or off, by the switch that turns
/// them off.
pub fn set_enhancements_enabled(full_id: &str, enabled: bool) -> (r: PolicySession)
    ensures
        r@ == SessionView::fresh(
            utf16(full_id@).push(0),
            seq![
                PolicyCall::SetProperty(
                    PropertyWrite {
                        property: Property::DisableSysfx,
                        value: u32_property(
                            if enabled {
                                0
                            } else {
                                1
                            },
                        ),
                    },
                ),
            ],
            None,
            Seq::empty(),
        ),
        r@.wf(),
{
    let value = propvariant_u32(
        if enabled {
            0
        } else {
            1
        },
    );
    let set = PropertyWrite { property: Property::DisableSysfx, value };
    let mut calls: Vec<PolicyCall> = Vec::new();
    calls.push(PolicyCall::SetProperty(set));
    assert(calls@ =~= seq![PolicyCall::SetProperty(set)]);
    PolicySession::new(full_id, calls, None, Vec::new())
}

/// Makes an endpoint the default playback device, for general playback and for
/// multimedia. The default device for communications is left alone.
pub fn set_default_device(full_id: &str) -> (r: PolicySession)
    ensures
        r@ == SessionView::fresh(
            utf16(full_id@).push(0),
            seq![PolicyCall::SetDefault(Role::Console), PolicyCall::SetDefault(Role::Multimedia)],
            None,
            Seq::empty(),
        ),
        r@.wf(),
{
    let mut calls: Vec<PolicyCall> = Vec::new();
    calls.push(PolicyCall::SetDefault(Role::Console));
    calls.push(PolicyCall::SetDefault(Role::Multimedia));
    assert(calls@ =~= seq![
        PolicyCall::SetDefault(Role::Console),
        PolicyCall::SetDefault(Role::Multimedia),
    ]);
    PolicySession::new(full_id, calls, None, Vec::new())
}

/// Makes an endpoint start anew by setting the format that it has. Streams that
/// run are reopened and pick up the new effects.
pub fn reset_endpoint(full_id: &str) -> (r: PolicySession)
    ensures
        r@ == SessionView::fresh(
            utf16(full_id@).push(0),
            seq![PolicyCall::GetFormat, PolicyCall::SetFormat],
            None,
            Seq::empty(),
        ),
        r@.wf(),
{
    let mut calls: Vec<PolicyCall> = Vec::new();
    calls.push(PolicyCall::GetFormat);
    calls.push(PolicyCall::SetFormat);
    assert(calls@ =~= seq![PolicyCall::GetFormat, PolicyCall::SetFormat]);
    PolicySession::new(full_id, calls, None, Vec::new())
}

/// Every step keeps what holds of a session.
pub proof fn step_keeps_session_valid(s: SessionView, ok: bool)
    requires
        s.wf(),
    ensures
        s.next(ok).wf(),
{
}

/// How many steps a session can still take.
pub open spec fn steps_left(s: SessionView) -> nat {
    let stores = 4 * s.instances.len();
    match s.stage {
        Stage::Connect => (s.calls.len() + stores + 3) as nat,
        Stage::Call => (s.calls.len() - s.at + stores + 2) as nat,
        Stage::Enumerate => (stores + 2) as nat,
        Stage::OpenDevice => (stores + 1) as nat,
        Stage::Activate => (4 * (s.instances.len() - s.at)) as nat,
        Stage::OpenStore => (4 * (s.instances.len() - s.at) - 1) as nat,
        Stage::SetUser => (4 * (s.instances.len() - s.at) - 2) as nat,
        Stage::Commit => (4 * (s.instances.len() - s.at) - 3) as nat,
        Stage::Done | Stage::Failed => 0,
    }
}

/// Every step brings a session nearer to its end, so every session ends.
pub proof fn session_ends(s: SessionView, ok: bool)
    requires
        s.wf(),
        !s.ended(),
    ensures
        steps_left(s.next(ok)) < steps_left(s),
{
}

/// The end of a session whose calls succeed or fail as `answers` says, given
/// the stage and the place of each call.
pub open spec fn outcome(s: SessionView, answers: spec_fn(Stage, int) -> bool) -> SessionView
    decreases steps_left(s),
    when s.wf()
    via outcome_decreases
{
    if s.ended() {
        s
    } else {
        outcome(s.next(answers(s.stage, s.at)), answers)
    }
}

#[via_fn]
proof fn outcome_decreases(s: SessionView, answers: spec_fn(Stage, int) -> bool) {
    if !s.ended() {
        session_ends(s, answers(s.stage, s.at));
        step_keeps_session_valid(s, answers(s.stage, s.at));
    }
}

/// The calls that must all succeed do so.
pub open spec fn policy_succeeds(s: SessionView, answers: spec_fn(Stage, int) -> bool) -> bool {
    &&& answers(Stage::Connect, 0)
    &&& forall|i: int| 0 <= i < s.calls.len() ==> #[trigger] answers(Stage::Call, i)
    &&& s.user is Some ==> answers(Stage::Enumerate, 0) && answers(Stage::OpenDevice, 0)
}

/// How many of the first `n` instances have their user store written: those
/// whose store is activated, opened and set.
pub open spec fn stores_written(answers: spec_fn(Stage, int) -> bool, n: int) -> int
    decreases n,
{
    if n <= 0 {
        0
    } else {
        stores_written(answers, n - 1) + if answers(Stage::Activate, n - 1) && answers(
            Stage::OpenStore,
            n - 1,
        ) && answers(Stage::SetUser, n - 1) {
            1int
        } else {
            0int
        }
    }
}

/// From the store of an instance on, a session ends well, with every store
/// written that could be.
proof fn lemma_instances(s: SessionView, answers: spec_fn(Stage, int) -> bool)
    requires
        s.wf(),
        s.stage == Stage::Activate,
        s.wrote == stores_written(answers, s.at),
    ensures
        outcome(s, answers) == s.moved(
            Stage::Done,
            0,
            stores_written(answers, s.instances.len() as int),
        ),
    decreases s.instances.len() - s.at,
{
    reveal_with_fuel(outcome, 5);
    let at = s.at;
    let s1 = s.next(answers(Stage::Activate, at));
    step_keeps_session_valid(s, answers(Stage::Activate, at));
    let last = if !answers(Stage::Activate, at) {
        s1
    } else {
        let s2 = s1.next(answers(Stage::OpenStore, at));
        step_keeps_session_valid(s1, answers(Stage::OpenStore, at));
        if !answers(Stage::OpenStore, at) {
            s2
        } else {
            let s3 = s2.next(answers(Stage::SetUser, at));
            step_keeps_session_valid(s2, answers(Stage::SetUser, at));
            if !answers(Stage::SetUser, at) {
                s3
            } else {
                step_keeps_session_valid(s3, answers(Stage::Commit, at));
                s3.next(answers(Stage::Commit, at))
            }
        }
    };
    assert(outcome(s, answers) == outcome(last, answers));
    assert(last.wrote == stores_written(answers, at + 1));
    if last.stage == Stage::Activate {
        lemma_instances(last, answers);
    }
}

/// The policy calls from the one that a session stands at on: all of them
/// succeed, or the session fails.
proof fn lemma_calls(s: SessionView, answers: spec_fn(Stage, int) -> bool)
    requires
        s.wf(),
        s.stage == Stage::Call,
    ensures
        (forall|i: int| s.at <= i < s.calls.len() ==> #[trigger] answers(Stage::Call, i)) ==> outcome(
            s,
            answers,
        ) == outcome(
            s.moved(
                if s.user is Some {
                    Stage::Enumerate
                } else {
                    Stage::Done
                },
                0,
                0,
            ),
            answers,
        ),
        !(forall|i: int| s.at <= i < s.calls.len() ==> #[trigger] answers(Stage::Call, i)) ==> outcome(
            s,
            answers,
        ).stage == Stage::Failed,
    decreases s.calls.len() - s.at,
{
    let n = s.next(answers(Stage::Call, s.at));
    step_keeps_session_valid(s, answers(Stage::Call, s.at));
    assert(outcome(s, answers) == outcome(n, answers));
    if n.stage == Stage::Call {
        lemma_calls(n, answers);
    }
}

/// A session succeeds exactly when every policy call does, whatever becomes of
/// the single user stores, and the number that it ends with is that of the user
/// stores that were written.
pub proof fn session_outcome(
    id: Seq<u16>,
    calls: Seq<PolicyCall>,
    user: Option<PropertyWrite>,
    instances: Seq<u128>,
    answers: spec_fn(Stage, int) -> bool,
)
    requires
        calls.len() > 0,
    ensures
        ({
            let s = SessionView::fresh(id, calls, user, instances);
            let end = outcome(s, answers);
            &&& policy_succeeds(s, answers) ==> end.stage == Stage::Done && end.wrote
                == if user is Some {
                stores_written(answers, instances.len() as int)
            } else {
                0
            }
            &&& !policy_succeeds(s, answers) ==> end.stage == Stage::Failed
        }),
{
    reveal_with_fuel(outcome, 3);
    let s = SessionView::fresh(id, calls, user, instances);
    let s1 = s.next(answers(Stage::Connect, 0));
    step_keeps_session_valid(s, answers(Stage::Connect, 0));
    assert(outcome(s, answers) == outcome(s1, answers));
    if answers(Stage::Connect, 0) {
        lemma_calls(s1, answers);
        if forall|i: int| 0 <= i < calls.len() ==> #[trigger] answers(Stage::Call, i) {
            if user is Some {
                let s2 = s1.moved(Stage::Enumerate, 0, 0);
                let s3 = s2.next(answers(Stage::Enumerate, 0));
                step_keeps_session_valid(s2, answers(Stage::Enumerate, 0));
                assert(outcome(s2, answers) == outcome(s3, answers));
                if answers(Stage::Enumerate, 0) {
                    let s4 = s3.next(answers(Stage::OpenDevice, 0));
                    step_keeps_session_valid(s3, answers(Stage::OpenDevice, 0));
                    assert(outcome(s3, answers) == outcome(s4, answers));
                    if answers(Stage::OpenDevice, 0) && instances.len() > 0 {
                        lemma_instances(s4, answers);
                    }
                }
            }
        }
    }
}

/// Turning Loudness Equalization off leaves the switch that disables all
/// enhancements alone, and turning it on with that switch set clears the switch
/// before anything else.
pub proof fn enhancements_switch_is_only_cleared(enable: bool, sysfx_disabled: bool, i: int)
    requires
        0 <= i < loudness_calls(enable, sysfx_disabled).len(),
    ensures
        ({
            let write = loudness_calls(enable, sysfx_disabled)[i]->SetProperty_0;
            write.property == Property::DisableSysfx <==> enable && sysfx_disabled && i == 0
        }),
        ({
            let write = loudness_calls(enable, sysfx_disabled)[i]->SetProperty_0;
            write.property == Property::DisableSysfx ==> write.value == u32_property(0)
        }),
        loudness_calls(enable, sysfx_disabled).last() == PolicyCall::SetProperty(
            PropertyWrite { property: Property::LoudnessEq, value: bool_property(enable) },
        ),
{
}

} // verus!
