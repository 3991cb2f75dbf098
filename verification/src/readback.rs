//! What a session with the policy service sets, reading gives back.
//!
//! The policy service keeps what it is given in the effects key of the endpoint,
//! and each property store keeps it in the user store of its instance, in the
//! serialized form. The functions here say what an effects key holds then.
use vstd::prelude::*;

use crate::cli::Action;
use crate::fx::{
    bool_of, first_some, instance_names, loudness_state, number_of, release_time_state,
    sysfx_disabled, user_loudness, user_release_time, user_settings, user_times, FxView,
    InstanceView, UserView,
};
use crate::property::{
    bool_property, i32_property, serialized, stored_number_reads_back, stored_switch_reads_back,
    u32_property, PropVariant, Property,
};
use crate::regvalue::{RegType, StoredView};
use crate::run::desired_state;
use crate::session::{
    loudness_calls, outcome, release_time_calls, session_outcome, stores_written, PolicyCall,
    PropertyWrite, SessionView, Stage,
};

verus! {

/// A property value as it is kept.
pub open spec fn kept(value: PropVariant) -> StoredView {
    StoredView { vtype: RegType::REG_BINARY, bytes: serialized(value) }
}

/// An effects key after a policy call. The second property of the release time
/// is kept under a value that is never read.
pub open spec fn after_call(fx: FxView, call: PolicyCall) -> FxView {
    match call {
        PolicyCall::SetProperty(write) => match write.property {
            Property::LoudnessEq => FxView { loudness: Some(kept(write.value)), ..fx },
            Property::DisableSysfx => FxView { disable_sysfx: Some(kept(write.value)), ..fx },
            Property::ReleaseTime => FxView { release_time: Some(kept(write.value)), ..fx },
            Property::ReleaseTimeAlt => fx,
        },
        _ => fx,
    }
}

/// An effects key after a number of policy calls.
pub open spec fn after_calls(fx: FxView, calls: Seq<PolicyCall>) -> FxView
    decreases calls.len(),
{
    if calls.len() == 0 {
        fx
    } else {
        after_call(after_calls(fx, calls.drop_last()), calls.last())
    }
}

/// A user store after a property was written. One that was not there is there
/// then.
pub open spec fn after_user_write(user: Option<UserView>, write: PropertyWrite) -> UserView {
    let before = match user {
        Some(u) => u,
        None => UserView { loudness: None, release_time: None },
    };
    match write.property {
        Property::LoudnessEq => UserView { loudness: Some(kept(write.value)), ..before },
        Property::ReleaseTime => UserView { release_time: Some(kept(write.value)), ..before },
        _ => before,
    }
}

/// An instance after a property was written to its user store.
pub open spec fn after_store(
    instance: Option<InstanceView>,
    write: PropertyWrite,
) -> Option<InstanceView> {
    match instance {
        Some(i) => Some(InstanceView { user: Some(after_user_write(i.user, write)), ..i }),
        None => None,
    }
}

/// An effects key after a session that made these policy calls, and that wrote
/// a property to the user stores of those instances that `wrote` tells.
pub open spec fn after_session(
    fx: FxView,
    calls: Seq<PolicyCall>,
    write: PropertyWrite,
    wrote: spec_fn(int) -> bool,
) -> FxView {
    FxView {
        instances: Seq::new(
            fx.instances.len(),
            |i: int|
                if wrote(i) {
                    after_store(fx.instances[i], write)
                } else {
                    fx.instances[i]
                },
        ),
        ..after_calls(fx, calls)
    }
}

/// An effects key after a session that set Loudness Equalization.
pub open spec fn loudness_applied(fx: FxView, enable: bool, wrote: spec_fn(int) -> bool) -> FxView {
    after_session(
        fx,
        loudness_calls(enable, sysfx_disabled(Some(fx))),
        PropertyWrite { property: Property::LoudnessEq, value: bool_property(enable) },
        wrote,
    )
}

/// An effects key after a session that set the release time.
pub open spec fn release_time_applied(fx: FxView, value: i32, wrote: spec_fn(int) -> bool) -> FxView {
    after_session(
        fx,
        release_time_calls(value),
        PropertyWrite { property: Property::ReleaseTime, value: i32_property(value) },
        wrote,
    )
}

/// The settings in the user stores once some are written: a written one holds
/// the new setting, any other what it held before.
pub open spec fn overwritten<T>(
    fx: FxView,
    settings: Seq<Option<T>>,
    value: T,
    wrote: spec_fn(int) -> bool,
) -> Seq<Option<T>> {
    Seq::new(
        settings.len(),
        |i: int|
            if wrote(i) && fx.instances[i] is Some {
                Some(value)
            } else {
                settings[i]
            },
    )
}

/// Where every setting that is there is the given one, that is the first one.
proof fn lemma_first_some<T>(settings: Seq<Option<T>>, value: T)
    requires
        forall|i: int|
            0 <= i < settings.len() ==> #[trigger] settings[i] is None || settings[i] == Some(value),
    ensures
        first_some(settings) is None || first_some(settings) == Some(value),
    decreases settings.len(),
{
    if settings.len() > 0 {
        assert forall|i: int| 0 <= i < settings.skip(1).len() implies #[trigger] settings.skip(
            1,
        )[i] is None || settings.skip(1)[i] == Some(value) by {
            assert(settings.skip(1)[i] == settings[i + 1]);
        }
        lemma_first_some(settings.skip(1), value);
    }
}

/// What the calls of a session that sets Loudness Equalization leave behind.
proof fn lemma_loudness_calls(fx: FxView, enable: bool)
    ensures
        ({
            let after = after_calls(fx, loudness_calls(enable, sysfx_disabled(Some(fx))));
            &&& after.loudness == Some(kept(bool_property(enable)))
            &&& after.release_time == fx.release_time
            &&& after.disable_sysfx == if enable && sysfx_disabled(Some(fx)) {
                Some(kept(u32_property(0)))
            } else {
                fx.disable_sysfx
            }
        }),
{
    reveal_with_fuel(after_calls, 3);
    let calls = loudness_calls(enable, sysfx_disabled(Some(fx)));
    assert(calls.len() == 1 || calls.drop_last().drop_last() =~= seq![]);
}

/// A switch that is kept as the number zero is off.
proof fn lemma_zero_is_off()
    ensures
        bool_of(Some(kept(u32_property(0)))) == Some(false),
{
    let bytes = serialized(u32_property(0));
    assert(bytes.len() == 12);
    assert(bytes[0] == 0x13u8 && bytes[1] == 0u8 && bytes[2] == 0u8 && bytes[3] == 0u8);
    assert(bytes[8] == 0u8 && bytes[9] == 0u8 && bytes[10] == 0u8 && bytes[11] == 0u8);
}

/// What a session sets Loudness Equalization to reads back, whatever was set
/// before, as long as it wrote every user store that held the other setting. In
/// general the first user store that then holds a setting has the say. Once the
/// setting is on, enhancements are not turned off; turning it off leaves their
/// switch alone; and the release time stays.
pub proof fn live_setting_reads_back(fx: FxView, enable: bool, wrote: spec_fn(int) -> bool)
    ensures
        ({
            let after = loudness_applied(fx, enable, wrote);
            &&& loudness_state(Some(after)) == match first_some(
                overwritten(fx, user_settings(fx), enable, wrote),
            ) {
                Some(own) => Some(own),
                None => Some(enable),
            }
            &&& (forall|i: int|
                0 <= i < fx.instances.len() && user_loudness(#[trigger] fx.instances[i]) == Some(
                    !enable,
                ) ==> wrote(i)) ==> loudness_state(Some(after)) == Some(enable)
            &&& enable ==> !sysfx_disabled(Some(after))
            &&& !enable ==> after.disable_sysfx == fx.disable_sysfx
            &&& release_time_state(Some(after)) == release_time_state(Some(fx))
        }),
{
    lemma_loudness_calls(fx, enable);
    lemma_zero_is_off();
    stored_switch_reads_back(enable);
    let after = loudness_applied(fx, enable, wrote);
    let settings = overwritten(fx, user_settings(fx), enable, wrote);
    assert(user_settings(after) =~= settings);
    assert(user_times(after) =~= user_times(fx));
    if forall|i: int|
        0 <= i < fx.instances.len() && user_loudness(#[trigger] fx.instances[i]) == Some(!enable)
            ==> wrote(i) {
        assert forall|i: int| 0 <= i < settings.len() implies #[trigger] settings[i] is None
            || settings[i] == Some(enable) by {
            assert(user_settings(fx)[i] == user_loudness(fx.instances[i]));
        }
        lemma_first_some(settings, enable);
    }
}

/// What a session sets the release time to reads back, whatever was set before,
/// as long as it wrote every user store that held another one. In general the
/// first user store that then holds a release time has the say. Nothing else is
/// changed.
pub proof fn live_release_time_reads_back(fx: FxView, value: i32, wrote: spec_fn(int) -> bool)
    ensures
        ({
            let after = release_time_applied(fx, value, wrote);
            &&& release_time_state(Some(after)) == match first_some(
                overwritten(fx, user_times(fx), value as int, wrote),
            ) {
                Some(own) => Some(own),
                None => Some(value as int),
            }
            &&& (forall|i: int|
                0 <= i < fx.instances.len() && user_release_time(#[trigger] fx.instances[i]) is Some
                    && user_release_time(fx.instances[i]) != Some(value as int) ==> wrote(i))
                ==> release_time_state(Some(after)) == Some(value as int)
            &&& loudness_state(Some(after)) == loudness_state(Some(fx))
            &&& sysfx_disabled(Some(after)) == sysfx_disabled(Some(fx))
        }),
{
    reveal_with_fuel(after_calls, 3);
    let calls = release_time_calls(value);
    assert(calls.drop_last().drop_last() =~= seq![]);
    stored_number_reads_back(value);
    let after = release_time_applied(fx, value, wrote);
    assert(number_of(after.release_time) == Some(value as int));
    let times = overwritten(fx, user_times(fx), value as int, wrote);
    assert(user_times(after) =~= times);
    assert(user_settings(after) =~= user_settings(fx));
    if forall|i: int|
        0 <= i < fx.instances.len() && user_release_time(#[trigger] fx.instances[i]) is Some
            && user_release_time(fx.instances[i]) != Some(value as int) ==> wrote(i) {
        assert forall|i: int| 0 <= i < times.len() implies #[trigger] times[i] is None || times[i]
            == Some(value as int) by {
            assert(user_times(fx)[i] == user_release_time(fx.instances[i]));
        }
        lemma_first_some(times, value as int);
    }
}

/// Two toggles that write every user store bring back the state that was there.
/// One that was never set counts as off.
pub proof fn two_toggles_restore(fx: FxView, wrote: spec_fn(int) -> bool, again: spec_fn(int) -> bool)
    requires
        forall|i: int| 0 <= i < fx.instances.len() ==> #[trigger] wrote(i) && again(i),
    ensures
        ({
            let before = loudness_state(Some(fx));
            let once = loudness_applied(fx, desired_state(Action::Toggle, before), wrote);
            let between = loudness_state(Some(once));
            let twice = loudness_applied(once, desired_state(Action::Toggle, between), again);
            &&& between == Some(before != Some(true))
            &&& loudness_state(Some(twice)) == Some(before == Some(true))
        }),
{
    let before = loudness_state(Some(fx));
    let desired = desired_state(Action::Toggle, before);
    live_setting_reads_back(fx, desired, wrote);
    let once = loudness_applied(fx, desired, wrote);
    assert forall|i: int|
        0 <= i < once.instances.len() && user_loudness(#[trigger] once.instances[i]) == Some(
            desired,
        ) implies again(i) by {
        assert(wrote(i));
    }
    live_setting_reads_back(once, !desired, again);
}

/// The instances whose user store a session writes, where its calls succeed or
/// fail as `answers` says. An instance whose name could not be read has no place
/// in the session.
pub open spec fn wrote_by(fx: FxView, answers: spec_fn(Stage, int) -> bool) -> spec_fn(int) -> bool {
    |i: int|
        {
            let place = instance_names(fx.instances.take(i)).len() as int;
            answers(Stage::Activate, place) && answers(Stage::OpenStore, place) && answers(
                Stage::SetUser,
                place,
            )
        }
}

/// How many of the first `n` instances have their user store written.
pub open spec fn stores_among(fx: FxView, wrote: spec_fn(int) -> bool, n: int) -> int
    decreases n,
{
    if n <= 0 {
        0
    } else {
        stores_among(fx, wrote, n - 1) + if fx.instances[n - 1] is Some && wrote(n - 1) {
            1int
        } else {
            0int
        }
    }
}

/// Counting the stores by their instances, or by their places in the session,
/// comes to the same.
proof fn lemma_same_count(fx: FxView, answers: spec_fn(Stage, int) -> bool, n: int)
    requires
        0 <= n <= fx.instances.len(),
    ensures
        stores_written(answers, instance_names(fx.instances.take(n)).len() as int) == stores_among(
            fx,
            wrote_by(fx, answers),
            n,
        ),
    decreases n,
{
    if n > 0 {
        lemma_same_count(fx, answers, n - 1);
        assert(fx.instances.take(n).drop_last() =~= fx.instances.take(n - 1));
        assert(fx.instances.take(n).last() == fx.instances[n - 1]);
    }
}

/// The number that a session ends with is that of the instances whose user store
/// it wrote.
pub proof fn session_counts_its_stores(
    fx: FxView,
    id: Seq<u16>,
    calls: Seq<PolicyCall>,
    write: PropertyWrite,
    guids: Seq<u128>,
    answers: spec_fn(Stage, int) -> bool,
)
    requires
        calls.len() > 0,
        guids.len() == instance_names(fx.instances).len(),
        outcome(SessionView::fresh(id, calls, Some(write), guids), answers).stage == Stage::Done,
    ensures
        outcome(SessionView::fresh(id, calls, Some(write), guids), answers).wrote == stores_among(
            fx,
            wrote_by(fx, answers),
            fx.instances.len() as int,
        ),
{
    session_outcome(id, calls, Some(write), guids, answers);
    lemma_same_count(fx, answers, fx.instances.len() as int);
    assert(fx.instances.take(fx.instances.len() as int) =~= fx.instances);
}

/// Where as many user stores are written as there are, each one is.
proof fn lemma_all_written(answers: spec_fn(Stage, int) -> bool, n: int, k: int)
    requires
        0 <= n,
    ensures
        stores_written(answers, n) <= n,
        stores_written(answers, n) == n && 0 <= k < n ==> answers(Stage::Activate, k) && answers(
            Stage::OpenStore,
            k,
        ) && answers(Stage::SetUser, k),
    decreases n,
{
    if n > 0 {
        lemma_all_written(answers, n - 1, k);
    }
}

/// An instance whose name could be read has a place among the names.
proof fn lemma_place(instances: Seq<Option<InstanceView>>, i: int)
    requires
        0 <= i < instances.len(),
        instances[i] is Some,
    ensures
        instance_names(instances.take(i)).len() < instance_names(instances).len(),
    decreases instances.len(),
{
    let before = instances.drop_last();
    if i == instances.len() - 1 {
        assert(instances.take(i) =~= before);
    } else {
        assert(before.take(i) =~= instances.take(i));
        lemma_place(before, i);
    }
}

/// A session that succeeds and writes as many user stores as there are instances
/// has written the store of every instance whose name could be read.
proof fn lemma_every_store(
    fx: FxView,
    id: Seq<u16>,
    calls: Seq<PolicyCall>,
    write: PropertyWrite,
    guids: Seq<u128>,
    answers: spec_fn(Stage, int) -> bool,
)
    requires
        calls.len() > 0,
        guids.len() == instance_names(fx.instances).len(),
        outcome(SessionView::fresh(id, calls, Some(write), guids), answers).stage == Stage::Done,
        outcome(SessionView::fresh(id, calls, Some(write), guids), answers).wrote == guids.len(),
    ensures
        forall|i: int|
            0 <= i < fx.instances.len() && #[trigger] fx.instances[i] is Some ==> wrote_by(
                fx,
                answers,
            )(i),
{
    session_outcome(id, calls, Some(write), guids, answers);
    assert forall|i: int|
        0 <= i < fx.instances.len() && #[trigger] fx.instances[i] is Some implies wrote_by(
        fx,
        answers,
    )(i) by {
        lemma_place(fx.instances, i);
        lemma_all_written(
            answers,
            guids.len() as int,
            instance_names(fx.instances.take(i)).len() as int,
        );
    }
}

/// A session that sets Loudness Equalization and ends with every user store
/// written leaves a setting that reads back.
pub proof fn finished_setting_reads_back(
    fx: FxView,
    enable: bool,
    id: Seq<u16>,
    guids: Seq<u128>,
    answers: spec_fn(Stage, int) -> bool,
)
    requires
        guids.len() == instance_names(fx.instances).len(),
        ({
            let s = SessionView::fresh(
                id,
                loudness_calls(enable, sysfx_disabled(Some(fx))),
                Some(PropertyWrite { property: Property::LoudnessEq, value: bool_property(enable) }),
                guids,
            );
            &&& outcome(s, answers).stage == Stage::Done
            &&& outcome(s, answers).wrote == guids.len()
        }),
    ensures
        loudness_state(Some(loudness_applied(fx, enable, wrote_by(fx, answers)))) == Some(enable),
        enable ==> !sysfx_disabled(Some(loudness_applied(fx, enable, wrote_by(fx, answers)))),
{
    lemma_every_store(
        fx,
        id,
        loudness_calls(enable, sysfx_disabled(Some(fx))),
        PropertyWrite { property: Property::LoudnessEq, value: bool_property(enable) },
        guids,
        answers,
    );
    live_setting_reads_back(fx, enable, wrote_by(fx, answers));
}

/// A session that sets the release time and ends with every user store written
/// leaves a release time that reads back.
pub proof fn finished_release_time_reads_back(
    fx: FxView,
    value: i32,
    id: Seq<u16>,
    guids: Seq<u128>,
    answers: spec_fn(Stage, int) -> bool,
)
    requires
        guids.len() == instance_names(fx.instances).len(),
        ({
            let s = SessionView::fresh(
                id,
                release_time_calls(value),
                Some(PropertyWrite { property: Property::ReleaseTime, value: i32_property(value) }),
                guids,
            );
            &&& outcome(s, answers).stage == Stage::Done
            &&& outcome(s, answers).wrote == guids.len()
        }),
    ensures
        release_time_state(Some(release_time_applied(fx, value, wrote_by(fx, answers)))) == Some(
            value as int,
        ),
{
    lemma_every_store(
        fx,
        id,
        release_time_calls(value),
        PropertyWrite { property: Property::ReleaseTime, value: i32_property(value) },
        guids,
        answers,
    );
    live_release_time_reads_back(fx, value, wrote_by(fx, answers));
}

} // verus!
