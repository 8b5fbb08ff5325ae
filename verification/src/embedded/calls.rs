//! What a caller can count on after each call of capture and of the broker.

use vstd::prelude::*;
use crate::embedded::broker::{
    accepted_configurations_are_in_force, capture_begins_with_the_native_hook, mapping_views,
    BrokerError, BrokerErrorView, EmbeddedBroker, NativeStep, Platform,
};
use crate::embedded::capture::{event_views, key_taken, optional_text, Core, CoreState};
use crate::embedded::edges::{
    an_end_keeps_what_it_does_not_cancel, reported_edges_are_delivered, taken_edges_are_handled,
    time_ends_learning_only_without_heartbeats,
};
use crate::embedded::mapping::{Action, Mapping};
use crate::embedded::{Event, EventView, Mode, Status, StopReason};
use crate::names::NameSet;

verus! {

/// A heartbeat is taken at its time and changes nothing else.
pub proof fn after_a_heartbeat(core: &mut Core, broker: &mut EmbeddedBroker, now: u64)
    requires
        call_ensures(Core::heartbeat, (core, now), ()),
        call_ensures(EmbeddedBroker::heartbeat, (broker, now), ()),
    ensures
        final(core)@.last_heartbeat == now,
        final(core)@ == (CoreState { last_heartbeat: now, ..old(core)@ }),
        final(broker)@.last_heartbeat == now,
        final(broker)@ == (CoreState { last_heartbeat: now, ..old(broker)@ }),
        final(broker).captures() == old(broker).captures(),
{
}

/// A drain hands over every waiting event, in its order, and leaves none behind; where capture is
/// not overdue nothing else changes.
pub proof fn after_a_drain(
    core: &mut Core,
    broker: &mut EmbeddedBroker,
    now: u64,
    core_events: Vec<Event>,
    broker_events: Vec<Event>,
)
    requires
        call_ensures(Core::drain, (core, now), core_events),
        call_ensures(EmbeddedBroker::drain, (broker, now), broker_events),
    ensures
        final(core)@.events.len() == 0,
        old(core)@.ticked(now) == old(core)@ ==> {
            &&& core_events@.len() == old(core)@.events.len()
            &&& forall|i: int|
                0 <= i < core_events@.len() ==> (#[trigger] core_events@[i])@
                    == old(core)@.events[i]
            &&& final(core)@ == (CoreState { events: Seq::empty(), ..old(core)@ })
        },
        final(broker)@.events.len() == 0,
        old(broker)@.ticked(now) == old(broker)@ ==> {
            &&& broker_events@.len() == old(broker)@.events.len()
            &&& forall|i: int|
                0 <= i < broker_events@.len() ==> (#[trigger] broker_events@[i])@
                    == old(broker)@.events[i]
            &&& final(broker)@ == (CoreState { events: Seq::empty(), ..old(broker)@ })
        },
{
    let core_seen = event_views(core_events@);
    let broker_seen = event_views(broker_events@);
    assert forall|i: int| 0 <= i < core_events@.len() implies (#[trigger] core_events@[i])@
        == core_seen[i] by {}
    assert forall|i: int| 0 <= i < broker_events@.len() implies (#[trigger] broker_events@[i])@
        == broker_seen[i] by {}
}

/// A reported press of a switch makes it held since then and a reported release makes it held no
/// more; either is delivered behind the waiting events, where fewer than 256 wait.
pub proof fn after_settling(
    core: &mut Core,
    action: Action,
    switch: String,
    now: u64,
    consumed: bool,
)
    requires
        call_ensures(Core::settle, (core, action, Some(switch), now), consumed),
        old(core)@.events.len() < 256,
    ensures
        consumed,
        action is Pressed ==> final(core)@.held.dom().contains(switch@) && final(core)@.held[switch@]
            == now,
        action is Released ==> !final(core)@.held.dom().contains(switch@),
        final(core)@.events == old(core)@.events.push(
            EventView::Switch {
                generation: old(core)@.status.generation,
                switch_id: switch@,
                action,
                monotonic_ms: now,
            },
        ),
        final(core)@.status == old(core)@.status,
{
    reported_edges_are_delivered(old(core)@, action, switch@, switch@, now);
    assert(final(core)@.events =~= final(core)@.events.drop_last().push(
        final(core)@.events.last(),
    ));
}

/// A key edge comes to what the edge does, whatever the switch state machine reports where it is
/// asked; where it is not asked, the result does not depend on it.
pub proof fn after_a_key_edge<F: FnOnce(String, Action, bool) -> Option<String>>(
    core: &mut Core,
    broker: &mut EmbeddedBroker,
    code: &str,
    pressed: bool,
    now: u64,
    apply: F,
    of_core: bool,
    of_broker: bool,
)
    requires
        call_ensures(Core::key::<F>, (core, code, pressed, now, apply), of_core),
        call_ensures(EmbeddedBroker::key::<F>, (broker, code, pressed, now, apply), of_broker),
    ensures
        exists|edge: Option<Seq<char>>|
            (final(core)@, of_core) == #[trigger] old(core)@.handled(code@, pressed, now, edge),
        exists|edge: Option<Seq<char>>|
            (final(broker)@, of_broker) == #[trigger] old(broker)@.handled(
                code@,
                pressed,
                now,
                edge,
            ),
        old(core)@.keyed(code@, pressed, now).1 is Done ==> (final(core)@, of_core) == old(
            core,
        )@.handled(code@, pressed, now, None),
        old(broker)@.keyed(code@, pressed, now).1 is Done ==> (final(broker)@, of_broker) == old(
            broker,
        )@.handled(code@, pressed, now, None),
{
    lemma_key_edge_is_handled(
        old(core)@,
        code@,
        pressed,
        now,
        apply,
        final(core)@,
        of_core,
    );
    lemma_key_edge_is_handled(
        old(broker)@,
        code@,
        pressed,
        now,
        apply,
        final(broker)@,
        of_broker,
    );
}

/// What was taken was handled, for some report.
proof fn lemma_key_edge_is_handled<F: FnOnce(String, Action, bool) -> Option<String>>(
    before: CoreState,
    code: Seq<char>,
    pressed: bool,
    now: u64,
    apply: F,
    after: CoreState,
    consumed: bool,
)
    requires
        key_taken(before, code, pressed, now, apply, after, consumed),
    ensures
        exists|edge: Option<Seq<char>>|
            (after, consumed) == #[trigger] before.handled(code, pressed, now, edge),
        before.keyed(code, pressed, now).1 is Done ==> (after, consumed) == before.handled(
            code,
            pressed,
            now,
            None,
        ),
{
    taken_edges_are_handled(before, code, pressed, now, apply, after, consumed);
    let (state, step) = before.keyed(code, pressed, now);
    if step is Done {
        assert((after, consumed) == before.handled(code, pressed, now, None));
    } else {
        let (id, edge) = choose|id: String, edge: Option<String>|
            {
                &&& id@ == step->mapping_id
                &&& #[trigger] call_ensures(
                    apply,
                    (id, step->action, step->release_first),
                    edge,
                )
                &&& (after, consumed) == before.handled(code, pressed, now, optional_text(edge))
            };
        assert((after, consumed) == before.handled(code, pressed, now, optional_text(edge)));
    }
}

/// A tick in learning changes nothing while the latest heartbeat is less than one and a half
/// seconds old, and afterwards ends learning for want of heartbeats.
pub proof fn after_a_tick_in_learning(core: &mut Core, broker: &mut EmbeddedBroker, now: u64)
    requires
        call_ensures(Core::tick, (core, now), ()),
        call_ensures(EmbeddedBroker::tick, (broker, now), ()),
        old(core)@.status.mode is Learning,
        old(broker)@.status.mode is Learning,
    ensures
        now - old(core)@.last_heartbeat < 1500 ==> final(core)@ == old(core)@,
        now - old(core)@.last_heartbeat >= 1500 ==> final(core)@.status.mode is Off
            && final(core)@.status.reason == Some(StopReason::HeartbeatTimeout),
        now - old(broker)@.last_heartbeat < 1500 ==> final(broker)@ == old(broker)@,
        now - old(broker)@.last_heartbeat >= 1500 ==> final(broker)@.status.mode is Off
            && final(broker)@.status.reason == Some(StopReason::HeartbeatTimeout),
{
    time_ends_learning_only_without_heartbeats(old(core)@, now);
    time_ends_learning_only_without_heartbeats(old(broker)@, now);
}

/// A release of every switch is asked for once: what was due is due no more, and nothing else
/// changes.
pub proof fn after_taking_a_release(core: &mut Core, broker: &mut EmbeddedBroker, a: bool, b: bool)
    requires
        call_ensures(Core::take_release, (core,), a),
        call_ensures(EmbeddedBroker::take_release, (broker,), b),
    ensures
        a == old(core)@.release_due,
        final(core)@ == (CoreState { release_due: false, ..old(core)@ }),
        b == old(broker)@.release_due,
        final(broker)@ == (CoreState { release_due: false, ..old(broker)@ }),
{
}

/// A new broker is off in generation zero, and its status is what its owner asks for.
pub proof fn of_a_new_broker(platform: Platform, broker: EmbeddedBroker, status: Status)
    requires
        call_ensures(EmbeddedBroker::new, (platform,), broker),
        call_ensures(EmbeddedBroker::status, (&broker,), status),
    ensures
        broker.captures() == platform,
        broker@.events.len() == 0,
        status == broker@.status,
        status.mode is Off && status.generation == 0 && status.reason is None,
{
}

/// A configuration that was accepted has its escape hold in force, with its mappings; one that was
/// refused changes nothing.
pub proof fn after_a_configuration(
    broker: &mut EmbeddedBroker,
    mappings: &[Mapping],
    escape_ms: u64,
    r: Result<(), BrokerError>,
)
    requires
        call_ensures(EmbeddedBroker::configure, (broker, mappings, escape_ms), r),
    ensures
        r is Ok ==> {
            &&& old(broker)@.status.mode is Off
            &&& escape_ms >= 4000
            &&& final(broker)@.escape_ms == escape_ms
            &&& final(broker)@.status == old(broker)@.status
            &&& final(broker)@.events == old(broker)@.events
        },
        r is Err ==> final(broker)@ == old(broker)@,
{
    accepted_configurations_are_in_force(
        old(broker)@,
        old(broker).captures(),
        mapping_views(mappings@),
        escape_ms,
    );
}

/// What has to be done about the native hook: nothing where it runs and was not lost, a start
/// where there is none, and a restart where it was lost.
pub proof fn of_the_native_hook(
    broker: &EmbeddedBroker,
    running: bool,
    r: Result<NativeStep, BrokerError>,
)
    requires
        call_ensures(EmbeddedBroker::prepare, (broker, running), r),
    ensures
        r is Ok <==> broker@.status.mode is Off && !(broker.captures() is Other),
        r matches Ok(step) ==> {
            &&& step is Keep <==> running && !broker@.native_lost
            &&& step is Start <==> !running
            &&& step is Restart <==> running && broker@.native_lost
        },
        r matches Err(e) ==> e@ == if broker@.status.mode is Off {
            BrokerErrorView::UnsupportedPlatform
        } else {
            BrokerErrorView::AlreadyActive
        },
{
}

/// Capture is on after a request to begin exactly where the request succeeded, and then in the mode
/// and generation that were asked for and reported; where the native hook is not up it fails, and
/// a failure changes nothing.
pub proof fn after_a_request_to_begin(
    broker: &mut EmbeddedBroker,
    learner: &mut EmbeddedBroker,
    native: Result<(), String>,
    now: u64,
    enabled: Result<u64, BrokerError>,
    learning: Result<u64, BrokerError>,
)
    requires
        call_ensures(EmbeddedBroker::enable, (broker, native, now), enabled),
        call_ensures(EmbeddedBroker::learn, (learner, native, now), learning),
    ensures
        native is Err ==> enabled is Err && learning is Err,
        enabled is Err ==> final(broker)@ == old(broker)@,
        learning is Err ==> final(learner)@ == old(learner)@,
        enabled matches Ok(generation) ==> {
            &&& old(broker)@.status.mode is Off
            &&& final(broker)@.status.mode is Active
            &&& final(broker)@.status.generation == generation
            &&& generation != old(broker)@.status.generation
            &&& final(broker)@.last_heartbeat == now
            &&& final(broker)@.escape_ms == old(broker)@.escape_ms
            &&& final(broker)@.mappings == old(broker)@.mappings
        },
        learning matches Ok(generation) ==> {
            &&& old(learner)@.status.mode is Off
            &&& final(learner)@.status.mode is Learning
            &&& final(learner)@.status.generation == generation
            &&& generation != old(learner)@.status.generation
            &&& final(learner)@.last_heartbeat == now
        },
        old(broker)@.status.mode is Off && !(old(broker).captures() is Other) && native is Ok
            && !old(broker)@.native_lost && old(broker)@.physical == Set::<Seq<char>>::empty()
            && old(broker)@.down == Set::<Seq<char>>::empty() ==> enabled is Ok,
{
    let failure = match native {
        Ok(_) => None,
        Err(text) => Some(text@),
    };
    capture_begins_with_the_native_hook(
        old(broker)@,
        old(broker).captures(),
        failure,
        Mode::Active,
        now,
    );
    capture_begins_with_the_native_hook(
        old(learner)@,
        old(learner).captures(),
        failure,
        Mode::Learning,
        now,
    );
}

/// A stop ends capture as disabled and keeps the configuration and the outstanding releases; a
/// shutdown does the same and forgets which keys are held.
pub proof fn after_a_stop(stopped: &mut EmbeddedBroker, gone: &mut EmbeddedBroker)
    requires
        call_ensures(EmbeddedBroker::stop, (stopped,), ()),
        call_ensures(EmbeddedBroker::shutdown, (gone,), ()),
    ensures
        final(stopped)@.status.mode is Off,
        final(stopped)@.status.reason == Some(StopReason::Disabled),
        final(stopped)@.events == seq![
            EventView::Stopped {
                generation: old(stopped)@.status.generation,
                reason: StopReason::Disabled,
            },
        ],
        final(stopped)@.physical == old(stopped)@.physical,
        final(stopped)@.down == old(stopped)@.down,
        final(stopped)@.escape_ms == old(stopped)@.escape_ms,
        final(stopped)@.mappings == old(stopped)@.mappings,
        final(gone)@.status.mode is Off,
        final(gone)@.status.reason == Some(StopReason::Disabled),
        final(gone)@.physical == Set::<Seq<char>>::empty(),
        final(gone)@.down == Set::<Seq<char>>::empty(),
        final(gone)@.escape_ms == old(gone)@.escape_ms,
        final(gone)@.mappings == old(gone)@.mappings,
        final(gone)@.native_lost == old(gone)@.native_lost,
{
    an_end_keeps_what_it_does_not_cancel(old(stopped)@, StopReason::Disabled);
    an_end_keeps_what_it_does_not_cancel(old(gone)@, StopReason::Disabled);
}

/// A lost hook is remembered and ends capture; a hook that comes up is not lost, and the keys that
/// are down are those that it sees.
pub proof fn after_a_change_of_the_hook(
    lost: &mut EmbeddedBroker,
    up: &mut EmbeddedBroker,
    down: NameSet,
)
    requires
        call_ensures(EmbeddedBroker::lost, (lost,), ()),
        call_ensures(EmbeddedBroker::ready, (up, down), ()),
    ensures
        final(lost)@.native_lost,
        final(lost)@.status.mode is Off,
        final(lost)@.status.reason == Some(StopReason::CaptureLost),
        !final(up)@.native_lost,
        final(up)@.down == down@,
        final(up)@.physical == old(up)@.physical.intersect(down@),
        final(up)@.status == old(up)@.status,
        final(up)@.mappings == old(up)@.mappings,
{
}

/// The clock gives the milliseconds as they are, up to the greatest that it can show.
pub proof fn of_the_clock(elapsed_ms: u128, r: u64)
    requires
        call_ensures(EmbeddedBroker::monotonic_ms, (elapsed_ms,), r),
    ensures
        elapsed_ms <= 0xffff_ffff_ffff_ffff ==> r == elapsed_ms,
        elapsed_ms > 0xffff_ffff_ffff_ffff ==> r == 0xffff_ffff_ffff_ffff,
{
}

/// A press is applied at the full level and a release at none.
pub proof fn of_levels(action: Action, percent: u8)
    requires
        call_ensures(Action::level, (action,), percent),
    ensures
        action is Pressed ==> percent == 100,
        action is Released ==> percent == 0,
{
}

} // verus!
