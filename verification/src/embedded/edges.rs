//! What each edge, tick and cancellation does to capture, mode by mode: what is withheld, what the
//! consumer gets, and what stays as it is.

use vstd::prelude::*;
use crate::embedded::broker::mapping_views;
use crate::embedded::capture::{
    allowed, event_views, key_taken, may_ask, optional_text, reports, Core, CoreState,
    KeyStepView,
};
use crate::embedded::mapping::{Action, Mapping};
use crate::embedded::{
    Event, EventView, Mode, Status, StopReason, HEARTBEAT_INTERVAL_MS, HEARTBEAT_TIMEOUT_MS,
    MINIMUM_ESCAPE_MS, QUEUE_LIMIT,
};
use crate::names::{any_older, elapsed};

verus! {

/// Heartbeats are due twice a second, and one and a half seconds without one end capture; 256
/// events may wait, and no hold of less than four seconds ends capture.
pub proof fn documented_limits()
    ensures
        HEARTBEAT_INTERVAL_MS == 500,
        HEARTBEAT_TIMEOUT_MS == 1500,
        QUEUE_LIMIT == 256,
        MINIMUM_ESCAPE_MS == 4000,
{
}

/// Capture that has not begun is off in generation zero, knows no key, mapping or switch, has
/// nothing to deliver, and would end for a hold of four seconds.
pub proof fn nothing_is_captured_at_first()
    ensures
        ({
            let s = CoreState::initial();
            &&& s.status.mode is Off
            &&& s.status.generation == 0
            &&& s.status.reason is None
            &&& !s.native_lost
            &&& !s.release_due
            &&& s.mappings.dom() == Set::<Seq<char>>::empty()
            &&& s.physical == Set::<Seq<char>>::empty()
            &&& s.down == Set::<Seq<char>>::empty()
            &&& s.held.dom() == Set::<Seq<char>>::empty()
            &&& s.learned is None
            &&& s.escape_ms == 4000
            &&& s.last_heartbeat == 0
            &&& s.events.len() == 0
        }),
{
}

/// An end of capture keeps the generation, the escape hold, the latest heartbeat and everything
/// that is known of keys and mappings. It leaves one event, itself, and asks that every switch be
/// released.
pub proof fn an_end_keeps_what_it_does_not_cancel(s: CoreState, reason: StopReason)
    ensures
        ({
            let after = s.stopped(reason);
            &&& after.status.generation == s.status.generation
            &&& after.status.mode is Off
            &&& after.status.reason == Some(reason)
            &&& after.release_due
            &&& after.learned is None
            &&& after.events.len() == 1
            &&& after.events[0] == (EventView::Stopped { generation: s.status.generation, reason })
            &&& forall|switch: Seq<char>| !(#[trigger] after.held.dom().contains(switch))
            &&& after.escape_ms == s.escape_ms
            &&& after.last_heartbeat == s.last_heartbeat
            &&& after.native_lost == s.native_lost
            &&& after.mappings == s.mappings
            &&& after.physical == s.physical
            &&& after.down == s.down
        }),
{
}

/// A new generation keeps the escape hold and everything that is known of keys, mappings and the
/// native hook, and starts with no gesture in progress and every switch to be released.
pub proof fn a_beginning_keeps_what_was_configured(s: CoreState, mode: Mode, now: u64)
    ensures
        ({
            let after = s.begun(mode, now);
            &&& after.status.mode == mode
            &&& after.status.reason is None
            &&& after.status.generation == if s.status.generation == u64::MAX {
                0
            } else {
                s.status.generation + 1
            }
            &&& after.release_due
            &&& after.learned is None
            &&& after.events.len() == 0
            &&& forall|switch: Seq<char>| !(#[trigger] after.held.dom().contains(switch))
            &&& after.last_heartbeat == now
            &&& after.escape_ms == s.escape_ms
            &&& after.native_lost == s.native_lost
            &&& after.mappings == s.mappings
            &&& after.physical == s.physical
            &&& after.down == s.down
        }),
{
}

/// A native failure ends capture and is remembered; a native hook that comes up clears it, says
/// which keys are down, and leaves outstanding exactly the releases of keys that it sees down.
/// Neither touches mappings, the escape hold or the generation, and a hook that comes up neither
/// begins nor ends capture.
pub proof fn native_changes_touch_nothing_else(
    s: CoreState,
    down: Set<Seq<char>>,
    code: Seq<char>,
)
    ensures
        s.native_failed() == (CoreState {
            native_lost: true,
            ..s.stopped(StopReason::CaptureLost)
        }),
        s.native_failed().escape_ms == s.escape_ms,
        s.native_failed().mappings == s.mappings,
        ({
            let after = s.native_ready(down);
            &&& !after.native_lost
            &&& after.down == down
            &&& after.physical.contains(code) <==> s.physical.contains(code) && down.contains(code)
            &&& after == (CoreState {
                native_lost: false,
                down,
                physical: after.physical,
                ..s
            })
        }),
{
}

/// While learning, time alone ends capture exactly where one and a half seconds have passed since
/// the latest heartbeat, and for that reason; before that a tick changes nothing. No hold ends
/// learning.
pub proof fn time_ends_learning_only_without_heartbeats(s: CoreState, now: u64)
    requires
        s.status.mode is Learning,
    ensures
        now - s.last_heartbeat >= 1500 ==> {
            &&& s.ticked(now).status.mode is Off
            &&& s.ticked(now).status.reason == Some(StopReason::HeartbeatTimeout)
            &&& s.ticked(now) == s.stopped(StopReason::HeartbeatTimeout)
        },
        now - s.last_heartbeat < 1500 ==> s.ticked(now) == s,
        s.ticked(now) != s.stopped(StopReason::HoldEscape),
{
    assert(s.stopped(StopReason::HoldEscape).status.mode is Off);
    assert(s.stopped(StopReason::HoldEscape).status.reason == Some(StopReason::HoldEscape));
}

/// While active, time alone ends capture exactly where no heartbeat came for one and a half
/// seconds, or else where some switch has been held for the escape duration; otherwise a tick
/// changes nothing.
pub proof fn time_ends_active_capture_for_two_reasons(s: CoreState, now: u64)
    requires
        s.status.mode is Active,
        s.escape_ms > 0,
    ensures
        now - s.last_heartbeat >= 1500 ==> s.ticked(now) == s.stopped(StopReason::HeartbeatTimeout),
        now - s.last_heartbeat < 1500 && (exists|switch: Seq<char>| #[trigger]
            s.held.dom().contains(switch) && now - s.held[switch] >= s.escape_ms) ==> s.ticked(now)
            == s.stopped(StopReason::HoldEscape),
        now - s.last_heartbeat < 1500 && (forall|switch: Seq<char>| #[trigger]
            s.held.dom().contains(switch) ==> now - s.held[switch] < s.escape_ms) ==> s.ticked(now)
            == s,
{
}

/// While capture is off, time changes nothing.
pub proof fn time_changes_nothing_while_off(s: CoreState, now: u64)
    requires
        s.status.mode is Off,
    ensures
        s.ticked(now) == s,
{
}

/// An age is the time since a moment, and none where the moment lies ahead.
pub proof fn ages_are_differences(since: Map<Seq<char>, u64>, now: u64, start: u64, age: u64)
    ensures
        now >= start ==> elapsed(now, start) == now - start,
        now <= start ==> elapsed(now, start) == 0,
        age > 0 ==> (any_older(since, now, age) <==> exists|name: Seq<char>| #[trigger]
            since.dom().contains(name) && since[name] + age <= now),
{
    if age > 0 {
        if any_older(since, now, age) {
            let name = choose|name: Seq<char>| #[trigger]
                since.dom().contains(name) && elapsed(now, since[name]) >= age;
            assert(since.dom().contains(name) && since[name] + age <= now);
        }
        if exists|name: Seq<char>| #[trigger]
            since.dom().contains(name) && since[name] + age <= now {
            let name = choose|name: Seq<char>| #[trigger]
                since.dom().contains(name) && since[name] + age <= now;
            assert(since.dom().contains(name) && elapsed(now, since[name]) >= age);
        }
    }
}

/// Fewer than 256 events wait: a reported switch edge joins them at the end, capture goes on as it
/// was, the switch is held since `now` after a press and not held after a release, and every other
/// switch keeps its hold.
pub proof fn reported_edges_are_delivered(
    s: CoreState,
    action: Action,
    switch: Seq<char>,
    other: Seq<char>,
    now: u64,
)
    requires
        s.events.len() < 256,
    ensures
        ({
            let after = s.settled(action, Some(switch), now);
            &&& after.events.len() == s.events.len() + 1
            &&& after.events.last() == (EventView::Switch {
                generation: s.status.generation,
                switch_id: switch,
                action,
                monotonic_ms: now,
            })
            &&& after.events.drop_last() == s.events
            &&& action is Pressed ==> after.held.dom().contains(switch) && after.held[switch] == now
            &&& action is Released ==> !after.held.dom().contains(switch)
            &&& other != switch ==> {
                &&& after.held.dom().contains(other) == s.held.dom().contains(other)
                &&& s.held.dom().contains(other) ==> after.held[other] == s.held[other]
            }
            &&& after == (CoreState { held: after.held, events: after.events, ..s })
        }),
{
    let after = s.settled(action, Some(switch), now);
    assert(after.events.drop_last() =~= s.events);
}

/// A queue overflows only where it already holds 256 events; then the reported edge ends capture
/// for that reason and is not delivered. An edge that changed no switch changes nothing.
pub proof fn only_a_full_queue_overflows(
    s: CoreState,
    action: Action,
    switch: Seq<char>,
    event: EventView,
    now: u64,
)
    ensures
        s.events.len() >= 256 ==> {
            &&& s.settled(action, Some(switch), now).status.reason == Some(
                StopReason::QueueOverflow,
            )
            &&& s.settled(action, Some(switch), now) == s.stopped(StopReason::QueueOverflow)
            &&& s.emitted(event) == s.stopped(StopReason::QueueOverflow)
        },
        s.events.len() < 256 ==> {
            &&& s.settled(action, Some(switch), now).status == s.status
            &&& s.emitted(event) == (CoreState { events: s.events.push(event), ..s })
        },
        s.settled(action, None, now) == s,
{
}

/// An edge that finds capture overdue is an edge while capture is off: time passes first.
pub proof fn time_passes_before_an_edge(
    s: CoreState,
    code: Seq<char>,
    pressed: bool,
    now: u64,
    edge: Option<Seq<char>>,
)
    ensures
        s.handled(code, pressed, now, edge) == s.ticked(now).handled(code, pressed, now, edge),
        s.keyed(code, pressed, now) == s.ticked(now).keyed(code, pressed, now),
{
}

/// An edge while capture is off is withheld exactly where the key's release is outstanding. A
/// release is then outstanding no more, and nothing else changes but which keys are down.
pub proof fn edges_while_off(
    s: CoreState,
    code: Seq<char>,
    pressed: bool,
    now: u64,
    edge: Option<Seq<char>>,
    other: Seq<char>,
)
    requires
        s.status.mode is Off,
    ensures
        ({
            let (after, withheld) = s.handled(code, pressed, now, edge);
            &&& withheld == s.physical.contains(code)
            &&& s.keyed(code, pressed, now).1 is Done
            &&& after.down.contains(code) == pressed
            &&& after.physical.contains(code) == (pressed && s.physical.contains(code))
            &&& other != code ==> {
                &&& after.down.contains(other) == s.down.contains(other)
                &&& after.physical.contains(other) == s.physical.contains(other)
            }
            &&& after == (CoreState { down: after.down, physical: after.physical, ..s })
        }),
{
}

/// An edge of Escape while capture is on and in time is always withheld. A press ends capture for
/// that reason, a release changes only what is known of the key.
pub proof fn edges_of_escape(
    s: CoreState,
    pressed: bool,
    now: u64,
    edge: Option<Seq<char>>,
    other: Seq<char>,
)
    requires
        !(s.status.mode is Off),
        s.ticked(now) == s,
    ensures
        ({
            let (after, withheld) = s.handled("Escape"@, pressed, now, edge);
            &&& withheld
            &&& s.keyed("Escape"@, pressed, now).1 is Done
            &&& after.down.contains("Escape"@) == pressed
            &&& after.physical.contains("Escape"@) == pressed
            &&& other != "Escape"@ ==> {
                &&& after.down.contains(other) == s.down.contains(other)
                &&& after.physical.contains(other) == s.physical.contains(other)
            }
            &&& pressed ==> after.status.reason == Some(StopReason::Escape) && after == (CoreState {
                down: after.down,
                physical: after.physical,
                ..s.stopped(StopReason::Escape)
            })
            &&& !pressed ==> after == (CoreState {
                down: after.down,
                physical: after.physical,
                ..s
            })
        }),
{
}

/// A press while learning, in time and not of Escape: a key that was up is withheld, and learned
/// where it is the first; a repeat is withheld where its press was. Nothing is delivered, and no
/// switch is driven.
pub proof fn presses_while_learning(
    s: CoreState,
    code: Seq<char>,
    now: u64,
    edge: Option<Seq<char>>,
    other: Seq<char>,
)
    requires
        s.status.mode is Learning,
        now - s.last_heartbeat < 1500,
        code != "Escape"@,
    ensures
        ({
            let (after, withheld) = s.handled(code, true, now, edge);
            let anew = !s.down.contains(code);
            &&& withheld == (anew || s.physical.contains(code))
            &&& s.keyed(code, true, now).1 is Done
            &&& after.down.contains(code)
            &&& after.physical.contains(code) == withheld
            &&& after.learned == if anew && s.learned is None {
                Some(code)
            } else {
                s.learned
            }
            &&& other != code ==> {
                &&& after.down.contains(other) == s.down.contains(other)
                &&& after.physical.contains(other) == s.physical.contains(other)
            }
            &&& after == (CoreState {
                down: after.down,
                physical: after.physical,
                learned: after.learned,
                ..s
            })
        }),
{
}

/// A release while learning, in time and not of Escape: it is withheld exactly where its press
/// was. Where the press was that of the learned key, learning ends without a stop and the key is
/// delivered as learned; otherwise learning goes on.
pub proof fn releases_while_learning(
    s: CoreState,
    code: Seq<char>,
    now: u64,
    edge: Option<Seq<char>>,
    other: Seq<char>,
)
    requires
        s.status.mode is Learning,
        now - s.last_heartbeat < 1500,
        code != "Escape"@,
        s.events.len() < 256,
    ensures
        ({
            let (after, withheld) = s.handled(code, false, now, edge);
            let complete = s.physical.contains(code) && s.learned == Some(code);
            &&& withheld == s.physical.contains(code)
            &&& s.keyed(code, false, now).1 is Done
            &&& !after.down.contains(code)
            &&& !after.physical.contains(code)
            &&& other != code ==> {
                &&& after.down.contains(other) == s.down.contains(other)
                &&& after.physical.contains(other) == s.physical.contains(other)
            }
            &&& complete ==> {
                &&& after.status == (Status { mode: Mode::Off, ..s.status })
                &&& after.learned is None
                &&& after.events == s.events.push(
                    EventView::Learned { generation: s.status.generation, code },
                )
            }
            &&& !complete ==> after.status == s.status && after.learned == s.learned
                && after.events == s.events
            &&& after == (CoreState {
                status: after.status,
                learned: after.learned,
                events: after.events,
                down: after.down,
                physical: after.physical,
                ..s
            })
        }),
{
    let (after, withheld) = s.handled(code, false, now, edge);
    assert(!s.physical.contains(code) ==> s.physical.remove(code) =~= s.physical);
}

/// An edge while active, in time and not of Escape, of a key that is not mapped passes, and so
/// does an unmatched release; a repeat is withheld where its press was. None of them drives a
/// switch or changes anything but which keys are down.
pub proof fn edges_that_drive_nothing(
    s: CoreState,
    code: Seq<char>,
    pressed: bool,
    now: u64,
    edge: Option<Seq<char>>,
    other: Seq<char>,
)
    requires
        s.status.mode is Active,
        s.ticked(now) == s,
        code != "Escape"@,
        !s.mappings.dom().contains(code) || if pressed {
            s.down.contains(code) || s.physical.contains(code)
        } else {
            !s.physical.contains(code)
        },
    ensures
        ({
            let (after, withheld) = s.handled(code, pressed, now, edge);
            &&& withheld == (s.mappings.dom().contains(code) && pressed && s.physical.contains(
                code,
            ))
            &&& s.keyed(code, pressed, now).1 is Done
            &&& after.down.contains(code) == pressed
            &&& other != code ==> after.down.contains(other) == s.down.contains(other)
            &&& after == (CoreState { down: after.down, ..s })
        }),
{
}

/// An edge while active, in time and not of Escape, that changes the state of a mapped key: a
/// press of a key that was up, or the release of one that was withheld. It is withheld, and the
/// switch state machine is asked once, for the key's mapping and this action, after the release
/// of every switch that is due. What it reports is delivered, and capture goes on.
pub proof fn edges_that_drive_a_switch(
    s: CoreState,
    code: Seq<char>,
    pressed: bool,
    now: u64,
    edge: Option<Seq<char>>,
    other: Seq<char>,
)
    requires
        s.status.mode is Active,
        s.ticked(now) == s,
        code != "Escape"@,
        s.mappings.dom().contains(code),
        pressed ==> !s.down.contains(code) && !s.physical.contains(code),
        !pressed ==> s.physical.contains(code),
        s.events.len() < 256,
    ensures
        ({
            let (after, withheld) = s.handled(code, pressed, now, edge);
            let action = if pressed {
                Action::Pressed
            } else {
                Action::Released
            };
            &&& withheld
            &&& s.keyed(code, pressed, now).1 == (KeyStepView::Apply {
                mapping_id: s.mappings[code],
                action,
                release_first: s.release_due,
            })
            &&& !after.release_due
            &&& after.down.contains(code) == pressed
            &&& after.physical.contains(code) == pressed
            &&& other != code ==> {
                &&& after.down.contains(other) == s.down.contains(other)
                &&& after.physical.contains(other) == s.physical.contains(other)
            }
            &&& after.events == match edge {
                Some(switch) => s.events.push(
                    EventView::Switch {
                        generation: s.status.generation,
                        switch_id: switch,
                        action,
                        monotonic_ms: now,
                    },
                ),
                None => s.events,
            }
            &&& forall|switch: Seq<char>| #[trigger]
                after.held.dom().contains(switch) <==> if edge == Some(switch) {
                    pressed
                } else {
                    s.held.dom().contains(switch)
                }
            &&& forall|switch: Seq<char>| #[trigger]
                after.held.dom().contains(switch) ==> after.held[switch] == if edge == Some(
                    switch,
                ) {
                    now
                } else {
                    s.held[switch]
                }
            &&& after == (CoreState {
                release_due: false,
                down: after.down,
                physical: after.physical,
                held: after.held,
                events: after.events,
                ..s
            })
        }),
{
}

/// An edge that drives a switch while 256 events wait is withheld and ends capture for that
/// reason, if the switch state machine reports a change; the key's state is kept track of.
pub proof fn edges_that_overflow(
    s: CoreState,
    code: Seq<char>,
    pressed: bool,
    now: u64,
    switch: Seq<char>,
)
    requires
        s.status.mode is Active,
        s.ticked(now) == s,
        code != "Escape"@,
        s.mappings.dom().contains(code),
        pressed ==> !s.down.contains(code) && !s.physical.contains(code),
        !pressed ==> s.physical.contains(code),
        s.events.len() >= 256,
    ensures
        ({
            let (after, withheld) = s.handled(code, pressed, now, Some(switch));
            &&& withheld
            &&& after.status.reason == Some(StopReason::QueueOverflow)
            &&& after.release_due
            &&& after.physical.contains(code) == pressed
            &&& after.down.contains(code) == pressed
            &&& after == (CoreState {
                down: after.down,
                physical: after.physical,
                ..s.stopped(StopReason::QueueOverflow)
            })
        }),
{
    let (after, withheld) = s.handled(code, pressed, now, Some(switch));
    assert(after =~= CoreState {
        down: after.down,
        physical: after.physical,
        ..s.stopped(StopReason::QueueOverflow)
    });
}

/// No edge touches mappings, the escape hold, the latest heartbeat, the native hook or the
/// generation.
pub proof fn edges_leave_the_configuration(
    s: CoreState,
    code: Seq<char>,
    pressed: bool,
    now: u64,
    edge: Option<Seq<char>>,
)
    ensures
        ({
            let after = s.handled(code, pressed, now, edge).0;
            &&& after.mappings == s.mappings
            &&& after.escape_ms == s.escape_ms
            &&& after.last_heartbeat == s.last_heartbeat
            &&& after.native_lost == s.native_lost
            &&& after.status.generation == s.status.generation
        }),
{
}

/// Taking an edge comes to what the edge does, for something that the switch state machine may
/// report where it is asked, and for any report where it is not.
pub proof fn taken_edges_are_handled<F: FnOnce(String, Action, bool) -> Option<String>>(
    before: CoreState,
    code: Seq<char>,
    pressed: bool,
    now: u64,
    apply: F,
    after: CoreState,
    consumed: bool,
)
    requires
        key_taken(before, code, pressed, now, apply, after, consumed),
    ensures
        before.keyed(code, pressed, now).1 is Done ==> (after, consumed) == before.handled(
            code,
            pressed,
            now,
            None,
        ),
        before.keyed(code, pressed, now).1 is Apply ==> exists|id: String, edge: Option<String>|
            {
                &&& id@ == before.keyed(code, pressed, now).1->mapping_id
                &&& #[trigger] call_ensures(
                    apply,
                    (
                        id,
                        before.keyed(code, pressed, now).1->action,
                        before.keyed(code, pressed, now).1->release_first,
                    ),
                    edge,
                )
                &&& (after, consumed) == before.handled(code, pressed, now, optional_text(edge))
            },
{
    let (state, step) = before.keyed(code, pressed, now);
    if step is Apply {
        let edge = choose|edge: Option<String>| #[trigger]
            reports(apply, step->mapping_id, step->action, step->release_first, edge) && after
                == state.settled(step->action, optional_text(edge), now);
        assert(reports(apply, step->mapping_id, step->action, step->release_first, edge));
        let id = choose|id: String|
            id@ == step->mapping_id && #[trigger] call_ensures(
                apply,
                (id, step->action, step->release_first),
                edge,
            );
        assert(call_ensures(apply, (id, step->action, step->release_first), edge));
        assert((after, consumed) == before.handled(code, pressed, now, optional_text(edge)));
    }
}

/// The switch state machine has to take what a step asks, and nothing where the step asks nothing.
pub proof fn the_machine_takes_what_is_asked<F: FnOnce(String, Action, bool) -> Option<String>>(
    apply: F,
    step: KeyStepView,
    id: String,
)
    ensures
        step is Done ==> may_ask(apply, step),
        step is Apply && may_ask(apply, step) && id@ == step->mapping_id ==> call_requires(
            apply,
            (id, step->action, step->release_first),
        ),
{
    if step is Apply && may_ask(apply, step) {
        assert(allowed(apply, id, step->mapping_id, step->action, step->release_first));
    }
}

/// An event is seen with everything that it holds, and belongs to the generation that it names.
pub proof fn events_are_seen_as_they_are(
    generation: u64,
    text: String,
    action: Action,
    monotonic_ms: u64,
    reason: StopReason,
)
    ensures
        (Event::Switch { generation, switch_id: text, action, monotonic_ms })@ == (
        EventView::Switch { generation, switch_id: text@, action, monotonic_ms }),
        (Event::Learned { generation, code: text })@ == (EventView::Learned {
            generation,
            code: text@,
        }),
        (Event::Stopped { generation, reason })@ == (EventView::Stopped { generation, reason }),
        (EventView::Switch { generation, switch_id: text@, action, monotonic_ms }).generation()
            == generation,
        (EventView::Learned { generation, code: text@ }).generation() == generation,
        (EventView::Stopped { generation, reason }).generation() == generation,
{
}

/// Capture is seen with everything that it holds, its events in their order.
pub proof fn capture_is_seen_as_it_is(core: Core, i: int)
    ensures
        core@.status == core.status,
        core@.native_lost == core.native_lost,
        core@.mappings == core.mappings@,
        core@.release_due == core.release_due,
        core@.physical == core.physical@,
        core@.down == core.down@,
        core@.held == core.held@,
        core.learned is None ==> core@.learned is None,
        core.learned matches Some(code) ==> core@.learned == Some(code@),
        core@.escape_ms == core.escape_ms,
        core@.last_heartbeat == core.last_heartbeat,
        core@.events.len() == core.events@.len(),
        0 <= i < core.events@.len() ==> core@.events[i] == core.events@[i]@,
{
}

/// Events and mappings are seen one by one, in their order, and an optional text where it is
/// there.
pub proof fn lists_are_seen_in_order(
    events: Seq<Event>,
    mappings: Seq<Mapping>,
    text: String,
    i: int,
)
    ensures
        event_views(events).len() == events.len(),
        0 <= i < events.len() ==> event_views(events)[i] == events[i]@,
        mapping_views(mappings).len() == mappings.len(),
        0 <= i < mappings.len() ==> mapping_views(mappings)[i] == mappings[i]@,
        optional_text(Some(text)) == Some(text@),
        optional_text(None) is None,
{
}

} // verus!
