//! What the capture state machine promises.

use vstd::prelude::*;
use crate::embedded::capture::{next_generation, CoreState, KeyStepView};
use crate::embedded::mapping::Action;
use crate::embedded::{
    EventView, Mode, StopReason, HEARTBEAT_INTERVAL_MS, HEARTBEAT_TIMEOUT_MS, QUEUE_LIMIT,
};
use crate::names::{any_older, elapsed};

verus! {

/// Capture starts out sound.
pub proof fn initial_is_sound()
    ensures
        CoreState::initial().sound(),
{
}

/// Ending capture keeps it sound.
pub proof fn stopping_is_sound(s: CoreState, reason: StopReason)
    requires
        s.sound(),
    ensures
        s.stopped(reason).sound(),
        s.native_failed().sound(),
{
}

/// Time that passes keeps capture sound.
pub proof fn ticking_is_sound(s: CoreState, now: u64)
    requires
        s.sound(),
    ensures
        s.ticked(now).sound(),
        (CoreState { events: Seq::empty(), ..s.ticked(now) }).sound(),
        (CoreState { last_heartbeat: now, ..s }).sound(),
{
}

/// Beginning with no key down keeps capture sound.
pub proof fn beginning_is_sound(s: CoreState, mode: Mode, now: u64)
    requires
        s.sound(),
        s.physical == Set::<Seq<char>>::empty(),
        s.down == Set::<Seq<char>>::empty(),
    ensures
        s.begun(mode, now).sound(),
{
}

/// A native hook that comes up keeps capture sound, where capture is off or the escape key is up.
pub proof fn readiness_is_sound(s: CoreState, down: Set<Seq<char>>)
    requires
        s.sound(),
        s.status.mode is Off || !down.contains("Escape"@),
    ensures
        s.native_ready(down).sound(),
{
}

/// Every key edge keeps capture sound, whatever the switch state machine reports.
pub proof fn key_edges_are_sound(
    s: CoreState,
    code: Seq<char>,
    pressed: bool,
    now: u64,
    edge: Option<Seq<char>>,
)
    requires
        s.sound(),
    ensures
        s.handled(code, pressed, now, edge).0.sound(),
{
    ticking_is_sound(s, now);
}

/// A cancellation discards every pending edge and gesture and leaves one event, itself. Which
/// keys are down or withheld, the mappings and a native failure stay as they are.
pub proof fn cancellation_discards_pending_edges(s: CoreState, reason: StopReason)
    ensures
        s.stopped(reason).events == seq![
            EventView::Stopped { generation: s.status.generation, reason },
        ],
        s.stopped(reason).held == Map::<Seq<char>, u64>::empty(),
        s.stopped(reason).learned is None,
        s.stopped(reason).status.mode is Off,
        s.stopped(reason).status.reason == Some(reason),
        s.stopped(reason).release_due,
        s.stopped(reason).physical == s.physical,
        s.stopped(reason).down == s.down,
        s.stopped(reason).mappings == s.mappings,
        s.stopped(reason).native_lost == s.native_lost,
{
}

/// While capture is off nothing joins the queue: no key edge and no tick adds an event.
pub proof fn nothing_is_queued_while_off(
    s: CoreState,
    code: Seq<char>,
    pressed: bool,
    now: u64,
    edge: Option<Seq<char>>,
)
    requires
        s.status.mode is Off,
    ensures
        s.handled(code, pressed, now, edge).0.events == s.events,
        s.handled(code, pressed, now, edge).0.status == s.status,
        s.ticked(now) == s,
{
}

/// A key that is already down never drives a switch again: its repeats are withheld exactly where
/// its press was, and change neither the queue nor what is learned.
pub proof fn repeats_never_activate(
    s: CoreState,
    code: Seq<char>,
    now: u64,
    edge: Option<Seq<char>>,
)
    requires
        s.sound(),
        s.down.contains(code),
    ensures
        s.keyed(code, true, now).1 == KeyStepView::Done(s.physical.contains(code)),
        s.handled(code, true, now, edge).0.events == s.ticked(now).events,
        s.handled(code, true, now, edge).0.learned == s.ticked(now).learned,
        s.handled(code, true, now, edge).0.physical == s.physical,
{
    assert(s.handled(code, true, now, edge).0.physical =~= s.physical);
}

/// The release of a key whose press was not withheld never drives a switch.
pub proof fn unmatched_releases_never_activate(
    s: CoreState,
    code: Seq<char>,
    now: u64,
    edge: Option<Seq<char>>,
)
    requires
        !s.physical.contains(code),
        code != "Escape"@,
    ensures
        s.keyed(code, false, now).1 == KeyStepView::Done(false),
        s.handled(code, false, now, edge).0.events == s.ticked(now).events,
{
}

/// A switch event comes only from a physical edge of a mapped key while capture is active: a
/// press of a key that was up, or the release of a key whose press was withheld.
pub proof fn switch_events_are_physical_edges(
    s: CoreState,
    code: Seq<char>,
    pressed: bool,
    now: u64,
    edge: Option<Seq<char>>,
)
    requires
        s.sound(),
    ensures
        ({
            let after = s.handled(code, pressed, now, edge).0.events;
            ||| after == s.events
            ||| after.len() == 1 && !(after[0] is Switch)
            ||| {
                &&& s.status.mode is Active
                &&& s.mappings.dom().contains(code)
                &&& if pressed {
                    !s.down.contains(code)
                } else {
                    s.physical.contains(code)
                }
                &&& edge is Some
                &&& after == s.events.push(
                    EventView::Switch {
                        generation: s.status.generation,
                        switch_id: edge->0,
                        action: Action::of(pressed),
                        monotonic_ms: now,
                    },
                )
            }
        }),
{
}

/// Every action that reaches the switch state machine is a change of the key's state: it presses
/// only keys that were not withheld, and releases only keys that were.
pub proof fn actions_alternate(s: CoreState, code: Seq<char>, pressed: bool, now: u64)
    ensures
        s.keyed(code, pressed, now).1 matches KeyStepView::Apply { mapping_id, action, .. } ==> {
            &&& action == Action::of(pressed)
            &&& s.mappings.dom().contains(code) && mapping_id == s.mappings[code]
            &&& s.physical.contains(code) == !pressed
            &&& s.keyed(code, pressed, now).0.physical.contains(code) == pressed
        },
{
}

/// No action reaches the switch state machine before the release of every switch that is due: the
/// action brings the release with it where it was not asked for, and nothing is due afterwards.
pub proof fn actions_follow_due_releases(s: CoreState, code: Seq<char>, pressed: bool, now: u64)
    ensures
        s.keyed(code, pressed, now).1 matches KeyStepView::Apply { release_first, .. } ==> {
            &&& release_first == s.release_due
            &&& !s.keyed(code, pressed, now).0.release_due
        },
        s.keyed(code, pressed, now).1 is Done ==> (s.release_due ==> s.keyed(
            code,
            pressed,
            now,
        ).0.release_due),
{
}

/// The escape key ends capture at once in every mode, and is withheld.
pub proof fn escape_stops_immediately(s: CoreState, now: u64)
    requires
        !(s.ticked(now).status.mode is Off),
    ensures
        ({
            let (after, step) = s.keyed("Escape"@, true, now);
            &&& step == KeyStepView::Done(true)
            &&& after.status.mode is Off
            &&& after.status.reason == Some(StopReason::Escape)
            &&& after.events == seq![
                EventView::Stopped {
                    generation: s.status.generation,
                    reason: StopReason::Escape,
                },
            ]
            &&& after.physical.contains("Escape"@)
        }),
{
}

/// Capture ends once no heartbeat has come for the timeout, and before that only for a long hold.
pub proof fn missing_heartbeats_stop(s: CoreState, now: u64)
    requires
        !(s.status.mode is Off),
    ensures
        elapsed(now, s.last_heartbeat) >= HEARTBEAT_TIMEOUT_MS ==> s.ticked(now) == s.stopped(
            StopReason::HeartbeatTimeout,
        ),
        elapsed(now, s.last_heartbeat) <= HEARTBEAT_INTERVAL_MS ==> s.ticked(now) == s
            || s.ticked(now) == s.stopped(StopReason::HoldEscape),
{
}

/// A switch held for the escape duration ends capture, and no shorter hold does.
pub proof fn long_holds_stop(s: CoreState, now: u64)
    requires
        s.status.mode is Active,
        elapsed(now, s.last_heartbeat) < HEARTBEAT_TIMEOUT_MS,
    ensures
        any_older(s.held, now, s.escape_ms) ==> s.ticked(now) == s.stopped(StopReason::HoldEscape),
        !any_older(s.held, now, s.escape_ms) ==> s.ticked(now) == s,
{
}

/// A full queue ends capture instead of delivering part of a gesture.
pub proof fn overflow_stops(s: CoreState, action: Action, switch_id: Seq<char>, now: u64)
    requires
        s.events.len() >= QUEUE_LIMIT,
    ensures
        s.settled(action, Some(switch_id), now).status.reason == Some(StopReason::QueueOverflow),
        s.settled(action, Some(switch_id), now).status.mode is Off,
        s.settled(action, Some(switch_id), now).events == seq![
            EventView::Stopped {
                generation: s.status.generation,
                reason: StopReason::QueueOverflow,
            },
        ],
        s.settled(action, Some(switch_id), now).held == Map::<Seq<char>, u64>::empty(),
{
}

/// A press is withheld exactly where the key's release is then outstanding.
pub proof fn withheld_presses_are_remembered(
    s: CoreState,
    code: Seq<char>,
    now: u64,
    edge: Option<Seq<char>>,
)
    requires
        s.sound(),
    ensures
        s.handled(code, true, now, edge).1 == s.handled(code, true, now, edge).0.physical.contains(
            code,
        ),
        s.handled(code, true, now, edge).0.down.contains(code),
{
}

/// The release of a key that is down is withheld exactly where its press was, in every mode and
/// after any cancellation; afterwards nothing of the key is outstanding.
pub proof fn releases_follow_their_presses(
    s: CoreState,
    code: Seq<char>,
    now: u64,
    edge: Option<Seq<char>>,
)
    requires
        s.sound(),
        s.down.contains(code),
    ensures
        s.handled(code, false, now, edge).1 == s.physical.contains(code),
        !s.handled(code, false, now, edge).0.physical.contains(code),
        !s.handled(code, false, now, edge).0.down.contains(code),
{
}

/// Whether a key's release is outstanding changes only with an edge of that key: cancellations,
/// ticks, new generations, and edges of other keys leave it alone.
pub proof fn outstanding_releases_stay(
    s: CoreState,
    code: Seq<char>,
    other: Seq<char>,
    pressed: bool,
    now: u64,
    edge: Option<Seq<char>>,
    mode: Mode,
    reason: StopReason,
)
    requires
        code != other,
    ensures
        s.handled(other, pressed, now, edge).0.physical.contains(code) == s.physical.contains(code),
        s.handled(other, pressed, now, edge).0.down.contains(code) == s.down.contains(code),
        s.stopped(reason).physical == s.physical,
        s.ticked(now).physical == s.physical,
        s.begun(mode, now).physical == s.physical,
        s.native_failed().physical == s.physical,
{
}

/// A key pressed anew while capture is off passes through, and so does its release.
pub proof fn new_presses_pass_while_off(s: CoreState, code: Seq<char>, now: u64)
    requires
        s.status.mode is Off,
        !s.physical.contains(code),
    ensures
        s.keyed(code, true, now).1 == KeyStepView::Done(false),
        s.keyed(code, false, now).1 == KeyStepView::Done(false),
        s.keyed(code, true, now).0.physical == s.physical,
{
}

/// The first key pressed while learning is the one that is learned.
pub proof fn first_press_is_learned(s: CoreState, code: Seq<char>, now: u64)
    requires
        s.ticked(now).status.mode is Learning,
        !s.down.contains(code),
        code != "Escape"@,
    ensures
        s.keyed(code, true, now).1 == KeyStepView::Done(true),
        s.keyed(code, true, now).0.learned == if s.learned is None {
            Some(code)
        } else {
            s.learned
        },
        s.keyed(code, true, now).0.status.mode is Learning,
        s.keyed(code, true, now).0.events == s.events,
{
}

/// Edges of other keys neither end learning nor change which key is learned.
pub proof fn other_edges_keep_learning(
    s: CoreState,
    first: Seq<char>,
    code: Seq<char>,
    pressed: bool,
    now: u64,
)
    requires
        s.ticked(now).status.mode is Learning,
        s.learned == Some(first),
        code != first,
        code != "Escape"@,
    ensures
        s.keyed(code, pressed, now).0.learned == Some(first),
        s.keyed(code, pressed, now).0.status.mode is Learning,
        s.keyed(code, pressed, now).0.events == s.events,
{
}

/// The release of the learned key completes learning with that key.
pub proof fn complete_press_is_reported(s: CoreState, code: Seq<char>, now: u64)
    requires
        s.sound(),
        s.ticked(now).status.mode is Learning,
        s.learned == Some(code),
        s.physical.contains(code),
    ensures
        s.keyed(code, false, now).1 == KeyStepView::Done(true),
        s.keyed(code, false, now).0.status.mode is Off,
        s.keyed(code, false, now).0.events == seq![
            EventView::Learned { generation: s.status.generation, code },
        ],
{
    assert(s.events =~= Seq::empty());
}

/// A release without a press while learning teaches nothing.
pub proof fn incomplete_press_is_not_learned(s: CoreState, code: Seq<char>, now: u64)
    requires
        s.ticked(now).status.mode is Learning,
        !s.physical.contains(code),
        code != "Escape"@,
    ensures
        s.keyed(code, false, now).1 == KeyStepView::Done(false),
        s.keyed(code, false, now).0.status.mode is Learning,
        s.keyed(code, false, now).0.learned == s.learned,
        s.keyed(code, false, now).0.events == s.events,
{
}

/// Each generation differs from the one before it, and starts with nothing pending.
pub proof fn generations_change(s: CoreState, mode: Mode, now: u64)
    ensures
        s.begun(mode, now).status.generation != s.status.generation,
        s.begun(mode, now).status.generation == next_generation(s.status.generation),
        s.begun(mode, now).status.mode == mode,
        s.begun(mode, now).status.reason is None,
        s.begun(mode, now).events.len() == 0,
        s.begun(mode, now).last_heartbeat == now,
{
}

/// Ending capture does not erase a native failure; a native hook that comes up does, and leaves
/// outstanding only the releases of keys that it sees down.
pub proof fn cleanup_keeps_native_failure(s: CoreState, reason: StopReason, down: Set<Seq<char>>)
    ensures
        s.native_failed().native_lost,
        s.native_failed().stopped(reason).native_lost,
        s.native_failed().status.reason == Some(StopReason::CaptureLost),
        !s.native_ready(down).native_lost,
        s.native_ready(down).down == down,
        s.native_ready(down).physical.subset_of(down),
        s.native_ready(down).physical.subset_of(s.physical),
{
}

} // verus!
