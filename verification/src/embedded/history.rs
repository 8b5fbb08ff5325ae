//! What the embedded broker promises over whole runs.

use vstd::prelude::*;
use crate::embedded::broker::{
    accepted_configurations_are_in_force, configuring_is_sound, Platform,
};
use crate::embedded::capture::{CoreState, KeyStepView};
use crate::embedded::edges::{
    presses_while_learning, releases_while_learning, time_ends_active_capture_for_two_reasons,
    time_ends_learning_only_without_heartbeats,
};
use crate::embedded::laws::{
    beginning_is_sound, initial_is_sound, key_edges_are_sound, outstanding_releases_stay,
    readiness_is_sound, releases_follow_their_presses, stopping_is_sound, ticking_is_sound,
    withheld_presses_are_remembered,
};
use crate::embedded::mapping::MappingView;
use crate::embedded::{EventView, Mode, StopReason, QUEUE_LIMIT};

verus! {

/// One thing that happens to the broker; each is an operation of
/// [`crate::embedded::broker::EmbeddedBroker`].
pub enum Step {
    Key { code: Seq<char>, pressed: bool, now: u64, edge: Option<Seq<char>> },
    Tick { now: u64 },
    Heartbeat { now: u64 },
    Drain { now: u64 },
    Configure { mappings: Seq<MappingView>, escape_ms: u64 },
    /// `native` reports a native hook that could not be brought up.
    Begin { mode: Mode, native: Option<Seq<char>>, now: u64 },
    Stop,
    Lost,
    TakeRelease,
    Ready { down: Set<Seq<char>> },
    Shutdown,
}

impl Step {
    /// The state after the step.
    pub open spec fn apply(self, platform: Platform, s: CoreState) -> CoreState {
        match self {
            Step::Key { code, pressed, now, edge } => s.handled(code, pressed, now, edge).0,
            Step::Tick { now } => s.ticked(now),
            Step::Heartbeat { now } => CoreState { last_heartbeat: now, ..s },
            Step::Drain { now } => CoreState { events: Seq::empty(), ..s.ticked(now) },
            Step::Configure { mappings, escape_ms } => s.configured(platform, mappings, escape_ms),
            Step::Begin { mode, native, now } => s.begin_tried(platform, native, mode, now),
            Step::Stop => s.stopped(StopReason::Disabled),
            Step::Lost => s.native_failed(),
            Step::TakeRelease => CoreState { release_due: false, ..s },
            Step::Ready { down } => s.native_ready(down),
            Step::Shutdown => CoreState {
                physical: Set::empty(),
                down: Set::empty(),
                ..s.stopped(StopReason::Disabled)
            },
        }
    }

    /// A native hook comes up while capture is off, or with the escape key up.
    pub open spec fn timely(self, s: CoreState) -> bool {
        self matches Step::Ready { down } ==> s.status.mode is Off || !down.contains("Escape"@)
    }

    /// The switch state machine is asked to release every switch, or brought to do so by an action.
    pub open spec fn releases(self, s: CoreState) -> bool {
        match self {
            Step::Key { code, pressed, now, .. } => s.keyed(code, pressed, now).1 is Apply,
            Step::TakeRelease => true,
            _ => false,
        }
    }

    /// Neither an edge of the key nor a change of the native hook.
    pub open spec fn leaves_alone(self, code: Seq<char>) -> bool {
        match self {
            Step::Key { code: other, .. } => other != code,
            Step::Ready { .. } => false,
            Step::Shutdown => false,
            _ => true,
        }
    }
}

/// The state after a run of steps.
pub open spec fn run(platform: Platform, s: CoreState, steps: Seq<Step>) -> CoreState
    decreases steps.len(),
{
    if steps.len() == 0 {
        s
    } else {
        steps.last().apply(platform, run(platform, s, steps.drop_last()))
    }
}

/// Each step of a run comes in time.
pub open spec fn timely_run(platform: Platform, s: CoreState, steps: Seq<Step>) -> bool
    decreases steps.len(),
{
    steps.len() > 0 ==> {
        &&& timely_run(platform, s, steps.drop_last())
        &&& steps.last().timely(run(platform, s, steps.drop_last()))
    }
}

/// Every step keeps capture sound.
pub proof fn steps_are_sound(platform: Platform, s: CoreState, step: Step)
    requires
        s.sound(),
        step.timely(s),
    ensures
        step.apply(platform, s).sound(),
{
    match step {
        Step::Key { code, pressed, now, edge } => {
            key_edges_are_sound(s, code, pressed, now, edge);
        },
        Step::Tick { now } => {
            ticking_is_sound(s, now);
        },
        Step::Drain { now } => {
            ticking_is_sound(s, now);
        },
        Step::Configure { mappings, escape_ms } => {
            configuring_is_sound(s, platform, mappings, escape_ms);
        },
        Step::Begin { mode, native, now } => {
            if s.begin_fault(platform, native) is None {
                beginning_is_sound(s, mode, now);
            }
        },
        Step::Ready { down } => {
            readiness_is_sound(s, down);
        },
        _ => {
            stopping_is_sound(s, StopReason::Disabled);
        },
    }
}

/// Every state that a run reaches from the start is sound: the queue is bounded, its events
/// belong to the current generation, and no switch edge waits once capture is off.
pub proof fn reachable_states_are_sound(platform: Platform, steps: Seq<Step>)
    requires
        timely_run(platform, CoreState::initial(), steps),
    ensures
        ({
            let s = run(platform, CoreState::initial(), steps);
            &&& s.sound()
            &&& s.events.len() <= QUEUE_LIMIT
            &&& forall|e: EventView| #[trigger]
                s.events.contains(e) ==> e.generation() == s.status.generation
            &&& s.status.mode is Off ==> forall|e: EventView| #[trigger]
                s.events.contains(e) ==> !(e is Switch)
        }),
    decreases steps.len(),
{
    initial_is_sound();
    if steps.len() > 0 {
        reachable_states_are_sound(platform, steps.drop_last());
        steps_are_sound(
            platform,
            run(platform, CoreState::initial(), steps.drop_last()),
            steps.last(),
        );
    }
}

/// A run that leaves a key alone changes neither whether it is down nor whether its release is
/// outstanding.
pub proof fn runs_leave_other_keys_alone(
    platform: Platform,
    s: CoreState,
    steps: Seq<Step>,
    code: Seq<char>,
)
    requires
        s.sound(),
        forall|i: int| 0 <= i < steps.len() ==> (#[trigger] steps[i]).leaves_alone(code),
    ensures
        run(platform, s, steps).sound(),
        run(platform, s, steps).physical.contains(code) == s.physical.contains(code),
        run(platform, s, steps).down.contains(code) == s.down.contains(code),
    decreases steps.len(),
{
    if steps.len() > 0 {
        let before = run(platform, s, steps.drop_last());
        let step = steps.last();
        assert forall|i: int| 0 <= i < steps.drop_last().len() implies (
        #[trigger] steps.drop_last()[i]).leaves_alone(code) by {
            assert(steps.drop_last()[i] == steps[i]);
        }
        runs_leave_other_keys_alone(platform, s, steps.drop_last(), code);
        assert(step.leaves_alone(code));
        steps_are_sound(platform, before, step);
        if let Step::Key { code: other, pressed, now, edge } = step {
            outstanding_releases_stay(
                before,
                code,
                other,
                pressed,
                now,
                edge,
                Mode::Off,
                StopReason::Disabled,
            );
        }
    }
}

/// A release of every switch that is due stays due until the switch state machine comes to it, and
/// the first action that reaches the machine brings it along.
pub proof fn due_releases_are_not_forgotten(platform: Platform, s: CoreState, step: Step)
    requires
        s.release_due,
    ensures
        !step.releases(s) ==> step.apply(platform, s).release_due,
        step matches Step::Key { code, pressed, now, .. } ==> (s.keyed(code, pressed, now).1 matches
            KeyStepView::Apply { release_first, .. } ==> release_first),
{
}

/// No step but an accepted configuration changes the mappings or the escape hold.
pub proof fn steps_leave_the_configuration(platform: Platform, s: CoreState, step: Step)
    requires
        !(step is Configure),
    ensures
        step.apply(platform, s).escape_ms == s.escape_ms,
        step.apply(platform, s).mappings == s.mappings,
{
}

/// A run without a configuration leaves the mappings and the escape hold alone.
pub proof fn runs_leave_the_configuration(platform: Platform, s: CoreState, steps: Seq<Step>)
    requires
        forall|i: int| 0 <= i < steps.len() ==> !((#[trigger] steps[i]) is Configure),
    ensures
        run(platform, s, steps).escape_ms == s.escape_ms,
        run(platform, s, steps).mappings == s.mappings,
    decreases steps.len(),
{
    if steps.len() > 0 {
        assert forall|i: int| 0 <= i < steps.drop_last().len() implies !((
        #[trigger] steps.drop_last()[i]) is Configure) by {
            assert(steps.drop_last()[i] == steps[i]);
        }
        runs_leave_the_configuration(platform, s, steps.drop_last());
        assert(!(steps[steps.len() - 1] is Configure));
        steps_leave_the_configuration(
            platform,
            run(platform, s, steps.drop_last()),
            steps.last(),
        );
    }
}

/// The escape hold that an accepted configuration asks for stays in force through beginnings,
/// ends and everything else until the next configuration: with heartbeats in time, no hold that
/// is shorter ends capture, and one that is as long does.
pub proof fn configured_holds_stay_in_force(
    platform: Platform,
    s: CoreState,
    mappings: Seq<MappingView>,
    escape_ms: u64,
    steps: Seq<Step>,
    now: u64,
)
    requires
        s.configure_fault(platform, mappings, escape_ms) is None,
        forall|i: int| 0 <= i < steps.len() ==> !((#[trigger] steps[i]) is Configure),
    ensures
        ({
            let later = run(platform, s.configured(platform, mappings, escape_ms), steps);
            &&& later.escape_ms == escape_ms
            &&& later.status.mode is Active && now - later.last_heartbeat < 1500 ==> {
                &&& (forall|switch: Seq<char>| #[trigger]
                    later.held.dom().contains(switch) ==> now - later.held[switch] < escape_ms)
                    ==> later.ticked(now) == later
                &&& (exists|switch: Seq<char>| #[trigger]
                    later.held.dom().contains(switch) && now - later.held[switch] >= escape_ms)
                    ==> later.ticked(now) == later.stopped(StopReason::HoldEscape)
            }
        }),
{
    accepted_configurations_are_in_force(s, platform, mappings, escape_ms);
    let configured = s.configured(platform, mappings, escape_ms);
    runs_leave_the_configuration(platform, configured, steps);
    let later = run(platform, configured, steps);
    if later.status.mode is Active {
        time_ends_active_capture_for_two_reasons(later, now);
    }
}

impl Step {
    /// The switch state machine is asked, and reports that the switch was pressed or released.
    #[verifier::opaque]
    pub open spec fn reported(self, s: CoreState, switch: Seq<char>, press: bool) -> bool {
        self matches Step::Key { code, pressed, now, edge } && {
            &&& pressed == press
            &&& edge == Some(switch)
            &&& s.keyed(code, pressed, now).1 is Apply
        }
    }
}

/// A reported press makes its switch held since that moment, or ends capture; a reported release
/// makes it held no more; and no other step makes a switch held or moves the moment.
pub proof fn holds_follow_reported_edges(
    platform: Platform,
    s: CoreState,
    step: Step,
    switch: Seq<char>,
)
    ensures
        ({
            let after = step.apply(platform, s);
            &&& after.held.dom().contains(switch) ==> {
                ||| step.reported(s, switch, true) && step is Key && after.held[switch]
                    == step->Key_now
                ||| {
                    &&& !step.reported(s, switch, true)
                    &&& !step.reported(s, switch, false)
                    &&& s.held.dom().contains(switch)
                    &&& after.held[switch] == s.held[switch]
                }
            }
            &&& step.reported(s, switch, true) && s.events.len() < 256 ==> after.held.dom().contains(
                switch,
            )
        }),
{
    reveal(Step::reported);
}

/// The step at position `i` of a run reports that the switch was pressed or released.
#[verifier::opaque]
pub open spec fn reported_at(
    platform: Platform,
    s: CoreState,
    steps: Seq<Step>,
    i: int,
    switch: Seq<char>,
    press: bool,
) -> bool {
    steps[i].reported(run(platform, s, steps.take(i)), switch, press)
}

/// What a step of a run reports does not depend on the steps behind it.
proof fn lemma_reports_of_the_front(
    platform: Platform,
    s: CoreState,
    steps: Seq<Step>,
    i: int,
    switch: Seq<char>,
    press: bool,
)
    requires
        0 <= i < steps.len() - 1,
    ensures
        reported_at(platform, s, steps.drop_last(), i, switch, press) == reported_at(
            platform,
            s,
            steps,
            i,
            switch,
            press,
        ),
{
    reveal(reported_at);
    assert(steps.drop_last().take(i) =~= steps.take(i));
    assert(steps.drop_last()[i] == steps[i]);
}

/// How the last step of a run changes the hold of a switch.
proof fn lemma_last_step_and_hold(
    platform: Platform,
    s: CoreState,
    steps: Seq<Step>,
    switch: Seq<char>,
)
    requires
        steps.len() > 0,
        run(platform, s, steps).held.dom().contains(switch),
    ensures
        ({
            let last = steps.len() - 1;
            let held = run(platform, s, steps).held[switch];
            let before = run(platform, s, steps.drop_last());
            ||| reported_at(platform, s, steps, last, switch, true) && steps[last]->Key_now == held
            ||| {
                &&& !reported_at(platform, s, steps, last, switch, true)
                &&& !reported_at(platform, s, steps, last, switch, false)
                &&& before.held.dom().contains(switch)
                &&& before.held[switch] == held
            }
        }),
{
    reveal(reported_at);
    let before = run(platform, s, steps.drop_last());
    assert(steps.take(steps.len() - 1) =~= steps.drop_last());
    assert(run(platform, s, steps) == steps.last().apply(platform, before));
    holds_follow_reported_edges(platform, before, steps.last(), switch);
}

/// A switch that is not held stays so through any run in which no press of it is reported; so one
/// that was released ends capture for a hold no more.
pub proof fn released_switches_are_not_held(
    platform: Platform,
    s: CoreState,
    steps: Seq<Step>,
    switch: Seq<char>,
)
    requires
        !s.held.dom().contains(switch),
        forall|i: int|
            0 <= i < steps.len() ==> !#[trigger] reported_at(platform, s, steps, i, switch, true),
    ensures
        !run(platform, s, steps).held.dom().contains(switch),
{
    if run(platform, s, steps).held.dom().contains(switch) {
        held_switches_were_pressed_last(platform, s, steps, switch);
        let i = choose|i: int| #[trigger] pressed_last(platform, s, steps, i, switch);
        assert(reported_at(platform, s, steps, i, switch, true));
    }
}

/// After the release of a key that the switch state machine reports, its switch is not held,
/// whatever follows, until a press of it is reported.
pub proof fn a_reported_release_ends_the_hold(
    platform: Platform,
    s: CoreState,
    code: Seq<char>,
    now: u64,
    switch: Seq<char>,
    steps: Seq<Step>,
)
    requires
        s.keyed(code, false, now).1 is Apply,
        forall|i: int|
            0 <= i < steps.len() ==> !#[trigger] reported_at(
                platform,
                s.handled(code, false, now, Some(switch)).0,
                steps,
                i,
                switch,
                true,
            ),
    ensures
        !s.handled(code, false, now, Some(switch)).0.held.dom().contains(switch),
        !run(platform, s.handled(code, false, now, Some(switch)).0, steps).held.dom().contains(
            switch,
        ),
{
    let step = Step::Key { code, pressed: false, now, edge: Some(switch) };
    assert(step.reported(s, switch, false) && !step.reported(s, switch, true)) by {
        reveal(Step::reported);
    }
    holds_follow_reported_edges(platform, s, step, switch);
    released_switches_are_not_held(
        platform,
        s.handled(code, false, now, Some(switch)).0,
        steps,
        switch,
    );
}

/// The latest edge that a run reports of a switch is a press at position `i`.
pub open spec fn pressed_last(
    platform: Platform,
    s: CoreState,
    steps: Seq<Step>,
    i: int,
    switch: Seq<char>,
) -> bool {
    &&& 0 <= i < steps.len()
    &&& reported_at(platform, s, steps, i, switch, true)
    &&& forall|j: int|
        i < j < steps.len() ==> !#[trigger] reported_at(platform, s, steps, j, switch, true)
            && !reported_at(platform, s, steps, j, switch, false)
}

/// A switch is held since a moment only where the latest edge that was reported of it is a press
/// at that moment.
pub proof fn held_switches_were_pressed_last(
    platform: Platform,
    s: CoreState,
    steps: Seq<Step>,
    switch: Seq<char>,
)
    requires
        !s.held.dom().contains(switch),
        run(platform, s, steps).held.dom().contains(switch),
    ensures
        exists|i: int| #[trigger]
            pressed_last(platform, s, steps, i, switch) && steps[i]->Key_now == run(
                platform,
                s,
                steps,
            ).held[switch],
    decreases steps.len(),
{
    let last = steps.len() - 1;
    let front = steps.drop_last();
    if steps.len() > 0 {
        lemma_last_step_and_hold(platform, s, steps, switch);
        if reported_at(platform, s, steps, last, switch, true) {
            assert(pressed_last(platform, s, steps, last, switch));
        } else {
            held_switches_were_pressed_last(platform, s, front, switch);
            let i = choose|i: int| #[trigger]
                pressed_last(platform, s, front, i, switch) && front[i]->Key_now == run(
                    platform,
                    s,
                    front,
                ).held[switch];
            lemma_reports_of_the_front(platform, s, steps, i, switch, true);
            assert forall|j: int| i < j < steps.len() implies !#[trigger] reported_at(
                platform,
                s,
                steps,
                j,
                switch,
                true,
            ) && !reported_at(platform, s, steps, j, switch, false) by {
                if j < last {
                    lemma_reports_of_the_front(platform, s, steps, j, switch, true);
                    lemma_reports_of_the_front(platform, s, steps, j, switch, false);
                    assert(!reported_at(platform, s, front, j, switch, true));
                }
            }
            assert(pressed_last(platform, s, steps, i, switch));
            assert(steps[i] == front[i]);
        }
    }
}

impl Step {
    /// An ordinary step while a key is being learned: a heartbeat, or a tick, a drain or an edge of
    /// another key but Escape within the time that the latest heartbeat gives.
    pub open spec fn undisturbing(self, s: CoreState, code: Seq<char>) -> bool {
        match self {
            Step::Key { code: other, now, .. } => {
                &&& other != code
                &&& other != "Escape"@
                &&& now - s.last_heartbeat < 1500
            },
            Step::Tick { now } => now - s.last_heartbeat < 1500,
            Step::Drain { now } => now - s.last_heartbeat < 1500,
            Step::Heartbeat { .. } => true,
            Step::TakeRelease => true,
            _ => false,
        }
    }
}

/// Through ordinary steps in time, learning goes on and waits for the same key.
pub proof fn learning_goes_on(
    platform: Platform,
    s: CoreState,
    steps: Seq<Step>,
    code: Seq<char>,
)
    requires
        s.sound(),
        s.status.mode is Learning,
        s.learned == Some(code),
        s.physical.contains(code),
        forall|i: int|
            0 <= i < steps.len() ==> (#[trigger] steps[i]).undisturbing(
                run(platform, s, steps.take(i)),
                code,
            ),
    ensures
        ({
            let later = run(platform, s, steps);
            &&& later.sound()
            &&& later.status == s.status
            &&& later.learned == Some(code)
            &&& later.physical.contains(code)
            &&& later.events.len() == 0
        }),
    decreases steps.len(),
{
    if steps.len() > 0 {
        let front = steps.drop_last();
        assert forall|i: int| 0 <= i < front.len() implies (#[trigger] front[i]).undisturbing(
            run(platform, s, front.take(i)),
            code,
        ) by {
            assert(front[i] == steps[i]);
            assert(front.take(i) =~= steps.take(i));
        }
        learning_goes_on(platform, s, front, code);
        let before = run(platform, s, front);
        assert(steps.take(steps.len() - 1) =~= front);
        assert(steps[steps.len() - 1].undisturbing(before, code));
        let step = steps.last();
        steps_are_sound(platform, before, step);
        match step {
            Step::Key { code: other, pressed, now, edge } => {
                if pressed {
                    presses_while_learning(before, other, now, edge, code);
                } else {
                    releases_while_learning(before, other, now, edge, code);
                }
            },
            Step::Tick { now } => {
                time_ends_learning_only_without_heartbeats(before, now);
            },
            Step::Drain { now } => {
                time_ends_learning_only_without_heartbeats(before, now);
            },
            _ => {},
        }
    }
}

/// The first key that is pressed and then released in learning is always reported as learned,
/// where each step comes less than one and a half seconds after the latest heartbeat: its press
/// and its release are withheld, and learning ends with that one event.
pub proof fn a_complete_press_is_learned(
    platform: Platform,
    s: CoreState,
    code: Seq<char>,
    press_at: u64,
    press_edge: Option<Seq<char>>,
    between: Seq<Step>,
    release_at: u64,
    release_edge: Option<Seq<char>>,
)
    requires
        s.sound(),
        s.status.mode is Learning,
        s.learned is None,
        !s.down.contains(code),
        code != "Escape"@,
        press_at - s.last_heartbeat < 1500,
        forall|i: int|
            0 <= i < between.len() ==> (#[trigger] between[i]).undisturbing(
                run(
                    platform,
                    s.handled(code, true, press_at, press_edge).0,
                    between.take(i),
                ),
                code,
            ),
        release_at - run(
            platform,
            s.handled(code, true, press_at, press_edge).0,
            between,
        ).last_heartbeat < 1500,
    ensures
        ({
            let (pressed, press_withheld) = s.handled(code, true, press_at, press_edge);
            let (after, release_withheld) = run(platform, pressed, between).handled(
                code,
                false,
                release_at,
                release_edge,
            );
            &&& press_withheld && release_withheld
            &&& after.status.mode is Off
            &&& after.status.generation == s.status.generation
            &&& after.status.reason == s.status.reason
            &&& after.events == seq![
                EventView::Learned { generation: s.status.generation, code },
            ]
        }),
{
    let pressed = s.handled(code, true, press_at, press_edge).0;
    presses_while_learning(s, code, press_at, press_edge, code);
    key_edges_are_sound(s, code, true, press_at, press_edge);
    learning_goes_on(platform, pressed, between, code);
    let later = run(platform, pressed, between);
    releases_while_learning(later, code, release_at, release_edge, code);
    assert(later.events =~= Seq::empty());
}

/// A key's press and its release share one fate: whatever happens in between, cancellations and
/// new generations included, the release is withheld from other applications exactly where the
/// press was.
pub proof fn press_and_release_share_their_fate(
    platform: Platform,
    s: CoreState,
    code: Seq<char>,
    press_at: u64,
    press_edge: Option<Seq<char>>,
    between: Seq<Step>,
    release_at: u64,
    release_edge: Option<Seq<char>>,
)
    requires
        s.sound(),
        forall|i: int| 0 <= i < between.len() ==> (#[trigger] between[i]).leaves_alone(code),
    ensures
        ({
            let (pressed, withheld) = s.handled(code, true, press_at, press_edge);
            let later = run(platform, pressed, between);
            later.handled(code, false, release_at, release_edge).1 == withheld
        }),
{
    let (pressed, withheld) = s.handled(code, true, press_at, press_edge);
    key_edges_are_sound(s, code, true, press_at, press_edge);
    withheld_presses_are_remembered(s, code, press_at, press_edge);
    runs_leave_other_keys_alone(platform, pressed, between, code);
    releases_follow_their_presses(
        run(platform, pressed, between),
        code,
        release_at,
        release_edge,
    );
}

} // verus!
