//! The capture state machine: what each key edge, tick and cancellation does.

use std::collections::VecDeque;
use vstd::prelude::*;
use crate::embedded::mapping::Action;
use crate::embedded::{
    Event, EventView, Mode, Status, StopReason, HEARTBEAT_TIMEOUT_MS, MINIMUM_ESCAPE_MS,
    QUEUE_LIMIT,
};
use crate::names::{any_older, elapsed, NameMap, NameSet};
use crate::text::same_text;

verus! {

/// What the caller of [`Core::key_step`] does next.
#[derive(Debug)]
pub enum KeyStep {
    /// The edge is dealt with; the flag says whether it is withheld from other applications.
    Done(bool),
    /// The switch state machine releases every switch where `release_first` says so, then applies
    /// `action` to the mapping, at the level that [`Action::level`] gives, and what it reports
    /// goes to [`Core::settle`].
    Apply { mapping_id: String, action: Action, release_first: bool },
}

/// A step with its strings taken as their characters.
pub enum KeyStepView {
    Done(bool),
    Apply { mapping_id: Seq<char>, action: Action, release_first: bool },
}

impl View for KeyStep {
    type V = KeyStepView;

    open spec fn view(&self) -> KeyStepView {
        match *self {
            KeyStep::Done(consumed) => KeyStepView::Done(consumed),
            KeyStep::Apply { mapping_id, action, release_first } => KeyStepView::Apply {
                mapping_id: mapping_id@,
                action,
                release_first,
            },
        }
    }
}

/// The capture state.
#[derive(Debug)]
pub struct Core {
    pub status: Status,
    /// The native hook reported that it no longer sees input.
    pub native_lost: bool,
    /// The mapping of each key.
    pub mappings: NameMap<String>,
    /// The switch state machine is to release every switch before its next use.
    pub release_due: bool,
    /// The keys whose press was withheld and whose release is outstanding.
    pub physical: NameSet,
    /// The keys that are down, withheld or not.
    pub down: NameSet,
    /// The switches that are held, with the time of their press.
    pub held: NameMap<u64>,
    /// The first key pressed while learning.
    pub learned: Option<String>,
    /// How long a switch is held before capture ends.
    pub escape_ms: u64,
    /// The time of the latest heartbeat.
    pub last_heartbeat: u64,
    /// The events that wait for the consumer, oldest first.
    pub events: VecDeque<Event>,
}

/// The capture state with its collections taken as mathematical values.
#[verifier::ext_equal]
pub struct CoreState {
    pub status: Status,
    pub native_lost: bool,
    pub mappings: Map<Seq<char>, Seq<char>>,
    pub release_due: bool,
    pub physical: Set<Seq<char>>,
    pub down: Set<Seq<char>>,
    pub held: Map<Seq<char>, u64>,
    pub learned: Option<Seq<char>>,
    pub escape_ms: u64,
    pub last_heartbeat: u64,
    pub events: Seq<EventView>,
}

/// An optional string as its characters.
pub open spec fn optional_text(s: Option<String>) -> Option<Seq<char>> {
    match s {
        Some(t) => Some(t@),
        None => None,
    }
}

/// Whether the switch state machine behind `apply` takes an action on a mapping, where `id` is the
/// string that names the mapping.
pub open spec fn allowed<F: FnOnce(String, Action, bool) -> Option<String>>(
    apply: F,
    id: String,
    mapping_id: Seq<char>,
    action: Action,
    release_first: bool,
) -> bool {
    id@ == mapping_id ==> call_requires(apply, (id, action, release_first))
}

/// Whether the switch state machine behind `apply` takes what a step asks of it. A step that is
/// done asks nothing, so the machine need not take anything then.
pub open spec fn may_ask<F: FnOnce(String, Action, bool) -> Option<String>>(
    apply: F,
    step: KeyStepView,
) -> bool {
    match step {
        KeyStepView::Done(_) => true,
        KeyStepView::Apply { mapping_id, action, release_first } => forall|id: String| #[trigger]
            allowed(apply, id, mapping_id, action, release_first),
    }
}

/// A machine that takes what a step asks may be asked by any string that names the mapping.
proof fn lemma_may_be_asked<F: FnOnce(String, Action, bool) -> Option<String>>(
    apply: F,
    step: KeyStepView,
    id: String,
)
    requires
        may_ask(apply, step),
        step is Apply,
        id@ == step->mapping_id,
    ensures
        call_requires(apply, (id, step->action, step->release_first)),
{
    assert(allowed(apply, id, step->mapping_id, step->action, step->release_first));
}

/// Whether the switch state machine behind `apply` may report `edge` for an action on a mapping.
pub open spec fn reports<F: FnOnce(String, Action, bool) -> Option<String>>(
    apply: F,
    mapping_id: Seq<char>,
    action: Action,
    release_first: bool,
    edge: Option<String>,
) -> bool {
    exists|id: String|
        id@ == mapping_id && #[trigger] call_ensures(apply, (id, action, release_first), edge)
}

/// What taking a key edge at `now` comes to, from the state `before` to the state `after`, where
/// `apply` stands for the switch state machine and `consumed` says whether the edge is withheld.
/// Where the machine is asked, it is asked as the step says, and its report decides the rest.
pub open spec fn key_taken<F: FnOnce(String, Action, bool) -> Option<String>>(
    before: CoreState,
    code: Seq<char>,
    pressed: bool,
    now: u64,
    apply: F,
    after: CoreState,
    consumed: bool,
) -> bool {
    match before.keyed(code, pressed, now) {
        (state, KeyStepView::Done(withheld)) => consumed == withheld && after == state,
        (state, KeyStepView::Apply { mapping_id, action, release_first }) => consumed && exists|
            edge: Option<String>,
        | #[trigger]
            reports(apply, mapping_id, action, release_first, edge) && after == state.settled(
                action,
                optional_text(edge),
                now,
            ),
    }
}

/// Events with their strings taken as characters.
pub open spec fn event_views(events: Seq<Event>) -> Seq<EventView> {
    events.map_values(|e: Event| e@)
}

impl View for Core {
    type V = CoreState;

    open spec fn view(&self) -> CoreState {
        CoreState {
            status: self.status,
            native_lost: self.native_lost,
            mappings: self.mappings@,
            release_due: self.release_due,
            physical: self.physical@,
            down: self.down@,
            held: self.held@,
            learned: optional_text(self.learned),
            escape_ms: self.escape_ms,
            last_heartbeat: self.last_heartbeat,
            events: event_views(self.events@),
        }
    }
}

impl CoreState {
    /// Capture that has not begun.
    pub open spec fn initial() -> CoreState {
        CoreState {
            status: Status { generation: 0, mode: Mode::Off, reason: None },
            native_lost: false,
            mappings: Map::empty(),
            release_due: false,
            physical: Set::empty(),
            down: Set::empty(),
            held: Map::empty(),
            learned: None,
            escape_ms: MINIMUM_ESCAPE_MS,
            last_heartbeat: 0,
            events: Seq::empty(),
        }
    }

    /// Capture ends: pending events make room for the one cancellation, and no switch stays held.
    pub open spec fn stopped(self, reason: StopReason) -> CoreState {
        CoreState {
            status: Status { mode: Mode::Off, reason: Some(reason), ..self.status },
            release_due: true,
            held: Map::empty(),
            learned: None,
            events: seq![EventView::Stopped { generation: self.status.generation, reason }],
            ..self
        }
    }

    /// A new generation begins in `mode` with nothing pending.
    pub open spec fn begun(self, mode: Mode, now: u64) -> CoreState {
        CoreState {
            status: Status {
                generation: next_generation(self.status.generation),
                mode,
                reason: None,
            },
            release_due: true,
            held: Map::empty(),
            learned: None,
            last_heartbeat: now,
            events: Seq::empty(),
            ..self
        }
    }

    /// An event joins the queue; a full queue ends capture instead.
    pub open spec fn emitted(self, event: EventView) -> CoreState {
        if self.events.len() >= QUEUE_LIMIT {
            self.stopped(StopReason::QueueOverflow)
        } else {
            CoreState { events: self.events.push(event), ..self }
        }
    }

    /// The reason for which capture ends at `now`, if it does.
    pub open spec fn overdue(self, now: u64) -> Option<StopReason> {
        if self.status.mode is Off {
            None
        } else if elapsed(now, self.last_heartbeat) >= HEARTBEAT_TIMEOUT_MS {
            Some(StopReason::HeartbeatTimeout)
        } else if self.status.mode is Active && any_older(self.held, now, self.escape_ms) {
            Some(StopReason::HoldEscape)
        } else {
            None
        }
    }

    /// Capture ends where a heartbeat or a release is overdue.
    pub open spec fn ticked(self, now: u64) -> CoreState {
        match self.overdue(now) {
            Some(reason) => self.stopped(reason),
            None => self,
        }
    }

    /// The key is marked as down or up.
    pub open spec fn moved(self, code: Seq<char>, pressed: bool) -> CoreState {
        CoreState {
            down: if pressed {
                self.down.insert(code)
            } else {
                self.down.remove(code)
            },
            ..self
        }
    }

    /// The key's press is withheld, or its outstanding release has come.
    pub open spec fn withheld(self, code: Seq<char>, pressed: bool) -> CoreState {
        CoreState {
            physical: if pressed {
                self.physical.insert(code)
            } else {
                self.physical.remove(code)
            },
            ..self
        }
    }

    /// An edge while capture is off: keys withheld earlier are drained, others pass.
    pub open spec fn key_while_off(self, code: Seq<char>, pressed: bool) -> (
        CoreState,
        KeyStepView,
    ) {
        (
            if pressed {
                self
            } else {
                self.withheld(code, false)
            },
            KeyStepView::Done(self.physical.contains(code)),
        )
    }

    /// An edge of the escape key: the press ends capture.
    pub open spec fn key_escape(self, code: Seq<char>, pressed: bool) -> (CoreState, KeyStepView) {
        (
            if pressed {
                self.withheld(code, true).stopped(StopReason::Escape)
            } else {
                self.withheld(code, false)
            },
            KeyStepView::Done(true),
        )
    }

    /// An edge while learning: the first key pressed is learned on its release.
    pub open spec fn key_while_learning(self, code: Seq<char>, pressed: bool, was_down: bool) -> (
        CoreState,
        KeyStepView,
    ) {
        if pressed && was_down {
            (self, KeyStepView::Done(self.physical.contains(code)))
        } else if pressed {
            (
                CoreState {
                    learned: if self.learned is None {
                        Some(code)
                    } else {
                        self.learned
                    },
                    ..self.withheld(code, true)
                },
                KeyStepView::Done(true),
            )
        } else if !self.physical.contains(code) {
            (self, KeyStepView::Done(false))
        } else if self.learned == Some(code) {
            (
                CoreState {
                    status: Status { mode: Mode::Off, ..self.status },
                    learned: None,
                    ..self.withheld(code, false)
                }.emitted(EventView::Learned { generation: self.status.generation, code }),
                KeyStepView::Done(true),
            )
        } else {
            (self.withheld(code, false), KeyStepView::Done(true))
        }
    }

    /// An edge while active: a mapped key that changes state drives its switch, once every switch
    /// is released where that is due.
    pub open spec fn key_while_active(self, code: Seq<char>, pressed: bool, was_down: bool) -> (
        CoreState,
        KeyStepView,
    ) {
        if !self.mappings.dom().contains(code) {
            (self, KeyStepView::Done(false))
        } else if pressed && (was_down || self.physical.contains(code)) {
            (self, KeyStepView::Done(self.physical.contains(code)))
        } else if !pressed && !self.physical.contains(code) {
            (self, KeyStepView::Done(false))
        } else {
            (
                CoreState { release_due: false, ..self.withheld(code, pressed) },
                KeyStepView::Apply {
                    mapping_id: self.mappings[code],
                    action: Action::of(pressed),
                    release_first: self.release_due,
                },
            )
        }
    }

    /// A key edge at `now`: the state after it and what the caller does next.
    pub open spec fn keyed(self, code: Seq<char>, pressed: bool, now: u64) -> (
        CoreState,
        KeyStepView,
    ) {
        let ticked = self.ticked(now);
        let was_down = self.down.contains(code);
        let state = ticked.moved(code, pressed);
        if state.status.mode is Off {
            state.key_while_off(code, pressed)
        } else if code == "Escape"@ {
            state.key_escape(code, pressed)
        } else if state.status.mode is Learning {
            state.key_while_learning(code, pressed, was_down)
        } else {
            state.key_while_active(code, pressed, was_down)
        }
    }

    /// The switch state machine has applied an action; `edge` is the switch that changed state.
    pub open spec fn settled(self, action: Action, edge: Option<Seq<char>>, now: u64) -> CoreState {
        match edge {
            None => self,
            Some(switch_id) => CoreState {
                held: if action is Pressed {
                    self.held.insert(switch_id, now)
                } else {
                    self.held.remove(switch_id)
                },
                ..self
            }.emitted(
                EventView::Switch {
                    generation: self.status.generation,
                    switch_id,
                    action,
                    monotonic_ms: now,
                },
            ),
        }
    }

    /// A key edge at `now` as a whole, where the switch state machine reports `edge` if it is
    /// asked: the state after it, and whether the edge is withheld.
    pub open spec fn handled(
        self,
        code: Seq<char>,
        pressed: bool,
        now: u64,
        edge: Option<Seq<char>>,
    ) -> (CoreState, bool) {
        match self.keyed(code, pressed, now) {
            (state, KeyStepView::Done(consumed)) => (state, consumed),
            (state, KeyStepView::Apply { action, .. }) => (state.settled(action, edge, now), true),
        }
    }

    /// What holds of every state that capture reaches.
    pub open spec fn sound(self) -> bool {
        // The queue is bounded and belongs to the current generation.
        &&& self.events.len() <= QUEUE_LIMIT
        &&& forall|i: int|
            0 <= i < self.events.len() ==> (#[trigger] self.events[i]).generation()
                == self.status.generation
        // Switch edges wait only while capture is active; a cancellation waits alone.
        &&& self.status.mode is Active ==> forall|i: int|
            0 <= i < self.events.len() ==> (#[trigger] self.events[i]) is Switch
        &&& self.status.mode is Learning ==> self.events.len() == 0
        &&& self.status.mode is Off ==> self.events.len() <= 1 && forall|i: int|
            0 <= i < self.events.len() ==> !((#[trigger] self.events[i]) is Switch)
        // Gestures are in progress only in the mode that they belong to.
        &&& !(self.status.mode is Active) ==> self.held == Map::<Seq<char>, u64>::empty()
        &&& !(self.status.mode is Learning) ==> self.learned is None
        // A withheld key is down. Capture goes on only with keys that it deals with.
        &&& self.physical.subset_of(self.down)
        &&& self.status.mode is Active ==> self.physical.subset_of(self.mappings.dom())
        &&& !(self.status.mode is Off) ==> !self.down.contains("Escape"@)
        // The escape key stays reserved, and a hold is never cut short.
        &&& !self.mappings.dom().contains("Escape"@)
        &&& self.escape_ms >= MINIMUM_ESCAPE_MS
    }

    /// The native hook no longer sees input.
    pub open spec fn native_failed(self) -> CoreState {
        CoreState { native_lost: true, ..self.stopped(StopReason::CaptureLost) }
    }

    /// The native hook is up and sees the keys of `down` held.
    pub open spec fn native_ready(self, down: Set<Seq<char>>) -> CoreState {
        CoreState { native_lost: false, physical: self.physical.intersect(down), down, ..self }
    }
}

/// The generation that follows.
pub open spec fn next_generation(generation: u64) -> u64 {
    if generation == u64::MAX {
        0
    } else {
        (generation + 1) as u64
    }
}

impl Default for Core {
    /// Capture that has not begun.
    fn default() -> (r: Core)
        ensures
            r@ == CoreState::initial(),
    {
        let r = Core {
            status: Status { generation: 0, mode: Mode::Off, reason: None },
            native_lost: false,
            mappings: NameMap::new(),
            release_due: false,
            physical: NameSet::new(),
            down: NameSet::new(),
            held: NameMap::new(),
            learned: None,
            escape_ms: MINIMUM_ESCAPE_MS,
            last_heartbeat: 0,
            events: VecDeque::new(),
        };
        assert(r@ =~= CoreState::initial());
        r
    }
}

impl Core {
    /// Ends capture. Pending edges are discarded at once; nothing is released synthetically.
    pub fn stop(&mut self, reason: StopReason)
        ensures
            final(self)@ == old(self)@.stopped(reason),
    {
        self.status.mode = Mode::Off;
        self.status.reason = Some(reason);
        self.release_due = true;
        self.held.clear();
        self.learned = None;
        self.events.clear();
        self.events.push_back(Event::Stopped { generation: self.status.generation, reason });
        assert(self@ =~= old(self)@.stopped(reason));
    }

    /// Begins a new generation in `mode`.
    pub fn begin(&mut self, mode: Mode, now: u64)
        ensures
            final(self)@ == old(self)@.begun(mode, now),
    {
        self.stop(StopReason::Disabled);
        self.events.clear();
        self.status.generation = self.status.generation.wrapping_add(1);
        self.status.mode = mode;
        self.status.reason = None;
        self.last_heartbeat = now;
        assert(self@ =~= old(self)@.begun(mode, now));
    }

    /// Queues an event for the consumer; a full queue ends capture instead.
    pub fn emit(&mut self, event: Event)
        ensures
            final(self)@ == old(self)@.emitted(event@),
    {
        if self.events.len() >= QUEUE_LIMIT {
            self.stop(StopReason::QueueOverflow);
        } else {
            self.events.push_back(event);
        }
        assert(self@ =~= old(self)@.emitted(event@));
    }

    /// Ends capture where a heartbeat or a release is overdue.
    pub fn tick(&mut self, now: u64)
        ensures
            final(self)@ == old(self)@.ticked(now),
    {
        if self.status.mode == Mode::Off {
            return;
        }
        if now.saturating_sub(self.last_heartbeat) >= HEARTBEAT_TIMEOUT_MS {
            self.stop(StopReason::HeartbeatTimeout);
            return;
        }
        if self.status.mode == Mode::Active && self.held.any_older(now, self.escape_ms) {
            self.stop(StopReason::HoldEscape);
        }
    }

    /// Takes a key edge at `now`. `apply` has the switch state machine apply an action to a
    /// mapping, at the level that [`Action::level`] gives, and reports the switch that changed
    /// state. It is called exactly where [`Core::key_step`] asks for it, with what that step holds,
    /// and otherwise not at all. Where its last argument is set, the machine first releases every
    /// switch. The result says whether the edge is withheld from other applications.
    pub fn key<F: FnOnce(String, Action, bool) -> Option<String>>(
        &mut self,
        code: &str,
        pressed: bool,
        now: u64,
        apply: F,
    ) -> (consumed: bool)
        requires
            may_ask(apply, old(self)@.keyed(code@, pressed, now).1),
        ensures
            key_taken(old(self)@, code@, pressed, now, apply, final(self)@, consumed),
    {
        match self.key_step(code, pressed, now) {
            KeyStep::Done(withheld) => withheld,
            KeyStep::Apply { mapping_id, action, release_first } => {
                let ghost id = mapping_id;
                proof {
                    lemma_may_be_asked(apply, old(self)@.keyed(code@, pressed, now).1, id);
                }
                let edge = apply(mapping_id, action, release_first);
                let consumed = self.settle(action, edge, now);
                proof {
                    let (state, step) = old(self)@.keyed(code@, pressed, now);
                    assert(reports(
                        apply,
                        step->mapping_id,
                        step->action,
                        step->release_first,
                        edge,
                    )) by {
                        assert(step->mapping_id == id@);
                    }
                    assert(self@ == state.settled(step->action, optional_text(edge), now));
                    assert(key_taken(old(self)@, code@, pressed, now, apply, self@, consumed));
                }
                consumed
            },
        }
    }

    /// Takes a key edge at `now`, up to the work of the switch state machine.
    pub fn key_step(&mut self, code: &str, pressed: bool, now: u64) -> (step: KeyStep)
        ensures
            (final(self)@, step@) == old(self)@.keyed(code@, pressed, now),
    {
        self.tick(now);
        let was_down = if pressed {
            !self.down.insert(code)
        } else {
            self.down.remove(code)
        };
        assert(self@ =~= old(self)@.ticked(now).moved(code@, pressed));
        // Drain releases and repeats of withheld keys, even after cancellation.
        if self.status.mode == Mode::Off {
            let consumed = if pressed {
                self.physical.contains(code)
            } else {
                self.physical.remove(code)
            };
            return KeyStep::Done(consumed);
        }
        if same_text(code, "Escape") {
            if pressed {
                self.physical.insert(code);
                self.stop(StopReason::Escape);
            } else {
                self.physical.remove(code);
            }
            return KeyStep::Done(true);
        }
        if self.status.mode == Mode::Learning {
            if pressed {
                if was_down {
                    return KeyStep::Done(self.physical.contains(code));
                }
                self.physical.insert(code);
                if self.learned.is_none() {
                    self.learned = Some(code.to_owned());
                }
            } else {
                if !self.physical.remove(code) {
                    return KeyStep::Done(false);
                }
                let learned = match &self.learned {
                    Some(first) => same_text(first.as_str(), code),
                    None => false,
                };
                if learned {
                    self.status.mode = Mode::Off;
                    self.learned = None;
                    self.emit(
                        Event::Learned {
                            generation: self.status.generation,
                            code: code.to_owned(),
                        },
                    );
                }
            }
            return KeyStep::Done(true);
        }
        let mapping_id = match self.mappings.get(code) {
            Some(id) => id.clone(),
            None => {
                return KeyStep::Done(false);
            },
        };
        if pressed {
            if was_down {
                return KeyStep::Done(self.physical.contains(code));
            }
            if !self.physical.insert(code) {
                return KeyStep::Done(true);
            }
        } else if !self.physical.remove(code) {
            return KeyStep::Done(false);
        }
        let release_first = self.take_release();
        KeyStep::Apply { mapping_id, action: Action::from_edge(pressed), release_first }
    }

    /// Takes what the switch state machine reported for an [`KeyStep::Apply`] step: the switch
    /// that changed state, or `None` where none did or the machine refused. The edge that led to
    /// the step is withheld, which is what the result says.
    pub fn settle(&mut self, action: Action, edge: Option<String>, now: u64) -> (consumed: bool)
        ensures
            final(self)@ == old(self)@.settled(action, optional_text(edge), now),
            consumed,
    {
        if let Some(switch_id) = edge {
            if action == Action::Pressed {
                self.held.insert(switch_id.as_str(), now);
            } else {
                self.held.remove(switch_id.as_str());
            }
            self.emit(
                Event::Switch {
                    generation: self.status.generation,
                    switch_id,
                    action,
                    monotonic_ms: now,
                },
            );
        }
        true
    }

    /// Whether the switch state machine is to release every switch now. A release that is due and
    /// not asked for comes with the next action.
    pub fn take_release(&mut self) -> (due: bool)
        ensures
            due == old(self)@.release_due,
            final(self)@ == (CoreState { release_due: false, ..old(self)@ }),
    {
        let due = self.release_due;
        self.release_due = false;
        due
    }

    /// Takes a heartbeat of the embedding application.
    pub fn heartbeat(&mut self, now: u64)
        ensures
            final(self)@ == (CoreState { last_heartbeat: now, ..old(self)@ }),
    {
        self.last_heartbeat = now;
    }

    /// The native hook no longer sees input.
    pub fn lost(&mut self)
        ensures
            final(self)@ == old(self)@.native_failed(),
    {
        self.native_lost = true;
        self.stop(StopReason::CaptureLost);
        assert(self@ =~= old(self)@.native_failed());
    }

    /// The native hook is up and sees exactly the keys of `down` held.
    pub fn ready(&mut self, down: NameSet)
        ensures
            final(self)@ == old(self)@.native_ready(down@),
    {
        self.physical.retain_in(&down);
        self.down = down;
        self.native_lost = false;
    }

    /// Hands over the waiting events, oldest first.
    pub fn drain(&mut self, now: u64) -> (events: Vec<Event>)
        ensures
            event_views(events@) == old(self)@.ticked(now).events,
            final(self)@ == (CoreState { events: Seq::empty(), ..old(self)@.ticked(now) }),
    {
        self.tick(now);
        let ghost ticked = *self;
        let ghost queued = self.events@;
        let mut events: Vec<Event> = Vec::new();
        while self.events.len() > 0
            invariant
                events@ + self.events@ == queued,
                self@ == (CoreState { events: event_views(self.events@), ..ticked@ }),
            decreases self.events@.len(),
        {
            let ghost before = self.events@;
            match self.events.pop_front() {
                Some(event) => {
                    events.push(event);
                    assert(before =~= seq![event] + self.events@);
                    assert(events@ + self.events@ =~= queued);
                },
                None => {},
            }
        }
        assert(events@ =~= queued);
        events
    }
}

} // verus!
