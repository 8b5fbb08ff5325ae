use std::collections::HashSet;
use usahp_daemon::embedded::capture::{Core, KeyStep};
use usahp_daemon::embedded::mapping::Action;
use usahp_daemon::embedded::{normalize_key, Event, Mode, StopReason};
use usahp_daemon::names::NameSet;

/// Switches driven by mappings: a switch is pressed while any of its mappings is.
#[derive(Default)]
struct Switches {
    mappings: Vec<(String, String)>,
    pressed: HashSet<String>,
}

impl Switches {
    fn new(mappings: &[(&str, &str)]) -> Self {
        Self {
            mappings: mappings.iter().map(|(id, switch)| (id.to_string(), switch.to_string())).collect(),
            pressed: HashSet::new(),
        }
    }

    fn is_pressed(&self, switch: &str) -> bool {
        self.mappings.iter().any(|(id, s)| s == switch && self.pressed.contains(id))
    }

    fn apply(&mut self, id: &str, action: Action) -> Option<String> {
        let switch = self.mappings.iter().find(|(known, _)| known == id)?.1.clone();
        let before = self.is_pressed(&switch);
        match action {
            Action::Pressed => self.pressed.insert(id.to_string()),
            Action::Released => self.pressed.remove(id),
        };
        (self.is_pressed(&switch) != before).then_some(switch)
    }

    fn apply_after(&mut self, id: &str, action: Action, release_first: bool) -> Option<String> {
        if release_first {
            self.release_all();
        }
        self.apply(id, action)
    }

    fn release_all(&mut self) {
        self.pressed.clear();
    }
}

struct Capture {
    core: Core,
    switches: Switches,
}

impl Capture {
    fn new() -> Self {
        Self { core: Core::default(), switches: Switches::default() }
    }

    fn settle(&mut self) {
        if self.core.take_release() {
            self.switches.release_all();
        }
    }

    fn key(&mut self, code: &str, pressed: bool, now: u64) -> bool {
        let switches = &mut self.switches;
        let consumed = self.core.key(code, pressed, now, |id, action, release_first| {
            switches.apply_after(&id, action, release_first)
        });
        self.settle();
        consumed
    }

    fn tick(&mut self, now: u64) {
        self.core.tick(now);
        self.settle();
    }

    fn begin(&mut self, mode: Mode, now: u64) {
        self.core.begin(mode, now);
        self.settle();
    }

    fn stop(&mut self, reason: StopReason) {
        self.core.stop(reason);
        self.settle();
    }
}

fn active() -> Capture {
    let mut c = Capture::new();
    c.core.mappings.insert("Space", "space".into());
    c.switches = Switches::new(&[("space", "select")]);
    c.begin(Mode::Active, 0);
    c
}

#[test]
fn repeat_and_unmatched_release_never_activate() {
    let mut c = active();
    assert!(!c.key("Space", false, 0));
    assert!(c.core.events.is_empty());
    c.key("Space", true, 1);
    c.key("Space", true, 2);
    c.key("Space", false, 3);
    assert_eq!(c.core.events.len(), 2);
    assert!(!c.key("A", true, 4));
}

#[test]
fn cancellation_discards_edges_without_synthetic_releases() {
    let mut c = active();
    c.key("Space", true, 1);
    c.stop(StopReason::Disabled);
    assert!(matches!(c.core.events.front(), Some(Event::Stopped { .. })));
    assert_eq!(c.core.events.len(), 1);
    assert!(c.key("Space", false, 2));
    assert_eq!(c.core.events.len(), 1);
}

#[test]
fn heartbeat_and_long_hold_fail_open() {
    let mut c = active();
    c.key("Space", true, 0);
    c.tick(1500);
    assert_eq!(c.core.status.reason, Some(StopReason::HeartbeatTimeout));
    let mut c = active();
    c.core.escape_ms = 6000;
    c.key("Space", true, 0);
    for n in 1..=12 {
        c.core.last_heartbeat = n * 500;
        c.tick(n * 500);
    }
    assert_eq!(c.core.status.reason, Some(StopReason::HoldEscape));
    assert!(!c.key("A", true, 6001));
}

#[test]
fn learns_only_complete_press_and_escape_cancels() {
    let mut c = Capture::new();
    c.begin(Mode::Learning, 0);
    c.key("Space", false, 1);
    assert!(c.core.events.is_empty());
    c.key("Space", true, 2);
    c.key("Space", true, 3);
    c.key("Space", false, 4);
    assert!(matches!(c.core.events.front(), Some(Event::Learned { code, .. }) if code == "Space"));
    c.begin(Mode::Learning, 5);
    c.key("Escape", true, 6);
    assert_eq!(c.core.status.reason, Some(StopReason::Escape));
}

#[test]
fn overflow_cancels_instead_of_delivering_partial_gesture() {
    let mut c = active();
    for n in 0..300 {
        c.key("Space", n % 2 == 0, n);
    }
    assert_eq!(c.core.status.reason, Some(StopReason::QueueOverflow));
    assert_eq!(c.core.events.len(), 1);
    assert!(matches!(c.core.events[0], Event::Stopped { .. }));
}

#[test]
fn learning_drains_overlapping_keys() {
    let mut c = Capture::new();
    c.begin(Mode::Learning, 0);
    for (code, down) in [("A", true), ("B", true), ("B", false), ("A", false)] {
        assert!(c.key(code, down, 1));
    }
    assert!(c.core.physical.is_empty());
    assert!(c.core.down.is_empty());
    assert!(matches!(c.core.events.front(), Some(Event::Learned { code, .. }) if code == "A"));
}

#[test]
fn prior_passed_press_retains_passed_release() {
    let mut c = active();
    c.stop(StopReason::Disabled);
    assert!(!c.key("Space", true, 1));
    c.begin(Mode::Active, 2);
    assert!(!c.key("Space", true, 3));
    assert!(!c.key("Space", false, 4));
    assert!(c.core.events.is_empty());
}

#[test]
fn cleanup_does_not_erase_native_failure() {
    let mut c = Capture::new();
    c.begin(Mode::Learning, 0);
    c.key("Space", true, 0);
    c.core.lost();
    c.stop(StopReason::Disabled);
    assert!(c.core.native_lost);
    c.core.ready(NameSet::new());
    assert!(!c.core.native_lost);
    assert!(c.core.down.is_empty());
    assert!(c.core.physical.is_empty());
}

#[test]
fn generations_change_and_names_are_stable() {
    let mut c = active();
    let old = c.core.status.generation;
    c.stop(StopReason::Disabled);
    c.begin(Mode::Active, 1);
    assert_ne!(c.core.status.generation, old);
    assert_eq!(normalize_key("Return").as_deref(), Some("Enter"));
    assert!(normalize_key("F24").is_some());
    assert!(normalize_key("F25").is_none());
}

#[test]
fn generation_wraps_around() {
    let mut c = active();
    assert_eq!(c.core.status.generation, 1);
    c.core.status.generation = u64::MAX;
    c.begin(Mode::Active, 0);
    assert_eq!(c.core.status.generation, 0);
}

#[test]
fn edges_are_reported_with_their_time_and_generation() {
    let mut c = active();
    assert!(c.key("Space", true, 7));
    assert!(c.key("Space", false, 9));
    assert_eq!(
        c.core.drain(10),
        vec![
            Event::Switch {
                generation: 1,
                switch_id: "select".into(),
                action: Action::Pressed,
                monotonic_ms: 7,
            },
            Event::Switch {
                generation: 1,
                switch_id: "select".into(),
                action: Action::Released,
                monotonic_ms: 9,
            },
        ]
    );
    assert!(c.core.events.is_empty());
}

#[test]
fn keys_of_one_switch_are_aggregated() {
    let mut c = active();
    c.core.mappings.insert("Enter", "enter".into());
    c.switches = Switches::new(&[("space", "select"), ("enter", "select")]);
    assert!(c.key("Space", true, 1));
    assert!(c.key("Enter", true, 2));
    assert!(c.key("Space", false, 3));
    assert_eq!(c.core.events.len(), 1);
    assert!(c.key("Enter", false, 4));
    assert_eq!(c.core.events.len(), 2);
}

#[test]
fn cancellation_releases_the_switches_once() {
    let mut c = active();
    let switches = &mut c.switches;
    assert!(c.core.key("Space", true, 1, |id, action, release_first| {
        assert!(!release_first);
        switches.apply(&id, action)
    }));
    assert!(!c.core.take_release());
    c.core.stop(StopReason::Disabled);
    assert!(c.core.take_release());
    assert!(!c.core.take_release());
}

#[test]
fn steps_name_the_mapping_and_its_action() {
    let mut c = active();
    match c.core.key_step("Space", true, 1) {
        KeyStep::Apply { mapping_id, action, release_first } => {
            assert_eq!(mapping_id, "space");
            assert!(!release_first);
            assert_eq!(action, Action::Pressed);
            assert_eq!(action.level(), 100);
        }
        KeyStep::Done(_) => panic!("the press drives a switch"),
    }
    assert!(c.core.settle(Action::Pressed, None, 1));
    assert!(c.core.events.is_empty());
    match c.core.key_step("Space", false, 2) {
        KeyStep::Apply { action, .. } => assert_eq!(action.level(), 0),
        KeyStep::Done(_) => panic!("the release drives a switch"),
    }
    assert!(matches!(c.core.key_step("Space", false, 3), KeyStep::Done(false)));
}

#[test]
fn escape_is_withheld_and_drained() {
    let mut c = active();
    c.key("Space", true, 1);
    assert!(c.key("Escape", true, 2));
    assert_eq!(c.core.status.mode, Mode::Off);
    assert_eq!(
        c.core.drain(3),
        vec![Event::Stopped { generation: 1, reason: StopReason::Escape }]
    );
    assert!(c.key("Escape", true, 4));
    assert!(c.key("Escape", false, 5));
    assert!(!c.key("Escape", true, 6));
    assert!(c.key("Space", false, 7));
    assert!(!c.key("Space", false, 8));
}

#[test]
fn heartbeats_keep_capture_on() {
    let mut c = active();
    c.tick(1499);
    assert_eq!(c.core.status.mode, Mode::Active);
    c.core.heartbeat(1499);
    c.tick(2998);
    assert_eq!(c.core.status.mode, Mode::Active);
    c.tick(2999);
    assert_eq!(c.core.status.mode, Mode::Off);
}

#[test]
fn shorter_holds_keep_capture_on() {
    let mut c = active();
    c.key("Space", true, 0);
    c.core.heartbeat(3999);
    c.tick(3999);
    assert_eq!(c.core.status.mode, Mode::Active);
    c.core.heartbeat(4000);
    c.tick(4000);
    assert_eq!(c.core.status.reason, Some(StopReason::HoldEscape));
}

#[test]
fn a_lost_hook_stops_capture() {
    let mut c = active();
    c.core.lost();
    assert_eq!(c.core.status.reason, Some(StopReason::CaptureLost));
    assert_eq!(c.core.events.len(), 1);
}

#[test]
fn a_hook_that_comes_up_sees_what_is_held() {
    let mut c = active();
    c.key("Space", true, 1);
    c.core.mappings.insert("Enter", "enter".into());
    c.key("Enter", true, 2);
    let mut down = NameSet::new();
    assert!(down.insert("Enter"));
    assert!(!down.insert("Enter"));
    assert!(down.insert("Tab"));
    c.core.ready(down);
    assert!(!c.core.physical.contains("Space"));
    assert!(c.core.physical.contains("Enter"));
    assert!(!c.core.physical.contains("Tab"));
    assert!(c.core.down.contains("Tab"));
}

#[test]
fn an_action_brings_a_due_release_along() {
    let mut c = active();
    c.key("Space", true, 1);
    c.core.stop(StopReason::Disabled);
    assert!(c.core.key("Space", false, 2, |_, _, _| panic!("capture is off")));
    c.core.begin(Mode::Active, 3);
    assert!(c.switches.is_pressed("select"));
    let switches = &mut c.switches;
    let mut asked = Vec::new();
    assert!(c.core.key("Space", true, 4, |id, action, release_first| {
        asked.push(release_first);
        switches.apply_after(&id, action, release_first)
    }));
    assert_eq!(asked, vec![true]);
    assert!(!c.core.take_release());
    assert_eq!(
        c.core.drain(5),
        vec![Event::Switch {
            generation: 2,
            switch_id: "select".into(),
            action: Action::Pressed,
            monotonic_ms: 4,
        }]
    );
}

#[test]
fn repeats_and_unmatched_edges_do_not_reach_the_machine() {
    let mut c = active();
    let unasked = |_, _, _| -> Option<String> { panic!("no switch is driven") };
    assert!(!c.core.key("Space", false, 1, unasked));
    assert!(!c.core.key("A", true, 2, unasked));
    assert!(c.key("Space", true, 3));
    assert!(c.core.key("Space", true, 4, unasked));
    assert!(c.switches.is_pressed("select"));
    assert!(c.key("Space", false, 5));
    assert_eq!(c.core.drain(6).len(), 2);
}
