use usahp_daemon::embedded::broker::{BrokerError, EmbeddedBroker, NativeStep, Platform};
use usahp_daemon::embedded::mapping::{Action, InputKind, Mapping};
use usahp_daemon::embedded::native::{startup_outcome, StartupReply};
use usahp_daemon::embedded::{Event, Mode, StopReason};
use usahp_daemon::names::NameSet;

fn mapping(id: &str, switch_id: &str, code: &str) -> Mapping {
    Mapping {
        id: id.into(),
        switch_id: switch_id.into(),
        input: InputKind::Keyboard,
        code: code.into(),
        device: None,
    }
}

fn ready(platform: Platform) -> EmbeddedBroker {
    let mut broker = EmbeddedBroker::new(platform);
    broker.configure(&[mapping("space", "select", "Space")], 4000).unwrap();
    broker
}

#[test]
fn creation_captures_nothing() {
    let mut broker = EmbeddedBroker::new(Platform::Windows);
    assert_eq!(broker.status().mode, Mode::Off);
    assert_eq!(broker.status().generation, 0);
    assert_eq!(broker.status().reason, None);
    assert!(!broker.key("Space", true, 1, |_, _, _| None));
    assert!(broker.drain(2).is_empty());
}

#[test]
fn a_whole_gesture_is_captured() {
    let mut broker = ready(Platform::Windows);
    assert_eq!(broker.prepare(false), Ok(NativeStep::Start));
    assert_eq!(broker.enable(Ok(()), 10), Ok(1));
    assert_eq!(broker.enable(Ok(()), 11), Err(BrokerError::AlreadyActive));
    assert_eq!(broker.prepare(true), Err(BrokerError::AlreadyActive));
    let mut asked = Vec::new();
    assert!(broker.key("Space", true, 20, |id, action, _| {
        asked.push((id, action));
        Some("select".into())
    }));
    assert_eq!(asked, vec![("space".to_string(), Action::Pressed)]);
    broker.heartbeat(30);
    broker.tick(1000);
    assert!(broker.key("Space", false, 1001, |_, _, _| Some("select".into())));
    assert_eq!(broker.drain(1002).len(), 2);
    broker.stop();
    assert_eq!(
        broker.drain(1003),
        vec![Event::Stopped { generation: 1, reason: StopReason::Disabled }]
    );
}

#[test]
fn learning_begins_a_generation() {
    let mut broker = ready(Platform::MacOs);
    assert_eq!(broker.learn(Ok(()), 0), Ok(1));
    assert_eq!(broker.status().mode, Mode::Learning);
    assert!(broker.key("A", true, 1, |_, _, _| None));
    assert!(broker.key("A", false, 2, |_, _, _| None));
    assert_eq!(broker.drain(3), vec![Event::Learned { generation: 1, code: "A".into() }]);
    assert_eq!(broker.learn(Ok(()), 4), Ok(2));
}

#[test]
fn held_keys_block_a_new_beginning() {
    let mut broker = ready(Platform::Windows);
    broker.key("A", true, 1, |_, _, _| None);
    assert_eq!(broker.enable(Ok(()), 2), Err(BrokerError::SwitchHeld));
    broker.shutdown();
    assert_eq!(broker.enable(Ok(()), 3), Ok(1));
}

#[test]
fn a_lost_hook_is_restarted() {
    let mut broker = ready(Platform::Windows);
    assert_eq!(broker.prepare(true), Ok(NativeStep::Keep));
    broker.lost();
    assert!(broker.take_release());
    assert_eq!(broker.prepare(true), Ok(NativeStep::Restart));
    assert_eq!(broker.prepare(false), Ok(NativeStep::Start));
    assert_eq!(broker.enable(Ok(()), 1), Err(BrokerError::NativeLost));
    broker.ready(NameSet::new());
    assert_eq!(broker.enable(Ok(()), 2), Ok(1));
}

#[test]
fn other_platforms_are_refused() {
    let mut broker = EmbeddedBroker::new(Platform::Other);
    assert_eq!(broker.configure(&[], 4000), Ok(()));
    assert_eq!(broker.prepare(false), Err(BrokerError::UnsupportedPlatform));
    assert_eq!(broker.enable(Ok(()), 0), Err(BrokerError::UnsupportedPlatform));
    assert_eq!(broker.learn(Ok(()), 0), Err(BrokerError::UnsupportedPlatform));
}

#[test]
fn faulty_configurations_are_refused() {
    let mut broker = EmbeddedBroker::new(Platform::MacOs);
    let good = mapping("a", "select", "Return");
    let mut refused = |mappings: &[Mapping], escape_ms: u64| {
        broker.configure(mappings, escape_ms).unwrap_err()
    };
    assert_eq!(refused(&[], 3999), BrokerError::InvalidLimits);
    let many: Vec<Mapping> = (0..129).map(|n| mapping(&format!("{n}"), "s", "A")).collect();
    assert_eq!(refused(&many, 4000), BrokerError::InvalidLimits);
    let mut other = good.clone();
    other.input = InputKind::Other;
    assert_eq!(refused(&[other], 4000), BrokerError::InvalidMapping);
    let mut bound = good.clone();
    bound.device = Some("pad".into());
    assert_eq!(refused(&[bound], 4000), BrokerError::InvalidMapping);
    assert_eq!(refused(&[mapping("a", " \t\u{2003}", "A")], 4000), BrokerError::InvalidMapping);
    assert_eq!(
        refused(&[good.clone(), mapping("a", "s", "B")], 4000),
        BrokerError::InvalidMapping
    );
    assert_eq!(
        refused(&[good.clone(), mapping("b", "s", "Shift")], 4000),
        BrokerError::UnsupportedKey("Shift".into())
    );
    assert_eq!(
        refused(&[mapping("b", "s", "Escape")], 4000),
        BrokerError::ReservedKey("Escape".into())
    );
    assert_eq!(
        refused(&[mapping("b", "s", "F21")], 4000),
        BrokerError::ReservedKey("F21".into())
    );
    assert_eq!(
        refused(&[good, mapping("b", "s", "Enter")], 4000),
        BrokerError::DuplicateKey
    );
}

#[test]
fn mappings_change_only_while_off() {
    let mut broker = ready(Platform::Windows);
    broker.enable(Ok(()), 0).unwrap();
    assert_eq!(broker.configure(&[], 4000), Err(BrokerError::NotOff));
    broker.stop();
    assert_eq!(broker.configure(&[], 4000), Ok(()));
}

#[test]
fn a_refused_configuration_changes_nothing() {
    let mut broker = ready(Platform::Windows);
    assert!(broker.configure(&[mapping("x", "s", "A"), mapping("y", "s", "A")], 5000).is_err());
    broker.enable(Ok(()), 0).unwrap();
    assert!(!broker.key("A", true, 1, |_, _, _| Some("s".into())));
    assert!(broker.key("Space", true, 1, |_, _, _| Some("select".into())));
}

#[test]
fn refusals_read_as_sentences() {
    for (error, text) in [
        (BrokerError::NotOff, "Disable capture before changing mappings."),
        (BrokerError::InvalidLimits, "Invalid embedded mapping count or escape duration."),
        (BrokerError::InvalidMapping, "Invalid embedded keyboard mapping."),
        (BrokerError::UnsupportedKey("Shift".into()), "Unsupported switch key: Shift"),
        (
            BrokerError::ReservedKey("Escape".into()),
            "Switch key is reserved or unavailable on this platform: Escape",
        ),
        (BrokerError::DuplicateKey, "Each physical key can be mapped only once."),
        (
            BrokerError::UnsupportedPlatform,
            "Embedded keyboard capture is supported on Windows and macOS.",
        ),
        (BrokerError::AlreadyActive, "Capture is already active."),
        (BrokerError::NativeFailed("no hook".into()), "no hook"),
        (BrokerError::NativeLost, "Native switch capture was lost during startup."),
        (BrokerError::SwitchHeld, "Release the held switch before starting capture."),
    ] {
        assert_eq!(error.message(), text);
    }
}

#[test]
fn the_clock_saturates() {
    assert_eq!(EmbeddedBroker::monotonic_ms(1234), 1234);
    assert_eq!(EmbeddedBroker::monotonic_ms(u128::MAX), u64::MAX);
}

#[test]
fn a_withheld_press_and_its_release_share_their_fate() {
    let mut broker = ready(Platform::Windows);
    broker.enable(Ok(()), 0).unwrap();
    assert!(broker.key("Space", true, 1, |_, _, _| Some("select".into())));
    broker.lost();
    assert!(!broker.key("A", true, 2, |_, _, _| None));
    assert_eq!(broker.enable(Ok(()), 3), Err(BrokerError::NativeLost));
    assert!(broker.key("Space", false, 4, |_, _, _| None));
    assert!(!broker.key("A", false, 5, |_, _, _| None));
}

#[test]
fn a_hook_that_does_not_start_is_the_answer() {
    let mut broker = ready(Platform::Windows);
    let failed = || startup_outcome(Platform::Windows, StartupReply::Failed("denied".into()));
    let text = "Windows switch capture could not start: denied";
    assert_eq!(broker.enable(failed(), 1), Err(BrokerError::NativeFailed(text.into())));
    assert_eq!(broker.learn(failed(), 2), Err(BrokerError::NativeFailed(text.into())));
    assert_eq!(broker.status().mode, Mode::Off);
    assert_eq!(broker.status().generation, 0);
    assert!(broker.drain(3).is_empty());
    let up = startup_outcome(Platform::Windows, StartupReply::Ready);
    assert_eq!(broker.enable(up, 4), Ok(1));
    assert_eq!(broker.enable(failed(), 5), Err(BrokerError::AlreadyActive));
    assert_eq!(broker.status().mode, Mode::Active);
    let mut other = EmbeddedBroker::new(Platform::Other);
    assert_eq!(other.enable(failed(), 6), Err(BrokerError::UnsupportedPlatform));
}
