use std::path::PathBuf;
use usahp_daemon::embedded::mapping::{InputKind, Mapping};
use usahp_daemon::management::{ActiveSessionSnapshot, BrokerSnapshot};
use usahp_daemon::service::{
    broker_mappings, ensure_loopback, require_config_path, validate_config, BrokerReply, Config,
    HostAddress, LoadedConfig, ServerConfig, ServicePhase, ServiceSupervisor, SimulatorConfig,
    StartStep, StopStep,
};

fn mapping(id: &str) -> Mapping {
    Mapping {
        id: id.into(),
        switch_id: "switch_1".into(),
        input: InputKind::Keyboard,
        code: "Space".into(),
        device: None,
    }
}

fn config(host: HostAddress, stdin: bool) -> Config {
    Config {
        server: ServerConfig { host, port: 8765, client_queue_capacity: 16 },
        simulator: SimulatorConfig { stdin },
        mappings: vec![mapping("space")],
    }
}

fn local() -> Config {
    config(HostAddress::V4([127, 0, 0, 1]), false)
}

fn service() -> ServiceSupervisor {
    ServiceSupervisor::load("switches.toml".into(), local(), BrokerReply::Done).unwrap()
}

fn broker() -> BrokerSnapshot<u8> {
    BrokerSnapshot {
        capture_enabled: true,
        switches: vec![1, 2],
        connections: Vec::new(),
        active_session: Some(ActiveSessionSnapshot {
            client_id: 3,
            app_id: "app".into(),
            pid: None,
            requested_mode: "managed".into(),
            session_id: "s".into(),
        }),
    }
}

#[test]
fn only_loopback_addresses_are_accepted() {
    for (host, accepted) in [
        (HostAddress::V4([127, 0, 0, 1]), true),
        (HostAddress::V4([127, 9, 8, 7]), true),
        (HostAddress::V4([128, 0, 0, 1]), false),
        (HostAddress::V4([0, 0, 0, 0]), false),
        (HostAddress::V6([0, 0, 0, 0, 0, 0, 0, 1]), true),
        (HostAddress::V6([0, 0, 0, 0, 0, 0, 0, 2]), false),
        (HostAddress::V6([0, 0, 0, 0, 0, 0xffff, 0x7f00, 1]), false),
    ] {
        let result = ensure_loopback(&config(host, false));
        assert_eq!(result.is_ok(), accepted, "{host:?}");
        assert_eq!(host.is_loopback(), accepted);
        if let Err(message) = result {
            assert_eq!(message, "USAHP Control requires a loopback server address");
        }
    }
}

#[test]
fn configurations_are_validated() {
    let valid = validate_config("a.toml", LoadedConfig::Loaded(local())).unwrap();
    assert_eq!(valid.mappings[0].switch_id, "switch_1");
    assert_eq!(
        validate_config("a.toml", LoadedConfig::Unreadable("no such file".into())).unwrap_err(),
        "failed to load a.toml: no such file"
    );
    assert_eq!(
        validate_config("a.toml", LoadedConfig::InvalidInputs("no device".into())).unwrap_err(),
        "no device"
    );
    let open = config(HostAddress::V4([10, 0, 0, 1]), false);
    assert_eq!(
        validate_config("a.toml", LoadedConfig::Loaded(open)).unwrap_err(),
        "USAHP Control requires a loopback server address"
    );
}

#[test]
fn a_configuration_path_is_required() {
    let path = PathBuf::from("a.toml");
    assert_eq!(require_config_path(Some(path.clone())), Ok(path));
    assert_eq!(
        require_config_path(None).unwrap_err().message(),
        "no USAHP configuration selected"
    );
}

#[test]
fn simulated_mappings_follow_the_configured_ones() {
    let ids = |stdin: bool| -> Vec<String> {
        let config = config(HostAddress::V4([127, 0, 0, 1]), stdin);
        broker_mappings(&config, vec![mapping("sim")]).into_iter().map(|m| m.id).collect()
    };
    assert_eq!(ids(true), vec!["space", "sim"]);
    assert_eq!(ids(false), vec!["space"]);
}

#[test]
fn an_unpaused_broker_fails_the_load() {
    for (reply, text) in [
        (
            BrokerReply::Unreachable("channel closed".into()),
            "broker stopped while initializing service: channel closed",
        ),
        (
            BrokerReply::Silent("channel closed".into()),
            "broker did not acknowledge initial pause: channel closed",
        ),
        (BrokerReply::Refused("busy".into()), "busy"),
    ] {
        let result = ServiceSupervisor::load("a".into(), local(), reply);
        assert_eq!(result.unwrap_err(), text);
    }
    assert_eq!(service().phase(), ServicePhase::Stopped);
    assert_eq!(service().config().server.client_queue_capacity, 16);
}

#[test]
fn the_service_starts_and_stops() {
    let mut s = service();
    assert_eq!(s.stop(), StopStep::Stopped);
    assert_eq!(s.start(), StartStep::Bind);
    assert_eq!(s.phase(), ServicePhase::Starting);
    assert_eq!(s.bound(Ok(())), Ok(()));
    assert_eq!(s.resumed(BrokerReply::Done), Ok(()));
    assert_eq!(s.phase(), ServicePhase::Running);
    assert_eq!(s.start(), StartStep::Running);
    assert_eq!(s.stop(), StopStep::Pause { close_server: true });
    assert_eq!(s.phase(), ServicePhase::Stopping);
    assert_eq!(s.paused(BrokerReply::Done), Ok(()));
    assert_eq!(s.phase(), ServicePhase::Stopped);
    assert_eq!(s.start(), StartStep::Bind);
}

#[test]
fn a_taken_port_is_an_error_until_the_next_start() {
    let mut s = service();
    s.start();
    let message = "could not bind loopback WebSocket server: in use";
    assert_eq!(s.bound(Err("in use".into())), Err(message.into()));
    assert_eq!(s.phase(), ServicePhase::Error);
    assert_eq!(s.snapshot("127.0.0.1", broker()).error.as_deref(), Some(message));
    assert_eq!(s.start(), StartStep::Bind);
    assert_eq!(s.snapshot("127.0.0.1", broker()).error, None);
}

#[test]
fn a_broker_that_does_not_follow_is_an_error() {
    let mut s = service();
    s.start();
    s.bound(Ok(())).unwrap();
    assert_eq!(
        s.resumed(BrokerReply::Unreachable("closed".into())),
        Err("broker stopped: closed".into())
    );
    assert_eq!(s.stop(), StopStep::Pause { close_server: false });
    assert_eq!(
        s.paused(BrokerReply::Silent("closed".into())),
        Err("broker did not acknowledge service command: closed".into())
    );
    assert_eq!(s.phase(), ServicePhase::Error);
    assert_eq!(s.stop(), StopStep::Pause { close_server: false });
    assert_eq!(s.paused(BrokerReply::Refused("no".into())), Err("no".into()));
}

#[test]
fn the_snapshot_shows_the_broker() {
    let snapshot = service().snapshot("127.0.0.1", broker());
    assert_eq!(snapshot.phase, ServicePhase::Stopped);
    assert_eq!(snapshot.config_path, "switches.toml");
    assert_eq!(snapshot.address, "127.0.0.1:8765");
    assert!(snapshot.capture_enabled);
    assert_eq!(snapshot.switches, vec![1, 2]);
    assert!(snapshot.connections.is_empty());
    assert_eq!(snapshot.active_session.unwrap().client_id, 3);
    assert_eq!(snapshot.error, None);
}

#[test]
fn a_public_address_is_never_loaded() {
    for reply in [BrokerReply::Done, BrokerReply::Refused("busy".into())] {
        let open = config(HostAddress::V4([10, 0, 0, 1]), false);
        assert_eq!(
            ServiceSupervisor::load("a".into(), open, reply).unwrap_err(),
            "USAHP Control requires a loopback server address"
        );
    }
    assert!(service().config().server.host.is_loopback());
}

#[test]
fn an_unfinished_stop_closes_the_server_again() {
    let mut s = service();
    s.start();
    s.bound(Ok(())).unwrap();
    s.resumed(BrokerReply::Done).unwrap();
    assert_eq!(s.stop(), StopStep::Pause { close_server: true });
    assert_eq!(s.stop(), StopStep::Pause { close_server: true });
    assert_eq!(s.paused(BrokerReply::Refused("busy".into())), Err("busy".into()));
    assert_eq!(s.phase(), ServicePhase::Error);
    assert_eq!(s.stop(), StopStep::Pause { close_server: false });
}
