use usahp_daemon::control::{
    choose_config, default_config, default_mappings, launched, menu_choice, quit_usahp,
    remembered_path, request_or_perform, service_snapshot, start_service, startup_plan,
    stop_service, tray_click_shows_main, window_step, ChoiceOutcome, ChooseStep, ControlSnapshot,
    MenuStep, RequestStep, StartupPlan, WindowChange, WindowStep,
};
use usahp_daemon::embedded::broker::{EmbeddedBroker, Platform};
use usahp_daemon::management::ActiveSessionSnapshot;
use usahp_daemon::service::{
    BrokerReply, Config, HostAddress, ServerConfig, ServicePhase, ServiceSnapshot,
    ServiceSupervisor, SimulatorConfig, StartStep, StopStep,
};

fn snapshot(owned: bool) -> ServiceSnapshot<u8> {
    ServiceSnapshot {
        phase: ServicePhase::Running,
        config_path: "a.toml".into(),
        address: "127.0.0.1:1".into(),
        capture_enabled: true,
        switches: vec![7],
        connections: Vec::new(),
        active_session: owned.then(|| ActiveSessionSnapshot {
            client_id: 1,
            app_id: "app".into(),
            pid: Some(2),
            requested_mode: "managed".into(),
            session_id: "s".into(),
        }),
        error: Some("late".into()),
    }
}

fn service() -> ServiceSupervisor {
    let config = Config {
        server: ServerConfig {
            host: HostAddress::V4([127, 0, 0, 1]),
            port: 0,
            client_queue_capacity: 1,
        },
        simulator: SimulatorConfig { stdin: false },
        mappings: Vec::new(),
    };
    ServiceSupervisor::load("a.toml".into(), config, BrokerReply::Done).unwrap()
}

#[test]
fn remembered_text_is_trimmed() {
    assert_eq!(remembered_path(Some("/tmp/switches.toml\n")).as_deref(), Some("/tmp/switches.toml"));
    assert_eq!(remembered_path(Some("\u{3000} a b \r\n")).as_deref(), Some("a b"));
    assert_eq!(remembered_path(Some("a")).as_deref(), Some("a"));
}

#[test]
fn blank_text_remembers_nothing() {
    assert_eq!(remembered_path(None), None);
    assert_eq!(remembered_path(Some("")), None);
    assert_eq!(remembered_path(Some("  \n")), None);
}

#[test]
fn the_dashboard_shows_a_service() {
    let shown: ControlSnapshot<u8> = service_snapshot(Some(snapshot(true)), Some("old".into()));
    assert!(shown.configured);
    assert_eq!(shown.phase, ServicePhase::Running);
    assert_eq!(shown.config_path.as_deref(), Some("a.toml"));
    assert_eq!(shown.address.as_deref(), Some("127.0.0.1:1"));
    assert!(shown.capture_enabled);
    assert_eq!(shown.switches, vec![7]);
    assert!(shown.active_session.is_some());
    assert_eq!(shown.error.as_deref(), Some("late"));
}

#[test]
fn the_dashboard_shows_a_missing_service() {
    let shown: ControlSnapshot<u8> = service_snapshot(None, None);
    assert!(!shown.configured);
    assert_eq!(shown.phase, ServicePhase::Stopped);
    assert_eq!(shown.error, None);
    let shown: ControlSnapshot<u8> = service_snapshot(None, Some("bad".into()));
    assert_eq!(shown.phase, ServicePhase::Error);
    assert_eq!(shown.error.as_deref(), Some("bad"));
    assert_eq!(shown.config_path, None);
}

#[test]
fn requests_are_confirmed_while_a_session_is_owned() {
    assert_eq!(request_or_perform(&Some(snapshot(true)), "stop"), RequestStep::Confirm);
    assert_eq!(request_or_perform(&Some(snapshot(true)), "quit"), RequestStep::Confirm);
    assert_eq!(request_or_perform(&Some(snapshot(false)), "stop"), RequestStep::Stop);
    assert_eq!(request_or_perform(&Some(snapshot(false)), "quit"), RequestStep::StopAndExit);
    assert_eq!(request_or_perform(&None::<ServiceSnapshot<u8>>, "quit"), RequestStep::StopAndExit);
    assert_eq!(request_or_perform(&None::<ServiceSnapshot<u8>>, "open"), RequestStep::Ignore);
}

#[test]
fn the_menu_toggles_the_service() {
    assert_eq!(menu_choice("open", None), MenuStep::ShowMain);
    assert_eq!(menu_choice("toggle", Some(ServicePhase::Running)), MenuStep::RequestStop);
    assert_eq!(menu_choice("toggle", Some(ServicePhase::Error)), MenuStep::Start);
    assert_eq!(menu_choice("toggle", None), MenuStep::ShowMain);
    assert_eq!(menu_choice("quit", None), MenuStep::RequestQuit);
    assert_eq!(menu_choice("", None), MenuStep::Ignore);
}

#[test]
fn a_start_needs_a_service() {
    let mut none = None;
    assert_eq!(start_service(&mut none), Err("choose a configuration first".into()));
    assert_eq!(stop_service(&mut none), StopStep::Stopped);
    let mut some = Some(service());
    assert_eq!(start_service(&mut some), Ok(StartStep::Bind));
    assert_eq!(some.as_ref().unwrap().phase(), ServicePhase::Starting);
    assert_eq!(stop_service(&mut some), StopStep::Pause { close_server: false });
}

#[test]
fn a_refused_choice_changes_nothing() {
    let old = || Some("old".to_string());
    for outcome in [
        ChoiceOutcome::Validated(Err("bad".into())),
        ChoiceOutcome::Remembered(Err("bad".into())),
        ChoiceOutcome::Loaded(Err("bad".into())),
    ] {
        let (mut held, mut error) = (None, old());
        assert_eq!(
            choose_config(&mut held, &mut error, outcome),
            ChooseStep::Done(Err("bad".into()))
        );
        assert!(held.is_none());
        assert_eq!(error, old());
    }
}

#[test]
fn a_choice_restarts_a_loaded_service() {
    let (mut held, mut error) = (Some(service()), None);
    let validated = ChoiceOutcome::Validated(Ok(()));
    assert_eq!(choose_config(&mut held, &mut error, validated), ChooseStep::Remember);
    let remembered = ChoiceOutcome::Remembered(Ok(()));
    assert_eq!(choose_config(&mut held, &mut error, remembered), ChooseStep::Restart);
    assert!(held.is_some());
}

#[test]
fn a_chosen_service_is_held_even_where_it_does_not_start() {
    let (mut held, mut error) = (None, Some("old".to_string()));
    let remembered = ChoiceOutcome::Remembered(Ok(()));
    assert_eq!(choose_config(&mut held, &mut error, remembered), ChooseStep::LoadAndStart);
    let mut loaded = service();
    loaded.start();
    let start = loaded.bound(Err("in use".into()));
    let message = "could not bind loopback WebSocket server: in use";
    assert_eq!(
        choose_config(&mut held, &mut error, ChoiceOutcome::Loaded(Ok((loaded, start)))),
        ChooseStep::Done(Err(message.into()))
    );
    assert_eq!(held.unwrap().phase(), ServicePhase::Error);
    assert_eq!(error.as_deref(), Some("old"));
    let mut held = None;
    assert_eq!(
        choose_config(&mut held, &mut error, ChoiceOutcome::Loaded(Ok((service(), Ok(()))))),
        ChooseStep::Done(Ok(()))
    );
    assert!(held.is_some());
    assert_eq!(error, None);
}

#[test]
fn the_launch_holds_what_was_loaded() {
    let (held, error) = launched(Ok((service(), Ok(()))));
    assert!(held.is_some());
    assert_eq!(error, None);
    let (held, error) = launched(Ok((service(), Err("start".into()))));
    assert!(held.is_some());
    assert_eq!(error.as_deref(), Some("start"));
    let (held, error) = launched(Err("load".into()));
    assert!(held.is_none());
    assert_eq!(error.as_deref(), Some("load"));
}

#[test]
fn the_first_launch_uses_the_default_configuration() {
    assert!(matches!(
        startup_plan(Some("mine".into()), "default".into(), false, 8765),
        StartupPlan::Selected { path } if path == "mine"
    ));
    assert!(matches!(
        startup_plan(None, "default".into(), false, 8765),
        StartupPlan::Default { path, contents: Some(text) }
            if path == "default" && text == default_config(8765)
    ));
    assert!(matches!(
        startup_plan(None, "default".into(), true, 8765),
        StartupPlan::Default { contents: None, .. }
    ));
}

#[test]
fn the_default_maps_space_and_enter() {
    let mappings = default_mappings();
    let keys: Vec<(&str, &str, &str)> = mappings
        .iter()
        .map(|m| (m.id.as_str(), m.switch_id.as_str(), m.code.as_str()))
        .collect();
    assert_eq!(keys, vec![("space", "switch_1", "Space"), ("enter", "switch_1", "Enter")]);
    for platform in [Platform::Windows, Platform::MacOs] {
        assert_eq!(EmbeddedBroker::new(platform).configure(&mappings, 4000), Ok(()));
    }
    assert_eq!(
        default_config(8765),
        "[server]\nport = 8765\n\n[[mappings]]\nid = \"space\"\nswitch_id = \"switch_1\"\ninput = \"keyboard\"\n\
         code = \"Space\"\n\n[[mappings]]\nid = \"enter\"\nswitch_id = \"switch_1\"\n\
         input = \"keyboard\"\ncode = \"Enter\"\n"
    );
}

#[test]
fn the_utility_exits_unless_stopping_failed() {
    assert_eq!(quit_usahp(None), Ok(()));
    assert_eq!(quit_usahp(Some(Ok(()))), Ok(()));
    assert_eq!(quit_usahp(Some(Err("busy".into()))), Err("busy".into()));
}

#[test]
fn closing_or_minimizing_hides_the_window() {
    assert_eq!(window_step(WindowChange::CloseRequested), WindowStep::HideInstead);
    assert_eq!(window_step(WindowChange::Resized { minimized: true }), WindowStep::Hide);
    assert_eq!(window_step(WindowChange::Resized { minimized: false }), WindowStep::Ignore);
    assert_eq!(window_step(WindowChange::Other), WindowStep::Ignore);
    assert!(tray_click_shows_main(true, true));
    assert!(!tray_click_shows_main(true, false));
    assert!(!tray_click_shows_main(false, true));
}
