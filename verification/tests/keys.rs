use usahp_daemon::embedded::broker::Platform;
use usahp_daemon::embedded::keys::{key_of, normalize, KeyName};
use usahp_daemon::embedded::native::{
    loop_step, macos_held_keys, startup_outcome, tap_refused, tap_step, windows_edge, windows_held_keys,
    LoopStep, StartupReply, TapKind, TapStep,
};
use usahp_daemon::embedded::{macos, supported_key, windows};

const NAMED: [&str; 15] = [
    "Space", "Enter", "Backspace", "Tab", "Escape", "ArrowUp", "ArrowDown", "ArrowLeft",
    "ArrowRight", "Home", "End", "PageUp", "PageDown", "Insert", "Delete",
];

fn canonical() -> Vec<String> {
    let mut names: Vec<String> = NAMED.iter().map(|n| n.to_string()).collect();
    names.extend(('A'..='Z').chain('0'..='9').map(|c| c.to_string()));
    names.extend((1..=24).map(|n| format!("F{n}")));
    names
}

#[test]
fn canonical_names_normalize_to_themselves() {
    for name in canonical() {
        assert_eq!(normalize(&name), Some(name.clone()));
        assert_eq!(key_of(&name).unwrap().name(), name);
    }
}

#[test]
fn aliases_normalize() {
    for (alias, name) in [
        ("Return", "Enter"),
        ("Up", "ArrowUp"),
        ("UpArrow", "ArrowUp"),
        ("Down", "ArrowDown"),
        ("DownArrow", "ArrowDown"),
        ("Left", "ArrowLeft"),
        ("LeftArrow", "ArrowLeft"),
        ("Right", "ArrowRight"),
        ("RightArrow", "ArrowRight"),
    ] {
        assert_eq!(normalize(alias).as_deref(), Some(name));
    }
}

#[test]
fn other_names_do_not_normalize() {
    for name in ["", "a", "F0", "F01", "F+1", "F25", "F100", "F256", "FF", "space", "é", " A", "Shift"] {
        assert_eq!(normalize(name), None, "{name}");
    }
    assert_eq!(key_of("F"), Some(KeyName::Symbol('F')));
    assert_eq!(key_of("F12"), Some(KeyName::Function(12)));
}

#[test]
fn windows_codes() {
    for (name, code) in [
        ("Space", 0x20),
        ("Enter", 0x0d),
        ("Backspace", 8),
        ("Tab", 9),
        ("Escape", 27),
        ("ArrowUp", 38),
        ("ArrowDown", 40),
        ("ArrowLeft", 37),
        ("ArrowRight", 39),
        ("Home", 36),
        ("End", 35),
        ("PageUp", 33),
        ("PageDown", 34),
        ("Insert", 45),
        ("Delete", 46),
        ("A", 65),
        ("Z", 90),
        ("0", 48),
        ("9", 57),
        ("F1", 0x70),
        ("F24", 0x87),
        ("F007", 0x76),
        ("F+2", 0x71),
        ("F00000000000000000000000000001", 0x70),
    ] {
        assert_eq!(windows::code_for_name(name), Some(code), "{name}");
    }
    for name in ["", "F0", "F25", "F4294967297", "F+", "F-1", "F 1", "a", "Return", "G1"] {
        assert_eq!(windows::code_for_name(name), None, "{name}");
    }
}

#[test]
fn windows_names_and_codes_are_inverse() {
    for name in canonical() {
        let code = windows::code_for_name(&name).unwrap();
        assert_eq!(windows::name_for_code(code), Some(name));
    }
    let named = (0..=255).filter(|code| windows::name_for_code(*code).is_some()).count();
    assert_eq!(named, canonical().len());
    assert_eq!(windows::name_for_code(0x5b), None);
    assert_eq!(windows::name_for_code(0x88), None);
}

#[test]
fn windows_hook_edges() {
    assert_eq!(windows::hook_edge(0, 0x100), Some(true));
    assert_eq!(windows::hook_edge(0, 0x104), Some(true));
    assert_eq!(windows::hook_edge(0, 0x101), Some(false));
    assert_eq!(windows::hook_edge(1, 0x105), Some(false));
    assert_eq!(windows::hook_edge(0, 0x102), None);
    assert_eq!(windows::hook_edge(-1, 0x100), None);
}

#[test]
fn macos_codes() {
    for (name, code) in [
        ("Space", 49),
        ("Enter", 36),
        ("Delete", 117),
        ("ArrowUp", 126),
        ("A", 0),
        ("Z", 6),
        ("0", 29),
        ("9", 25),
        ("F1", 122),
        ("F20", 90),
    ] {
        assert_eq!(macos::code_for_name(name), Some(code), "{name}");
    }
    for name in ["F21", "F24", "F01", "Return", ""] {
        assert_eq!(macos::code_for_name(name), None, "{name}");
    }
}

#[test]
fn macos_names_and_codes_are_inverse() {
    let mut supported = 0;
    for name in canonical() {
        if let Some(code) = macos::code_for_name(&name) {
            assert_eq!(macos::name_for_code(code), Some(name));
            supported += 1;
        }
    }
    assert_eq!(supported, canonical().len() - 4);
    assert_eq!((0..=255).filter(|code| macos::name_for_code(*code).is_some()).count(), supported);
}

#[test]
fn platforms_support_their_keys() {
    assert!(supported_key(Platform::Windows, "F24"));
    assert!(!supported_key(Platform::Windows, "F25"));
    assert!(supported_key(Platform::MacOs, "F20"));
    assert!(!supported_key(Platform::MacOs, "F21"));
    assert!(!supported_key(Platform::Other, "Space"));
}

#[test]
fn held_keys_are_named() {
    let held = windows_held_keys(&[0x20, 0xff, 65]);
    assert!(held.contains("Space"));
    assert!(held.contains("A"));
    assert!(!held.contains("B"));
    let held = macos_held_keys(&[49, 200, 0]);
    assert!(held.contains("Space"));
    assert!(held.contains("A"));
    assert!(!held.contains("Enter"));
    assert!(windows_held_keys(&[]).is_empty());
    assert!(macos_held_keys(&[200]).is_empty());
}

#[test]
fn failed_starts_are_reported() {
    assert_eq!(startup_outcome(Platform::Windows, StartupReply::Ready), Ok(()));
    assert_eq!(
        startup_outcome(Platform::Windows, StartupReply::Failed("denied".into())),
        Err("Windows switch capture could not start: denied".into())
    );
    assert_eq!(
        startup_outcome(Platform::Windows, StartupReply::Silent),
        Err("Windows switch capture did not acknowledge startup.".into())
    );
    assert_eq!(startup_outcome(Platform::MacOs, StartupReply::Ready), Ok(()));
    assert_eq!(
        startup_outcome(Platform::MacOs, StartupReply::Failed("denied".into())),
        Err("denied".into())
    );
    assert_eq!(
        startup_outcome(Platform::MacOs, tap_refused()),
        Err(
            "Grant Accessibility permission to the host application before enabling switches."
                .into()
        )
    );
    assert_eq!(
        startup_outcome(Platform::MacOs, StartupReply::Silent),
        Err("macOS switch capture did not acknowledge startup.".into())
    );
    assert_eq!(
        startup_outcome(Platform::Other, StartupReply::Ready),
        Err("Embedded keyboard capture is supported on Windows and macOS.".into())
    );
}

#[test]
fn the_windows_hook_reports_named_edges() {
    assert_eq!(windows_edge(0, 0x100, 0x20), Some(("Space".into(), true)));
    assert_eq!(windows_edge(0, 0x105, 0x70), Some(("F1".into(), false)));
    assert_eq!(windows_edge(0, 0x100, 0xff), None);
    assert_eq!(windows_edge(-1, 0x100, 0x20), None);
}

#[test]
fn the_windows_loop_ends_with_capture() {
    assert_eq!(loop_step(1, false, true), LoopStep::Tick);
    assert_eq!(loop_step(1, true, false), LoopStep::Dispatch);
    assert_eq!(loop_step(0, true, false), LoopStep::Finish);
    assert_eq!(loop_step(-1, false, true), LoopStep::Lost);
}

#[test]
fn the_macos_tap_reports_named_edges() {
    assert!(matches!(
        tap_step(TapKind::KeyDown, 49),
        TapStep::Edge { name, pressed: true } if name == "Space"
    ));
    assert!(matches!(
        tap_step(TapKind::KeyUp, 0),
        TapStep::Edge { name, pressed: false } if name == "A"
    ));
    assert!(matches!(tap_step(TapKind::KeyUp, 200), TapStep::Keep));
    assert!(matches!(tap_step(TapKind::Other, 49), TapStep::Lost));
}
