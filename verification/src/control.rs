//! The desktop utility: what it shows, remembers and does on request.

use vstd::prelude::*;
use crate::embedded::broker::{first_fault, key_map, mapping_fault, mapping_views, Platform};
use crate::embedded::capture::CoreState;
use crate::embedded::keys::{canonical_names_are_stable, KeyName};
use crate::embedded::mapping::{InputKind, Mapping, MappingView};
use crate::embedded::{macos, windows, MINIMUM_ESCAPE_MS};
use crate::management::{ActiveSessionSnapshot, ConnectionSnapshot};
use crate::service::{ServicePhase, ServiceSnapshot, ServiceSupervisor, StartStep, StopStep};
use crate::text::{
    decimal, decimal_text, is_white_space, same_text, trimmed, trimmed_blank_is_empty,
    trimmed_drops_surrounding, trimmed_is_empty_where_blank, trimmed_is_the_tight_middle,
    trimmed_keeps_tight_text,
};

verus! {

/// What the dashboard shows, where `S` is the report of one logical switch.
#[derive(Debug)]
pub struct ControlSnapshot<S> {
    pub configured: bool,
    pub phase: ServicePhase,
    pub config_path: Option<String>,
    pub address: Option<String>,
    pub capture_enabled: bool,
    pub switches: Vec<S>,
    pub connections: Vec<ConnectionSnapshot>,
    pub active_session: Option<ActiveSessionSnapshot>,
    pub error: Option<String>,
}

impl<S> ControlSnapshot<S> {
    /// What is shown without a service: a failure to start one, if there was one.
    pub fn unconfigured(error: Option<String>) -> (r: Self)
        ensures
            !r.configured,
            r.phase == if error is Some {
                ServicePhase::Error
            } else {
                ServicePhase::Stopped
            },
            r.config_path is None,
            r.address is None,
            !r.capture_enabled,
            r.switches@.len() == 0,
            r.connections@.len() == 0,
            r.active_session is None,
            r.error == error,
    {
        ControlSnapshot {
            configured: false,
            phase: if error.is_some() {
                ServicePhase::Error
            } else {
                ServicePhase::Stopped
            },
            config_path: None,
            address: None,
            capture_enabled: false,
            switches: Vec::new(),
            connections: Vec::new(),
            active_session: None,
            error,
        }
    }
}

/// What is shown of a service.
pub open spec fn shown<S>(snapshot: ServiceSnapshot<S>) -> ControlSnapshot<S> {
    ControlSnapshot {
        configured: true,
        phase: snapshot.phase,
        config_path: Some(snapshot.config_path),
        address: Some(snapshot.address),
        capture_enabled: snapshot.capture_enabled,
        switches: snapshot.switches,
        connections: snapshot.connections,
        active_session: snapshot.active_session,
        error: snapshot.error,
    }
}

impl<S> From<ServiceSnapshot<S>> for ControlSnapshot<S> {
    fn from(snapshot: ServiceSnapshot<S>) -> (r: Self) {
        ControlSnapshot {
            configured: true,
            phase: snapshot.phase,
            config_path: Some(snapshot.config_path),
            address: Some(snapshot.address),
            capture_enabled: snapshot.capture_enabled,
            switches: snapshot.switches,
            connections: snapshot.connections,
            active_session: snapshot.active_session,
            error: snapshot.error,
        }
    }
}

impl<S> vstd::std_specs::convert::FromSpecImpl<ServiceSnapshot<S>> for ControlSnapshot<S> {
    open spec fn obeys_from_spec() -> bool {
        true
    }

    open spec fn from_spec(snapshot: ServiceSnapshot<S>) -> Self {
        shown(snapshot)
    }
}

/// The dashboard shows a service as it is: that it is configured, and its phase, whichever it is,
/// its path, address, capture state, switches, connections, session and failure, each unchanged.
pub proof fn the_dashboard_shows_the_service_as_it_is<S>(snapshot: ServiceSnapshot<S>)
    ensures
        shown(snapshot).configured,
        shown(snapshot).phase == snapshot.phase,
        shown(snapshot).config_path == Some(snapshot.config_path),
        shown(snapshot).address == Some(snapshot.address),
        shown(snapshot).capture_enabled == snapshot.capture_enabled,
        shown(snapshot).switches == snapshot.switches,
        shown(snapshot).connections == snapshot.connections,
        shown(snapshot).active_session == snapshot.active_session,
        shown(snapshot).error == snapshot.error,
{
}

/// Services that differ in anything are shown differently.
pub proof fn the_dashboard_tells_services_apart<S>(a: ServiceSnapshot<S>, b: ServiceSnapshot<S>)
    requires
        shown(a) == shown(b),
    ensures
        a == b,
{
    the_dashboard_shows_the_service_as_it_is(a);
    the_dashboard_shows_the_service_as_it_is(b);
}

/// What the dashboard shows: the service, or without one the failure to start it.
pub fn service_snapshot<S>(
    service: Option<ServiceSnapshot<S>>,
    startup_error: Option<String>,
) -> (r: ControlSnapshot<S>)
    ensures
        match service {
            Some(snapshot) => {
                &&& r == shown(snapshot)
                &&& r.configured
                &&& r.phase == snapshot.phase
                &&& r.config_path == Some(snapshot.config_path)
                &&& r.address == Some(snapshot.address)
                &&& r.capture_enabled == snapshot.capture_enabled
                &&& r.switches == snapshot.switches
                &&& r.connections == snapshot.connections
                &&& r.active_session == snapshot.active_session
                &&& r.error == snapshot.error
            },
            None => {
                &&& !r.configured
                &&& r.phase == if startup_error is Some {
                    ServicePhase::Error
                } else {
                    ServicePhase::Stopped
                }
                &&& r.config_path is None
                &&& r.address is None
                &&& !r.capture_enabled
                &&& r.switches@.len() == 0
                &&& r.connections@.len() == 0
                &&& r.active_session is None
                &&& r.error == startup_error
            },
        },
{
    match service {
        Some(snapshot) => ControlSnapshot::from(snapshot),
        None => ControlSnapshot::unconfigured(startup_error),
    }
}

/// The path that a path file holds: its text without surrounding white space, unless nothing is
/// left of it.
pub open spec fn remembered(contents: Option<Seq<char>>) -> Option<Seq<char>> {
    match contents {
        Some(text) => if trimmed(text).len() == 0 {
            None
        } else {
            Some(trimmed(text))
        },
        None => None,
    }
}

/// The path that a path file holds, where `contents` is its text, or `None` where there is no
/// such file.
pub fn remembered_path(contents: Option<&str>) -> (r: Option<String>)
    ensures
        ({
            let text = match contents {
                Some(text) => Some(text@),
                None => None,
            };
            match r {
                Some(path) => remembered(text) == Some(path@),
                None => remembered(text) is None,
            }
        }),
{
    match contents {
        Some(text) => {
            let path = text.trim();
            if path.is_empty() {
                None
            } else {
                Some(path.to_owned())
            }
        },
        None => None,
    }
}

/// A path that is written to the path file is read back from it, whatever white space was added
/// around it, provided that it does not itself start or end in white space.
pub proof fn remembered_path_round_trips(before: Seq<char>, path: Seq<char>, after: Seq<char>)
    requires
        path.len() > 0 && !is_white_space(path[0]) && !is_white_space(path.last()),
        forall|i: int| 0 <= i < before.len() ==> is_white_space(#[trigger] before[i]),
        forall|i: int| 0 <= i < after.len() ==> is_white_space(#[trigger] after[i]),
    ensures
        remembered(Some(before + path + after)) == Some(path),
{
    trimmed_drops_surrounding(before, path, after);
}

/// A missing path file and one that holds white space alone remember no path.
pub proof fn blank_path_file_remembers_nothing(text: Seq<char>)
    requires
        forall|i: int| 0 <= i < text.len() ==> is_white_space(#[trigger] text[i]),
    ensures
        remembered(Some(text)) is None,
        remembered(None) is None,
{
    trimmed_blank_is_empty(text);
}

/// A keyboard mapping of the utility's own configuration.
pub open spec fn default_mapping(id: Seq<char>, code: Seq<char>) -> MappingView {
    MappingView {
        id,
        switch_id: "switch_1"@,
        input: InputKind::Keyboard,
        code,
        bound: false,
    }
}

/// The mappings of the utility's own configuration: Space and Enter drive `switch_1`.
pub open spec fn default_mapping_views() -> Seq<MappingView> {
    seq![default_mapping("space"@, "Space"@), default_mapping("enter"@, "Enter"@)]
}

/// The mappings of the utility's own configuration: Space and Enter drive `switch_1`.
pub fn default_mappings() -> (r: Vec<Mapping>)
    ensures
        mapping_views(r@) == default_mapping_views(),
        forall|i: int| 0 <= i < r@.len() ==> (#[trigger] r@[i]).device is None,
{
    let space = Mapping {
        id: "space".to_owned(),
        switch_id: "switch_1".to_owned(),
        input: InputKind::Keyboard,
        code: "Space".to_owned(),
        device: None,
    };
    let enter = Mapping {
        id: "enter".to_owned(),
        switch_id: "switch_1".to_owned(),
        input: InputKind::Keyboard,
        code: "Enter".to_owned(),
        device: None,
    };
    let mut r: Vec<Mapping> = Vec::new();
    r.push(space);
    r.push(enter);
    assert(mapping_views(r@) =~= default_mapping_views());
    r
}

/// Capture accepts the utility's own mappings wherever it accepts any: while it is off, with an
/// escape hold that is long enough, on Windows and on macOS. The keys then mapped are Space and
/// Enter and no others.
pub proof fn default_mappings_are_accepted(s: CoreState, platform: Platform, escape_ms: u64)
    requires
        s.status.mode is Off,
        escape_ms >= MINIMUM_ESCAPE_MS,
        !(platform is Other),
    ensures
        s.configure_fault(platform, default_mapping_views(), escape_ms) is None,
        s.configured(platform, default_mapping_views(), escape_ms).mappings == map![
            "Space"@ => "space"@,
            "Enter"@ => "enter"@,
        ],
{
    let views = default_mapping_views();
    reveal_strlit("switch_1");
    reveal_strlit("space");
    reveal_strlit("enter");
    trimmed_keeps_tight_text("switch_1"@);
    canonical_names_are_stable(KeyName::Space);
    canonical_names_are_stable(KeyName::Enter);
    windows::canonical_names_have_codes(KeyName::Space);
    windows::canonical_names_have_codes(KeyName::Enter);
    macos::canonical_names_have_codes(KeyName::Space);
    macos::canonical_names_have_codes(KeyName::Enter);
    assert("Space"@ != "Escape"@ && "Enter"@ != "Escape"@ && "Space"@ != "Enter"@) by {
        reveal_strlit("Space");
        reveal_strlit("Enter");
        reveal_strlit("Escape");
        assert("Space"@[0] != "Escape"@[0]);
        assert("Enter"@[1] != "Escape"@[1]);
        assert("Space"@[0] != "Enter"@[0]);
    }
    assert("space"@[0] != "enter"@[0]);
    reveal_with_fuel(first_fault, 3);
    reveal_with_fuel(key_map, 3);
    assert(mapping_fault(platform, views, 0) is None);
    assert(mapping_fault(platform, views, 1) is None);
    assert(key_map(views, 2) =~= map!["Space"@ => "space"@, "Enter"@ => "enter"@]);
}

/// A keyboard mapping as a configuration file writes it, where its strings hold nothing that a
/// file has to quote.
pub open spec fn mapping_text(m: MappingView) -> Seq<char> {
    "[[mappings]]\nid = \""@ + m.id + "\"\nswitch_id = \""@ + m.switch_id
        + "\"\ninput = \"keyboard\"\ncode = \""@ + m.code + "\"\n"@
}

/// The file of the utility's own configuration: the port that it listens on, and its mappings.
pub open spec fn default_config_text(port: u16) -> Seq<char> {
    "[server]\nport = "@ + decimal(port as nat) + "\n\n"@ + mapping_text(
        default_mapping_views()[0],
    ) + "\n"@ + mapping_text(default_mapping_views()[1])
}

/// The utility's own file names the port that it was given, in decimal, and then the two mappings,
/// Space first: each with its identifier, the one switch that both drive, the keyboard and its
/// key.
pub proof fn the_default_file_holds_port_and_mappings(port: u16)
    ensures
        default_mapping_views().len() == 2,
        forall|i: int|
            0 <= i < 2 ==> {
                &&& (#[trigger] default_mapping_views()[i]).switch_id == "switch_1"@
                &&& default_mapping_views()[i].input is Keyboard
                &&& !default_mapping_views()[i].bound
            },
        default_mapping_views()[0].id == "space"@ && default_mapping_views()[0].code == "Space"@,
        default_mapping_views()[1].id == "enter"@ && default_mapping_views()[1].code == "Enter"@,
        default_config_text(port) == "[server]\nport = "@ + decimal(port as nat) + "\n\n"@
            + "[[mappings]]\nid = \""@ + "space"@ + "\"\nswitch_id = \""@ + "switch_1"@
            + "\"\ninput = \"keyboard\"\ncode = \""@ + "Space"@ + "\"\n"@ + "\n"@
            + "[[mappings]]\nid = \""@ + "enter"@ + "\"\nswitch_id = \""@ + "switch_1"@
            + "\"\ninput = \"keyboard\"\ncode = \""@ + "Enter"@ + "\"\n"@,
{
    assert(default_config_text(port) =~= "[server]\nport = "@ + decimal(port as nat) + "\n\n"@
        + "[[mappings]]\nid = \""@ + "space"@ + "\"\nswitch_id = \""@ + "switch_1"@
        + "\"\ninput = \"keyboard\"\ncode = \""@ + "Space"@ + "\"\n"@ + "\n"@
        + "[[mappings]]\nid = \""@ + "enter"@ + "\"\nswitch_id = \""@ + "switch_1"@
        + "\"\ninput = \"keyboard\"\ncode = \""@ + "Enter"@ + "\"\n"@);
}

/// Writes a keyboard mapping as a configuration file does.
fn append_mapping(text: &mut String, m: &Mapping)
    ensures
        final(text)@ == old(text)@ + mapping_text(m@),
{
    text.append("[[mappings]]\nid = \"");
    text.append(m.id.as_str());
    text.append("\"\nswitch_id = \"");
    text.append(m.switch_id.as_str());
    text.append("\"\ninput = \"keyboard\"\ncode = \"");
    text.append(m.code.as_str());
    text.append("\"\n");
    assert(text@ =~= old(text)@ + mapping_text(m@));
}

/// The file of the utility's own configuration, where `port` is the one that it listens on.
pub fn default_config(port: u16) -> (r: String)
    ensures
        r@ == default_config_text(port),
{
    let mappings = default_mappings();
    assert(mappings@.len() == 2) by {
        assert(mapping_views(mappings@).len() == 2);
    }
    assert(mappings@[0]@ == mapping_views(mappings@)[0]);
    assert(mappings@[1]@ == mapping_views(mappings@)[1]);
    let mut r = "[server]\nport = ".to_owned();
    r.append(decimal_text(port as u32).as_str());
    r.append("\n\n");
    append_mapping(&mut r, &mappings[0]);
    r.append("\n");
    append_mapping(&mut r, &mappings[1]);
    assert(r@ =~= default_config_text(port));
    r
}

/// What a path file remembers is a part of its text, unchanged, from which nothing but surrounding
/// white space is missing; it is never empty and never starts or ends in white space.
pub proof fn remembered_paths_are_taken_from_the_file(text: Seq<char>)
    ensures
        remembered(Some(text)) is None <==> forall|i: int|
            0 <= i < text.len() ==> is_white_space(#[trigger] text[i]),
        remembered(Some(text)) matches Some(path) ==> {
            &&& path.len() > 0
            &&& !is_white_space(path[0])
            &&& !is_white_space(path.last())
            &&& exists|a: int, b: int|
                {
                    &&& 0 <= a <= b <= text.len()
                    &&& path == #[trigger] text.subrange(a, b)
                    &&& forall|i: int| 0 <= i < a ==> is_white_space(#[trigger] text[i])
                    &&& forall|i: int| b <= i < text.len() ==> is_white_space(#[trigger] text[i])
                }
        },
{
    trimmed_is_empty_where_blank(text);
    trimmed_is_the_tight_middle(text);
}

/// Which configuration the utility starts with.
#[derive(Debug)]
pub enum StartupPlan {
    /// The one that was selected. Its file is never replaced.
    Selected { path: String },
    /// The utility's own, which is remembered as the selected one; its file is first created with
    /// these contents, or where there are none left as it is.
    Default { path: String, contents: Option<String> },
}

/// Which configuration the utility starts with: the selected one, or on first launch its own,
/// whose file is created unless it exists. `default_port` is the port that its own configuration
/// listens on.
pub fn startup_plan(
    selected: Option<String>,
    default_path: String,
    default_exists: bool,
    default_port: u16,
) -> (r: StartupPlan)
    ensures
        match selected {
            Some(path) => r == (StartupPlan::Selected { path }),
            None => {
                &&& r matches StartupPlan::Default { path, contents }
                &&& path == default_path
                &&& match contents {
                    Some(text) => !default_exists && text@ == default_config_text(default_port),
                    None => default_exists,
                }
            },
        },
{
    match selected {
        Some(path) => StartupPlan::Selected { path },
        None => {
            let contents = if default_exists {
                None
            } else {
                Some(default_config(default_port))
            };
            StartupPlan::Default { path: default_path, contents }
        },
    }
}

/// What the launch leaves behind: the service that is held, and the failure that the dashboard
/// shows without one. Where the service could not be loaded there is none; where it was loaded and
/// did not start, it is held all the same.
pub fn launched(outcome: Result<(ServiceSupervisor, Result<(), String>), String>) -> (r: (
    Option<ServiceSupervisor>,
    Option<String>,
))
    ensures
        r == match outcome {
            Ok((service, Ok(_))) => (Some(service), None::<String>),
            Ok((service, Err(message))) => (Some(service), Some(message)),
            Err(message) => (None::<ServiceSupervisor>, Some(message)),
        },
{
    match outcome {
        Ok((service, start)) => match start {
            Ok(()) => (Some(service), None),
            Err(message) => (Some(service), Some(message)),
        },
        Err(message) => (None, Some(message)),
    }
}

/// How a step of choosing a configuration came out.
#[derive(Debug)]
pub enum ChoiceOutcome {
    /// The chosen file was validated.
    Validated(Result<(), String>),
    /// Its path was written to the path file.
    Remembered(Result<(), String>),
    /// The service was loaded and, where that succeeded, started.
    Loaded(Result<(ServiceSupervisor, Result<(), String>), String>),
}

/// What happens next when a configuration is chosen.
#[derive(Debug, PartialEq, Eq)]
pub enum ChooseStep {
    /// The path is written to the path file.
    Remember,
    /// The utility restarts, so that hooks and device grabs are rebuilt with the new mappings.
    Restart,
    /// The service is loaded, then started.
    LoadAndStart,
    /// Nothing; this is the answer.
    Done(Result<(), String>),
}

/// A step of choosing a configuration: what happens next, the service that is then held and the
/// failure that is then shown without one.
pub open spec fn choice(
    held: Option<ServiceSupervisor>,
    shown_error: Option<String>,
    outcome: ChoiceOutcome,
) -> (ChooseStep, Option<ServiceSupervisor>, Option<String>) {
    match outcome {
        ChoiceOutcome::Validated(Ok(_)) => (ChooseStep::Remember, held, shown_error),
        ChoiceOutcome::Validated(Err(message)) => (
            ChooseStep::Done(Err(message)),
            held,
            shown_error,
        ),
        ChoiceOutcome::Remembered(Err(message)) => (
            ChooseStep::Done(Err(message)),
            held,
            shown_error,
        ),
        ChoiceOutcome::Remembered(Ok(_)) => if held is Some {
            (ChooseStep::Restart, held, shown_error)
        } else {
            (ChooseStep::LoadAndStart, held, shown_error)
        },
        ChoiceOutcome::Loaded(loaded) => if held is Some {
            (ChooseStep::Restart, held, shown_error)
        } else {
            match loaded {
                Ok((service, start)) => (
                    ChooseStep::Done(start),
                    Some(service),
                    if start is Ok {
                        None
                    } else {
                        shown_error
                    },
                ),
                Err(message) => (ChooseStep::Done(Err(message)), held, shown_error),
            }
        },
    }
}

/// Takes how a step of choosing a configuration came out. A choice begins with validating the
/// file; a service that is held is never replaced, since the utility restarts instead.
pub fn choose_config(
    service: &mut Option<ServiceSupervisor>,
    startup_error: &mut Option<String>,
    outcome: ChoiceOutcome,
) -> (step: ChooseStep)
    ensures
        (step, *final(service), *final(startup_error)) == choice(
            *old(service),
            *old(startup_error),
            outcome,
        ),
{
    match outcome {
        ChoiceOutcome::Validated(Ok(())) => ChooseStep::Remember,
        ChoiceOutcome::Validated(Err(message)) => ChooseStep::Done(Err(message)),
        ChoiceOutcome::Remembered(Err(message)) => ChooseStep::Done(Err(message)),
        ChoiceOutcome::Remembered(Ok(())) => if service.is_some() {
            ChooseStep::Restart
        } else {
            ChooseStep::LoadAndStart
        },
        ChoiceOutcome::Loaded(loaded) => {
            if service.is_some() {
                return ChooseStep::Restart;
            }
            match loaded {
                Ok((new, start)) => {
                    *service = Some(new);
                    if start.is_ok() {
                        *startup_error = None;
                    }
                    ChooseStep::Done(start)
                },
                Err(message) => ChooseStep::Done(Err(message)),
            }
        },
    }
}

/// Each step of a choice on its own: a file that is valid is remembered, and one that is remembered
/// restarts the utility where a service is held and is loaded where none is. A failure at any step
/// is the answer and changes nothing. A service that is held is never replaced.
pub proof fn steps_of_a_choice(
    held: Option<ServiceSupervisor>,
    shown_error: Option<String>,
    message: String,
    service: ServiceSupervisor,
    start: Result<(), String>,
)
    ensures
        choice(held, shown_error, ChoiceOutcome::Validated(Ok(()))) == (
            ChooseStep::Remember,
            held,
            shown_error,
        ),
        choice(held, shown_error, ChoiceOutcome::Validated(Err(message))) == (
            ChooseStep::Done(Err(message)),
            held,
            shown_error,
        ),
        choice(held, shown_error, ChoiceOutcome::Remembered(Err(message))) == (
            ChooseStep::Done(Err(message)),
            held,
            shown_error,
        ),
        choice(held, shown_error, ChoiceOutcome::Remembered(Ok(()))).0 == if held is Some {
            ChooseStep::Restart
        } else {
            ChooseStep::LoadAndStart
        },
        choice(held, shown_error, ChoiceOutcome::Remembered(Ok(()))).1 == held,
        choice(held, shown_error, ChoiceOutcome::Remembered(Ok(()))).2 == shown_error,
        held is Some ==> choice(held, shown_error, ChoiceOutcome::Loaded(Ok((service, start)))) == (
            ChooseStep::Restart,
            held,
            shown_error,
        ),
        held is None ==> {
            let (step, after, error) = choice(
                held,
                shown_error,
                ChoiceOutcome::Loaded(Ok((service, start))),
            );
            &&& step == ChooseStep::Done(start)
            &&& after == Some(service)
            &&& start is Ok ==> error is None
            &&& start is Err ==> error == shown_error
        },
        held is None ==> choice(held, shown_error, ChoiceOutcome::Loaded(Err(message))) == (
            ChooseStep::Done(Err(message)),
            None::<ServiceSupervisor>,
            shown_error,
        ),
{
}

/// A whole choice: each step that [`choose_config`] asks for is taken, and comes out as given.
pub open spec fn whole_choice(
    held: Option<ServiceSupervisor>,
    shown_error: Option<String>,
    validated: Result<(), String>,
    remembered: Result<(), String>,
    loaded: Result<(ServiceSupervisor, Result<(), String>), String>,
) -> (ChooseStep, Option<ServiceSupervisor>, Option<String>) {
    let first = choice(held, shown_error, ChoiceOutcome::Validated(validated));
    if first.0 is Remember {
        let second = choice(first.1, first.2, ChoiceOutcome::Remembered(remembered));
        if second.0 is LoadAndStart {
            choice(second.1, second.2, ChoiceOutcome::Loaded(loaded))
        } else {
            second
        }
    } else {
        first
    }
}

/// A choice that is refused, not remembered or not loaded is answered with its failure and changes
/// nothing. One that is remembered while a service is held restarts the utility. Otherwise the
/// loaded service is held even where it does not start, which is then the answer; the failure that
/// was shown goes away only where it starts.
pub proof fn choices_as_a_whole(
    held: Option<ServiceSupervisor>,
    shown_error: Option<String>,
    validated: Result<(), String>,
    remembered: Result<(), String>,
    loaded: Result<(ServiceSupervisor, Result<(), String>), String>,
)
    ensures
        ({
            let end = whole_choice(held, shown_error, validated, remembered, loaded);
            match (validated, remembered, held, loaded) {
                (Err(message), _, _, _) => end == (
                    ChooseStep::Done(Err(message)),
                    held,
                    shown_error,
                ),
                (Ok(_), Err(message), _, _) => end == (
                    ChooseStep::Done(Err(message)),
                    held,
                    shown_error,
                ),
                (Ok(_), Ok(_), Some(_), _) => end == (ChooseStep::Restart, held, shown_error),
                (Ok(_), Ok(_), None, Err(message)) => end == (
                    ChooseStep::Done(Err(message)),
                    held,
                    shown_error,
                ),
                (Ok(_), Ok(_), None, Ok((service, start))) => end == (
                    ChooseStep::Done(start),
                    Some(service),
                    if start is Ok {
                        None
                    } else {
                        shown_error
                    },
                ),
            }
        }),
{
}

/// Takes a request to start the service, which needs one.
pub fn start_service(service: &mut Option<ServiceSupervisor>) -> (r: Result<StartStep, String>)
    ensures
        match *old(service) {
            Some(before) => {
                &&& *final(service) matches Some(after)
                &&& r matches Ok(step)
                &&& (after@, step) == before@.starting()
                &&& after.path() == before.path()
                &&& after.settings() == before.settings()
            },
            None => {
                &&& *final(service) is None
                &&& r matches Err(message)
                &&& message@ == "choose a configuration first"@
            },
        },
{
    match service {
        Some(service) => Ok(service.start()),
        None => Err("choose a configuration first".to_owned()),
    }
}

/// Takes a request to stop the service; without one there is nothing to stop.
pub fn stop_service(service: &mut Option<ServiceSupervisor>) -> (step: StopStep)
    ensures
        match *old(service) {
            Some(before) => {
                &&& *final(service) matches Some(after)
                &&& (after@, step) == before@.stopping()
                &&& after.path() == before.path()
                &&& after.settings() == before.settings()
            },
            None => *final(service) is None && step is Stopped,
        },
{
    match service {
        Some(service) => service.stop(),
        None => StopStep::Stopped,
    }
}

/// Whether a request to quit is carried out, where `stopped` says how stopping the service came
/// out, if there was one: the utility exits unless that failed, which is then the answer.
pub fn quit_usahp(stopped: Option<Result<(), String>>) -> (r: Result<(), String>)
    ensures
        r == match stopped {
            Some(Err(message)) => Err::<(), String>(message),
            _ => Ok::<(), String>(()),
        },
{
    match stopped {
        Some(Err(message)) => Err(message),
        _ => Ok(()),
    }
}

/// What is done about a request from the tray.
#[derive(Debug, Clone, Copy, PartialEq, Eq, Structural)]
pub enum RequestStep {
    /// The window is shown, and the user confirms first.
    Confirm,
    /// The service is stopped.
    Stop,
    /// The service is stopped, then the utility exits.
    StopAndExit,
    /// Nothing.
    Ignore,
}

/// Whether a managed application owns the session.
pub open spec fn session_owned<S>(service: Option<ServiceSnapshot<S>>) -> bool {
    service matches Some(snapshot) && snapshot.active_session is Some
}

/// A session is owned exactly where there is a service with an active session.
pub proof fn sessions_are_owned_by_active_clients<S>(snapshot: ServiceSnapshot<S>)
    ensures
        session_owned(Some(snapshot)) <==> snapshot.active_session is Some,
        !session_owned(None::<ServiceSnapshot<S>>),
{
}

/// What is done about a request to stop or quit: where a managed application owns the session,
/// the user confirms first.
pub fn request_or_perform<S>(service: &Option<ServiceSnapshot<S>>, action: &str) -> (r: RequestStep)
    ensures
        r == if session_owned(*service) {
            RequestStep::Confirm
        } else if action@ == "stop"@ {
            RequestStep::Stop
        } else if action@ == "quit"@ {
            RequestStep::StopAndExit
        } else {
            RequestStep::Ignore
        },
{
    let owned = match service {
        Some(snapshot) => snapshot.active_session.is_some(),
        None => false,
    };
    if owned {
        RequestStep::Confirm
    } else if same_text(action, "stop") {
        RequestStep::Stop
    } else if same_text(action, "quit") {
        RequestStep::StopAndExit
    } else {
        RequestStep::Ignore
    }
}

/// What a choice in the tray menu does.
#[derive(Debug, Clone, Copy, PartialEq, Eq, Structural)]
pub enum MenuStep {
    /// The window is shown.
    ShowMain,
    /// The service is asked to stop, as [`request_or_perform`] says.
    RequestStop,
    /// The service is started.
    Start,
    /// The utility is asked to quit, as [`request_or_perform`] says.
    RequestQuit,
    /// Nothing.
    Ignore,
}

/// What a choice in the tray menu does, where `phase` is that of the service, if there is one.
pub fn menu_choice(id: &str, phase: Option<ServicePhase>) -> (r: MenuStep)
    ensures
        r == if id@ == "open"@ {
            MenuStep::ShowMain
        } else if id@ == "toggle"@ {
            match phase {
                Some(ServicePhase::Running) => MenuStep::RequestStop,
                Some(_) => MenuStep::Start,
                None => MenuStep::ShowMain,
            }
        } else if id@ == "quit"@ {
            MenuStep::RequestQuit
        } else {
            MenuStep::Ignore
        },
{
    if same_text(id, "open") {
        MenuStep::ShowMain
    } else if same_text(id, "toggle") {
        match phase {
            Some(ServicePhase::Running) => MenuStep::RequestStop,
            Some(_) => MenuStep::Start,
            None => MenuStep::ShowMain,
        }
    } else if same_text(id, "quit") {
        MenuStep::RequestQuit
    } else {
        MenuStep::Ignore
    }
}

/// What happens to the window.
#[derive(Debug, Clone, Copy, PartialEq, Eq, Structural)]
pub enum WindowChange {
    CloseRequested,
    Resized { minimized: bool },
    Other,
}

/// What is done about the window.
#[derive(Debug, Clone, Copy, PartialEq, Eq, Structural)]
pub enum WindowStep {
    /// It is not closed but hidden.
    HideInstead,
    /// It is hidden.
    Hide,
    /// Nothing.
    Ignore,
}

/// What is done about the window: closing or minimizing it hides it, and the utility stays in the
/// tray.
pub fn window_step(change: WindowChange) -> (r: WindowStep)
    ensures
        r == match change {
            WindowChange::CloseRequested => WindowStep::HideInstead,
            WindowChange::Resized { minimized: true } => WindowStep::Hide,
            _ => WindowStep::Ignore,
        },
{
    match change {
        WindowChange::CloseRequested => WindowStep::HideInstead,
        WindowChange::Resized { minimized } => if minimized {
            WindowStep::Hide
        } else {
            WindowStep::Ignore
        },
        WindowChange::Other => WindowStep::Ignore,
    }
}

/// Whether a click on the tray icon shows the window: the left button does, when it comes up.
pub fn tray_click_shows_main(left_button: bool, button_up: bool) -> (r: bool)
    ensures
        r == (left_button && button_up),
{
    left_button && button_up
}

/// The menu opens the window, stops a service that runs and starts one that does not, shows the
/// window where there is none to start, and quits; nothing else is in it.
pub proof fn of_the_menu(
    open: &str,
    toggle: &str,
    quit: &str,
    phase: Option<ServicePhase>,
    opened: MenuStep,
    toggled: MenuStep,
    left: MenuStep,
)
    requires
        open@ == "open"@ && toggle@ == "toggle"@ && quit@ == "quit"@,
        call_ensures(menu_choice, (open, phase), opened),
        call_ensures(menu_choice, (toggle, phase), toggled),
        call_ensures(menu_choice, (quit, phase), left),
    ensures
        opened is ShowMain,
        left is RequestQuit,
        phase is None ==> toggled is ShowMain,
        phase matches Some(p) ==> (toggled is RequestStop <==> p is Running),
        phase matches Some(p) ==> (toggled is Start <==> !(p is Running)),
{
    reveal_strlit("open");
    reveal_strlit("toggle");
    reveal_strlit("quit");
    assert("open"@[0] == 'o' && "toggle"@[0] == 't' && "quit"@[0] == 'q');
}

/// No request is carried out unasked while a managed application owns the session. Otherwise a
/// stop stops, and a quit stops and exits.
pub proof fn of_requests<S>(
    service: &Option<ServiceSnapshot<S>>,
    stop: &str,
    quit: &str,
    of_stop: RequestStep,
    of_quit: RequestStep,
)
    requires
        stop@ == "stop"@ && quit@ == "quit"@,
        call_ensures(request_or_perform::<S>, (service, stop), of_stop),
        call_ensures(request_or_perform::<S>, (service, quit), of_quit),
    ensures
        (*service matches Some(snapshot) && snapshot.active_session is Some) ==> of_stop is Confirm
            && of_quit is Confirm,
        !(*service matches Some(snapshot) && snapshot.active_session is Some) ==> of_stop is Stop
            && of_quit is StopAndExit,
{
    reveal_strlit("stop");
    reveal_strlit("quit");
    assert("stop"@[0] == 's' && "quit"@[0] == 'q');
}

/// A selected configuration is used as it is; on first launch the default path is used, and its
/// file is written exactly where there is none.
pub proof fn of_the_startup_plan(
    selected: Option<String>,
    default_path: String,
    default_exists: bool,
    default_port: u16,
    r: StartupPlan,
)
    requires
        call_ensures(startup_plan, (selected, default_path, default_exists, default_port), r),
    ensures
        selected matches Some(path) ==> r == (StartupPlan::Selected { path }),
        selected is None ==> {
            &&& r matches StartupPlan::Default { path, contents }
            &&& path == default_path
            &&& contents is Some <==> !default_exists
            &&& contents matches Some(text) ==> text@ == default_config_text(default_port)
        },
{
}

/// The launch holds a service exactly where one was loaded, that one, and shows a failure exactly
/// where loading or starting failed, that one.
pub proof fn of_the_launch(
    outcome: Result<(ServiceSupervisor, Result<(), String>), String>,
    r: (Option<ServiceSupervisor>, Option<String>),
)
    requires
        call_ensures(launched, (outcome,), r),
    ensures
        outcome matches Ok((service, start)) ==> {
            &&& r.0 == Some(service)
            &&& start is Ok ==> r.1 is None
            &&& start matches Err(message) ==> r.1 == Some(message)
        },
        outcome matches Err(message) ==> r.0 is None && r.1 == Some(message),
{
}

/// Without a service the dashboard shows none: nothing is configured, captured or connected, and
/// the phase is an error exactly where starting one failed. With one it shows that service.
pub proof fn of_the_dashboard<S>(
    service: Option<ServiceSnapshot<S>>,
    startup_error: Option<String>,
    r: ControlSnapshot<S>,
)
    requires
        call_ensures(service_snapshot::<S>, (service, startup_error), r),
    ensures
        r.configured <==> service is Some,
        service is None ==> {
            &&& r.phase is Error <==> startup_error is Some
            &&& r.phase is Stopped <==> startup_error is None
            &&& r.error == startup_error
            &&& r.config_path is None && r.address is None && !r.capture_enabled
            &&& r.switches@.len() == 0 && r.connections@.len() == 0 && r.active_session is None
        },
        service matches Some(snapshot) ==> {
            &&& r.phase == snapshot.phase
            &&& r.config_path == Some(snapshot.config_path)
            &&& r.address == Some(snapshot.address)
            &&& r.capture_enabled == snapshot.capture_enabled
            &&& r.switches == snapshot.switches
            &&& r.connections == snapshot.connections
            &&& r.active_session == snapshot.active_session
            &&& r.error == snapshot.error
        },
{
}

/// A service is started or stopped as it decides itself; without one a start is refused and a stop
/// is met.
pub proof fn after_a_request_to_the_held_service(
    starter: &mut Option<ServiceSupervisor>,
    stopper: &mut Option<ServiceSupervisor>,
    start: Result<StartStep, String>,
    stop: StopStep,
)
    requires
        call_ensures(start_service, (starter,), start),
        call_ensures(stop_service, (stopper,), stop),
    ensures
        start is Ok <==> *old(starter) is Some,
        *final(starter) is Some <==> *old(starter) is Some,
        *old(starter) matches Some(before) ==> (start matches Ok(step) && (step is Running <==>
            before@.phase is Running)),
        *final(stopper) is Some <==> *old(stopper) is Some,
        *old(stopper) is None ==> stop is Stopped,
        *old(stopper) matches Some(before) ==> (stop is Stopped <==> before@.phase is Stopped),
{
}

/// The window is hidden where it is closed or minimized, and only then; only closing is prevented.
pub proof fn of_the_window(change: WindowChange, r: WindowStep)
    requires
        call_ensures(window_step, (change,), r),
    ensures
        r is HideInstead <==> change is CloseRequested,
        r is Hide <==> (change matches WindowChange::Resized { minimized } && minimized),
{
}

/// The utility stays exactly where stopping its service failed.
pub proof fn of_quitting(stopped: Option<Result<(), String>>, r: Result<(), String>)
    requires
        call_ensures(quit_usahp, (stopped,), r),
    ensures
        r is Err <==> (stopped matches Some(stop) && stop is Err),
        r matches Err(message) ==> stopped == Some(Err::<(), String>(message)),
{
}

} // verus!
