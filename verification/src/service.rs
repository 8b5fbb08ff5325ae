//! The life of the switch service: configuration, start, stop and failure.

use std::path::PathBuf;
use vstd::prelude::*;
use crate::embedded::mapping::Mapping;
use crate::management::{ActiveSessionSnapshot, BrokerSnapshot, ConnectionSnapshot};
use crate::text::{decimal, decimal_text};

verus! {

/// `std::path::PathBuf`, carried through as it is.
#[verifier::external_type_specification]
#[verifier::external_body]
pub struct ExPathBuf(PathBuf);

/// Where the service stands.
#[derive(Debug, Clone, Copy, PartialEq, Eq, Structural)]
pub enum ServicePhase {
    Stopped,
    Starting,
    Running,
    Stopping,
    Error,
}

/// The live state of the service, where `S` is the report of one logical switch.
#[derive(Debug, Clone, PartialEq)]
pub struct ServiceSnapshot<S> {
    pub phase: ServicePhase,
    pub config_path: String,
    pub address: String,
    pub capture_enabled: bool,
    pub switches: Vec<S>,
    pub connections: Vec<ConnectionSnapshot>,
    pub active_session: Option<ActiveSessionSnapshot>,
    pub error: Option<String>,
}

/// An internet address.
#[derive(Debug, Clone, Copy)]
pub enum HostAddress {
    /// The four octets, first to last.
    V4([u8; 4]),
    /// The eight segments, first to last.
    V6([u16; 8]),
}

impl HostAddress {
    /// A loopback address: of 127.0.0.0/8, or ::1.
    pub open spec fn loopback(self) -> bool {
        match self {
            HostAddress::V4(octets) => octets@[0] == 127,
            HostAddress::V6(segments) => segments@ =~= seq![0u16, 0, 0, 0, 0, 0, 0, 1],
        }
    }

    /// Whether the address leads back to this machine.
    pub fn is_loopback(&self) -> (r: bool)
        ensures
            r == self.loopback(),
    {
        match self {
            HostAddress::V4(octets) => octets[0] == 127,
            HostAddress::V6(segments) => {
                segments[0] == 0 && segments[1] == 0 && segments[2] == 0 && segments[3] == 0
                    && segments[4] == 0 && segments[5] == 0 && segments[6] == 0 && segments[7] == 1
            },
        }
    }
}

/// Where the service listens, and how many messages wait for one client.
#[derive(Debug)]
pub struct ServerConfig {
    pub host: HostAddress,
    pub port: u16,
    pub client_queue_capacity: usize,
}

/// What drives the service besides real devices.
#[derive(Debug)]
pub struct SimulatorConfig {
    /// Switch events are read from standard input too.
    pub stdin: bool,
}

/// A service configuration.
#[derive(Debug)]
pub struct Config {
    pub server: ServerConfig,
    pub simulator: SimulatorConfig,
    pub mappings: Vec<Mapping>,
}

/// The text that refuses a configuration that listens on no loopback address.
pub open spec fn loopback_fault(config: Config) -> Option<Seq<char>> {
    if config.server.host.loopback() {
        None
    } else {
        Some("USAHP Control requires a loopback server address"@)
    }
}

/// Accepts only a configuration that listens on a loopback address.
pub fn ensure_loopback(config: &Config) -> (r: Result<(), String>)
    ensures
        match loopback_fault(*config) {
            Some(text) => r matches Err(message) && message@ == text,
            None => r is Ok,
        },
{
    if config.server.host.is_loopback() {
        Ok(())
    } else {
        Err("USAHP Control requires a loopback server address".to_owned())
    }
}

/// What reading a configuration file brought.
#[derive(Debug)]
pub enum LoadedConfig {
    /// The file could not be read as a configuration, for this cause.
    Unreadable(String),
    /// The inputs that the configuration maps are not available, for this cause.
    InvalidInputs(String),
    /// A configuration whose inputs are available.
    Loaded(Config),
}

/// The text that refuses a configuration that was read from `path`, if it is refused.
pub open spec fn config_fault(path: Seq<char>, loaded: LoadedConfig) -> Option<Seq<char>> {
    match loaded {
        LoadedConfig::Unreadable(cause) => Some("failed to load "@ + path + ": "@ + cause@),
        LoadedConfig::InvalidInputs(cause) => Some(cause@),
        LoadedConfig::Loaded(config) => loopback_fault(config),
    }
}

/// Accepts a configuration that was read from `path`: it is readable, its inputs are available,
/// and it listens on a loopback address.
pub fn validate_config(path: &str, loaded: LoadedConfig) -> (r: Result<Config, String>)
    ensures
        match config_fault(path@, loaded) {
            Some(text) => r matches Err(message) && message@ == text,
            None => loaded matches LoadedConfig::Loaded(config) && r == Ok::<Config, String>(
                config,
            ),
        },
{
    match loaded {
        LoadedConfig::Unreadable(cause) => {
            let mut message = "failed to load ".to_owned();
            message.append(path);
            message.append(": ");
            message.append(cause.as_str());
            Err(message)
        },
        LoadedConfig::InvalidInputs(cause) => Err(cause),
        LoadedConfig::Loaded(config) => match ensure_loopback(&config) {
            Ok(()) => Ok(config),
            Err(message) => Err(message),
        },
    }
}

/// Why no configuration path is at hand.
#[derive(Debug, Clone, Copy, PartialEq, Eq, Structural)]
pub struct NoConfigSelected;

impl NoConfigSelected {
    /// The text that reports it.
    pub fn message(&self) -> (r: String)
        ensures
            r@ == "no USAHP configuration selected"@,
    {
        "no USAHP configuration selected".to_owned()
    }
}

/// The configuration path, which has to be there.
pub fn require_config_path(path: Option<PathBuf>) -> (r: Result<PathBuf, NoConfigSelected>)
    ensures
        r == match path {
            Some(path) => Ok::<PathBuf, NoConfigSelected>(path),
            None => Err::<PathBuf, NoConfigSelected>(NoConfigSelected),
        },
{
    match path {
        Some(path) => Ok(path),
        None => Err(NoConfigSelected),
    }
}

/// The mappings that the broker serves: those of the configuration and, where the simulator reads
/// standard input, those that it simulates behind them.
pub fn broker_mappings(config: &Config, simulated: Vec<Mapping>) -> (r: Vec<Mapping>)
    ensures
        r@ == if config.simulator.stdin {
            config.mappings@ + simulated@
        } else {
            config.mappings@
        },
{
    let mut r: Vec<Mapping> = Vec::new();
    let mut i: usize = 0;
    while i < config.mappings.len()
        invariant
            i <= config.mappings@.len(),
            r@ == config.mappings@.take(i as int),
        decreases config.mappings@.len() - i,
    {
        r.push(config.mappings[i].clone());
        assert(r@ =~= config.mappings@.take(i + 1));
        i = i + 1;
    }
    assert(r@ =~= config.mappings@);
    if config.simulator.stdin {
        let mut simulated = simulated;
        r.append(&mut simulated);
    }
    r
}

/// How the broker answered a request to run or to pause.
#[derive(Debug)]
pub enum BrokerReply {
    /// It does as asked.
    Done,
    /// The request did not reach it, for this cause.
    Unreachable(String),
    /// It took the request and did not answer, for this cause.
    Silent(String),
    /// It refused, for this cause.
    Refused(String),
}

impl BrokerReply {
    /// The text that reports a failed request, if it failed; `unreachable` and `silent` introduce
    /// the causes of those two failures.
    pub open spec fn failure(self, unreachable: Seq<char>, silent: Seq<char>) -> Option<Seq<char>> {
        match self {
            BrokerReply::Done => None,
            BrokerReply::Unreachable(cause) => Some(unreachable + ": "@ + cause@),
            BrokerReply::Silent(cause) => Some(silent + ": "@ + cause@),
            BrokerReply::Refused(cause) => Some(cause@),
        }
    }

    /// Whether the broker does as asked, and how a failure is reported.
    fn outcome(self, unreachable: &str, silent: &str) -> (r: Result<(), String>)
        ensures
            match self.failure(unreachable@, silent@) {
                Some(text) => r matches Err(message) && message@ == text,
                None => r is Ok,
            },
    {
        match self {
            BrokerReply::Done => Ok(()),
            BrokerReply::Unreachable(cause) => Err(
                unreachable.to_owned().concat(": ").concat(cause.as_str()),
            ),
            BrokerReply::Silent(cause) => Err(
                silent.to_owned().concat(": ").concat(cause.as_str()),
            ),
            BrokerReply::Refused(cause) => Err(cause),
        }
    }
}

/// The text that reports that the broker did not follow a command of the running service.
pub open spec fn command_failure(reply: BrokerReply) -> Option<Seq<char>> {
    reply.failure("broker stopped"@, "broker did not acknowledge service command"@)
}

/// The text that reports that the broker was not paused while the service was loaded.
pub open spec fn load_failure(reply: BrokerReply) -> Option<Seq<char>> {
    reply.failure(
        "broker stopped while initializing service"@,
        "broker did not acknowledge initial pause"@,
    )
}

/// The text that reports why a service is not loaded, if it is not: its configuration is refused
/// first, and then the broker was not paused.
pub open spec fn load_fault(config: Config, pause: BrokerReply) -> Option<Seq<char>> {
    match loopback_fault(config) {
        Some(text) => Some(text),
        None => load_failure(pause),
    }
}

/// The text that reports that the service could not listen.
pub open spec fn bind_failure(cause: Seq<char>) -> Seq<char> {
    "could not bind loopback WebSocket server: "@ + cause
}

/// What happens after a request to start.
#[derive(Debug, Clone, Copy, PartialEq, Eq, Structural)]
pub enum StartStep {
    /// Nothing; the service runs.
    Running,
    /// The listener is bound, and the outcome goes to [`ServiceSupervisor::bound`].
    Bind,
}

/// What happens after a request to stop.
#[derive(Debug, Clone, Copy, PartialEq, Eq, Structural)]
pub enum StopStep {
    /// Nothing; the service has stopped.
    Stopped,
    /// The broker is paused, then the server is closed where there is one, then the broker's
    /// answer goes to [`ServiceSupervisor::paused`].
    Pause { close_server: bool },
}

/// The owner of the service, which listens on a loopback address.
#[derive(Debug)]
pub struct ServiceSupervisor {
    config_path: String,
    config: Config,
    phase: ServicePhase,
    error: Option<String>,
    serving: bool,
}

/// What the owner of the service knows of its life.
#[verifier::ext_equal]
pub struct ServiceState {
    pub phase: ServicePhase,
    /// How the latest failure was reported.
    pub error: Option<Seq<char>>,
    /// There is a server that was not closed.
    pub serving: bool,
}

impl View for ServiceSupervisor {
    type V = ServiceState;

    closed spec fn view(&self) -> ServiceState {
        ServiceState {
            phase: self.phase,
            error: match self.error {
                Some(message) => Some(message@),
                None => None,
            },
            serving: self.serving,
        }
    }
}

impl ServiceState {
    /// A service that was just loaded.
    pub open spec fn loaded() -> ServiceState {
        ServiceState { phase: ServicePhase::Stopped, error: None, serving: false }
    }

    /// A failure: the service reports it until it is started or stopped again.
    pub open spec fn failed(self, message: Seq<char>) -> ServiceState {
        ServiceState { phase: ServicePhase::Error, error: Some(message), ..self }
    }

    /// A request to start.
    pub open spec fn starting(self) -> (ServiceState, StartStep) {
        if self.phase is Running {
            (self, StartStep::Running)
        } else {
            (ServiceState { phase: ServicePhase::Starting, error: None, ..self }, StartStep::Bind)
        }
    }

    /// The listener was bound, or not, for this cause.
    pub open spec fn bound(self, failure: Option<Seq<char>>) -> ServiceState {
        match failure {
            Some(cause) => self.failed(bind_failure(cause)),
            None => self,
        }
    }

    /// The broker was asked to run and serves, or its failure is reported so.
    pub open spec fn resumed(self, failure: Option<Seq<char>>) -> ServiceState {
        match failure {
            Some(message) => self.failed(message),
            None => ServiceState { phase: ServicePhase::Running, serving: true, ..self },
        }
    }

    /// A request to stop.
    pub open spec fn stopping(self) -> (ServiceState, StopStep) {
        if self.phase is Stopped {
            (self, StopStep::Stopped)
        } else {
            (
                ServiceState { phase: ServicePhase::Stopping, error: None, ..self },
                StopStep::Pause { close_server: self.serving },
            )
        }
    }

    /// The server is closed; the broker was asked to pause and did, or its failure is reported so.
    pub open spec fn paused(self, failure: Option<Seq<char>>) -> ServiceState {
        let closed = ServiceState { serving: false, ..self };
        match failure {
            Some(message) => closed.failed(message),
            None => ServiceState { phase: ServicePhase::Stopped, ..closed },
        }
    }

    /// There is a server while the service runs and none once it has stopped, and a report exactly
    /// while it has failed.
    pub open spec fn sound(self) -> bool {
        &&& self.phase is Running ==> self.serving
        &&& self.phase is Stopped ==> !self.serving
        &&& self.error is Some == (self.phase is Error)
    }
}

impl ServiceSupervisor {
    /// The service listens on a loopback address.
    #[verifier::type_invariant]
    spec fn listens_locally(self) -> bool {
        self.config.server.host.loopback()
    }

    /// The path that the configuration was read from.
    pub closed spec fn path(&self) -> Seq<char> {
        self.config_path@
    }

    /// The configuration that the service runs by.
    pub closed spec fn settings(&self) -> Config {
        self.config
    }

    /// The service that a configuration describes, once its broker was asked to pause. It does not
    /// run yet. A configuration that listens on no loopback address is refused, as
    /// [`validate_config`] does before there is a broker.
    pub fn load(config_path: String, config: Config, pause: BrokerReply) -> (r: Result<
        ServiceSupervisor,
        String,
    >)
        ensures
            match load_fault(config, pause) {
                Some(text) => r matches Err(message) && message@ == text,
                None => r matches Ok(service) && {
                    &&& service@ == ServiceState::loaded()
                    &&& service@.sound()
                    &&& service.path() == config_path@
                    &&& service.settings() == config
                },
            },
    {
        match ensure_loopback(&config) {
            Ok(()) => {},
            Err(message) => {
                return Err(message);
            },
        }
        match pause.outcome(
            "broker stopped while initializing service",
            "broker did not acknowledge initial pause",
        ) {
            Ok(()) => Ok(
                ServiceSupervisor {
                    config_path,
                    config,
                    phase: ServicePhase::Stopped,
                    error: None,
                    serving: false,
                },
            ),
            Err(message) => Err(message),
        }
    }

    /// The configuration that the service runs by; whatever has happened to the service, it
    /// listens on a loopback address.
    pub fn config(&self) -> (r: &Config)
        ensures
            *r == self.settings(),
            r.server.host.loopback(),
    {
        proof {
            use_type_invariant(self);
        }
        &self.config
    }

    /// Where the service stands.
    pub fn phase(&self) -> (r: ServicePhase)
        ensures
            r == self@.phase,
    {
        self.phase
    }

    /// Records a failure and hands its report on.
    fn fail(&mut self, message: String) -> (r: Result<(), String>)
        ensures
            final(self)@ == old(self)@.failed(message@),
            final(self).path() == old(self).path(),
            final(self).settings() == old(self).settings(),
            r == Err::<(), String>(message),
    {
        proof {
            use_type_invariant(&*self);
        }
        self.phase = ServicePhase::Error;
        self.error = Some(message.clone());
        Err(message)
    }

    /// Takes a request to start.
    pub fn start(&mut self) -> (step: StartStep)
        ensures
            (final(self)@, step) == old(self)@.starting(),
            final(self).path() == old(self).path(),
            final(self).settings() == old(self).settings(),
            old(self)@.sound() ==> final(self)@.sound(),
    {
        proof {
            use_type_invariant(&*self);
        }
        if self.phase == ServicePhase::Running {
            return StartStep::Running;
        }
        self.phase = ServicePhase::Starting;
        self.error = None;
        StartStep::Bind
    }

    /// Takes the outcome of binding the listener. Where it was bound, the broker is asked to run,
    /// and its answer goes to [`ServiceSupervisor::resumed`].
    pub fn bound(&mut self, outcome: Result<(), String>) -> (r: Result<(), String>)
        ensures
            final(self)@ == old(self)@.bound(
                match outcome {
                    Ok(_) => None,
                    Err(cause) => Some(cause@),
                },
            ),
            final(self).path() == old(self).path(),
            final(self).settings() == old(self).settings(),
            match outcome {
                Ok(_) => r is Ok,
                Err(cause) => r matches Err(message) && message@ == bind_failure(cause@),
            },
            old(self)@.sound() && old(self)@.phase is Starting ==> final(self)@.sound(),
    {
        match outcome {
            Ok(()) => Ok(()),
            Err(cause) => self.fail(
                "could not bind loopback WebSocket server: ".to_owned().concat(cause.as_str()),
            ),
        }
    }

    /// Takes the broker's answer to the request to run. Where it does, the server is started.
    pub fn resumed(&mut self, reply: BrokerReply) -> (r: Result<(), String>)
        ensures
            final(self)@ == old(self)@.resumed(command_failure(reply)),
            final(self).path() == old(self).path(),
            final(self).settings() == old(self).settings(),
            old(self)@.sound() && old(self)@.phase is Starting ==> final(self)@.sound(),
            match command_failure(reply) {
                Some(text) => r matches Err(message) && message@ == text,
                None => r is Ok,
            },
    {
        proof {
            use_type_invariant(&*self);
        }
        match reply.outcome("broker stopped", "broker did not acknowledge service command") {
            Ok(()) => {
                self.serving = true;
                self.phase = ServicePhase::Running;
                Ok(())
            },
            Err(message) => self.fail(message),
        }
    }

    /// Takes a request to stop.
    pub fn stop(&mut self) -> (step: StopStep)
        ensures
            (final(self)@, step) == old(self)@.stopping(),
            final(self).path() == old(self).path(),
            final(self).settings() == old(self).settings(),
            old(self)@.sound() ==> final(self)@.sound(),
    {
        proof {
            use_type_invariant(&*self);
        }
        if self.phase == ServicePhase::Stopped {
            return StopStep::Stopped;
        }
        let close_server = self.serving;
        self.phase = ServicePhase::Stopping;
        self.error = None;
        StopStep::Pause { close_server }
    }

    /// Takes the broker's answer to the request to pause, once the server is closed.
    pub fn paused(&mut self, reply: BrokerReply) -> (r: Result<(), String>)
        ensures
            final(self)@ == old(self)@.paused(command_failure(reply)),
            final(self).path() == old(self).path(),
            final(self).settings() == old(self).settings(),
            old(self)@.sound() && old(self)@.phase is Stopping ==> final(self)@.sound(),
            match command_failure(reply) {
                Some(text) => r matches Err(message) && message@ == text,
                None => r is Ok,
            },
    {
        proof {
            use_type_invariant(&*self);
        }
        self.serving = false;
        match reply.outcome("broker stopped", "broker did not acknowledge service command") {
            Ok(()) => {
                self.phase = ServicePhase::Stopped;
                Ok(())
            },
            Err(message) => self.fail(message),
        }
    }

    /// The live state of the service, where `host` is the address that it listens on in text.
    pub fn snapshot<S>(&self, host: &str, broker: BrokerSnapshot<S>) -> (r: ServiceSnapshot<S>)
        ensures
            r.phase == self@.phase,
            r.config_path@ == self.path(),
            r.address@ == host@ + ":"@ + decimal(self.settings().server.port as nat),
            r.capture_enabled == broker.capture_enabled,
            r.switches == broker.switches,
            r.connections == broker.connections,
            r.active_session == broker.active_session,
            match r.error {
                Some(message) => self@.error == Some(message@),
                None => self@.error is None,
            },
    {
        let port = decimal_text(self.config.server.port as u32);
        ServiceSnapshot {
            phase: self.phase,
            config_path: self.config_path.clone(),
            address: host.to_owned().concat(":").concat(port.as_str()),
            capture_enabled: broker.capture_enabled,
            switches: broker.switches,
            connections: broker.connections,
            active_session: broker.active_session,
            error: match &self.error {
                Some(message) => Some(message.clone()),
                None => None,
            },
        }
    }
}

/// A service keeps its bounds through every request and answer, where the answers come to the
/// requests that they belong to.
pub proof fn service_stays_sound(s: ServiceState, failure: Option<Seq<char>>)
    requires
        s.sound(),
    ensures
        ServiceState::loaded().sound(),
        s.starting().0.sound(),
        s.stopping().0.sound(),
        s.phase is Starting ==> s.bound(failure).sound() && s.resumed(failure).sound(),
        s.phase is Stopping ==> s.paused(failure).sound(),
{
}

/// A request that is met already changes nothing.
pub proof fn met_requests_change_nothing(s: ServiceState)
    ensures
        s.phase is Running ==> s.starting() == (s, StartStep::Running),
        s.phase is Stopped ==> s.stopping() == (s, StopStep::Stopped),
{
}

/// What validation refuses is not loaded either, whatever the broker answered, and is reported in
/// the same words.
pub proof fn refused_configurations_never_load(
    path: Seq<char>,
    config: Config,
    pause: BrokerReply,
)
    requires
        config_fault(path, LoadedConfig::Loaded(config)) is Some,
    ensures
        load_fault(config, pause) == config_fault(path, LoadedConfig::Loaded(config)),
{
}

/// A start that fails, because the port is taken or the broker does not follow, leaves the service
/// in error with that report. It starts no server, and a further request to start tries to bind
/// again.
pub proof fn failed_starts_are_errors(s: ServiceState, cause: Seq<char>, message: Seq<char>)
    requires
        s.sound(),
        !(s.phase is Running),
    ensures
        ({
            let unbound = s.starting().0.bound(Some(cause));
            let refused = s.starting().0.bound(None).resumed(Some(message));
            &&& unbound.phase is Error && refused.phase is Error
            &&& unbound.error == Some(bind_failure(cause)) && refused.error == Some(message)
            &&& unbound.serving == s.serving && refused.serving == s.serving
            &&& unbound.starting().1 is Bind && refused.starting().1 is Bind
        }),
{
}

/// A server stays to be closed until a stop has come to its end: a stop that is asked for again
/// closes it.
pub proof fn unfinished_stops_close_again(s: ServiceState, failure: Option<Seq<char>>)
    requires
        s.sound(),
        s.serving,
    ensures
        ({
            let (stopping, step) = s.stopping();
            &&& step == (StopStep::Pause { close_server: true })
            &&& stopping.stopping().1 == (StopStep::Pause { close_server: true })
            &&& !stopping.paused(failure).serving
        }),
{
}

/// A service that was started and then stopped is where it began, and starts again by binding.
pub proof fn stopping_undoes_starting(s: ServiceState)
    requires
        s == ServiceState::loaded(),
    ensures
        ({
            let running = s.starting().0.bound(None).resumed(None);
            let (stopping, step) = running.stopping();
            &&& running.phase is Running && running.serving && running.error is None
            &&& step == (StopStep::Pause { close_server: true })
            &&& stopping.paused(None) == s
            &&& stopping.paused(None).starting().1 is Bind
        }),
{
}

/// An address leads back to this machine exactly where it is of 127.0.0.0/8, or ::1.
pub proof fn loopback_addresses(octets: [u8; 4], segments: [u16; 8])
    ensures
        HostAddress::V4(octets).loopback() <==> octets@[0] == 127,
        HostAddress::V6(segments).loopback() <==> {
            &&& forall|i: int| 0 <= i < 7 ==> #[trigger] segments@[i] == 0
            &&& segments@[7] == 1
        },
{
    let one = seq![0u16, 0, 0, 0, 0, 0, 0, 1];
    if (forall|i: int| 0 <= i < 7 ==> #[trigger] segments@[i] == 0) && segments@[7] == 1 {
        assert(segments@ =~= one);
    }
    if HostAddress::V6(segments).loopback() {
        assert forall|i: int| 0 <= i < 7 implies #[trigger] segments@[i] == 0 by {
            assert(segments@[i] == one[i]);
        }
    }
}

/// Loading starts nothing: a loaded service has stopped, serves nobody and reports no failure.
pub proof fn loading_starts_nothing()
    ensures
        ServiceState::loaded().phase is Stopped,
        ServiceState::loaded().error is None,
        !ServiceState::loaded().serving,
{
}

/// A request to start leaves a running service alone; any other begins to start, forgets its
/// failure and binds. What is served does not change yet.
pub proof fn requests_to_start(s: ServiceState)
    ensures
        ({
            let (after, step) = s.starting();
            &&& after.serving == s.serving
            &&& s.phase is Running ==> step is Running && after == s
            &&& !(s.phase is Running) ==> {
                &&& step is Bind
                &&& after.phase is Starting
                &&& after.error is None
            }
        }),
{
}

/// A listener that was bound changes nothing yet; one that was not puts the service in error with
/// the cause.
pub proof fn answers_to_binding(s: ServiceState, cause: Seq<char>)
    ensures
        s.bound(None) == s,
        s.bound(Some(cause)).phase is Error,
        s.bound(Some(cause)).error == Some("could not bind loopback WebSocket server: "@ + cause),
        s.bound(Some(cause)).serving == s.serving,
{
}

/// A broker that runs makes the service run and serve; one that does not puts it in error.
pub proof fn answers_to_resuming(s: ServiceState, message: Seq<char>)
    ensures
        s.resumed(None).phase is Running,
        s.resumed(None).serving,
        s.resumed(None).error == s.error,
        s.resumed(Some(message)).phase is Error,
        s.resumed(Some(message)).error == Some(message),
        s.resumed(Some(message)).serving == s.serving,
{
}

/// A request to stop leaves a stopped service alone; any other begins to stop, forgets its failure
/// and has its server closed, if there is one.
pub proof fn requests_to_stop(s: ServiceState)
    ensures
        ({
            let (after, step) = s.stopping();
            &&& after.serving == s.serving
            &&& s.phase is Stopped ==> step is Stopped && after == s
            &&& !(s.phase is Stopped) ==> {
                &&& step == (StopStep::Pause { close_server: s.serving })
                &&& after.phase is Stopping
                &&& after.error is None
            }
        }),
{
}

/// Once a stop is through, nothing is served: a broker that paused leaves the service stopped, one
/// that did not leaves it in error.
pub proof fn answers_to_pausing(s: ServiceState, message: Seq<char>)
    ensures
        s.paused(None).phase is Stopped,
        !s.paused(None).serving,
        s.paused(None).error == s.error,
        s.paused(Some(message)).phase is Error,
        s.paused(Some(message)).error == Some(message),
        !s.paused(Some(message)).serving,
{
}

/// Every failure carries its cause: a refusal in the broker's own words, the others behind what
/// did not happen. A broker that does as asked is no failure.
pub proof fn failures_carry_their_cause(cause: String)
    ensures
        command_failure(BrokerReply::Done) is None,
        command_failure(BrokerReply::Refused(cause)) == Some(cause@),
        command_failure(BrokerReply::Unreachable(cause)) == Some(
            "broker stopped"@ + ": "@ + cause@,
        ),
        command_failure(BrokerReply::Silent(cause)) == Some(
            "broker did not acknowledge service command"@ + ": "@ + cause@,
        ),
        load_failure(BrokerReply::Done) is None,
        load_failure(BrokerReply::Refused(cause)) == Some(cause@),
        load_failure(BrokerReply::Unreachable(cause)) == Some(
            "broker stopped while initializing service"@ + ": "@ + cause@,
        ),
        load_failure(BrokerReply::Silent(cause)) == Some(
            "broker did not acknowledge initial pause"@ + ": "@ + cause@,
        ),
{
}

/// A configuration is accepted exactly where it could be read, its inputs are available and its
/// host is a loopback address; it is loaded exactly where the broker then paused too. An
/// unreadable file is reported with its path and cause, missing inputs with their cause alone.
pub proof fn only_local_configurations_are_accepted(
    path: Seq<char>,
    loaded: LoadedConfig,
    config: Config,
    cause: String,
    pause: BrokerReply,
)
    ensures
        config_fault(path, loaded) is None <==> (loaded matches LoadedConfig::Loaded(read)
            && read.server.host.loopback()),
        config_fault(path, LoadedConfig::Unreadable(cause)) == Some(
            "failed to load "@ + path + ": "@ + cause@,
        ),
        config_fault(path, LoadedConfig::InvalidInputs(cause)) == Some(cause@),
        !config.server.host.loopback() ==> {
            &&& config_fault(path, LoadedConfig::Loaded(config)) == Some(
                "USAHP Control requires a loopback server address"@,
            )
            &&& load_fault(config, pause) == Some(
                "USAHP Control requires a loopback server address"@,
            )
        },
        config.server.host.loopback() ==> load_fault(config, pause) == load_failure(pause),
        load_fault(config, pause) is None <==> config.server.host.loopback() && pause is Done,
{
}

/// The broker serves every configured mapping first, in order, and behind them the simulated ones
/// exactly where the simulator reads standard input.
pub proof fn of_the_mappings_served(config: &Config, simulated: Vec<Mapping>, r: Vec<Mapping>)
    requires
        call_ensures(broker_mappings, (config, simulated), r),
    ensures
        r@.take(config.mappings@.len() as int) == config.mappings@,
        config.simulator.stdin ==> r@.skip(config.mappings@.len() as int) == simulated@,
        !config.simulator.stdin ==> r@.len() == config.mappings@.len(),
{
    assert(r@.take(config.mappings@.len() as int) =~= config.mappings@);
    if config.simulator.stdin {
        assert(r@.skip(config.mappings@.len() as int) =~= simulated@);
    }
}

/// Only a configuration with a loopback host becomes a service, and only where the broker paused;
/// the service has that configuration and path and does not run.
pub proof fn of_a_loaded_service(
    path: String,
    config: Config,
    pause: BrokerReply,
    r: Result<ServiceSupervisor, String>,
)
    requires
        call_ensures(ServiceSupervisor::load, (path, config, pause), r),
    ensures
        r is Ok <==> config.server.host.loopback() && pause is Done,
        r matches Ok(service) ==> {
            &&& service@.phase is Stopped
            &&& service@.error is None
            &&& !service@.serving
            &&& service.path() == path@
            &&& service.settings() == config
        },
        !config.server.host.loopback() ==> (r matches Err(message) && message@
            == "USAHP Control requires a loopback server address"@),
{
}

/// A request to start or stop begins it, unless it is met already.
pub proof fn after_a_request(
    starter: &mut ServiceSupervisor,
    stopper: &mut ServiceSupervisor,
    start: StartStep,
    stop: StopStep,
)
    requires
        call_ensures(ServiceSupervisor::start, (starter,), start),
        call_ensures(ServiceSupervisor::stop, (stopper,), stop),
    ensures
        start is Running <==> old(starter)@.phase is Running,
        start is Running ==> final(starter)@ == old(starter)@,
        start is Bind ==> final(starter)@.phase is Starting && final(starter)@.error is None,
        stop is Stopped <==> old(stopper)@.phase is Stopped,
        stop is Stopped ==> final(stopper)@ == old(stopper)@,
        stop matches StopStep::Pause { close_server } ==> {
            &&& close_server == old(stopper)@.serving
            &&& final(stopper)@.phase is Stopping
            &&& final(stopper)@.error is None
        },
{
}

/// An answer that is a failure is reported in the same words by the call and by the service, which
/// is then in error; one that is none moves the service on.
pub proof fn after_an_answer(
    bound: &mut ServiceSupervisor,
    resumed: &mut ServiceSupervisor,
    paused: &mut ServiceSupervisor,
    outcome: Result<(), String>,
    reply: BrokerReply,
    of_bound: Result<(), String>,
    of_resumed: Result<(), String>,
    of_paused: Result<(), String>,
)
    requires
        call_ensures(ServiceSupervisor::bound, (bound, outcome), of_bound),
        call_ensures(ServiceSupervisor::resumed, (resumed, reply), of_resumed),
        call_ensures(ServiceSupervisor::paused, (paused, reply), of_paused),
    ensures
        of_bound is Ok <==> outcome is Ok,
        of_bound is Ok ==> final(bound)@ == old(bound)@,
        of_bound matches Err(message) ==> final(bound)@.phase is Error && final(bound)@.error
            == Some(message@),
        of_resumed is Ok <==> reply is Done,
        of_resumed is Ok ==> final(resumed)@.phase is Running && final(resumed)@.serving,
        of_resumed matches Err(message) ==> {
            &&& final(resumed)@.phase is Error
            &&& final(resumed)@.error == Some(message@)
        },
        of_paused is Ok <==> reply is Done,
        of_paused is Ok ==> final(paused)@.phase is Stopped,
        of_paused matches Err(message) ==> final(paused)@.phase is Error && final(paused)@.error
            == Some(message@),
        !final(paused)@.serving,
{
}

/// A snapshot shows the service and its broker as they are: the phase, the path, the host and port
/// behind a colon, what the broker reports, and the failure while there is one.
pub proof fn of_a_snapshot<S>(
    service: &ServiceSupervisor,
    host: &str,
    broker: BrokerSnapshot<S>,
    r: ServiceSnapshot<S>,
)
    requires
        call_ensures(ServiceSupervisor::snapshot::<S>, (service, host, broker), r),
    ensures
        r.phase == service@.phase,
        r.config_path@ == service.path(),
        r.address@ == host@ + ":"@ + decimal(service.settings().server.port as nat),
        r.capture_enabled == broker.capture_enabled,
        r.switches == broker.switches,
        r.connections == broker.connections,
        r.active_session == broker.active_session,
        r.error is Some <==> service@.error is Some,
        r.error matches Some(message) ==> service@.error == Some(message@),
{
}

} // verus!
