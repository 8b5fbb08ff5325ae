//! The embedded broker: configuration, start and end of capture.

use vstd::prelude::*;
use crate::embedded::capture::{
    event_views, next_generation, key_taken, may_ask, optional_text, reports, Core, CoreState, KeyStepView,
};
use crate::embedded::keys::{normalize, normalized, KeyName};
use crate::embedded::laws::{
    beginning_is_sound, initial_is_sound, key_edges_are_sound, readiness_is_sound,
    stopping_is_sound, ticking_is_sound,
};
use crate::embedded::mapping::{Action, InputKind, Mapping, MappingView};
use crate::embedded::{macos, windows, Event, Mode, Status, StopReason, MINIMUM_ESCAPE_MS};
use crate::names::{NameMap, NameSet};
use crate::text::{is_white_space, same_text, trimmed, trimmed_is_empty_where_blank};

verus! {

/// How many mappings a configuration may hold.
pub const MAPPING_LIMIT: usize = 128;

/// The system whose keyboard is captured.
#[derive(Debug, Clone, Copy, PartialEq, Eq, Structural)]
pub enum Platform {
    Windows,
    MacOs,
    /// Any other system; its keyboard cannot be captured.
    Other,
}

/// Whether a canonical key name can be captured on a platform.
pub open spec fn key_supported(platform: Platform, code: Seq<char>) -> bool {
    match platform {
        Platform::Windows => windows::named_code(code) is Some,
        Platform::MacOs => macos::named_code(code) is Some,
        Platform::Other => false,
    }
}

/// Whether a canonical key name can be captured on a platform.
pub fn supported_key(platform: Platform, code: &str) -> (r: bool)
    ensures
        r == key_supported(platform, code@),
{
    match platform {
        Platform::Windows => windows::code_for_name(code).is_some(),
        Platform::MacOs => macos::code_for_name(code).is_some(),
        Platform::Other => false,
    }
}

/// Why the broker refuses a request.
#[derive(Debug, PartialEq, Eq)]
pub enum BrokerError {
    /// Mappings change only while capture is off.
    NotOff,
    /// Too many mappings, or an escape hold that is too short.
    InvalidLimits,
    /// A mapping that is no keyboard mapping of its own.
    InvalidMapping,
    /// A code that names no key.
    UnsupportedKey(String),
    /// A key that is reserved, or that the platform lacks.
    ReservedKey(String),
    /// Two mappings of one key.
    DuplicateKey,
    /// A platform without keyboard capture.
    UnsupportedPlatform,
    /// Capture is on already.
    AlreadyActive,
    /// The native hook did not start; the text reports it.
    NativeFailed(String),
    /// The native hook failed while it started.
    NativeLost,
    /// A key is still held.
    SwitchHeld,
}

/// A refusal with its strings taken as their characters.
pub enum BrokerErrorView {
    NotOff,
    InvalidLimits,
    InvalidMapping,
    UnsupportedKey(Seq<char>),
    ReservedKey(Seq<char>),
    DuplicateKey,
    UnsupportedPlatform,
    AlreadyActive,
    NativeFailed(Seq<char>),
    NativeLost,
    SwitchHeld,
}

impl View for BrokerError {
    type V = BrokerErrorView;

    open spec fn view(&self) -> BrokerErrorView {
        match *self {
            BrokerError::NotOff => BrokerErrorView::NotOff,
            BrokerError::InvalidLimits => BrokerErrorView::InvalidLimits,
            BrokerError::InvalidMapping => BrokerErrorView::InvalidMapping,
            BrokerError::UnsupportedKey(code) => BrokerErrorView::UnsupportedKey(code@),
            BrokerError::ReservedKey(code) => BrokerErrorView::ReservedKey(code@),
            BrokerError::DuplicateKey => BrokerErrorView::DuplicateKey,
            BrokerError::UnsupportedPlatform => BrokerErrorView::UnsupportedPlatform,
            BrokerError::AlreadyActive => BrokerErrorView::AlreadyActive,
            BrokerError::NativeFailed(text) => BrokerErrorView::NativeFailed(text@),
            BrokerError::NativeLost => BrokerErrorView::NativeLost,
            BrokerError::SwitchHeld => BrokerErrorView::SwitchHeld,
        }
    }
}

impl BrokerErrorView {
    /// The sentence that reports the refusal.
    pub open spec fn message(self) -> Seq<char> {
        match self {
            BrokerErrorView::NotOff => "Disable capture before changing mappings."@,
            BrokerErrorView::InvalidLimits => "Invalid embedded mapping count or escape duration."@,
            BrokerErrorView::InvalidMapping => "Invalid embedded keyboard mapping."@,
            BrokerErrorView::UnsupportedKey(code) => "Unsupported switch key: "@ + code,
            BrokerErrorView::ReservedKey(code) => {
                "Switch key is reserved or unavailable on this platform: "@ + code
            },
            BrokerErrorView::DuplicateKey => "Each physical key can be mapped only once."@,
            BrokerErrorView::UnsupportedPlatform => {
                "Embedded keyboard capture is supported on Windows and macOS."@
            },
            BrokerErrorView::AlreadyActive => "Capture is already active."@,
            BrokerErrorView::NativeFailed(text) => text,
            BrokerErrorView::NativeLost => "Native switch capture was lost during startup."@,
            BrokerErrorView::SwitchHeld => "Release the held switch before starting capture."@,
        }
    }
}

impl BrokerError {
    /// The sentence that reports the refusal.
    pub fn message(&self) -> (r: String)
        ensures
            r@ == self@.message(),
    {
        match self {
            BrokerError::NotOff => "Disable capture before changing mappings.".to_owned(),
            BrokerError::InvalidLimits => {
                "Invalid embedded mapping count or escape duration.".to_owned()
            },
            BrokerError::InvalidMapping => "Invalid embedded keyboard mapping.".to_owned(),
            BrokerError::UnsupportedKey(code) => {
                "Unsupported switch key: ".to_owned().concat(code.as_str())
            },
            BrokerError::ReservedKey(code) => {
                "Switch key is reserved or unavailable on this platform: ".to_owned().concat(
                    code.as_str(),
                )
            },
            BrokerError::DuplicateKey => "Each physical key can be mapped only once.".to_owned(),
            BrokerError::UnsupportedPlatform => {
                "Embedded keyboard capture is supported on Windows and macOS.".to_owned()
            },
            BrokerError::AlreadyActive => "Capture is already active.".to_owned(),
            BrokerError::NativeFailed(text) => text.clone(),
            BrokerError::NativeLost => "Native switch capture was lost during startup.".to_owned(),
            BrokerError::SwitchHeld => {
                "Release the held switch before starting capture.".to_owned()
            },
        }
    }
}

/// Mappings with their strings taken as their characters.
pub open spec fn mapping_views(mappings: Seq<Mapping>) -> Seq<MappingView> {
    mappings.map_values(|m: Mapping| m@)
}

/// What is wrong with the mapping at `i`, if anything is, where nothing is wrong before it.
pub open spec fn mapping_fault(platform: Platform, mappings: Seq<MappingView>, i: int) -> Option<
    BrokerErrorView,
> {
    let m = mappings[i];
    if !(m.input is Keyboard) || m.bound || trimmed(m.switch_id).len() == 0 || exists|j: int|
        0 <= j < i && (#[trigger] mappings[j]).id == m.id {
        Some(BrokerErrorView::InvalidMapping)
    } else {
        match normalized(m.code) {
            None => Some(BrokerErrorView::UnsupportedKey(m.code)),
            Some(code) => if code == "Escape"@ || !key_supported(platform, code) {
                Some(BrokerErrorView::ReservedKey(code))
            } else if exists|j: int|
                0 <= j < i && normalized((#[trigger] mappings[j]).code) == Some(code) {
                Some(BrokerErrorView::DuplicateKey)
            } else {
                None
            },
        }
    }
}

/// What is wrong with the first faulty mapping of the first `n`, if any of them is faulty.
pub open spec fn first_fault(platform: Platform, mappings: Seq<MappingView>, n: nat) -> Option<
    BrokerErrorView,
>
    decreases n,
{
    if n == 0 {
        None
    } else {
        match first_fault(platform, mappings, (n - 1) as nat) {
            Some(fault) => Some(fault),
            None => mapping_fault(platform, mappings, n - 1),
        }
    }
}

/// The mapping of each key, as the first `n` mappings give it.
pub open spec fn key_map(mappings: Seq<MappingView>, n: nat) -> Map<Seq<char>, Seq<char>>
    decreases n,
{
    if n == 0 {
        Map::empty()
    } else {
        let m = mappings[n - 1];
        key_map(mappings, (n - 1) as nat).insert(normalized(m.code)->0, m.id)
    }
}

/// How the native hook is brought up before capture begins.
#[derive(Debug, Clone, Copy, PartialEq, Eq, Structural)]
pub enum NativeStep {
    /// It runs and is kept.
    Keep,
    /// It does not run and is started.
    Start,
    /// It runs no more than in name: it is taken down, then started.
    Restart,
}

/// One owner per process. Creation installs no hook and captures no input. The owner sends a
/// heartbeat at least every 500 ms, independently of rendering, and configures or learns only
/// while capture is off.
#[derive(Debug)]
pub struct EmbeddedBroker {
    platform: Platform,
    core: Core,
}

impl View for EmbeddedBroker {
    type V = CoreState;

    closed spec fn view(&self) -> CoreState {
        self.core@
    }
}

impl CoreState {
    /// Why a configuration is refused, if it is.
    pub open spec fn configure_fault(
        self,
        platform: Platform,
        mappings: Seq<MappingView>,
        escape_ms: u64,
    ) -> Option<BrokerErrorView> {
        if !(self.status.mode is Off) {
            Some(BrokerErrorView::NotOff)
        } else if mappings.len() > MAPPING_LIMIT || escape_ms < MINIMUM_ESCAPE_MS {
            Some(BrokerErrorView::InvalidLimits)
        } else {
            first_fault(platform, mappings, mappings.len())
        }
    }

    /// The state after a configuration: changed only where it is not refused.
    pub open spec fn configured(
        self,
        platform: Platform,
        mappings: Seq<MappingView>,
        escape_ms: u64,
    ) -> CoreState {
        if self.configure_fault(platform, mappings, escape_ms) is Some {
            self
        } else {
            CoreState { mappings: key_map(mappings, mappings.len()), escape_ms, ..self }
        }
    }

    /// Why capture is not even prepared, if it is not.
    pub open spec fn prepare_fault(self, platform: Platform) -> Option<BrokerErrorView> {
        if !(self.status.mode is Off) {
            Some(BrokerErrorView::AlreadyActive)
        } else if platform is Other {
            Some(BrokerErrorView::UnsupportedPlatform)
        } else {
            None
        }
    }

    /// Why capture does not begin, if it does not, where `native` reports a native hook that could
    /// not be brought up.
    pub open spec fn begin_fault(self, platform: Platform, native: Option<Seq<char>>) -> Option<
        BrokerErrorView,
    > {
        match (self.prepare_fault(platform), native) {
            (Some(fault), _) => Some(fault),
            (None, Some(text)) => Some(BrokerErrorView::NativeFailed(text)),
            (None, None) => if self.native_lost {
                Some(BrokerErrorView::NativeLost)
            } else if self.physical != Set::<Seq<char>>::empty() || self.down != Set::<
                Seq<char>,
            >::empty() {
                Some(BrokerErrorView::SwitchHeld)
            } else {
                None
            },
        }
    }

    /// The state after a request to begin: changed only where it is not refused.
    pub open spec fn begin_tried(
        self,
        platform: Platform,
        native: Option<Seq<char>>,
        mode: Mode,
        now: u64,
    ) -> CoreState {
        if self.begin_fault(platform, native) is Some {
            self
        } else {
            self.begun(mode, now)
        }
    }
}

/// The report of an outcome, if it is a failure.
pub open spec fn failure_text(outcome: Result<(), String>) -> Option<Seq<char>> {
    match outcome {
        Ok(_) => None,
        Err(text) => Some(text@),
    }
}

/// Capture begins exactly where it was off, the native hook is up and was not lost, and no key is
/// held. Otherwise nothing changes: a failed start never claims that capture is on, and a request
/// to begin never ends capture that is on.
pub proof fn capture_begins_with_the_native_hook(
    s: CoreState,
    platform: Platform,
    native: Option<Seq<char>>,
    mode: Mode,
    now: u64,
)
    ensures
        s.begin_fault(platform, native) is None <==> {
            &&& s.status.mode is Off
            &&& !(platform is Other)
            &&& native is None
            &&& !s.native_lost
            &&& s.physical == Set::<Seq<char>>::empty()
            &&& s.down == Set::<Seq<char>>::empty()
        },
        s.begin_fault(platform, native) is None ==> {
            &&& s.begin_tried(platform, native, mode, now).status.mode == mode
            &&& s.begin_tried(platform, native, mode, now).status.generation == next_generation(
                s.status.generation,
            )
            &&& s.begin_tried(platform, native, mode, now) == s.begun(mode, now)
        },
        s.begin_fault(platform, native) is Some ==> s.begin_tried(platform, native, mode, now) == s,
{
}

/// Where no mapping is faulty, the keys that are mapped are the normalized codes, each with the
/// mapping that names it; all are supported, and the escape key is not among them.
pub proof fn mapped_keys_are_normalized(platform: Platform, mappings: Seq<MappingView>, n: nat)
    requires
        n <= mappings.len(),
        first_fault(platform, mappings, n) is None,
    ensures
        forall|code: Seq<char>| #[trigger]
            key_map(mappings, n).dom().contains(code) <==> exists|j: int|
                0 <= j < n && normalized((#[trigger] mappings[j]).code) == Some(code),
        forall|j: int|
            0 <= j < n ==> normalized((#[trigger] mappings[j]).code) is Some && key_map(
                mappings,
                n,
            )[normalized(mappings[j].code)->0] == mappings[j].id,
        forall|code: Seq<char>| #[trigger]
            key_map(mappings, n).dom().contains(code) ==> key_supported(platform, code),
        !key_map(mappings, n).dom().contains("Escape"@),
    decreases n,
{
    if n > 0 {
        let before = (n - 1) as nat;
        mapped_keys_are_normalized(platform, mappings, before);
        let last = normalized(mappings[n - 1].code);
        assert(last is Some);
        assert forall|code: Seq<char>| #[trigger]
            key_map(mappings, n).dom().contains(code) <==> exists|j: int|
                0 <= j < n && normalized((#[trigger] mappings[j]).code) == Some(code) by {
            if key_map(mappings, n).dom().contains(code) {
                if code == last->0 {
                    assert(normalized(mappings[n - 1].code) == Some(code));
                } else {
                    assert(key_map(mappings, before).dom().contains(code));
                }
            }
        }
        assert forall|j: int| 0 <= j < n implies normalized((#[trigger] mappings[j]).code) is Some
            && key_map(mappings, n)[normalized(mappings[j].code)->0] == mappings[j].id by {
            if j < n - 1 {
                assert(normalized(mappings[j].code) != last);
            }
        }
    }
}

/// Capture that is on already is the first ground on which a beginning is refused, then a platform
/// without capture, then a native hook that is not up, in its own words, then one that was lost,
/// then a key that is held.
pub proof fn grounds_for_refusing_a_beginning(
    s: CoreState,
    platform: Platform,
    native: Option<Seq<char>>,
)
    ensures
        ({
            let fault = s.begin_fault(platform, native);
            let on = !(s.status.mode is Off);
            let supported = platform is Windows || platform is MacOs;
            &&& on ==> fault == Some(BrokerErrorView::AlreadyActive)
            &&& !on && !supported ==> fault == Some(BrokerErrorView::UnsupportedPlatform)
            &&& !on && supported ==> {
                &&& native is Some ==> fault == Some(BrokerErrorView::NativeFailed(native->0))
                &&& native is None && s.native_lost ==> fault == Some(BrokerErrorView::NativeLost)
                &&& native is None && !s.native_lost ==> fault == if (exists|key: Seq<char>|
                    s.physical.contains(key)) || (exists|key: Seq<char>| s.down.contains(key)) {
                    Some(BrokerErrorView::SwitchHeld)
                } else {
                    None
                }
            }
            &&& s.prepare_fault(platform) is None <==> !on && supported
            &&& on ==> s.prepare_fault(platform) == Some(BrokerErrorView::AlreadyActive)
            &&& !on && !supported ==> s.prepare_fault(platform) == Some(
                BrokerErrorView::UnsupportedPlatform,
            )
        }),
{
    if forall|key: Seq<char>| !s.physical.contains(key) {
        assert(s.physical =~= Set::<Seq<char>>::empty());
    }
    if forall|key: Seq<char>| !s.down.contains(key) {
        assert(s.down =~= Set::<Seq<char>>::empty());
    }
}

/// The report of an outcome is the text of its failure.
pub proof fn failures_are_reported_in_their_words(text: String)
    ensures
        failure_text(Err(text)) == Some(text@),
        failure_text(Ok(())) is None,
{
}

/// Mappings change only while capture is off. More than 128 of them, or an escape hold of less
/// than four seconds, are refused as a whole; otherwise the first faulty mapping decides.
pub proof fn grounds_for_refusing_a_configuration(
    s: CoreState,
    platform: Platform,
    mappings: Seq<MappingView>,
    escape_ms: u64,
)
    ensures
        ({
            let fault = s.configure_fault(platform, mappings, escape_ms);
            &&& !(s.status.mode is Off) ==> fault == Some(BrokerErrorView::NotOff)
            &&& s.status.mode is Off && (mappings.len() > 128 || escape_ms < 4000) ==> fault == Some(
                BrokerErrorView::InvalidLimits,
            )
            &&& s.status.mode is Off && mappings.len() <= 128 && escape_ms >= 4000 ==> fault
                == first_fault(platform, mappings, mappings.len())
        }),
{
}

/// What is wrong with the first faulty mapping: it listens to no keyboard, is bound to a device,
/// names a blank switch or repeats an identifier; or else its code names no key; or else its key
/// is Escape or not to be had on the platform; or else an earlier mapping has its key.
pub proof fn grounds_for_refusing_a_mapping(
    platform: Platform,
    mappings: Seq<MappingView>,
    i: int,
)
    requires
        0 <= i < mappings.len(),
        first_fault(platform, mappings, i as nat) is None,
    ensures
        ({
            let m = mappings[i];
            let fault = first_fault(platform, mappings, mappings.len());
            let blank = forall|j: int|
                0 <= j < m.switch_id.len() ==> is_white_space(#[trigger] m.switch_id[j]);
            let repeated = exists|j: int| 0 <= j < i && (#[trigger] mappings[j]).id == m.id;
            let malformed = !(m.input is Keyboard) || m.bound || blank || repeated;
            let key = normalized(m.code);
            let taken = exists|j: int|
                0 <= j < i && normalized((#[trigger] mappings[j]).code) == key;
            &&& malformed ==> fault == Some(BrokerErrorView::InvalidMapping)
            &&& !malformed && key is None ==> fault == Some(BrokerErrorView::UnsupportedKey(m.code))
            &&& !malformed && key is Some && (key == Some("Escape"@) || !key_supported(
                platform,
                key->0,
            )) ==> fault == Some(BrokerErrorView::ReservedKey(key->0))
            &&& !malformed && key is Some && key != Some("Escape"@) && key_supported(
                platform,
                key->0,
            ) ==> {
                &&& taken ==> fault == Some(BrokerErrorView::DuplicateKey)
                &&& !taken ==> first_fault(platform, mappings, (i + 1) as nat) is None
            }
        }),
{
    trimmed_is_empty_where_blank(mappings[i].switch_id);
    let next = (i + 1) as nat;
    assert(first_fault(platform, mappings, next) == mapping_fault(platform, mappings, i));
    if first_fault(platform, mappings, next) is Some {
        lemma_fault_stays(platform, mappings, next, mappings.len());
    }
}

/// A configuration is accepted exactly where capture is off, there are at most 128 mappings, the
/// escape hold is at least four seconds, and every mapping is a keyboard mapping of its own: of
/// no device, of a switch that is not blank, of an identifier and a key that no other has, and of
/// a key that is supported and not Escape.
pub proof fn accepted_configurations_are_well_formed(
    s: CoreState,
    platform: Platform,
    mappings: Seq<MappingView>,
    escape_ms: u64,
)
    ensures
        s.configure_fault(platform, mappings, escape_ms) is None <==> {
            &&& s.status.mode is Off
            &&& mappings.len() <= 128
            &&& escape_ms >= 4000
            &&& forall|i: int|
                0 <= i < mappings.len() ==> {
                    &&& (#[trigger] mappings[i]).input is Keyboard
                    &&& !mappings[i].bound
                    &&& exists|j: int|
                        0 <= j < mappings[i].switch_id.len() && !is_white_space(
                            #[trigger] mappings[i].switch_id[j],
                        )
                    &&& normalized(mappings[i].code) is Some
                    &&& normalized(mappings[i].code) != Some("Escape"@)
                    &&& key_supported(platform, normalized(mappings[i].code)->0)
                }
            &&& forall|i: int, j: int|
                0 <= j < i < mappings.len() ==> (#[trigger] mappings[j]).id != (
                #[trigger] mappings[i]).id && normalized(mappings[j].code) != normalized(
                    mappings[i].code,
                )
        },
{
    lemma_no_fault(platform, mappings, mappings.len());
}

/// What it means that none of the first mappings is faulty.
proof fn lemma_no_fault(platform: Platform, mappings: Seq<MappingView>, n: nat)
    requires
        n <= mappings.len(),
    ensures
        first_fault(platform, mappings, n) is None <==> {
            &&& forall|i: int|
                0 <= i < n ==> {
                    &&& (#[trigger] mappings[i]).input is Keyboard
                    &&& !mappings[i].bound
                    &&& exists|j: int|
                        0 <= j < mappings[i].switch_id.len() && !is_white_space(
                            #[trigger] mappings[i].switch_id[j],
                        )
                    &&& normalized(mappings[i].code) is Some
                    &&& normalized(mappings[i].code) != Some("Escape"@)
                    &&& key_supported(platform, normalized(mappings[i].code)->0)
                }
            &&& forall|i: int, j: int|
                0 <= j < i < n ==> (#[trigger] mappings[j]).id != (#[trigger] mappings[i]).id
                    && normalized(mappings[j].code) != normalized(mappings[i].code)
        },
    decreases n,
{
    if n > 0 {
        lemma_no_fault(platform, mappings, (n - 1) as nat);
        trimmed_is_empty_where_blank(mappings[n - 1].switch_id);
        assert(first_fault(platform, mappings, n) is None <==> first_fault(
            platform,
            mappings,
            (n - 1) as nat,
        ) is None && mapping_fault(platform, mappings, n - 1) is None);
    }
}

/// After an accepted configuration the escape hold is the one that was asked for, each mapping's
/// key leads to that mapping, and no other key leads anywhere. Nothing else changes; a refused
/// configuration changes nothing at all.
pub proof fn accepted_configurations_are_in_force(
    s: CoreState,
    platform: Platform,
    mappings: Seq<MappingView>,
    escape_ms: u64,
)
    ensures
        ({
            let after = s.configured(platform, mappings, escape_ms);
            let fault = s.configure_fault(platform, mappings, escape_ms);
            &&& fault is Some ==> after == s
            &&& fault is None ==> {
                &&& after.escape_ms == escape_ms
                &&& escape_ms >= 4000
                &&& forall|i: int|
                    0 <= i < mappings.len() ==> {
                        &&& normalized((#[trigger] mappings[i]).code) is Some
                        &&& after.mappings.dom().contains(normalized(mappings[i].code)->0)
                        &&& after.mappings[normalized(mappings[i].code)->0] == mappings[i].id
                    }
                &&& forall|key: Seq<char>| #[trigger]
                    after.mappings.dom().contains(key) ==> exists|i: int|
                        0 <= i < mappings.len() && normalized((#[trigger] mappings[i]).code)
                            == Some(key)
                &&& after == (CoreState { mappings: after.mappings, escape_ms, ..s })
            }
        }),
{
    if s.configure_fault(platform, mappings, escape_ms) is None {
        mapped_keys_are_normalized(platform, mappings, mappings.len());
        let after = s.configured(platform, mappings, escape_ms);
        assert forall|i: int| 0 <= i < mappings.len() implies after.mappings.dom().contains(
            normalized((#[trigger] mappings[i]).code)->0,
        ) by {
            assert(normalized(mappings[i].code) == Some(normalized(mappings[i].code)->0));
        }
    }
}

/// Windows captures every key that has a canonical name, macOS all of them but F21 to F24, and
/// other systems none.
pub proof fn supported_keys(k: KeyName)
    requires
        k.valid(),
    ensures
        key_supported(Platform::Windows, k.text()),
        key_supported(Platform::MacOs, k.text()) <==> !(k matches KeyName::Function(n) && n > 20),
        !key_supported(Platform::Other, k.text()),
{
    windows::canonical_names_have_codes(k);
    macos::canonical_names_have_codes(k);
}

/// An accepted configuration keeps capture sound.
pub proof fn configuring_is_sound(
    s: CoreState,
    platform: Platform,
    mappings: Seq<MappingView>,
    escape_ms: u64,
)
    requires
        s.sound(),
    ensures
        s.configured(platform, mappings, escape_ms).sound(),
{
    if s.configure_fault(platform, mappings, escape_ms) is None {
        mapped_keys_are_normalized(platform, mappings, mappings.len());
    }
}

impl EmbeddedBroker {
    /// The platform whose keyboard the broker captures.
    pub closed spec fn captures(&self) -> Platform {
        self.platform
    }

    /// A broker that captures nothing yet.
    pub fn new(platform: Platform) -> (r: Self)
        ensures
            r.captures() == platform,
            r@ == CoreState::initial(),
            r@.sound(),
    {
        proof {
            initial_is_sound();
        }
        EmbeddedBroker { platform, core: Core::default() }
    }

    /// The generation, the mode and why capture last ended.
    pub fn status(&self) -> (r: Status)
        ensures
            r == self@.status,
    {
        self.core.status
    }

    /// Takes a heartbeat of the embedding application.
    pub fn heartbeat(&mut self, now: u64)
        ensures
            final(self).captures() == old(self).captures(),
            final(self)@ == (CoreState { last_heartbeat: now, ..old(self)@ }),
            old(self)@.sound() ==> final(self)@.sound(),
    {
        self.core.heartbeat(now);
    }

    /// Hands over the waiting events, oldest first.
    pub fn drain(&mut self, now: u64) -> (events: Vec<Event>)
        ensures
            final(self).captures() == old(self).captures(),
            event_views(events@) == old(self)@.ticked(now).events,
            final(self)@ == (CoreState { events: Seq::empty(), ..old(self)@.ticked(now) }),
            old(self)@.sound() ==> final(self)@.sound(),
    {
        proof {
            if self@.sound() {
                ticking_is_sound(self@, now);
            }
        }
        self.core.drain(now)
    }

    /// Replaces the mappings and the escape hold. Where this succeeds the switch state machine is
    /// made anew from the same mappings.
    pub fn configure(&mut self, mappings: &[Mapping], escape_ms: u64) -> (r: Result<
        (),
        BrokerError,
    >)
        ensures
            final(self).captures() == old(self).captures(),
            final(self)@ == old(self)@.configured(
                old(self).captures(),
                mapping_views(mappings@),
                escape_ms,
            ),
            match old(self)@.configure_fault(
                old(self).captures(),
                mapping_views(mappings@),
                escape_ms,
            ) {
                Some(fault) => r matches Err(e) && e@ == fault,
                None => r is Ok,
            },
            old(self)@.sound() ==> final(self)@.sound(),
    {
        let ghost views = mapping_views(mappings@);
        let platform = self.platform;
        proof {
            if self@.sound() {
                configuring_is_sound(self@, platform, views, escape_ms);
            }
        }
        if self.core.status.mode != Mode::Off {
            return Err(BrokerError::NotOff);
        }
        if mappings.len() > MAPPING_LIMIT || escape_ms < MINIMUM_ESCAPE_MS {
            return Err(BrokerError::InvalidLimits);
        }
        let keys = match read_mappings(platform, mappings) {
            Ok(keys) => keys,
            Err(e) => {
                return Err(e);
            },
        };
        self.core.mappings = keys;
        self.core.escape_ms = escape_ms;
        Ok(())
    }

    /// What has to be done about the native hook before capture begins, where `running` says
    /// whether there is one.
    pub fn prepare(&self, running: bool) -> (r: Result<NativeStep, BrokerError>)
        ensures
            match self@.prepare_fault(self.captures()) {
                Some(fault) => r matches Err(e) && e@ == fault,
                None => r == Ok::<NativeStep, BrokerError>(
                    if !running {
                        NativeStep::Start
                    } else if self@.native_lost {
                        NativeStep::Restart
                    } else {
                        NativeStep::Keep
                    },
                ),
            },
    {
        if self.core.status.mode != Mode::Off {
            return Err(BrokerError::AlreadyActive);
        }
        if self.platform == Platform::Other {
            return Err(BrokerError::UnsupportedPlatform);
        }
        if !running {
            Ok(NativeStep::Start)
        } else if self.core.native_lost {
            Ok(NativeStep::Restart)
        } else {
            Ok(NativeStep::Keep)
        }
    }

    /// Begins a new generation, where the native hook is up.
    fn begin(&mut self, mode: Mode, native: Result<(), String>, now: u64) -> (r: Result<
        u64,
        BrokerError,
    >)
        ensures
            final(self).captures() == old(self).captures(),
            final(self)@ == old(self)@.begin_tried(
                old(self).captures(),
                failure_text(native),
                mode,
                now,
            ),
            match old(self)@.begin_fault(old(self).captures(), failure_text(native)) {
                Some(fault) => r matches Err(e) && e@ == fault,
                None => r matches Ok(generation) && generation == final(self)@.status.generation,
            },
            old(self)@.sound() ==> final(self)@.sound(),
    {
        proof {
            if self@.sound() && self@.begin_fault(self.platform, failure_text(native)) is None {
                beginning_is_sound(self@, mode, now);
            }
        }
        match self.prepare(true) {
            Ok(_) => {},
            Err(e) => {
                return Err(e);
            },
        }
        match native {
            Ok(()) => {},
            Err(text) => {
                return Err(BrokerError::NativeFailed(text));
            },
        }
        if self.core.native_lost {
            return Err(BrokerError::NativeLost);
        }
        if !self.core.physical.is_empty() || !self.core.down.is_empty() {
            return Err(BrokerError::SwitchHeld);
        }
        self.core.begin(mode, now);
        Ok(self.core.status.generation)
    }

    /// Begins to capture switches; the result is the new generation. `native` is the outcome of
    /// bringing up the native hook as [`EmbeddedBroker::prepare`] asks, which for a hook that is
    /// started is what [`crate::embedded::native::startup_outcome`] makes of its answer. Where the
    /// hook is not up, that is the answer, and nothing changes.
    pub fn enable(&mut self, native: Result<(), String>, now: u64) -> (r: Result<
        u64,
        BrokerError,
    >)
        ensures
            final(self).captures() == old(self).captures(),
            final(self)@ == old(self)@.begin_tried(
                old(self).captures(),
                failure_text(native),
                Mode::Active,
                now,
            ),
            match old(self)@.begin_fault(old(self).captures(), failure_text(native)) {
                Some(fault) => r matches Err(e) && e@ == fault,
                None => r matches Ok(generation) && generation == final(self)@.status.generation,
            },
            old(self)@.sound() ==> final(self)@.sound(),
    {
        self.begin(Mode::Active, native, now)
    }

    /// Begins to learn one key; the result is the new generation, and `native` is as for
    /// [`EmbeddedBroker::enable`].
    pub fn learn(&mut self, native: Result<(), String>, now: u64) -> (r: Result<
        u64,
        BrokerError,
    >)
        ensures
            final(self).captures() == old(self).captures(),
            final(self)@ == old(self)@.begin_tried(
                old(self).captures(),
                failure_text(native),
                Mode::Learning,
                now,
            ),
            match old(self)@.begin_fault(old(self).captures(), failure_text(native)) {
                Some(fault) => r matches Err(e) && e@ == fault,
                None => r matches Ok(generation) && generation == final(self)@.status.generation,
            },
            old(self)@.sound() ==> final(self)@.sound(),
    {
        self.begin(Mode::Learning, native, now)
    }

    /// The broker's clock: the milliseconds since it was made, as far as they fit.
    pub fn monotonic_ms(elapsed_ms: u128) -> (r: u64)
        ensures
            r == if elapsed_ms <= u64::MAX {
                elapsed_ms as u64
            } else {
                u64::MAX
            },
    {
        if elapsed_ms <= u64::MAX as u128 {
            elapsed_ms as u64
        } else {
            u64::MAX
        }
    }

    /// Ends capture for good: no key counts as held any more, for the native hook is gone.
    pub fn shutdown(&mut self)
        ensures
            final(self).captures() == old(self).captures(),
            final(self)@ == (CoreState {
                physical: Set::empty(),
                down: Set::empty(),
                ..old(self)@.stopped(StopReason::Disabled)
            }),
            old(self)@.sound() ==> final(self)@.sound(),
    {
        self.stop();
        self.core.physical.clear();
        self.core.down.clear();
    }

    /// Pauses capture.
    pub fn stop(&mut self)
        ensures
            final(self).captures() == old(self).captures(),
            final(self)@ == old(self)@.stopped(StopReason::Disabled),
            old(self)@.sound() ==> final(self)@.sound(),
    {
        self.core.stop(StopReason::Disabled);
    }

    /// Takes a key edge of the native hook; see [`Core::key`].
    pub fn key<F: FnOnce(String, Action, bool) -> Option<String>>(
        &mut self,
        code: &str,
        pressed: bool,
        now: u64,
        apply: F,
    ) -> (consumed: bool)
        requires
            may_ask(apply, old(self)@.keyed(code@, pressed, now).1),
        ensures
            final(self).captures() == old(self).captures(),
            key_taken(old(self)@, code@, pressed, now, apply, final(self)@, consumed),
            old(self)@.sound() ==> final(self)@.sound(),
    {
        let consumed = self.core.key(code, pressed, now, apply);
        proof {
            if old(self)@.sound() {
                key_edges_are_sound(old(self)@, code@, pressed, now, None);
                if let KeyStepView::Apply { mapping_id, action, release_first } = old(self)@.keyed(
                    code@,
                    pressed,
                    now,
                ).1 {
                    let edge = choose|edge: Option<String>|
                        {
                            &&& #[trigger] reports(apply, mapping_id, action, release_first, edge)
                            &&& self.core@ == old(self)@.keyed(code@, pressed, now).0.settled(
                                action,
                                optional_text(edge),
                                now,
                            )
                        };
                    key_edges_are_sound(old(self)@, code@, pressed, now, optional_text(edge));
                }
            }
        }
        consumed
    }

    /// Ends capture where a heartbeat or a release is overdue.
    pub fn tick(&mut self, now: u64)
        ensures
            final(self).captures() == old(self).captures(),
            final(self)@ == old(self)@.ticked(now),
            old(self)@.sound() ==> final(self)@.sound(),
    {
        proof {
            if self@.sound() {
                ticking_is_sound(self@, now);
            }
        }
        self.core.tick(now);
    }

    /// The native hook no longer sees input.
    pub fn lost(&mut self)
        ensures
            final(self).captures() == old(self).captures(),
            final(self)@ == old(self)@.native_failed(),
            old(self)@.sound() ==> final(self)@.sound(),
    {
        proof {
            if self@.sound() {
                stopping_is_sound(self@, StopReason::CaptureLost);
            }
        }
        self.core.lost();
    }

    /// The native hook is up and sees exactly the keys of `down` held.
    pub fn ready(&mut self, down: NameSet)
        ensures
            final(self).captures() == old(self).captures(),
            final(self)@ == old(self)@.native_ready(down@),
            old(self)@.sound() && (old(self)@.status.mode is Off || !down@.contains("Escape"@))
                ==> final(self)@.sound(),
    {
        proof {
            if self@.sound() && (self@.status.mode is Off || !down@.contains("Escape"@)) {
                readiness_is_sound(self@, down@);
            }
        }
        self.core.ready(down);
    }

    /// Whether the switch state machine is to release every switch now; see
    /// [`Core::take_release`].
    pub fn take_release(&mut self) -> (due: bool)
        ensures
            final(self).captures() == old(self).captures(),
            due == old(self)@.release_due,
            final(self)@ == (CoreState { release_due: false, ..old(self)@ }),
            old(self)@.sound() ==> final(self)@.sound(),
    {
        self.core.take_release()
    }
}

/// Reads the mapping of each key, up to the first faulty mapping.
fn read_mappings(platform: Platform, mappings: &[Mapping]) -> (r: Result<
    NameMap<String>,
    BrokerError,
>)
    ensures
        match first_fault(platform, mapping_views(mappings@), mappings@.len()) {
            Some(fault) => r matches Err(e) && e@ == fault,
            None => r matches Ok(keys) && keys@ == key_map(
                mapping_views(mappings@),
                mappings@.len(),
            ),
        },
{
    let ghost views = mapping_views(mappings@);
    let mut keys: NameMap<String> = NameMap::new();
    let mut ids = NameSet::new();
    let mut i: usize = 0;
    while i < mappings.len()
        invariant
            i <= mappings@.len(),
            views == mapping_views(mappings@),
            first_fault(platform, views, i as nat) is None,
            keys@ == key_map(views, i as nat),
            forall|id: Seq<char>| #[trigger]
                ids@.contains(id) <==> exists|j: int| 0 <= j < i && (#[trigger] views[j]).id == id,
        decreases mappings@.len() - i,
    {
        let m = &mappings[i];
        assert(views[i as int] == m@);
        proof {
            mapped_keys_are_normalized(platform, views, i as nat);
            assert(first_fault(platform, views, (i + 1) as nat) == mapping_fault(
                platform,
                views,
                i as int,
            ));
            if mapping_fault(platform, views, i as int) is Some {
                lemma_fault_stays(platform, views, (i + 1) as nat, views.len());
            }
        }
        let ghost known = ids@;
        if m.input != InputKind::Keyboard || m.device.is_some() || m.switch_id.as_str().trim().is_empty()
            || !ids.insert(m.id.as_str()) {
            return Err(BrokerError::InvalidMapping);
        }
        let code = match normalize(m.code.as_str()) {
            Some(code) => code,
            None => {
                return Err(BrokerError::UnsupportedKey(m.code.clone()));
            },
        };
        if same_text(code.as_str(), "Escape") || !supported_key(platform, code.as_str()) {
            return Err(BrokerError::ReservedKey(code));
        }
        if !keys.insert(code.as_str(), m.id.clone()) {
            return Err(BrokerError::DuplicateKey);
        }
        proof {
            assert forall|id: Seq<char>| #[trigger]
                ids@.contains(id) <==> exists|j: int|
                    0 <= j < i + 1 && (#[trigger] views[j]).id == id by {
                if ids@.contains(id) {
                    if id == m.id@ {
                        assert(views[i as int].id == id);
                    } else {
                        assert(known.contains(id));
                    }
                }
                if exists|j: int| 0 <= j < i + 1 && (#[trigger] views[j]).id == id {
                    let j = choose|j: int| 0 <= j < i + 1 && (#[trigger] views[j]).id == id;
                    if j < i {
                        assert(known.contains(id));
                    }
                }
            }
        }
        i = i + 1;
    }
    Ok(keys)
}

/// A fault that is found early is the fault of the whole.
proof fn lemma_fault_stays(platform: Platform, mappings: Seq<MappingView>, i: nat, n: nat)
    requires
        i <= n,
        first_fault(platform, mappings, i) is Some,
    ensures
        first_fault(platform, mappings, n) == first_fault(platform, mappings, i),
    decreases n,
{
    if i < n {
        lemma_fault_stays(platform, mappings, i, (n - 1) as nat);
    }
}

} // verus!
