//! The start of the native keyboard hook.

use vstd::prelude::*;
use crate::embedded::broker::{BrokerErrorView, Platform};
use crate::embedded::keys::{names_are_distinct, KeyName};
use crate::embedded::{macos, windows};
use crate::names::NameSet;

verus! {

/// What the thread of the native hook answered.
#[derive(Debug)]
pub enum StartupReply {
    /// The hook is installed.
    Ready,
    /// The hook was not installed, for this cause.
    Failed(String),
    /// No answer came in time.
    Silent,
}

/// The text that reports a failed start, if the start failed.
pub open spec fn startup_failure(platform: Platform, reply: StartupReply) -> Option<Seq<char>> {
    match (platform, reply) {
        (Platform::Other, _) => Some(BrokerErrorView::UnsupportedPlatform.message()),
        (_, StartupReply::Ready) => None,
        (Platform::Windows, StartupReply::Failed(cause)) => Some(
            "Windows switch capture could not start: "@ + cause@,
        ),
        (Platform::Windows, StartupReply::Silent) => Some(
            "Windows switch capture did not acknowledge startup."@,
        ),
        (Platform::MacOs, StartupReply::Failed(cause)) => Some(cause@),
        (Platform::MacOs, StartupReply::Silent) => Some(
            "macOS switch capture did not acknowledge startup."@,
        ),
    }
}

/// Whether the native hook is up, and how a failure is reported.
pub fn startup_outcome(platform: Platform, reply: StartupReply) -> (r: Result<(), String>)
    ensures
        match startup_failure(platform, reply) {
            Some(text) => r matches Err(message) && message@ == text,
            None => r is Ok,
        },
{
    if platform == Platform::Other {
        return Err(
            "Embedded keyboard capture is supported on Windows and macOS.".to_owned(),
        );
    }
    match reply {
        StartupReply::Ready => Ok(()),
        StartupReply::Failed(cause) => if platform == Platform::Windows {
            Err("Windows switch capture could not start: ".to_owned().concat(cause.as_str()))
        } else {
            Err(cause)
        },
        StartupReply::Silent => if platform == Platform::Windows {
            Err("Windows switch capture did not acknowledge startup.".to_owned())
        } else {
            Err("macOS switch capture did not acknowledge startup.".to_owned())
        },
    }
}

/// The answer of the thread on macOS where the system refuses the event tap.
pub fn tap_refused() -> (r: StartupReply)
    ensures
        r matches StartupReply::Failed(text) && text@
            == "Grant Accessibility permission to the host application before enabling switches."@,
{
    StartupReply::Failed(
        "Grant Accessibility permission to the host application before enabling switches.".to_owned(),
    )
}

/// Whether a virtual-key code of the list belongs to the key of that name on Windows.
pub open spec fn windows_holds(codes: Seq<u32>, name: Seq<char>) -> bool {
    exists|i: int|
        0 <= i < codes.len() && windows::key_at(#[trigger] codes[i]) is Some && windows::key_at(
            codes[i],
        )->0.text() == name
}

/// The names of the keys that are held on Windows, from their virtual-key codes.
pub fn windows_held_keys(codes: &[u32]) -> (r: NameSet)
    ensures
        forall|name: Seq<char>| #[trigger]
            r@.contains(name) <==> windows_holds(codes@, name),
{
    let mut held = NameSet::new();
    let mut i: usize = 0;
    while i < codes.len()
        invariant
            i <= codes@.len(),
            forall|name: Seq<char>| #[trigger]
                held@.contains(name) <==> windows_holds(codes@.take(i as int), name),
        decreases codes@.len() - i,
    {
        let ghost known = held@;
        let ghost done = codes@.take(i as int);
        let ghost next = codes@.take(i + 1);
        let found = windows::name_for_code(codes[i]);
        if let Some(name) = &found {
            held.insert(name.as_str());
        }
        proof {
            assert(next =~= done.push(codes@[i as int]));
            assert forall|name: Seq<char>| #[trigger]
                held@.contains(name) <==> windows_holds(next, name) by {
                if windows_holds(done, name) {
                    let j = choose|j: int|
                        0 <= j < done.len() && windows::key_at(#[trigger] done[j]) is Some
                            && windows::key_at(done[j])->0.text() == name;
                    assert(next[j] == done[j]);
                }
                if windows_holds(next, name) {
                    let j = choose|j: int|
                        0 <= j < next.len() && windows::key_at(#[trigger] next[j]) is Some
                            && windows::key_at(next[j])->0.text() == name;
                    if j < i {
                        assert(done[j] == next[j]);
                        assert(known.contains(name));
                    }
                }
                if held@.contains(name) && !known.contains(name) {
                    assert(next[i as int] == codes@[i as int]);
                }
            }
        }
        i = i + 1;
    }
    assert(codes@.take(i as int) =~= codes@);
    held
}

/// Whether a virtual key code of the list belongs to the key of that name on macOS.
pub open spec fn macos_holds(codes: Seq<u16>, name: Seq<char>) -> bool {
    exists|i: int|
        0 <= i < codes.len() && macos::key_at(#[trigger] codes[i]) is Some && macos::key_at(
            codes[i],
        )->0.text() == name
}

/// The names of the keys that are held on macOS, from their virtual key codes.
pub fn macos_held_keys(codes: &[u16]) -> (r: NameSet)
    ensures
        forall|name: Seq<char>| #[trigger]
            r@.contains(name) <==> macos_holds(codes@, name),
{
    let mut held = NameSet::new();
    let mut i: usize = 0;
    while i < codes.len()
        invariant
            i <= codes@.len(),
            forall|name: Seq<char>| #[trigger]
                held@.contains(name) <==> macos_holds(codes@.take(i as int), name),
        decreases codes@.len() - i,
    {
        let ghost known = held@;
        let ghost done = codes@.take(i as int);
        let ghost next = codes@.take(i + 1);
        let found = macos::name_for_code(codes[i]);
        if let Some(name) = &found {
            held.insert(name.as_str());
        }
        proof {
            assert(next =~= done.push(codes@[i as int]));
            assert forall|name: Seq<char>| #[trigger]
                held@.contains(name) <==> macos_holds(next, name) by {
                if macos_holds(done, name) {
                    let j = choose|j: int|
                        0 <= j < done.len() && macos::key_at(#[trigger] done[j]) is Some
                            && macos::key_at(done[j])->0.text() == name;
                    assert(next[j] == done[j]);
                }
                if macos_holds(next, name) {
                    let j = choose|j: int|
                        0 <= j < next.len() && macos::key_at(#[trigger] next[j]) is Some
                            && macos::key_at(next[j])->0.text() == name;
                    if j < i {
                        assert(done[j] == next[j]);
                        assert(known.contains(name));
                    }
                }
                if held@.contains(name) && !known.contains(name) {
                    assert(next[i as int] == codes@[i as int]);
                }
            }
        }
        i = i + 1;
    }
    assert(codes@.take(i as int) =~= codes@);
    held
}

/// The key edge that a call of the low-level keyboard hook on Windows reports, if it reports one
/// of a key that has a name: the key's canonical name and whether it is a press.
pub fn windows_edge(code: i32, message: u32, key: u32) -> (r: Option<(String, bool)>)
    ensures
        match r {
            Some((name, pressed)) => {
                &&& windows::edge_of(code, message) == Some(pressed)
                &&& windows::key_at(key) matches Some(k)
                &&& name@ == k.text()
            },
            None => windows::edge_of(code, message) is None || windows::key_at(key) is None,
        },
{
    match windows::hook_edge(code, message) {
        Some(pressed) => match windows::name_for_code(key) {
            Some(name) => Some((name, pressed)),
            None => None,
        },
        None => None,
    }
}

/// What the message loop of the hook on Windows does next.
#[derive(Debug, Clone, Copy, PartialEq, Eq, Structural)]
pub enum LoopStep {
    /// The timer has come round: time passes for capture.
    Tick,
    /// The message is handed on.
    Dispatch,
    /// The loop ends as asked.
    Finish,
    /// The loop ends unasked, and with it capture.
    Lost,
}

/// What the message loop of the hook on Windows does with the result of waiting for a message,
/// where `stopping` says whether it was asked to end and `timer` whether the message is the
/// timer's.
pub fn loop_step(result: i32, stopping: bool, timer: bool) -> (r: LoopStep)
    ensures
        r == if result <= 0 {
            if stopping {
                LoopStep::Finish
            } else {
                LoopStep::Lost
            }
        } else if timer {
            LoopStep::Tick
        } else {
            LoopStep::Dispatch
        },
{
    if result <= 0 {
        if stopping {
            LoopStep::Finish
        } else {
            LoopStep::Lost
        }
    } else if timer {
        LoopStep::Tick
    } else {
        LoopStep::Dispatch
    }
}

/// What the event tap on macOS was called with.
#[derive(Debug, Clone, Copy, PartialEq, Eq, Structural)]
pub enum TapKind {
    KeyDown,
    KeyUp,
    /// Anything else; the tap listens to keys only, so this tells that it was disabled.
    Other,
}

/// What the event tap on macOS does.
#[derive(Debug)]
pub enum TapStep {
    /// Capture is lost, and the event passes.
    Lost,
    /// The edge of a key that has a name goes to capture, which says whether it is withheld.
    Edge { name: String, pressed: bool },
    /// The event passes.
    Keep,
}

/// What the event tap on macOS does with an event, where `code` is its virtual key code.
pub fn tap_step(kind: TapKind, code: u16) -> (r: TapStep)
    ensures
        match r {
            TapStep::Lost => kind is Other,
            TapStep::Edge { name, pressed } => {
                &&& !(kind is Other)
                &&& pressed == (kind is KeyDown)
                &&& macos::key_at(code) matches Some(k)
                &&& name@ == k.text()
            },
            TapStep::Keep => !(kind is Other) && macos::key_at(code) is None,
        },
{
    if kind == TapKind::Other {
        return TapStep::Lost;
    }
    match macos::name_for_code(code) {
        Some(name) => TapStep::Edge { name, pressed: kind == TapKind::KeyDown },
        None => TapStep::Keep,
    }
}

/// A hook that is up is no failure where keyboards can be captured; a hook that was not installed
/// is reported with its cause, and one that did not answer as silent. Elsewhere every start fails.
pub proof fn starts_are_reported_with_their_cause(cause: String, reply: StartupReply)
    ensures
        startup_failure(Platform::Windows, StartupReply::Ready) is None,
        startup_failure(Platform::MacOs, StartupReply::Ready) is None,
        startup_failure(Platform::Windows, StartupReply::Failed(cause)) == Some(
            "Windows switch capture could not start: "@ + cause@,
        ),
        startup_failure(Platform::MacOs, StartupReply::Failed(cause)) == Some(cause@),
        startup_failure(Platform::Windows, StartupReply::Silent) == Some(
            "Windows switch capture did not acknowledge startup."@,
        ),
        startup_failure(Platform::MacOs, StartupReply::Silent) == Some(
            "macOS switch capture did not acknowledge startup."@,
        ),
        startup_failure(Platform::Other, reply) == Some(
            "Embedded keyboard capture is supported on Windows and macOS."@,
        ),
{
}

/// A key is held exactly where its code is in the list.
pub proof fn held_keys_are_those_of_the_codes(
    k: KeyName,
    windows_codes: Seq<u32>,
    macos_codes: Seq<u16>,
)
    requires
        k.valid(),
    ensures
        windows_holds(windows_codes, k.text()) <==> exists|i: int|
            0 <= i < windows_codes.len() && windows::named_code(k.text()) == Some(
                #[trigger] windows_codes[i],
            ),
        macos_holds(macos_codes, k.text()) <==> exists|i: int|
            0 <= i < macos_codes.len() && macos::named_code(k.text()) == Some(
                #[trigger] macos_codes[i],
            ),
{
    windows::canonical_names_have_codes(k);
    windows::key_at_own_code(k);
    macos::canonical_names_have_codes(k);
    if macos::key_code(k) is Some {
        macos::key_at_own_code(k);
    }
    if windows_holds(windows_codes, k.text()) {
        let i = choose|i: int|
            0 <= i < windows_codes.len() && windows::key_at(#[trigger] windows_codes[i]) is Some
                && windows::key_at(windows_codes[i])->0.text() == k.text();
        names_are_distinct(windows::key_at(windows_codes[i])->0, k);
        windows::names_and_codes_are_inverse(k, windows_codes[i]);
        assert(windows::named_code(k.text()) == Some(windows_codes[i]));
    }
    if macos_holds(macos_codes, k.text()) {
        let i = choose|i: int|
            0 <= i < macos_codes.len() && macos::key_at(#[trigger] macos_codes[i]) is Some
                && macos::key_at(macos_codes[i])->0.text() == k.text();
        names_are_distinct(macos::key_at(macos_codes[i])->0, k);
        macos::names_and_codes_are_inverse(k, macos_codes[i]);
        assert(macos::named_code(k.text()) == Some(macos_codes[i]));
    }
}

/// The message loop ends exactly where waiting for a message did not give one, and only a loop
/// that was not asked to end loses capture. A message of the timer makes time pass, any other is
/// handed on.
pub proof fn of_the_message_loop(result: i32, stopping: bool, timer: bool, r: LoopStep)
    requires
        call_ensures(loop_step, (result, stopping, timer), r),
    ensures
        r is Lost <==> result <= 0 && !stopping,
        r is Finish <==> result <= 0 && stopping,
        r is Tick <==> result > 0 && timer,
        r is Dispatch <==> result > 0 && !timer,
{
}

/// A key event of a key that has a name goes to capture under that name, as what it is; one of any
/// other key passes; and anything but a key event tells that capture is lost.
pub proof fn of_the_event_tap(kind: TapKind, code: u16, k: KeyName, r: TapStep)
    requires
        call_ensures(tap_step, (kind, code), r),
        k.valid(),
    ensures
        r is Lost <==> kind is Other,
        !(kind is Other) && macos::named_code(k.text()) == Some(code) ==> {
            &&& r matches TapStep::Edge { name, pressed }
            &&& name@ == k.text()
            &&& pressed <==> kind is KeyDown
        },
{
    macos::names_and_codes_are_inverse(k, code);
}

/// An edge of a key that has a name is reported under that name, as the press or release that the
/// message tells of; nothing is reported of any other message.
pub proof fn of_the_keyboard_hook(
    code: i32,
    message: u32,
    key: u32,
    k: KeyName,
    r: Option<(String, bool)>,
)
    requires
        call_ensures(windows_edge, (code, message, key), r),
        k.valid(),
    ensures
        windows::edge_of(code, message) is None ==> r is None,
        windows::edge_of(code, message) is Some && windows::named_code(k.text()) == Some(key)
            ==> {
            &&& r matches Some((name, pressed))
            &&& name@ == k.text()
            &&& windows::edge_of(code, message) == Some(pressed)
        },
{
    windows::names_and_codes_are_inverse(k, key);
}

} // verus!
