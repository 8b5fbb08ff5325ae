//! Windows virtual-key codes.

use vstd::prelude::*;
use crate::embedded::keys::{
    canonical_names_are_stable, key_named, key_named_by_text, key_of,
    lemma_function_key_by_letter, normalized, KeyName,
};
use crate::text::{decimal, decimal_reads_back, number_up_to, number_value};

verus! {

/// The virtual-key code of a key.
pub open spec fn key_code(k: KeyName) -> u32 {
    match k {
        KeyName::Space => 32,
        KeyName::Enter => 13,
        KeyName::Backspace => 8,
        KeyName::Tab => 9,
        KeyName::Escape => 27,
        KeyName::ArrowUp => 38,
        KeyName::ArrowDown => 40,
        KeyName::ArrowLeft => 37,
        KeyName::ArrowRight => 39,
        KeyName::Home => 36,
        KeyName::End => 35,
        KeyName::PageUp => 33,
        KeyName::PageDown => 34,
        KeyName::Insert => 45,
        KeyName::Delete => 46,
        KeyName::Symbol(c) => c as u32,
        KeyName::Function(n) => (0x70 + n - 1) as u32,
    }
}

/// The number behind the letter `F`, where the name is the letter and a number from 1 to 24. The
/// number may be written with a plus sign or leading zeros.
pub open spec fn function_number(name: Seq<char>) -> Option<nat> {
    if name.len() > 0 && name[0] == 'F' {
        match number_value(name.skip(1)) {
            Some(n) => if 1 <= n <= 24 {
                Some(n)
            } else {
                None
            },
            None => None,
        }
    } else {
        None
    }
}

/// The virtual-key code that a name stands for: that of a canonical name, or that of a function
/// key.
pub open spec fn named_code(name: Seq<char>) -> Option<u32> {
    match key_named(name) {
        Some(k) => Some(key_code(k)),
        None => match function_number(name) {
            Some(n) => Some((0x70 + n - 1) as u32),
            None => None,
        },
    }
}

/// The virtual-key code of a key name.
pub fn code_for_name(name: &str) -> (r: Option<u32>)
    ensures
        r == named_code(name@),
{
    match key_of(name) {
        Some(k) => Some(
            match k {
                KeyName::Space => 32,
                KeyName::Enter => 13,
                KeyName::Backspace => 8,
                KeyName::Tab => 9,
                KeyName::Escape => 27,
                KeyName::ArrowUp => 38,
                KeyName::ArrowDown => 40,
                KeyName::ArrowLeft => 37,
                KeyName::ArrowRight => 39,
                KeyName::Home => 36,
                KeyName::End => 35,
                KeyName::PageUp => 33,
                KeyName::PageDown => 34,
                KeyName::Insert => 45,
                KeyName::Delete => 46,
                KeyName::Symbol(c) => c as u32,
                KeyName::Function(n) => 0x70 + n as u32 - 1,
            },
        ),
        None => {
            if name.unicode_len() == 0 || name.get_char(0) != 'F' {
                return None;
            }
            match number_up_to(name, 1, 24) {
                Some(n) => if n >= 1 {
                    Some(0x70 + n - 1)
                } else {
                    None
                },
                None => None,
            }
        },
    }
}

/// The key that a virtual-key code belongs to, if it belongs to one.
pub open spec fn key_at(code: u32) -> Option<KeyName> {
    if exists|k: KeyName| k.valid() && #[trigger] key_code(k) == code {
        Some(choose|k: KeyName| k.valid() && #[trigger] key_code(k) == code)
    } else {
        None
    }
}

/// The key that a virtual-key code belongs to.
fn key_for_code(code: u32) -> (r: Option<KeyName>)
    ensures
        r == key_at(code),
        r matches Some(k) ==> k.valid(),
{
    let r = match code {
        32 => Some(KeyName::Space),
        13 => Some(KeyName::Enter),
        8 => Some(KeyName::Backspace),
        9 => Some(KeyName::Tab),
        27 => Some(KeyName::Escape),
        38 => Some(KeyName::ArrowUp),
        40 => Some(KeyName::ArrowDown),
        37 => Some(KeyName::ArrowLeft),
        39 => Some(KeyName::ArrowRight),
        36 => Some(KeyName::Home),
        35 => Some(KeyName::End),
        33 => Some(KeyName::PageUp),
        34 => Some(KeyName::PageDown),
        45 => Some(KeyName::Insert),
        46 => Some(KeyName::Delete),
        _ => {
            if (0x30 <= code && code <= 0x39) || (0x41 <= code && code <= 0x5a) {
                let byte = code as u8;
                Some(KeyName::Symbol(byte as char))
            } else if 0x70 <= code && code <= 0x87 {
                Some(KeyName::Function((code - 0x70 + 1) as u8))
            } else {
                None
            }
        },
    };
    proof {
        if let Some(k) = r {
            let chosen = choose|c: KeyName| c.valid() && #[trigger] key_code(c) == key_code(k);
            codes_are_distinct(chosen, k);
        }
    }
    r
}

/// The canonical name of the key that a virtual-key code belongs to.
pub fn name_for_code(code: u32) -> (r: Option<String>)
    ensures
        r is Some == key_at(code) is Some,
        r matches Some(name) ==> name@ == key_at(code)->0.text(),
{
    match key_for_code(code) {
        Some(k) => Some(k.name()),
        None => None,
    }
}

/// The hook message of a key press.
pub const KEY_DOWN: u32 = 0x100;

/// The hook message of a key release.
pub const KEY_UP: u32 = 0x101;

/// The hook message of a key press while Alt is held.
pub const SYSTEM_KEY_DOWN: u32 = 0x104;

/// The hook message of a key release while Alt is held.
pub const SYSTEM_KEY_UP: u32 = 0x105;

/// Whether a call of the low-level keyboard hook reports a key edge, and if so whether it is a
/// press. Calls with a negative code are only passed on.
pub open spec fn edge_of(code: i32, message: u32) -> Option<bool> {
    if code < 0 {
        None
    } else if message == KEY_DOWN || message == SYSTEM_KEY_DOWN {
        Some(true)
    } else if message == KEY_UP || message == SYSTEM_KEY_UP {
        Some(false)
    } else {
        None
    }
}

/// Whether a call of the low-level keyboard hook reports a key edge, and if so whether it is a
/// press.
pub fn hook_edge(code: i32, message: u32) -> (pressed: Option<bool>)
    ensures
        pressed == edge_of(code, message),
{
    if code < 0 {
        None
    } else if message == KEY_DOWN || message == SYSTEM_KEY_DOWN {
        Some(true)
    } else if message == KEY_UP || message == SYSTEM_KEY_UP {
        Some(false)
    } else {
        None
    }
}

/// No two keys share a virtual-key code.
pub proof fn codes_are_distinct(a: KeyName, b: KeyName)
    requires
        a.valid(),
        b.valid(),
        key_code(a) == key_code(b),
    ensures
        a == b,
{
}

/// Every canonical name stands for the virtual-key code of its key.
pub proof fn canonical_names_have_codes(k: KeyName)
    requires
        k.valid(),
    ensures
        named_code(k.text()) == Some(key_code(k)),
{
    key_named_by_text(k);
}

/// Every normalized key name, from F1 to F24 too, is supported on Windows.
pub proof fn normalized_names_are_supported(s: Seq<char>)
    requires
        normalized(s) is Some,
    ensures
        named_code(normalized(s)->0) is Some,
{
}

/// The letter `F` before a number is supported from F1 to F24 and for no other number.
pub proof fn function_keys_run_to_24(n: nat)
    ensures
        named_code(seq!['F'] + decimal(n)) is Some <==> 1 <= n <= 24,
{
    let name = seq!['F'] + decimal(n);
    assert(name.skip(1) =~= decimal(n));
    decimal_reads_back(n);
    if let Some(k) = key_named(name) {
        lemma_function_key_by_letter(k, n);
    }
}

/// The code of a key belongs to that key.
pub proof fn key_at_own_code(k: KeyName)
    requires
        k.valid(),
    ensures
        key_at(key_code(k)) == Some(k),
{
    let code = key_code(k);
    let chosen = choose|c: KeyName| c.valid() && #[trigger] key_code(c) == code;
    codes_are_distinct(chosen, k);
}

/// Names and codes lead back to each other: a key's code gives the key's canonical name, and the
/// name that belongs to a code stands for that code.
pub proof fn names_and_codes_are_inverse(k: KeyName, code: u32)
    requires
        k.valid(),
    ensures
        named_code(k.text()) matches Some(c) && key_at(c) == Some(k),
        key_at(code) matches Some(found) ==> named_code(found.text()) == Some(code),
{
    canonical_names_have_codes(k);
    key_at_own_code(k);
    if let Some(found) = key_at(code) {
        canonical_names_have_codes(found);
    }
}

/// Letters and digits have their character code, function keys the codes from 0x70 on, and the
/// named keys the codes that the system documents.
pub proof fn documented_codes(c: char, n: nat)
    ensures
        'A' <= c <= 'Z' || '0' <= c <= '9' ==> named_code(seq![c]) == Some(c as u32),
        1 <= n <= 24 ==> named_code(seq!['F'] + decimal(n)) == Some((0x6f + n) as u32),
        named_code("Space"@) == Some(32u32),
        named_code("Enter"@) == Some(13u32),
        named_code("Backspace"@) == Some(8u32),
        named_code("Tab"@) == Some(9u32),
        named_code("Escape"@) == Some(27u32),
        named_code("ArrowUp"@) == Some(38u32),
        named_code("ArrowDown"@) == Some(40u32),
        named_code("ArrowLeft"@) == Some(37u32),
        named_code("ArrowRight"@) == Some(39u32),
        named_code("Home"@) == Some(36u32),
        named_code("End"@) == Some(35u32),
        named_code("PageUp"@) == Some(33u32),
        named_code("PageDown"@) == Some(34u32),
        named_code("Insert"@) == Some(45u32),
        named_code("Delete"@) == Some(46u32),
{
    if 'A' <= c <= 'Z' || '0' <= c <= '9' {
        assert(KeyName::Symbol(c).text() == seq![c]);
        canonical_names_have_codes(KeyName::Symbol(c));
    }
    if 1 <= n <= 24 {
        assert(KeyName::Function(n as u8).text() == seq!['F'] + decimal(n));
        canonical_names_have_codes(KeyName::Function(n as u8));
    }
    canonical_names_have_codes(KeyName::Space);
    canonical_names_have_codes(KeyName::Enter);
    canonical_names_have_codes(KeyName::Backspace);
    canonical_names_have_codes(KeyName::Tab);
    canonical_names_have_codes(KeyName::Escape);
    canonical_names_have_codes(KeyName::ArrowUp);
    canonical_names_have_codes(KeyName::ArrowDown);
    canonical_names_have_codes(KeyName::ArrowLeft);
    canonical_names_have_codes(KeyName::ArrowRight);
    canonical_names_have_codes(KeyName::Home);
    canonical_names_have_codes(KeyName::End);
    canonical_names_have_codes(KeyName::PageUp);
    canonical_names_have_codes(KeyName::PageDown);
    canonical_names_have_codes(KeyName::Insert);
    canonical_names_have_codes(KeyName::Delete);
}

/// A name that is no canonical one stands for a code only where it is the letter `F` before a
/// number from 1 to 24, which may have a plus sign and leading zeros, and then for the code of
/// that function key.
pub proof fn other_names_with_codes(name: Seq<char>)
    requires
        normalized(name) is None,
    ensures
        named_code(name) is Some <==> {
            &&& name.len() > 0 && name[0] == 'F'
            &&& number_value(name.skip(1)) matches Some(n)
            &&& 1 <= n <= 24
        },
        named_code(name) matches Some(code) ==> code == 0x6f + number_value(name.skip(1))->0,
{
    if let Some(k) = key_named(name) {
        let k = choose|k: KeyName| k.valid() && #[trigger] k.text() == name;
        canonical_names_are_stable(k);
    }
}

/// A press is one of two messages, a release one of two others, each with a code that is not
/// negative; nothing else is an edge.
pub proof fn hook_messages(code: i32, message: u32)
    ensures
        edge_of(code, message) == Some(true) <==> code >= 0 && (message == 0x100 || message
            == 0x104),
        edge_of(code, message) == Some(false) <==> code >= 0 && (message == 0x101 || message
            == 0x105),
{
}

} // verus!
