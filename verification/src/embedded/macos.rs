//! macOS virtual key codes.

use vstd::prelude::*;
use crate::embedded::keys::{
    canonical_names_are_stable, key_named, key_named_by_text, key_of, normalized, KeyName,
};
use crate::text::decimal;

verus! {

/// The virtual key code of a key; function keys beyond F20 have none.
pub open spec fn key_code(k: KeyName) -> Option<u16> {
    match k {
        KeyName::Space => Some(49),
        KeyName::Enter => Some(36),
        KeyName::Backspace => Some(51),
        KeyName::Tab => Some(48),
        KeyName::Escape => Some(53),
        KeyName::ArrowUp => Some(126),
        KeyName::ArrowDown => Some(125),
        KeyName::ArrowLeft => Some(123),
        KeyName::ArrowRight => Some(124),
        KeyName::Home => Some(115),
        KeyName::End => Some(119),
        KeyName::PageUp => Some(116),
        KeyName::PageDown => Some(121),
        KeyName::Insert => Some(114),
        KeyName::Delete => Some(117),
        KeyName::Symbol('A') => Some(0),
        KeyName::Symbol('B') => Some(11),
        KeyName::Symbol('C') => Some(8),
        KeyName::Symbol('D') => Some(2),
        KeyName::Symbol('E') => Some(14),
        KeyName::Symbol('F') => Some(3),
        KeyName::Symbol('G') => Some(5),
        KeyName::Symbol('H') => Some(4),
        KeyName::Symbol('I') => Some(34),
        KeyName::Symbol('J') => Some(38),
        KeyName::Symbol('K') => Some(40),
        KeyName::Symbol('L') => Some(37),
        KeyName::Symbol('M') => Some(46),
        KeyName::Symbol('N') => Some(45),
        KeyName::Symbol('O') => Some(31),
        KeyName::Symbol('P') => Some(35),
        KeyName::Symbol('Q') => Some(12),
        KeyName::Symbol('R') => Some(15),
        KeyName::Symbol('S') => Some(1),
        KeyName::Symbol('T') => Some(17),
        KeyName::Symbol('U') => Some(32),
        KeyName::Symbol('V') => Some(9),
        KeyName::Symbol('W') => Some(13),
        KeyName::Symbol('X') => Some(7),
        KeyName::Symbol('Y') => Some(16),
        KeyName::Symbol('Z') => Some(6),
        KeyName::Symbol('0') => Some(29),
        KeyName::Symbol('1') => Some(18),
        KeyName::Symbol('2') => Some(19),
        KeyName::Symbol('3') => Some(20),
        KeyName::Symbol('4') => Some(21),
        KeyName::Symbol('5') => Some(23),
        KeyName::Symbol('6') => Some(22),
        KeyName::Symbol('7') => Some(26),
        KeyName::Symbol('8') => Some(28),
        KeyName::Symbol('9') => Some(25),
        KeyName::Function(1) => Some(122),
        KeyName::Function(2) => Some(120),
        KeyName::Function(3) => Some(99),
        KeyName::Function(4) => Some(118),
        KeyName::Function(5) => Some(96),
        KeyName::Function(6) => Some(97),
        KeyName::Function(7) => Some(98),
        KeyName::Function(8) => Some(100),
        KeyName::Function(9) => Some(101),
        KeyName::Function(10) => Some(109),
        KeyName::Function(11) => Some(103),
        KeyName::Function(12) => Some(111),
        KeyName::Function(13) => Some(105),
        KeyName::Function(14) => Some(107),
        KeyName::Function(15) => Some(113),
        KeyName::Function(16) => Some(106),
        KeyName::Function(17) => Some(64),
        KeyName::Function(18) => Some(79),
        KeyName::Function(19) => Some(80),
        KeyName::Function(20) => Some(90),
        _ => None,
    }
}

/// The virtual key code that a name stands for.
pub open spec fn named_code(name: Seq<char>) -> Option<u16> {
    match key_named(name) {
        Some(k) => key_code(k),
        None => None,
    }
}

/// The virtual key code of a key name.
pub fn code_for_name(name: &str) -> (r: Option<u16>)
    ensures
        r == named_code(name@),
{
    match key_of(name) {
        Some(k) => match k {
            KeyName::Space => Some(49),
            KeyName::Enter => Some(36),
            KeyName::Backspace => Some(51),
            KeyName::Tab => Some(48),
            KeyName::Escape => Some(53),
            KeyName::ArrowUp => Some(126),
            KeyName::ArrowDown => Some(125),
            KeyName::ArrowLeft => Some(123),
            KeyName::ArrowRight => Some(124),
            KeyName::Home => Some(115),
            KeyName::End => Some(119),
            KeyName::PageUp => Some(116),
            KeyName::PageDown => Some(121),
            KeyName::Insert => Some(114),
            KeyName::Delete => Some(117),
            KeyName::Symbol('A') => Some(0),
            KeyName::Symbol('B') => Some(11),
            KeyName::Symbol('C') => Some(8),
            KeyName::Symbol('D') => Some(2),
            KeyName::Symbol('E') => Some(14),
            KeyName::Symbol('F') => Some(3),
            KeyName::Symbol('G') => Some(5),
            KeyName::Symbol('H') => Some(4),
            KeyName::Symbol('I') => Some(34),
            KeyName::Symbol('J') => Some(38),
            KeyName::Symbol('K') => Some(40),
            KeyName::Symbol('L') => Some(37),
            KeyName::Symbol('M') => Some(46),
            KeyName::Symbol('N') => Some(45),
            KeyName::Symbol('O') => Some(31),
            KeyName::Symbol('P') => Some(35),
            KeyName::Symbol('Q') => Some(12),
            KeyName::Symbol('R') => Some(15),
            KeyName::Symbol('S') => Some(1),
            KeyName::Symbol('T') => Some(17),
            KeyName::Symbol('U') => Some(32),
            KeyName::Symbol('V') => Some(9),
            KeyName::Symbol('W') => Some(13),
            KeyName::Symbol('X') => Some(7),
            KeyName::Symbol('Y') => Some(16),
            KeyName::Symbol('Z') => Some(6),
            KeyName::Symbol('0') => Some(29),
            KeyName::Symbol('1') => Some(18),
            KeyName::Symbol('2') => Some(19),
            KeyName::Symbol('3') => Some(20),
            KeyName::Symbol('4') => Some(21),
            KeyName::Symbol('5') => Some(23),
            KeyName::Symbol('6') => Some(22),
            KeyName::Symbol('7') => Some(26),
            KeyName::Symbol('8') => Some(28),
            KeyName::Symbol('9') => Some(25),
            KeyName::Function(1) => Some(122),
            KeyName::Function(2) => Some(120),
            KeyName::Function(3) => Some(99),
            KeyName::Function(4) => Some(118),
            KeyName::Function(5) => Some(96),
            KeyName::Function(6) => Some(97),
            KeyName::Function(7) => Some(98),
            KeyName::Function(8) => Some(100),
            KeyName::Function(9) => Some(101),
            KeyName::Function(10) => Some(109),
            KeyName::Function(11) => Some(103),
            KeyName::Function(12) => Some(111),
            KeyName::Function(13) => Some(105),
            KeyName::Function(14) => Some(107),
            KeyName::Function(15) => Some(113),
            KeyName::Function(16) => Some(106),
            KeyName::Function(17) => Some(64),
            KeyName::Function(18) => Some(79),
            KeyName::Function(19) => Some(80),
            KeyName::Function(20) => Some(90),
            _ => None,
        },
        None => None,
    }
}

/// The key that a virtual key code belongs to, if it belongs to one.
pub open spec fn key_at(code: u16) -> Option<KeyName> {
    if exists|k: KeyName| k.valid() && #[trigger] key_code(k) == Some(code) {
        Some(choose|k: KeyName| k.valid() && #[trigger] key_code(k) == Some(code))
    } else {
        None
    }
}

/// The key that a virtual key code belongs to.
fn key_for_code(code: u16) -> (r: Option<KeyName>)
    ensures
        r == key_at(code),
        r matches Some(k) ==> k.valid(),
{
    let r = match code {
        49 => Some(KeyName::Space),
        36 => Some(KeyName::Enter),
        51 => Some(KeyName::Backspace),
        48 => Some(KeyName::Tab),
        53 => Some(KeyName::Escape),
        126 => Some(KeyName::ArrowUp),
        125 => Some(KeyName::ArrowDown),
        123 => Some(KeyName::ArrowLeft),
        124 => Some(KeyName::ArrowRight),
        115 => Some(KeyName::Home),
        119 => Some(KeyName::End),
        116 => Some(KeyName::PageUp),
        121 => Some(KeyName::PageDown),
        114 => Some(KeyName::Insert),
        117 => Some(KeyName::Delete),
        0 => Some(KeyName::Symbol('A')),
        11 => Some(KeyName::Symbol('B')),
        8 => Some(KeyName::Symbol('C')),
        2 => Some(KeyName::Symbol('D')),
        14 => Some(KeyName::Symbol('E')),
        3 => Some(KeyName::Symbol('F')),
        5 => Some(KeyName::Symbol('G')),
        4 => Some(KeyName::Symbol('H')),
        34 => Some(KeyName::Symbol('I')),
        38 => Some(KeyName::Symbol('J')),
        40 => Some(KeyName::Symbol('K')),
        37 => Some(KeyName::Symbol('L')),
        46 => Some(KeyName::Symbol('M')),
        45 => Some(KeyName::Symbol('N')),
        31 => Some(KeyName::Symbol('O')),
        35 => Some(KeyName::Symbol('P')),
        12 => Some(KeyName::Symbol('Q')),
        15 => Some(KeyName::Symbol('R')),
        1 => Some(KeyName::Symbol('S')),
        17 => Some(KeyName::Symbol('T')),
        32 => Some(KeyName::Symbol('U')),
        9 => Some(KeyName::Symbol('V')),
        13 => Some(KeyName::Symbol('W')),
        7 => Some(KeyName::Symbol('X')),
        16 => Some(KeyName::Symbol('Y')),
        6 => Some(KeyName::Symbol('Z')),
        29 => Some(KeyName::Symbol('0')),
        18 => Some(KeyName::Symbol('1')),
        19 => Some(KeyName::Symbol('2')),
        20 => Some(KeyName::Symbol('3')),
        21 => Some(KeyName::Symbol('4')),
        23 => Some(KeyName::Symbol('5')),
        22 => Some(KeyName::Symbol('6')),
        26 => Some(KeyName::Symbol('7')),
        28 => Some(KeyName::Symbol('8')),
        25 => Some(KeyName::Symbol('9')),
        122 => Some(KeyName::Function(1)),
        120 => Some(KeyName::Function(2)),
        99 => Some(KeyName::Function(3)),
        118 => Some(KeyName::Function(4)),
        96 => Some(KeyName::Function(5)),
        97 => Some(KeyName::Function(6)),
        98 => Some(KeyName::Function(7)),
        100 => Some(KeyName::Function(8)),
        101 => Some(KeyName::Function(9)),
        109 => Some(KeyName::Function(10)),
        103 => Some(KeyName::Function(11)),
        111 => Some(KeyName::Function(12)),
        105 => Some(KeyName::Function(13)),
        107 => Some(KeyName::Function(14)),
        113 => Some(KeyName::Function(15)),
        106 => Some(KeyName::Function(16)),
        64 => Some(KeyName::Function(17)),
        79 => Some(KeyName::Function(18)),
        80 => Some(KeyName::Function(19)),
        90 => Some(KeyName::Function(20)),
        _ => None,
    };
    proof {
        if let Some(k) = r {
            let chosen = choose|c: KeyName| c.valid() && #[trigger] key_code(c) == key_code(k);
            codes_are_distinct(chosen, k);
        }
    }
    r
}

/// The canonical name of the key that a virtual key code belongs to.
pub fn name_for_code(code: u16) -> (r: Option<String>)
    ensures
        r is Some == key_at(code) is Some,
        r matches Some(name) ==> name@ == key_at(code)->0.text(),
{
    match key_for_code(code) {
        Some(k) => Some(k.name()),
        None => None,
    }
}

/// No two keys share a virtual key code.
pub proof fn codes_are_distinct(a: KeyName, b: KeyName)
    requires
        a.valid(),
        b.valid(),
        key_code(a) is Some,
        key_code(a) == key_code(b),
    ensures
        a == b,
{
}

/// Every canonical name stands for the virtual key code of its key: all keys have one but the
/// function keys beyond F20.
pub proof fn canonical_names_have_codes(k: KeyName)
    requires
        k.valid(),
    ensures
        named_code(k.text()) == key_code(k),
        key_code(k) is Some <==> !(k matches KeyName::Function(n) && n > 20),
{
    key_named_by_text(k);
}

/// The code of a key belongs to that key.
pub proof fn key_at_own_code(k: KeyName)
    requires
        k.valid(),
        key_code(k) is Some,
    ensures
        key_at(key_code(k)->0) == Some(k),
{
    let code = key_code(k)->0;
    let chosen = choose|c: KeyName| c.valid() && #[trigger] key_code(c) == Some(code);
    codes_are_distinct(chosen, k);
}

/// Names and codes lead back to each other: a key's code gives the key's canonical name, and the
/// name that belongs to a code stands for that code.
pub proof fn names_and_codes_are_inverse(k: KeyName, code: u16)
    requires
        k.valid(),
    ensures
        named_code(k.text()) matches Some(c) ==> key_at(c) == Some(k),
        key_at(code) matches Some(found) ==> named_code(found.text()) == Some(code),
{
    canonical_names_have_codes(k);
    if key_code(k) is Some {
        key_at_own_code(k);
    }
    if let Some(found) = key_at(code) {
        canonical_names_have_codes(found);
    }
}

/// The codes of the digits, from left to right on the keyboard.
pub proof fn codes_of_the_digit_row()
    ensures
        named_code(seq!['1']) == Some(18u16),
        named_code(seq!['2']) == Some(19u16),
        named_code(seq!['3']) == Some(20u16),
        named_code(seq!['4']) == Some(21u16),
        named_code(seq!['5']) == Some(23u16),
        named_code(seq!['6']) == Some(22u16),
        named_code(seq!['7']) == Some(26u16),
        named_code(seq!['8']) == Some(28u16),
        named_code(seq!['9']) == Some(25u16),
        named_code(seq!['0']) == Some(29u16),
{
    assert(KeyName::Symbol('1').text() == seq!['1']);
    canonical_names_have_codes(KeyName::Symbol('1'));
    assert(KeyName::Symbol('2').text() == seq!['2']);
    canonical_names_have_codes(KeyName::Symbol('2'));
    assert(KeyName::Symbol('3').text() == seq!['3']);
    canonical_names_have_codes(KeyName::Symbol('3'));
    assert(KeyName::Symbol('4').text() == seq!['4']);
    canonical_names_have_codes(KeyName::Symbol('4'));
    assert(KeyName::Symbol('5').text() == seq!['5']);
    canonical_names_have_codes(KeyName::Symbol('5'));
    assert(KeyName::Symbol('6').text() == seq!['6']);
    canonical_names_have_codes(KeyName::Symbol('6'));
    assert(KeyName::Symbol('7').text() == seq!['7']);
    canonical_names_have_codes(KeyName::Symbol('7'));
    assert(KeyName::Symbol('8').text() == seq!['8']);
    canonical_names_have_codes(KeyName::Symbol('8'));
    assert(KeyName::Symbol('9').text() == seq!['9']);
    canonical_names_have_codes(KeyName::Symbol('9'));
    assert(KeyName::Symbol('0').text() == seq!['0']);
    canonical_names_have_codes(KeyName::Symbol('0'));
}

/// The codes of the upper row of letters, from left to right on the keyboard.
pub proof fn codes_of_the_upper_row()
    ensures
        named_code(seq!['Q']) == Some(12u16),
        named_code(seq!['W']) == Some(13u16),
        named_code(seq!['E']) == Some(14u16),
        named_code(seq!['R']) == Some(15u16),
        named_code(seq!['T']) == Some(17u16),
        named_code(seq!['Y']) == Some(16u16),
        named_code(seq!['U']) == Some(32u16),
        named_code(seq!['I']) == Some(34u16),
        named_code(seq!['O']) == Some(31u16),
        named_code(seq!['P']) == Some(35u16),
{
    assert(KeyName::Symbol('Q').text() == seq!['Q']);
    canonical_names_have_codes(KeyName::Symbol('Q'));
    assert(KeyName::Symbol('W').text() == seq!['W']);
    canonical_names_have_codes(KeyName::Symbol('W'));
    assert(KeyName::Symbol('E').text() == seq!['E']);
    canonical_names_have_codes(KeyName::Symbol('E'));
    assert(KeyName::Symbol('R').text() == seq!['R']);
    canonical_names_have_codes(KeyName::Symbol('R'));
    assert(KeyName::Symbol('T').text() == seq!['T']);
    canonical_names_have_codes(KeyName::Symbol('T'));
    assert(KeyName::Symbol('Y').text() == seq!['Y']);
    canonical_names_have_codes(KeyName::Symbol('Y'));
    assert(KeyName::Symbol('U').text() == seq!['U']);
    canonical_names_have_codes(KeyName::Symbol('U'));
    assert(KeyName::Symbol('I').text() == seq!['I']);
    canonical_names_have_codes(KeyName::Symbol('I'));
    assert(KeyName::Symbol('O').text() == seq!['O']);
    canonical_names_have_codes(KeyName::Symbol('O'));
    assert(KeyName::Symbol('P').text() == seq!['P']);
    canonical_names_have_codes(KeyName::Symbol('P'));
}

/// The codes of the middle row of letters, from left to right on the keyboard.
pub proof fn codes_of_the_middle_row()
    ensures
        named_code(seq!['A']) == Some(0u16),
        named_code(seq!['S']) == Some(1u16),
        named_code(seq!['D']) == Some(2u16),
        named_code(seq!['F']) == Some(3u16),
        named_code(seq!['G']) == Some(5u16),
        named_code(seq!['H']) == Some(4u16),
        named_code(seq!['J']) == Some(38u16),
        named_code(seq!['K']) == Some(40u16),
        named_code(seq!['L']) == Some(37u16),
{
    assert(KeyName::Symbol('A').text() == seq!['A']);
    canonical_names_have_codes(KeyName::Symbol('A'));
    assert(KeyName::Symbol('S').text() == seq!['S']);
    canonical_names_have_codes(KeyName::Symbol('S'));
    assert(KeyName::Symbol('D').text() == seq!['D']);
    canonical_names_have_codes(KeyName::Symbol('D'));
    assert(KeyName::Symbol('F').text() == seq!['F']);
    canonical_names_have_codes(KeyName::Symbol('F'));
    assert(KeyName::Symbol('G').text() == seq!['G']);
    canonical_names_have_codes(KeyName::Symbol('G'));
    assert(KeyName::Symbol('H').text() == seq!['H']);
    canonical_names_have_codes(KeyName::Symbol('H'));
    assert(KeyName::Symbol('J').text() == seq!['J']);
    canonical_names_have_codes(KeyName::Symbol('J'));
    assert(KeyName::Symbol('K').text() == seq!['K']);
    canonical_names_have_codes(KeyName::Symbol('K'));
    assert(KeyName::Symbol('L').text() == seq!['L']);
    canonical_names_have_codes(KeyName::Symbol('L'));
}

/// The codes of the lower row of letters, from left to right on the keyboard.
pub proof fn codes_of_the_lower_row()
    ensures
        named_code(seq!['Z']) == Some(6u16),
        named_code(seq!['X']) == Some(7u16),
        named_code(seq!['C']) == Some(8u16),
        named_code(seq!['V']) == Some(9u16),
        named_code(seq!['B']) == Some(11u16),
        named_code(seq!['N']) == Some(45u16),
        named_code(seq!['M']) == Some(46u16),
{
    assert(KeyName::Symbol('Z').text() == seq!['Z']);
    canonical_names_have_codes(KeyName::Symbol('Z'));
    assert(KeyName::Symbol('X').text() == seq!['X']);
    canonical_names_have_codes(KeyName::Symbol('X'));
    assert(KeyName::Symbol('C').text() == seq!['C']);
    canonical_names_have_codes(KeyName::Symbol('C'));
    assert(KeyName::Symbol('V').text() == seq!['V']);
    canonical_names_have_codes(KeyName::Symbol('V'));
    assert(KeyName::Symbol('B').text() == seq!['B']);
    canonical_names_have_codes(KeyName::Symbol('B'));
    assert(KeyName::Symbol('N').text() == seq!['N']);
    canonical_names_have_codes(KeyName::Symbol('N'));
    assert(KeyName::Symbol('M').text() == seq!['M']);
    canonical_names_have_codes(KeyName::Symbol('M'));
}

/// The codes of the keys that have words for names.
pub proof fn codes_of_the_named_keys()
    ensures
        named_code("Space"@) == Some(49u16),
        named_code("Enter"@) == Some(36u16),
        named_code("Backspace"@) == Some(51u16),
        named_code("Tab"@) == Some(48u16),
        named_code("Escape"@) == Some(53u16),
        named_code("ArrowUp"@) == Some(126u16),
        named_code("ArrowDown"@) == Some(125u16),
        named_code("ArrowLeft"@) == Some(123u16),
        named_code("ArrowRight"@) == Some(124u16),
        named_code("Home"@) == Some(115u16),
        named_code("End"@) == Some(119u16),
        named_code("PageUp"@) == Some(116u16),
        named_code("PageDown"@) == Some(121u16),
        named_code("Insert"@) == Some(114u16),
        named_code("Delete"@) == Some(117u16),
{
    canonical_names_have_codes(KeyName::Space);
    canonical_names_have_codes(KeyName::Enter);
    canonical_names_have_codes(KeyName::Backspace);
    canonical_names_have_codes(KeyName::Tab);
    canonical_names_have_codes(KeyName::Escape);
    canonical_names_have_codes(KeyName::ArrowUp);
    canonical_names_have_codes(KeyName::ArrowDown);
    canonical_names_have_codes(KeyName::ArrowLeft);
    canonical_names_have_codes(KeyName::ArrowRight);
    canonical_names_have_codes(KeyName::Home);
    canonical_names_have_codes(KeyName::End);
    canonical_names_have_codes(KeyName::PageUp);
    canonical_names_have_codes(KeyName::PageDown);
    canonical_names_have_codes(KeyName::Insert);
    canonical_names_have_codes(KeyName::Delete);
}

/// The codes of the function keys, which run to F20.
pub proof fn codes_of_the_function_keys(n: nat)
    requires
        1 <= n <= 24,
    ensures
        named_code(seq!['F'] + decimal(n)) == if n <= 20 {
            Some(
                seq![
                    122u16,
                    120u16,
                    99u16,
                    118u16,
                    96u16,
                    97u16,
                    98u16,
                    100u16,
                    101u16,
                    109u16,
                    103u16,
                    111u16,
                    105u16,
                    107u16,
                    113u16,
                    106u16,
                    64u16,
                    79u16,
                    80u16,
                    90u16,
                ][n - 1],
            )
        } else {
            None
        },
{
    assert(KeyName::Function(n as u8).text() == seq!['F'] + decimal(n));
    canonical_names_have_codes(KeyName::Function(n as u8));
}

/// A name that is no canonical one stands for no code.
pub proof fn other_names_have_no_code(name: Seq<char>)
    requires
        normalized(name) is None,
    ensures
        named_code(name) is None,
{
    if let Some(k) = key_named(name) {
        let k = choose|k: KeyName| k.valid() && #[trigger] k.text() == name;
        canonical_names_are_stable(k);
    }
}

} // verus!
