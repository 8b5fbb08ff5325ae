//! Canonical keyboard names used by embedded capture and persisted mappings.

use vstd::prelude::*;
use crate::text::{
    decimal, decimal_reads_back, decimal_text, digit, same_text, value_of_digit,
};

verus! {

/// A key that has a canonical name.
#[derive(Debug, Clone, Copy, PartialEq, Eq, Structural)]
pub enum KeyName {
    Space,
    Enter,
    Backspace,
    Tab,
    Escape,
    ArrowUp,
    ArrowDown,
    ArrowLeft,
    ArrowRight,
    Home,
    End,
    PageUp,
    PageDown,
    Insert,
    Delete,
    /// A letter or digit key, by its upper-case character.
    Symbol(char),
    /// A function key, by its number.
    Function(u8),
}

/// The characters of letter and digit keys.
pub open spec fn is_symbol(c: char) -> bool {
    'A' <= c <= 'Z' || '0' <= c <= '9'
}

impl KeyName {
    /// Letters are upper-case ASCII, and function keys run from F1 to F24.
    pub open spec fn valid(self) -> bool {
        match self {
            KeyName::Symbol(c) => is_symbol(c),
            KeyName::Function(n) => 1 <= n <= 24,
            _ => true,
        }
    }

    /// The canonical name of the key.
    pub open spec fn text(self) -> Seq<char> {
        match self {
            KeyName::Space => "Space"@,
            KeyName::Enter => "Enter"@,
            KeyName::Backspace => "Backspace"@,
            KeyName::Tab => "Tab"@,
            KeyName::Escape => "Escape"@,
            KeyName::ArrowUp => "ArrowUp"@,
            KeyName::ArrowDown => "ArrowDown"@,
            KeyName::ArrowLeft => "ArrowLeft"@,
            KeyName::ArrowRight => "ArrowRight"@,
            KeyName::Home => "Home"@,
            KeyName::End => "End"@,
            KeyName::PageUp => "PageUp"@,
            KeyName::PageDown => "PageDown"@,
            KeyName::Insert => "Insert"@,
            KeyName::Delete => "Delete"@,
            KeyName::Symbol(c) => seq![c],
            KeyName::Function(n) => seq!['F'] + decimal(n as nat),
        }
    }
}

/// The key that `s` is the canonical name of, if there is one.
pub open spec fn key_named(s: Seq<char>) -> Option<KeyName> {
    if exists|k: KeyName| k.valid() && #[trigger] k.text() == s {
        Some(choose|k: KeyName| k.valid() && #[trigger] k.text() == s)
    } else {
        None
    }
}

/// The name that an alias stands for; any other text stands for itself.
pub open spec fn unaliased(s: Seq<char>) -> Seq<char> {
    if s == "Return"@ {
        "Enter"@
    } else if s == "Up"@ || s == "UpArrow"@ {
        "ArrowUp"@
    } else if s == "Down"@ || s == "DownArrow"@ {
        "ArrowDown"@
    } else if s == "Left"@ || s == "LeftArrow"@ {
        "ArrowLeft"@
    } else if s == "Right"@ || s == "RightArrow"@ {
        "ArrowRight"@
    } else {
        s
    }
}

/// The canonical name behind a key name, if it names a key at all.
pub open spec fn normalized(s: Seq<char>) -> Option<Seq<char>> {
    if key_named(unaliased(s)) is Some {
        Some(unaliased(s))
    } else {
        None
    }
}

/// What the name literals hold.
proof fn reveal_names()
    ensures
        "Space"@ == seq!['S', 'p', 'a', 'c', 'e'],
        "Enter"@ == seq!['E', 'n', 't', 'e', 'r'],
        "Backspace"@ == seq!['B', 'a', 'c', 'k', 's', 'p', 'a', 'c', 'e'],
        "Tab"@ == seq!['T', 'a', 'b'],
        "Escape"@ == seq!['E', 's', 'c', 'a', 'p', 'e'],
        "ArrowUp"@ == seq!['A', 'r', 'r', 'o', 'w', 'U', 'p'],
        "ArrowDown"@ == seq!['A', 'r', 'r', 'o', 'w', 'D', 'o', 'w', 'n'],
        "ArrowLeft"@ == seq!['A', 'r', 'r', 'o', 'w', 'L', 'e', 'f', 't'],
        "ArrowRight"@ == seq!['A', 'r', 'r', 'o', 'w', 'R', 'i', 'g', 'h', 't'],
        "Home"@ == seq!['H', 'o', 'm', 'e'],
        "End"@ == seq!['E', 'n', 'd'],
        "PageUp"@ == seq!['P', 'a', 'g', 'e', 'U', 'p'],
        "PageDown"@ == seq!['P', 'a', 'g', 'e', 'D', 'o', 'w', 'n'],
        "Insert"@ == seq!['I', 'n', 's', 'e', 'r', 't'],
        "Delete"@ == seq!['D', 'e', 'l', 'e', 't', 'e'],
{
    reveal_strlit("Space");
    reveal_strlit("Enter");
    reveal_strlit("Backspace");
    reveal_strlit("Tab");
    reveal_strlit("Escape");
    reveal_strlit("ArrowUp");
    reveal_strlit("ArrowDown");
    reveal_strlit("ArrowLeft");
    reveal_strlit("ArrowRight");
    reveal_strlit("Home");
    reveal_strlit("End");
    reveal_strlit("PageUp");
    reveal_strlit("PageDown");
    reveal_strlit("Insert");
    reveal_strlit("Delete");
    assert("Space"@ =~= seq!['S', 'p', 'a', 'c', 'e']);
    assert("Enter"@ =~= seq!['E', 'n', 't', 'e', 'r']);
    assert("Backspace"@ =~= seq!['B', 'a', 'c', 'k', 's', 'p', 'a', 'c', 'e']);
    assert("Tab"@ =~= seq!['T', 'a', 'b']);
    assert("Escape"@ =~= seq!['E', 's', 'c', 'a', 'p', 'e']);
    assert("ArrowUp"@ =~= seq!['A', 'r', 'r', 'o', 'w', 'U', 'p']);
    assert("ArrowDown"@ =~= seq!['A', 'r', 'r', 'o', 'w', 'D', 'o', 'w', 'n']);
    assert("ArrowLeft"@ =~= seq!['A', 'r', 'r', 'o', 'w', 'L', 'e', 'f', 't']);
    assert("ArrowRight"@ =~= seq!['A', 'r', 'r', 'o', 'w', 'R', 'i', 'g', 'h', 't']);
    assert("Home"@ =~= seq!['H', 'o', 'm', 'e']);
    assert("End"@ =~= seq!['E', 'n', 'd']);
    assert("PageUp"@ =~= seq!['P', 'a', 'g', 'e', 'U', 'p']);
    assert("PageDown"@ =~= seq!['P', 'a', 'g', 'e', 'D', 'o', 'w', 'n']);
    assert("Insert"@ =~= seq!['I', 'n', 's', 'e', 'r', 't']);
    assert("Delete"@ =~= seq!['D', 'e', 'l', 'e', 't', 'e']);
}

/// The number of a function key, in decimal, is one digit or two.
proof fn lemma_function_text(n: u8)
    requires
        1 <= n <= 24,
    ensures
        n < 10 ==> KeyName::Function(n).text() == seq!['F', digit(n as nat)],
        n >= 10 ==> KeyName::Function(n).text() == seq![
            'F',
            digit((n / 10) as nat),
            digit((n % 10) as nat),
        ],
{
    if n < 10 {
        assert(KeyName::Function(n).text() =~= seq!['F', digit(n as nat)]);
    } else {
        assert(decimal(n as nat / 10) == seq![digit(n as nat / 10)]);
        assert(KeyName::Function(n).text() =~= seq![
            'F',
            digit((n / 10) as nat),
            digit((n % 10) as nat),
        ]);
    }
}

/// No two keys share a canonical name.
pub proof fn names_are_distinct(a: KeyName, b: KeyName)
    requires
        a.valid(),
        b.valid(),
        a.text() == b.text(),
    ensures
        a == b,
{
    reveal_names();
    let (s, t) = (a.text(), b.text());
    if let KeyName::Function(n) = a {
        lemma_function_text(n);
    }
    if let KeyName::Function(n) = b {
        lemma_function_text(n);
    }
    assert(s.len() == t.len());
    assert(s.len() > 0 ==> s[0] == t[0]);
    assert(s.len() > 1 ==> s[1] == t[1]);
    assert(s.len() > 2 ==> s[2] == t[2]);
    assert(s.len() > 5 ==> s[5] == t[5]);
}

/// The key of a canonical name is the key that has that name.
pub proof fn key_named_by_text(k: KeyName)
    requires
        k.valid(),
    ensures
        key_named(k.text()) == Some(k),
{
    let chosen = choose|c: KeyName| c.valid() && #[trigger] c.text() == k.text();
    names_are_distinct(chosen, k);
}

/// The key that a named-key literal stands for.
fn word_key(name: &str) -> (r: Option<KeyName>)
    ensures
        r matches Some(k) ==> k.valid() && k.text() == name@ && !(k is Symbol) && !(k is Function),
        r is None ==> forall|k: KeyName|
            !(k is Symbol) && !(k is Function) ==> #[trigger] k.text() != name@,
{
    if same_text(name, "Space") {
        Some(KeyName::Space)
    } else if same_text(name, "Enter") {
        Some(KeyName::Enter)
    } else if same_text(name, "Backspace") {
        Some(KeyName::Backspace)
    } else if same_text(name, "Tab") {
        Some(KeyName::Tab)
    } else if same_text(name, "Escape") {
        Some(KeyName::Escape)
    } else if same_text(name, "ArrowUp") {
        Some(KeyName::ArrowUp)
    } else if same_text(name, "ArrowDown") {
        Some(KeyName::ArrowDown)
    } else if same_text(name, "ArrowLeft") {
        Some(KeyName::ArrowLeft)
    } else if same_text(name, "ArrowRight") {
        Some(KeyName::ArrowRight)
    } else if same_text(name, "Home") {
        Some(KeyName::Home)
    } else if same_text(name, "End") {
        Some(KeyName::End)
    } else if same_text(name, "PageUp") {
        Some(KeyName::PageUp)
    } else if same_text(name, "PageDown") {
        Some(KeyName::PageDown)
    } else if same_text(name, "Insert") {
        Some(KeyName::Insert)
    } else if same_text(name, "Delete") {
        Some(KeyName::Delete)
    } else {
        None
    }
}

/// The letter or digit key that a one-character name stands for.
fn symbol_key(name: &str) -> (r: Option<KeyName>)
    ensures
        r matches Some(k) ==> k.valid() && k.text() == name@ && k is Symbol,
        r is None ==> forall|c: char|
            is_symbol(c) ==> #[trigger] KeyName::Symbol(c).text() != name@,
{
    if name.unicode_len() == 1 {
        let c = name.get_char(0);
        if ('A' <= c && c <= 'Z') || ('0' <= c && c <= '9') {
            assert(KeyName::Symbol(c).text() =~= name@);
            return Some(KeyName::Symbol(c));
        }
    }
    None
}

/// The function key that a name stands for.
fn function_key(name: &str) -> (r: Option<KeyName>)
    ensures
        r matches Some(k) ==> k.valid() && k.text() == name@ && k is Function,
        r is None ==> forall|n: u8|
            1 <= n <= 24 ==> #[trigger] KeyName::Function(n).text() != name@,
{
    proof {
        assert forall|n: u8| 1 <= n <= 24 implies {
            let text = #[trigger] KeyName::Function(n).text();
            &&& text[0] == 'F'
            &&& n < 10 ==> text.len() == 2 && text[1] == digit(n as nat)
            &&& n >= 10 ==> text.len() == 3 && text[1] == digit((n / 10) as nat) && text[2]
                == digit((n % 10) as nat)
        } by {
            lemma_function_text(n);
        }
    }
    let len = name.unicode_len();
    if (len != 2 && len != 3) || name.get_char(0) != 'F' {
        return None;
    }
    let first = match value_of_digit(name.get_char(1)) {
        Some(v) => v,
        None => {
            return None;
        },
    };
    let n = if len == 2 {
        first
    } else {
        match value_of_digit(name.get_char(2)) {
            Some(second) => if first == 0 {
                0
            } else {
                first * 10 + second
            },
            None => {
                return None;
            },
        }
    };
    if 1 <= n && n <= 24 {
        proof {
            lemma_function_text(n);
            assert(KeyName::Function(n).text() =~= name@);
        }
        Some(KeyName::Function(n))
    } else {
        None
    }
}

/// The key that `name` is the canonical name of.
pub fn key_of(name: &str) -> (r: Option<KeyName>)
    ensures
        r == key_named(name@),
        r matches Some(k) ==> k.valid() && k.text() == name@,
{
    let word = word_key(name);
    let symbol = symbol_key(name);
    let function = function_key(name);
    let r = if word.is_some() {
        word
    } else if symbol.is_some() {
        symbol
    } else {
        function
    };
    proof {
        if let Some(k) = r {
            key_named_by_text(k);
        } else {
            assert forall|k: KeyName| k.valid() implies #[trigger] k.text() != name@ by {
                match k {
                    KeyName::Symbol(c) => {},
                    KeyName::Function(n) => {},
                    _ => {},
                }
            }
        }
    }
    r
}

/// The one-character name of a letter or digit key.
fn symbol_text(c: char) -> (r: &'static str)
    requires
        is_symbol(c),
    ensures
        r@ == seq![c],
{
    if c <= '9' {
        let all = "0123456789";
        proof {
            reveal_strlit("0123456789");
        }
        let at = (c as u32 - 48) as usize;
        let r = all.substring_char(at, at + 1);
        assert(r@ =~= seq![c]);
        r
    } else {
        let all = "ABCDEFGHIJKLMNOPQRSTUVWXYZ";
        proof {
            reveal_strlit("ABCDEFGHIJKLMNOPQRSTUVWXYZ");
        }
        let at = (c as u32 - 65) as usize;
        let r = all.substring_char(at, at + 1);
        assert(r@ =~= seq![c]);
        r
    }
}

impl KeyName {
    /// The canonical name of the key.
    pub fn name(self) -> (r: String)
        requires
            self.valid(),
        ensures
            r@ == self.text(),
    {
        match self {
            KeyName::Space => "Space".to_owned(),
            KeyName::Enter => "Enter".to_owned(),
            KeyName::Backspace => "Backspace".to_owned(),
            KeyName::Tab => "Tab".to_owned(),
            KeyName::Escape => "Escape".to_owned(),
            KeyName::ArrowUp => "ArrowUp".to_owned(),
            KeyName::ArrowDown => "ArrowDown".to_owned(),
            KeyName::ArrowLeft => "ArrowLeft".to_owned(),
            KeyName::ArrowRight => "ArrowRight".to_owned(),
            KeyName::Home => "Home".to_owned(),
            KeyName::End => "End".to_owned(),
            KeyName::PageUp => "PageUp".to_owned(),
            KeyName::PageDown => "PageDown".to_owned(),
            KeyName::Insert => "Insert".to_owned(),
            KeyName::Delete => "Delete".to_owned(),
            KeyName::Symbol(c) => symbol_text(c).to_owned(),
            KeyName::Function(n) => {
                proof {
                    reveal_strlit("F");
                }
                let mut r = "F".to_owned();
                r.append(decimal_text(n as u32).as_str());
                assert(r@ =~= self.text());
                r
            },
        }
    }
}

/// The canonical name behind an alias, where any other text stands for itself.
fn unalias(code: &str) -> (r: &str)
    ensures
        r@ == unaliased(code@),
{
    if same_text(code, "Return") {
        "Enter"
    } else if same_text(code, "Up") || same_text(code, "UpArrow") {
        "ArrowUp"
    } else if same_text(code, "Down") || same_text(code, "DownArrow") {
        "ArrowDown"
    } else if same_text(code, "Left") || same_text(code, "LeftArrow") {
        "ArrowLeft"
    } else if same_text(code, "Right") || same_text(code, "RightArrow") {
        "ArrowRight"
    } else {
        code
    }
}

/// The canonical name behind a key name: aliases are resolved, and what names no key gives
/// `None`.
pub fn normalize(code: &str) -> (r: Option<String>)
    ensures
        r is Some == normalized(code@) is Some,
        r matches Some(name) ==> name@ == normalized(code@)->0,
{
    let value = unalias(code);
    match key_of(value) {
        Some(_) => Some(value.to_owned()),
        None => None,
    }
}

/// A key whose name is the letter `F` before a number is the function key of that number.
pub proof fn lemma_function_key_by_letter(k: KeyName, n: nat)
    requires
        k.valid(),
        k.text() == seq!['F'] + decimal(n),
    ensures
        k == KeyName::Function(n as u8),
        1 <= n <= 24,
{
    reveal_names();
    let name = seq!['F'] + decimal(n);
    decimal_reads_back(n);
    assert(name[0] == 'F');
    assert(name.skip(1) =~= decimal(n));
    assert(decimal(n).len() > 0);
    if let KeyName::Function(m) = k {
        assert(k.text().skip(1) =~= decimal(m as nat));
        decimal_reads_back(m as nat);
    }
}

/// Normalizing a canonical name gives that name.
pub proof fn canonical_names_are_stable(k: KeyName)
    requires
        k.valid(),
    ensures
        normalized(k.text()) == Some(k.text()),
{
    reveal_names();
    reveal_strlit("Return");
    reveal_strlit("Up");
    reveal_strlit("UpArrow");
    reveal_strlit("Down");
    reveal_strlit("DownArrow");
    reveal_strlit("Left");
    reveal_strlit("LeftArrow");
    reveal_strlit("Right");
    reveal_strlit("RightArrow");
    if let KeyName::Function(n) = k {
        lemma_function_text(n);
    }
    let s = k.text();
    assert(unaliased(s) == s);
    key_named_by_text(k);
}

/// Normalizing twice changes nothing more, and what comes out is the name of a key.
pub proof fn normalizing_is_idempotent(s: Seq<char>)
    requires
        normalized(s) is Some,
    ensures
        normalized(normalized(s)->0) == normalized(s),
        key_named(normalized(s)->0) is Some,
{
    let k = choose|k: KeyName| k.valid() && #[trigger] k.text() == unaliased(s);
    canonical_names_are_stable(k);
}

/// A name that normalizes is a canonical name already, or one of the nine aliases of Enter and the
/// arrow keys. What comes out is one of fifteen words, a capital letter or digit, or F1 to F24.
pub proof fn only_known_names_normalize(s: Seq<char>)
    requires
        normalized(s) is Some,
    ensures
        ({
            let t = normalized(s)->0;
            &&& {
                ||| t == s
                ||| s == "Return"@ && t == "Enter"@
                ||| (s == "Up"@ || s == "UpArrow"@) && t == "ArrowUp"@
                ||| (s == "Down"@ || s == "DownArrow"@) && t == "ArrowDown"@
                ||| (s == "Left"@ || s == "LeftArrow"@) && t == "ArrowLeft"@
                ||| (s == "Right"@ || s == "RightArrow"@) && t == "ArrowRight"@
            }
            &&& {
                ||| t == "Space"@
                ||| t == "Enter"@
                ||| t == "Backspace"@
                ||| t == "Tab"@
                ||| t == "Escape"@
                ||| t == "ArrowUp"@
                ||| t == "ArrowDown"@
                ||| t == "ArrowLeft"@
                ||| t == "ArrowRight"@
                ||| t == "Home"@
                ||| t == "End"@
                ||| t == "PageUp"@
                ||| t == "PageDown"@
                ||| t == "Insert"@
                ||| t == "Delete"@
                ||| t.len() == 1 && ('A' <= t[0] <= 'Z' || '0' <= t[0] <= '9')
                ||| exists|n: nat| 1 <= n <= 24 && t == seq!['F'] + #[trigger] decimal(n)
            }
        }),
{
    let k = choose|k: KeyName| k.valid() && #[trigger] k.text() == unaliased(s);
    if let KeyName::Function(n) = k {
        assert(k.text() == seq!['F'] + decimal(n as nat));
    }
}

/// Every capital letter, every digit, every function key up to F24 and every word that names a key
/// is a canonical name, and normalizes to itself; the aliases of Enter and the arrow keys
/// normalize to those keys.
pub proof fn known_names_normalize(c: char, n: nat)
    ensures
        'A' <= c <= 'Z' || '0' <= c <= '9' ==> normalized(seq![c]) == Some(seq![c]),
        1 <= n <= 24 ==> normalized(seq!['F'] + decimal(n)) == Some(seq!['F'] + decimal(n)),
        normalized("Space"@) == Some("Space"@),
        normalized("Enter"@) == Some("Enter"@),
        normalized("Backspace"@) == Some("Backspace"@),
        normalized("Tab"@) == Some("Tab"@),
        normalized("Escape"@) == Some("Escape"@),
        normalized("ArrowUp"@) == Some("ArrowUp"@),
        normalized("ArrowDown"@) == Some("ArrowDown"@),
        normalized("ArrowLeft"@) == Some("ArrowLeft"@),
        normalized("ArrowRight"@) == Some("ArrowRight"@),
        normalized("Home"@) == Some("Home"@),
        normalized("End"@) == Some("End"@),
        normalized("PageUp"@) == Some("PageUp"@),
        normalized("PageDown"@) == Some("PageDown"@),
        normalized("Insert"@) == Some("Insert"@),
        normalized("Delete"@) == Some("Delete"@),
        normalized("Return"@) == Some("Enter"@),
        normalized("Up"@) == Some("ArrowUp"@) && normalized("UpArrow"@) == Some("ArrowUp"@),
        normalized("Down"@) == Some("ArrowDown"@) && normalized("DownArrow"@) == Some("ArrowDown"@),
        normalized("Left"@) == Some("ArrowLeft"@) && normalized("LeftArrow"@) == Some("ArrowLeft"@),
        normalized("Right"@) == Some("ArrowRight"@) && normalized("RightArrow"@) == Some(
            "ArrowRight"@,
        ),
{
    if 'A' <= c <= 'Z' || '0' <= c <= '9' {
        assert(KeyName::Symbol(c).text() == seq![c]);
        canonical_names_are_stable(KeyName::Symbol(c));
    }
    if 1 <= n <= 24 {
        assert(KeyName::Function(n as u8).text() == seq!['F'] + decimal(n));
        canonical_names_are_stable(KeyName::Function(n as u8));
    }
    canonical_names_are_stable(KeyName::Space);
    canonical_names_are_stable(KeyName::Enter);
    canonical_names_are_stable(KeyName::Backspace);
    canonical_names_are_stable(KeyName::Tab);
    canonical_names_are_stable(KeyName::Escape);
    canonical_names_are_stable(KeyName::ArrowUp);
    canonical_names_are_stable(KeyName::ArrowDown);
    canonical_names_are_stable(KeyName::ArrowLeft);
    canonical_names_are_stable(KeyName::ArrowRight);
    canonical_names_are_stable(KeyName::Home);
    canonical_names_are_stable(KeyName::End);
    canonical_names_are_stable(KeyName::PageUp);
    canonical_names_are_stable(KeyName::PageDown);
    canonical_names_are_stable(KeyName::Insert);
    canonical_names_are_stable(KeyName::Delete);
    lemma_aliases_differ();
}

/// No two aliases are the same.
proof fn lemma_aliases_differ()
    ensures
        unaliased("Return"@) == "Enter"@,
        unaliased("Up"@) == "ArrowUp"@,
        unaliased("UpArrow"@) == "ArrowUp"@,
        unaliased("Down"@) == "ArrowDown"@,
        unaliased("DownArrow"@) == "ArrowDown"@,
        unaliased("Left"@) == "ArrowLeft"@,
        unaliased("LeftArrow"@) == "ArrowLeft"@,
        unaliased("Right"@) == "ArrowRight"@,
        unaliased("RightArrow"@) == "ArrowRight"@,
{
    reveal_strlit("Return");
    reveal_strlit("Up");
    reveal_strlit("UpArrow");
    reveal_strlit("Down");
    reveal_strlit("DownArrow");
    reveal_strlit("Left");
    reveal_strlit("LeftArrow");
    reveal_strlit("Right");
    reveal_strlit("RightArrow");
    assert("Return"@[0] == 'R' && "Return"@[1] == 'e');
    assert("Up"@[0] == 'U' && "UpArrow"@[0] == 'U');
    assert("Down"@[0] == 'D' && "DownArrow"@[0] == 'D');
    assert("Left"@[0] == 'L' && "LeftArrow"@[0] == 'L');
    assert("Right"@[0] == 'R' && "RightArrow"@[0] == 'R');
    assert("Right"@[1] == 'i' && "RightArrow"@[1] == 'i');
}

} // verus!
