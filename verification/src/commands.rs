//! Commands that plugins declare, and the hotkeys that run them.
//!
//! A hotkey is written as a set of modifiers then a key, separated by `+`,
//! such as `ctrl+shift+k`. Parsing is case insensitive.

use vstd::prelude::*;
use vstd::utf8::is_ascii_chars;

use crate::text::{
    ascii_lowercase, lemma_split_on_append_plain, lemma_split_on_append_sep,
    debug_quoted, debug_str, lemma_split_on_ascii, lemma_split_on_nonempty, push_char,
    split_on, split_str, to_lowercase, unicode_lowercase,
};

verus! {

/// A single key on a standard US QWERTY keyboard without shift being held.
///
/// Does **NOT** include modifiers, text editing keys, movement keys,
/// escape or lock keys, or media keys.
#[derive(Debug, Clone, Copy, PartialEq, Eq, Structural, PartialOrd, Ord, Hash)]
pub enum Key {
    Digit0,
    Digit1,
    Digit2,
    Digit3,
    Digit4,
    Digit5,
    Digit6,
    Digit7,
    Digit8,
    Digit9,
    A,
    B,
    C,
    D,
    E,
    F,
    G,
    H,
    I,
    J,
    K,
    L,
    M,
    N,
    O,
    P,
    Q,
    R,
    S,
    T,
    U,
    V,
    W,
    X,
    Y,
    Z,
    F1,
    F2,
    F3,
    F4,
    F5,
    F6,
    F7,
    F8,
    F9,
    F10,
    F11,
    F12,
    F13,
    F14,
    F15,
    F16,
    F17,
    F18,
    F19,
    F20,
    F21,
    F22,
    F23,
    F24,
    Backtick,
    Hyphen,
    Equal,
    Tab,
    LeftBracket,
    RightBracket,
    Backslash,
    Semicolon,
    Apostrophe,
    Enter,
    Comma,
    Period,
    Slash,
}

/// The name of a key as it is written when parsing, in lower case.
pub open spec fn key_lower_name(k: Key) -> Seq<char> {
    match k {
        Key::Digit0 => seq!['0'],
        Key::Digit1 => seq!['1'],
        Key::Digit2 => seq!['2'],
        Key::Digit3 => seq!['3'],
        Key::Digit4 => seq!['4'],
        Key::Digit5 => seq!['5'],
        Key::Digit6 => seq!['6'],
        Key::Digit7 => seq!['7'],
        Key::Digit8 => seq!['8'],
        Key::Digit9 => seq!['9'],
        Key::A => seq!['a'],
        Key::B => seq!['b'],
        Key::C => seq!['c'],
        Key::D => seq!['d'],
        Key::E => seq!['e'],
        Key::F => seq!['f'],
        Key::G => seq!['g'],
        Key::H => seq!['h'],
        Key::I => seq!['i'],
        Key::J => seq!['j'],
        Key::K => seq!['k'],
        Key::L => seq!['l'],
        Key::M => seq!['m'],
        Key::N => seq!['n'],
        Key::O => seq!['o'],
        Key::P => seq!['p'],
        Key::Q => seq!['q'],
        Key::R => seq!['r'],
        Key::S => seq!['s'],
        Key::T => seq!['t'],
        Key::U => seq!['u'],
        Key::V => seq!['v'],
        Key::W => seq!['w'],
        Key::X => seq!['x'],
        Key::Y => seq!['y'],
        Key::Z => seq!['z'],
        Key::F1 => seq!['f', '1'],
        Key::F2 => seq!['f', '2'],
        Key::F3 => seq!['f', '3'],
        Key::F4 => seq!['f', '4'],
        Key::F5 => seq!['f', '5'],
        Key::F6 => seq!['f', '6'],
        Key::F7 => seq!['f', '7'],
        Key::F8 => seq!['f', '8'],
        Key::F9 => seq!['f', '9'],
        Key::F10 => seq!['f', '1', '0'],
        Key::F11 => seq!['f', '1', '1'],
        Key::F12 => seq!['f', '1', '2'],
        Key::F13 => seq!['f', '1', '3'],
        Key::F14 => seq!['f', '1', '4'],
        Key::F15 => seq!['f', '1', '5'],
        Key::F16 => seq!['f', '1', '6'],
        Key::F17 => seq!['f', '1', '7'],
        Key::F18 => seq!['f', '1', '8'],
        Key::F19 => seq!['f', '1', '9'],
        Key::F20 => seq!['f', '2', '0'],
        Key::F21 => seq!['f', '2', '1'],
        Key::F22 => seq!['f', '2', '2'],
        Key::F23 => seq!['f', '2', '3'],
        Key::F24 => seq!['f', '2', '4'],
        Key::Backtick => seq!['`'],
        Key::Hyphen => seq!['-'],
        Key::Equal => seq!['='],
        Key::Tab => seq!['t', 'a', 'b'],
        Key::LeftBracket => seq!['['],
        Key::RightBracket => seq![']'],
        Key::Backslash => seq!['\\'],
        Key::Semicolon => seq![';'],
        Key::Apostrophe => seq!['\''],
        Key::Enter => seq!['e', 'n', 't', 'e', 'r'],
        Key::Comma => seq![','],
        Key::Period => seq!['.'],
        Key::Slash => seq!['/'],
    }
}

/// The name of a key as it is displayed.
pub open spec fn key_display_name(k: Key) -> Seq<char> {
    match k {
        Key::Digit0 => seq!['0'],
        Key::Digit1 => seq!['1'],
        Key::Digit2 => seq!['2'],
        Key::Digit3 => seq!['3'],
        Key::Digit4 => seq!['4'],
        Key::Digit5 => seq!['5'],
        Key::Digit6 => seq!['6'],
        Key::Digit7 => seq!['7'],
        Key::Digit8 => seq!['8'],
        Key::Digit9 => seq!['9'],
        Key::A => seq!['A'],
        Key::B => seq!['B'],
        Key::C => seq!['C'],
        Key::D => seq!['D'],
        Key::E => seq!['E'],
        Key::F => seq!['F'],
        Key::G => seq!['G'],
        Key::H => seq!['H'],
        Key::I => seq!['I'],
        Key::J => seq!['J'],
        Key::K => seq!['K'],
        Key::L => seq!['L'],
        Key::M => seq!['M'],
        Key::N => seq!['N'],
        Key::O => seq!['O'],
        Key::P => seq!['P'],
        Key::Q => seq!['Q'],
        Key::R => seq!['R'],
        Key::S => seq!['S'],
        Key::T => seq!['T'],
        Key::U => seq!['U'],
        Key::V => seq!['V'],
        Key::W => seq!['W'],
        Key::X => seq!['X'],
        Key::Y => seq!['Y'],
        Key::Z => seq!['Z'],
        Key::F1 => seq!['F', '1'],
        Key::F2 => seq!['F', '2'],
        Key::F3 => seq!['F', '3'],
        Key::F4 => seq!['F', '4'],
        Key::F5 => seq!['F', '5'],
        Key::F6 => seq!['F', '6'],
        Key::F7 => seq!['F', '7'],
        Key::F8 => seq!['F', '8'],
        Key::F9 => seq!['F', '9'],
        Key::F10 => seq!['F', '1', '0'],
        Key::F11 => seq!['F', '1', '1'],
        Key::F12 => seq!['F', '1', '2'],
        Key::F13 => seq!['F', '1', '3'],
        Key::F14 => seq!['F', '1', '4'],
        Key::F15 => seq!['F', '1', '5'],
        Key::F16 => seq!['F', '1', '6'],
        Key::F17 => seq!['F', '1', '7'],
        Key::F18 => seq!['F', '1', '8'],
        Key::F19 => seq!['F', '1', '9'],
        Key::F20 => seq!['F', '2', '0'],
        Key::F21 => seq!['F', '2', '1'],
        Key::F22 => seq!['F', '2', '2'],
        Key::F23 => seq!['F', '2', '3'],
        Key::F24 => seq!['F', '2', '4'],
        Key::Backtick => seq!['`'],
        Key::Hyphen => seq!['-'],
        Key::Equal => seq!['='],
        Key::Tab => seq!['T', 'a', 'b'],
        Key::LeftBracket => seq!['['],
        Key::RightBracket => seq![']'],
        Key::Backslash => seq!['\\'],
        Key::Semicolon => seq![';'],
        Key::Apostrophe => seq!['\''],
        Key::Enter => seq!['E', 'n', 't', 'e', 'r'],
        Key::Comma => seq![','],
        Key::Period => seq!['.'],
        Key::Slash => seq!['/'],
    }
}

/// The key whose lower-case name is the single character `c`.
spec fn decode_key_char(c: char) -> Option<Key> {
    match c {
        '0' => Some(Key::Digit0),
        '1' => Some(Key::Digit1),
        '2' => Some(Key::Digit2),
        '3' => Some(Key::Digit3),
        '4' => Some(Key::Digit4),
        '5' => Some(Key::Digit5),
        '6' => Some(Key::Digit6),
        '7' => Some(Key::Digit7),
        '8' => Some(Key::Digit8),
        '9' => Some(Key::Digit9),
        'a' => Some(Key::A),
        'b' => Some(Key::B),
        'c' => Some(Key::C),
        'd' => Some(Key::D),
        'e' => Some(Key::E),
        'f' => Some(Key::F),
        'g' => Some(Key::G),
        'h' => Some(Key::H),
        'i' => Some(Key::I),
        'j' => Some(Key::J),
        'k' => Some(Key::K),
        'l' => Some(Key::L),
        'm' => Some(Key::M),
        'n' => Some(Key::N),
        'o' => Some(Key::O),
        'p' => Some(Key::P),
        'q' => Some(Key::Q),
        'r' => Some(Key::R),
        's' => Some(Key::S),
        't' => Some(Key::T),
        'u' => Some(Key::U),
        'v' => Some(Key::V),
        'w' => Some(Key::W),
        'x' => Some(Key::X),
        'y' => Some(Key::Y),
        'z' => Some(Key::Z),
        '`' => Some(Key::Backtick),
        '-' => Some(Key::Hyphen),
        '=' => Some(Key::Equal),
        '[' => Some(Key::LeftBracket),
        ']' => Some(Key::RightBracket),
        '\\' => Some(Key::Backslash),
        ';' => Some(Key::Semicolon),
        '\'' => Some(Key::Apostrophe),
        ',' => Some(Key::Comma),
        '.' => Some(Key::Period),
        '/' => Some(Key::Slash),
        _ => None,
    }
}

/// The function key `F<d>` for a single digit `d` from 1 to 9.
spec fn decode_fn_key_1(c: char) -> Option<Key> {
    match c {
        '1' => Some(Key::F1),
        '2' => Some(Key::F2),
        '3' => Some(Key::F3),
        '4' => Some(Key::F4),
        '5' => Some(Key::F5),
        '6' => Some(Key::F6),
        '7' => Some(Key::F7),
        '8' => Some(Key::F8),
        '9' => Some(Key::F9),
        _ => None,
    }
}

/// The function key `F1<d>` for a digit `d`.
spec fn decode_fn_key_10(c: char) -> Option<Key> {
    match c {
        '0' => Some(Key::F10),
        '1' => Some(Key::F11),
        '2' => Some(Key::F12),
        '3' => Some(Key::F13),
        '4' => Some(Key::F14),
        '5' => Some(Key::F15),
        '6' => Some(Key::F16),
        '7' => Some(Key::F17),
        '8' => Some(Key::F18),
        '9' => Some(Key::F19),
        _ => None,
    }
}

/// The function key `F2<d>` for a digit `d` from 0 to 4.
spec fn decode_fn_key_20(c: char) -> Option<Key> {
    match c {
        '0' => Some(Key::F20),
        '1' => Some(Key::F21),
        '2' => Some(Key::F22),
        '3' => Some(Key::F23),
        '4' => Some(Key::F24),
        _ => None,
    }
}

fn key_from_lower_char(c: char) -> (r: Option<Key>)
    ensures
        r == decode_key_char(c),
{
    match c {
        '0' => Some(Key::Digit0),
        '1' => Some(Key::Digit1),
        '2' => Some(Key::Digit2),
        '3' => Some(Key::Digit3),
        '4' => Some(Key::Digit4),
        '5' => Some(Key::Digit5),
        '6' => Some(Key::Digit6),
        '7' => Some(Key::Digit7),
        '8' => Some(Key::Digit8),
        '9' => Some(Key::Digit9),
        'a' => Some(Key::A),
        'b' => Some(Key::B),
        'c' => Some(Key::C),
        'd' => Some(Key::D),
        'e' => Some(Key::E),
        'f' => Some(Key::F),
        'g' => Some(Key::G),
        'h' => Some(Key::H),
        'i' => Some(Key::I),
        'j' => Some(Key::J),
        'k' => Some(Key::K),
        'l' => Some(Key::L),
        'm' => Some(Key::M),
        'n' => Some(Key::N),
        'o' => Some(Key::O),
        'p' => Some(Key::P),
        'q' => Some(Key::Q),
        'r' => Some(Key::R),
        's' => Some(Key::S),
        't' => Some(Key::T),
        'u' => Some(Key::U),
        'v' => Some(Key::V),
        'w' => Some(Key::W),
        'x' => Some(Key::X),
        'y' => Some(Key::Y),
        'z' => Some(Key::Z),
        '`' => Some(Key::Backtick),
        '-' => Some(Key::Hyphen),
        '=' => Some(Key::Equal),
        '[' => Some(Key::LeftBracket),
        ']' => Some(Key::RightBracket),
        '\\' => Some(Key::Backslash),
        ';' => Some(Key::Semicolon),
        '\'' => Some(Key::Apostrophe),
        ',' => Some(Key::Comma),
        '.' => Some(Key::Period),
        '/' => Some(Key::Slash),
        _ => None,
    }
}

fn fn_key_1(c: char) -> (r: Option<Key>)
    ensures
        r == decode_fn_key_1(c),
{
    match c {
        '1' => Some(Key::F1),
        '2' => Some(Key::F2),
        '3' => Some(Key::F3),
        '4' => Some(Key::F4),
        '5' => Some(Key::F5),
        '6' => Some(Key::F6),
        '7' => Some(Key::F7),
        '8' => Some(Key::F8),
        '9' => Some(Key::F9),
        _ => None,
    }
}

fn fn_key_10(c: char) -> (r: Option<Key>)
    ensures
        r == decode_fn_key_10(c),
{
    match c {
        '0' => Some(Key::F10),
        '1' => Some(Key::F11),
        '2' => Some(Key::F12),
        '3' => Some(Key::F13),
        '4' => Some(Key::F14),
        '5' => Some(Key::F15),
        '6' => Some(Key::F16),
        '7' => Some(Key::F17),
        '8' => Some(Key::F18),
        '9' => Some(Key::F19),
        _ => None,
    }
}

fn fn_key_20(c: char) -> (r: Option<Key>)
    ensures
        r == decode_fn_key_20(c),
{
    match c {
        '0' => Some(Key::F20),
        '1' => Some(Key::F21),
        '2' => Some(Key::F22),
        '3' => Some(Key::F23),
        '4' => Some(Key::F24),
        _ => None,
    }
}

/// The key whose lower-case name is `s`, if there is one.
spec fn decode_lower_key(s: Seq<char>) -> Option<Key> {
    if s.len() == 1 {
        decode_key_char(s[0])
    } else if s.len() == 2 && s[0] == 'f' {
        decode_fn_key_1(s[1])
    } else if s.len() == 3 && s[0] == 'f' && s[1] == '1' {
        decode_fn_key_10(s[2])
    } else if s.len() == 3 && s[0] == 'f' && s[1] == '2' {
        decode_fn_key_20(s[2])
    } else if s == seq!['t', 'a', 'b'] {
        Some(Key::Tab)
    } else if s == seq!['e', 'n', 't', 'e', 'r'] {
        Some(Key::Enter)
    } else {
        None
    }
}

/// The key whose lower-case name is `s`, if there is one.
pub open spec fn key_from_lower(s: Seq<char>) -> Option<Key> {
    if exists|k: Key| key_lower_name(k) == s {
        Some(choose|k: Key| key_lower_name(k) == s)
    } else {
        None
    }
}

proof fn lemma_decode_lower_name(k: Key)
    ensures
        decode_lower_key(key_lower_name(k)) == Some(k),
{
}

proof fn lemma_decode_lower_sound(s: Seq<char>, k: Key)
    requires
        decode_lower_key(s) == Some(k),
    ensures
        s == key_lower_name(k),
{
    assert(s =~= key_lower_name(k));
}

/// Different keys have different names, so a name determines its key.
pub proof fn lemma_key_lower_name_injective(a: Key, b: Key)
    requires
        key_lower_name(a) == key_lower_name(b),
    ensures
        a == b,
{
    lemma_decode_lower_name(a);
    lemma_decode_lower_name(b);
}

proof fn lemma_decode_is_key_from_lower(s: Seq<char>)
    ensures
        decode_lower_key(s) == key_from_lower(s),
{
    match decode_lower_key(s) {
        Some(k) => {
            lemma_decode_lower_sound(s, k);
            let c = choose|c: Key| key_lower_name(c) == s;
            lemma_key_lower_name_injective(c, k);
        },
        None => {
            if exists|k: Key| key_lower_name(k) == s {
                let k = choose|k: Key| key_lower_name(k) == s;
                lemma_decode_lower_name(k);
            }
        },
    }
}

/// Parsing a key's lower-case name gives that key.
pub proof fn lemma_key_from_lower_name(k: Key)
    ensures
        key_from_lower(key_lower_name(k)) == Some(k),
{
    lemma_decode_lower_name(k);
    lemma_decode_is_key_from_lower(key_lower_name(k));
}

/// Lower-casing a key's displayed name gives its lower-case name.
pub proof fn lemma_key_display_lowercase(k: Key)
    ensures
        ascii_lowercase(key_display_name(k)) == key_lower_name(k),
        is_ascii_chars(key_display_name(k)),
        !key_display_name(k).contains('+'),
{
    assert(ascii_lowercase(key_display_name(k)) =~= key_lower_name(k));
}

/// Error for a string that names no key; it holds the string.
#[derive(Debug, Clone, PartialEq, Eq)]
pub struct ParseKeyError(pub String);

impl View for ParseKeyError {
    type V = Seq<char>;

    open spec fn view(&self) -> Seq<char> {
        self.0@
    }
}

impl Key {
    /// The key whose lower-case name is `lower`.
    pub fn from_lowercase(lower: &str) -> (r: Option<Key>)
        ensures
            r == key_from_lower(lower@),
    {
        proof {
            lemma_decode_is_key_from_lower(lower@);
        }
        let n = lower.unicode_len();
        if n == 1 {
            key_from_lower_char(lower.get_char(0))
        } else if n == 2 && lower.get_char(0) == 'f' {
            fn_key_1(lower.get_char(1))
        } else if n == 3 && lower.get_char(0) == 'f' && lower.get_char(1) == '1' {
            fn_key_10(lower.get_char(2))
        } else if n == 3 && lower.get_char(0) == 'f' && lower.get_char(1) == '2' {
            fn_key_20(lower.get_char(2))
        } else if n == 3 && lower.get_char(0) == 't' && lower.get_char(1) == 'a'
            && lower.get_char(2) == 'b' {
            assert(lower@ =~= seq!['t', 'a', 'b']);
            Some(Key::Tab)
        } else if n == 5 && lower.get_char(0) == 'e' && lower.get_char(1) == 'n'
            && lower.get_char(2) == 't' && lower.get_char(3) == 'e' && lower.get_char(4) == 'r' {
            assert(lower@ =~= seq!['e', 'n', 't', 'e', 'r']);
            Some(Key::Enter)
        } else {
            None
        }
    }

    /// Parses a key name, case insensitively.
    ///
    /// Keys are named by the character they produce when pressed, or for
    /// enter and tab, the words "enter" and "tab".
    pub fn from_str(s: &str) -> (r: Result<Key, ParseKeyError>)
        ensures
            match r {
                Ok(k) => key_from_lower(unicode_lowercase(s@)) == Some(k),
                Err(e) => key_from_lower(unicode_lowercase(s@)) is None && e@ == s@,
            },
            is_ascii_chars(s@) ==> match r {
                Ok(k) => key_from_lower(ascii_lowercase(s@)) == Some(k),
                Err(_) => key_from_lower(ascii_lowercase(s@)) is None,
            },
    {
        let lower = to_lowercase(s);
        match Key::from_lowercase(lower.as_str()) {
            Some(k) => Ok(k),
            None => Err(ParseKeyError(s.to_owned())),
        }
    }

    /// Appends the displayed name of this key to `s`.
    fn push_name(&self, s: &mut String)
        ensures
            final(s)@ == old(s)@ + key_display_name(*self),
    {
        let k = *self;
    match k {
        Key::Digit0 => {
            push_char(s, '0');
        }
        Key::Digit1 => {
            push_char(s, '1');
        }
        Key::Digit2 => {
            push_char(s, '2');
        }
        Key::Digit3 => {
            push_char(s, '3');
        }
        Key::Digit4 => {
            push_char(s, '4');
        }
        Key::Digit5 => {
            push_char(s, '5');
        }
        Key::Digit6 => {
            push_char(s, '6');
        }
        Key::Digit7 => {
            push_char(s, '7');
        }
        Key::Digit8 => {
            push_char(s, '8');
        }
        Key::Digit9 => {
            push_char(s, '9');
        }
        Key::A => {
            push_char(s, 'A');
        }
        Key::B => {
            push_char(s, 'B');
        }
        Key::C => {
            push_char(s, 'C');
        }
        Key::D => {
            push_char(s, 'D');
        }
        Key::E => {
            push_char(s, 'E');
        }
        Key::F => {
            push_char(s, 'F');
        }
        Key::G => {
            push_char(s, 'G');
        }
        Key::H => {
            push_char(s, 'H');
        }
        Key::I => {
            push_char(s, 'I');
        }
        Key::J => {
            push_char(s, 'J');
        }
        Key::K => {
            push_char(s, 'K');
        }
        Key::L => {
            push_char(s, 'L');
        }
        Key::M => {
            push_char(s, 'M');
        }
        Key::N => {
            push_char(s, 'N');
        }
        Key::O => {
            push_char(s, 'O');
        }
        Key::P => {
            push_char(s, 'P');
        }
        Key::Q => {
            push_char(s, 'Q');
        }
        Key::R => {
            push_char(s, 'R');
        }
        Key::S => {
            push_char(s, 'S');
        }
        Key::T => {
            push_char(s, 'T');
        }
        Key::U => {
            push_char(s, 'U');
        }
        Key::V => {
            push_char(s, 'V');
        }
        Key::W => {
            push_char(s, 'W');
        }
        Key::X => {
            push_char(s, 'X');
        }
        Key::Y => {
            push_char(s, 'Y');
        }
        Key::Z => {
            push_char(s, 'Z');
        }
        Key::F1 => {
            push_char(s, 'F');
            push_char(s, '1');
        }
        Key::F2 => {
            push_char(s, 'F');
            push_char(s, '2');
        }
        Key::F3 => {
            push_char(s, 'F');
            push_char(s, '3');
        }
        Key::F4 => {
            push_char(s, 'F');
            push_char(s, '4');
        }
        Key::F5 => {
            push_char(s, 'F');
            push_char(s, '5');
        }
        Key::F6 => {
            push_char(s, 'F');
            push_char(s, '6');
        }
        Key::F7 => {
            push_char(s, 'F');
            push_char(s, '7');
        }
        Key::F8 => {
            push_char(s, 'F');
            push_char(s, '8');
        }
        Key::F9 => {
            push_char(s, 'F');
            push_char(s, '9');
        }
        Key::F10 => {
            push_char(s, 'F');
            push_char(s, '1');
            push_char(s, '0');
        }
        Key::F11 => {
            push_char(s, 'F');
            push_char(s, '1');
            push_char(s, '1');
        }
        Key::F12 => {
            push_char(s, 'F');
            push_char(s, '1');
            push_char(s, '2');
        }
        Key::F13 => {
            push_char(s, 'F');
            push_char(s, '1');
            push_char(s, '3');
        }
        Key::F14 => {
            push_char(s, 'F');
            push_char(s, '1');
            push_char(s, '4');
        }
        Key::F15 => {
            push_char(s, 'F');
            push_char(s, '1');
            push_char(s, '5');
        }
        Key::F16 => {
            push_char(s, 'F');
            push_char(s, '1');
            push_char(s, '6');
        }
        Key::F17 => {
            push_char(s, 'F');
            push_char(s, '1');
            push_char(s, '7');
        }
        Key::F18 => {
            push_char(s, 'F');
            push_char(s, '1');
            push_char(s, '8');
        }
        Key::F19 => {
            push_char(s, 'F');
            push_char(s, '1');
            push_char(s, '9');
        }
        Key::F20 => {
            push_char(s, 'F');
            push_char(s, '2');
            push_char(s, '0');
        }
        Key::F21 => {
            push_char(s, 'F');
            push_char(s, '2');
            push_char(s, '1');
        }
        Key::F22 => {
            push_char(s, 'F');
            push_char(s, '2');
            push_char(s, '2');
        }
        Key::F23 => {
            push_char(s, 'F');
            push_char(s, '2');
            push_char(s, '3');
        }
        Key::F24 => {
            push_char(s, 'F');
            push_char(s, '2');
            push_char(s, '4');
        }
        Key::Backtick => {
            push_char(s, '`');
        }
        Key::Hyphen => {
            push_char(s, '-');
        }
        Key::Equal => {
            push_char(s, '=');
        }
        Key::Tab => {
            push_char(s, 'T');
            push_char(s, 'a');
            push_char(s, 'b');
        }
        Key::LeftBracket => {
            push_char(s, '[');
        }
        Key::RightBracket => {
            push_char(s, ']');
        }
        Key::Backslash => {
            push_char(s, '\\');
        }
        Key::Semicolon => {
            push_char(s, ';');
        }
        Key::Apostrophe => {
            push_char(s, '\'');
        }
        Key::Enter => {
            push_char(s, 'E');
            push_char(s, 'n');
            push_char(s, 't');
            push_char(s, 'e');
            push_char(s, 'r');
        }
        Key::Comma => {
            push_char(s, ',');
        }
        Key::Period => {
            push_char(s, '.');
        }
        Key::Slash => {
            push_char(s, '/');
        }
    }
    }

    /// The displayed name of this key: the character it produces, upper
    /// case for letters, or "Tab" and "Enter".
    pub fn to_string(&self) -> (r: String)
        ensures
            r@ == key_display_name(*self),
    {
        let mut s = String::new();
        self.push_name(&mut s);
        s
    }
}

/// A key together with the modifiers held with it.
#[derive(Debug, Clone, Copy, PartialEq, Eq, Structural, PartialOrd, Ord, Hash)]
pub struct Hotkey {
    pub key: Key,
    pub ctrl: bool,
    pub alt: bool,
    pub shift: bool,
    /// The Command key on Mac, Windows key on Windows, or Super key on Linux.
    pub meta: bool,
}

/// Why a string is not a hotkey.
#[derive(Debug, Clone, PartialEq, Eq)]
pub enum ParseAcceleratorError {
    /// A duplicate or other incompatible modifier.
    ///
    /// Modifiers are incompatible if they are the same or
    /// aliases of each other (e.g. Ctrl and Control, or
    /// just having Alt twice).
    IncompatibleModifier(String, String),
    /// An unknown modifier.
    UnknownModifier(String),
    /// Unknown key.
    UnknownKey(String),
    /// Input is empty.
    Empty,
}

/// [`ParseAcceleratorError`] with its strings taken as characters.
pub enum AcceleratorError {
    IncompatibleModifier(Seq<char>, Seq<char>),
    UnknownModifier(Seq<char>),
    UnknownKey(Seq<char>),
    Empty,
}

impl View for ParseAcceleratorError {
    type V = AcceleratorError;

    open spec fn view(&self) -> AcceleratorError {
        match self {
            ParseAcceleratorError::IncompatibleModifier(a, b) => AcceleratorError::IncompatibleModifier(
                a@,
                b@,
            ),
            ParseAcceleratorError::UnknownModifier(m) => AcceleratorError::UnknownModifier(m@),
            ParseAcceleratorError::UnknownKey(k) => AcceleratorError::UnknownKey(k@),
            ParseAcceleratorError::Empty => AcceleratorError::Empty,
        }
    }
}

/// A modifier key.
#[derive(Debug, Clone, Copy, PartialEq, Eq, Structural)]
pub enum Modifier {
    Ctrl,
    Alt,
    Shift,
    Meta,
}

/// The modifier named by the lower-case string `s`: "ctrl" or "control",
/// "alt", "shift" or "meta".
pub open spec fn modifier_from_lower(s: Seq<char>) -> Option<Modifier> {
    if s == seq!['c', 't', 'r', 'l'] || s == seq!['c', 'o', 'n', 't', 'r', 'o', 'l'] {
        Some(Modifier::Ctrl)
    } else if s == seq!['a', 'l', 't'] {
        Some(Modifier::Alt)
    } else if s == seq!['s', 'h', 'i', 'f', 't'] {
        Some(Modifier::Shift)
    } else if s == seq!['m', 'e', 't', 'a'] {
        Some(Modifier::Meta)
    } else {
        None
    }
}

fn char_at_is(s: &str, n: usize, i: usize, c: char) -> (r: bool)
    requires
        n == s@.len(),
        i < n,
    ensures
        r == (s@[i as int] == c),
{
    s.get_char(i) == c
}

/// The modifier named by the lower-case string `lower`.
pub fn modifier_from_lowercase(lower: &str) -> (r: Option<Modifier>)
    ensures
        r == modifier_from_lower(lower@),
{
    let n = lower.unicode_len();
    let l = lower;
    if n == 4 && char_at_is(l, n, 0, 'c') && char_at_is(l, n, 1, 't') && char_at_is(l, n, 2, 'r')
        && char_at_is(l, n, 3, 'l') {
        assert(l@ =~= seq!['c', 't', 'r', 'l']);
        Some(Modifier::Ctrl)
    } else if n == 7 && char_at_is(l, n, 0, 'c') && char_at_is(l, n, 1, 'o') && char_at_is(
        l,
        n,
        2,
        'n',
    ) && char_at_is(l, n, 3, 't') && char_at_is(l, n, 4, 'r') && char_at_is(l, n, 5, 'o')
        && char_at_is(l, n, 6, 'l') {
        assert(l@ =~= seq!['c', 'o', 'n', 't', 'r', 'o', 'l']);
        Some(Modifier::Ctrl)
    } else if n == 3 && char_at_is(l, n, 0, 'a') && char_at_is(l, n, 1, 'l') && char_at_is(
        l,
        n,
        2,
        't',
    ) {
        assert(l@ =~= seq!['a', 'l', 't']);
        Some(Modifier::Alt)
    } else if n == 5 && char_at_is(l, n, 0, 's') && char_at_is(l, n, 1, 'h') && char_at_is(
        l,
        n,
        2,
        'i',
    ) && char_at_is(l, n, 3, 'f') && char_at_is(l, n, 4, 't') {
        assert(l@ =~= seq!['s', 'h', 'i', 'f', 't']);
        Some(Modifier::Shift)
    } else if n == 4 && char_at_is(l, n, 0, 'm') && char_at_is(l, n, 1, 'e') && char_at_is(
        l,
        n,
        2,
        't',
    ) && char_at_is(l, n, 3, 'a') {
        assert(l@ =~= seq!['m', 'e', 't', 'a']);
        Some(Modifier::Meta)
    } else {
        None
    }
}

/// The modifiers seen so far while parsing, each with the text that named it.
pub struct ModifiersSeen {
    pub ctrl: Option<Seq<char>>,
    pub alt: Option<Seq<char>>,
    pub shift: Option<Seq<char>>,
    pub meta: Option<Seq<char>>,
}

/// No modifier seen yet.
pub open spec fn no_modifiers() -> ModifiersSeen {
    ModifiersSeen { ctrl: None, alt: None, shift: None, meta: None }
}

/// The lower-case form of a piece: by ASCII lower-casing when `ascii`,
/// else as `str::to_lowercase` gives it.
pub open spec fn lower_by(ascii: bool, s: Seq<char>) -> Seq<char> {
    if ascii {
        ascii_lowercase(s)
    } else {
        unicode_lowercase(s)
    }
}

/// Takes in the modifier piece `m`: an unknown modifier, or one already
/// seen, is an error.
pub open spec fn modifier_step(st: ModifiersSeen, m: Seq<char>) -> Result<
    ModifiersSeen,
    AcceleratorError,
> {
    modifier_step_by(st, m, false)
}

/// [`modifier_step`], with pieces lower-cased as `lower_by(ascii, ..)`.
pub open spec fn modifier_step_by(st: ModifiersSeen, m: Seq<char>, ascii: bool) -> Result<
    ModifiersSeen,
    AcceleratorError,
> {
    match modifier_from_lower(lower_by(ascii, m)) {
        None => Err(AcceleratorError::UnknownModifier(m)),
        Some(Modifier::Ctrl) => match st.ctrl {
            Some(prev) => Err(AcceleratorError::IncompatibleModifier(prev, m)),
            None => Ok(ModifiersSeen { ctrl: Some(m), ..st }),
        },
        Some(Modifier::Alt) => match st.alt {
            Some(prev) => Err(AcceleratorError::IncompatibleModifier(prev, m)),
            None => Ok(ModifiersSeen { alt: Some(m), ..st }),
        },
        Some(Modifier::Shift) => match st.shift {
            Some(prev) => Err(AcceleratorError::IncompatibleModifier(prev, m)),
            None => Ok(ModifiersSeen { shift: Some(m), ..st }),
        },
        Some(Modifier::Meta) => match st.meta {
            Some(prev) => Err(AcceleratorError::IncompatibleModifier(prev, m)),
            None => Ok(ModifiersSeen { meta: Some(m), ..st }),
        },
    }
}

/// Reads the modifier pieces from first to last, stopping at the first error.
pub open spec fn scan_modifiers(mods: Seq<Seq<char>>) -> Result<ModifiersSeen, AcceleratorError> {
    scan_modifiers_by(mods, false)
}

/// [`scan_modifiers`], with pieces lower-cased as `lower_by(ascii, ..)`.
pub open spec fn scan_modifiers_by(mods: Seq<Seq<char>>, ascii: bool) -> Result<
    ModifiersSeen,
    AcceleratorError,
>
    decreases mods.len(),
{
    if mods.len() == 0 {
        Ok(no_modifiers())
    } else {
        match scan_modifiers_by(mods.drop_last(), ascii) {
            Err(e) => Err(e),
            Ok(st) => modifier_step_by(st, mods.last(), ascii),
        }
    }
}

/// What parsing the hotkey text `s` gives: an empty text is an error of
/// its own; otherwise the last `+`-separated piece is the key, which is
/// checked first, and the pieces before it are modifiers.
pub open spec fn parse_hotkey(s: Seq<char>) -> Result<Hotkey, AcceleratorError> {
    parse_hotkey_by(s, false)
}

/// What parsing an ASCII hotkey text gives: [`parse_hotkey`] with ASCII
/// lower-casing, which is what `str::to_lowercase` does to ASCII text.
pub open spec fn parse_hotkey_ascii(s: Seq<char>) -> Result<Hotkey, AcceleratorError> {
    parse_hotkey_by(s, true)
}

/// [`parse_hotkey`], with pieces lower-cased as `lower_by(ascii, ..)`.
pub open spec fn parse_hotkey_by(s: Seq<char>, ascii: bool) -> Result<Hotkey, AcceleratorError> {
    if s.len() == 0 {
        Err(AcceleratorError::Empty)
    } else {
        let pieces = split_on(s, '+');
        let key_piece = pieces.last();
        match key_from_lower(lower_by(ascii, key_piece)) {
            None => Err(AcceleratorError::UnknownKey(key_piece)),
            Some(k) => match scan_modifiers_by(pieces.drop_last(), ascii) {
                Err(e) => Err(e),
                Ok(st) => Ok(
                    Hotkey {
                        key: k,
                        ctrl: st.ctrl is Some,
                        alt: st.alt is Some,
                        shift: st.shift is Some,
                        meta: st.meta is Some,
                    },
                ),
            },
        }
    }
}

/// Once an error is met, reading more modifiers keeps that error.
proof fn lemma_scan_error_persists(mods: Seq<Seq<char>>, j: int, ascii: bool)
    requires
        0 <= j <= mods.len(),
        scan_modifiers_by(mods.take(j), ascii) is Err,
    ensures
        scan_modifiers_by(mods, ascii) == scan_modifiers_by(mods.take(j), ascii),
    decreases mods.len() - j,
{
    if j < mods.len() {
        assert(mods.take(j + 1).drop_last() =~= mods.take(j));
        lemma_scan_error_persists(mods, j + 1, ascii);
    } else {
        assert(mods.take(j) =~= mods);
    }
}

spec fn seen_text(o: Option<&str>) -> Option<Seq<char>> {
    match o {
        Some(s) => Some(s@),
        None => None,
    }
}

spec fn seen_model(
    ctrl: Option<&str>,
    alt: Option<&str>,
    shift: Option<&str>,
    meta: Option<&str>,
) -> ModifiersSeen {
    ModifiersSeen {
        ctrl: seen_text(ctrl),
        alt: seen_text(alt),
        shift: seen_text(shift),
        meta: seen_text(meta),
    }
}

/// The displayed text of a hotkey: the held modifiers in the order Ctrl,
/// Alt, Shift, Meta, each followed by `+`, then the key's name.
pub open spec fn hotkey_display(h: Hotkey) -> Seq<char> {
    (if h.ctrl { seq!['C', 't', 'r', 'l', '+'] } else { Seq::empty() }) + (if h.alt {
        seq!['A', 'l', 't', '+']
    } else {
        Seq::empty()
    }) + (if h.shift { seq!['S', 'h', 'i', 'f', 't', '+'] } else { Seq::empty() }) + (if h.meta {
        seq!['M', 'e', 't', 'a', '+']
    } else {
        Seq::empty()
    }) + key_display_name(h.key)
}

impl Hotkey {
    /// Parses a set of modifiers then a key code, separated by `+`
    /// characters, case insensitively.
    ///
    /// Modifiers are one of "ctrl", "control", "alt", "shift" or "meta".
    ///
    /// Keys are the character produced when the key is pressed, or for
    /// enter and tab, the strings "enter" and "tab". See [`Key`] for the
    /// supported keys.
    pub fn from_str(s: &str) -> (r: Result<Hotkey, ParseAcceleratorError>)
        ensures
            match r {
                Ok(h) => parse_hotkey(s@) == Ok::<Hotkey, AcceleratorError>(h),
                Err(e) => parse_hotkey(s@) == Err::<Hotkey, AcceleratorError>(e@),
            },
            is_ascii_chars(s@) ==> match r {
                Ok(h) => parse_hotkey_ascii(s@) == Ok::<Hotkey, AcceleratorError>(h),
                Err(e) => parse_hotkey_ascii(s@) == Err::<Hotkey, AcceleratorError>(e@),
            },
    {
        if s.unicode_len() == 0 {
            return Err(ParseAcceleratorError::Empty);
        }
        let pieces = split_str(s, '+');
        proof {
            lemma_split_on_nonempty(s@, '+');
            lemma_split_on_ascii(s@, '+');
        }
        let last = pieces.len() - 1;
        let ghost all = split_on(s@, '+');
        let ghost mods = all.drop_last();
        assert(pieces@[last as int]@ == all.last());
        let key = match Key::from_str(pieces[last]) {
            Ok(k) => k,
            Err(e) => {
                return Err(ParseAcceleratorError::UnknownKey(e.0));
            },
        };
        let mut ctrl: Option<&str> = None;
        let mut alt: Option<&str> = None;
        let mut shift: Option<&str> = None;
        let mut meta: Option<&str> = None;
        let mut i: usize = 0;
        assert(mods.take(0) =~= Seq::<Seq<char>>::empty());
        while i < last
            invariant
                last + 1 == pieces@.len(),
                pieces@.len() == all.len(),
                mods == all.drop_last(),
                all == split_on(s@, '+'),
                all.len() >= 1,
                key_from_lower(unicode_lowercase(all.last())) == Some(key),
                s@.len() > 0,
                is_ascii_chars(s@) ==> key_from_lower(ascii_lowercase(all.last())) == Some(key),
                is_ascii_chars(s@) ==> forall|j: int|
                    0 <= j < all.len() ==> is_ascii_chars(#[trigger] all[j]),
                is_ascii_chars(s@) ==> scan_modifiers_by(mods.take(i as int), true) == Ok::<
                    ModifiersSeen,
                    AcceleratorError,
                >(seen_model(ctrl, alt, shift, meta)),
                forall|j: int| 0 <= j < pieces@.len() ==> #[trigger] pieces@[j]@ == all[j],
                i <= last,
                scan_modifiers(mods.take(i as int)) == Ok::<ModifiersSeen, AcceleratorError>(
                    seen_model(ctrl, alt, shift, meta),
                ),
            decreases last - i,
        {
            let m = pieces[i];
            assert(m@ == mods[i as int]);
            assert(mods.take(i + 1).drop_last() =~= mods.take(i as int));
            assert(mods.take(i + 1).last() == m@);
            let lower = to_lowercase(m);
            proof {
                if is_ascii_chars(s@) {
                    assert(is_ascii_chars(all[i as int]));
                    assert(lower@ == ascii_lowercase(m@));
                }
            }
            match modifier_from_lowercase(lower.as_str()) {
                None => {
                    proof {
                        lemma_scan_error_persists(mods, i + 1, false);
                        if is_ascii_chars(s@) {
                            lemma_scan_error_persists(mods, i + 1, true);
                        }
                    }
                    return Err(ParseAcceleratorError::UnknownModifier(m.to_owned()));
                },
                Some(Modifier::Ctrl) => {
                    if let Some(prev) = ctrl {
                        proof {
                            lemma_scan_error_persists(mods, i + 1, false);
                            if is_ascii_chars(s@) {
                                lemma_scan_error_persists(mods, i + 1, true);
                            }
                        }
                        return Err(
                            ParseAcceleratorError::IncompatibleModifier(
                                prev.to_owned(),
                                m.to_owned(),
                            ),
                        );
                    }
                    ctrl = Some(m);
                },
                Some(Modifier::Alt) => {
                    if let Some(prev) = alt {
                        proof {
                            lemma_scan_error_persists(mods, i + 1, false);
                            if is_ascii_chars(s@) {
                                lemma_scan_error_persists(mods, i + 1, true);
                            }
                        }
                        return Err(
                            ParseAcceleratorError::IncompatibleModifier(
                                prev.to_owned(),
                                m.to_owned(),
                            ),
                        );
                    }
                    alt = Some(m);
                },
                Some(Modifier::Shift) => {
                    if let Some(prev) = shift {
                        proof {
                            lemma_scan_error_persists(mods, i + 1, false);
                            if is_ascii_chars(s@) {
                                lemma_scan_error_persists(mods, i + 1, true);
                            }
                        }
                        return Err(
                            ParseAcceleratorError::IncompatibleModifier(
                                prev.to_owned(),
                                m.to_owned(),
                            ),
                        );
                    }
                    shift = Some(m);
                },
                Some(Modifier::Meta) => {
                    if let Some(prev) = meta {
                        proof {
                            lemma_scan_error_persists(mods, i + 1, false);
                            if is_ascii_chars(s@) {
                                lemma_scan_error_persists(mods, i + 1, true);
                            }
                        }
                        return Err(
                            ParseAcceleratorError::IncompatibleModifier(
                                prev.to_owned(),
                                m.to_owned(),
                            ),
                        );
                    }
                    meta = Some(m);
                },
            }
            i = i + 1;
        }
        assert(mods.take(last as int) =~= mods);
        Ok(
            Hotkey {
                key,
                ctrl: ctrl.is_some(),
                alt: alt.is_some(),
                shift: shift.is_some(),
                meta: meta.is_some(),
            },
        )
    }
}

/// Appends the displayed name of `m` and a `+`.
fn push_modifier(s: &mut String, m: Modifier)
    ensures
        final(s)@ == old(s)@ + modifier_display_name(m) + seq!['+'],
{
    match m {
        Modifier::Ctrl => {
            push_char(s, 'C');
            push_char(s, 't');
            push_char(s, 'r');
            push_char(s, 'l');
        },
        Modifier::Alt => {
            push_char(s, 'A');
            push_char(s, 'l');
            push_char(s, 't');
        },
        Modifier::Shift => {
            push_char(s, 'S');
            push_char(s, 'h');
            push_char(s, 'i');
            push_char(s, 'f');
            push_char(s, 't');
        },
        Modifier::Meta => {
            push_char(s, 'M');
            push_char(s, 'e');
            push_char(s, 't');
            push_char(s, 'a');
        },
    }
    push_char(s, '+');
}

impl Hotkey {
    /// The displayed text of this hotkey, such as "Ctrl+Shift+K".
    pub fn to_string(&self) -> (r: String)
        ensures
            r@ == hotkey_display(*self),
    {
        let h = *self;
        let ghost c = if h.ctrl { seq!['C', 't', 'r', 'l', '+'] } else { Seq::<char>::empty() };
        let ghost a = if h.alt { seq!['A', 'l', 't', '+'] } else { Seq::<char>::empty() };
        let ghost sh = if h.shift { seq!['S', 'h', 'i', 'f', 't', '+'] } else { Seq::<char>::empty() };
        let ghost me = if h.meta { seq!['M', 'e', 't', 'a', '+'] } else { Seq::<char>::empty() };
        let mut s = String::new();
        if h.ctrl {
            push_modifier(&mut s, Modifier::Ctrl);
        }
        assert(s@ =~= c);
        if h.alt {
            push_modifier(&mut s, Modifier::Alt);
        }
        assert(s@ =~= c + a);
        if h.shift {
            push_modifier(&mut s, Modifier::Shift);
        }
        assert(s@ =~= c + a + sh);
        if h.meta {
            push_modifier(&mut s, Modifier::Meta);
        }
        assert(s@ =~= c + a + sh + me);
        h.key.push_name(&mut s);
        s
    }
}

/// The text naming a modifier when a hotkey is displayed.
pub open spec fn modifier_display_name(m: Modifier) -> Seq<char> {
    match m {
        Modifier::Ctrl => seq!['C', 't', 'r', 'l'],
        Modifier::Alt => seq!['A', 'l', 't'],
        Modifier::Shift => seq!['S', 'h', 'i', 'f', 't'],
        Modifier::Meta => seq!['M', 'e', 't', 'a'],
    }
}

/// The modifier pieces of a displayed hotkey, in order.
spec fn displayed_modifiers(h: Hotkey) -> Seq<Seq<char>> {
    let p1 = if h.ctrl { seq![modifier_display_name(Modifier::Ctrl)] } else { Seq::empty() };
    let p2 = if h.alt { p1.push(modifier_display_name(Modifier::Alt)) } else { p1 };
    let p3 = if h.shift { p2.push(modifier_display_name(Modifier::Shift)) } else { p2 };
    if h.meta { p3.push(modifier_display_name(Modifier::Meta)) } else { p3 }
}

proof fn lemma_modifier_display_name(m: Modifier)
    ensures
        modifier_from_lower(ascii_lowercase(modifier_display_name(m))) == Some(m),
        !modifier_display_name(m).contains('+'),
{
    let n = modifier_display_name(m);
    match m {
        Modifier::Ctrl => assert(ascii_lowercase(n) =~= seq!['c', 't', 'r', 'l']),
        Modifier::Alt => assert(ascii_lowercase(n) =~= seq!['a', 'l', 't']),
        Modifier::Shift => assert(ascii_lowercase(n) =~= seq!['s', 'h', 'i', 'f', 't']),
        Modifier::Meta => assert(ascii_lowercase(n) =~= seq!['m', 'e', 't', 'a']),
    }
}

proof fn lemma_split_step(x: Seq<char>, name: Seq<char>, pieces: Seq<Seq<char>>)
    requires
        split_on(x, '+') == pieces.push(Seq::<char>::empty()),
        !name.contains('+'),
    ensures
        split_on(x + name + seq!['+'], '+') == pieces.push(name).push(Seq::<char>::empty()),
{
    lemma_split_on_append_plain(x, name, '+');
    let sp = split_on(x, '+');
    assert(sp.update(sp.len() - 1, sp.last() + name) =~= pieces.push(name));
    lemma_split_on_append_sep(x + name, '+');
    assert((x + name).push('+') =~= x + name + seq!['+']);
}

proof fn lemma_scan_step(p: Seq<Seq<char>>, m: Seq<char>, ascii: bool)
    ensures
        scan_modifiers_by(p.push(m), ascii) == match scan_modifiers_by(p, ascii) {
            Err(e) => Err(e),
            Ok(st) => modifier_step_by(st, m, ascii),
        },
{
    assert(p.push(m).drop_last() =~= p);
}

/// Displaying a hotkey gives ASCII text, and parsing that text back gives
/// the same hotkey.
pub proof fn lemma_hotkey_display_parse(h: Hotkey)
    ensures
        is_ascii_chars(hotkey_display(h)),
        parse_hotkey_ascii(hotkey_display(h)) == Ok::<Hotkey, AcceleratorError>(h),
{
    let c = seq!['C', 't', 'r', 'l', '+'];
    let a = seq!['A', 'l', 't', '+'];
    let sh = seq!['S', 'h', 'i', 'f', 't', '+'];
    let me = seq!['M', 'e', 't', 'a', '+'];
    lemma_modifier_display_name(Modifier::Ctrl);
    lemma_modifier_display_name(Modifier::Alt);
    lemma_modifier_display_name(Modifier::Shift);
    lemma_modifier_display_name(Modifier::Meta);
    assert(c =~= modifier_display_name(Modifier::Ctrl) + seq!['+']);
    assert(a =~= modifier_display_name(Modifier::Alt) + seq!['+']);
    assert(sh =~= modifier_display_name(Modifier::Shift) + seq!['+']);
    assert(me =~= modifier_display_name(Modifier::Meta) + seq!['+']);

    let x0 = Seq::<char>::empty();
    let p0 = Seq::<Seq<char>>::empty();
    let st0 = no_modifiers();
    assert(split_on(x0, '+') == p0.push(Seq::<char>::empty()));
    assert(scan_modifiers_by(p0, true) == Ok::<ModifiersSeen, AcceleratorError>(st0));

    let x1 = if h.ctrl { x0 + c } else { x0 };
    let p1 = if h.ctrl { p0.push(modifier_display_name(Modifier::Ctrl)) } else { p0 };
    let st1 = if h.ctrl { ModifiersSeen { ctrl: Some(modifier_display_name(Modifier::Ctrl)), ..st0 } } else { st0 };
    if h.ctrl {
        assert(x0 + c =~= x0 + modifier_display_name(Modifier::Ctrl) + seq!['+']);
        lemma_split_step(x0, modifier_display_name(Modifier::Ctrl), p0);
        lemma_scan_step(p0, modifier_display_name(Modifier::Ctrl), true);
    }
    assert(split_on(x1, '+') == p1.push(Seq::<char>::empty()));
    assert(scan_modifiers_by(p1, true) == Ok::<ModifiersSeen, AcceleratorError>(st1));

    let x2 = if h.alt { x1 + a } else { x1 };
    let p2 = if h.alt { p1.push(modifier_display_name(Modifier::Alt)) } else { p1 };
    let st2 = if h.alt { ModifiersSeen { alt: Some(modifier_display_name(Modifier::Alt)), ..st1 } } else { st1 };
    if h.alt {
        assert(x1 + a =~= x1 + modifier_display_name(Modifier::Alt) + seq!['+']);
        lemma_split_step(x1, modifier_display_name(Modifier::Alt), p1);
        lemma_scan_step(p1, modifier_display_name(Modifier::Alt), true);
    }
    assert(split_on(x2, '+') == p2.push(Seq::<char>::empty()));
    assert(scan_modifiers_by(p2, true) == Ok::<ModifiersSeen, AcceleratorError>(st2));

    let x3 = if h.shift { x2 + sh } else { x2 };
    let p3 = if h.shift { p2.push(modifier_display_name(Modifier::Shift)) } else { p2 };
    let st3 = if h.shift { ModifiersSeen { shift: Some(modifier_display_name(Modifier::Shift)), ..st2 } } else { st2 };
    if h.shift {
        assert(x2 + sh =~= x2 + modifier_display_name(Modifier::Shift) + seq!['+']);
        lemma_split_step(x2, modifier_display_name(Modifier::Shift), p2);
        lemma_scan_step(p2, modifier_display_name(Modifier::Shift), true);
    }
    assert(split_on(x3, '+') == p3.push(Seq::<char>::empty()));
    assert(scan_modifiers_by(p3, true) == Ok::<ModifiersSeen, AcceleratorError>(st3));

    let x4 = if h.meta { x3 + me } else { x3 };
    let p4 = if h.meta { p3.push(modifier_display_name(Modifier::Meta)) } else { p3 };
    let st4 = if h.meta { ModifiersSeen { meta: Some(modifier_display_name(Modifier::Meta)), ..st3 } } else { st3 };
    if h.meta {
        assert(x3 + me =~= x3 + modifier_display_name(Modifier::Meta) + seq!['+']);
        lemma_split_step(x3, modifier_display_name(Modifier::Meta), p3);
        lemma_scan_step(p3, modifier_display_name(Modifier::Meta), true);
    }
    assert(split_on(x4, '+') == p4.push(Seq::<char>::empty()));
    assert(scan_modifiers_by(p4, true) == Ok::<ModifiersSeen, AcceleratorError>(st4));

    let name = key_display_name(h.key);
    lemma_key_display_lowercase(h.key);
    lemma_key_from_lower_name(h.key);
    assert(key_lower_name(h.key).len() > 0);
    lemma_ascii_concat(c, Seq::<char>::empty());
    assert(is_ascii_chars(x4)) by {
        assert(is_ascii_chars(c) && is_ascii_chars(a) && is_ascii_chars(sh) && is_ascii_chars(me));
        assert(is_ascii_chars(x0));
        lemma_ascii_concat(x0, c);
        lemma_ascii_concat(x1, a);
        lemma_ascii_concat(x2, sh);
        lemma_ascii_concat(x3, me);
    }
    lemma_ascii_concat(x4, name);
    assert(x0 + c =~= c);
    assert(hotkey_display(h) =~= x4 + name);
    lemma_split_on_append_plain(x4, name, '+');
    let sp = split_on(x4, '+');
    assert(sp.update(sp.len() - 1, sp.last() + name) =~= p4.push(name));
    assert(p4.push(name).drop_last() =~= p4);
}

/// Which modifiers have been seen.
pub open spec fn seen_flags(st: ModifiersSeen) -> (bool, bool, bool, bool) {
    (st.ctrl is Some, st.alt is Some, st.shift is Some, st.meta is Some)
}

/// Modifier pieces that lower-case alike are read alike: both fail, or both
/// succeed and see the same modifiers.
proof fn lemma_scan_ignores_case(ms: Seq<Seq<char>>, mt: Seq<Seq<char>>)
    requires
        ms.len() == mt.len(),
        forall|i: int| 0 <= i < ms.len() ==> unicode_lowercase(#[trigger] ms[i]) == unicode_lowercase(mt[i]),
    ensures
        scan_modifiers(ms) is Ok <==> scan_modifiers(mt) is Ok,
        scan_modifiers(ms) is Ok ==> seen_flags(scan_modifiers(ms)->Ok_0) == seen_flags(
            scan_modifiers(mt)->Ok_0,
        ),
    decreases ms.len(),
{
    if ms.len() > 0 {
        let ps = ms.drop_last();
        let pt = mt.drop_last();
        assert forall|i: int| 0 <= i < ps.len() implies unicode_lowercase(#[trigger] ps[i])
            == unicode_lowercase(pt[i]) by {
            assert(ps[i] == ms[i] && pt[i] == mt[i]);
        }
        lemma_scan_ignores_case(ps, pt);
        assert(unicode_lowercase(ms.last()) == unicode_lowercase(mt.last())) by {
            assert(ms.last() == ms[ms.len() - 1]);
            assert(mt.last() == mt[mt.len() - 1]);
        }
    }
}

/// Parsing is case insensitive: two texts, both empty or both not, whose
/// `+`-separated pieces lower-case alike either both fail to parse or give
/// the same hotkey.
pub proof fn lemma_parse_ignores_case(s: Seq<char>, t: Seq<char>)
    requires
        (s.len() == 0) == (t.len() == 0),
        split_on(s, '+').len() == split_on(t, '+').len(),
        forall|i: int|
            0 <= i < split_on(s, '+').len() ==> unicode_lowercase(#[trigger] split_on(s, '+')[i])
                == unicode_lowercase(split_on(t, '+')[i]),
    ensures
        parse_hotkey(s) is Ok <==> parse_hotkey(t) is Ok,
        parse_hotkey(s) is Ok ==> parse_hotkey(s) == parse_hotkey(t),
{
    let ps = split_on(s, '+');
    let pt = split_on(t, '+');
    lemma_split_on_nonempty(s, '+');
    assert(unicode_lowercase(ps.last()) == unicode_lowercase(pt.last())) by {
        assert(ps.last() == ps[ps.len() - 1]);
        assert(pt.last() == pt[pt.len() - 1]);
    }
    let ms = ps.drop_last();
    let mt = pt.drop_last();
    assert forall|i: int| 0 <= i < ms.len() implies unicode_lowercase(#[trigger] ms[i])
        == unicode_lowercase(mt[i]) by {
        assert(ms[i] == ps[i] && mt[i] == pt[i]);
    }
    lemma_scan_ignores_case(ms, mt);
}

/// Displaying a key gives ASCII text, and parsing that text back gives the
/// same key.
pub proof fn lemma_key_display_parse(k: Key)
    ensures
        is_ascii_chars(key_display_name(k)),
        key_from_lower(ascii_lowercase(key_display_name(k))) == Some(k),
{
    lemma_key_display_lowercase(k);
    lemma_key_from_lower_name(k);
}

/// Two ASCII texts joined are ASCII.
proof fn lemma_ascii_concat(a: Seq<char>, b: Seq<char>)
    ensures
        is_ascii_chars(a) && is_ascii_chars(b) ==> is_ascii_chars(a + b),
{
    if is_ascii_chars(a) && is_ascii_chars(b) {
        assert forall|k: int| 0 <= k < (a + b).len() implies '\0' <= #[trigger] (a + b)[k] <= '\u{7f}' by {
            if k < a.len() {
                assert((a + b)[k] == a[k]);
            } else {
                assert((a + b)[k] == b[k - a.len()]);
            }
        }
    }
}

/// The message of a hotkey parse error.
pub open spec fn accelerator_error_message(e: AcceleratorError) -> Seq<char> {
    match e {
        AcceleratorError::IncompatibleModifier(m1, m2) => "incompatible modifiers "@ + debug_quoted(m1)
            + " and "@ + debug_quoted(m2) + ": specify only one of these"@,
        AcceleratorError::UnknownModifier(m) => "unknown modifier "@ + debug_quoted(m),
        AcceleratorError::UnknownKey(k) => "unknown key "@ + debug_quoted(k),
        AcceleratorError::Empty => "no accelerator provided"@,
    }
}

impl ParseAcceleratorError {
    /// The message of this error.
    pub fn to_string(&self) -> (r: String)
        ensures
            r@ == accelerator_error_message(self@),
    {
        match self {
            ParseAcceleratorError::IncompatibleModifier(m1, m2) => {
                let mut s = "incompatible modifiers ".to_owned();
                s.append(debug_str(m1.as_str()).as_str());
                s.append(" and ");
                s.append(debug_str(m2.as_str()).as_str());
                s.append(": specify only one of these");
                s
            },
            ParseAcceleratorError::UnknownModifier(m) => {
                let mut s = "unknown modifier ".to_owned();
                s.append(debug_str(m.as_str()).as_str());
                s
            },
            ParseAcceleratorError::UnknownKey(k) => {
                let mut s = "unknown key ".to_owned();
                s.append(debug_str(k.as_str()).as_str());
                s
            },
            ParseAcceleratorError::Empty => "no accelerator provided".to_owned(),
        }
    }
}

impl ParseKeyError {
    /// The message of this error.
    pub fn to_string(&self) -> (r: String)
        ensures
            r@ == "unknown key "@ + debug_quoted(self@),
    {
        let mut s = "unknown key ".to_owned();
        s.append(debug_str(self.0.as_str()).as_str());
        s
    }
}

} // verus!
