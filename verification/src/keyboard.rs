//! Keyboard code resolution: the bridge's static lookup from a
//! platform key-code string to a semantic key identity, a physical
//! key-code identity, and a text payload.
//!
//! The full production table is generated offline from the public
//! key-naming specification; this module carries its resolution rules:
//! letter and digit codes become character identities, vendor-specific
//! modifier names alias the generic ones, `NumpadEnter` and the legacy
//! `Return` alias `Enter`, and every unknown code resolves to an
//! explicit `Unidentified` identity, never an error.

use vstd::prelude::*;

verus! {

/// Semantic key identity: either a printable character or a named
/// non-printable key. Left/right modifier variants collapse to one
/// semantic identity.
#[derive(Clone, Copy, Debug, PartialEq, Eq, Structural)]
pub enum Key {
    Character(char),
    Tab,
    Enter,
    Escape,
    Shift,
    Control,
    Alt,
    Meta,
    ArrowUp,
    ArrowDown,
    ArrowLeft,
    ArrowRight,
    Unidentified,
}

/// Physical key-code identity. Left/right modifiers stay distinct;
/// vendor-specific names alias onto these.
#[derive(Clone, Copy, Debug, PartialEq, Eq, Structural)]
pub enum KeyCode {
    Letter(char),
    Digit(char),
    Space,
    Tab,
    Enter,
    NumpadEnter,
    Escape,
    ShiftLeft,
    ShiftRight,
    ControlLeft,
    ControlRight,
    AltLeft,
    AltRight,
    MetaLeft,
    MetaRight,
    ArrowUp,
    ArrowDown,
    ArrowLeft,
    ArrowRight,
    Unidentified,
}

/// A decoded keyboard event, ready for the input substrate.
#[derive(Clone, Copy, Debug, PartialEq, Eq, Structural)]
pub struct KeyboardInput {
    pub key_code: KeyCode,
    pub logical_key: Key,
    pub pressed: bool,
    pub text: Option<char>,
    pub repeat: bool,
}

/// Lower-case counterpart of an upper-case ASCII letter.
pub open spec fn lower_letter_spec(c: char) -> char {
    match c {
        'A' => 'a',
        'B' => 'b',
        'C' => 'c',
        'D' => 'd',
        'E' => 'e',
        'F' => 'f',
        'G' => 'g',
        'H' => 'h',
        'I' => 'i',
        'J' => 'j',
        'K' => 'k',
        'L' => 'l',
        'M' => 'm',
        'N' => 'n',
        'O' => 'o',
        'P' => 'p',
        'Q' => 'q',
        'R' => 'r',
        'S' => 's',
        'T' => 't',
        'U' => 'u',
        'V' => 'v',
        'W' => 'w',
        'X' => 'x',
        'Y' => 'y',
        'Z' => 'z',
        _ => c,
    }
}

fn lower_letter(c: char) -> (r: char)
    ensures
        r == lower_letter_spec(c),
{
    match c {
        'A' => 'a',
        'B' => 'b',
        'C' => 'c',
        'D' => 'd',
        'E' => 'e',
        'F' => 'f',
        'G' => 'g',
        'H' => 'h',
        'I' => 'i',
        'J' => 'j',
        'K' => 'k',
        'L' => 'l',
        'M' => 'm',
        'N' => 'n',
        'O' => 'o',
        'P' => 'p',
        'Q' => 'q',
        'R' => 'r',
        'S' => 's',
        'T' => 't',
        'U' => 'u',
        'V' => 'v',
        'W' => 'w',
        'X' => 'x',
        'Y' => 'y',
        'Z' => 'z',
        _ => c,
    }
}

/// Verified character-wise string equality.
pub fn str_eq(a: &str, b: &str) -> (r: bool)
    ensures
        r == (a@ == b@),
{
    let la: usize = a.unicode_len();
    let lb: usize = b.unicode_len();
    if la != lb {
        proof {
            assert(a@ != b@);
        }
        return false;
    }
    let mut i: usize = 0;
    while i < la
        invariant
            la == a@.len(),
            la == b@.len(),
            i <= la,
            forall |j: int| 0 <= j < i ==> a@[j] == b@[j],
        decreases la - i,
    {
        if a.get_char(i) != b.get_char(i) {
            return false;
        }
        i += 1;
    }
    proof {
        assert(a@ =~= b@);
    }
    true
}

/// True when `s` is a letter code: `Key` followed by one upper-case
/// ASCII letter.
pub open spec fn is_letter_code(s: Seq<char>) -> bool {
    s.len() == 4 && s.subrange(0, 3) == "Key"@ && 'A' <= s[3] <= 'Z'
}

/// True when `s` is a digit code: `Digit` followed by one ASCII digit.
pub open spec fn is_digit_code(s: Seq<char>) -> bool {
    s.len() == 6 && s.subrange(0, 5) == "Digit"@ && '0' <= s[5] <= '9'
}

/// The semantic key identity of a platform code string.
pub open spec fn as_key_spec(s: Seq<char>) -> Key {
    if is_letter_code(s) {
        Key::Character(lower_letter_spec(s[3]))
    } else if is_digit_code(s) {
        Key::Character(s[5])
    } else if s == "Space"@ {
        Key::Character(' ')
    } else if s == "Tab"@ {
        Key::Tab
    } else if s == "Enter"@ || s == "NumpadEnter"@ || s == "Return"@ {
        Key::Enter
    } else if s == "Escape"@ {
        Key::Escape
    } else if s == "ShiftLeft"@ || s == "ShiftRight"@ {
        Key::Shift
    } else if s == "ControlLeft"@ || s == "ControlRight"@ {
        Key::Control
    } else if s == "AltLeft"@ || s == "AltRight"@ {
        Key::Alt
    } else if s == "MetaLeft"@ || s == "MetaRight"@ || s == "OSLeft"@ || s == "OSRight"@ {
        Key::Meta
    } else if s == "ArrowUp"@ {
        Key::ArrowUp
    } else if s == "ArrowDown"@ {
        Key::ArrowDown
    } else if s == "ArrowLeft"@ {
        Key::ArrowLeft
    } else if s == "ArrowRight"@ {
        Key::ArrowRight
    } else {
        Key::Unidentified
    }
}

/// The physical key-code identity of a platform code string.
pub open spec fn as_key_code_spec(s: Seq<char>) -> KeyCode {
    if is_letter_code(s) {
        KeyCode::Letter(s[3])
    } else if is_digit_code(s) {
        KeyCode::Digit(s[5])
    } else if s == "Space"@ {
        KeyCode::Space
    } else if s == "Tab"@ {
        KeyCode::Tab
    } else if s == "Enter"@ || s == "Return"@ {
        KeyCode::Enter
    } else if s == "NumpadEnter"@ {
        KeyCode::NumpadEnter
    } else if s == "Escape"@ {
        KeyCode::Escape
    } else if s == "ShiftLeft"@ {
        KeyCode::ShiftLeft
    } else if s == "ShiftRight"@ {
        KeyCode::ShiftRight
    } else if s == "ControlLeft"@ {
        KeyCode::ControlLeft
    } else if s == "ControlRight"@ {
        KeyCode::ControlRight
    } else if s == "AltLeft"@ {
        KeyCode::AltLeft
    } else if s == "AltRight"@ {
        KeyCode::AltRight
    } else if s == "MetaLeft"@ || s == "OSLeft"@ {
        KeyCode::MetaLeft
    } else if s == "MetaRight"@ || s == "OSRight"@ {
        KeyCode::MetaRight
    } else if s == "ArrowUp"@ {
        KeyCode::ArrowUp
    } else if s == "ArrowDown"@ {
        KeyCode::ArrowDown
    } else if s == "ArrowLeft"@ {
        KeyCode::ArrowLeft
    } else if s == "ArrowRight"@ {
        KeyCode::ArrowRight
    } else {
        KeyCode::Unidentified
    }
}

fn letter_suffix(code: &str) -> (r: Option<char>)
    ensures
        r is Some <==> is_letter_code(code@),
        r is Some ==> r.unwrap() == code@[3],
{
    let n: usize = code.unicode_len();
    if n != 4 {
        return None;
    }
    let pre = code.substring_char(0, 3);
    if !str_eq(pre, "Key") {
        return None;
    }
    let c = code.get_char(3);
    if 'A' <= c && c <= 'Z' {
        proof {
            assert(code@.subrange(0, 3) == "Key"@);
        }
        Some(c)
    } else {
        None
    }
}

fn digit_suffix(code: &str) -> (r: Option<char>)
    ensures
        r is Some <==> is_digit_code(code@),
        r is Some ==> r.unwrap() == code@[5],
{
    let n: usize = code.unicode_len();
    if n != 6 {
        return None;
    }
    let pre = code.substring_char(0, 5);
    if !str_eq(pre, "Digit") {
        return None;
    }
    let c = code.get_char(5);
    if '0' <= c && c <= '9' {
        proof {
            assert(code@.subrange(0, 5) == "Digit"@);
        }
        Some(c)
    } else {
        None
    }
}

/// Resolve a platform code string to its semantic key identity.
pub fn as_key(code: &str) -> (r: Key)
    ensures
        r == as_key_spec(code@),
{
    if let Some(c) = letter_suffix(code) {
        return Key::Character(lower_letter(c));
    }
    if let Some(c) = digit_suffix(code) {
        return Key::Character(c);
    }
    if str_eq(code, "Space") {
        Key::Character(' ')
    } else if str_eq(code, "Tab") {
        Key::Tab
    } else if str_eq(code, "Enter") || str_eq(code, "NumpadEnter") || str_eq(code, "Return") {
        Key::Enter
    } else if str_eq(code, "Escape") {
        Key::Escape
    } else if str_eq(code, "ShiftLeft") || str_eq(code, "ShiftRight") {
        Key::Shift
    } else if str_eq(code, "ControlLeft") || str_eq(code, "ControlRight") {
        Key::Control
    } else if str_eq(code, "AltLeft") || str_eq(code, "AltRight") {
        Key::Alt
    } else if str_eq(code, "MetaLeft") || str_eq(code, "MetaRight")
        || str_eq(code, "OSLeft") || str_eq(code, "OSRight") {
        Key::Meta
    } else if str_eq(code, "ArrowUp") {
        Key::ArrowUp
    } else if str_eq(code, "ArrowDown") {
        Key::ArrowDown
    } else if str_eq(code, "ArrowLeft") {
        Key::ArrowLeft
    } else if str_eq(code, "ArrowRight") {
        Key::ArrowRight
    } else {
        Key::Unidentified
    }
}

/// Resolve a platform code string to its physical key-code identity.
pub fn as_key_code(code: &str) -> (r: KeyCode)
    ensures
        r == as_key_code_spec(code@),
{
    if let Some(c) = letter_suffix(code) {
        return KeyCode::Letter(c);
    }
    if let Some(c) = digit_suffix(code) {
        return KeyCode::Digit(c);
    }
    if str_eq(code, "Space") {
        KeyCode::Space
    } else if str_eq(code, "Tab") {
        KeyCode::Tab
    } else if str_eq(code, "Enter") || str_eq(code, "Return") {
        KeyCode::Enter
    } else if str_eq(code, "NumpadEnter") {
        KeyCode::NumpadEnter
    } else if str_eq(code, "Escape") {
        KeyCode::Escape
    } else if str_eq(code, "ShiftLeft") {
        KeyCode::ShiftLeft
    } else if str_eq(code, "ShiftRight") {
        KeyCode::ShiftRight
    } else if str_eq(code, "ControlLeft") {
        KeyCode::ControlLeft
    } else if str_eq(code, "ControlRight") {
        KeyCode::ControlRight
    } else if str_eq(code, "AltLeft") {
        KeyCode::AltLeft
    } else if str_eq(code, "AltRight") {
        KeyCode::AltRight
    } else if str_eq(code, "MetaLeft") || str_eq(code, "OSLeft") {
        KeyCode::MetaLeft
    } else if str_eq(code, "MetaRight") || str_eq(code, "OSRight") {
        KeyCode::MetaRight
    } else if str_eq(code, "ArrowUp") {
        KeyCode::ArrowUp
    } else if str_eq(code, "ArrowDown") {
        KeyCode::ArrowDown
    } else if str_eq(code, "ArrowLeft") {
        KeyCode::ArrowLeft
    } else if str_eq(code, "ArrowRight") {
        KeyCode::ArrowRight
    } else {
        KeyCode::Unidentified
    }
}

/// The text payload a key produces: printable characters pass through,
/// `Tab` yields a tab character, `Enter` a carriage return, everything
/// else no text.
pub open spec fn key_text_spec(key: Key) -> Option<char> {
    match key {
        Key::Character(c) => Some(c),
        Key::Tab => Some('\t'),
        Key::Enter => Some('\r'),
        _ => None,
    }
}

/// The text payload of a semantic key.
pub fn key_text(key: &Key) -> (r: Option<char>)
    ensures
        r == key_text_spec(*key),
{
    match key {
        Key::Character(c) => Some(*c),
        Key::Tab => Some('\t'),
        Key::Enter => Some('\r'),
        _ => None,
    }
}

/// Decode one keyboard event from its platform code string.
pub fn decode_key_event(code: &str, pressed: bool, repeat: bool) -> (r: KeyboardInput)
    ensures
        r == (KeyboardInput {
            key_code: as_key_code_spec(code@),
            logical_key: as_key_spec(code@),
            pressed,
            text: key_text_spec(as_key_spec(code@)),
            repeat,
        }),
{
    let key = as_key(code);
    let text = key_text(&key);
    KeyboardInput {
        key_code: as_key_code(code),
        logical_key: key,
        pressed,
        text,
        repeat,
    }
}

} // verus!
