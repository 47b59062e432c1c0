//! Key identifiers and their string encodings in the configuration file.
//!
//! `KeyId` names every key the rule table can bind, plus the two modifier
//! keys that the event state machine treats specially, plus an opaque
//! `Other` for keys the engine passes through untouched.

use vstd::prelude::*;

use crate::text::{eq_ignore_case, lower_char, lower_seq, to_lower, trim_seq, trim_str};

verus! {

/// A physical key, as seen by the event state machine and the rule table.
#[derive(Debug, Copy, Clone, PartialEq, Eq, Structural)]
pub enum KeyId {
    KeyA,
    KeyB,
    KeyC,
    KeyD,
    KeyE,
    KeyF,
    KeyG,
    KeyH,
    KeyI,
    KeyJ,
    KeyK,
    KeyL,
    KeyM,
    KeyN,
    KeyO,
    KeyP,
    KeyQ,
    KeyR,
    KeyS,
    KeyT,
    KeyU,
    KeyV,
    KeyW,
    KeyX,
    KeyY,
    KeyZ,
    Num0,
    Num1,
    Num2,
    Num3,
    Num4,
    Num5,
    Num6,
    Num7,
    Num8,
    Num9,
    LeftArrow,
    RightArrow,
    UpArrow,
    DownArrow,
    Space,
    Return,
    Tab,
    Escape,
    Backspace,
    Home,
    End,
    PageUp,
    PageDown,
    Insert,
    Delete,
    F1,
    F2,
    F3,
    F4,
    F5,
    F6,
    F7,
    F8,
    F9,
    F10,
    F11,
    F12,
    /// The primary modifier key that arms the rule table.
    CapsLock,
    /// The secondary modifier whose state refines rule lookup.
    ShiftLeft,
    ControlLeft,
    ControlRight,
    LeftBracket,
    /// Any other key; such keys are always passed through unchanged.
    Other(u32),
}

/// The key a single lowercase letter or digit names, if any.
pub open spec fn spec_parse_single_char_key(ch: char) -> Option<KeyId> {
    match ch {
        'a' => Some(KeyId::KeyA),
        'b' => Some(KeyId::KeyB),
        'c' => Some(KeyId::KeyC),
        'd' => Some(KeyId::KeyD),
        'e' => Some(KeyId::KeyE),
        'f' => Some(KeyId::KeyF),
        'g' => Some(KeyId::KeyG),
        'h' => Some(KeyId::KeyH),
        'i' => Some(KeyId::KeyI),
        'j' => Some(KeyId::KeyJ),
        'k' => Some(KeyId::KeyK),
        'l' => Some(KeyId::KeyL),
        'm' => Some(KeyId::KeyM),
        'n' => Some(KeyId::KeyN),
        'o' => Some(KeyId::KeyO),
        'p' => Some(KeyId::KeyP),
        'q' => Some(KeyId::KeyQ),
        'r' => Some(KeyId::KeyR),
        's' => Some(KeyId::KeyS),
        't' => Some(KeyId::KeyT),
        'u' => Some(KeyId::KeyU),
        'v' => Some(KeyId::KeyV),
        'w' => Some(KeyId::KeyW),
        'x' => Some(KeyId::KeyX),
        'y' => Some(KeyId::KeyY),
        'z' => Some(KeyId::KeyZ),
        '0' => Some(KeyId::Num0),
        '1' => Some(KeyId::Num1),
        '2' => Some(KeyId::Num2),
        '3' => Some(KeyId::Num3),
        '4' => Some(KeyId::Num4),
        '5' => Some(KeyId::Num5),
        '6' => Some(KeyId::Num6),
        '7' => Some(KeyId::Num7),
        '8' => Some(KeyId::Num8),
        '9' => Some(KeyId::Num9),
        _ => None,
    }
}

/// Parses a single character into a key, accepting lowercase letters and
/// digits.
pub fn parse_single_char_key(ch: char) -> (r: Option<KeyId>)
    ensures
        r == spec_parse_single_char_key(ch),
{
    match ch {
        'a' => Some(KeyId::KeyA),
        'b' => Some(KeyId::KeyB),
        'c' => Some(KeyId::KeyC),
        'd' => Some(KeyId::KeyD),
        'e' => Some(KeyId::KeyE),
        'f' => Some(KeyId::KeyF),
        'g' => Some(KeyId::KeyG),
        'h' => Some(KeyId::KeyH),
        'i' => Some(KeyId::KeyI),
        'j' => Some(KeyId::KeyJ),
        'k' => Some(KeyId::KeyK),
        'l' => Some(KeyId::KeyL),
        'm' => Some(KeyId::KeyM),
        'n' => Some(KeyId::KeyN),
        'o' => Some(KeyId::KeyO),
        'p' => Some(KeyId::KeyP),
        'q' => Some(KeyId::KeyQ),
        'r' => Some(KeyId::KeyR),
        's' => Some(KeyId::KeyS),
        't' => Some(KeyId::KeyT),
        'u' => Some(KeyId::KeyU),
        'v' => Some(KeyId::KeyV),
        'w' => Some(KeyId::KeyW),
        'x' => Some(KeyId::KeyX),
        'y' => Some(KeyId::KeyY),
        'z' => Some(KeyId::KeyZ),
        '0' => Some(KeyId::Num0),
        '1' => Some(KeyId::Num1),
        '2' => Some(KeyId::Num2),
        '3' => Some(KeyId::Num3),
        '4' => Some(KeyId::Num4),
        '5' => Some(KeyId::Num5),
        '6' => Some(KeyId::Num6),
        '7' => Some(KeyId::Num7),
        '8' => Some(KeyId::Num8),
        '9' => Some(KeyId::Num9),
        _ => None,
    }
}

/// The key a configuration token names: the token is trimmed and matched
/// without regard to ASCII case, first against the named keys, then as a
/// single letter or digit.
pub open spec fn spec_parse_key(s: Seq<char>) -> Option<KeyId> {
    let f = lower_seq(trim_seq(s));
    if f == lower_seq("left"@) || f == lower_seq("leftarrow"@) {
        Some(KeyId::LeftArrow)
    } else if f == lower_seq("right"@) || f == lower_seq("rightarrow"@) {
        Some(KeyId::RightArrow)
    } else if f == lower_seq("up"@) || f == lower_seq("uparrow"@) {
        Some(KeyId::UpArrow)
    } else if f == lower_seq("down"@) || f == lower_seq("downarrow"@) {
        Some(KeyId::DownArrow)
    } else if f == lower_seq("space"@) {
        Some(KeyId::Space)
    } else if f == lower_seq("enter"@) || f == lower_seq("return"@) {
        Some(KeyId::Return)
    } else if f == lower_seq("tab"@) {
        Some(KeyId::Tab)
    } else if f == lower_seq("esc"@) || f == lower_seq("escape"@) {
        Some(KeyId::Escape)
    } else if f == lower_seq("backspace"@) {
        Some(KeyId::Backspace)
    } else if f == lower_seq("home"@) {
        Some(KeyId::Home)
    } else if f == lower_seq("end"@) {
        Some(KeyId::End)
    } else if f == lower_seq("pageup"@) {
        Some(KeyId::PageUp)
    } else if f == lower_seq("pagedown"@) {
        Some(KeyId::PageDown)
    } else if f == lower_seq("insert"@) {
        Some(KeyId::Insert)
    } else if f == lower_seq("delete"@) {
        Some(KeyId::Delete)
    } else if f == lower_seq("f1"@) {
        Some(KeyId::F1)
    } else if f == lower_seq("f2"@) {
        Some(KeyId::F2)
    } else if f == lower_seq("f3"@) {
        Some(KeyId::F3)
    } else if f == lower_seq("f4"@) {
        Some(KeyId::F4)
    } else if f == lower_seq("f5"@) {
        Some(KeyId::F5)
    } else if f == lower_seq("f6"@) {
        Some(KeyId::F6)
    } else if f == lower_seq("f7"@) {
        Some(KeyId::F7)
    } else if f == lower_seq("f8"@) {
        Some(KeyId::F8)
    } else if f == lower_seq("f9"@) {
        Some(KeyId::F9)
    } else if f == lower_seq("f10"@) {
        Some(KeyId::F10)
    } else if f == lower_seq("f11"@) {
        Some(KeyId::F11)
    } else if f == lower_seq("f12"@) {
        Some(KeyId::F12)
    } else if f.len() == 1 {
        spec_parse_single_char_key(f[0])
    } else {
        None
    }
}

/// Parses a configuration token into a key.
pub fn parse_key(value: &str) -> (r: Option<KeyId>)
    ensures
        r == spec_parse_key(value@),
{
    let t = trim_str(value);
    if eq_ignore_case(t, "left") || eq_ignore_case(t, "leftarrow") {
        Some(KeyId::LeftArrow)
    } else if eq_ignore_case(t, "right") || eq_ignore_case(t, "rightarrow") {
        Some(KeyId::RightArrow)
    } else if eq_ignore_case(t, "up") || eq_ignore_case(t, "uparrow") {
        Some(KeyId::UpArrow)
    } else if eq_ignore_case(t, "down") || eq_ignore_case(t, "downarrow") {
        Some(KeyId::DownArrow)
    } else if eq_ignore_case(t, "space") {
        Some(KeyId::Space)
    } else if eq_ignore_case(t, "enter") || eq_ignore_case(t, "return") {
        Some(KeyId::Return)
    } else if eq_ignore_case(t, "tab") {
        Some(KeyId::Tab)
    } else if eq_ignore_case(t, "esc") || eq_ignore_case(t, "escape") {
        Some(KeyId::Escape)
    } else if eq_ignore_case(t, "backspace") {
        Some(KeyId::Backspace)
    } else if eq_ignore_case(t, "home") {
        Some(KeyId::Home)
    } else if eq_ignore_case(t, "end") {
        Some(KeyId::End)
    } else if eq_ignore_case(t, "pageup") {
        Some(KeyId::PageUp)
    } else if eq_ignore_case(t, "pagedown") {
        Some(KeyId::PageDown)
    } else if eq_ignore_case(t, "insert") {
        Some(KeyId::Insert)
    } else if eq_ignore_case(t, "delete") {
        Some(KeyId::Delete)
    } else if eq_ignore_case(t, "f1") {
        Some(KeyId::F1)
    } else if eq_ignore_case(t, "f2") {
        Some(KeyId::F2)
    } else if eq_ignore_case(t, "f3") {
        Some(KeyId::F3)
    } else if eq_ignore_case(t, "f4") {
        Some(KeyId::F4)
    } else if eq_ignore_case(t, "f5") {
        Some(KeyId::F5)
    } else if eq_ignore_case(t, "f6") {
        Some(KeyId::F6)
    } else if eq_ignore_case(t, "f7") {
        Some(KeyId::F7)
    } else if eq_ignore_case(t, "f8") {
        Some(KeyId::F8)
    } else if eq_ignore_case(t, "f9") {
        Some(KeyId::F9)
    } else if eq_ignore_case(t, "f10") {
        Some(KeyId::F10)
    } else if eq_ignore_case(t, "f11") {
        Some(KeyId::F11)
    } else if eq_ignore_case(t, "f12") {
        Some(KeyId::F12)
    } else if t.unicode_len() == 1 {
        proof {
            assert(lower_seq(t@)[0] == lower_char(t@[0]));
        }
        parse_single_char_key(to_lower(t.get_char(0)))
    } else {
        proof {
            assert(lower_seq(t@).len() == t@.len());
        }
        None
    }
}

/// The configuration token that names `key`, or `"unknown"` for a key
/// that has no binding syntax.
pub open spec fn spec_key_string(key: KeyId) -> Seq<char> {
    match key {
        KeyId::KeyA => "a"@,
        KeyId::KeyB => "b"@,
        KeyId::KeyC => "c"@,
        KeyId::KeyD => "d"@,
        KeyId::KeyE => "e"@,
        KeyId::KeyF => "f"@,
        KeyId::KeyG => "g"@,
        KeyId::KeyH => "h"@,
        KeyId::KeyI => "i"@,
        KeyId::KeyJ => "j"@,
        KeyId::KeyK => "k"@,
        KeyId::KeyL => "l"@,
        KeyId::KeyM => "m"@,
        KeyId::KeyN => "n"@,
        KeyId::KeyO => "o"@,
        KeyId::KeyP => "p"@,
        KeyId::KeyQ => "q"@,
        KeyId::KeyR => "r"@,
        KeyId::KeyS => "s"@,
        KeyId::KeyT => "t"@,
        KeyId::KeyU => "u"@,
        KeyId::KeyV => "v"@,
        KeyId::KeyW => "w"@,
        KeyId::KeyX => "x"@,
        KeyId::KeyY => "y"@,
        KeyId::KeyZ => "z"@,
        KeyId::Num0 => "0"@,
        KeyId::Num1 => "1"@,
        KeyId::Num2 => "2"@,
        KeyId::Num3 => "3"@,
        KeyId::Num4 => "4"@,
        KeyId::Num5 => "5"@,
        KeyId::Num6 => "6"@,
        KeyId::Num7 => "7"@,
        KeyId::Num8 => "8"@,
        KeyId::Num9 => "9"@,
        KeyId::LeftArrow => "left"@,
        KeyId::RightArrow => "right"@,
        KeyId::UpArrow => "up"@,
        KeyId::DownArrow => "down"@,
        KeyId::Space => "space"@,
        KeyId::Return => "enter"@,
        KeyId::Tab => "tab"@,
        KeyId::Escape => "esc"@,
        KeyId::Backspace => "backspace"@,
        KeyId::Home => "home"@,
        KeyId::End => "end"@,
        KeyId::PageUp => "pageup"@,
        KeyId::PageDown => "pagedown"@,
        KeyId::Insert => "insert"@,
        KeyId::Delete => "delete"@,
        KeyId::F1 => "f1"@,
        KeyId::F2 => "f2"@,
        KeyId::F3 => "f3"@,
        KeyId::F4 => "f4"@,
        KeyId::F5 => "f5"@,
        KeyId::F6 => "f6"@,
        KeyId::F7 => "f7"@,
        KeyId::F8 => "f8"@,
        KeyId::F9 => "f9"@,
        KeyId::F10 => "f10"@,
        KeyId::F11 => "f11"@,
        KeyId::F12 => "f12"@,
        _ => "unknown"@,
    }
}

/// Renders `key` as its configuration token.
pub fn key_to_string(key: KeyId) -> (r: String)
    ensures
        r@ == spec_key_string(key),
{
    let s = match key {
        KeyId::KeyA => "a",
        KeyId::KeyB => "b",
        KeyId::KeyC => "c",
        KeyId::KeyD => "d",
        KeyId::KeyE => "e",
        KeyId::KeyF => "f",
        KeyId::KeyG => "g",
        KeyId::KeyH => "h",
        KeyId::KeyI => "i",
        KeyId::KeyJ => "j",
        KeyId::KeyK => "k",
        KeyId::KeyL => "l",
        KeyId::KeyM => "m",
        KeyId::KeyN => "n",
        KeyId::KeyO => "o",
        KeyId::KeyP => "p",
        KeyId::KeyQ => "q",
        KeyId::KeyR => "r",
        KeyId::KeyS => "s",
        KeyId::KeyT => "t",
        KeyId::KeyU => "u",
        KeyId::KeyV => "v",
        KeyId::KeyW => "w",
        KeyId::KeyX => "x",
        KeyId::KeyY => "y",
        KeyId::KeyZ => "z",
        KeyId::Num0 => "0",
        KeyId::Num1 => "1",
        KeyId::Num2 => "2",
        KeyId::Num3 => "3",
        KeyId::Num4 => "4",
        KeyId::Num5 => "5",
        KeyId::Num6 => "6",
        KeyId::Num7 => "7",
        KeyId::Num8 => "8",
        KeyId::Num9 => "9",
        KeyId::LeftArrow => "left",
        KeyId::RightArrow => "right",
        KeyId::UpArrow => "up",
        KeyId::DownArrow => "down",
        KeyId::Space => "space",
        KeyId::Return => "enter",
        KeyId::Tab => "tab",
        KeyId::Escape => "esc",
        KeyId::Backspace => "backspace",
        KeyId::Home => "home",
        KeyId::End => "end",
        KeyId::PageUp => "pageup",
        KeyId::PageDown => "pagedown",
        KeyId::Insert => "insert",
        KeyId::Delete => "delete",
        KeyId::F1 => "f1",
        KeyId::F2 => "f2",
        KeyId::F3 => "f3",
        KeyId::F4 => "f4",
        KeyId::F5 => "f5",
        KeyId::F6 => "f6",
        KeyId::F7 => "f7",
        KeyId::F8 => "f8",
        KeyId::F9 => "f9",
        KeyId::F10 => "f10",
        KeyId::F11 => "f11",
        KeyId::F12 => "f12",
        _ => "unknown",
    };
    s.to_owned()
}

} // verus!
