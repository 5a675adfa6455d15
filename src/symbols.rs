//! The key and button symbol tables: from platform identifiers to the
//! canonical tokens carried by actions.
use vstd::prelude::*;
use crate::event::{Button, Key};

verus! {

/// First tier: the token of a named key. Left and right variants of a
/// modifier share one token, and keypad digits share the digit row's tokens.
pub open spec fn named_key_token(key: Key) -> Option<Seq<char>> {
    match key {
        Key::Space => Some("Space"@),
        Key::Alt => Some("Alt"@),
        Key::AltGr => Some("Alt"@),
        Key::ControlLeft => Some("Control"@),
        Key::ControlRight => Some("Control"@),
        Key::ShiftLeft => Some("Shift"@),
        Key::ShiftRight => Some("Shift"@),
        Key::MetaLeft => Some("Meta"@),
        Key::MetaRight => Some("Meta"@),
        Key::Escape => Some("Escape"@),
        Key::F1 => Some("F1"@),
        Key::F2 => Some("F2"@),
        Key::F3 => Some("F3"@),
        Key::F4 => Some("F4"@),
        Key::F5 => Some("F5"@),
        Key::F6 => Some("F6"@),
        Key::F7 => Some("F7"@),
        Key::F8 => Some("F8"@),
        Key::F9 => Some("F9"@),
        Key::F10 => Some("F10"@),
        Key::F11 => Some("F11"@),
        Key::F12 => Some("F12"@),
        Key::Tab => Some("Tab"@),
        Key::Return => Some("Return"@),
        Key::Backspace => Some("Backspace"@),
        Key::CapsLock => Some("CapsLock"@),
        Key::Insert => Some("Insert"@),
        Key::Delete => Some("Delete"@),
        Key::Home => Some("Home"@),
        Key::End => Some("End"@),
        Key::PageUp => Some("PageUp"@),
        Key::PageDown => Some("PageDown"@),
        Key::UpArrow => Some("UpArrow"@),
        Key::DownArrow => Some("DownArrow"@),
        Key::LeftArrow => Some("LeftArrow"@),
        Key::RightArrow => Some("RightArrow"@),
        Key::KeyQ => Some("KeyQ"@),
        Key::KeyW => Some("KeyW"@),
        Key::KeyE => Some("KeyE"@),
        Key::KeyR => Some("KeyR"@),
        Key::KeyT => Some("KeyT"@),
        Key::KeyY => Some("KeyY"@),
        Key::KeyU => Some("KeyU"@),
        Key::KeyI => Some("KeyI"@),
        Key::KeyO => Some("KeyO"@),
        Key::KeyP => Some("KeyP"@),
        Key::KeyA => Some("KeyA"@),
        Key::KeyS => Some("KeyS"@),
        Key::KeyD => Some("KeyD"@),
        Key::KeyF => Some("KeyF"@),
        Key::KeyG => Some("KeyG"@),
        Key::KeyH => Some("KeyH"@),
        Key::KeyJ => Some("KeyJ"@),
        Key::KeyK => Some("KeyK"@),
        Key::KeyL => Some("KeyL"@),
        Key::KeyZ => Some("KeyZ"@),
        Key::KeyX => Some("KeyX"@),
        Key::KeyC => Some("KeyC"@),
        Key::KeyV => Some("KeyV"@),
        Key::KeyB => Some("KeyB"@),
        Key::KeyN => Some("KeyN"@),
        Key::KeyM => Some("KeyM"@),
        Key::Num1 => Some("Num1"@),
        Key::Num2 => Some("Num2"@),
        Key::Num3 => Some("Num3"@),
        Key::Num4 => Some("Num4"@),
        Key::Num5 => Some("Num5"@),
        Key::Num6 => Some("Num6"@),
        Key::Num7 => Some("Num7"@),
        Key::Num8 => Some("Num8"@),
        Key::Num9 => Some("Num9"@),
        Key::Num0 => Some("Num0"@),
        Key::Kp0 => Some("Num0"@),
        Key::Kp1 => Some("Num1"@),
        Key::Kp2 => Some("Num2"@),
        Key::Kp3 => Some("Num3"@),
        Key::Kp4 => Some("Num4"@),
        Key::Kp5 => Some("Num5"@),
        Key::Kp6 => Some("Num6"@),
        Key::Kp7 => Some("Num7"@),
        Key::Kp8 => Some("Num8"@),
        Key::Kp9 => Some("Num9"@),
        _ => None,
    }
}

/// Second tier: the token of an unnamed punctuation key, by the platform's
/// virtual key code.
pub open spec fn key_code_token(code: u32) -> Option<Seq<char>> {
    match code {
        188 => Some(","@),
        190 => Some("."@),
        191 => Some("/"@),
        186 => Some(";"@),
        222 => Some("'"@),
        219 => Some("["@),
        221 => Some("]"@),
        220 => Some("\\"@),
        189 => Some("-"@),
        187 => Some("="@),
        _ => None,
    }
}

/// The token of a key: the first tier, then for an unnamed key the second.
/// `None` means the key produces no action.
pub open spec fn key_token(key: Key) -> Option<Seq<char>> {
    match named_key_token(key) {
        Some(t) => Some(t),
        None => match key {
            Key::Unknown(code) => key_code_token(code),
            _ => None,
        },
    }
}

/// The first tier of the key table.
pub fn named_key_symbol(key: Key) -> (r: Option<&'static str>)
    ensures
        match r {
            Some(s) => named_key_token(key) == Some(s@),
            None => named_key_token(key) is None,
        },
{
    match key {
        Key::Space => Some("Space"),
        Key::Alt => Some("Alt"),
        Key::AltGr => Some("Alt"),
        Key::ControlLeft => Some("Control"),
        Key::ControlRight => Some("Control"),
        Key::ShiftLeft => Some("Shift"),
        Key::ShiftRight => Some("Shift"),
        Key::MetaLeft => Some("Meta"),
        Key::MetaRight => Some("Meta"),
        Key::Escape => Some("Escape"),
        Key::F1 => Some("F1"),
        Key::F2 => Some("F2"),
        Key::F3 => Some("F3"),
        Key::F4 => Some("F4"),
        Key::F5 => Some("F5"),
        Key::F6 => Some("F6"),
        Key::F7 => Some("F7"),
        Key::F8 => Some("F8"),
        Key::F9 => Some("F9"),
        Key::F10 => Some("F10"),
        Key::F11 => Some("F11"),
        Key::F12 => Some("F12"),
        Key::Tab => Some("Tab"),
        Key::Return => Some("Return"),
        Key::Backspace => Some("Backspace"),
        Key::CapsLock => Some("CapsLock"),
        Key::Insert => Some("Insert"),
        Key::Delete => Some("Delete"),
        Key::Home => Some("Home"),
        Key::End => Some("End"),
        Key::PageUp => Some("PageUp"),
        Key::PageDown => Some("PageDown"),
        Key::UpArrow => Some("UpArrow"),
        Key::DownArrow => Some("DownArrow"),
        Key::LeftArrow => Some("LeftArrow"),
        Key::RightArrow => Some("RightArrow"),
        Key::KeyQ => Some("KeyQ"),
        Key::KeyW => Some("KeyW"),
        Key::KeyE => Some("KeyE"),
        Key::KeyR => Some("KeyR"),
        Key::KeyT => Some("KeyT"),
        Key::KeyY => Some("KeyY"),
        Key::KeyU => Some("KeyU"),
        Key::KeyI => Some("KeyI"),
        Key::KeyO => Some("KeyO"),
        Key::KeyP => Some("KeyP"),
        Key::KeyA => Some("KeyA"),
        Key::KeyS => Some("KeyS"),
        Key::KeyD => Some("KeyD"),
        Key::KeyF => Some("KeyF"),
        Key::KeyG => Some("KeyG"),
        Key::KeyH => Some("KeyH"),
        Key::KeyJ => Some("KeyJ"),
        Key::KeyK => Some("KeyK"),
        Key::KeyL => Some("KeyL"),
        Key::KeyZ => Some("KeyZ"),
        Key::KeyX => Some("KeyX"),
        Key::KeyC => Some("KeyC"),
        Key::KeyV => Some("KeyV"),
        Key::KeyB => Some("KeyB"),
        Key::KeyN => Some("KeyN"),
        Key::KeyM => Some("KeyM"),
        Key::Num1 => Some("Num1"),
        Key::Num2 => Some("Num2"),
        Key::Num3 => Some("Num3"),
        Key::Num4 => Some("Num4"),
        Key::Num5 => Some("Num5"),
        Key::Num6 => Some("Num6"),
        Key::Num7 => Some("Num7"),
        Key::Num8 => Some("Num8"),
        Key::Num9 => Some("Num9"),
        Key::Num0 => Some("Num0"),
        Key::Kp0 => Some("Num0"),
        Key::Kp1 => Some("Num1"),
        Key::Kp2 => Some("Num2"),
        Key::Kp3 => Some("Num3"),
        Key::Kp4 => Some("Num4"),
        Key::Kp5 => Some("Num5"),
        Key::Kp6 => Some("Num6"),
        Key::Kp7 => Some("Num7"),
        Key::Kp8 => Some("Num8"),
        Key::Kp9 => Some("Num9"),
        _ => None,
    }
}

/// The second tier of the key table.
pub fn key_code_symbol(code: u32) -> (r: Option<&'static str>)
    ensures
        match r {
            Some(s) => key_code_token(code) == Some(s@),
            None => key_code_token(code) is None,
        },
{
    match code {
        188 => Some(","),
        190 => Some("."),
        191 => Some("/"),
        186 => Some(";"),
        222 => Some("'"),
        219 => Some("["),
        221 => Some("]"),
        220 => Some("\\"),
        189 => Some("-"),
        187 => Some("="),
        _ => None,
    }
}

/// Resolves a key through both tiers of the table.
pub fn map_key(key: Key) -> (r: Option<String>)
    ensures
        match r {
            Some(s) => key_token(key) == Some(s@),
            None => key_token(key) is None,
        },
{
    if let Some(s) = named_key_symbol(key) {
        return Some(String::from_str(s));
    }
    match key {
        Key::Unknown(code) => match key_code_symbol(code) {
            Some(s) => Some(String::from_str(s)),
            None => None,
        },
        _ => None,
    }
}

/// The decimal text of one digit.
pub open spec fn digit_text(d: nat) -> Seq<char> {
    if d == 0 {
        "0"@
    } else if d == 1 {
        "1"@
    } else if d == 2 {
        "2"@
    } else if d == 3 {
        "3"@
    } else if d == 4 {
        "4"@
    } else if d == 5 {
        "5"@
    } else if d == 6 {
        "6"@
    } else if d == 7 {
        "7"@
    } else if d == 8 {
        "8"@
    } else {
        "9"@
    }
}

/// The decimal text of a number, without leading zeros.
pub open spec fn decimal_text(n: nat) -> Seq<char>
    decreases n,
{
    if n < 10 {
        digit_text(n)
    } else {
        decimal_text(n / 10) + digit_text(n % 10)
    }
}

/// The token of a mouse button: the first three by position, any other by
/// its raw code.
pub open spec fn button_token(button: Button) -> Seq<char> {
    match button {
        Button::Left => "Mouse1"@,
        Button::Right => "Mouse2"@,
        Button::Middle => "Mouse3"@,
        Button::Unknown(code) => "Mouse"@ + decimal_text(code as nat),
    }
}

fn digit_str(d: u8) -> (r: &'static str)
    requires
        d < 10,
    ensures
        r@ == digit_text(d as nat),
{
    match d {
        0 => "0",
        1 => "1",
        2 => "2",
        3 => "3",
        4 => "4",
        5 => "5",
        6 => "6",
        7 => "7",
        8 => "8",
        _ => "9",
    }
}

/// Appends the decimal text of `n` to `out`.
fn push_decimal(out: &mut String, n: u8)
    ensures
        final(out)@ == old(out)@ + decimal_text(n as nat),
{
    if n >= 100 {
        out.append(digit_str(n / 100));
    }
    if n >= 10 {
        out.append(digit_str((n / 10) % 10));
    }
    out.append(digit_str(n % 10));
    proof {
        let k = n as nat;
        if k >= 100 {
            assert(decimal_text(k / 10) == decimal_text(k / 100) + digit_text((k / 10) % 10));
        } else if k >= 10 {
            assert(decimal_text(k / 10) == digit_text(k / 10));
        }
    }
}

/// Resolves a mouse button to its token.
pub fn map_button(button: Button) -> (r: String)
    ensures
        r@ == button_token(button),
{
    match button {
        Button::Left => String::from_str("Mouse1"),
        Button::Right => String::from_str("Mouse2"),
        Button::Middle => String::from_str("Mouse3"),
        Button::Unknown(code) => {
            let mut out = String::from_str("Mouse");
            push_decimal(&mut out, code);
            out
        },
    }
}

} // verus!
