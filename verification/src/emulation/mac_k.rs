//! Keyboard input for macOS: the key code that stands for a key.

use vstd::prelude::*;
use super::JKey;

verus! {

pub const ALT: u16 = 58;

pub const ALT_GR: u16 = 61;

pub const BACKSPACE: u16 = 51;

pub const CAPS_LOCK: u16 = 57;

pub const CONTROL_LEFT: u16 = 59;

pub const CONTROL_RIGHT: u16 = 62;

pub const DOWN_ARROW: u16 = 125;

pub const ESCAPE: u16 = 53;

pub const F1: u16 = 122;

pub const F10: u16 = 109;

pub const F11: u16 = 103;

pub const F12: u16 = 111;

pub const F2: u16 = 120;

pub const F3: u16 = 99;

pub const F4: u16 = 118;

pub const F5: u16 = 96;

pub const F6: u16 = 97;

pub const F7: u16 = 98;

pub const F8: u16 = 100;

pub const F9: u16 = 101;

pub const LEFT_ARROW: u16 = 123;

pub const META_LEFT: u16 = 55;

pub const META_RIGHT: u16 = 54;

pub const RETURN: u16 = 36;

pub const RIGHT_ARROW: u16 = 124;

pub const SHIFT_LEFT: u16 = 56;

pub const SHIFT_RIGHT: u16 = 60;

pub const SPACE: u16 = 49;

pub const TAB: u16 = 48;

pub const UP_ARROW: u16 = 126;

pub const BACK_QUOTE: u16 = 50;

pub const GRAVE: u16 = 10;

pub const NUM1: u16 = 18;

pub const NUM2: u16 = 19;

pub const NUM3: u16 = 20;

pub const NUM4: u16 = 21;

pub const NUM5: u16 = 23;

pub const NUM6: u16 = 22;

pub const NUM7: u16 = 26;

pub const NUM8: u16 = 28;

pub const NUM9: u16 = 25;

pub const NUM0: u16 = 29;

pub const KP_DECIMAL: u16 = 0x41;

pub const KP_MULTIPLY: u16 = 0x43;

pub const KP_PLUS: u16 = 0x45;

pub const KP_CLEAR: u16 = 0x47;

pub const KP_DIVIDE: u16 = 0x4B;

pub const KP_ENTER: u16 = 0x4C;

pub const KP_MINUS: u16 = 0x4E;

pub const KP_0: u16 = 0x52;

pub const KP_1: u16 = 0x53;

pub const KP_2: u16 = 0x54;

pub const KP_3: u16 = 0x55;

pub const KP_4: u16 = 0x56;

pub const KP_5: u16 = 0x57;

pub const KP_6: u16 = 0x58;

pub const KP_7: u16 = 0x59;

pub const KP_8: u16 = 0x5B;

pub const KP_9: u16 = 0x5C;

pub const MINUS: u16 = 27;

pub const EQUAL: u16 = 24;

pub const KEY_Q: u16 = 12;

pub const KEY_W: u16 = 13;

pub const KEY_E: u16 = 14;

pub const KEY_R: u16 = 15;

pub const KEY_T: u16 = 17;

pub const KEY_Y: u16 = 16;

pub const KEY_U: u16 = 32;

pub const KEY_I: u16 = 34;

pub const KEY_O: u16 = 31;

pub const KEY_P: u16 = 35;

pub const LEFT_BRACKET: u16 = 33;

pub const RIGHT_BRACKET: u16 = 30;

pub const KEY_A: u16 = 0;

pub const KEY_S: u16 = 1;

pub const KEY_D: u16 = 2;

pub const KEY_F: u16 = 3;

pub const KEY_G: u16 = 5;

pub const KEY_H: u16 = 4;

pub const KEY_J: u16 = 38;

pub const KEY_K: u16 = 40;

pub const KEY_L: u16 = 37;

pub const SEMI_COLON: u16 = 41;

pub const QUOTE: u16 = 39;

pub const BACK_SLASH: u16 = 42;

pub const KEY_Z: u16 = 6;

pub const KEY_X: u16 = 7;

pub const KEY_C: u16 = 8;

pub const KEY_V: u16 = 9;

pub const KEY_B: u16 = 11;

pub const KEY_N: u16 = 45;

pub const KEY_M: u16 = 46;

pub const COMMA: u16 = 43;

pub const DOT: u16 = 47;

pub const SLASH: u16 = 44;

pub const END: u16 = 119;

pub const HOME: u16 = 115;

pub const PAGEUP: u16 = 116;

pub const PAGEDOWN: u16 = 121;

/// The key code of a key, for the keys that have one.
pub open spec fn mac_code(key: JKey) -> Option<u16> {
    match key {
        JKey::Alt => Some(ALT),
        JKey::AltGr => Some(ALT_GR),
        JKey::Backspace => Some(BACKSPACE),
        JKey::CapsLock => Some(CAPS_LOCK),
        JKey::ControlLeft => Some(CONTROL_LEFT),
        JKey::ControlRight => Some(CONTROL_RIGHT),
        JKey::DownArrow => Some(DOWN_ARROW),
        JKey::Escape => Some(ESCAPE),
        JKey::F1 => Some(F1),
        JKey::F10 => Some(F10),
        JKey::F11 => Some(F11),
        JKey::F12 => Some(F12),
        JKey::F2 => Some(F2),
        JKey::F3 => Some(F3),
        JKey::F4 => Some(F4),
        JKey::F5 => Some(F5),
        JKey::F6 => Some(F6),
        JKey::F7 => Some(F7),
        JKey::F8 => Some(F8),
        JKey::F9 => Some(F9),
        JKey::LeftArrow => Some(LEFT_ARROW),
        JKey::MetaLeft => Some(META_LEFT),
        JKey::MetaRight => Some(META_RIGHT),
        JKey::Return => Some(RETURN),
        JKey::RightArrow => Some(RIGHT_ARROW),
        JKey::ShiftLeft => Some(SHIFT_LEFT),
        JKey::ShiftRight => Some(SHIFT_RIGHT),
        JKey::Space => Some(SPACE),
        JKey::Tab => Some(TAB),
        JKey::UpArrow => Some(UP_ARROW),
        JKey::BackQuote => Some(GRAVE),
        JKey::Num1 => Some(NUM1),
        JKey::Num2 => Some(NUM2),
        JKey::Num3 => Some(NUM3),
        JKey::Num4 => Some(NUM4),
        JKey::Num5 => Some(NUM5),
        JKey::Num6 => Some(NUM6),
        JKey::Num7 => Some(NUM7),
        JKey::Num8 => Some(NUM8),
        JKey::Num9 => Some(NUM9),
        JKey::Num0 => Some(NUM0),
        JKey::Kp0 => Some(KP_0),
        JKey::Kp1 => Some(KP_1),
        JKey::Kp2 => Some(KP_2),
        JKey::Kp3 => Some(KP_3),
        JKey::Kp4 => Some(KP_4),
        JKey::Kp5 => Some(KP_5),
        JKey::Kp6 => Some(KP_6),
        JKey::Kp7 => Some(KP_7),
        JKey::Kp8 => Some(KP_8),
        JKey::Kp9 => Some(KP_9),
        JKey::KpDelete => Some(KP_DECIMAL),
        JKey::KpReturn => Some(KP_ENTER),
        JKey::KpPlus => Some(KP_PLUS),
        JKey::KpMinus => Some(KP_MINUS),
        JKey::KpMultiply => Some(KP_MULTIPLY),
        JKey::KpDivide => Some(KP_DIVIDE),
        JKey::NumLock => Some(KP_CLEAR),
        JKey::Minus => Some(MINUS),
        JKey::Equal => Some(EQUAL),
        JKey::Q => Some(KEY_Q),
        JKey::W => Some(KEY_W),
        JKey::E => Some(KEY_E),
        JKey::R => Some(KEY_R),
        JKey::T => Some(KEY_T),
        JKey::Y => Some(KEY_Y),
        JKey::U => Some(KEY_U),
        JKey::I => Some(KEY_I),
        JKey::O => Some(KEY_O),
        JKey::P => Some(KEY_P),
        JKey::LeftBracket => Some(LEFT_BRACKET),
        JKey::RightBracket => Some(RIGHT_BRACKET),
        JKey::A => Some(KEY_A),
        JKey::S => Some(KEY_S),
        JKey::D => Some(KEY_D),
        JKey::F => Some(KEY_F),
        JKey::G => Some(KEY_G),
        JKey::H => Some(KEY_H),
        JKey::J => Some(KEY_J),
        JKey::K => Some(KEY_K),
        JKey::L => Some(KEY_L),
        JKey::SemiColon => Some(SEMI_COLON),
        JKey::Quote => Some(QUOTE),
        JKey::BackSlash => Some(BACK_SLASH),
        JKey::Z => Some(KEY_Z),
        JKey::X => Some(KEY_X),
        JKey::C => Some(KEY_C),
        JKey::V => Some(KEY_V),
        JKey::B => Some(KEY_B),
        JKey::N => Some(KEY_N),
        JKey::M => Some(KEY_M),
        JKey::Comma => Some(COMMA),
        JKey::Dot => Some(DOT),
        JKey::Slash => Some(SLASH),
        JKey::IntlBackslash => Some(BACK_QUOTE),
        JKey::End => Some(END),
        JKey::Home => Some(HOME),
        JKey::PageDown => Some(PAGEDOWN),
        JKey::PageUp => Some(PAGEUP),
        JKey::PrintScreen => None,
        JKey::ScrollLock => None,
        JKey::Pause => None,
        JKey::Unknown(_) => None,
        JKey::Application => None,
    }
}

/// The key code to send for a key, or nothing where the key cannot be
/// sent.
pub fn code_from_key(key: JKey) -> (code: Option<u16>)
    ensures
        code == mac_code(key),
{
    match key {
        JKey::Alt => Some(ALT),
        JKey::AltGr => Some(ALT_GR),
        JKey::Backspace => Some(BACKSPACE),
        JKey::CapsLock => Some(CAPS_LOCK),
        JKey::ControlLeft => Some(CONTROL_LEFT),
        JKey::ControlRight => Some(CONTROL_RIGHT),
        JKey::DownArrow => Some(DOWN_ARROW),
        JKey::Escape => Some(ESCAPE),
        JKey::F1 => Some(F1),
        JKey::F10 => Some(F10),
        JKey::F11 => Some(F11),
        JKey::F12 => Some(F12),
        JKey::F2 => Some(F2),
        JKey::F3 => Some(F3),
        JKey::F4 => Some(F4),
        JKey::F5 => Some(F5),
        JKey::F6 => Some(F6),
        JKey::F7 => Some(F7),
        JKey::F8 => Some(F8),
        JKey::F9 => Some(F9),
        JKey::LeftArrow => Some(LEFT_ARROW),
        JKey::MetaLeft => Some(META_LEFT),
        JKey::MetaRight => Some(META_RIGHT),
        JKey::Return => Some(RETURN),
        JKey::RightArrow => Some(RIGHT_ARROW),
        JKey::ShiftLeft => Some(SHIFT_LEFT),
        JKey::ShiftRight => Some(SHIFT_RIGHT),
        JKey::Space => Some(SPACE),
        JKey::Tab => Some(TAB),
        JKey::UpArrow => Some(UP_ARROW),
        JKey::BackQuote => Some(GRAVE),
        JKey::Num1 => Some(NUM1),
        JKey::Num2 => Some(NUM2),
        JKey::Num3 => Some(NUM3),
        JKey::Num4 => Some(NUM4),
        JKey::Num5 => Some(NUM5),
        JKey::Num6 => Some(NUM6),
        JKey::Num7 => Some(NUM7),
        JKey::Num8 => Some(NUM8),
        JKey::Num9 => Some(NUM9),
        JKey::Num0 => Some(NUM0),
        JKey::Kp0 => Some(KP_0),
        JKey::Kp1 => Some(KP_1),
        JKey::Kp2 => Some(KP_2),
        JKey::Kp3 => Some(KP_3),
        JKey::Kp4 => Some(KP_4),
        JKey::Kp5 => Some(KP_5),
        JKey::Kp6 => Some(KP_6),
        JKey::Kp7 => Some(KP_7),
        JKey::Kp8 => Some(KP_8),
        JKey::Kp9 => Some(KP_9),
        JKey::KpDelete => Some(KP_DECIMAL),
        JKey::KpReturn => Some(KP_ENTER),
        JKey::KpPlus => Some(KP_PLUS),
        JKey::KpMinus => Some(KP_MINUS),
        JKey::KpMultiply => Some(KP_MULTIPLY),
        JKey::KpDivide => Some(KP_DIVIDE),
        JKey::NumLock => Some(KP_CLEAR),
        JKey::Minus => Some(MINUS),
        JKey::Equal => Some(EQUAL),
        JKey::Q => Some(KEY_Q),
        JKey::W => Some(KEY_W),
        JKey::E => Some(KEY_E),
        JKey::R => Some(KEY_R),
        JKey::T => Some(KEY_T),
        JKey::Y => Some(KEY_Y),
        JKey::U => Some(KEY_U),
        JKey::I => Some(KEY_I),
        JKey::O => Some(KEY_O),
        JKey::P => Some(KEY_P),
        JKey::LeftBracket => Some(LEFT_BRACKET),
        JKey::RightBracket => Some(RIGHT_BRACKET),
        JKey::A => Some(KEY_A),
        JKey::S => Some(KEY_S),
        JKey::D => Some(KEY_D),
        JKey::F => Some(KEY_F),
        JKey::G => Some(KEY_G),
        JKey::H => Some(KEY_H),
        JKey::J => Some(KEY_J),
        JKey::K => Some(KEY_K),
        JKey::L => Some(KEY_L),
        JKey::SemiColon => Some(SEMI_COLON),
        JKey::Quote => Some(QUOTE),
        JKey::BackSlash => Some(BACK_SLASH),
        JKey::Z => Some(KEY_Z),
        JKey::X => Some(KEY_X),
        JKey::C => Some(KEY_C),
        JKey::V => Some(KEY_V),
        JKey::B => Some(KEY_B),
        JKey::N => Some(KEY_N),
        JKey::M => Some(KEY_M),
        JKey::Comma => Some(COMMA),
        JKey::Dot => Some(DOT),
        JKey::Slash => Some(SLASH),
        JKey::IntlBackslash => Some(BACK_QUOTE),
        JKey::End => Some(END),
        JKey::Home => Some(HOME),
        JKey::PageDown => Some(PAGEDOWN),
        JKey::PageUp => Some(PAGEUP),
        JKey::PrintScreen => None,
        JKey::ScrollLock => None,
        JKey::Pause => None,
        JKey::Unknown(_) => None,
        JKey::Application => None,
    }
}

/// No two keys are sent as the same key code.
pub proof fn lemma_codes_tell_keys_apart(first: JKey, second: JKey)
    requires
        mac_code(first) is Some,
        mac_code(first) == mac_code(second),
    ensures
        first == second,
{
}

} // verus!
