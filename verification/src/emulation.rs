//! Input backends: what is sent to the devices of each platform.

pub mod mac_k;
pub mod windows;
pub mod windows_k;

use vstd::prelude::*;

verus! {

/// A mouse button as the backends know it.
#[derive(Clone, Copy, Debug, PartialEq, Eq, Structural, Hash)]
pub enum Button {
    Left,
    Middle,
    Right,
    Back,
    Forward,
}

/// A key as the backends know it.
#[derive(Clone, Copy, Debug, PartialEq, Eq, Structural, Hash)]
pub enum JKey {
    Alt,
    AltGr,
    Backspace,
    CapsLock,
    ControlLeft,
    ControlRight,
    DownArrow,
    Escape,
    F1,
    F10,
    F11,
    F12,
    F2,
    F3,
    F4,
    F5,
    F6,
    F7,
    F8,
    F9,
    LeftArrow,
    MetaLeft,
    MetaRight,
    Return,
    RightArrow,
    ShiftLeft,
    ShiftRight,
    Space,
    Tab,
    UpArrow,
    BackQuote,
    Num1,
    Num2,
    Num3,
    Num4,
    Num5,
    Num6,
    Num7,
    Num8,
    Num9,
    Num0,
    Kp0,
    Kp1,
    Kp2,
    Kp3,
    Kp4,
    Kp5,
    Kp6,
    Kp7,
    Kp8,
    Kp9,
    KpDelete,
    KpReturn,
    KpPlus,
    KpMinus,
    KpMultiply,
    KpDivide,
    NumLock,
    Minus,
    Equal,
    Q,
    W,
    E,
    R,
    T,
    Y,
    U,
    I,
    O,
    P,
    LeftBracket,
    RightBracket,
    A,
    S,
    D,
    F,
    G,
    H,
    J,
    K,
    L,
    SemiColon,
    Quote,
    BackSlash,
    Z,
    X,
    C,
    V,
    B,
    N,
    M,
    Comma,
    Dot,
    Slash,
    IntlBackslash,
    End,
    Home,
    PageDown,
    PageUp,
    PrintScreen,
    ScrollLock,
    Pause,
    Unknown(u8),
    Application,
}

} // verus!
