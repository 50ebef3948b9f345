//! Keyboard input for Windows: which scan code, which virtual key and which
//! flags stand for a key.

use std::collections::HashMap;
use vstd::prelude::*;
use vstd::std_specs::hash::*;

verus! {

/// The virtual key of an entry whose virtual key depends on the keyboard
/// layout.
pub const VK_LAYOUT_DEPENDENT: u16 = 0;

/// No extension prefix.
pub const _X__: u8 = 0x00;

/// The extension prefix of the extended keys.
pub const EXT0: u8 = 0xE0;

/// The extension prefix of the pause key.
pub const EXT1: u8 = 0xE1;

/// The key is an extended key.
pub const KEYEVENTF_EXTENDEDKEY: u32 = 1;

/// The key is released.
pub const KEYEVENTF_KEYUP: u32 = 2;

/// The scan code names the key, not the virtual key.
pub const KEYEVENTF_SCANCODE: u32 = 8;

/// The virtual key that stands for no key.
pub const VK_NONE: u8 = 0xFF;

pub const VK_ADD: u16 = 0x6B;

pub const VK_APPS: u16 = 0x5D;

pub const VK_CLEAR: u16 = 0x0C;

pub const VK_DECIMAL: u16 = 0x6E;

pub const VK_DELETE: u16 = 0x2E;

pub const VK_DIVIDE: u16 = 0x6F;

pub const VK_DOWN: u16 = 0x28;

pub const VK_END: u16 = 0x23;

pub const VK_F1: u16 = 0x70;

pub const VK_F10: u16 = 0x79;

pub const VK_F11: u16 = 0x7A;

pub const VK_F12: u16 = 0x7B;

pub const VK_F2: u16 = 0x71;

pub const VK_F3: u16 = 0x72;

pub const VK_F4: u16 = 0x73;

pub const VK_F5: u16 = 0x74;

pub const VK_F6: u16 = 0x75;

pub const VK_F7: u16 = 0x76;

pub const VK_F8: u16 = 0x77;

pub const VK_F9: u16 = 0x78;

pub const VK_HOME: u16 = 0x24;

pub const VK_INSERT: u16 = 0x2D;

pub const VK_LCONTROL: u16 = 0xA2;

pub const VK_LEFT: u16 = 0x25;

pub const VK_LMENU: u16 = 0xA4;

pub const VK_LWIN: u16 = 0x5B;

pub const VK_MEDIA_NEXT_TRACK: u16 = 0xB0;

pub const VK_MEDIA_PLAY_PAUSE: u16 = 0xB3;

pub const VK_MEDIA_PREV_TRACK: u16 = 0xB1;

pub const VK_MEDIA_STOP: u16 = 0xB2;

pub const VK_MULTIPLY: u16 = 0x6A;

pub const VK_NEXT: u16 = 0x22;

pub const VK_NUMLOCK: u16 = 0x90;

pub const VK_NUMPAD0: u16 = 0x60;

pub const VK_NUMPAD1: u16 = 0x61;

pub const VK_NUMPAD2: u16 = 0x62;

pub const VK_NUMPAD3: u16 = 0x63;

pub const VK_NUMPAD4: u16 = 0x64;

pub const VK_NUMPAD5: u16 = 0x65;

pub const VK_NUMPAD6: u16 = 0x66;

pub const VK_NUMPAD7: u16 = 0x67;

pub const VK_NUMPAD8: u16 = 0x68;

pub const VK_NUMPAD9: u16 = 0x69;

pub const VK_PAUSE: u16 = 0x13;

pub const VK_PRINT: u16 = 0x2A;

pub const VK_PRIOR: u16 = 0x21;

pub const VK_RCONTROL: u16 = 0xA3;

pub const VK_RETURN: u16 = 0x0D;

pub const VK_RIGHT: u16 = 0x27;

pub const VK_RMENU: u16 = 0xA5;

pub const VK_RWIN: u16 = 0x5C;

pub const VK_SCROLL: u16 = 0x91;

pub const VK_SPACE: u16 = 0x20;

pub const VK_SUBTRACT: u16 = 0x6D;

pub const VK_UP: u16 = 0x26;

pub const VK_VOLUME_DOWN: u16 = 0xAE;

pub const VK_VOLUME_MUTE: u16 = 0xAD;

pub const VK_VOLUME_UP: u16 = 0xAF;

/// How a key is sent: its scan code, its extension prefix, and its virtual
/// key, or `VK_LAYOUT_DEPENDENT`.
#[derive(Clone, Copy, Debug, PartialEq, Eq, Structural)]
pub struct WinKey(pub u16, pub u8, pub u16);

/// One keyboard event, as the input queue takes it.
#[derive(Clone, Copy, Debug, PartialEq, Eq, Structural)]
pub struct KeyInput {
    pub scan: u16,
    pub vk: u16,
    pub flags: u32,
}

/// Why no keyboard event was made.
#[derive(Clone, Copy, Debug, PartialEq, Eq, Structural)]
pub enum KeyError {
    /// The table has no entry for the key.
    NotSupported(u8),
    /// The extension prefix of the entry is not one that can be sent.
    InvalidExtendedScanCode,
    /// The table has no entry for the key, and the layout was to be asked.
    CouldNotSimulate,
}

/// Keys below this one are entered into the table first.
pub const UPPER_KEYS: u8 = 0x60;

/// How each key is sent, by its virtual key on a US layout.
pub open spec fn win_key(vk: u8) -> Option<WinKey> {
    match vk {
        0x30 => Some(WinKey(0x0B, _X__, VK_LAYOUT_DEPENDENT)),
        0x31 => Some(WinKey(0x02, _X__, VK_LAYOUT_DEPENDENT)),
        0x32 => Some(WinKey(0x03, _X__, VK_LAYOUT_DEPENDENT)),
        0x33 => Some(WinKey(0x04, _X__, VK_LAYOUT_DEPENDENT)),
        0x34 => Some(WinKey(0x05, _X__, VK_LAYOUT_DEPENDENT)),
        0x35 => Some(WinKey(0x06, _X__, VK_LAYOUT_DEPENDENT)),
        0x36 => Some(WinKey(0x07, _X__, VK_LAYOUT_DEPENDENT)),
        0x37 => Some(WinKey(0x08, _X__, VK_LAYOUT_DEPENDENT)),
        0x38 => Some(WinKey(0x09, _X__, VK_LAYOUT_DEPENDENT)),
        0x39 => Some(WinKey(0x0A, _X__, VK_LAYOUT_DEPENDENT)),
        0x41 => Some(WinKey(0x1E, _X__, VK_LAYOUT_DEPENDENT)),
        0x42 => Some(WinKey(0x30, _X__, VK_LAYOUT_DEPENDENT)),
        0x43 => Some(WinKey(0x2E, _X__, VK_LAYOUT_DEPENDENT)),
        0x44 => Some(WinKey(0x20, _X__, VK_LAYOUT_DEPENDENT)),
        0x45 => Some(WinKey(0x12, _X__, VK_LAYOUT_DEPENDENT)),
        0x46 => Some(WinKey(0x21, _X__, VK_LAYOUT_DEPENDENT)),
        0x47 => Some(WinKey(0x22, _X__, VK_LAYOUT_DEPENDENT)),
        0x48 => Some(WinKey(0x23, _X__, VK_LAYOUT_DEPENDENT)),
        0x49 => Some(WinKey(0x17, _X__, VK_LAYOUT_DEPENDENT)),
        0x4A => Some(WinKey(0x24, _X__, VK_LAYOUT_DEPENDENT)),
        0x4B => Some(WinKey(0x25, _X__, VK_LAYOUT_DEPENDENT)),
        0x4C => Some(WinKey(0x26, _X__, VK_LAYOUT_DEPENDENT)),
        0x4D => Some(WinKey(0x32, _X__, VK_LAYOUT_DEPENDENT)),
        0x4E => Some(WinKey(0x31, _X__, VK_LAYOUT_DEPENDENT)),
        0x4F => Some(WinKey(0x18, _X__, VK_LAYOUT_DEPENDENT)),
        0x50 => Some(WinKey(0x19, _X__, VK_LAYOUT_DEPENDENT)),
        0x51 => Some(WinKey(0x10, _X__, VK_LAYOUT_DEPENDENT)),
        0x52 => Some(WinKey(0x13, _X__, VK_LAYOUT_DEPENDENT)),
        0x53 => Some(WinKey(0x1F, _X__, VK_LAYOUT_DEPENDENT)),
        0x54 => Some(WinKey(0x14, _X__, VK_LAYOUT_DEPENDENT)),
        0x55 => Some(WinKey(0x16, _X__, VK_LAYOUT_DEPENDENT)),
        0x56 => Some(WinKey(0x2F, _X__, VK_LAYOUT_DEPENDENT)),
        0x57 => Some(WinKey(0x11, _X__, VK_LAYOUT_DEPENDENT)),
        0x58 => Some(WinKey(0x2D, _X__, VK_LAYOUT_DEPENDENT)),
        0x59 => Some(WinKey(0x15, _X__, VK_LAYOUT_DEPENDENT)),
        0x5A => Some(WinKey(0x2C, _X__, VK_LAYOUT_DEPENDENT)),
        0x70 => Some(WinKey(0x3B, _X__, VK_F1)),
        0x71 => Some(WinKey(0x3C, _X__, VK_F2)),
        0x72 => Some(WinKey(0x3D, _X__, VK_F3)),
        0x73 => Some(WinKey(0x3E, _X__, VK_F4)),
        0x74 => Some(WinKey(0x3F, _X__, VK_F5)),
        0x75 => Some(WinKey(0x40, _X__, VK_F6)),
        0x76 => Some(WinKey(0x41, _X__, VK_F7)),
        0x77 => Some(WinKey(0x42, _X__, VK_F8)),
        0x78 => Some(WinKey(0x43, _X__, VK_F9)),
        0x79 => Some(WinKey(0x44, _X__, VK_F10)),
        0x7A => Some(WinKey(0x57, _X__, VK_F11)),
        0x7B => Some(WinKey(0x58, _X__, VK_F12)),
        0x60 => Some(WinKey(0x52, _X__, VK_NUMPAD0)),
        0x61 => Some(WinKey(0x4F, _X__, VK_NUMPAD1)),
        0x62 => Some(WinKey(0x50, _X__, VK_NUMPAD2)),
        0x63 => Some(WinKey(0x51, _X__, VK_NUMPAD3)),
        0x64 => Some(WinKey(0x4B, _X__, VK_NUMPAD4)),
        0x65 => Some(WinKey(0x4C, _X__, VK_NUMPAD5)),
        0x66 => Some(WinKey(0x4D, _X__, VK_NUMPAD6)),
        0x67 => Some(WinKey(0x47, _X__, VK_NUMPAD7)),
        0x68 => Some(WinKey(0x48, _X__, VK_NUMPAD8)),
        0x69 => Some(WinKey(0x49, _X__, VK_NUMPAD9)),
        0x6A => Some(WinKey(0x37, _X__, VK_MULTIPLY)),
        0x6B => Some(WinKey(0x4E, _X__, VK_ADD)),
        0x6D => Some(WinKey(0x4A, _X__, VK_SUBTRACT)),
        0x6E => Some(WinKey(0x53, _X__, VK_DECIMAL)),
        0x6F => Some(WinKey(0x35, EXT0, VK_DIVIDE)),
        0x0C => Some(WinKey(0x4C, _X__, VK_CLEAR)),
        0x90 => Some(WinKey(0x45, EXT0, VK_NUMLOCK)),
        0x26 => Some(WinKey(0x48, EXT0, VK_UP)),
        0x25 => Some(WinKey(0x4B, EXT0, VK_LEFT)),
        0x27 => Some(WinKey(0x4D, EXT0, VK_RIGHT)),
        0x28 => Some(WinKey(0x50, EXT0, VK_DOWN)),
        0x2D => Some(WinKey(0x52, EXT0, VK_INSERT)),
        0x23 => Some(WinKey(0x4F, EXT0, VK_END)),
        0x2E => Some(WinKey(0x53, EXT0, VK_DELETE)),
        0x24 => Some(WinKey(0x47, EXT0, VK_HOME)),
        0x21 => Some(WinKey(0x49, EXT0, VK_PRIOR)),
        0x22 => Some(WinKey(0x51, EXT0, VK_NEXT)),
        0xBA => Some(WinKey(0x27, _X__, VK_LAYOUT_DEPENDENT)),
        0xBB => Some(WinKey(0x0D, _X__, VK_LAYOUT_DEPENDENT)),
        0xBC => Some(WinKey(0x33, _X__, VK_LAYOUT_DEPENDENT)),
        0xBD => Some(WinKey(0x0C, _X__, VK_LAYOUT_DEPENDENT)),
        0xBE => Some(WinKey(0x34, _X__, VK_LAYOUT_DEPENDENT)),
        0xBF => Some(WinKey(0x35, _X__, VK_LAYOUT_DEPENDENT)),
        0xC0 => Some(WinKey(0x29, _X__, VK_LAYOUT_DEPENDENT)),
        0xDB => Some(WinKey(0x1A, _X__, VK_LAYOUT_DEPENDENT)),
        0xDC => Some(WinKey(0x2B, _X__, VK_LAYOUT_DEPENDENT)),
        0xDD => Some(WinKey(0x1B, _X__, VK_LAYOUT_DEPENDENT)),
        0xDE => Some(WinKey(0x28, _X__, VK_LAYOUT_DEPENDENT)),
        0xE2 => Some(WinKey(0x56, _X__, VK_LAYOUT_DEPENDENT)),
        0x2C => Some(WinKey(0x37, EXT0, VK_PRINT)),
        0x91 => Some(WinKey(0x46, _X__, VK_SCROLL)),
        0x13 => Some(WinKey(0x1D, EXT1, VK_PAUSE)),
        0x1B => Some(WinKey(0x01, _X__, VK_LAYOUT_DEPENDENT)),
        0x09 => Some(WinKey(0x0F, _X__, VK_LAYOUT_DEPENDENT)),
        0x14 => Some(WinKey(0x3A, _X__, VK_LAYOUT_DEPENDENT)),
        0xA0 => Some(WinKey(0x2A, _X__, VK_LAYOUT_DEPENDENT)),
        0xA2 => Some(WinKey(0x1D, _X__, VK_LCONTROL)),
        0x5B => Some(WinKey(0x5B, EXT0, VK_LWIN)),
        0xA4 => Some(WinKey(0x38, _X__, VK_LMENU)),
        0x20 => Some(WinKey(0x39, _X__, VK_SPACE)),
        0xA5 => Some(WinKey(0x38, EXT0, VK_RMENU)),
        0x5D => Some(WinKey(0x5D, EXT0, VK_APPS)),
        0x5C => Some(WinKey(0x5C, EXT0, VK_RWIN)),
        0xA3 => Some(WinKey(0x1D, EXT0, VK_RCONTROL)),
        0xA1 => Some(WinKey(0x36, _X__, VK_LAYOUT_DEPENDENT)),
        0x0D => Some(WinKey(0x1C, _X__, VK_LAYOUT_DEPENDENT)),
        0x08 => Some(WinKey(0x0E, _X__, VK_LAYOUT_DEPENDENT)),
        0xAD => Some(WinKey(0x00, _X__, VK_VOLUME_MUTE)),
        0xAE => Some(WinKey(0x00, _X__, VK_VOLUME_DOWN)),
        0xAF => Some(WinKey(0x00, _X__, VK_VOLUME_UP)),
        0xB0 => Some(WinKey(0x00, _X__, VK_MEDIA_NEXT_TRACK)),
        0xB1 => Some(WinKey(0x00, _X__, VK_MEDIA_PREV_TRACK)),
        0xB2 => Some(WinKey(0x00, _X__, VK_MEDIA_STOP)),
        0xB3 => Some(WinKey(0x00, _X__, VK_MEDIA_PLAY_PAUSE)),
        0x0A => Some(WinKey(0x1C, EXT0, VK_RETURN)),
        _ => None,
    }
}

/// The table of all keys that can be sent.
pub open spec fn key_table() -> Map<u8, WinKey> {
    Map::new(|vk: u8| win_key(vk) is Some, |vk: u8| win_key(vk)->0)
}

/// The part of the table below a key.
pub open spec fn key_table_below(limit: u8) -> Map<u8, WinKey> {
    Map::new(|vk: u8| vk < limit && win_key(vk) is Some, |vk: u8| win_key(vk)->0)
}

/// The flags that go with an entry when the scan code is sent wherever the
/// virtual key depends on the layout. Only entries without a prefix and
/// entries of extended keys can be sent this way.
pub open spec fn hybrid_flags(key: WinKey) -> Option<u32> {
    if key.1 == _X__ && key.2 == VK_LAYOUT_DEPENDENT {
        Some(KEYEVENTF_SCANCODE)
    } else if key.1 == EXT0 && key.2 == VK_LAYOUT_DEPENDENT {
        Some(KEYEVENTF_SCANCODE | KEYEVENTF_EXTENDEDKEY)
    } else if key.1 == EXT0 {
        Some(KEYEVENTF_EXTENDEDKEY)
    } else if key.1 == _X__ {
        Some(0u32)
    } else {
        None
    }
}

/// The flags of an event: those of the key, with the release flag where the
/// key comes up.
pub open spec fn with_motion(flags: u32, pressed: bool) -> u32 {
    if pressed {
        flags
    } else {
        flags | KEYEVENTF_KEYUP
    }
}

/// The event that presses or releases a key, the scan code standing for
/// the key wherever the virtual key depends on the layout.
pub open spec fn hybrid_input(win_vk: u8, pressed: bool) -> Result<KeyInput, KeyError> {
    match win_key(win_vk) {
        None => Err(KeyError::NotSupported(win_vk)),
        Some(key) => match hybrid_flags(key) {
            None => Err(KeyError::InvalidExtendedScanCode),
            Some(flags) => Ok(
                KeyInput { scan: key.0, vk: key.2, flags: with_motion(flags, pressed) },
            ),
        },
    }
}

/// The scan code to ask the keyboard layout about: the prefix in the high
/// byte, the scan code below it.
pub open spec fn prefixed_scan_code(scan: u16, ext: u8) -> u16 {
    (ext as u16) << 8 | scan
}

/// What an entry becomes once the layout has been asked: the scan code,
/// the virtual key of the entry or, where that depends on the layout, the
/// one the layout gave, and the flags.
pub open spec fn layout_key(raw_data: WinKey, layout_vk: u16) -> KeyInput {
    KeyInput {
        scan: raw_data.0,
        vk: if raw_data.2 == VK_LAYOUT_DEPENDENT {
            layout_vk
        } else {
            raw_data.2
        },
        flags: if raw_data.1 == 0 {
            KEYEVENTF_EXTENDEDKEY
        } else {
            0u32
        },
    }
}

/// The event that presses or releases a key by its virtual key, given what
/// the layout made of its scan code. The key that stands for none gives no
/// event.
pub open spec fn layout_input(win_vk: u8, pressed: bool, layout_vk: u16) -> Result<
    Option<KeyInput>,
    KeyError,
> {
    if win_vk == VK_NONE {
        Ok(None)
    } else {
        match win_key(win_vk) {
            Some(raw) => Ok(
                Some(
                    KeyInput {
                        flags: with_motion(layout_key(raw, layout_vk).flags, pressed),
                        ..layout_key(raw, layout_vk)
                    },
                ),
            ),
            None => Err(KeyError::CouldNotSimulate),
        }
    }
}

/// The scan code to ask the keyboard layout about, prefix included.
pub fn scan_to_vk(scan: u16, ext: u8) -> (scancode: u16)
    ensures
        scancode == prefixed_scan_code(scan, ext),
{
    (ext as u16) << 8 | scan
}

/// What an entry becomes once the layout has been asked.
pub fn key_to_layout_key(raw_data: &WinKey, layout_vk: u16) -> (code: KeyInput)
    ensures
        code == layout_key(*raw_data, layout_vk),
{
    let scan = raw_data.0;
    let flags = if raw_data.1 == 0 {
        KEYEVENTF_EXTENDEDKEY
    } else {
        0
    };
    let vk = if raw_data.2 == VK_LAYOUT_DEPENDENT {
        layout_vk
    } else {
        raw_data.2
    };
    KeyInput { scan, vk, flags }
}

/// The keyboard: the table of the keys that can be sent.
pub struct Keyboard {
    keys: HashMap<u8, WinKey>,
}

impl View for Keyboard {
    type V = Map<u8, WinKey>;

    closed spec fn view(&self) -> Map<u8, WinKey> {
        self.keys@
    }
}

impl Keyboard {
    #[verifier::type_invariant]
    spec fn holds_the_table(self) -> bool {
        self.keys@ == key_table()
    }

    /// A keyboard with the whole table.
    pub fn new() -> (keyboard: Keyboard)
        ensures
            keyboard@ == key_table(),
    {
        Self { keys: Self::create_hash() }
    }

    /// The entry of a key, where the table has one.
    pub fn entry(&self, win_vk: u8) -> (found: Option<WinKey>)
        ensures
            found == win_key(win_vk),
    {
        broadcast use group_hash_axioms;

        proof {
            use_type_invariant(self);
        }
        match self.keys.get(&win_vk) {
            Some(key) => Some(*key),
            None => None,
        }
    }

    /// The event that presses a key by its virtual key.
    pub fn key_down(&self, win_vk: u8, layout_vk: u16) -> (input: Result<
        Option<KeyInput>,
        KeyError,
    >)
        ensures
            input == layout_input(win_vk, true, layout_vk),
    {
        self.key(win_vk, true, layout_vk)
    }

    /// The event that releases a key by its virtual key.
    pub fn key_up(&self, win_vk: u8, layout_vk: u16) -> (input: Result<Option<KeyInput>, KeyError>)
        ensures
            input == layout_input(win_vk, false, layout_vk),
    {
        self.key(win_vk, false, layout_vk)
    }

    /// The event that presses or releases a key, the scan code standing for
    /// the key wherever the virtual key depends on the layout.
    pub fn key_emu_hybrid(&self, win_vk: u8, pressed: bool) -> (input: Result<KeyInput, KeyError>)
        ensures
            input == hybrid_input(win_vk, pressed),
    {
        let a = match self.entry(win_vk) {
            Some(a) => a,
            None => return Err(KeyError::NotSupported(win_vk)),
        };

        let scan = a.0;
        let ext = a.1;
        let vk = a.2;

        let kb_def: u32 = 0;
        assert(0u32 | KEYEVENTF_SCANCODE == KEYEVENTF_SCANCODE) by (bit_vector);
        assert(0u32 | KEYEVENTF_EXTENDEDKEY == KEYEVENTF_EXTENDEDKEY) by (bit_vector);
        let key_flags = if ext == 0 && vk == VK_LAYOUT_DEPENDENT {
            kb_def | KEYEVENTF_SCANCODE
        } else if ext == EXT0 && vk == VK_LAYOUT_DEPENDENT {
            kb_def | KEYEVENTF_SCANCODE | KEYEVENTF_EXTENDEDKEY
        } else if ext == EXT0 {
            kb_def | KEYEVENTF_EXTENDEDKEY
        } else if ext == 0 {
            kb_def
        } else {
            return Err(KeyError::InvalidExtendedScanCode);
        };

        match pressed {
            true => Ok(KeyInput { scan, vk, flags: key_flags }),
            false => Ok(KeyInput { scan, vk, flags: key_flags | KEYEVENTF_KEYUP }),
        }
    }

    fn key(&self, win_vk: u8, pressed: bool, layout_vk: u16) -> (input: Result<
        Option<KeyInput>,
        KeyError,
    >)
        ensures
            input == layout_input(win_vk, pressed, layout_vk),
    {
        if win_vk == VK_NONE {
            return Ok(None);
        };
        match self.entry(win_vk) {
            Some(raw) => {
                let sc = key_to_layout_key(&raw, layout_vk);
                match pressed {
                    true => Ok(Some(sc)),
                    false => Ok(
                        Some(KeyInput { scan: sc.scan, vk: sc.vk, flags: sc.flags | KEYEVENTF_KEYUP }),
                    ),
                }
            },
            None => Err(KeyError::CouldNotSimulate),
        }
    }

    fn insert_lower_keys(s: &mut HashMap<u8, WinKey>)
        requires
            old(s)@ == Map::<u8, WinKey>::empty(),
        ensures
            final(s)@ == key_table_below(UPPER_KEYS),
    {
        broadcast use group_hash_axioms;

        s.insert(0x30, WinKey(0x0B, _X__, VK_LAYOUT_DEPENDENT));
        s.insert(0x31, WinKey(0x02, _X__, VK_LAYOUT_DEPENDENT));
        s.insert(0x32, WinKey(0x03, _X__, VK_LAYOUT_DEPENDENT));
        s.insert(0x33, WinKey(0x04, _X__, VK_LAYOUT_DEPENDENT));
        s.insert(0x34, WinKey(0x05, _X__, VK_LAYOUT_DEPENDENT));
        s.insert(0x35, WinKey(0x06, _X__, VK_LAYOUT_DEPENDENT));
        s.insert(0x36, WinKey(0x07, _X__, VK_LAYOUT_DEPENDENT));
        s.insert(0x37, WinKey(0x08, _X__, VK_LAYOUT_DEPENDENT));
        s.insert(0x38, WinKey(0x09, _X__, VK_LAYOUT_DEPENDENT));
        s.insert(0x39, WinKey(0x0A, _X__, VK_LAYOUT_DEPENDENT));
        s.insert(0x41, WinKey(0x1E, _X__, VK_LAYOUT_DEPENDENT));
        s.insert(0x42, WinKey(0x30, _X__, VK_LAYOUT_DEPENDENT));
        s.insert(0x43, WinKey(0x2E, _X__, VK_LAYOUT_DEPENDENT));
        s.insert(0x44, WinKey(0x20, _X__, VK_LAYOUT_DEPENDENT));
        s.insert(0x45, WinKey(0x12, _X__, VK_LAYOUT_DEPENDENT));
        s.insert(0x46, WinKey(0x21, _X__, VK_LAYOUT_DEPENDENT));
        s.insert(0x47, WinKey(0x22, _X__, VK_LAYOUT_DEPENDENT));
        s.insert(0x48, WinKey(0x23, _X__, VK_LAYOUT_DEPENDENT));
        s.insert(0x49, WinKey(0x17, _X__, VK_LAYOUT_DEPENDENT));
        s.insert(0x4A, WinKey(0x24, _X__, VK_LAYOUT_DEPENDENT));
        s.insert(0x4B, WinKey(0x25, _X__, VK_LAYOUT_DEPENDENT));
        s.insert(0x4C, WinKey(0x26, _X__, VK_LAYOUT_DEPENDENT));
        s.insert(0x4D, WinKey(0x32, _X__, VK_LAYOUT_DEPENDENT));
        s.insert(0x4E, WinKey(0x31, _X__, VK_LAYOUT_DEPENDENT));
        s.insert(0x4F, WinKey(0x18, _X__, VK_LAYOUT_DEPENDENT));
        s.insert(0x50, WinKey(0x19, _X__, VK_LAYOUT_DEPENDENT));
        s.insert(0x51, WinKey(0x10, _X__, VK_LAYOUT_DEPENDENT));
        s.insert(0x52, WinKey(0x13, _X__, VK_LAYOUT_DEPENDENT));
        s.insert(0x53, WinKey(0x1F, _X__, VK_LAYOUT_DEPENDENT));
        s.insert(0x54, WinKey(0x14, _X__, VK_LAYOUT_DEPENDENT));
        s.insert(0x55, WinKey(0x16, _X__, VK_LAYOUT_DEPENDENT));
        s.insert(0x56, WinKey(0x2F, _X__, VK_LAYOUT_DEPENDENT));
        s.insert(0x57, WinKey(0x11, _X__, VK_LAYOUT_DEPENDENT));
        s.insert(0x58, WinKey(0x2D, _X__, VK_LAYOUT_DEPENDENT));
        s.insert(0x59, WinKey(0x15, _X__, VK_LAYOUT_DEPENDENT));
        s.insert(0x5A, WinKey(0x2C, _X__, VK_LAYOUT_DEPENDENT));
        s.insert(0x0C, WinKey(0x4C, _X__, VK_CLEAR));
        s.insert(0x26, WinKey(0x48, EXT0, VK_UP));
        s.insert(0x25, WinKey(0x4B, EXT0, VK_LEFT));
        s.insert(0x27, WinKey(0x4D, EXT0, VK_RIGHT));
        s.insert(0x28, WinKey(0x50, EXT0, VK_DOWN));
        s.insert(0x2D, WinKey(0x52, EXT0, VK_INSERT));
        s.insert(0x23, WinKey(0x4F, EXT0, VK_END));
        s.insert(0x2E, WinKey(0x53, EXT0, VK_DELETE));
        s.insert(0x24, WinKey(0x47, EXT0, VK_HOME));
        s.insert(0x21, WinKey(0x49, EXT0, VK_PRIOR));
        s.insert(0x22, WinKey(0x51, EXT0, VK_NEXT));
        s.insert(0x2C, WinKey(0x37, EXT0, VK_PRINT));
        s.insert(0x13, WinKey(0x1D, EXT1, VK_PAUSE));
        s.insert(0x1B, WinKey(0x01, _X__, VK_LAYOUT_DEPENDENT));
        s.insert(0x09, WinKey(0x0F, _X__, VK_LAYOUT_DEPENDENT));
        s.insert(0x14, WinKey(0x3A, _X__, VK_LAYOUT_DEPENDENT));
        s.insert(0x5B, WinKey(0x5B, EXT0, VK_LWIN));
        s.insert(0x20, WinKey(0x39, _X__, VK_SPACE));
        s.insert(0x5D, WinKey(0x5D, EXT0, VK_APPS));
        s.insert(0x5C, WinKey(0x5C, EXT0, VK_RWIN));
        s.insert(0x0D, WinKey(0x1C, _X__, VK_LAYOUT_DEPENDENT));
        s.insert(0x08, WinKey(0x0E, _X__, VK_LAYOUT_DEPENDENT));
        s.insert(0x0A, WinKey(0x1C, EXT0, VK_RETURN));
        assert(s@ =~= key_table_below(UPPER_KEYS));
    }

    fn insert_upper_keys(s: &mut HashMap<u8, WinKey>)
        requires
            old(s)@ == key_table_below(UPPER_KEYS),
        ensures
            final(s)@ == key_table(),
    {
        broadcast use group_hash_axioms;

        s.insert(0x70, WinKey(0x3B, _X__, VK_F1));
        s.insert(0x71, WinKey(0x3C, _X__, VK_F2));
        s.insert(0x72, WinKey(0x3D, _X__, VK_F3));
        s.insert(0x73, WinKey(0x3E, _X__, VK_F4));
        s.insert(0x74, WinKey(0x3F, _X__, VK_F5));
        s.insert(0x75, WinKey(0x40, _X__, VK_F6));
        s.insert(0x76, WinKey(0x41, _X__, VK_F7));
        s.insert(0x77, WinKey(0x42, _X__, VK_F8));
        s.insert(0x78, WinKey(0x43, _X__, VK_F9));
        s.insert(0x79, WinKey(0x44, _X__, VK_F10));
        s.insert(0x7A, WinKey(0x57, _X__, VK_F11));
        s.insert(0x7B, WinKey(0x58, _X__, VK_F12));
        s.insert(0x60, WinKey(0x52, _X__, VK_NUMPAD0));
        s.insert(0x61, WinKey(0x4F, _X__, VK_NUMPAD1));
        s.insert(0x62, WinKey(0x50, _X__, VK_NUMPAD2));
        s.insert(0x63, WinKey(0x51, _X__, VK_NUMPAD3));
        s.insert(0x64, WinKey(0x4B, _X__, VK_NUMPAD4));
        s.insert(0x65, WinKey(0x4C, _X__, VK_NUMPAD5));
        s.insert(0x66, WinKey(0x4D, _X__, VK_NUMPAD6));
        s.insert(0x67, WinKey(0x47, _X__, VK_NUMPAD7));
        s.insert(0x68, WinKey(0x48, _X__, VK_NUMPAD8));
        s.insert(0x69, WinKey(0x49, _X__, VK_NUMPAD9));
        s.insert(0x6A, WinKey(0x37, _X__, VK_MULTIPLY));
        s.insert(0x6B, WinKey(0x4E, _X__, VK_ADD));
        s.insert(0x6D, WinKey(0x4A, _X__, VK_SUBTRACT));
        s.insert(0x6E, WinKey(0x53, _X__, VK_DECIMAL));
        s.insert(0x6F, WinKey(0x35, EXT0, VK_DIVIDE));
        s.insert(0x90, WinKey(0x45, EXT0, VK_NUMLOCK));
        s.insert(0xBA, WinKey(0x27, _X__, VK_LAYOUT_DEPENDENT));
        s.insert(0xBB, WinKey(0x0D, _X__, VK_LAYOUT_DEPENDENT));
        s.insert(0xBC, WinKey(0x33, _X__, VK_LAYOUT_DEPENDENT));
        s.insert(0xBD, WinKey(0x0C, _X__, VK_LAYOUT_DEPENDENT));
        s.insert(0xBE, WinKey(0x34, _X__, VK_LAYOUT_DEPENDENT));
        s.insert(0xBF, WinKey(0x35, _X__, VK_LAYOUT_DEPENDENT));
        s.insert(0xC0, WinKey(0x29, _X__, VK_LAYOUT_DEPENDENT));
        s.insert(0xDB, WinKey(0x1A, _X__, VK_LAYOUT_DEPENDENT));
        s.insert(0xDC, WinKey(0x2B, _X__, VK_LAYOUT_DEPENDENT));
        s.insert(0xDD, WinKey(0x1B, _X__, VK_LAYOUT_DEPENDENT));
        s.insert(0xDE, WinKey(0x28, _X__, VK_LAYOUT_DEPENDENT));
        s.insert(0xE2, WinKey(0x56, _X__, VK_LAYOUT_DEPENDENT));
        s.insert(0x91, WinKey(0x46, _X__, VK_SCROLL));
        s.insert(0xA0, WinKey(0x2A, _X__, VK_LAYOUT_DEPENDENT));
        s.insert(0xA2, WinKey(0x1D, _X__, VK_LCONTROL));
        s.insert(0xA4, WinKey(0x38, _X__, VK_LMENU));
        s.insert(0xA5, WinKey(0x38, EXT0, VK_RMENU));
        s.insert(0xA3, WinKey(0x1D, EXT0, VK_RCONTROL));
        s.insert(0xA1, WinKey(0x36, _X__, VK_LAYOUT_DEPENDENT));
        s.insert(0xAD, WinKey(0x00, _X__, VK_VOLUME_MUTE));
        s.insert(0xAE, WinKey(0x00, _X__, VK_VOLUME_DOWN));
        s.insert(0xAF, WinKey(0x00, _X__, VK_VOLUME_UP));
        s.insert(0xB0, WinKey(0x00, _X__, VK_MEDIA_NEXT_TRACK));
        s.insert(0xB1, WinKey(0x00, _X__, VK_MEDIA_PREV_TRACK));
        s.insert(0xB2, WinKey(0x00, _X__, VK_MEDIA_STOP));
        s.insert(0xB3, WinKey(0x00, _X__, VK_MEDIA_PLAY_PAUSE));
        assert(s@ =~= key_table());
    }

    fn create_hash() -> (s: HashMap<u8, WinKey>)
        ensures
            s@ == key_table(),
    {
        broadcast use group_hash_axioms;

        let mut s: HashMap<u8, WinKey> = HashMap::new();
        Self::insert_lower_keys(&mut s);
        Self::insert_upper_keys(&mut s);
        s
    }
}

/// No two keys are sent in the same way.
pub proof fn lemma_entries_tell_keys_apart(first: u8, second: u8)
    requires
        win_key(first) is Some,
        win_key(first) == win_key(second),
    ensures
        first == second,
{
}

} // verus!
