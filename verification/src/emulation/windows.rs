//! Mouse input for Windows: which flags and which data stand for a click, a
//! wheel turn or a move.

use vstd::prelude::*;
use super::Button;

verus! {

/// The pointer moved.
pub const MOUSEEVENTF_MOVE: u32 = 0x0001;

pub const MOUSEEVENTF_LEFTDOWN: u32 = 0x0002;

pub const MOUSEEVENTF_LEFTUP: u32 = 0x0004;

pub const MOUSEEVENTF_RIGHTDOWN: u32 = 0x0008;

pub const MOUSEEVENTF_RIGHTUP: u32 = 0x0010;

pub const MOUSEEVENTF_MIDDLEDOWN: u32 = 0x0020;

pub const MOUSEEVENTF_MIDDLEUP: u32 = 0x0040;

/// One of the two extra buttons went down; the data says which.
pub const MOUSEEVENTF_XDOWN: u32 = 0x0080;

/// One of the two extra buttons came up; the data says which.
pub const MOUSEEVENTF_XUP: u32 = 0x0100;

/// The wheel turned; the data says how far.
pub const MOUSEEVENTF_WHEEL: u32 = 0x0800;

/// The wheel tilted; the data says how far.
pub const MOUSEEVENTF_HWHEEL: u32 = 0x1000;

/// One mouse event, as the input queue takes it.
#[derive(Clone, Copy, Debug, PartialEq, Eq, Structural)]
pub struct MouseInput {
    pub flags: u32,
    pub data: i32,
    pub dx: i32,
    pub dy: i32,
}

/// The event that presses a button.
pub open spec fn press_input(btn: Button) -> MouseInput {
    match btn {
        Button::Left => MouseInput { flags: MOUSEEVENTF_LEFTDOWN, data: 0, dx: 0, dy: 0 },
        Button::Middle => MouseInput { flags: MOUSEEVENTF_MIDDLEDOWN, data: 0, dx: 0, dy: 0 },
        Button::Right => MouseInput { flags: MOUSEEVENTF_RIGHTDOWN, data: 0, dx: 0, dy: 0 },
        Button::Back => MouseInput { flags: MOUSEEVENTF_XDOWN, data: 1, dx: 0, dy: 0 },
        Button::Forward => MouseInput { flags: MOUSEEVENTF_XDOWN, data: 2, dx: 0, dy: 0 },
    }
}

/// The event that releases a button.
pub open spec fn release_input(btn: Button) -> MouseInput {
    match btn {
        Button::Left => MouseInput { flags: MOUSEEVENTF_LEFTUP, data: 0, dx: 0, dy: 0 },
        Button::Middle => MouseInput { flags: MOUSEEVENTF_MIDDLEUP, data: 0, dx: 0, dy: 0 },
        Button::Right => MouseInput { flags: MOUSEEVENTF_RIGHTUP, data: 0, dx: 0, dy: 0 },
        Button::Back => MouseInput { flags: MOUSEEVENTF_XUP, data: 1, dx: 0, dy: 0 },
        Button::Forward => MouseInput { flags: MOUSEEVENTF_XUP, data: 2, dx: 0, dy: 0 },
    }
}

/// The event that turns the wheel by `data`, or tilts it by half of that,
/// rounded towards zero.
pub open spec fn wheel_input(data: i32, horizontal: bool) -> MouseInput {
    if horizontal {
        MouseInput {
            flags: MOUSEEVENTF_HWHEEL,
            data: if data >= 0 {
                (data / 2) as i32
            } else {
                (-((-data) / 2)) as i32
            },
            dx: 0,
            dy: 0,
        }
    } else {
        MouseInput { flags: MOUSEEVENTF_WHEEL, data, dx: 0, dy: 0 }
    }
}

/// How far the device has to move for the pointer to move by a short
/// distance, in device units by pixels.
pub open spec fn short_distances() -> Seq<int> {
    seq![0, 1, 2, 3, 3, 4, 4, 5, 5, 6, 6, 7, 7, 8, 8, 9]
}

/// How far the device has to move for the pointer to move by `px` pixels,
/// the pointer acceleration taken back: short distances go by the table,
/// longer ones by a quarter of the distance and six; the direction stays.
pub open spec fn device_distance(px: int) -> int {
    let far = if px < 0 {
        -px
    } else {
        px
    };
    let dist = if far < 16 {
        short_distances()[far]
    } else {
        6 + far / 4
    };
    if px < 0 {
        -dist
    } else {
        dist
    }
}

/// The mouse.
pub struct Mouse {}

impl Mouse {
    pub fn new() -> (mouse: Self) {
        Mouse {  }
    }

    /// The event that presses a button.
    pub fn press(&mut self, btn: Button) -> (input: MouseInput)
        ensures
            input == press_input(btn),
    {
        match btn {
            Button::Left => sim_mouse_event(MOUSEEVENTF_LEFTDOWN, 0, 0, 0),
            Button::Middle => sim_mouse_event(MOUSEEVENTF_MIDDLEDOWN, 0, 0, 0),
            Button::Right => sim_mouse_event(MOUSEEVENTF_RIGHTDOWN, 0, 0, 0),
            Button::Back => sim_mouse_event(MOUSEEVENTF_XDOWN, 1, 0, 0),
            Button::Forward => sim_mouse_event(MOUSEEVENTF_XDOWN, 2, 0, 0),
        }
    }

    /// The event that releases a button.
    pub fn release(&mut self, btn: Button) -> (input: MouseInput)
        ensures
            input == release_input(btn),
    {
        match btn {
            Button::Left => sim_mouse_event(MOUSEEVENTF_LEFTUP, 0, 0, 0),
            Button::Middle => sim_mouse_event(MOUSEEVENTF_MIDDLEUP, 0, 0, 0),
            Button::Right => sim_mouse_event(MOUSEEVENTF_RIGHTUP, 0, 0, 0),
            Button::Back => sim_mouse_event(MOUSEEVENTF_XUP, 1, 0, 0),
            Button::Forward => sim_mouse_event(MOUSEEVENTF_XUP, 2, 0, 0),
        }
    }

    /// The event that turns or tilts the wheel.
    pub fn wheel(&mut self, data: i32, horizontal: bool) -> (input: MouseInput)
        ensures
            input == wheel_input(data, horizontal),
    {
        match horizontal {
            false => sim_mouse_event(MOUSEEVENTF_WHEEL, data, 0, 0),
            true => sim_mouse_event(MOUSEEVENTF_HWHEEL, data / 2, 0, 0),
        }
    }
}

/// The event that moves the pointer by so many device units.
pub fn raw_relative_move(mickey_x: i32, mickey_y: i32) -> (input: MouseInput)
    ensures
        input == (MouseInput { flags: MOUSEEVENTF_MOVE, data: 0, dx: mickey_x, dy: mickey_y }),
{
    sim_mouse_event(MOUSEEVENTF_MOVE, 0, mickey_x, mickey_y)
}

/// The event that moves the pointer by so many pixels.
pub fn raw_relative_move_px(dx: &i32, dy: &i32) -> (input: MouseInput)
    requires
        *dx > i32::MIN,
        *dy > i32::MIN,
    ensures
        input == (MouseInput {
            flags: MOUSEEVENTF_MOVE,
            data: 0,
            dx: device_distance(*dx as int) as i32,
            dy: device_distance(*dy as int) as i32,
        }),
{
    let mickeyx = reverse_acceleration_curve(*dx);
    let mickeyy = reverse_acceleration_curve(*dy);
    raw_relative_move(mickeyx, mickeyy)
}

fn short_distance(far: i32) -> (dist: i32)
    requires
        0 <= far < 16,
    ensures
        dist == short_distances()[far as int],
{
    if far < 3 {
        far
    } else {
        (far + 3) / 2
    }
}

/// How far the device has to move for the pointer to move by `px` pixels.
pub fn reverse_acceleration_curve(px: i32) -> (mickeys: i32)
    requires
        px > i32::MIN,
    ensures
        mickeys == device_distance(px as int),
{
    let far = if px < 0 {
        -px
    } else {
        px
    };
    let dist = if far < 16 {
        short_distance(far)
    } else {
        6 + (far / 4)
    };
    if px < 0 {
        -dist
    } else {
        dist
    }
}

fn sim_mouse_event(flags: u32, data: i32, dx: i32, dy: i32) -> (input: MouseInput)
    ensures
        input == (MouseInput { flags, data, dx, dy }),
{
    MouseInput { flags, data, dx, dy }
}

/// The device never moves further than the pointer, never against it, and
/// a longer way for the pointer is never a shorter one for the device.
pub proof fn lemma_device_distance_is_monotone(a: int, b: int)
    requires
        a <= b,
    ensures
        device_distance(a) <= device_distance(b),
        device_distance(-a) == -device_distance(a),
        0 <= a ==> 0 <= device_distance(a) <= a,
{
}

} // verus!
