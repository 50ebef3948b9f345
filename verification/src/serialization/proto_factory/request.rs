//! Builders of what the server sends.

use vstd::prelude::*;
use crate::proto_rs::proto_in;
use crate::proto_rs::proto_in::Direction;
use crate::proto_rs::Clipboard;
use crate::serialization::proto_factory::format_of;

verus! {

pub fn create_mouse_move(x: i32, y: i32) -> (mm: proto_in::MouseMove)
    ensures
        mm == (proto_in::MouseMove { X: x, Y: y }),
{
    let mut mm = proto_in::MouseMove::new();
    mm.set_X(x);
    mm.set_Y(y);
    mm
}

pub fn create_mouse_click(b: proto_in::Button, motion: proto_in::State) -> (mm:
    proto_in::MouseClick)
    ensures
        mm == (proto_in::MouseClick { button: b, event_type: motion }),
{
    let mut mm = proto_in::MouseClick::new();
    mm.set_button(b);
    mm.set_event_type(motion);
    mm
}

pub fn create_mouse_wheel(wh: Direction, amount: i32) -> (wheel: proto_in::MouseWheel)
    ensures
        wheel == (proto_in::MouseWheel { scroll_direction: wh, amount }),
{
    let mut wheel = proto_in::MouseWheel::new();
    wheel.set_scroll_direction(wh);
    wheel.set_amount(amount);
    wheel
}

pub fn create_key(key: u32, motion: proto_in::State) -> (km: proto_in::Keyboard)
    ensures
        km == (proto_in::Keyboard { key, event_type: motion }),
{
    let mut km = proto_in::Keyboard::new();
    km.set_key(key);
    km.set_event_type(motion);
    km
}

pub fn create_session_begin(mouse_move_relative: bool) -> (sb: proto_in::SessionBegin)
    ensures
        sb == (proto_in::SessionBegin { mouse_move_relative }),
{
    let mut sb = proto_in::SessionBegin::new();
    sb.set_mouse_move_relative(mouse_move_relative);
    sb
}

pub fn create_clipboard(content: String, filelist: bool) -> (data: Clipboard)
    ensures
        data == (Clipboard { format: format_of(filelist), message: content }),
{
    crate::serialization::proto_factory::create_clipboard(content, filelist)
}

} // verus!
