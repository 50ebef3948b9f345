//! The layout of the messages: which field of a message body is which, and
//! which number stands for which value of an enumeration.
//!
//! A message of the server is read off the fields of its body; an answer of
//! the client is written as the fields of its body, one after the other.
//! The numbers have to be those of the message definitions that the server
//! was built from.

use vstd::prelude::*;
use vstd::utf8::encode_utf8;
use super::wire_format::{
    as_int32, encoding_of_all, fields_of, int32_bits, lemma_fields_round_trip,
    lemma_numbers_round_trip, lemma_text_round_trip, low_32, put_field, read_fields, text_in,
    WireField, WireFieldView, WireValue, WireValueView,
};
use crate::proto_rs::clipboard::ClipboardView;
use crate::proto_rs::proto_in::{
    Button, Direction, Echo, EchoView, HandshakeResult, Heartbeat, Keyboard, MasterActionView,
    MasterMessage_oneof_action, MouseClick, MouseMove, MouseWheel, Request, SessionBegin,
    SessionEnd, State,
};
use crate::proto_rs::proto_out::{ClientInfo, ClientInfo_OS, Position, SlaveMessage_oneof_response};
use crate::proto_rs::{Clip_Format, Clipboard, ProtoInMsg, ProtoOutMsg};

verus! {

/// The fields of a message of the server: each holds one kind of action.
pub const ACTION_MOUSE_POSITION: u32 = 1;

pub const ACTION_KEYBOARD: u32 = 2;

pub const ACTION_MOUSE_CLICK: u32 = 3;

pub const ACTION_CLIPBOARD: u32 = 4;

pub const ACTION_MOUSE_WHEEL: u32 = 5;

pub const ACTION_HANDSHAKE: u32 = 6;

pub const ACTION_START_SESSION: u32 = 7;

pub const ACTION_END_SESSION: u32 = 8;

pub const ACTION_REQUEST: u32 = 9;

pub const ACTION_HEARTBEAT: u32 = 10;

/// The fields of an answer of the client: each holds one kind of response.
pub const RESPONSE_CURSOR: u32 = 1;

pub const RESPONSE_INIT_INFO: u32 = 2;

pub const RESPONSE_CLIPBOARD_SESSION: u32 = 3;

pub const RESPONSE_NO_RESPONSE: u32 = 4;

/// The first and the second field of a message that has no more than two.
pub const FIRST: u32 = 1;

pub const SECOND: u32 = 2;

/// The fields of the client's description of itself.
pub const INFO_WIDTH: u32 = 1;

pub const INFO_HEIGHT: u32 = 2;

pub const INFO_CURSOR: u32 = 3;

pub const INFO_PASSWORD: u32 = 4;

pub const INFO_GUID: u32 = 5;

pub const INFO_NAME: u32 = 6;

pub const INFO_SYSTEM: u32 = 7;

/// The state that a number stands for.
pub open spec fn state_at(number: i32) -> Option<State> {
    if number == 0 {
        Some(State::PRESSED)
    } else if number == 1 {
        Some(State::RELEASED)
    } else {
        None
    }
}

/// The button that a number stands for.
pub open spec fn button_at(number: i32) -> Option<Button> {
    if number == 0 {
        Some(Button::LEFT)
    } else if number == 1 {
        Some(Button::RIGHT)
    } else if number == 2 {
        Some(Button::MIDDLE)
    } else if number == 3 {
        Some(Button::XBUTTON1)
    } else if number == 4 {
        Some(Button::XBUTTON2)
    } else {
        None
    }
}

/// The direction that a number stands for.
pub open spec fn direction_at(number: i32) -> Option<Direction> {
    if number == 0 {
        Some(Direction::SCROLL_UP)
    } else if number == 1 {
        Some(Direction::SCROLL_DOWN)
    } else if number == 2 {
        Some(Direction::SCROLL_LEFT)
    } else if number == 3 {
        Some(Direction::SCROLL_RIGHT)
    } else {
        None
    }
}

/// The request that a number stands for.
pub open spec fn request_at(number: i32) -> Option<Request> {
    if number == 0 {
        Some(Request::INIT_INFO)
    } else if number == 1 {
        Some(Request::CLIPBOARD)
    } else if number == 2 {
        Some(Request::MOUSE_POSITION)
    } else {
        None
    }
}

/// The verdict that a number stands for.
pub open spec fn verdict_at(number: i32) -> Option<HandshakeResult> {
    if number == 0 {
        Some(HandshakeResult::Success)
    } else if number == 1 {
        Some(HandshakeResult::Rejection)
    } else {
        None
    }
}

/// The clipboard format that a number stands for.
pub open spec fn format_at(number: i32) -> Option<Clip_Format> {
    if number == 0 {
        Some(Clip_Format::TEXT)
    } else if number == 1 {
        Some(Clip_Format::FILE)
    } else {
        None
    }
}

/// The number that stands for a clipboard format.
pub open spec fn number_of_format(format: Clip_Format) -> i32 {
    match format {
        Clip_Format::TEXT => 0,
        Clip_Format::FILE => 1,
    }
}

/// The number that stands for an operating system.
pub open spec fn number_of_system(system: ClientInfo_OS) -> i32 {
    match system {
        ClientInfo_OS::WINDOWS => 0,
        ClientInfo_OS::MAC => 1,
        ClientInfo_OS::LINUX => 2,
    }
}

/// The number of 32 bits with a sign that a value holds, where it is a
/// varint.
pub open spec fn int_in(value: WireValueView) -> Option<i32> {
    match value {
        WireValueView::Varint(bits) => Some(as_int32(bits)),
        _ => None,
    }
}

/// The number of 32 bits without a sign that a value holds, where it is a
/// varint.
pub open spec fn uint_in(value: WireValueView) -> Option<u32> {
    match value {
        WireValueView::Varint(bits) => Some(low_32(bits as nat) as u32),
        _ => None,
    }
}

/// The truth value that a value holds, where it is a varint.
pub open spec fn bool_in(value: WireValueView) -> Option<bool> {
    match value {
        WireValueView::Varint(bits) => Some(bits != 0),
        _ => None,
    }
}

/// The state that a value holds.
pub open spec fn state_in(value: WireValueView) -> Option<State> {
    match int_in(value) {
        Some(number) => state_at(number),
        None => None,
    }
}

/// The button that a value holds.
pub open spec fn button_in(value: WireValueView) -> Option<Button> {
    match int_in(value) {
        Some(number) => button_at(number),
        None => None,
    }
}

/// The direction that a value holds.
pub open spec fn direction_in(value: WireValueView) -> Option<Direction> {
    match int_in(value) {
        Some(number) => direction_at(number),
        None => None,
    }
}

/// The request that a value holds.
pub open spec fn request_in(value: WireValueView) -> Option<Request> {
    match int_in(value) {
        Some(number) => request_at(number),
        None => None,
    }
}

/// The verdict that a value holds.
pub open spec fn verdict_in(value: WireValueView) -> Option<HandshakeResult> {
    match int_in(value) {
        Some(number) => verdict_at(number),
        None => None,
    }
}

/// The clipboard format that a value holds.
pub open spec fn format_in(value: WireValueView) -> Option<Clip_Format> {
    match int_in(value) {
        Some(number) => format_at(number),
        None => None,
    }
}

/// An action with one more field of its body taken in: a field that the
/// action knows replaces what the action held there, any other field is
/// passed over. Nothing comes of a field that the action knows and whose
/// value is of another kind, is no number of the enumeration, or spells no
/// text.
pub open spec fn part_with(part: MasterActionView, field: WireFieldView) -> Option<
    MasterActionView,
> {
    let value = field.value;
    match part {
        MasterActionView::MousePosition(m) => if field.number == FIRST {
            match int_in(value) {
                Some(x) => Some(MasterActionView::MousePosition(MouseMove { X: x, Y: m.Y })),
                None => None,
            }
        } else if field.number == SECOND {
            match int_in(value) {
                Some(y) => Some(MasterActionView::MousePosition(MouseMove { X: m.X, Y: y })),
                None => None,
            }
        } else {
            Some(part)
        },
        MasterActionView::Keyboard(k) => if field.number == FIRST {
            match uint_in(value) {
                Some(key) => Some(
                    MasterActionView::Keyboard(Keyboard { key, event_type: k.event_type }),
                ),
                None => None,
            }
        } else if field.number == SECOND {
            match state_in(value) {
                Some(event_type) => Some(
                    MasterActionView::Keyboard(Keyboard { key: k.key, event_type }),
                ),
                None => None,
            }
        } else {
            Some(part)
        },
        MasterActionView::MouseClick(c) => if field.number == FIRST {
            match button_in(value) {
                Some(button) => Some(
                    MasterActionView::MouseClick(MouseClick { button, event_type: c.event_type }),
                ),
                None => None,
            }
        } else if field.number == SECOND {
            match state_in(value) {
                Some(event_type) => Some(
                    MasterActionView::MouseClick(MouseClick { button: c.button, event_type }),
                ),
                None => None,
            }
        } else {
            Some(part)
        },
        MasterActionView::Clipboard(c) => if field.number == FIRST {
            match format_in(value) {
                Some(format) => Some(
                    MasterActionView::Clipboard(ClipboardView { format, message: c.message }),
                ),
                None => None,
            }
        } else if field.number == SECOND {
            match text_in(value) {
                Some(message) => Some(
                    MasterActionView::Clipboard(ClipboardView { format: c.format, message }),
                ),
                None => None,
            }
        } else {
            Some(part)
        },
        MasterActionView::MouseWheel(w) => if field.number == FIRST {
            match direction_in(value) {
                Some(scroll_direction) => Some(
                    MasterActionView::MouseWheel(MouseWheel { scroll_direction, amount: w.amount }),
                ),
                None => None,
            }
        } else if field.number == SECOND {
            match int_in(value) {
                Some(amount) => Some(
                    MasterActionView::MouseWheel(
                        MouseWheel { scroll_direction: w.scroll_direction, amount },
                    ),
                ),
                None => None,
            }
        } else {
            Some(part)
        },
        MasterActionView::Handshake(e) => if field.number == FIRST {
            match verdict_in(value) {
                Some(result) => Some(
                    MasterActionView::Handshake(EchoView { result, message: e.message }),
                ),
                None => None,
            }
        } else if field.number == SECOND {
            match text_in(value) {
                Some(message) => Some(
                    MasterActionView::Handshake(EchoView { result: e.result, message }),
                ),
                None => None,
            }
        } else {
            Some(part)
        },
        MasterActionView::StartSession(_) => if field.number == FIRST {
            match bool_in(value) {
                Some(mouse_move_relative) => Some(
                    MasterActionView::StartSession(SessionBegin { mouse_move_relative }),
                ),
                None => None,
            }
        } else {
            Some(part)
        },
        MasterActionView::Heartbeat(_) => if field.number == FIRST {
            match bool_in(value) {
                Some(one_way) => Some(MasterActionView::Heartbeat(Heartbeat { one_way })),
                None => None,
            }
        } else {
            Some(part)
        },
        MasterActionView::EndSession => Some(part),
        MasterActionView::Request(_) => Some(part),
    }
}

/// An action with the fields of its body taken in, from the first to the
/// last; nothing where one of them cannot be taken in.
pub open spec fn part_of(fields: Seq<WireFieldView>, start: MasterActionView) -> Option<
    MasterActionView,
>
    decreases fields.len(),
{
    if fields.len() == 0 {
        Some(start)
    } else {
        match part_of(fields.drop_last(), start) {
            Some(part) => part_with(part, fields.last()),
            None => None,
        }
    }
}

/// The action that a field of a message of the server holds before any
/// field of its body is taken in: every number is zero, every text empty,
/// every truth value false, every enumeration at its first value. Nothing
/// for a field that holds no action with a body.
pub open spec fn empty_part(number: u32) -> Option<MasterActionView> {
    if number == ACTION_MOUSE_POSITION {
        Some(MasterActionView::MousePosition(MouseMove { X: 0, Y: 0 }))
    } else if number == ACTION_KEYBOARD {
        Some(MasterActionView::Keyboard(Keyboard { key: 0, event_type: State::PRESSED }))
    } else if number == ACTION_MOUSE_CLICK {
        Some(
            MasterActionView::MouseClick(
                MouseClick { button: Button::LEFT, event_type: State::PRESSED },
            ),
        )
    } else if number == ACTION_CLIPBOARD {
        Some(
            MasterActionView::Clipboard(
                ClipboardView { format: Clip_Format::TEXT, message: Seq::empty() },
            ),
        )
    } else if number == ACTION_MOUSE_WHEEL {
        Some(
            MasterActionView::MouseWheel(
                MouseWheel { scroll_direction: Direction::SCROLL_UP, amount: 0 },
            ),
        )
    } else if number == ACTION_HANDSHAKE {
        Some(
            MasterActionView::Handshake(
                EchoView { result: HandshakeResult::Success, message: Seq::empty() },
            ),
        )
    } else if number == ACTION_START_SESSION {
        Some(MasterActionView::StartSession(SessionBegin { mouse_move_relative: false }))
    } else if number == ACTION_END_SESSION {
        Some(MasterActionView::EndSession)
    } else if number == ACTION_HEARTBEAT {
        Some(MasterActionView::Heartbeat(Heartbeat { one_way: false }))
    } else {
        None
    }
}

/// What a field of a message of the server says.
pub enum FieldReading {
    /// The field holds this action.
    Action(MasterActionView),
    /// The field is none that the message knows; it is passed over.
    Unknown,
    /// The field is one that the message knows, and cannot be read.
    Malformed,
}

/// What a field of a message of the server says. A request is a number; any
/// other action is a message of its own in a run of bytes, which is taken
/// apart into fields and read off them.
pub open spec fn reading_of(field: WireFieldView) -> FieldReading {
    if field.number == ACTION_REQUEST {
        match request_in(field.value) {
            Some(request) => FieldReading::Action(MasterActionView::Request(request)),
            None => FieldReading::Malformed,
        }
    } else {
        match empty_part(field.number) {
            None => FieldReading::Unknown,
            Some(start) => match field.value {
                WireValueView::LengthDelimited(body) => match fields_of(body) {
                    Some(fields) => match part_of(fields, start) {
                        Some(part) => FieldReading::Action(part),
                        None => FieldReading::Malformed,
                    },
                    None => FieldReading::Malformed,
                },
                _ => FieldReading::Malformed,
            },
        }
    }
}

/// A message of the server, read off the fields of its body: it holds the
/// action of the last field that holds one, or none. The outer `None` is for
/// a body with a field that cannot be read.
pub open spec fn master_from(fields: Seq<WireFieldView>) -> Option<Option<MasterActionView>>
    decreases fields.len(),
{
    if fields.len() == 0 {
        Some(None)
    } else {
        match master_from(fields.drop_last()) {
            None => None,
            Some(so_far) => match reading_of(fields.last()) {
                FieldReading::Action(action) => Some(Some(action)),
                FieldReading::Unknown => Some(so_far),
                FieldReading::Malformed => None,
            },
        }
    }
}

/// A message of the server, read off its body. The outer `None` is for a
/// body that is not made of fields, or has a field that cannot be read.
pub open spec fn master_of(body: Seq<u8>) -> Option<Option<MasterActionView>> {
    match fields_of(body) {
        Some(fields) => master_from(fields),
        None => None,
    }
}

/// An action that was or was not read, as a plain value.
pub open spec fn plain_action(action: Option<MasterMessage_oneof_action>) -> Option<
    MasterActionView,
> {
    match action {
        Some(action) => Some(action@),
        None => None,
    }
}

/// A message that was or was not read, as a plain value.
pub open spec fn plain_message(msg: Option<ProtoInMsg>) -> Option<Option<MasterActionView>> {
    match msg {
        Some(msg) => Some(msg@),
        None => None,
    }
}

fn read_state(value: &WireValue) -> (state: Option<State>)
    ensures
        state == state_in(value@),
{
    match value.int32() {
        Some(0) => Some(State::PRESSED),
        Some(1) => Some(State::RELEASED),
        _ => None,
    }
}

fn read_button(value: &WireValue) -> (button: Option<Button>)
    ensures
        button == button_in(value@),
{
    match value.int32() {
        Some(0) => Some(Button::LEFT),
        Some(1) => Some(Button::RIGHT),
        Some(2) => Some(Button::MIDDLE),
        Some(3) => Some(Button::XBUTTON1),
        Some(4) => Some(Button::XBUTTON2),
        _ => None,
    }
}

fn read_direction(value: &WireValue) -> (direction: Option<Direction>)
    ensures
        direction == direction_in(value@),
{
    match value.int32() {
        Some(0) => Some(Direction::SCROLL_UP),
        Some(1) => Some(Direction::SCROLL_DOWN),
        Some(2) => Some(Direction::SCROLL_LEFT),
        Some(3) => Some(Direction::SCROLL_RIGHT),
        _ => None,
    }
}

fn read_request(value: &WireValue) -> (request: Option<Request>)
    ensures
        request == request_in(value@),
{
    match value.int32() {
        Some(0) => Some(Request::INIT_INFO),
        Some(1) => Some(Request::CLIPBOARD),
        Some(2) => Some(Request::MOUSE_POSITION),
        _ => None,
    }
}

fn read_verdict(value: &WireValue) -> (verdict: Option<HandshakeResult>)
    ensures
        verdict == verdict_in(value@),
{
    match value.int32() {
        Some(0) => Some(HandshakeResult::Success),
        Some(1) => Some(HandshakeResult::Rejection),
        _ => None,
    }
}

fn read_format(value: &WireValue) -> (format: Option<Clip_Format>)
    ensures
        format == format_in(value@),
{
    match value.int32() {
        Some(0) => Some(Clip_Format::TEXT),
        Some(1) => Some(Clip_Format::FILE),
        _ => None,
    }
}

/// Takes one field of its body into an action.
fn take_in(part: MasterMessage_oneof_action, field: &WireField) -> (next: Option<
    MasterMessage_oneof_action,
>)
    ensures
        plain_action(next) == part_with(part@, field@),
{
    let value = &field.value;
    match part {
        MasterMessage_oneof_action::mouse_position(m) => {
            if field.number == FIRST {
                match value.int32() {
                    Some(x) => Some(
                        MasterMessage_oneof_action::mouse_position(MouseMove { X: x, Y: m.Y }),
                    ),
                    None => None,
                }
            } else if field.number == SECOND {
                match value.int32() {
                    Some(y) => Some(
                        MasterMessage_oneof_action::mouse_position(MouseMove { X: m.X, Y: y }),
                    ),
                    None => None,
                }
            } else {
                Some(MasterMessage_oneof_action::mouse_position(m))
            }
        },
        MasterMessage_oneof_action::keyboard(k) => {
            if field.number == FIRST {
                match value.uint32() {
                    Some(key) => Some(
                        MasterMessage_oneof_action::keyboard(
                            Keyboard { key, event_type: k.event_type },
                        ),
                    ),
                    None => None,
                }
            } else if field.number == SECOND {
                match read_state(value) {
                    Some(event_type) => Some(
                        MasterMessage_oneof_action::keyboard(Keyboard { key: k.key, event_type }),
                    ),
                    None => None,
                }
            } else {
                Some(MasterMessage_oneof_action::keyboard(k))
            }
        },
        MasterMessage_oneof_action::mouse_click(c) => {
            if field.number == FIRST {
                match read_button(value) {
                    Some(button) => Some(
                        MasterMessage_oneof_action::mouse_click(
                            MouseClick { button, event_type: c.event_type },
                        ),
                    ),
                    None => None,
                }
            } else if field.number == SECOND {
                match read_state(value) {
                    Some(event_type) => Some(
                        MasterMessage_oneof_action::mouse_click(
                            MouseClick { button: c.button, event_type },
                        ),
                    ),
                    None => None,
                }
            } else {
                Some(MasterMessage_oneof_action::mouse_click(c))
            }
        },
        MasterMessage_oneof_action::clipboard(c) => {
            if field.number == FIRST {
                match read_format(value) {
                    Some(format) => Some(
                        MasterMessage_oneof_action::clipboard(
                            Clipboard { format, message: c.message },
                        ),
                    ),
                    None => None,
                }
            } else if field.number == SECOND {
                match value.to_text() {
                    Some(message) => Some(
                        MasterMessage_oneof_action::clipboard(
                            Clipboard { format: c.format, message },
                        ),
                    ),
                    None => None,
                }
            } else {
                Some(MasterMessage_oneof_action::clipboard(c))
            }
        },
        MasterMessage_oneof_action::mouse_wheel(w) => {
            if field.number == FIRST {
                match read_direction(value) {
                    Some(scroll_direction) => Some(
                        MasterMessage_oneof_action::mouse_wheel(
                            MouseWheel { scroll_direction, amount: w.amount },
                        ),
                    ),
                    None => None,
                }
            } else if field.number == SECOND {
                match value.int32() {
                    Some(amount) => Some(
                        MasterMessage_oneof_action::mouse_wheel(
                            MouseWheel { scroll_direction: w.scroll_direction, amount },
                        ),
                    ),
                    None => None,
                }
            } else {
                Some(MasterMessage_oneof_action::mouse_wheel(w))
            }
        },
        MasterMessage_oneof_action::handshake(e) => {
            if field.number == FIRST {
                match read_verdict(value) {
                    Some(result) => Some(
                        MasterMessage_oneof_action::handshake(Echo { result, message: e.message }),
                    ),
                    None => None,
                }
            } else if field.number == SECOND {
                match value.to_text() {
                    Some(message) => Some(
                        MasterMessage_oneof_action::handshake(Echo { result: e.result, message }),
                    ),
                    None => None,
                }
            } else {
                Some(MasterMessage_oneof_action::handshake(e))
            }
        },
        MasterMessage_oneof_action::start_session(s) => {
            if field.number == FIRST {
                match value.boolean() {
                    Some(mouse_move_relative) => Some(
                        MasterMessage_oneof_action::start_session(
                            SessionBegin { mouse_move_relative },
                        ),
                    ),
                    None => None,
                }
            } else {
                Some(MasterMessage_oneof_action::start_session(s))
            }
        },
        MasterMessage_oneof_action::heartbeat(h) => {
            if field.number == FIRST {
                match value.boolean() {
                    Some(one_way) => Some(
                        MasterMessage_oneof_action::heartbeat(Heartbeat { one_way }),
                    ),
                    None => None,
                }
            } else {
                Some(MasterMessage_oneof_action::heartbeat(h))
            }
        },
        MasterMessage_oneof_action::end_session(s) => Some(
            MasterMessage_oneof_action::end_session(s),
        ),
        MasterMessage_oneof_action::request(r) => Some(MasterMessage_oneof_action::request(r)),
    }
}

/// Takes the fields of its body into an action, from the first to the last.
pub fn decode_part(fields: &Vec<WireField>, start: MasterMessage_oneof_action) -> (part: Option<
    MasterMessage_oneof_action,
>)
    ensures
        plain_action(part) == part_of(fields.deep_view(), start@),
{
    let ghost all = fields.deep_view();
    let ghost first = start@;
    let mut part = Some(start);
    let mut i: usize = 0;
    assert(all.take(0) =~= Seq::<WireFieldView>::empty());
    while i < fields.len()
        invariant
            i <= fields.len(),
            all == fields.deep_view(),
            plain_action(part) == part_of(all.take(i as int), first),
        decreases fields.len() - i,
    {
        assert(all.take(i + 1).drop_last() =~= all.take(i as int));
        assert(all.take(i + 1).last() == fields[i as int]@);
        part = match part {
            Some(so_far) => take_in(so_far, &fields[i]),
            None => None,
        };
        i += 1;
    }
    assert(all.take(fields.len() as int) =~= all);
    part
}

/// The action that a field of a message of the server holds before any
/// field of its body is taken in.
fn empty_action(number: u32) -> (start: Option<MasterMessage_oneof_action>)
    ensures
        plain_action(start) == empty_part(number),
{
    if number == ACTION_MOUSE_POSITION {
        Some(MasterMessage_oneof_action::mouse_position(MouseMove::new()))
    } else if number == ACTION_KEYBOARD {
        Some(MasterMessage_oneof_action::keyboard(Keyboard::new()))
    } else if number == ACTION_MOUSE_CLICK {
        Some(MasterMessage_oneof_action::mouse_click(MouseClick::new()))
    } else if number == ACTION_CLIPBOARD {
        Some(MasterMessage_oneof_action::clipboard(Clipboard::new()))
    } else if number == ACTION_MOUSE_WHEEL {
        Some(MasterMessage_oneof_action::mouse_wheel(MouseWheel::new()))
    } else if number == ACTION_HANDSHAKE {
        Some(MasterMessage_oneof_action::handshake(Echo::new()))
    } else if number == ACTION_START_SESSION {
        Some(MasterMessage_oneof_action::start_session(SessionBegin::new()))
    } else if number == ACTION_END_SESSION {
        Some(MasterMessage_oneof_action::end_session(SessionEnd::new()))
    } else if number == ACTION_HEARTBEAT {
        Some(MasterMessage_oneof_action::heartbeat(Heartbeat::new()))
    } else {
        None
    }
}

/// What a field of a message of the server says, with the action as it
/// stands in memory.
enum Reading {
    Action(MasterMessage_oneof_action),
    Unknown,
    Malformed,
}

spec fn reading_read(reading: Reading) -> FieldReading {
    match reading {
        Reading::Action(action) => FieldReading::Action(action@),
        Reading::Unknown => FieldReading::Unknown,
        Reading::Malformed => FieldReading::Malformed,
    }
}

fn read_action(field: &WireField) -> (reading: Reading)
    ensures
        reading_read(reading) == reading_of(field@),
{
    if field.number == ACTION_REQUEST {
        return match read_request(&field.value) {
            Some(request) => Reading::Action(MasterMessage_oneof_action::request(request)),
            None => Reading::Malformed,
        };
    }
    let start = match empty_action(field.number) {
        Some(start) => start,
        None => {
            return Reading::Unknown;
        },
    };
    let body = match field.value.bytes() {
        Some(body) => body,
        None => {
            return Reading::Malformed;
        },
    };
    let fields = match read_fields(body.as_slice()) {
        Some(fields) => fields,
        None => {
            return Reading::Malformed;
        },
    };
    match decode_part(&fields, start) {
        Some(part) => Reading::Action(part),
        None => Reading::Malformed,
    }
}

/// Reads a message of the server off its body. Nothing comes of a body that
/// is not made of fields from the first byte to the last, or holds a field
/// that the message knows and that cannot be read.
pub fn decode_master(body: &[u8]) -> (msg: Option<ProtoInMsg>)
    ensures
        plain_message(msg) == master_of(body@),
{
    let fields = match read_fields(body) {
        Some(fields) => fields,
        None => {
            return None;
        },
    };
    let ghost all = fields.deep_view();
    let mut msg = Some(ProtoInMsg::new());
    let mut i: usize = 0;
    assert(all.take(0) =~= Seq::<WireFieldView>::empty());
    while i < fields.len()
        invariant
            i <= fields.len(),
            all == fields.deep_view(),
            plain_message(msg) == master_from(all.take(i as int)),
        decreases fields.len() - i,
    {
        assert(all.take(i + 1).drop_last() =~= all.take(i as int));
        assert(all.take(i + 1).last() == fields[i as int]@);
        msg = match msg {
            Some(so_far) => match read_action(&fields[i]) {
                Reading::Action(action) => Some(ProtoInMsg { action: Some(action) }),
                Reading::Unknown => Some(so_far),
                Reading::Malformed => None,
            },
            None => None,
        };
        i += 1;
    }
    assert(all.take(fields.len() as int) =~= all);
    msg
}

/// A field that holds a number of 32 bits with a sign.
pub open spec fn int_field(number: u32, value: i32) -> WireFieldView {
    WireFieldView { number, value: WireValueView::Varint(int32_bits(value)) }
}

/// A field that holds a text.
pub open spec fn text_field(number: u32, text: Seq<char>) -> WireFieldView {
    WireFieldView { number, value: WireValueView::LengthDelimited(encode_utf8(text)) }
}

/// A field that holds a message of its own.
pub open spec fn part_field(number: u32, body: Seq<u8>) -> WireFieldView {
    WireFieldView { number, value: WireValueView::LengthDelimited(body) }
}

/// A body with one more field behind it. There is none where there was none
/// before, or where the field cannot be written.
pub open spec fn with_field(body: Option<Seq<u8>>, field: WireFieldView) -> Option<Seq<u8>> {
    match body {
        Some(bytes) => if field.wf() {
            Some(bytes + field.encoding())
        } else {
            None
        },
        None => None,
    }
}

/// A body with one more field behind it that holds a message of its own.
/// There is none where either was none before, or where the message is too
/// long for a field.
pub open spec fn with_part(body: Option<Seq<u8>>, number: u32, part: Option<Seq<u8>>) -> Option<
    Seq<u8>,
> {
    match part {
        Some(bytes) => with_field(body, part_field(number, bytes)),
        None => None,
    }
}

/// The body of a position: its two coordinates.
pub open spec fn position_body(position: Position) -> Option<Seq<u8>> {
    with_field(
        with_field(Some(Seq::empty()), int_field(FIRST, position.x)),
        int_field(SECOND, position.y),
    )
}

/// The body of a clipboard payload: its format and its text.
pub open spec fn clipboard_body(clipboard: ClipboardView) -> Option<Seq<u8>> {
    with_field(
        with_field(
            Some(Seq::empty()),
            int_field(FIRST, number_of_format(clipboard.format)),
        ),
        text_field(SECOND, clipboard.message),
    )
}

/// The body of a failure: its reason.
pub open spec fn failure_body(reason: Seq<char>) -> Option<Seq<u8>> {
    with_field(Some(Seq::empty()), text_field(FIRST, reason))
}

/// The body of the client's description of itself: the size of its display,
/// where the pointer is, the password, its identifier, its name and its
/// operating system.
pub open spec fn client_info_body(info: ClientInfo) -> Option<Seq<u8>> {
    let size = with_field(
        with_field(Some(Seq::empty()), int_field(INFO_WIDTH, info.Width)),
        int_field(INFO_HEIGHT, info.Height),
    );
    let cursor = with_part(size, INFO_CURSOR, position_body(info.Cursor));
    let password = with_field(cursor, text_field(INFO_PASSWORD, info.Password@));
    let guid = with_part(password, INFO_GUID, failure_body(info.Guid.value@));
    let name = with_field(guid, text_field(INFO_NAME, info.Name@));
    with_field(name, int_field(INFO_SYSTEM, number_of_system(info.System)))
}

/// The body of an answer of the client: one field that holds the response,
/// or nothing at all where the answer holds none. There is no body where a
/// text or a message within is too long for a field.
pub open spec fn slave_body(msg: ProtoOutMsg) -> Option<Seq<u8>> {
    match msg.response {
        Some(SlaveMessage_oneof_response::cursor(position)) => with_part(
            Some(Seq::empty()),
            RESPONSE_CURSOR,
            position_body(position),
        ),
        Some(SlaveMessage_oneof_response::init_info(info)) => with_part(
            Some(Seq::empty()),
            RESPONSE_INIT_INFO,
            client_info_body(info),
        ),
        Some(SlaveMessage_oneof_response::clipboard_session(clipboard)) => with_part(
            Some(Seq::empty()),
            RESPONSE_CLIPBOARD_SESSION,
            clipboard_body(clipboard@),
        ),
        Some(SlaveMessage_oneof_response::no_response(failure)) => with_part(
            Some(Seq::empty()),
            RESPONSE_NO_RESPONSE,
            failure_body(failure.Reason@),
        ),
        None => Some(Seq::empty()),
    }
}

/// A body that was or was not written, as a plain value.
pub open spec fn plain_body(body: Option<Vec<u8>>) -> Option<Seq<u8>> {
    match body {
        Some(bytes) => Some(bytes@),
        None => None,
    }
}

fn nothing_yet() -> (body: Option<Vec<u8>>)
    ensures
        plain_body(body) == Some(Seq::<u8>::empty()),
{
    Some(Vec::new())
}

fn append(body: Option<Vec<u8>>, field: WireField) -> (longer: Option<Vec<u8>>)
    ensures
        plain_body(longer) == with_field(plain_body(body), field@),
{
    match body {
        Some(mut bytes) => match put_field(&mut bytes, &field) {
            Ok(_) => Some(bytes),
            Err(_) => None,
        },
        None => None,
    }
}

fn append_int(body: Option<Vec<u8>>, number: u32, value: i32) -> (longer: Option<Vec<u8>>)
    ensures
        plain_body(longer) == with_field(plain_body(body), int_field(number, value)),
{
    append(body, WireField { number, value: WireValue::from_int32(value) })
}

fn append_text(body: Option<Vec<u8>>, number: u32, text: &str) -> (longer: Option<Vec<u8>>)
    ensures
        plain_body(longer) == with_field(plain_body(body), text_field(number, text@)),
{
    append(body, WireField { number, value: WireValue::from_text(text) })
}

fn append_part(body: Option<Vec<u8>>, number: u32, part: Option<Vec<u8>>) -> (longer: Option<Vec<u8>>)
    ensures
        plain_body(longer) == with_part(plain_body(body), number, plain_body(part)),
{
    match part {
        Some(bytes) => append(body, WireField { number, value: WireValue::LengthDelimited(bytes) }),
        None => None,
    }
}

fn encode_position(position: &Position) -> (body: Option<Vec<u8>>)
    ensures
        plain_body(body) == position_body(*position),
{
    let body = append_int(nothing_yet(), FIRST, position.x);
    append_int(body, SECOND, position.y)
}

fn encode_clipboard(clipboard: &Clipboard) -> (body: Option<Vec<u8>>)
    ensures
        plain_body(body) == clipboard_body(clipboard@),
{
    let number = match clipboard.format {
        Clip_Format::TEXT => 0,
        Clip_Format::FILE => 1,
    };
    let body = append_int(nothing_yet(), FIRST, number);
    append_text(body, SECOND, clipboard.message.as_str())
}

fn encode_failure(reason: &str) -> (body: Option<Vec<u8>>)
    ensures
        plain_body(body) == failure_body(reason@),
{
    append_text(nothing_yet(), FIRST, reason)
}

fn encode_client_info(info: &ClientInfo) -> (body: Option<Vec<u8>>)
    ensures
        plain_body(body) == client_info_body(*info),
{
    let system = match info.System {
        ClientInfo_OS::WINDOWS => 0,
        ClientInfo_OS::MAC => 1,
        ClientInfo_OS::LINUX => 2,
    };
    let body = append_int(nothing_yet(), INFO_WIDTH, info.Width);
    let body = append_int(body, INFO_HEIGHT, info.Height);
    let body = append_part(body, INFO_CURSOR, encode_position(&info.Cursor));
    let body = append_text(body, INFO_PASSWORD, info.Password.as_str());
    let body = append_part(body, INFO_GUID, encode_failure(info.Guid.value.as_str()));
    let body = append_text(body, INFO_NAME, info.Name.as_str());
    append_int(body, INFO_SYSTEM, system)
}

/// Writes the body of an answer of the client. Nothing comes of an answer
/// with a text, or a message within, that is too long for a field.
pub fn encode_slave(msg: &ProtoOutMsg) -> (body: Option<Vec<u8>>)
    ensures
        plain_body(body) == slave_body(*msg),
{
    match &msg.response {
        Some(SlaveMessage_oneof_response::cursor(position)) => append_part(
            nothing_yet(),
            RESPONSE_CURSOR,
            encode_position(position),
        ),
        Some(SlaveMessage_oneof_response::init_info(info)) => append_part(
            nothing_yet(),
            RESPONSE_INIT_INFO,
            encode_client_info(info),
        ),
        Some(SlaveMessage_oneof_response::clipboard_session(clipboard)) => append_part(
            nothing_yet(),
            RESPONSE_CLIPBOARD_SESSION,
            encode_clipboard(clipboard),
        ),
        Some(SlaveMessage_oneof_response::no_response(failure)) => append_part(
            nothing_yet(),
            RESPONSE_NO_RESPONSE,
            encode_failure(failure.Reason.as_str()),
        ),
        None => nothing_yet(),
    }
}

/// The number that stands for a state.
pub open spec fn number_of_state(state: State) -> i32 {
    match state {
        State::PRESSED => 0,
        State::RELEASED => 1,
    }
}

/// The number that stands for a button.
pub open spec fn number_of_button(button: Button) -> i32 {
    match button {
        Button::LEFT => 0,
        Button::RIGHT => 1,
        Button::MIDDLE => 2,
        Button::XBUTTON1 => 3,
        Button::XBUTTON2 => 4,
    }
}

/// The number that stands for a direction.
pub open spec fn number_of_direction(direction: Direction) -> i32 {
    match direction {
        Direction::SCROLL_UP => 0,
        Direction::SCROLL_DOWN => 1,
        Direction::SCROLL_LEFT => 2,
        Direction::SCROLL_RIGHT => 3,
    }
}

/// The number that stands for a request.
pub open spec fn number_of_request(request: Request) -> i32 {
    match request {
        Request::INIT_INFO => 0,
        Request::CLIPBOARD => 1,
        Request::MOUSE_POSITION => 2,
    }
}

/// The number that stands for a verdict.
pub open spec fn number_of_verdict(verdict: HandshakeResult) -> i32 {
    match verdict {
        HandshakeResult::Success => 0,
        HandshakeResult::Rejection => 1,
    }
}

/// A field that holds a number of 32 bits without a sign.
pub open spec fn uint_field(number: u32, value: u32) -> WireFieldView {
    WireFieldView { number, value: WireValueView::Varint(value as u64) }
}

/// A field that holds a truth value.
pub open spec fn bool_field(number: u32, value: bool) -> WireFieldView {
    WireFieldView {
        number,
        value: WireValueView::Varint(
            if value {
                1u64
            } else {
                0u64
            },
        ),
    }
}

/// The fields that the body of an action is written as, every field of the
/// action in its place.
pub open spec fn part_fields(action: MasterActionView) -> Seq<WireFieldView> {
    match action {
        MasterActionView::MousePosition(m) => seq![
            int_field(FIRST, m.X),
            int_field(SECOND, m.Y),
        ],
        MasterActionView::Keyboard(k) => seq![
            uint_field(FIRST, k.key),
            int_field(SECOND, number_of_state(k.event_type)),
        ],
        MasterActionView::MouseClick(c) => seq![
            int_field(FIRST, number_of_button(c.button)),
            int_field(SECOND, number_of_state(c.event_type)),
        ],
        MasterActionView::Clipboard(c) => seq![
            int_field(FIRST, number_of_format(c.format)),
            text_field(SECOND, c.message),
        ],
        MasterActionView::MouseWheel(w) => seq![
            int_field(FIRST, number_of_direction(w.scroll_direction)),
            int_field(SECOND, w.amount),
        ],
        MasterActionView::Handshake(e) => seq![
            int_field(FIRST, number_of_verdict(e.result)),
            text_field(SECOND, e.message),
        ],
        MasterActionView::StartSession(s) => seq![bool_field(FIRST, s.mouse_move_relative)],
        MasterActionView::Heartbeat(h) => seq![bool_field(FIRST, h.one_way)],
        MasterActionView::EndSession => Seq::empty(),
        MasterActionView::Request(_) => Seq::empty(),
    }
}

/// The field of a message of the server that holds an action of this kind.
pub open spec fn number_of_action(action: MasterActionView) -> u32 {
    match action {
        MasterActionView::MousePosition(_) => ACTION_MOUSE_POSITION,
        MasterActionView::Keyboard(_) => ACTION_KEYBOARD,
        MasterActionView::MouseClick(_) => ACTION_MOUSE_CLICK,
        MasterActionView::Clipboard(_) => ACTION_CLIPBOARD,
        MasterActionView::MouseWheel(_) => ACTION_MOUSE_WHEEL,
        MasterActionView::Handshake(_) => ACTION_HANDSHAKE,
        MasterActionView::StartSession(_) => ACTION_START_SESSION,
        MasterActionView::EndSession => ACTION_END_SESSION,
        MasterActionView::Request(_) => ACTION_REQUEST,
        MasterActionView::Heartbeat(_) => ACTION_HEARTBEAT,
    }
}

/// The field that a message of the server holds an action in: a request as
/// its number, any other action as the body that its fields make.
pub open spec fn action_field(action: MasterActionView) -> WireFieldView {
    match action {
        MasterActionView::Request(request) => int_field(
            ACTION_REQUEST,
            number_of_request(request),
        ),
        _ => part_field(number_of_action(action), encoding_of_all(part_fields(action))),
    }
}

/// The body that a message of the server with this action is written as.
pub open spec fn master_body(action: MasterActionView) -> Seq<u8> {
    action_field(action).encoding()
}

/// Whether an action can be written: none of its texts is too long for a
/// field, and neither is its body.
pub open spec fn fits(action: MasterActionView) -> bool {
    &&& action_field(action).wf()
    &&& forall|i: int|
        0 <= i < part_fields(action).len() ==> (#[trigger] part_fields(action)[i]).wf()
}

/// The numbers of every enumeration are read as the values they were
/// written for.
pub proof fn lemma_enumerations_round_trip(
    state: State,
    button: Button,
    direction: Direction,
    request: Request,
    verdict: HandshakeResult,
    format: Clip_Format,
)
    ensures
        state_at(number_of_state(state)) == Some(state),
        button_at(number_of_button(button)) == Some(button),
        direction_at(number_of_direction(direction)) == Some(direction),
        request_at(number_of_request(request)) == Some(request),
        verdict_at(number_of_verdict(verdict)) == Some(verdict),
        format_at(number_of_format(format)) == Some(format),
{
}

proof fn lemma_fields_are_read_back(
    number: u32,
    value: i32,
    count: u32,
    truth: bool,
    text: Seq<char>,
)
    ensures
        int_in(int_field(number, value).value) == Some(value),
        uint_in(uint_field(number, count).value) == Some(count),
        bool_in(bool_field(number, truth).value) == Some(truth),
        text_in(text_field(number, text).value) == Some(text),
{
    lemma_numbers_round_trip(value, count, truth);
    lemma_text_round_trip(text);
}

/// The fields that an action is written as are read as the action, from
/// the empty action of its kind.
pub proof fn lemma_part_round_trip(action: MasterActionView)
    requires
        !(action is Request),
    ensures
        empty_part(number_of_action(action)) is Some,
        part_of(part_fields(action), empty_part(number_of_action(action))->0) == Some(action),
{
    reveal_with_fuel(part_of, 3);
    let fields = part_fields(action);
    let start = empty_part(number_of_action(action))->0;
    if fields.len() == 2 {
        let first = fields[0];
        let second = fields[1];
        assert(fields.drop_last() =~= seq![first]);
        assert(fields.drop_last().drop_last() =~= Seq::<WireFieldView>::empty());
        assert(fields.last() == second);
        assert(fields.drop_last().last() == first);
    } else if fields.len() == 1 {
        assert(fields.drop_last() =~= Seq::<WireFieldView>::empty());
    }
    match action {
        MasterActionView::MousePosition(m) => {
            lemma_fields_are_read_back(FIRST, m.X, 0, false, Seq::empty());
            lemma_fields_are_read_back(SECOND, m.Y, 0, false, Seq::empty());
        },
        MasterActionView::Keyboard(k) => {
            lemma_fields_are_read_back(FIRST, 0, k.key, false, Seq::empty());
            lemma_fields_are_read_back(
                SECOND,
                number_of_state(k.event_type),
                0,
                false,
                Seq::empty(),
            );
        },
        MasterActionView::MouseClick(c) => {
            lemma_fields_are_read_back(
                FIRST,
                number_of_button(c.button),
                0,
                false,
                Seq::empty(),
            );
            lemma_fields_are_read_back(
                SECOND,
                number_of_state(c.event_type),
                0,
                false,
                Seq::empty(),
            );
        },
        MasterActionView::Clipboard(c) => {
            lemma_fields_are_read_back(FIRST, number_of_format(c.format), 0, false, c.message);
            lemma_fields_are_read_back(SECOND, 0, 0, false, c.message);
        },
        MasterActionView::MouseWheel(w) => {
            lemma_fields_are_read_back(
                FIRST,
                number_of_direction(w.scroll_direction),
                0,
                false,
                Seq::empty(),
            );
            lemma_fields_are_read_back(SECOND, w.amount, 0, false, Seq::empty());
        },
        MasterActionView::Handshake(e) => {
            lemma_fields_are_read_back(FIRST, number_of_verdict(e.result), 0, false, e.message);
            lemma_fields_are_read_back(SECOND, 0, 0, false, e.message);
        },
        MasterActionView::StartSession(s) => {
            lemma_fields_are_read_back(FIRST, 0, 0, s.mouse_move_relative, Seq::empty());
        },
        MasterActionView::Heartbeat(h) => {
            lemma_fields_are_read_back(FIRST, 0, 0, h.one_way, Seq::empty());
        },
        _ => {},
    }
}

/// A message of the server that is written is read as it was, as long as
/// it can be written at all.
pub proof fn lemma_master_round_trip(action: MasterActionView)
    requires
        fits(action),
    ensures
        reading_of(action_field(action)) == FieldReading::Action(action),
        master_of(master_body(action)) == Some(Some(action)),
{
    let field = action_field(action);
    match action {
        MasterActionView::Request(request) => {
            lemma_fields_are_read_back(
                ACTION_REQUEST,
                number_of_request(request),
                0,
                false,
                Seq::empty(),
            );
        },
        _ => {
            lemma_part_round_trip(action);
            lemma_fields_round_trip(part_fields(action));
        },
    }
    assert(reading_of(field) == FieldReading::Action(action));
    let alone = seq![field];
    reveal_with_fuel(encoding_of_all, 2);
    reveal_with_fuel(master_from, 2);
    assert(alone.subrange(1, 1) =~= Seq::<WireFieldView>::empty());
    assert(encoding_of_all(alone) =~= field.encoding());
    lemma_fields_round_trip(alone);
    assert(alone.drop_last() =~= Seq::<WireFieldView>::empty());
    assert(alone.last() == field);
}

proof fn lemma_fields_in_a_row(fields: Seq<WireFieldView>, field: WireFieldView)
    ensures
        encoding_of_all(fields.push(field)) == encoding_of_all(fields) + field.encoding(),
    decreases fields.len(),
{
    let longer = fields.push(field);
    if fields.len() == 0 {
        reveal_with_fuel(encoding_of_all, 2);
        assert(longer.subrange(1, 1) =~= Seq::<WireFieldView>::empty());
        assert(encoding_of_all(longer) =~= field.encoding());
        assert(encoding_of_all(fields) + field.encoding() =~= field.encoding());
    } else {
        let others = fields.subrange(1, fields.len() as int);
        lemma_fields_in_a_row(others, field);
        assert(longer.subrange(1, longer.len() as int) =~= others.push(field));
        assert(longer[0] == fields[0]);
        assert(encoding_of_all(longer) =~= encoding_of_all(fields) + field.encoding());
    }
}

/// A body that fields were put behind one by one is taken apart into these
/// fields again: where the fields so far make the body so far, the body with
/// one more field behind it is made of the fields so far and that field, and
/// is read as such.
pub proof fn lemma_body_is_read_field_by_field(fields: Seq<WireFieldView>, field: WireFieldView)
    requires
        forall|i: int| 0 <= i < fields.len() ==> (#[trigger] fields[i]).wf(),
        field.wf(),
    ensures
        with_field(Some(encoding_of_all(fields)), field) == Some(
            encoding_of_all(fields.push(field)),
        ),
        fields_of(encoding_of_all(fields.push(field))) == Some(fields.push(field)),
        with_field(Some(Seq::empty()), field) == Some(encoding_of_all(seq![field])),
{
    lemma_fields_in_a_row(fields, field);
    lemma_fields_round_trip(fields.push(field));
    lemma_fields_in_a_row(Seq::empty(), field);
    assert(Seq::<WireFieldView>::empty().push(field) =~= seq![field]);
    assert(Seq::<u8>::empty() + field.encoding() =~= field.encoding());
    assert(encoding_of_all(Seq::<WireFieldView>::empty()) =~= Seq::<u8>::empty());
}

/// The pointer's position that the client answers with is read off the
/// wire as the two numbers it was written for.
pub proof fn lemma_position_is_read_back(position: Position)
    ensures
        position_body(position) is Some,
        fields_of(position_body(position)->0) == Some(
            seq![int_field(FIRST, position.x), int_field(SECOND, position.y)],
        ),
        int_in(int_field(FIRST, position.x).value) == Some(position.x),
        int_in(int_field(SECOND, position.y).value) == Some(position.y),
{
    let x = int_field(FIRST, position.x);
    let y = int_field(SECOND, position.y);
    lemma_body_is_read_field_by_field(Seq::empty(), x);
    lemma_body_is_read_field_by_field(seq![x], y);
    assert(seq![x].push(y) =~= seq![x, y]);
    lemma_fields_are_read_back(FIRST, position.x, 0, false, Seq::empty());
    lemma_fields_are_read_back(SECOND, position.y, 0, false, Seq::empty());
}

} // verus!
