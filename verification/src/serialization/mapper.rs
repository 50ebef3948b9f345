//! The mapping between wire messages and the internal message model.

use vstd::prelude::*;
use vstd::std_specs::convert::FromSpecImpl;
use super::proto_factory::response::HostInfo;
use super::proto_factory::{request, response};
use crate::proto_rs::proto_in::MasterMessage_oneof_action as MsgType;
use crate::proto_rs::proto_out::SlaveMessage_oneof_response as ResponseType;
use crate::proto_rs::{proto_in, proto_out};
use crate::proto_rs::{Clip_Format, Clipboard};
use crate::proto_rs::{ProtoInMsg, ProtoOutMsg};
use crate::session::{JerryMessage, JerryResponse};

verus! {

/// The message that a wire message stands for. A wire message without an
/// action is a heartbeat.
pub open spec fn message_of(msg: ProtoInMsg) -> JerryMessage {
    match msg.action {
        Some(MsgType::mouse_position(p)) => JerryMessage::MouseMove(p.X, p.Y),
        Some(MsgType::keyboard(k)) => JerryMessage::Key(k.key, k.event_type),
        Some(MsgType::mouse_click(mc)) => JerryMessage::MouseClick(mc.button, mc.event_type),
        Some(MsgType::clipboard(c)) => JerryMessage::Clipboard(
            c.message,
            c.format == Clip_Format::FILE,
        ),
        Some(MsgType::mouse_wheel(wh)) => JerryMessage::MouseWheel(wh.scroll_direction, wh.amount),
        Some(MsgType::handshake(result)) => JerryMessage::Handshake(
            result.result,
            result.message,
        ),
        Some(MsgType::start_session(s)) => JerryMessage::SessionBegin {
            relative_move: s.mouse_move_relative,
        },
        Some(MsgType::end_session(_)) => JerryMessage::SessionEnd,
        Some(MsgType::request(req)) => JerryMessage::Request(req),
        Some(MsgType::heartbeat(_)) => JerryMessage::Heartbeat,
        None => JerryMessage::Heartbeat,
    }
}

/// The action that stands for a message on the wire.
pub open spec fn action_of(params: JerryMessage) -> MsgType {
    match params {
        JerryMessage::MouseMove(x, y) => MsgType::mouse_position(proto_in::MouseMove { X: x, Y: y }),
        JerryMessage::Key(key, motion) => MsgType::keyboard(
            proto_in::Keyboard { key, event_type: motion },
        ),
        JerryMessage::MouseClick(b, mo) => MsgType::mouse_click(
            proto_in::MouseClick { button: b, event_type: mo },
        ),
        JerryMessage::SessionBegin { relative_move } => MsgType::start_session(
            proto_in::SessionBegin { mouse_move_relative: relative_move },
        ),
        JerryMessage::SessionEnd => MsgType::end_session(proto_in::SessionEnd {  }),
        JerryMessage::Clipboard(content, files) => MsgType::clipboard(
            Clipboard { format: super::proto_factory::format_of(files), message: content },
        ),
        JerryMessage::Request(r) => MsgType::request(r),
        JerryMessage::MouseWheel(wh, am) => MsgType::mouse_wheel(
            proto_in::MouseWheel { scroll_direction: wh, amount: am },
        ),
        JerryMessage::Handshake(res, m) => MsgType::handshake(
            proto_in::Echo { result: res, message: m },
        ),
        JerryMessage::Heartbeat => MsgType::heartbeat(proto_in::Heartbeat { one_way: true }),
    }
}

/// The wire message that stands for a message.
pub open spec fn wire_of(params: JerryMessage) -> ProtoInMsg {
    ProtoInMsg { action: Some(action_of(params)) }
}

/// The wire message that carries an answer. The description of the client
/// is made of the session's parameters and of what the caller found out
/// about the machine.
pub open spec fn response_wire_of(params: JerryResponse, host: HostInfo) -> ProtoOutMsg {
    ProtoOutMsg {
        response: Some(
            match params {
                JerryResponse::Cursor(x, y) => ResponseType::cursor(proto_out::Position { x, y }),
                JerryResponse::InitInfo(session) => ResponseType::init_info(
                    response::init_info_of(session, host),
                ),
                JerryResponse::Clipboard(content, files) => ResponseType::clipboard_session(
                    Clipboard { format: super::proto_factory::format_of(files), message: content },
                ),
                JerryResponse::NoResponse(reason) => ResponseType::no_response(
                    proto_out::Failure { Reason: reason },
                ),
            },
        ),
    }
}

impl FromSpecImpl<ProtoInMsg> for JerryMessage {
    open spec fn obeys_from_spec() -> bool {
        true
    }

    open spec fn from_spec(msg: ProtoInMsg) -> JerryMessage {
        message_of(msg)
    }
}

impl From<ProtoInMsg> for JerryMessage {
    fn from(msg: ProtoInMsg) -> (message: JerryMessage)
        ensures
            message == message_of(msg),
    {
        if let Some(action) = msg.action {
            match action {
                MsgType::mouse_position(p) => JerryMessage::from(p),
                MsgType::keyboard(k) => JerryMessage::from(k),
                MsgType::mouse_click(mc) => JerryMessage::from(mc),
                MsgType::clipboard(c) => JerryMessage::from(c),
                MsgType::mouse_wheel(wh) => JerryMessage::from(wh),
                MsgType::handshake(result) => JerryMessage::from(result),
                MsgType::start_session(s) => JerryMessage::from(s),
                MsgType::end_session(_) => JerryMessage::SessionEnd,
                MsgType::request(req) => JerryMessage::Request(req),
                MsgType::heartbeat(_one_way) => JerryMessage::Heartbeat,
            }
        } else {
            JerryMessage::Heartbeat
        }
    }
}

impl FromSpecImpl<JerryMessage> for ProtoInMsg {
    open spec fn obeys_from_spec() -> bool {
        true
    }

    open spec fn from_spec(params: JerryMessage) -> ProtoInMsg {
        wire_of(params)
    }
}

impl From<JerryMessage> for ProtoInMsg {
    fn from(params: JerryMessage) -> (msg: ProtoInMsg)
        ensures
            msg == wire_of(params),
    {
        let mut msg = ProtoInMsg::new();
        match params {
            JerryMessage::MouseMove(x, y) => msg.set_mouse_position(
                request::create_mouse_move(x, y),
            ),
            JerryMessage::Key(key, motion) => msg.set_keyboard(request::create_key(key, motion)),
            JerryMessage::MouseClick(b, mo) => msg.set_mouse_click(
                request::create_mouse_click(b, mo),
            ),
            JerryMessage::SessionBegin { relative_move: b } => msg.set_start_session(
                request::create_session_begin(b),
            ),
            JerryMessage::SessionEnd => msg.set_end_session(proto_in::SessionEnd::new()),
            JerryMessage::Clipboard(content, files) => msg.set_clipboard(
                response::create_clipboard(content, files),
            ),
            JerryMessage::Request(r) => msg.set_request(r),
            JerryMessage::MouseWheel(wh, am) => msg.set_mouse_wheel(
                request::create_mouse_wheel(wh, am),
            ),
            JerryMessage::Handshake(res, m) => {
                let mut r = proto_in::Echo::new();
                r.set_result(res);
                r.set_message(m);
                msg.set_handshake(r)
            },
            JerryMessage::Heartbeat => {
                let mut hb = proto_in::Heartbeat::new();
                hb.set_one_way(true);
                msg.set_heartbeat(hb)
            },
        }
        msg
    }
}

/// A message that is put on the wire and taken off again is the message
/// it was.
pub proof fn lemma_wire_round_trip(msg: JerryMessage)
    ensures
        message_of(wire_of(msg)) == msg,
{
}

/// Puts an answer on the wire.
pub fn slave_message(params: JerryResponse, host: HostInfo) -> (msg: ProtoOutMsg)
    ensures
        msg == response_wire_of(params, host),
{
    let mut msg = ProtoOutMsg::new();
    match params {
        JerryResponse::Cursor(x, y) => msg.set_cursor(response::create_position(x, y)),
        JerryResponse::InitInfo(params) => msg.set_init_info(
            response::create_init_info(params, host),
        ),
        JerryResponse::Clipboard(content, files) => msg.set_clipboard_session(
            response::create_clipboard(content, files),
        ),
        JerryResponse::NoResponse(reason) => msg.set_no_response(response::create_failure(reason)),
    }
    msg
}

impl FromSpecImpl<proto_out::Position> for ProtoOutMsg {
    open spec fn obeys_from_spec() -> bool {
        true
    }

    open spec fn from_spec(pos: proto_out::Position) -> ProtoOutMsg {
        ProtoOutMsg { response: Some(ResponseType::cursor(pos)) }
    }
}

impl From<proto_out::Position> for ProtoOutMsg {
    fn from(pos: proto_out::Position) -> (msg: ProtoOutMsg) {
        let mut msg = ProtoOutMsg::new();
        msg.set_cursor(pos);
        msg
    }
}

impl FromSpecImpl<Clipboard> for ProtoOutMsg {
    open spec fn obeys_from_spec() -> bool {
        true
    }

    open spec fn from_spec(clip: Clipboard) -> ProtoOutMsg {
        ProtoOutMsg { response: Some(ResponseType::clipboard_session(clip)) }
    }
}

impl From<Clipboard> for ProtoOutMsg {
    fn from(clip: Clipboard) -> (msg: ProtoOutMsg) {
        let mut msg = ProtoOutMsg::new();
        msg.set_clipboard_session(clip);
        msg
    }
}

impl FromSpecImpl<proto_out::ClientInfo> for ProtoOutMsg {
    open spec fn obeys_from_spec() -> bool {
        true
    }

    open spec fn from_spec(init: proto_out::ClientInfo) -> ProtoOutMsg {
        ProtoOutMsg { response: Some(ResponseType::init_info(init)) }
    }
}

impl From<proto_out::ClientInfo> for ProtoOutMsg {
    fn from(init: proto_out::ClientInfo) -> (msg: ProtoOutMsg) {
        let mut msg = ProtoOutMsg::new();
        msg.set_init_info(init);
        msg
    }
}

impl FromSpecImpl<proto_out::Failure> for ProtoOutMsg {
    open spec fn obeys_from_spec() -> bool {
        true
    }

    open spec fn from_spec(fail: proto_out::Failure) -> ProtoOutMsg {
        ProtoOutMsg { response: Some(ResponseType::no_response(fail)) }
    }
}

impl From<proto_out::Failure> for ProtoOutMsg {
    fn from(fail: proto_out::Failure) -> (msg: ProtoOutMsg) {
        let mut msg = ProtoOutMsg::new();
        msg.set_no_response(fail);
        msg
    }
}

/// What can be sent to the server as a message of its own.
pub trait GetSlaveMessage {
    fn into_response(self) -> ProtoOutMsg;
}

impl GetSlaveMessage for proto_out::Position {
    fn into_response(self) -> (msg: ProtoOutMsg)
        ensures
            msg == (ProtoOutMsg { response: Some(ResponseType::cursor(self)) }),
    {
        let mut msg = ProtoOutMsg::new();
        msg.set_cursor(self);
        msg
    }
}

impl GetSlaveMessage for Clipboard {
    fn into_response(self) -> (msg: ProtoOutMsg)
        ensures
            msg == (ProtoOutMsg { response: Some(ResponseType::clipboard_session(self)) }),
    {
        let mut msg = ProtoOutMsg::new();
        msg.set_clipboard_session(self);
        msg
    }
}

impl GetSlaveMessage for proto_out::ClientInfo {
    fn into_response(self) -> (msg: ProtoOutMsg)
        ensures
            msg == (ProtoOutMsg { response: Some(ResponseType::init_info(self)) }),
    {
        let mut msg = ProtoOutMsg::new();
        msg.set_init_info(self);
        msg
    }
}

impl FromSpecImpl<proto_in::MouseMove> for JerryMessage {
    open spec fn obeys_from_spec() -> bool {
        true
    }

    open spec fn from_spec(mm: proto_in::MouseMove) -> JerryMessage {
        JerryMessage::MouseMove(mm.X, mm.Y)
    }
}

impl From<proto_in::MouseMove> for JerryMessage {
    fn from(mm: proto_in::MouseMove) -> (message: JerryMessage) {
        JerryMessage::MouseMove(mm.X, mm.Y)
    }
}

impl FromSpecImpl<proto_in::Keyboard> for JerryMessage {
    open spec fn obeys_from_spec() -> bool {
        true
    }

    open spec fn from_spec(ke: proto_in::Keyboard) -> JerryMessage {
        JerryMessage::Key(ke.key, ke.event_type)
    }
}

impl From<proto_in::Keyboard> for JerryMessage {
    fn from(ke: proto_in::Keyboard) -> (message: JerryMessage) {
        JerryMessage::Key(ke.key, ke.event_type)
    }
}

impl FromSpecImpl<Clipboard> for JerryMessage {
    open spec fn obeys_from_spec() -> bool {
        true
    }

    open spec fn from_spec(c: Clipboard) -> JerryMessage {
        JerryMessage::Clipboard(c.message, c.format == Clip_Format::FILE)
    }
}

impl From<Clipboard> for JerryMessage {
    fn from(c: Clipboard) -> (message: JerryMessage) {
        let files = match c.format {
            Clip_Format::FILE => true,
            _ => false,
        };
        JerryMessage::Clipboard(c.message, files)
    }
}

impl FromSpecImpl<proto_in::MouseClick> for JerryMessage {
    open spec fn obeys_from_spec() -> bool {
        true
    }

    open spec fn from_spec(mc: proto_in::MouseClick) -> JerryMessage {
        JerryMessage::MouseClick(mc.button, mc.event_type)
    }
}

impl From<proto_in::MouseClick> for JerryMessage {
    fn from(mc: proto_in::MouseClick) -> (message: JerryMessage) {
        JerryMessage::MouseClick(mc.button, mc.event_type)
    }
}

impl FromSpecImpl<proto_in::MouseWheel> for JerryMessage {
    open spec fn obeys_from_spec() -> bool {
        true
    }

    open spec fn from_spec(wh: proto_in::MouseWheel) -> JerryMessage {
        JerryMessage::MouseWheel(wh.scroll_direction, wh.amount)
    }
}

impl From<proto_in::MouseWheel> for JerryMessage {
    fn from(wh: proto_in::MouseWheel) -> (message: JerryMessage) {
        JerryMessage::MouseWheel(wh.scroll_direction, wh.amount)
    }
}

impl FromSpecImpl<proto_in::Echo> for JerryMessage {
    open spec fn obeys_from_spec() -> bool {
        true
    }

    open spec fn from_spec(result: proto_in::Echo) -> JerryMessage {
        JerryMessage::Handshake(result.result, result.message)
    }
}

impl From<proto_in::Echo> for JerryMessage {
    fn from(result: proto_in::Echo) -> (message: JerryMessage) {
        JerryMessage::Handshake(result.result, result.message)
    }
}

impl FromSpecImpl<proto_in::SessionBegin> for JerryMessage {
    open spec fn obeys_from_spec() -> bool {
        true
    }

    open spec fn from_spec(s: proto_in::SessionBegin) -> JerryMessage {
        JerryMessage::SessionBegin { relative_move: s.mouse_move_relative }
    }
}

impl From<proto_in::SessionBegin> for JerryMessage {
    fn from(s: proto_in::SessionBegin) -> (message: JerryMessage) {
        JerryMessage::SessionBegin { relative_move: s.mouse_move_relative }
    }
}

} // verus!
