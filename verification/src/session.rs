//! The internal message model that the wire mapper and the session handler
//! share.

pub mod emulator;
pub mod guarantees;
pub mod message_handler;

pub use crate::proto_rs::request_master::Button;
pub use crate::proto_rs::request_master::Direction;
pub use crate::proto_rs::request_master::Echo;
pub use crate::proto_rs::request_master::HandshakeResult;
pub use crate::proto_rs::request_master::Request;
pub use crate::proto_rs::request_master::State;
pub use crate::state::Command;

use vstd::prelude::*;
use crate::configuration::{SessionParams, SessionParamsView};
use message_handler::{
    ContextAwareMessageHandler, Observation, ObservationView, Reaction, ReactionView,
};

verus! {

/// What takes the messages of the server off the listen loop.
pub trait MessageConsumer {
    /// Whether the consumer has finished.
    spec fn is_finished(&self) -> bool;

    /// What the consumer makes of a message, outside itself.
    spec fn reaction_to(&self, msg: JerryMessageView, seen: ObservationView) -> ReactionView;

    /// Takes one message, with what the caller found outside for it.
    fn consume(&mut self, msg: JerryMessage, seen: Observation) -> (reaction: Reaction)
        ensures
            reaction@ == old(self).reaction_to(msg@, seen@),
    ;

    /// Whether the consumer wants no more messages.
    fn finished(&self) -> (done: bool)
        ensures
            done == self.is_finished(),
    ;
}

impl MessageConsumer for ContextAwareMessageHandler {
    open spec fn is_finished(&self) -> bool {
        self@.finished
    }

    open spec fn reaction_to(&self, msg: JerryMessageView, seen: ObservationView) -> ReactionView {
        self@.reaction_to(msg, seen)
    }

    fn consume(&mut self, msg: JerryMessage, seen: Observation) -> (reaction: Reaction)
        ensures
            final(self)@ == old(self)@.after(msg@, seen@),
    {
        ContextAwareMessageHandler::consume(self, msg, seen)
    }

    fn finished(&self) -> (done: bool) {
        ContextAwareMessageHandler::finished(self)
    }
}

/// A message from the server, in the form the client works with.
#[derive(Debug, PartialEq, Eq)]
pub enum JerryMessage {
    /// A pointer position, or a pointer displacement in a relative session.
    MouseMove(i32, i32),
    Key(u32, State),
    MouseClick(Button, State),
    MouseWheel(Direction, i32),
    SessionBegin { relative_move: bool },
    SessionEnd,
    /// Clipboard text and whether it is a list of files.
    Clipboard(String, bool),
    Request(Request),
    Handshake(HandshakeResult, String),
    Heartbeat,
}

/// What the client answers.
#[derive(Debug, PartialEq, Eq)]
pub enum JerryResponse {
    Cursor(i32, i32),
    InitInfo(SessionParams),
    /// Clipboard text and whether it is a list of files.
    Clipboard(String, bool),
    /// Nothing to report, with the reason.
    NoResponse(String),
}

/// A message from the server as a plain value.
pub enum JerryMessageView {
    MouseMove(i32, i32),
    Key(u32, State),
    MouseClick(Button, State),
    MouseWheel(Direction, i32),
    SessionBegin { relative_move: bool },
    SessionEnd,
    Clipboard(Seq<char>, bool),
    Request(Request),
    Handshake(HandshakeResult, Seq<char>),
    Heartbeat,
}

/// An answer of the client as a plain value.
pub enum JerryResponseView {
    Cursor(i32, i32),
    InitInfo(SessionParamsView),
    Clipboard(Seq<char>, bool),
    NoResponse(Seq<char>),
}

impl View for JerryMessage {
    type V = JerryMessageView;

    open spec fn view(&self) -> JerryMessageView {
        match self {
            JerryMessage::MouseMove(x, y) => JerryMessageView::MouseMove(*x, *y),
            JerryMessage::Key(key, state) => JerryMessageView::Key(*key, *state),
            JerryMessage::MouseClick(button, state) => JerryMessageView::MouseClick(
                *button,
                *state,
            ),
            JerryMessage::MouseWheel(direction, amount) => JerryMessageView::MouseWheel(
                *direction,
                *amount,
            ),
            JerryMessage::SessionBegin { relative_move } => JerryMessageView::SessionBegin {
                relative_move: *relative_move,
            },
            JerryMessage::SessionEnd => JerryMessageView::SessionEnd,
            JerryMessage::Clipboard(content, files) => JerryMessageView::Clipboard(
                content@,
                *files,
            ),
            JerryMessage::Request(request) => JerryMessageView::Request(*request),
            JerryMessage::Handshake(result, message) => JerryMessageView::Handshake(
                *result,
                message@,
            ),
            JerryMessage::Heartbeat => JerryMessageView::Heartbeat,
        }
    }
}

impl DeepView for JerryMessage {
    type V = JerryMessageView;

    open spec fn deep_view(&self) -> JerryMessageView {
        self.view()
    }
}

impl View for JerryResponse {
    type V = JerryResponseView;

    open spec fn view(&self) -> JerryResponseView {
        match self {
            JerryResponse::Cursor(x, y) => JerryResponseView::Cursor(*x, *y),
            JerryResponse::InitInfo(params) => JerryResponseView::InitInfo(params@),
            JerryResponse::Clipboard(content, files) => JerryResponseView::Clipboard(
                content@,
                *files,
            ),
            JerryResponse::NoResponse(reason) => JerryResponseView::NoResponse(reason@),
        }
    }
}

impl DeepView for JerryResponse {
    type V = JerryResponseView;

    open spec fn deep_view(&self) -> JerryResponseView {
        self.view()
    }
}

impl Clone for JerryMessage {
    fn clone(&self) -> (copy: JerryMessage)
        ensures
            copy@ == self@,
    {
        match self {
            JerryMessage::MouseMove(x, y) => JerryMessage::MouseMove(*x, *y),
            JerryMessage::Key(key, state) => JerryMessage::Key(*key, *state),
            JerryMessage::MouseClick(button, state) => JerryMessage::MouseClick(*button, *state),
            JerryMessage::MouseWheel(direction, amount) => JerryMessage::MouseWheel(
                *direction,
                *amount,
            ),
            JerryMessage::SessionBegin { relative_move } => JerryMessage::SessionBegin {
                relative_move: *relative_move,
            },
            JerryMessage::SessionEnd => JerryMessage::SessionEnd,
            JerryMessage::Clipboard(content, files) => JerryMessage::Clipboard(
                content.clone(),
                *files,
            ),
            JerryMessage::Request(request) => JerryMessage::Request(*request),
            JerryMessage::Handshake(result, message) => JerryMessage::Handshake(
                *result,
                message.clone(),
            ),
            JerryMessage::Heartbeat => JerryMessage::Heartbeat,
        }
    }
}

} // verus!
