//! Framing and mapping: one message in, at most one message out.
//!
//! The streams belong to the caller. It decodes exactly one
//! length-delimited message at a time, and writes each answer as one
//! length-delimited message that is flushed at once; nothing is batched.
//! `ProtoSerDe` says which of the two comes next.

pub mod framing;
pub mod layout;
pub mod mapper;
pub mod proto_factory;
pub mod wire_format;

use vstd::prelude::*;
use vstd::string::StringExecFns;
use crate::proto_rs::{ProtoInMsg, ProtoOutMsg};
use crate::session::{JerryMessage, JerryResponse, MessageConsumer};
use mapper::{message_of, response_wire_of, slave_message};
use proto_factory::response::HostInfo;

verus! {

/// What the caller of the listen loop reports.
#[derive(Debug, PartialEq, Eq)]
pub enum ListenEvent {
    /// The loop begins.
    Started,
    /// One message was decoded, or could not be, with the reason.
    Decoded(Result<ProtoInMsg, String>),
    /// The consumer has taken the message, with its answer if it gave one.
    Consumed(Option<JerryResponse>),
    /// The answer was written and flushed, or could not be, with the
    /// reason.
    Written(Result<(), String>),
}

/// What the listen loop asks of its caller.
#[derive(Debug, PartialEq, Eq)]
pub enum ListenAction {
    /// Decode exactly one length-delimited message from the reader.
    Read,
    /// Hand the message to the consumer.
    Consume(JerryMessage),
    /// Write this as one length-delimited message and flush.
    Write(ProtoOutMsg),
    /// The loop is over: the consumer has finished, or reading or writing
    /// failed.
    Finish(Result<(), String>),
}

/// The listen loop of one connection.
pub struct ProtoSerDe {
    host: HostInfo,
}

impl ProtoSerDe {
    /// What the loop was told about the machine it runs on.
    pub closed spec fn host(&self) -> HostInfo {
        self.host
    }

    /// Whether the action is what the top of the loop asks for: nothing
    /// more once the consumer has finished, another message otherwise.
    pub open spec fn at_top(action: ListenAction, finished: bool) -> bool {
        if finished {
            action == ListenAction::Finish(Ok(()))
        } else {
            action == ListenAction::Read
        }
    }

    /// Whether the action is what follows the event. A message that was
    /// decoded goes to the consumer, and an answer of the consumer goes on
    /// the wire. Without an answer, and after an answer was written, the
    /// loop is back at its top. A failure to decode or to write ends the
    /// loop with a text that says which of the two it was and why.
    pub open spec fn follows(
        self,
        action: ListenAction,
        finished: bool,
        event: ListenEvent,
    ) -> bool {
        match event {
            ListenEvent::Started => Self::at_top(action, finished),
            ListenEvent::Decoded(Ok(wire)) => action == ListenAction::Consume(message_of(wire)),
            ListenEvent::Decoded(Err(reason)) => action matches ListenAction::Finish(Err(text))
                && text@ == "Read message error: "@ + reason@,
            ListenEvent::Consumed(Some(response)) => action == ListenAction::Write(
                response_wire_of(response, self.host()),
            ),
            ListenEvent::Consumed(None) => Self::at_top(action, finished),
            ListenEvent::Written(Ok(_)) => Self::at_top(action, finished),
            ListenEvent::Written(Err(reason)) => action matches ListenAction::Finish(Err(text))
                && text@ == "Write message error: "@ + reason@,
        }
    }

    /// A listen loop on a machine of which `host` holds what is reported to
    /// the server.
    pub fn new(host: HostInfo) -> (listener: Self)
        ensures
            listener.host() == host,
    {
        ProtoSerDe { host }
    }

    fn top<C: MessageConsumer>(consumer: &C) -> (action: ListenAction)
        ensures
            Self::at_top(action, consumer.is_finished()),
    {
        if consumer.finished() {
            ListenAction::Finish(Ok(()))
        } else {
            ListenAction::Read
        }
    }

    /// Says what comes next in the loop around `consumer`.
    pub fn listen_loop<C: MessageConsumer>(&self, consumer: &C, event: ListenEvent) -> (action:
        ListenAction)
        ensures
            self.follows(action, consumer.is_finished(), event),
    {
        match event {
            ListenEvent::Started => Self::top(consumer),
            ListenEvent::Decoded(Ok(wire)) => ListenAction::Consume(JerryMessage::from(wire)),
            ListenEvent::Decoded(Err(reason)) => {
                let mut text = String::from_str("Read message error: ");
                text.append(reason.as_str());
                ListenAction::Finish(Err(text))
            },
            ListenEvent::Consumed(Some(response)) => ListenAction::Write(
                slave_message(response, self.host),
            ),
            ListenEvent::Consumed(None) => Self::top(consumer),
            ListenEvent::Written(Ok(_)) => Self::top(consumer),
            ListenEvent::Written(Err(reason)) => {
                let mut text = String::from_str("Write message error: ");
                text.append(reason.as_str());
                ListenAction::Finish(Err(text))
            },
        }
    }
}

} // verus!
