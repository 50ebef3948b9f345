//! What is published on the outward command channel, and what the views
//! make of it.

pub mod log;
pub mod ui;

use vstd::prelude::*;
use crate::connection::{ConnectionState, ConnectionStateView};
use crate::session::{JerryMessage, JerryMessageView};

verus! {

/// A point on a monitor, in pixels.
#[derive(Clone, Copy, PartialEq, Eq, Structural, Debug)]
pub struct Coord {
    pub x: i32,
    pub y: i32,
}

/// One item on the command channel. The channel delivers items in the order
/// they were sent; `Halt` is the only shutdown signal.
#[derive(Debug, PartialEq, Eq)]
pub enum Command {
    Draw,
    Message(JerryMessage),
    MessageCorrective(JerryMessage),
    ConnectionResult(ConnectionState),
    Halt,
    ExitWithError(String),
}

/// A command as a plain value.
pub enum CommandView {
    Draw,
    Message(JerryMessageView),
    MessageCorrective(JerryMessageView),
    ConnectionResult(ConnectionStateView),
    Halt,
    ExitWithError(Seq<char>),
}

impl View for Command {
    type V = CommandView;

    open spec fn view(&self) -> CommandView {
        match self {
            Command::Draw => CommandView::Draw,
            Command::Message(msg) => CommandView::Message(msg@),
            Command::MessageCorrective(msg) => CommandView::MessageCorrective(msg@),
            Command::ConnectionResult(state) => CommandView::ConnectionResult(state@),
            Command::Halt => CommandView::Halt,
            Command::ExitWithError(reason) => CommandView::ExitWithError(reason@),
        }
    }
}

impl DeepView for Command {
    type V = CommandView;

    open spec fn deep_view(&self) -> CommandView {
        self.view()
    }
}

} // verus!
