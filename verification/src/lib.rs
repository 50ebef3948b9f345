//! Client side of a remote-input-control protocol.
//!
//! The crate holds the decision logic of the client: the reconnecting
//! transport, the key agreement that yields the two cipher contexts, the
//! keystream wrapper, the mapping between wire messages and the internal
//! message model, the session handler that tracks pressed keys and buttons,
//! and the connection state machine. Sockets, the clipboard, the input
//! devices and the clock stay with the caller, which performs the actions
//! the library decides on and reports their outcomes back.

pub mod configuration;
pub mod connection;
pub mod emulation;
pub mod proto_rs;
pub mod security;
pub mod serialization;
pub mod session;
pub mod state;

use vstd::prelude::*;

verus! {

/// How the client presents what it is doing.
#[derive(Clone, Copy, Debug, PartialEq, Eq, Structural)]
pub enum DisplayMode {
    Logging,
    CurrentState,
}

/// Port offered when a new server record is created.
pub const DEFAULT_PORT: u16 = 8888;

/// Marker attached to every injected input event.
pub const JERRY_CLIENT_ID: usize = 23889;

impl DisplayMode {
    /// The mode that goes with the `visualize` switch.
    pub fn from_visualize(visualize: bool) -> (mode: DisplayMode)
        ensures
            mode == (if visualize { DisplayMode::CurrentState } else { DisplayMode::Logging }),
    {
        if visualize {
            DisplayMode::CurrentState
        } else {
            DisplayMode::Logging
        }
    }
}

} // verus!
