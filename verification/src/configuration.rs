//! What a session is started with.

pub mod provider;

pub use provider::ConfigProvider;

use vstd::prelude::*;
use crate::DisplayMode;
use provider::{ConfigView, ServerConfigView};

verus! {

/// A fixed monitor size in pixels.
#[derive(Clone, Copy, Debug, PartialEq, Eq, Structural)]
pub struct MonitorSize {
    pub width: u16,
    pub height: u16,
}

/// The monitor geometry a session reports: a fixed size, or whatever the
/// display says when it is asked.
#[derive(Clone, Copy, Debug, PartialEq, Eq, Structural)]
pub enum ScreenResolution {
    Static(MonitorSize),
    Dynamic,
}

/// Identity and configuration of one connection. It is made once, before
/// connecting, and only read afterwards.
#[derive(Debug, PartialEq, Eq)]
pub struct SessionParams {
    pub client_name: String,
    pub client_guid: String,
    pub server_password: String,
    pub monitor: ScreenResolution,
    /// The four octets of the server's IPv4 address, first octet first.
    pub ip: [u8; 4],
    pub port: u16,
    pub display_mode: DisplayMode,
    pub emulate_events: bool,
}

/// The parameters of a session as plain values.
pub struct SessionParamsView {
    pub client_name: Seq<char>,
    pub client_guid: Seq<char>,
    pub server_password: Seq<char>,
    pub monitor: ScreenResolution,
    pub ip: Seq<u8>,
    pub port: u16,
    pub display_mode: DisplayMode,
    pub emulate_events: bool,
}

impl View for SessionParams {
    type V = SessionParamsView;

    open spec fn view(&self) -> SessionParamsView {
        SessionParamsView {
            client_name: self.client_name@,
            client_guid: self.client_guid@,
            server_password: self.server_password@,
            monitor: self.monitor,
            ip: self.ip@,
            port: self.port,
            display_mode: self.display_mode,
            emulate_events: self.emulate_events,
        }
    }
}

impl DeepView for SessionParams {
    type V = SessionParamsView;

    open spec fn deep_view(&self) -> SessionParamsView {
        self.view()
    }
}

impl Clone for SessionParams {
    fn clone(&self) -> (copy: SessionParams)
        ensures
            copy@ == self@,
    {
        SessionParams {
            client_name: self.client_name.clone(),
            client_guid: self.client_guid.clone(),
            server_password: self.server_password.clone(),
            monitor: self.monitor,
            ip: self.ip,
            port: self.port,
            display_mode: self.display_mode,
            emulate_events: self.emulate_events,
        }
    }
}

/// The parameters of a session against a server on this machine: the
/// loopback address, a fixed monitor, state display, and no input injection.
pub fn get_session_info_localhost(
    name: String,
    guid: String,
    password: String,
    port: u16,
    width: u16,
    height: u16,
) -> (params: SessionParams)
    ensures
        params@ == (SessionParamsView {
            client_name: name@,
            client_guid: guid@,
            server_password: password@,
            monitor: ScreenResolution::Static(MonitorSize { width, height }),
            ip: seq![127u8, 0u8, 0u8, 1u8],
            port,
            display_mode: DisplayMode::CurrentState,
            emulate_events: false,
        }),
{
    let ip: [u8; 4] = [127, 0, 0, 1];
    assert(ip@ =~= seq![127u8, 0u8, 0u8, 1u8]);
    SessionParams {
        client_name: name,
        client_guid: guid,
        port,
        monitor: ScreenResolution::Static(MonitorSize { width, height }),
        server_password: password,
        ip,
        display_mode: DisplayMode::CurrentState,
        emulate_events: false,
    }
}


/// Whether an IPv4 address, given by its octets, is one of this machine.
pub open spec fn is_loopback(ip: Seq<u8>) -> bool {
    ip[0] == 127
}

/// The parameters of a session with a server of the configuration. The
/// client goes by the identifier of the server, where it has one, the
/// monitor is asked for its size, and input is injected unless the server is
/// on this machine and injection was not asked for.
pub open spec fn session_for(
    config: ConfigView,
    server: ServerConfigView,
    visualizer: bool,
    emulate: bool,
) -> SessionParamsView {
    SessionParamsView {
        client_name: config.client.name,
        client_guid: match server.guid {
            Some(guid) => guid,
            None => config.client.default_guid,
        },
        server_password: server.password,
        monitor: ScreenResolution::Dynamic,
        ip: server.ip,
        port: server.port,
        display_mode: if visualizer {
            DisplayMode::CurrentState
        } else {
            DisplayMode::Logging
        },
        emulate_events: !is_loopback(server.ip) || emulate,
    }
}

/// The parameters of a session with the server that was connected to last,
/// where the configuration still knows it.
pub fn get_session_info(provider: &ConfigProvider, visualizer: bool, emulate: bool) -> (params:
    Option<SessionParams>)
    ensures
        match params {
            Some(params) => provider@.last_connection() is Some && params@ == session_for(
                provider@,
                provider@.last_connection()->0,
                visualizer,
                emulate,
            ),
            None => provider@.last_connection() is None,
        },
{
    let server_specific = match provider.get_last_connection_info() {
        Some(server) => server,
        None => return None,
    };
    let client_name = provider.config().client.name.clone();
    let client_guid = match server_specific.guid {
        Some(guid) => guid,
        None => provider.config().client.default_guid.clone(),
    };
    let loopback = server_specific.ip[0] == 127;
    Some(
        SessionParams {
            client_name,
            client_guid,
            monitor: ScreenResolution::Dynamic,
            server_password: server_specific.password,
            ip: server_specific.ip,
            port: server_specific.port,
            emulate_events: !loopback || emulate,
            display_mode: DisplayMode::from_visualize(visualizer),
        },
    )
}

} // verus!
