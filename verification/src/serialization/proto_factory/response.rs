//! Builders of what the client answers.

use vstd::prelude::*;
use crate::configuration::{ScreenResolution, SessionParams};
use crate::proto_rs::proto_out;
use crate::proto_rs::proto_out::{ClientInfo, ClientInfo_OS, ClientInfo_UUID, Failure};
use crate::proto_rs::Clipboard;
use crate::serialization::proto_factory::format_of;

verus! {

/// What the caller found out about the machine the client runs on. The
/// pointer and the display are read only where the monitor is not fixed.
#[derive(Clone, Copy, Debug, PartialEq, Eq)]
pub struct HostInfo {
    /// Where the pointer is.
    pub cursor: (i32, i32),
    /// Width and height of the main display.
    pub display: (i32, i32),
    pub system: ClientInfo_OS,
}

pub fn create_position(x: i32, y: i32) -> (pos: proto_out::Position)
    ensures
        pos == (proto_out::Position { x, y }),
{
    let mut pos = proto_out::Position::new();
    pos.set_x(x);
    pos.set_y(y);
    pos
}

pub fn create_clipboard(content: String, filelist: bool) -> (data: Clipboard)
    ensures
        data == (Clipboard { format: format_of(filelist), message: content }),
{
    crate::serialization::proto_factory::create_clipboard(content, filelist)
}

pub fn create_failure(reason: String) -> (f: proto_out::Failure)
    ensures
        f == (Failure { Reason: reason }),
{
    let mut f = proto_out::Failure::new();
    f.set_Reason(reason);
    f
}

/// What a session tells the server about the client. A fixed monitor is
/// reported as it is configured, with the pointer at its centre; otherwise
/// the display and the pointer are reported as the caller found them.
pub open spec fn init_info_of(session: SessionParams, host: HostInfo) -> ClientInfo {
    ClientInfo {
        Width: match session.monitor {
            ScreenResolution::Static(size) => size.width as i32,
            ScreenResolution::Dynamic => host.display.0,
        },
        Height: match session.monitor {
            ScreenResolution::Static(size) => size.height as i32,
            ScreenResolution::Dynamic => host.display.1,
        },
        Cursor: match session.monitor {
            ScreenResolution::Static(size) => proto_out::Position {
                x: (size.width / 2) as i32,
                y: (size.height / 2) as i32,
            },
            ScreenResolution::Dynamic => proto_out::Position {
                x: host.cursor.0,
                y: host.cursor.1,
            },
        },
        Password: session.server_password,
        Guid: ClientInfo_UUID { value: session.client_guid },
        Name: session.client_name,
        System: host.system,
    }
}

pub fn create_init_info(session: SessionParams, host: HostInfo) -> (info: proto_out::ClientInfo)
    ensures
        info == init_info_of(session, host),
{
    let (cx, cy): (i32, i32) = match session.monitor {
        ScreenResolution::Static(fix_size) => (
            fix_size.width as i32 / 2,
            fix_size.height as i32 / 2,
        ),
        ScreenResolution::Dynamic => host.cursor,
    };
    let (w, h) = match session.monitor {
        ScreenResolution::Static(fix_size) => (fix_size.width as i32, fix_size.height as i32),
        ScreenResolution::Dynamic => host.display,
    };

    let mut guid = proto_out::ClientInfo_UUID::new();
    guid.set_value(session.client_guid);

    let mut info = proto_out::ClientInfo::new();
    info.set_Width(w);
    info.set_Height(h);
    info.set_Cursor(create_position(cx, cy));
    info.set_Password(session.server_password);
    info.set_Guid(guid);
    info.set_Name(session.client_name);
    info.set_System(host.system);
    info
}

/// The operating system to report, given what the build was made for.
pub fn get_os(windows: bool, macos: bool) -> (system: ClientInfo_OS)
    ensures
        system == (if windows {
            ClientInfo_OS::WINDOWS
        } else if macos {
            ClientInfo_OS::MAC
        } else {
            ClientInfo_OS::LINUX
        }),
{
    if windows {
        proto_out::ClientInfo_OS::WINDOWS
    } else if macos {
        proto_out::ClientInfo_OS::MAC
    } else {
        proto_out::ClientInfo_OS::LINUX
    }
}

} // verus!
