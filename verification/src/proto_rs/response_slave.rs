use vstd::prelude::*;
use super::clipboard::Clipboard;

verus! {

/// The operating system a client reports.
#[allow(non_camel_case_types)]
#[derive(Clone, Copy, Debug, PartialEq, Eq, Structural, Hash)]
pub enum ClientInfo_OS {
    WINDOWS,
    MAC,
    LINUX,
}

#[derive(Clone, Copy, Debug, PartialEq, Eq, Structural)]
pub struct Position {
    pub x: i32,
    pub y: i32,
}

#[allow(non_snake_case)]
#[derive(Debug, PartialEq, Eq)]
pub struct Failure {
    pub Reason: String,
}

#[allow(non_camel_case_types)]
#[derive(Debug, PartialEq, Eq)]
pub struct ClientInfo_UUID {
    pub value: String,
}

/// What a client tells the server about itself.
#[allow(non_snake_case)]
#[derive(Debug, PartialEq, Eq)]
pub struct ClientInfo {
    pub Width: i32,
    pub Height: i32,
    pub Cursor: Position,
    pub Password: String,
    pub Guid: ClientInfo_UUID,
    pub Name: String,
    pub System: ClientInfo_OS,
}

/// The one thing a client message carries.
#[allow(non_camel_case_types)]
#[derive(Debug, PartialEq, Eq)]
pub enum SlaveMessage_oneof_response {
    cursor(Position),
    init_info(ClientInfo),
    clipboard_session(Clipboard),
    no_response(Failure),
}

/// A message from the client.
#[derive(Debug, PartialEq, Eq)]
pub struct SlaveMessage {
    pub response: Option<SlaveMessage_oneof_response>,
}

impl Position {
    pub fn new() -> (p: Position)
        ensures
            p == (Position { x: 0, y: 0 }),
    {
        Position { x: 0, y: 0 }
    }

    pub fn set_x(&mut self, v: i32)
        ensures
            *final(self) == (Position { x: v, ..*old(self) }),
    {
        self.x = v;
    }

    pub fn set_y(&mut self, v: i32)
        ensures
            *final(self) == (Position { y: v, ..*old(self) }),
    {
        self.y = v;
    }
}

impl Failure {
    pub fn new() -> (f: Failure)
        ensures
            f.Reason@ == Seq::<char>::empty(),
    {
        Failure { Reason: String::new() }
    }

    #[allow(non_snake_case)]
    pub fn set_Reason(&mut self, v: String)
        ensures
            *final(self) == (Failure { Reason: v }),
    {
        self.Reason = v;
    }
}

impl ClientInfo_UUID {
    pub fn new() -> (u: ClientInfo_UUID)
        ensures
            u.value@ == Seq::<char>::empty(),
    {
        ClientInfo_UUID { value: String::new() }
    }

    pub fn set_value(&mut self, v: String)
        ensures
            *final(self) == (ClientInfo_UUID { value: v }),
    {
        self.value = v;
    }
}

impl ClientInfo {
    /// A description with nothing filled in.
    pub fn new() -> (info: ClientInfo)
        ensures
            info.Width == 0,
            info.Height == 0,
            info.Cursor == (Position { x: 0, y: 0 }),
            info.Password@ == Seq::<char>::empty(),
            info.Guid.value@ == Seq::<char>::empty(),
            info.Name@ == Seq::<char>::empty(),
            info.System == ClientInfo_OS::WINDOWS,
    {
        ClientInfo {
            Width: 0,
            Height: 0,
            Cursor: Position { x: 0, y: 0 },
            Password: String::new(),
            Guid: ClientInfo_UUID { value: String::new() },
            Name: String::new(),
            System: ClientInfo_OS::WINDOWS,
        }
    }

    #[allow(non_snake_case)]
    pub fn set_Width(&mut self, v: i32)
        ensures
            *final(self) == (ClientInfo { Width: v, ..*old(self) }),
    {
        self.Width = v;
    }

    #[allow(non_snake_case)]
    pub fn set_Height(&mut self, v: i32)
        ensures
            *final(self) == (ClientInfo { Height: v, ..*old(self) }),
    {
        self.Height = v;
    }

    #[allow(non_snake_case)]
    pub fn set_Cursor(&mut self, v: Position)
        ensures
            *final(self) == (ClientInfo { Cursor: v, ..*old(self) }),
    {
        self.Cursor = v;
    }

    #[allow(non_snake_case)]
    pub fn set_Password(&mut self, v: String)
        ensures
            *final(self) == (ClientInfo { Password: v, ..*old(self) }),
    {
        self.Password = v;
    }

    #[allow(non_snake_case)]
    pub fn set_Guid(&mut self, v: ClientInfo_UUID)
        ensures
            *final(self) == (ClientInfo { Guid: v, ..*old(self) }),
    {
        self.Guid = v;
    }

    #[allow(non_snake_case)]
    pub fn set_Name(&mut self, v: String)
        ensures
            *final(self) == (ClientInfo { Name: v, ..*old(self) }),
    {
        self.Name = v;
    }

    #[allow(non_snake_case)]
    pub fn set_System(&mut self, v: ClientInfo_OS)
        ensures
            *final(self) == (ClientInfo { System: v, ..*old(self) }),
    {
        self.System = v;
    }
}

impl SlaveMessage {
    /// A message that carries nothing yet.
    pub fn new() -> (m: SlaveMessage)
        ensures
            m.response is None,
    {
        SlaveMessage { response: None }
    }

    pub fn set_cursor(&mut self, v: Position)
        ensures
            final(self).response == Some(SlaveMessage_oneof_response::cursor(v)),
    {
        self.response = Some(SlaveMessage_oneof_response::cursor(v));
    }

    pub fn set_init_info(&mut self, v: ClientInfo)
        ensures
            final(self).response == Some(SlaveMessage_oneof_response::init_info(v)),
    {
        self.response = Some(SlaveMessage_oneof_response::init_info(v));
    }

    pub fn set_clipboard_session(&mut self, v: Clipboard)
        ensures
            final(self).response == Some(SlaveMessage_oneof_response::clipboard_session(v)),
    {
        self.response = Some(SlaveMessage_oneof_response::clipboard_session(v));
    }

    pub fn set_no_response(&mut self, v: Failure)
        ensures
            final(self).response == Some(SlaveMessage_oneof_response::no_response(v)),
    {
        self.response = Some(SlaveMessage_oneof_response::no_response(v));
    }
}

} // verus!
