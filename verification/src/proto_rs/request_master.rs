use vstd::prelude::*;
use super::clipboard::{Clipboard, ClipboardView};

verus! {

/// Whether a key or button went down or came up.
#[derive(Clone, Copy, Debug, PartialEq, Eq, Structural, Hash)]
pub enum State {
    PRESSED,
    RELEASED,
}

/// The five mouse buttons the protocol knows.
#[derive(Clone, Copy, Debug, PartialEq, Eq, Structural, Hash)]
pub enum Button {
    LEFT,
    RIGHT,
    MIDDLE,
    XBUTTON1,
    XBUTTON2,
}

/// The direction of a wheel event.
#[allow(non_camel_case_types)]
#[derive(Clone, Copy, Debug, PartialEq, Eq, Structural, Hash)]
pub enum Direction {
    SCROLL_UP,
    SCROLL_DOWN,
    SCROLL_LEFT,
    SCROLL_RIGHT,
}

/// What the server may ask the client for.
#[allow(non_camel_case_types)]
#[derive(Clone, Copy, Debug, PartialEq, Eq, Structural, Hash)]
pub enum Request {
    INIT_INFO,
    CLIPBOARD,
    MOUSE_POSITION,
}

/// The server's verdict on the client's credentials.
#[derive(Clone, Copy, Debug, PartialEq, Eq, Structural, Hash)]
pub enum HandshakeResult {
    Success,
    Rejection,
}

#[allow(non_snake_case)]
#[derive(Clone, Copy, Debug, PartialEq, Eq, Structural)]
pub struct MouseMove {
    pub X: i32,
    pub Y: i32,
}

#[derive(Clone, Copy, Debug, PartialEq, Eq, Structural)]
pub struct Keyboard {
    pub key: u32,
    pub event_type: State,
}

#[derive(Clone, Copy, Debug, PartialEq, Eq, Structural)]
pub struct MouseClick {
    pub button: Button,
    pub event_type: State,
}

#[derive(Clone, Copy, Debug, PartialEq, Eq, Structural)]
pub struct MouseWheel {
    pub scroll_direction: Direction,
    pub amount: i32,
}

#[derive(Clone, Copy, Debug, PartialEq, Eq, Structural)]
pub struct SessionBegin {
    pub mouse_move_relative: bool,
}

#[derive(Clone, Copy, Debug, PartialEq, Eq, Structural)]
pub struct SessionEnd {}

#[derive(Clone, Copy, Debug, PartialEq, Eq, Structural)]
pub struct Heartbeat {
    pub one_way: bool,
}

/// The server's answer to the client's credentials.
#[derive(Debug, PartialEq, Eq)]
pub struct Echo {
    pub result: HandshakeResult,
    pub message: String,
}

/// The one thing a server message asks for.
#[allow(non_camel_case_types)]
#[derive(Debug, PartialEq, Eq)]
pub enum MasterMessage_oneof_action {
    mouse_position(MouseMove),
    keyboard(Keyboard),
    mouse_click(MouseClick),
    clipboard(Clipboard),
    mouse_wheel(MouseWheel),
    handshake(Echo),
    start_session(SessionBegin),
    end_session(SessionEnd),
    request(Request),
    heartbeat(Heartbeat),
}

/// A message from the server. A message without an action is a keepalive.
#[derive(Debug, PartialEq, Eq)]
pub struct MasterMessage {
    pub action: Option<MasterMessage_oneof_action>,
}

/// The server's verdict as a plain value.
pub struct EchoView {
    pub result: HandshakeResult,
    pub message: Seq<char>,
}

impl View for Echo {
    type V = EchoView;

    open spec fn view(&self) -> EchoView {
        EchoView { result: self.result, message: self.message@ }
    }
}

/// What a message of the server asks for, as a plain value.
pub enum MasterActionView {
    MousePosition(MouseMove),
    Keyboard(Keyboard),
    MouseClick(MouseClick),
    Clipboard(ClipboardView),
    MouseWheel(MouseWheel),
    Handshake(EchoView),
    StartSession(SessionBegin),
    EndSession,
    Request(Request),
    Heartbeat(Heartbeat),
}

impl View for MasterMessage_oneof_action {
    type V = MasterActionView;

    open spec fn view(&self) -> MasterActionView {
        match self {
            MasterMessage_oneof_action::mouse_position(m) => MasterActionView::MousePosition(*m),
            MasterMessage_oneof_action::keyboard(k) => MasterActionView::Keyboard(*k),
            MasterMessage_oneof_action::mouse_click(c) => MasterActionView::MouseClick(*c),
            MasterMessage_oneof_action::clipboard(c) => MasterActionView::Clipboard(c@),
            MasterMessage_oneof_action::mouse_wheel(w) => MasterActionView::MouseWheel(*w),
            MasterMessage_oneof_action::handshake(e) => MasterActionView::Handshake(e@),
            MasterMessage_oneof_action::start_session(s) => MasterActionView::StartSession(*s),
            MasterMessage_oneof_action::end_session(_) => MasterActionView::EndSession,
            MasterMessage_oneof_action::request(r) => MasterActionView::Request(*r),
            MasterMessage_oneof_action::heartbeat(h) => MasterActionView::Heartbeat(*h),
        }
    }
}

/// A message of the server as a plain value: its action, where it has one.
impl View for MasterMessage {
    type V = Option<MasterActionView>;

    open spec fn view(&self) -> Option<MasterActionView> {
        match self.action {
            Some(action) => Some(action@),
            None => None,
        }
    }
}

impl MouseMove {
    pub fn new() -> (m: MouseMove)
        ensures
            m == (MouseMove { X: 0, Y: 0 }),
    {
        MouseMove { X: 0, Y: 0 }
    }

    #[allow(non_snake_case)]
    pub fn set_X(&mut self, v: i32)
        ensures
            *final(self) == (MouseMove { X: v, ..*old(self) }),
    {
        self.X = v;
    }

    #[allow(non_snake_case)]
    pub fn set_Y(&mut self, v: i32)
        ensures
            *final(self) == (MouseMove { Y: v, ..*old(self) }),
    {
        self.Y = v;
    }
}

impl Keyboard {
    pub fn new() -> (k: Keyboard)
        ensures
            k == (Keyboard { key: 0, event_type: State::PRESSED }),
    {
        Keyboard { key: 0, event_type: State::PRESSED }
    }

    pub fn set_key(&mut self, v: u32)
        ensures
            *final(self) == (Keyboard { key: v, ..*old(self) }),
    {
        self.key = v;
    }

    pub fn set_event_type(&mut self, v: State)
        ensures
            *final(self) == (Keyboard { event_type: v, ..*old(self) }),
    {
        self.event_type = v;
    }
}

impl MouseClick {
    pub fn new() -> (m: MouseClick)
        ensures
            m == (MouseClick { button: Button::LEFT, event_type: State::PRESSED }),
    {
        MouseClick { button: Button::LEFT, event_type: State::PRESSED }
    }

    pub fn set_button(&mut self, v: Button)
        ensures
            *final(self) == (MouseClick { button: v, ..*old(self) }),
    {
        self.button = v;
    }

    pub fn set_event_type(&mut self, v: State)
        ensures
            *final(self) == (MouseClick { event_type: v, ..*old(self) }),
    {
        self.event_type = v;
    }
}

impl MouseWheel {
    pub fn new() -> (m: MouseWheel)
        ensures
            m == (MouseWheel { scroll_direction: Direction::SCROLL_UP, amount: 0 }),
    {
        MouseWheel { scroll_direction: Direction::SCROLL_UP, amount: 0 }
    }

    pub fn set_scroll_direction(&mut self, v: Direction)
        ensures
            *final(self) == (MouseWheel { scroll_direction: v, ..*old(self) }),
    {
        self.scroll_direction = v;
    }

    pub fn set_amount(&mut self, v: i32)
        ensures
            *final(self) == (MouseWheel { amount: v, ..*old(self) }),
    {
        self.amount = v;
    }
}

impl SessionBegin {
    pub fn new() -> (s: SessionBegin)
        ensures
            s == (SessionBegin { mouse_move_relative: false }),
    {
        SessionBegin { mouse_move_relative: false }
    }

    pub fn set_mouse_move_relative(&mut self, v: bool)
        ensures
            *final(self) == (SessionBegin { mouse_move_relative: v }),
    {
        self.mouse_move_relative = v;
    }
}

impl SessionEnd {
    pub fn new() -> (s: SessionEnd) {
        SessionEnd {  }
    }
}

impl Heartbeat {
    pub fn new() -> (h: Heartbeat)
        ensures
            h == (Heartbeat { one_way: false }),
    {
        Heartbeat { one_way: false }
    }

    pub fn set_one_way(&mut self, v: bool)
        ensures
            *final(self) == (Heartbeat { one_way: v }),
    {
        self.one_way = v;
    }
}

impl Echo {
    pub fn new() -> (e: Echo)
        ensures
            e.result == HandshakeResult::Success,
            e.message@ == Seq::<char>::empty(),
    {
        Echo { result: HandshakeResult::Success, message: String::new() }
    }

    pub fn set_result(&mut self, v: HandshakeResult)
        ensures
            *final(self) == (Echo { result: v, ..*old(self) }),
    {
        self.result = v;
    }

    pub fn set_message(&mut self, v: String)
        ensures
            *final(self) == (Echo { message: v, ..*old(self) }),
    {
        self.message = v;
    }
}

impl MasterMessage {
    /// A message without an action.
    pub fn new() -> (m: MasterMessage)
        ensures
            m.action is None,
    {
        MasterMessage { action: None }
    }

    pub fn set_mouse_position(&mut self, v: MouseMove)
        ensures
            final(self).action == Some(MasterMessage_oneof_action::mouse_position(v)),
    {
        self.action = Some(MasterMessage_oneof_action::mouse_position(v));
    }

    pub fn set_keyboard(&mut self, v: Keyboard)
        ensures
            final(self).action == Some(MasterMessage_oneof_action::keyboard(v)),
    {
        self.action = Some(MasterMessage_oneof_action::keyboard(v));
    }

    pub fn set_mouse_click(&mut self, v: MouseClick)
        ensures
            final(self).action == Some(MasterMessage_oneof_action::mouse_click(v)),
    {
        self.action = Some(MasterMessage_oneof_action::mouse_click(v));
    }

    pub fn set_clipboard(&mut self, v: Clipboard)
        ensures
            final(self).action == Some(MasterMessage_oneof_action::clipboard(v)),
    {
        self.action = Some(MasterMessage_oneof_action::clipboard(v));
    }

    pub fn set_mouse_wheel(&mut self, v: MouseWheel)
        ensures
            final(self).action == Some(MasterMessage_oneof_action::mouse_wheel(v)),
    {
        self.action = Some(MasterMessage_oneof_action::mouse_wheel(v));
    }

    pub fn set_handshake(&mut self, v: Echo)
        ensures
            final(self).action == Some(MasterMessage_oneof_action::handshake(v)),
    {
        self.action = Some(MasterMessage_oneof_action::handshake(v));
    }

    pub fn set_start_session(&mut self, v: SessionBegin)
        ensures
            final(self).action == Some(MasterMessage_oneof_action::start_session(v)),
    {
        self.action = Some(MasterMessage_oneof_action::start_session(v));
    }

    pub fn set_end_session(&mut self, v: SessionEnd)
        ensures
            final(self).action == Some(MasterMessage_oneof_action::end_session(v)),
    {
        self.action = Some(MasterMessage_oneof_action::end_session(v));
    }

    pub fn set_request(&mut self, v: Request)
        ensures
            final(self).action == Some(MasterMessage_oneof_action::request(v)),
    {
        self.action = Some(MasterMessage_oneof_action::request(v));
    }

    pub fn set_heartbeat(&mut self, v: Heartbeat)
        ensures
            final(self).action == Some(MasterMessage_oneof_action::heartbeat(v)),
    {
        self.action = Some(MasterMessage_oneof_action::heartbeat(v));
    }
}

} // verus!
