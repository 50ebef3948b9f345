//! The session handler: what each message from the server does to the
//! session, and what has to happen outside because of it.

use vstd::prelude::*;
use super::emulator::EmulatorCall;
use super::{
    Button, Command, HandshakeResult, JerryMessage, JerryMessageView, JerryResponse,
    JerryResponseView, Request, State,
};
use crate::configuration::{SessionParams, SessionParamsView};
use crate::connection::{ConnectionState, ConnectionStateView};
use crate::state::CommandView;

verus! {

/// Number of key codes the handler tracks; larger codes are never accepted.
pub const KEY_SLOTS: usize = 256;

/// Number of mouse buttons the handler tracks.
pub const BUTTON_SLOTS: usize = 5;

/// A clipboard request is answered only once the session is this old.
pub const DEBOUNCE_NANOS: u128 = 500_000_000;

/// How long a `Pause` lasts, in milliseconds.
pub const RELEASE_PAUSE_MILLIS: u64 = 1;

/// Why a message had no effect on the devices.
#[derive(Debug, PartialEq, Eq)]
pub enum ProcessingError {
    /// The message does not fit the state of the session; it is dropped
    /// without further notice.
    UnexpectedMessageDiscarded,
    UnableToProcess,
    UnableToProcessPlatformSpecific(String),
    FailedToProcess,
}

/// A processing error as a plain value.
pub enum ProcessingErrorView {
    UnexpectedMessageDiscarded,
    UnableToProcess,
    UnableToProcessPlatformSpecific(Seq<char>),
    FailedToProcess,
}

impl View for ProcessingError {
    type V = ProcessingErrorView;

    open spec fn view(&self) -> ProcessingErrorView {
        match self {
            ProcessingError::UnexpectedMessageDiscarded => {
                ProcessingErrorView::UnexpectedMessageDiscarded
            },
            ProcessingError::UnableToProcess => ProcessingErrorView::UnableToProcess,
            ProcessingError::UnableToProcessPlatformSpecific(reason) => {
                ProcessingErrorView::UnableToProcessPlatformSpecific(reason@)
            },
            ProcessingError::FailedToProcess => ProcessingErrorView::FailedToProcess,
        }
    }
}

impl DeepView for ProcessingError {
    type V = ProcessingErrorView;

    open spec fn deep_view(&self) -> ProcessingErrorView {
        self.view()
    }
}

/// The outcome of an operation as a plain value.
pub open spec fn outcome(result: Result<(), ProcessingError>) -> Result<(), ProcessingErrorView> {
    match result {
        Ok(_) => Ok(()),
        Err(error) => Err(error@),
    }
}

impl Clone for ProcessingError {
    fn clone(&self) -> (copy: ProcessingError)
        ensures
            copy@ == self@,
    {
        match self {
            ProcessingError::UnexpectedMessageDiscarded => {
                ProcessingError::UnexpectedMessageDiscarded
            },
            ProcessingError::UnableToProcess => ProcessingError::UnableToProcess,
            ProcessingError::UnableToProcessPlatformSpecific(reason) => {
                ProcessingError::UnableToProcessPlatformSpecific(reason.clone())
            },
            ProcessingError::FailedToProcess => ProcessingError::FailedToProcess,
        }
    }
}


/// Whether the server currently drives this client.
#[derive(Clone, Copy, Debug, PartialEq, Eq, Structural)]
pub enum ClientState {
    Active,
    Inactive,
    /// No session has begun yet.
    Fresh,
}

/// Something the caller has to do for the handler, in the order given.
#[derive(Debug, PartialEq, Eq)]
pub enum Effect {
    /// Ask the input backend for a forced release. Its answer is reported
    /// and otherwise ignored.
    Emulate(EmulatorCall),
    /// Send on the command channel.
    Publish(Command),
    /// Put the text on the local clipboard.
    SetClipboard(String),
    /// Wait `RELEASE_PAUSE_MILLIS` before going on.
    Pause,
}

/// An effect as a plain value.
pub enum EffectView {
    Emulate(EmulatorCall),
    Publish(CommandView),
    SetClipboard(Seq<char>),
    Pause,
}

impl View for Effect {
    type V = EffectView;

    open spec fn view(&self) -> EffectView {
        match self {
            Effect::Emulate(call) => EffectView::Emulate(*call),
            Effect::Publish(command) => EffectView::Publish(command@),
            Effect::SetClipboard(text) => EffectView::SetClipboard(text@),
            Effect::Pause => EffectView::Pause,
        }
    }
}

impl DeepView for Effect {
    type V = EffectView;

    open spec fn deep_view(&self) -> EffectView {
        self.view()
    }
}

/// What the handler needs from outside before it can consume a message.
#[derive(Clone, Copy, Debug, PartialEq, Eq, Structural)]
pub enum Plan {
    /// Make this call on the input backend and report how it went.
    Emulate(EmulatorCall),
    /// Read the text on the local clipboard.
    ReadClipboard,
    /// Nothing is needed.
    Proceed,
}

/// What the caller found outside for one message.
#[derive(Debug, PartialEq, Eq)]
pub struct Observation {
    /// The reading of a monotonic clock, in nanoseconds.
    pub now: u128,
    /// How the planned call on the input backend went. It is read only where
    /// the plan was `Emulate`.
    pub emulation: Result<(), ProcessingError>,
    /// The text on the local clipboard, `None` where it could not be had. It
    /// is read only where the plan was `ReadClipboard`.
    pub clipboard: Option<String>,
}

/// An observation as a plain value.
pub struct ObservationView {
    pub now: u128,
    pub emulation: Result<(), ProcessingErrorView>,
    pub clipboard: Option<Seq<char>>,
}

impl View for Observation {
    type V = ObservationView;

    open spec fn view(&self) -> ObservationView {
        ObservationView {
            now: self.now,
            emulation: outcome(self.emulation),
            clipboard: self.clipboard.deep_view(),
        }
    }
}

/// What consuming one message leads to outside the handler.
#[derive(Debug, PartialEq, Eq)]
pub struct Reaction {
    /// The answer owed to the server, if any.
    pub response: Option<JerryResponse>,
    /// What the caller has to carry out, in order.
    pub effects: Vec<Effect>,
    /// Whether the message was applied.
    pub result: Result<(), ProcessingError>,
}

/// A reaction as a plain value.
pub struct ReactionView {
    pub response: Option<JerryResponseView>,
    pub effects: Seq<EffectView>,
    pub result: Result<(), ProcessingErrorView>,
}

impl View for Reaction {
    type V = ReactionView;

    open spec fn view(&self) -> ReactionView {
        ReactionView {
            response: self.response.deep_view(),
            effects: self.effects.deep_view(),
            result: outcome(self.result),
        }
    }
}

/// The slot of a button in the button table.
pub open spec fn button_index(button: Button) -> int {
    match button {
        Button::LEFT => 0,
        Button::RIGHT => 1,
        Button::MIDDLE => 2,
        Button::XBUTTON1 => 3,
        Button::XBUTTON2 => 4,
    }
}

/// The button that owns a slot of the button table.
pub open spec fn button_at(slot: int) -> Button {
    if slot == 0 {
        Button::LEFT
    } else if slot == 1 {
        Button::RIGHT
    } else if slot == 2 {
        Button::MIDDLE
    } else if slot == 3 {
        Button::XBUTTON1
    } else {
        Button::XBUTTON2
    }
}

/// The forced release of one key: the call, the notice, the pause.
pub open spec fn key_release(code: int) -> Seq<EffectView> {
    seq![
        EffectView::Emulate(EmulatorCall::KeyUp(code as u32)),
        EffectView::Publish(
            CommandView::MessageCorrective(JerryMessageView::Key(code as u32, State::RELEASED)),
        ),
        EffectView::Pause,
    ]
}

/// The forced release of one button: the call, the notice, the pause.
pub open spec fn button_release(slot: int) -> Seq<EffectView> {
    seq![
        EffectView::Emulate(EmulatorCall::MouseUp(button_at(slot))),
        EffectView::Publish(
            CommandView::MessageCorrective(
                JerryMessageView::MouseClick(button_at(slot), State::RELEASED),
            ),
        ),
        EffectView::Pause,
    ]
}

/// The forced releases of the marked keys among the first `count` codes,
/// lowest code first.
pub open spec fn key_releases(pressed: Seq<bool>, count: nat) -> Seq<EffectView>
    decreases count,
{
    if count == 0 {
        Seq::empty()
    } else if pressed[count - 1] {
        key_releases(pressed, (count - 1) as nat) + key_release(count - 1)
    } else {
        key_releases(pressed, (count - 1) as nat)
    }
}

/// The forced releases of the marked buttons among the first `count` slots,
/// lowest slot first.
pub open spec fn button_releases(buttons: Seq<bool>, count: nat) -> Seq<EffectView>
    decreases count,
{
    if count == 0 {
        Seq::empty()
    } else if buttons[count - 1] {
        button_releases(buttons, (count - 1) as nat) + button_release(count - 1)
    } else {
        button_releases(buttons, (count - 1) as nat)
    }
}

/// Recovery: every key marked pressed is released, then every button marked
/// down, each in ascending order.
pub open spec fn release_script(pressed: Seq<bool>, buttons: Seq<bool>) -> Seq<EffectView> {
    key_releases(pressed, KEY_SLOTS as nat) + button_releases(buttons, BUTTON_SLOTS as nat)
}

/// A table of `count` flags, none of them set.
pub open spec fn no_flags(count: nat) -> Seq<bool> {
    Seq::new(count, |i: int| false)
}

/// A table with its first `count` flags taken down.
pub open spec fn lowered(flags: Seq<bool>, count: int) -> Seq<bool> {
    Seq::new(flags.len(), |i: int| i >= count && flags[i])
}

/// The state of a session handler.
pub struct HandlerModel {
    pub session_info: SessionParamsView,
    /// The pointer position found when the handler was made.
    pub cursor: (i32, i32),
    /// For each key code, whether the backend holds the key down.
    pub pressed: Seq<bool>,
    /// For each button slot, whether the backend holds the button down.
    pub buttons: Seq<bool>,
    pub state: ClientState,
    pub relative_move: bool,
    /// The local clipboard as it was when the session began.
    pub clipboard_client: Option<Seq<char>>,
    /// The clipboard text the server pushed last.
    pub clipboard_jerry: Option<Seq<char>>,
    pub finished: bool,
    /// The clock reading at which the session began.
    pub session: u128,
}

impl HandlerModel {
    /// The state of a handler that has seen no message.
    pub open spec fn initial(session_info: SessionParamsView, cursor: (i32, i32), now: u128) -> Self {
        HandlerModel {
            session_info,
            cursor,
            pressed: no_flags(KEY_SLOTS as nat),
            buttons: no_flags(BUTTON_SLOTS as nat),
            state: ClientState::Fresh,
            relative_move: false,
            clipboard_client: None,
            clipboard_jerry: None,
            finished: false,
            session: now,
        }
    }

    /// The tables have their sizes, and outside an active session nothing is
    /// held down.
    pub open spec fn wf(self) -> bool {
        &&& self.pressed.len() == KEY_SLOTS
        &&& self.buttons.len() == BUTTON_SLOTS
        &&& self.state != ClientState::Active ==> self.pressed == no_flags(KEY_SLOTS as nat)
            && self.buttons == no_flags(BUTTON_SLOTS as nat)
    }

    /// How long the session has lasted at `now`, in nanoseconds.
    pub open spec fn age(self, now: u128) -> int {
        if now >= self.session {
            now - self.session
        } else {
            0
        }
    }

    /// Whether the message is input for the devices.
    pub open spec fn is_input(msg: JerryMessageView) -> bool {
        msg is MouseMove || msg is Key || msg is MouseClick || msg is MouseWheel
    }

    /// The call on the input backend that a message asks for. Input is
    /// accepted only in an active session; a key code must be tracked; a
    /// release must match a key or button that is held down.
    pub open spec fn planned_call(self, msg: JerryMessageView) -> Option<EmulatorCall> {
        if self.state != ClientState::Active {
            None
        } else {
            match msg {
                JerryMessageView::MouseMove(x, y) => Some(
                    if self.relative_move {
                        EmulatorCall::MouseMoveRel(x, y)
                    } else {
                        EmulatorCall::MouseMoveTo(x, y)
                    },
                ),
                JerryMessageView::Key(key, State::PRESSED) => if key < KEY_SLOTS {
                    Some(EmulatorCall::KeyDown(key))
                } else {
                    None
                },
                JerryMessageView::Key(key, State::RELEASED) => if key < KEY_SLOTS
                    && self.pressed[key as int] {
                    Some(EmulatorCall::KeyUp(key))
                } else {
                    None
                },
                JerryMessageView::MouseClick(button, State::PRESSED) => Some(
                    EmulatorCall::MouseDown(button),
                ),
                JerryMessageView::MouseClick(button, State::RELEASED) => if self.buttons[button_index(
                    button,
                )] {
                    Some(EmulatorCall::MouseUp(button))
                } else {
                    None
                },
                JerryMessageView::MouseWheel(direction, amount) => Some(
                    EmulatorCall::MouseWheel(direction, amount),
                ),
                _ => None,
            }
        }
    }

    /// Whether consuming the message needs the text on the local clipboard:
    /// a session that begins keeps it, and a clipboard request that is not
    /// too early is answered with it.
    pub open spec fn wants_clipboard(self, msg: JerryMessageView, now: u128) -> bool {
        match msg {
            JerryMessageView::SessionBegin { .. } => self.state != ClientState::Active,
            JerryMessageView::Request(Request::CLIPBOARD) => self.age(now) >= DEBOUNCE_NANOS,
            _ => false,
        }
    }

    /// What has to be found outside before the message is consumed.
    pub open spec fn plan(self, msg: JerryMessageView, now: u128) -> Plan {
        match self.planned_call(msg) {
            Some(call) => Plan::Emulate(call),
            None => if self.wants_clipboard(msg, now) {
                Plan::ReadClipboard
            } else {
                Plan::Proceed
            },
        }
    }

    /// Whether input is applied: a call must have been planned, and the
    /// backend must have made it.
    pub open spec fn input_result(
        self,
        msg: JerryMessageView,
        emulation: Result<(), ProcessingErrorView>,
    ) -> Result<(), ProcessingErrorView> {
        if self.planned_call(msg) is Some {
            emulation
        } else {
            Err(ProcessingErrorView::UnexpectedMessageDiscarded)
        }
    }

    /// Whether the message is applied. A session begins only where none is
    /// active and ends only where one is. A list of files on the clipboard
    /// is not taken. Requests, handshake echoes and heartbeats always are.
    pub open spec fn result_of(self, msg: JerryMessageView, seen: ObservationView) -> Result<
        (),
        ProcessingErrorView,
    > {
        if Self::is_input(msg) {
            self.input_result(msg, seen.emulation)
        } else {
            match msg {
                JerryMessageView::SessionBegin { .. } => if self.state == ClientState::Active {
                    Err(ProcessingErrorView::UnexpectedMessageDiscarded)
                } else {
                    Ok(())
                },
                JerryMessageView::SessionEnd => if self.state == ClientState::Active {
                    Ok(())
                } else {
                    Err(ProcessingErrorView::UnexpectedMessageDiscarded)
                },
                JerryMessageView::Clipboard(_, files) => if files {
                    Err(ProcessingErrorView::UnexpectedMessageDiscarded)
                } else {
                    Ok(())
                },
                _ => Ok(()),
            }
        }
    }

    /// The answer to a request. A clipboard request that comes too early,
    /// or finds no text, gets the empty "no response".
    pub open spec fn answer(
        self,
        request: Request,
        now: u128,
        clipboard: Option<Seq<char>>,
    ) -> JerryResponseView {
        match request {
            Request::INIT_INFO => JerryResponseView::InitInfo(self.session_info),
            Request::CLIPBOARD => if self.age(now) < DEBOUNCE_NANOS {
                JerryResponseView::NoResponse(Seq::empty())
            } else {
                match clipboard {
                    Some(text) => JerryResponseView::Clipboard(text, false),
                    None => JerryResponseView::NoResponse(Seq::empty()),
                }
            },
            Request::MOUSE_POSITION => JerryResponseView::Cursor(self.cursor.0, self.cursor.1),
        }
    }

    /// The answer owed to the server: only requests are answered.
    pub open spec fn response_to(self, msg: JerryMessageView, seen: ObservationView) -> Option<
        JerryResponseView,
    > {
        match msg {
            JerryMessageView::Request(request) => Some(
                self.answer(request, seen.now, seen.clipboard),
            ),
            _ => None,
        }
    }

    /// What the end of a session has the caller do: the recovery, then the
    /// local clipboard is put back as it was when the session began.
    pub open spec fn end_effects(self) -> Seq<EffectView> {
        release_script(self.pressed, self.buttons) + (match self.clipboard_client {
            Some(text) => seq![EffectView::SetClipboard(text)],
            None => Seq::empty(),
        })
    }

    /// What a handshake echo has the caller publish: a rejection is
    /// followed by the halt command.
    pub open spec fn handshake_effects(result: HandshakeResult, reason: Seq<char>) -> Seq<
        EffectView,
    > {
        if result == HandshakeResult::Rejection {
            seq![
                EffectView::Publish(
                    CommandView::ConnectionResult(ConnectionStateView::HandshakeFailed(reason)),
                ),
                EffectView::Publish(CommandView::Halt),
            ]
        } else {
            seq![
                EffectView::Publish(
                    CommandView::ConnectionResult(ConnectionStateView::HandshakeSuccess(reason)),
                ),
            ]
        }
    }

    /// What the message has the caller do before it is republished.
    pub open spec fn side_effects(self, msg: JerryMessageView) -> Seq<EffectView> {
        match msg {
            JerryMessageView::SessionEnd => if self.state == ClientState::Active {
                self.end_effects()
            } else {
                Seq::empty()
            },
            JerryMessageView::Handshake(result, reason) => Self::handshake_effects(result, reason),
            JerryMessageView::Clipboard(content, files) => if files {
                Seq::empty()
            } else {
                seq![EffectView::SetClipboard(content)]
            },
            _ => Seq::empty(),
        }
    }

    /// Everything the caller has to carry out for the message. The message
    /// itself is republished last, whatever became of it.
    pub open spec fn effects_of(self, msg: JerryMessageView) -> Seq<EffectView> {
        self.side_effects(msg).push(EffectView::Publish(CommandView::Message(msg)))
    }

    /// What consuming the message leads to outside the handler.
    pub open spec fn reaction_to(self, msg: JerryMessageView, seen: ObservationView) -> ReactionView {
        ReactionView {
            response: self.response_to(msg, seen),
            effects: self.effects_of(msg),
            result: self.result_of(msg, seen),
        }
    }

    /// The state with nothing held down.
    pub open spec fn released(self) -> HandlerModel {
        HandlerModel {
            pressed: no_flags(KEY_SLOTS as nat),
            buttons: no_flags(BUTTON_SLOTS as nat),
            ..self
        }
    }

    /// The state after a key message: the key is marked once the backend has
    /// pressed it, and unmarked once the backend has released it.
    pub open spec fn after_key(
        self,
        key: u32,
        motion: State,
        emulation: Result<(), ProcessingErrorView>,
    ) -> HandlerModel {
        if self.planned_call(JerryMessageView::Key(key, motion)) is Some && emulation is Ok {
            HandlerModel {
                pressed: self.pressed.update(key as int, motion == State::PRESSED),
                ..self
            }
        } else {
            self
        }
    }

    /// The state after a button message: the button is marked once the
    /// backend has pressed it, and unmarked once the backend has released it.
    pub open spec fn after_click(
        self,
        button: Button,
        motion: State,
        emulation: Result<(), ProcessingErrorView>,
    ) -> HandlerModel {
        if self.planned_call(JerryMessageView::MouseClick(button, motion)) is Some
            && emulation is Ok {
            HandlerModel {
                buttons: self.buttons.update(button_index(button), motion == State::PRESSED),
                ..self
            }
        } else {
            self
        }
    }

    /// The state after a session was asked to begin: unless one is active,
    /// both tables are cleared, the local clipboard and the clock reading
    /// are kept, and the session is active.
    pub open spec fn after_begin(
        self,
        relative_move: bool,
        now: u128,
        clipboard: Option<Seq<char>>,
    ) -> HandlerModel {
        if self.state == ClientState::Active {
            self
        } else {
            HandlerModel {
                session: now,
                relative_move,
                clipboard_client: clipboard,
                state: ClientState::Active,
                ..self.released()
            }
        }
    }

    /// The state after a session was asked to end: an active one becomes
    /// inactive, with nothing held down and the pushed clipboard forgotten.
    pub open spec fn after_end(self) -> HandlerModel {
        if self.state == ClientState::Active {
            HandlerModel {
                state: ClientState::Inactive,
                clipboard_jerry: None,
                ..self.released()
            }
        } else {
            self
        }
    }

    /// The state after a message.
    pub open spec fn after(self, msg: JerryMessageView, seen: ObservationView) -> HandlerModel {
        match msg {
            JerryMessageView::Key(key, motion) => self.after_key(key, motion, seen.emulation),
            JerryMessageView::MouseClick(button, motion) => self.after_click(
                button,
                motion,
                seen.emulation,
            ),
            JerryMessageView::SessionBegin { relative_move } => self.after_begin(
                relative_move,
                seen.now,
                seen.clipboard,
            ),
            JerryMessageView::SessionEnd => self.after_end(),
            JerryMessageView::Clipboard(content, files) => if files {
                self
            } else {
                HandlerModel { clipboard_jerry: Some(content), ..self }
            },
            _ => self,
        }
    }

    /// The state after the command channel was found closed: everything is
    /// released and the handler is done.
    pub open spec fn after_channel_loss(self) -> HandlerModel {
        HandlerModel { finished: true, ..self.released() }
    }
}

/// Appends one effect.
fn emit(effects: &mut Vec<Effect>, effect: Effect)
    ensures
        final(effects).deep_view() == old(effects).deep_view().push(effect@),
{
    effects.push(effect);
    assert(effects.deep_view() =~= old(effects).deep_view().push(effect@));
}

/// The slot of a button in the button table.
pub fn button_slot(button: Button) -> (slot: usize)
    ensures
        slot == button_index(button),
        slot < BUTTON_SLOTS,
{
    match button {
        Button::LEFT => 0,
        Button::RIGHT => 1,
        Button::MIDDLE => 2,
        Button::XBUTTON1 => 3,
        Button::XBUTTON2 => 4,
    }
}

/// The session handler. It keeps track of what the input backend holds
/// down, decides what each message from the server leads to, and never
/// touches a device, the clipboard or the command channel itself: the caller
/// asks `plan` what is needed, finds it, hands it to `consume`, and carries
/// out the effects that come back, all of them and in order. If one of the
/// `Publish` effects cannot be delivered, the caller then calls
/// `channel_lost` and carries out what that returns.
pub struct ContextAwareMessageHandler {
    session_info: SessionParams,
    cursor: (i32, i32),
    pressed: [bool; 256],
    buttons: [bool; 5],
    state: ClientState,
    relative_move: bool,
    clipboard_client: Option<String>,
    clipboard_jerry: Option<String>,
    finished: bool,
    session: u128,
}

impl View for ContextAwareMessageHandler {
    type V = HandlerModel;

    closed spec fn view(&self) -> HandlerModel {
        HandlerModel {
            session_info: self.session_info@,
            cursor: self.cursor,
            pressed: self.pressed@,
            buttons: self.buttons@,
            state: self.state,
            relative_move: self.relative_move,
            clipboard_client: self.clipboard_client.deep_view(),
            clipboard_jerry: self.clipboard_jerry.deep_view(),
            finished: self.finished,
            session: self.session,
        }
    }
}

impl ContextAwareMessageHandler {
    /// A handler for one connection. `cursor` is where the pointer is now,
    /// `now` the reading of the clock that later observations come from.
    pub fn new(session_info: SessionParams, cursor: (i32, i32), now: u128) -> (handler: Self)
        ensures
            handler@ == HandlerModel::initial(session_info@, cursor, now),
            handler@.wf(),
    {
        let handler = ContextAwareMessageHandler {
            session_info,
            cursor,
            pressed: [false;256],
            buttons: [false;5],
            state: ClientState::Fresh,
            clipboard_client: None,
            clipboard_jerry: None,
            relative_move: false,
            finished: false,
            session: now,
        };
        assert(handler.pressed@ =~= no_flags(KEY_SLOTS as nat));
        assert(handler.buttons@ =~= no_flags(BUTTON_SLOTS as nat));
        handler
    }

    /// Whether the handler has given up because the command channel is
    /// closed.
    pub fn finished(&self) -> (done: bool)
        ensures
            done == self@.finished,
    {
        self.finished
    }

    /// Where the session stands.
    pub fn state(&self) -> (state: ClientState)
        ensures
            state == self@.state,
    {
        self.state
    }

    /// Whether the key is marked as held down.
    pub fn is_pressed(&self, key: u32) -> (held: bool)
        ensures
            held == (key < KEY_SLOTS && self@.pressed[key as int]),
    {
        (key as usize) < KEY_SLOTS && self.pressed[key as usize]
    }

    /// Whether the button is marked as held down.
    pub fn is_button_down(&self, button: Button) -> (held: bool)
        ensures
            held == self@.buttons[button_index(button)],
    {
        self.buttons[button_slot(button)]
    }

    /// The button that owns a slot of the button table.
    pub fn get_mouse_button(value: usize) -> (button: Button)
        requires
            value < BUTTON_SLOTS,
        ensures
            button == button_at(value as int),
            button_index(button) == value,
    {
        if value == 0 {
            Button::LEFT
        } else if value == 1 {
            Button::RIGHT
        } else if value == 2 {
            Button::MIDDLE
        } else if value == 3 {
            Button::XBUTTON1
        } else {
            Button::XBUTTON2
        }
    }

    fn session_age_reached(&self, now: u128) -> (reached: bool)
        ensures
            reached == (self@.age(now) >= DEBOUNCE_NANOS),
    {
        now >= self.session && now - self.session >= DEBOUNCE_NANOS
    }

    fn planned_call(&self, msg: &JerryMessage) -> (call: Option<EmulatorCall>)
        ensures
            call == self@.planned_call(msg@),
    {
        match self.state {
            ClientState::Active => match msg {
                JerryMessage::MouseMove(x, y) => {
                    if self.relative_move {
                        Some(EmulatorCall::MouseMoveRel(*x, *y))
                    } else {
                        Some(EmulatorCall::MouseMoveTo(*x, *y))
                    }
                },
                JerryMessage::Key(key, State::PRESSED) => {
                    if (*key as usize) < KEY_SLOTS {
                        Some(EmulatorCall::KeyDown(*key))
                    } else {
                        None
                    }
                },
                JerryMessage::Key(key, State::RELEASED) => {
                    if (*key as usize) < KEY_SLOTS && self.pressed[*key as usize] {
                        Some(EmulatorCall::KeyUp(*key))
                    } else {
                        None
                    }
                },
                JerryMessage::MouseClick(button, State::PRESSED) => Some(
                    EmulatorCall::MouseDown(*button),
                ),
                JerryMessage::MouseClick(button, State::RELEASED) => {
                    if self.buttons[button_slot(*button)] {
                        Some(EmulatorCall::MouseUp(*button))
                    } else {
                        None
                    }
                },
                JerryMessage::MouseWheel(direction, amount) => Some(
                    EmulatorCall::MouseWheel(*direction, *amount),
                ),
                _ => None,
            },
            _ => None,
        }
    }

    /// What the caller has to find outside before `consume` is called with
    /// this message.
    pub fn plan(&self, msg: &JerryMessage, now: u128) -> (plan: Plan)
        ensures
            plan == self@.plan(msg@, now),
    {
        match self.planned_call(msg) {
            Some(call) => Plan::Emulate(call),
            None => {
                let wanted = match msg {
                    JerryMessage::SessionBegin { .. } => match self.state {
                        ClientState::Active => false,
                        _ => true,
                    },
                    JerryMessage::Request(Request::CLIPBOARD) => self.session_age_reached(now),
                    _ => false,
                };
                if wanted {
                    Plan::ReadClipboard
                } else {
                    Plan::Proceed
                }
            },
        }
    }

    fn clear_state(&mut self, relative: bool, clipboard: Option<String>)
        ensures
            final(self)@ == (HandlerModel {
                relative_move: relative,
                clipboard_client: clipboard.deep_view(),
                ..old(self)@.released()
            }),
    {
        self.relative_move = relative;
        self.clipboard_client = clipboard;
        self.pressed = [false;256];
        self.buttons = [false;5];
        assert(self.pressed@ =~= no_flags(KEY_SLOTS as nat));
        assert(self.buttons@ =~= no_flags(BUTTON_SLOTS as nat));
    }

    fn inject_release(&mut self, code: usize, effects: &mut Vec<Effect>)
        requires
            code < KEY_SLOTS,
        ensures
            final(self)@ == (HandlerModel {
                pressed: old(self)@.pressed.update(code as int, false),
                ..old(self)@
            }),
            final(effects).deep_view() == old(effects).deep_view() + key_release(code as int),
    {
        let key = code as u32;
        emit(effects, Effect::Emulate(EmulatorCall::KeyUp(key)));
        emit(
            effects,
            Effect::Publish(Command::MessageCorrective(JerryMessage::Key(key, State::RELEASED))),
        );
        emit(effects, Effect::Pause);
        self.pressed[code] = false;
        assert(effects.deep_view() =~= old(effects).deep_view() + key_release(code as int));
    }

    fn inject_release_button(&mut self, slot: usize, effects: &mut Vec<Effect>)
        requires
            slot < BUTTON_SLOTS,
        ensures
            final(self)@ == (HandlerModel {
                buttons: old(self)@.buttons.update(slot as int, false),
                ..old(self)@
            }),
            final(effects).deep_view() == old(effects).deep_view() + button_release(slot as int),
    {
        let button = Self::get_mouse_button(slot);
        emit(effects, Effect::Emulate(EmulatorCall::MouseUp(button)));
        emit(
            effects,
            Effect::Publish(
                Command::MessageCorrective(JerryMessage::MouseClick(button, State::RELEASED)),
            ),
        );
        emit(effects, Effect::Pause);
        self.buttons[slot] = false;
        assert(effects.deep_view() =~= old(effects).deep_view() + button_release(slot as int));
    }

    fn recover(&mut self, effects: &mut Vec<Effect>)
        ensures
            final(self)@ == old(self)@.released(),
            final(effects).deep_view() == old(effects).deep_view() + release_script(
                old(self)@.pressed,
                old(self)@.buttons,
            ),
    {
        let mut code: usize = 0;
        assert(self.pressed@ =~= lowered(old(self)@.pressed, 0));
        while code < KEY_SLOTS
            invariant
                code <= KEY_SLOTS,
                self@ == (HandlerModel {
                    pressed: lowered(old(self)@.pressed, code as int),
                    ..old(self)@
                }),
                effects.deep_view() == old(effects).deep_view() + key_releases(
                    old(self)@.pressed,
                    code as nat,
                ),
            decreases KEY_SLOTS - code,
        {
            if self.pressed[code] {
                self.inject_release(code, effects);
                assert(effects.deep_view() =~= old(effects).deep_view() + key_releases(
                    old(self)@.pressed,
                    (code + 1) as nat,
                ));
            }
            assert(self.pressed@ =~= lowered(old(self)@.pressed, code + 1));
            code += 1;
        }
        assert(self.pressed@ =~= no_flags(KEY_SLOTS as nat));
        let ghost keys_done = effects.deep_view();
        let mut slot: usize = 0;
        assert(self.buttons@ =~= lowered(old(self)@.buttons, 0));
        while slot < BUTTON_SLOTS
            invariant
                slot <= BUTTON_SLOTS,
                self@ == (HandlerModel {
                    pressed: no_flags(KEY_SLOTS as nat),
                    buttons: lowered(old(self)@.buttons, slot as int),
                    ..old(self)@
                }),
                effects.deep_view() == keys_done + button_releases(
                    old(self)@.buttons,
                    slot as nat,
                ),
            decreases BUTTON_SLOTS - slot,
        {
            if self.buttons[slot] {
                self.inject_release_button(slot, effects);
                assert(effects.deep_view() =~= keys_done + button_releases(
                    old(self)@.buttons,
                    (slot + 1) as nat,
                ));
            }
            assert(self.buttons@ =~= lowered(old(self)@.buttons, slot + 1));
            slot += 1;
        }
        assert(self.buttons@ =~= no_flags(BUTTON_SLOTS as nat));
        assert(effects.deep_view() =~= old(effects).deep_view() + release_script(
            old(self)@.pressed,
            old(self)@.buttons,
        ));
    }

    fn key_down(&mut self, key: u32, emulation: Result<(), ProcessingError>) -> (result: Result<
        (),
        ProcessingError,
    >)
        ensures
            final(self)@ == old(self)@.after_key(key, State::PRESSED, outcome(emulation)),
            outcome(result) == old(self)@.input_result(
                JerryMessageView::Key(key, State::PRESSED),
                outcome(emulation),
            ),
    {
        match self.state {
            ClientState::Active => {
                let key_u = key as usize;
                if key_u < KEY_SLOTS {
                    if emulation.is_ok() {
                        self.pressed[key_u] = true;
                    }
                    return emulation;
                }
                Err(ProcessingError::UnexpectedMessageDiscarded)
            },
            _ => Err(ProcessingError::UnexpectedMessageDiscarded),
        }
    }

    fn key_up(&mut self, key: u32, emulation: Result<(), ProcessingError>) -> (result: Result<
        (),
        ProcessingError,
    >)
        ensures
            final(self)@ == old(self)@.after_key(key, State::RELEASED, outcome(emulation)),
            outcome(result) == old(self)@.input_result(
                JerryMessageView::Key(key, State::RELEASED),
                outcome(emulation),
            ),
    {
        let key_u = key as usize;
        match self.state {
            ClientState::Active => {
                if key_u < KEY_SLOTS && self.pressed[key_u] {
                    if emulation.is_ok() {
                        self.pressed[key_u] = false;
                    }
                    return emulation;
                }
                Err(ProcessingError::UnexpectedMessageDiscarded)
            },
            _ => Err(ProcessingError::UnexpectedMessageDiscarded),
        }
    }

    fn mouse_down(&mut self, btn: Button, emulation: Result<(), ProcessingError>) -> (result:
        Result<(), ProcessingError>)
        ensures
            final(self)@ == old(self)@.after_click(btn, State::PRESSED, outcome(emulation)),
            outcome(result) == old(self)@.input_result(
                JerryMessageView::MouseClick(btn, State::PRESSED),
                outcome(emulation),
            ),
    {
        match self.state {
            ClientState::Active => {
                if emulation.is_ok() {
                    self.buttons[button_slot(btn)] = true;
                }
                emulation
            },
            _ => Err(ProcessingError::UnexpectedMessageDiscarded),
        }
    }

    fn mouse_up(&mut self, btn: Button, emulation: Result<(), ProcessingError>) -> (result: Result<
        (),
        ProcessingError,
    >)
        ensures
            final(self)@ == old(self)@.after_click(btn, State::RELEASED, outcome(emulation)),
            outcome(result) == old(self)@.input_result(
                JerryMessageView::MouseClick(btn, State::RELEASED),
                outcome(emulation),
            ),
    {
        let button = button_slot(btn);
        match self.state {
            ClientState::Active => {
                if self.buttons[button] {
                    if emulation.is_ok() {
                        self.buttons[button] = false;
                    }
                    return emulation;
                }
                Err(ProcessingError::UnexpectedMessageDiscarded)
            },
            _ => Err(ProcessingError::UnexpectedMessageDiscarded),
        }
    }

    fn mouse_move(&self, x: i32, y: i32, emulation: Result<(), ProcessingError>) -> (result:
        Result<(), ProcessingError>)
        ensures
            outcome(result) == self@.input_result(
                JerryMessageView::MouseMove(x, y),
                outcome(emulation),
            ),
    {
        match self.state {
            ClientState::Active => emulation,
            _ => Err(ProcessingError::UnexpectedMessageDiscarded),
        }
    }

    fn mouse_wheel(
        &self,
        direction: super::Direction,
        amount: i32,
        emulation: Result<(), ProcessingError>,
    ) -> (result: Result<(), ProcessingError>)
        ensures
            outcome(result) == self@.input_result(
                JerryMessageView::MouseWheel(direction, amount),
                outcome(emulation),
            ),
    {
        match self.state {
            ClientState::Active => emulation,
            _ => Err(ProcessingError::UnexpectedMessageDiscarded),
        }
    }

    fn get_response(&self, request: Request, now: u128, clipboard: Option<String>) -> (response:
        JerryResponse)
        ensures
            response@ == self@.answer(request, now, clipboard.deep_view()),
    {
        match request {
            Request::INIT_INFO => JerryResponse::InitInfo(self.session_info.clone()),
            Request::CLIPBOARD => {
                if !self.session_age_reached(now) {
                    return JerryResponse::NoResponse(String::new());
                }
                match clipboard {
                    Some(new_content) => JerryResponse::Clipboard(new_content, false),
                    None => JerryResponse::NoResponse(String::new()),
                }
            },
            Request::MOUSE_POSITION => JerryResponse::Cursor(self.cursor.0, self.cursor.1),
        }
    }

    /// Consumes one message from the server. `seen` holds what the caller
    /// found for the plan that `plan` gave for this message and this clock
    /// reading.
    pub fn consume(&mut self, msg: JerryMessage, seen: Observation) -> (reaction: Reaction)
        ensures
            final(self)@ == old(self)@.after(msg@, seen@),
            reaction@ == old(self)@.reaction_to(msg@, seen@),
            old(self)@.wf() ==> final(self)@.wf(),
    {
        let Observation { now, emulation, clipboard } = seen;
        let mut effects: Vec<Effect> = Vec::new();
        let mut response: Option<JerryResponse> = None;
        assert(effects.deep_view() =~= Seq::<EffectView>::empty());
        let result: Result<(), ProcessingError> = match &msg {
            JerryMessage::MouseMove(x, y) => self.mouse_move(*x, *y, emulation),
            JerryMessage::Key(key, State::PRESSED) => self.key_down(*key, emulation),
            JerryMessage::Key(key, State::RELEASED) => self.key_up(*key, emulation),
            JerryMessage::MouseClick(btn, State::PRESSED) => self.mouse_down(*btn, emulation),
            JerryMessage::MouseClick(btn, State::RELEASED) => self.mouse_up(*btn, emulation),
            JerryMessage::MouseWheel(dir, amount) => self.mouse_wheel(*dir, *amount, emulation),
            JerryMessage::Request(req) => {
                response = Some(self.get_response(*req, now, clipboard));
                Ok(())
            },
            JerryMessage::SessionBegin { relative_move: rel } => {
                match self.state {
                    ClientState::Active => Err(ProcessingError::UnexpectedMessageDiscarded),
                    _ => {
                        self.session = now;
                        self.clear_state(*rel, clipboard);
                        self.state = ClientState::Active;
                        Ok(())
                    },
                }
            },
            JerryMessage::SessionEnd => match self.state {
                ClientState::Active => {
                    self.state = ClientState::Inactive;
                    self.recover(&mut effects);
                    self.clipboard_jerry = None;
                    match &self.clipboard_client {
                        Some(text) => {
                            emit(&mut effects, Effect::SetClipboard(text.clone()));
                        },
                        None => {},
                    }
                    assert(effects.deep_view() =~= old(self)@.end_effects());
                    Ok(())
                },
                _ => Err(ProcessingError::UnexpectedMessageDiscarded),
            },
            JerryMessage::Handshake(res, mess) => {
                match res {
                    HandshakeResult::Rejection => {
                        emit(
                            &mut effects,
                            Effect::Publish(
                                Command::ConnectionResult(
                                    ConnectionState::HandshakeFailed(mess.clone()),
                                ),
                            ),
                        );
                        emit(&mut effects, Effect::Publish(Command::Halt));
                    },
                    _ => {
                        emit(
                            &mut effects,
                            Effect::Publish(
                                Command::ConnectionResult(
                                    ConnectionState::HandshakeSuccess(mess.clone()),
                                ),
                            ),
                        );
                    },
                }
                assert(effects.deep_view() =~= HandlerModel::handshake_effects(*res, mess@));
                Ok(())
            },
            JerryMessage::Clipboard(content, file) => {
                if !*file {
                    self.clipboard_jerry = Some(content.clone());
                    emit(&mut effects, Effect::SetClipboard(content.clone()));
                    assert(effects.deep_view() =~= seq![EffectView::SetClipboard(content@)]);
                    Ok(())
                } else {
                    Err(ProcessingError::UnexpectedMessageDiscarded)
                }
            },
            JerryMessage::Heartbeat => Ok(()),
        };
        assert(effects.deep_view() == old(self)@.side_effects(msg@));
        emit(&mut effects, Effect::Publish(Command::Message(msg)));
        Reaction { response, effects, result }
    }

    /// Tells the handler that the command channel is closed. Everything
    /// that is held down is released, and the handler is finished.
    pub fn channel_lost(&mut self) -> (effects: Vec<Effect>)
        ensures
            final(self)@ == old(self)@.after_channel_loss(),
            effects.deep_view() == release_script(old(self)@.pressed, old(self)@.buttons),
            old(self)@.wf() ==> final(self)@.wf(),
    {
        let mut effects: Vec<Effect> = Vec::new();
        assert(effects.deep_view() =~= Seq::<EffectView>::empty());
        self.recover(&mut effects);
        self.finished = true;
        effects
    }
}

} // verus!
