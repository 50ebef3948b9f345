//! The state display: what the screen shows of the session, and when it is
//! drawn again.

use vstd::prelude::*;
use super::{Command, Coord};
use crate::connection::{ConnectionState, ConnectionStateView};
use crate::session::{Direction, JerryMessage, JerryMessageView, State};
use crate::state::CommandView;

verus! {

/// How long the display ticks, in milliseconds.
pub const TICK_INTERVAL_MILLIS: u64 = 50;

/// For how many turns the display is left alone after the state of the
/// connection changed.
pub const PAUSE_AFTER_CONNECTION_RESULT: u16 = 10;

/// The display needs a terminal of at least so many columns.
pub const NARROWEST_TERMINAL: u16 = 80;

/// The display needs a terminal of at least so many rows.
pub const LOWEST_TERMINAL: u16 = 16;

/// What a heartbeat sets the heart to.
pub const HEART_BEATS: u8 = 3;

/// The colour the display is drawn in.
#[derive(Clone, Copy, Debug, PartialEq, Eq, Structural)]
pub enum Color {
    Green,
    LightBlue,
    Red,
    DarkGray,
}

/// What the heart looks like.
#[derive(Clone, Copy, Debug, PartialEq, Eq, Structural)]
pub enum Heart {
    /// The full heart of a beat.
    Beating,
    /// The gap between two beats.
    Skipping,
    /// The small heart of a display that has heard nothing lately.
    Resting,
}

/// What is drawn in one turn.
#[derive(Clone, Copy, Debug, PartialEq, Eq, Structural)]
pub enum Frame {
    /// Nothing: the display is paused, or the terminal did not say how
    /// large it is.
    Nothing,
    /// Only the notice that the terminal is too small.
    TooSmall,
    /// The display as it stands, in this colour and with this heart.
    Screen(Color, Heart),
}

/// What one turn of the display comes to.
#[derive(Clone, Copy, Debug, PartialEq, Eq, Structural)]
pub struct UiStep {
    pub frame: Frame,
    /// Whether the display is over.
    pub stop: bool,
}

/// The keys without one of them.
pub open spec fn without(keys: Seq<u32>, code: u32) -> Seq<u32>
    decreases keys.len(),
{
    if keys.len() == 0 {
        keys
    } else if keys.last() == code {
        without(keys.drop_last(), code)
    } else {
        without(keys.drop_last(), code).push(keys.last())
    }
}

/// The mark that a wheel turn leaves.
pub open spec fn wheel_mark(dir: Direction) -> char {
    match dir {
        Direction::SCROLL_UP => '^',
        Direction::SCROLL_DOWN => 'v',
        Direction::SCROLL_LEFT => '<',
        Direction::SCROLL_RIGHT => '>',
    }
}

/// Half of a length, rounded towards zero.
pub open spec fn half(length: i32) -> i32 {
    if length >= 0 {
        (length / 2) as i32
    } else {
        (-((-length) / 2)) as i32
    }
}

/// What the display knows.
pub struct WindowModel {
    pub connection_state: ConnectionStateView,
    pub mon_size: Coord,
    pub cursor: Coord,
    pub active: bool,
    pub rendering_pause_cycles: u16,
    /// The keys that are down, each once, in the order they went down.
    pub keys: Seq<u32>,
    pub wheel: char,
    /// How many more buttons went down than came up.
    pub mouse_btn: i16,
    pub heart: u8,
    pub relative_move: bool,
}

impl WindowModel {
    /// A display that has seen nothing.
    pub open spec fn initial(mon_size: Coord) -> WindowModel {
        WindowModel {
            connection_state: ConnectionStateView::Unconnected,
            mon_size,
            cursor: Coord { x: 0, y: 0 },
            active: false,
            rendering_pause_cycles: 0,
            keys: Seq::empty(),
            wheel: ' ',
            mouse_btn: 0,
            heart: 0,
            relative_move: false,
        }
    }

    /// No key is shown twice.
    pub open spec fn wf(self) -> bool {
        self.keys.no_duplicates()
    }

    /// The display after a message. A pointer that moves relatively is
    /// shown as far from the centre of the monitor as the message says;
    /// coordinates and the count of buttons wrap around at the ends of their
    /// types.
    pub open spec fn after(self, msg: JerryMessageView) -> WindowModel {
        match msg {
            JerryMessageView::MouseMove(x, y) => if self.relative_move {
                WindowModel {
                    cursor: Coord {
                        x: half(self.mon_size.x).wrapping_add(x),
                        y: half(self.mon_size.y).wrapping_add(y),
                    },
                    ..self
                }
            } else {
                WindowModel { cursor: Coord { x, y }, ..self }
            },
            JerryMessageView::Key(code, State::PRESSED) => if self.keys.contains(code) {
                self
            } else {
                WindowModel { keys: self.keys.push(code), ..self }
            },
            JerryMessageView::Key(code, State::RELEASED) => WindowModel {
                keys: without(self.keys, code),
                ..self
            },
            JerryMessageView::MouseClick(_, State::PRESSED) => WindowModel {
                mouse_btn: self.mouse_btn.wrapping_add(1),
                ..self
            },
            JerryMessageView::MouseClick(_, State::RELEASED) => WindowModel {
                mouse_btn: self.mouse_btn.wrapping_sub(1),
                ..self
            },
            JerryMessageView::MouseWheel(dir, _) => WindowModel { wheel: wheel_mark(dir), ..self },
            JerryMessageView::SessionBegin { relative_move } => WindowModel {
                active: true,
                relative_move,
                ..self
            },
            JerryMessageView::SessionEnd => WindowModel { active: false, ..self },
            JerryMessageView::Heartbeat => WindowModel { heart: HEART_BEATS, ..self },
            _ => self,
        }
    }

    /// The colour of the display: green in a session, otherwise light blue
    /// after a handshake that succeeded, red after a read error, and grey.
    pub open spec fn color(self) -> Color {
        if self.active {
            Color::Green
        } else {
            match self.connection_state {
                ConnectionStateView::HandshakeSuccess(_) => Color::LightBlue,
                ConnectionStateView::ReadError(_) => Color::Red,
                _ => Color::DarkGray,
            }
        }
    }

    /// What is drawn, given the size of the terminal in columns and rows
    /// where it is known, and the display afterwards. A paused display
    /// counts the turn and draws nothing. A heart that beats loses a beat
    /// with every frame and shows full at every other one.
    pub open spec fn render(self, terminal: Option<(u16, u16)>) -> (WindowModel, Frame) {
        if self.rendering_pause_cycles > 0 {
            (
                WindowModel {
                    rendering_pause_cycles: (self.rendering_pause_cycles - 1) as u16,
                    ..self
                },
                Frame::Nothing,
            )
        } else {
            match terminal {
                None => (self, Frame::Nothing),
                Some((width, height)) => if height < LOWEST_TERMINAL || width
                    < NARROWEST_TERMINAL {
                    (self, Frame::TooSmall)
                } else if self.heart > 0 {
                    (
                        WindowModel { heart: (self.heart - 1) as u8, ..self },
                        Frame::Screen(
                            self.color(),
                            if (self.heart - 1) % 2 == 0 {
                                Heart::Beating
                            } else {
                                Heart::Skipping
                            },
                        ),
                    )
                } else {
                    (self, Frame::Screen(self.color(), Heart::Resting))
                },
            }
        }
    }

    /// One turn of the display: a tick draws, a message changes what is
    /// shown, a new state of the connection is drawn at once and then left
    /// to be read, and the display ends when it is told to or when nobody
    /// sends any more.
    pub open spec fn turn(self, received: Option<CommandView>, terminal: Option<(u16, u16)>) -> (
        WindowModel,
        UiStep,
    ) {
        match received {
            Some(CommandView::Draw) => (
                self.render(terminal).0,
                UiStep { frame: self.render(terminal).1, stop: false },
            ),
            Some(CommandView::Message(msg)) | Some(CommandView::MessageCorrective(msg)) => (
                self.after(msg),
                UiStep { frame: Frame::Nothing, stop: false },
            ),
            Some(CommandView::ConnectionResult(st)) => {
                let shown = WindowModel { connection_state: st, ..self };
                (
                    WindowModel {
                        rendering_pause_cycles: PAUSE_AFTER_CONNECTION_RESULT,
                        ..shown.render(terminal).0
                    },
                    UiStep { frame: shown.render(terminal).1, stop: false },
                )
            },
            _ => (self, UiStep { frame: Frame::Nothing, stop: true }),
        }
    }
}

/// The state display.
pub struct WindowState {
    connection_state: ConnectionState,
    pub mon_size: Coord,
    pub cursor: Coord,
    active: bool,
    rendering_pause_cycles: u16,
    keys: Vec<u32>,
    wheel: char,
    mouse_btn: i16,
    heart: u8,
    relative_move: bool,
}

impl View for WindowState {
    type V = WindowModel;

    closed spec fn view(&self) -> WindowModel {
        WindowModel {
            connection_state: self.connection_state@,
            mon_size: self.mon_size,
            cursor: self.cursor,
            active: self.active,
            rendering_pause_cycles: self.rendering_pause_cycles,
            keys: self.keys@,
            wheel: self.wheel,
            mouse_btn: self.mouse_btn,
            heart: self.heart,
            relative_move: self.relative_move,
        }
    }
}

fn contains_key(keys: &Vec<u32>, code: u32) -> (found: bool)
    ensures
        found == keys@.contains(code),
{
    let mut i: usize = 0;
    while i < keys.len()
        invariant
            i <= keys.len(),
            forall|j: int| 0 <= j < i ==> keys@[j] != code,
        decreases keys.len() - i,
    {
        if keys[i] == code {
            return true;
        }
        i += 1;
    }
    false
}

fn retain_other_keys(keys: &Vec<u32>, code: u32) -> (kept: Vec<u32>)
    ensures
        kept@ == without(keys@, code),
{
    let mut kept: Vec<u32> = Vec::new();
    let mut i: usize = 0;
    assert(keys@.subrange(0, 0) =~= Seq::<u32>::empty());
    while i < keys.len()
        invariant
            i <= keys.len(),
            kept@ == without(keys@.subrange(0, i as int), code),
        decreases keys.len() - i,
    {
        let ghost upto = keys@.subrange(0, i + 1);
        assert(upto.drop_last() =~= keys@.subrange(0, i as int));
        assert(upto.last() == keys@[i as int]);
        if keys[i] != code {
            kept.push(keys[i]);
        }
        i += 1;
    }
    assert(keys@.subrange(0, i as int) =~= keys@);
    kept
}

fn half_of(length: i32) -> (result: i32)
    ensures
        result == half(length),
{
    length / 2
}

impl WindowState {
    /// A display for a monitor of the size given.
    pub fn new(mon_size: Coord) -> (window: WindowState)
        ensures
            window@ == WindowModel::initial(mon_size),
            window@.wf(),
    {
        WindowState {
            mon_size,
            connection_state: ConnectionState::Unconnected,
            active: false,
            cursor: Coord { x: 0, y: 0 },
            rendering_pause_cycles: 0,
            keys: Vec::new(),
            wheel: ' ',
            mouse_btn: 0,
            heart: 0,
            relative_move: false,
        }
    }

    /// One turn of the display. `None` stands for a channel that nobody
    /// sends on any more; `terminal` is the size of the terminal in columns
    /// and rows, where it can be had.
    pub fn run(&mut self, received: Option<Command>, terminal: Option<(u16, u16)>) -> (step: UiStep)
        ensures
            (final(self)@, step) == old(self)@.turn(received.deep_view(), terminal),
            old(self)@.wf() ==> final(self)@.wf(),
    {
        match received {
            Some(Command::Draw) => UiStep { frame: self.render(terminal), stop: false },
            Some(Command::Message(msg)) => {
                self.process(msg);
                UiStep { frame: Frame::Nothing, stop: false }
            },
            Some(Command::MessageCorrective(msg)) => {
                self.process(msg);
                UiStep { frame: Frame::Nothing, stop: false }
            },
            Some(Command::ConnectionResult(st)) => {
                self.connection_state = st;
                let frame = self.render(terminal);
                self.pause_rendering(PAUSE_AFTER_CONNECTION_RESULT);
                UiStep { frame, stop: false }
            },
            Some(Command::Halt) => UiStep { frame: Frame::Nothing, stop: true },
            Some(Command::ExitWithError(_)) => UiStep { frame: Frame::Nothing, stop: true },
            None => UiStep { frame: Frame::Nothing, stop: true },
        }
    }

    /// Takes a message into what is shown.
    pub fn process(&mut self, msg: JerryMessage)
        ensures
            final(self)@ == old(self)@.after(msg@),
            old(self)@.wf() ==> final(self)@.wf(),
    {
        proof {
            if self@.wf() {
                lemma_keys_are_shown_once(self@, msg@);
            }
        }
        match msg {
            JerryMessage::MouseMove(x, y) => {
                if self.relative_move {
                    self.cursor = Coord {
                        x: half_of(self.mon_size.x).wrapping_add(x),
                        y: half_of(self.mon_size.y).wrapping_add(y),
                    };
                } else {
                    self.cursor = Coord { x, y }
                }
            },
            JerryMessage::Key(code, State::PRESSED) => {
                if !contains_key(&self.keys, code) {
                    self.keys.push(code);
                }
            },
            JerryMessage::Key(code, State::RELEASED) => {
                self.keys = retain_other_keys(&self.keys, code);
            },
            JerryMessage::MouseClick(_, s) => match s {
                State::PRESSED => {
                    self.mouse_btn = self.mouse_btn.wrapping_add(1);
                },
                State::RELEASED => {
                    self.mouse_btn = self.mouse_btn.wrapping_sub(1);
                },
            },
            JerryMessage::MouseWheel(dir, _amount) => {
                self.wheel = match dir {
                    Direction::SCROLL_UP => '^',
                    Direction::SCROLL_DOWN => 'v',
                    Direction::SCROLL_LEFT => '<',
                    Direction::SCROLL_RIGHT => '>',
                }
            },
            JerryMessage::SessionBegin { relative_move: relative } => {
                self.active = true;
                self.relative_move = relative;
            },
            JerryMessage::SessionEnd => {
                self.active = false;
            },
            JerryMessage::Clipboard(_content, _) => {},
            JerryMessage::Request(_) => {},
            JerryMessage::Handshake(_echo, _) => {},
            JerryMessage::Heartbeat => {
                self.heart = HEART_BEATS;
            },
        }
    }

    /// The colour of the display.
    pub fn get_color(&self) -> (color: Color)
        ensures
            color == self@.color(),
    {
        if self.active {
            return Color::Green;
        }
        match &self.connection_state {
            ConnectionState::HandshakeSuccess(_) => Color::LightBlue,
            ConnectionState::ReadError(_) => Color::Red,
            _ => Color::DarkGray,
        }
    }

    fn pause_rendering(&mut self, cycles: u16)
        ensures
            final(self)@ == (WindowModel { rendering_pause_cycles: cycles, ..old(self)@ }),
    {
        self.rendering_pause_cycles = cycles;
    }

    /// What is drawn in this turn.
    pub fn render(&mut self, terminal: Option<(u16, u16)>) -> (frame: Frame)
        ensures
            (final(self)@, frame) == old(self)@.render(terminal),
    {
        if self.rendering_pause_cycles > 0 {
            self.rendering_pause_cycles -= 1;
            return Frame::Nothing;
        }
        let active_color = self.get_color();
        match terminal {
            None => Frame::Nothing,
            Some((width, height)) => {
                if height < LOWEST_TERMINAL || width < NARROWEST_TERMINAL {
                    return Frame::TooSmall;
                }
                if self.heart > 0 {
                    self.heart -= 1;
                    if self.heart % 2 == 0 {
                        Frame::Screen(active_color, Heart::Beating)
                    } else {
                        Frame::Screen(active_color, Heart::Skipping)
                    }
                } else {
                    Frame::Screen(active_color, Heart::Resting)
                }
            },
        }
    }

    /// The state of the connection that is shown.
    pub fn connection_state(&self) -> (state: &ConnectionState)
        ensures
            state@ == self@.connection_state,
    {
        &self.connection_state
    }

    /// The keys that are shown as down.
    pub fn keys(&self) -> (keys: &Vec<u32>)
        ensures
            keys@ == self@.keys,
    {
        &self.keys
    }

    /// The mark of the last wheel turn.
    pub fn wheel(&self) -> (mark: char)
        ensures
            mark == self@.wheel,
    {
        self.wheel
    }

    /// How many more buttons went down than came up.
    pub fn mouse_btn(&self) -> (count: i16)
        ensures
            count == self@.mouse_btn,
    {
        self.mouse_btn
    }

    /// Whether a session is shown as active.
    pub fn active(&self) -> (active: bool)
        ensures
            active == self@.active,
    {
        self.active
    }
}

proof fn lemma_without(keys: Seq<u32>, code: u32)
    ensures
        !without(keys, code).contains(code),
        forall|other: u32|
            other != code ==> (without(keys, code).contains(other) <==> keys.contains(other)),
        keys.no_duplicates() ==> without(keys, code).no_duplicates(),
    decreases keys.len(),
{
    if keys.len() > 0 {
        let rest = keys.drop_last();
        lemma_without(rest, code);
        let kept = without(rest, code);
        assert forall|other: u32| other != code implies (without(keys, code).contains(other)
            <==> keys.contains(other)) by {
            if keys.contains(other) {
                let i = choose|i: int| 0 <= i < keys.len() && keys[i] == other;
                if i < rest.len() {
                    assert(rest[i] == other);
                    assert(rest.contains(other));
                    assert(kept.contains(other));
                    let j = choose|j: int| 0 <= j < kept.len() && kept[j] == other;
                    if keys.last() != code {
                        assert(kept.push(keys.last())[j] == other);
                    }
                } else {
                    assert(keys.last() == other);
                    assert(kept.push(other)[kept.len() as int] == other);
                }
            }
            if without(keys, code).contains(other) {
                let j = choose|j: int|
                    0 <= j < without(keys, code).len() && without(keys, code)[j] == other;
                if keys.last() != code && j == kept.len() {
                    assert(keys[keys.len() - 1] == other);
                } else {
                    assert(0 <= j < kept.len());
                    assert(kept[j] == other);
                    assert(kept.contains(other));
                    assert(rest.contains(other));
                    let i = choose|i: int| 0 <= i < rest.len() && rest[i] == other;
                    assert(keys[i] == other);
                }
            }
        }
        if keys.no_duplicates() {
            assert(rest.no_duplicates());
            if keys.last() != code {
                if kept.contains(keys.last()) {
                    assert(rest.contains(keys.last()));
                    let i = choose|i: int| 0 <= i < rest.len() && rest[i] == keys.last();
                    assert(keys[i] == keys[keys.len() - 1]);
                }
                assert(kept.push(keys.last()).no_duplicates());
            }
        }
        if keys.last() != code {
            if kept.push(keys.last()).contains(code) {
                let j = choose|j: int|
                    0 <= j < kept.push(keys.last()).len() && kept.push(keys.last())[j] == code;
                if j < kept.len() {
                    assert(kept[j] == code);
                }
            }
        }
    }
}

/// No key is ever shown twice, and a key that came up is not shown any
/// more, however often it went down.
pub proof fn lemma_keys_are_shown_once(window: WindowModel, msg: JerryMessageView)
    requires
        window.wf(),
    ensures
        window.after(msg).wf(),
        forall|code: u32|
            msg == JerryMessageView::Key(code, State::RELEASED) ==> !window.after(
                msg,
            ).keys.contains(code),
        forall|code: u32|
            msg == JerryMessageView::Key(code, State::PRESSED) ==> window.after(
                msg,
            ).keys.contains(code),
{
    match msg {
        JerryMessageView::Key(code, State::PRESSED) => {
            if !window.keys.contains(code) {
                assert(window.keys.push(code)[window.keys.len() as int] == code);
                assert(window.keys.push(code).no_duplicates());
            }
        },
        JerryMessageView::Key(code, State::RELEASED) => {
            lemma_without(window.keys, code);
        },
        _ => {},
    }
}

} // verus!
