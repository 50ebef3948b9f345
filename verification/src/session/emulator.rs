//! The capability through which input reaches the local devices.

use vstd::prelude::*;
use super::message_handler::{outcome, ProcessingError, ProcessingErrorView};
use super::Button;
use super::Direction;
use crate::emulation;
use crate::emulation::windows::{
    device_distance, press_input, release_input, wheel_input, MouseInput, MOUSEEVENTF_MOVE,
};
use crate::emulation::windows_k::{hybrid_input, KeyInput};

verus! {

/// What an input backend can be asked to do. Each operation may fail. A
/// backend may say, in `responds`, what can come of a request; one that
/// does not say leaves everything open.
pub trait Emulator {
    /// Where the backend takes the pointer to be, if it keeps track of it.
    open spec fn tracked_pointer(&self) -> Option<(i32, i32)> {
        None
    }

    /// Whether the backend, asked for `call` as it stands, may give
    /// `answer` and then take the pointer to be at `pointer`.
    open spec fn responds(
        &self,
        call: EmulatorCall,
        answer: Result<(), ProcessingErrorView>,
        pointer: Option<(i32, i32)>,
    ) -> bool {
        true
    }

    fn mouse_move_rel(&mut self, dx: i32, dy: i32) -> (done: Result<(), ProcessingError>)
        ensures
            old(self).responds(
                EmulatorCall::MouseMoveRel(dx, dy),
                outcome(done),
                final(self).tracked_pointer(),
            ),
    ;

    fn mouse_move_to(&mut self, x: i32, y: i32) -> (done: Result<(), ProcessingError>)
        ensures
            old(self).responds(
                EmulatorCall::MouseMoveTo(x, y),
                outcome(done),
                final(self).tracked_pointer(),
            ),
    ;

    fn get_cursor(&mut self) -> Result<(i32, i32), ProcessingError>;

    fn mouse_up(&mut self, button: Button) -> (done: Result<(), ProcessingError>)
        ensures
            old(self).responds(
                EmulatorCall::MouseUp(button),
                outcome(done),
                final(self).tracked_pointer(),
            ),
    ;

    fn mouse_down(&mut self, button: Button) -> (done: Result<(), ProcessingError>)
        ensures
            old(self).responds(
                EmulatorCall::MouseDown(button),
                outcome(done),
                final(self).tracked_pointer(),
            ),
    ;

    fn mouse_wheel(&mut self, direction: Direction, amount: i32) -> (done: Result<
        (),
        ProcessingError,
    >)
        ensures
            old(self).responds(
                EmulatorCall::MouseWheel(direction, amount),
                outcome(done),
                final(self).tracked_pointer(),
            ),
    ;

    fn key_down(&mut self, key: u32) -> (done: Result<(), ProcessingError>)
        ensures
            old(self).responds(
                EmulatorCall::KeyDown(key),
                outcome(done),
                final(self).tracked_pointer(),
            ),
    ;

    fn key_up(&mut self, key: u32) -> (done: Result<(), ProcessingError>)
        ensures
            old(self).responds(
                EmulatorCall::KeyUp(key),
                outcome(done),
                final(self).tracked_pointer(),
            ),
    ;
}

/// One request to an input backend, as a value.
#[derive(Clone, Copy, Debug, PartialEq, Eq, Structural)]
pub enum EmulatorCall {
    MouseMoveRel(i32, i32),
    MouseMoveTo(i32, i32),
    MouseUp(Button),
    MouseDown(Button),
    MouseWheel(Direction, i32),
    KeyDown(u32),
    KeyUp(u32),
}

impl EmulatorCall {
    /// Hands the request to a backend, by the operation that stands for it,
    /// and returns what the backend answered: the answer, and where the
    /// backend then takes the pointer to be, are those of that one
    /// operation.
    pub fn perform<E: Emulator + ?Sized>(self, emulator: &mut E) -> (done: Result<
        (),
        ProcessingError,
    >)
        ensures
            old(emulator).responds(self, outcome(done), final(emulator).tracked_pointer()),
    {
        match self {
            EmulatorCall::MouseMoveRel(dx, dy) => emulator.mouse_move_rel(dx, dy),
            EmulatorCall::MouseMoveTo(x, y) => emulator.mouse_move_to(x, y),
            EmulatorCall::MouseUp(button) => emulator.mouse_up(button),
            EmulatorCall::MouseDown(button) => emulator.mouse_down(button),
            EmulatorCall::MouseWheel(direction, amount) => emulator.mouse_wheel(direction, amount),
            EmulatorCall::KeyDown(key) => emulator.key_down(key),
            EmulatorCall::KeyUp(key) => emulator.key_up(key),
        }
    }
}

/// A backend that touches no device. It accepts every request and keeps
/// track of where the pointer would be.
pub struct NoopEmulator {
    cursor_pos: (i32, i32),
}

impl NoopEmulator {
    /// The pointer position the backend remembers.
    pub closed spec fn cursor(&self) -> (i32, i32) {
        self.cursor_pos
    }

    /// A backend whose pointer starts at (400, 400).
    pub fn new() -> (emulator: NoopEmulator)
        ensures
            emulator.cursor() == (400i32, 400i32),
    {
        Self { cursor_pos: (400, 400) }
    }
}

impl Emulator for NoopEmulator {
    open spec fn tracked_pointer(&self) -> Option<(i32, i32)> {
        Some(self.cursor())
    }

    /// Every request is accepted. A move takes the remembered pointer
    /// along; nothing else changes it.
    open spec fn responds(
        &self,
        call: EmulatorCall,
        answer: Result<(), ProcessingErrorView>,
        pointer: Option<(i32, i32)>,
    ) -> bool {
        &&& answer is Ok
        &&& pointer == Some(
            match call {
                EmulatorCall::MouseMoveRel(dx, dy) => (
                    self.cursor().0.wrapping_add(dx),
                    self.cursor().1.wrapping_add(dy),
                ),
                EmulatorCall::MouseMoveTo(x, y) => (x, y),
                _ => self.cursor(),
            },
        )
    }

    fn mouse_move_to(&mut self, x: i32, y: i32) -> (done: Result<(), ProcessingError>)
        ensures
            done is Ok,
            final(self).cursor() == (x, y),
    {
        self.cursor_pos = (x, y);
        Ok(())
    }

    fn mouse_up(&mut self, button: Button) -> (done: Result<(), ProcessingError>)
        ensures
            done is Ok,
            final(self).cursor() == old(self).cursor(),
    {
        Ok(())
    }

    fn mouse_down(&mut self, button: Button) -> (done: Result<(), ProcessingError>)
        ensures
            done is Ok,
            final(self).cursor() == old(self).cursor(),
    {
        Ok(())
    }

    fn mouse_wheel(&mut self, direction: Direction, amount: i32) -> (done: Result<
        (),
        ProcessingError,
    >)
        ensures
            done is Ok,
            final(self).cursor() == old(self).cursor(),
    {
        Ok(())
    }

    fn key_down(&mut self, key: u32) -> (done: Result<(), ProcessingError>)
        ensures
            done is Ok,
            final(self).cursor() == old(self).cursor(),
    {
        Ok(())
    }

    fn key_up(&mut self, key: u32) -> (done: Result<(), ProcessingError>)
        ensures
            done is Ok,
            final(self).cursor() == old(self).cursor(),
    {
        Ok(())
    }

    /// Moves the remembered pointer by the displacement; each coordinate
    /// wraps around at the ends of `i32`.
    fn mouse_move_rel(&mut self, dx: i32, dy: i32) -> (done: Result<(), ProcessingError>)
        ensures
            done is Ok,
            final(self).cursor() == (
                old(self).cursor().0.wrapping_add(dx),
                old(self).cursor().1.wrapping_add(dy),
            ),
    {
        self.cursor_pos = (self.cursor_pos.0.wrapping_add(dx), self.cursor_pos.1.wrapping_add(dy));
        Ok(())
    }

    fn get_cursor(&mut self) -> (at: Result<(i32, i32), ProcessingError>)
        ensures
            at == Ok::<(i32, i32), ProcessingError>(old(self).cursor()),
            final(self).cursor() == old(self).cursor(),
    {
        Ok(self.cursor_pos)
    }
}


/// The backend's name for a button of the protocol. The first extra button
/// is the one that goes back.
pub open spec fn backend_button(button: Button) -> emulation::Button {
    match button {
        Button::LEFT => emulation::Button::Left,
        Button::RIGHT => emulation::Button::Right,
        Button::MIDDLE => emulation::Button::Middle,
        Button::XBUTTON1 => emulation::Button::Back,
        Button::XBUTTON2 => emulation::Button::Forward,
    }
}

/// What the Windows backend has to send for a request.
#[derive(Clone, Copy, Debug, PartialEq, Eq, Structural)]
pub enum WindowsInput {
    Key(KeyInput),
    Mouse(MouseInput),
    /// Move the pointer to this place on the primary display.
    MoveTo(i32, i32),
}

/// What the Windows backend makes of a request: the input to send, or why
/// there is none. A key must be in the table of keys and have a prefix that
/// can be sent. A move by pixels is turned into device units.
pub open spec fn windows_input(call: EmulatorCall) -> Result<WindowsInput, ProcessingErrorView> {
    match call {
        EmulatorCall::MouseMoveRel(dx, dy) => if dx == i32::MIN || dy == i32::MIN {
            Err(ProcessingErrorView::FailedToProcess)
        } else {
            Ok(
                WindowsInput::Mouse(
                    MouseInput {
                        flags: MOUSEEVENTF_MOVE,
                        data: 0,
                        dx: device_distance(dx as int) as i32,
                        dy: device_distance(dy as int) as i32,
                    },
                ),
            )
        },
        EmulatorCall::MouseMoveTo(x, y) => Ok(WindowsInput::MoveTo(x, y)),
        EmulatorCall::MouseUp(button) => Ok(
            WindowsInput::Mouse(release_input(backend_button(button))),
        ),
        EmulatorCall::MouseDown(button) => Ok(
            WindowsInput::Mouse(press_input(backend_button(button))),
        ),
        EmulatorCall::MouseWheel(direction, amount) => Ok(
            WindowsInput::Mouse(
                wheel_input(
                    amount,
                    direction == Direction::SCROLL_LEFT || direction == Direction::SCROLL_RIGHT,
                ),
            ),
        ),
        EmulatorCall::KeyDown(key) => if key > u8::MAX {
            Err(ProcessingErrorView::UnableToProcess)
        } else {
            match hybrid_input(key as u8, true) {
                Ok(input) => Ok(WindowsInput::Key(input)),
                Err(_) => Err(ProcessingErrorView::UnableToProcess),
            }
        },
        EmulatorCall::KeyUp(key) => if key > u8::MAX {
            Err(ProcessingErrorView::UnableToProcess)
        } else {
            match hybrid_input(key as u8, false) {
                Ok(input) => Ok(WindowsInput::Key(input)),
                Err(_) => Err(ProcessingErrorView::UnableToProcess),
            }
        },
    }
}

/// What comes of a request to the Windows backend, as a plain value.
pub open spec fn planned(result: Result<WindowsInput, ProcessingError>) -> Result<
    WindowsInput,
    ProcessingErrorView,
> {
    match result {
        Ok(input) => Ok(input),
        Err(error) => Err(error@),
    }
}

/// The backend for Windows: it says what to put into the input queue for
/// each request.
pub struct WindowsImpl {
    keyboard_emu: emulation::windows_k::Keyboard,
    mouse_emu: emulation::windows::Mouse,
}

impl WindowsImpl {
    /// The table of keys that the backend looks a key up in.
    pub closed spec fn keys(&self) -> Map<u8, emulation::windows_k::WinKey> {
        self.keyboard_emu@
    }

    /// A backend with the whole table of keys.
    pub fn new() -> (backend: WindowsImpl)
        ensures
            backend.keys() == emulation::windows_k::key_table(),
    {
        Self {
            keyboard_emu: emulation::windows_k::Keyboard::new(),
            mouse_emu: emulation::windows::Mouse::new(),
        }
    }

    /// The backend's name for a button of the protocol.
    pub fn convert_btn(button: Button) -> (btn: emulation::Button)
        ensures
            btn == backend_button(button),
    {
        match button {
            Button::LEFT => emulation::Button::Left,
            Button::RIGHT => emulation::Button::Right,
            Button::MIDDLE => emulation::Button::Middle,
            Button::XBUTTON1 => emulation::Button::Back,
            Button::XBUTTON2 => emulation::Button::Forward,
        }
    }

    fn key(&self, key: u32, pressed: bool) -> (input: Result<WindowsInput, ProcessingError>)
        ensures
            planned(input) == windows_input(
                if pressed {
                    EmulatorCall::KeyDown(key)
                } else {
                    EmulatorCall::KeyUp(key)
                },
            ),
    {
        if key > 255 {
            return Err(ProcessingError::UnableToProcess);
        }
        match self.keyboard_emu.key_emu_hybrid(key as u8, pressed) {
            Ok(input) => Ok(WindowsInput::Key(input)),
            Err(_) => Err(ProcessingError::UnableToProcess),
        }
    }

    /// What to send for a request, or why nothing can be sent.
    pub fn input_for(&mut self, call: EmulatorCall) -> (input: Result<
        WindowsInput,
        ProcessingError,
    >)
        ensures
            planned(input) == windows_input(call),
    {
        match call {
            EmulatorCall::MouseMoveRel(dx, dy) => {
                if dx == i32::MIN || dy == i32::MIN {
                    Err(ProcessingError::FailedToProcess)
                } else {
                    Ok(WindowsInput::Mouse(emulation::windows::raw_relative_move_px(&dx, &dy)))
                }
            },
            EmulatorCall::MouseMoveTo(x, y) => Ok(WindowsInput::MoveTo(x, y)),
            EmulatorCall::MouseUp(button) => Ok(
                WindowsInput::Mouse(self.mouse_emu.release(Self::convert_btn(button))),
            ),
            EmulatorCall::MouseDown(button) => Ok(
                WindowsInput::Mouse(self.mouse_emu.press(Self::convert_btn(button))),
            ),
            EmulatorCall::MouseWheel(direction, am) => {
                let input = match direction {
                    Direction::SCROLL_UP => self.mouse_emu.wheel(am, false),
                    Direction::SCROLL_DOWN => self.mouse_emu.wheel(am, false),
                    Direction::SCROLL_LEFT => self.mouse_emu.wheel(am, true),
                    Direction::SCROLL_RIGHT => self.mouse_emu.wheel(am, true),
                };
                Ok(WindowsInput::Mouse(input))
            },
            EmulatorCall::KeyDown(key) => self.key(key, true),
            EmulatorCall::KeyUp(key) => self.key(key, false),
        }
    }
}


/// How far a wheel has to be asked to turn before the Linux backend clicks
/// once, and how far one click takes it.
pub const WHEEL_STEP: i64 = 30;

/// The button that the X server takes a wheel click for.
#[derive(Clone, Copy, Debug, PartialEq, Eq, Structural)]
pub enum WheelButton {
    /// Button 4.
    Up,
    /// Button 5.
    Down,
    /// Button 6.
    Left,
    /// Button 7.
    Right,
}

/// The number of clicks that bring a pending turn within one step: the
/// least number of steps towards zero after which no more than one step is
/// left.
pub open spec fn wheel_clicks(pending: int) -> int {
    let far = if pending < 0 {
        -pending
    } else {
        pending
    };
    if far > WHEEL_STEP {
        (far - 1) / (WHEEL_STEP as int)
    } else {
        0
    }
}

/// What is left of a pending turn after its clicks.
pub open spec fn wheel_rest(pending: int) -> int {
    if pending < 0 {
        pending + WHEEL_STEP * wheel_clicks(pending)
    } else {
        pending - WHEEL_STEP * wheel_clicks(pending)
    }
}

/// The button that is clicked for a pending turn.
pub open spec fn wheel_button(horizontal: bool, pending: int) -> WheelButton {
    if horizontal {
        if pending > 0 {
            WheelButton::Right
        } else {
            WheelButton::Left
        }
    } else {
        if pending > 0 {
            WheelButton::Up
        } else {
            WheelButton::Down
        }
    }
}

/// The backend for Linux, as far as it decides: wheel turns are collected
/// until they are worth a click.
pub struct LinuxImpl {
    wheel_x: i32,
    wheel_y: i32,
}

impl LinuxImpl {
    /// What is pending of horizontal and of vertical turns.
    pub closed spec fn pending(&self) -> (int, int) {
        (self.wheel_x as int, self.wheel_y as int)
    }

    #[verifier::type_invariant]
    spec fn within_a_step(self) -> bool {
        &&& -WHEEL_STEP <= self.wheel_x <= WHEEL_STEP
        &&& -WHEEL_STEP <= self.wheel_y <= WHEEL_STEP
    }

    pub fn new() -> (backend: Self)
        ensures
            backend.pending() == (0int, 0int),
    {
        Self { wheel_x: 0, wheel_y: 0 }
    }

    fn settle(pending: i64) -> (settled: (u32, i32))
        requires
            -0x1_0000_0000 <= pending <= 0x1_0000_0000,
        ensures
            settled.0 == wheel_clicks(pending as int),
            settled.1 == wheel_rest(pending as int),
            -WHEEL_STEP <= settled.1 <= WHEEL_STEP,
    {
        let far = if pending < 0 {
            -pending
        } else {
            pending
        };
        let clicks = if far > WHEEL_STEP {
            (far - 1) / WHEEL_STEP
        } else {
            0
        };
        let rest = if pending < 0 {
            pending + WHEEL_STEP * clicks
        } else {
            pending - WHEEL_STEP * clicks
        };
        (clicks as u32, rest as i32)
    }

    /// Takes a wheel turn: the button to click and how often. What is left
    /// of the turn stays pending for the next one.
    pub fn mouse_wheel(&mut self, direction: Direction, amount: i32) -> (clicks: (WheelButton, u32))
        ensures
            ({
                let horizontal = direction == Direction::SCROLL_LEFT || direction
                    == Direction::SCROLL_RIGHT;
                let before = if horizontal {
                    old(self).pending().0
                } else {
                    old(self).pending().1
                };
                &&& clicks.0 == wheel_button(horizontal, before + amount)
                &&& clicks.1 == wheel_clicks(before + amount)
                &&& final(self).pending() == (if horizontal {
                    (wheel_rest(before + amount), old(self).pending().1)
                } else {
                    (old(self).pending().0, wheel_rest(before + amount))
                })
            }),
    {
        proof {
            use_type_invariant(&*self);
        }
        match direction {
            Direction::SCROLL_UP | Direction::SCROLL_DOWN => {
                let pending = self.wheel_y as i64 + amount as i64;
                let (clicks, rest) = Self::settle(pending);
                self.wheel_y = rest;
                let button = if pending > 0 {
                    WheelButton::Up
                } else {
                    WheelButton::Down
                };
                (button, clicks)
            },
            Direction::SCROLL_LEFT | Direction::SCROLL_RIGHT => {
                let pending = self.wheel_x as i64 + amount as i64;
                let (clicks, rest) = Self::settle(pending);
                self.wheel_x = rest;
                let button = if pending > 0 {
                    WheelButton::Right
                } else {
                    WheelButton::Left
                };
                (button, clicks)
            },
        }
    }
}

/// After its clicks a pending turn is within one step of zero, on the side
/// it was on, and one click less would not have been enough.
pub proof fn lemma_wheel_clicks_are_least(pending: int)
    ensures
        -WHEEL_STEP <= wheel_rest(pending) <= WHEEL_STEP,
        wheel_clicks(pending) >= 0,
        pending >= 0 ==> 0 <= wheel_rest(pending) <= pending,
        pending <= 0 ==> pending <= wheel_rest(pending) <= 0,
        wheel_clicks(pending) > 0 && pending > 0 ==> pending - WHEEL_STEP * (wheel_clicks(pending)
            - 1) > WHEEL_STEP,
        wheel_clicks(pending) > 0 && pending < 0 ==> pending + WHEEL_STEP * (wheel_clicks(pending)
            - 1) < -WHEEL_STEP,
{
}

} // verus!
