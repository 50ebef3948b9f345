use jerry_client::emulation::mac_k::{code_from_key, KEY_A, KP_CLEAR, RETURN};
use jerry_client::emulation::windows::{
    raw_relative_move, raw_relative_move_px, reverse_acceleration_curve, Mouse, MouseInput,
    MOUSEEVENTF_HWHEEL, MOUSEEVENTF_LEFTDOWN, MOUSEEVENTF_LEFTUP, MOUSEEVENTF_MIDDLEDOWN,
    MOUSEEVENTF_MIDDLEUP, MOUSEEVENTF_MOVE, MOUSEEVENTF_RIGHTDOWN, MOUSEEVENTF_RIGHTUP,
    MOUSEEVENTF_WHEEL, MOUSEEVENTF_XDOWN, MOUSEEVENTF_XUP,
};
use jerry_client::emulation::windows_k::{
    key_to_layout_key, scan_to_vk, KeyError, KeyInput, Keyboard, WinKey, EXT0, EXT1,
    KEYEVENTF_EXTENDEDKEY, KEYEVENTF_KEYUP, KEYEVENTF_SCANCODE, VK_F1, VK_LAYOUT_DEPENDENT,
    VK_PAUSE, VK_PRINT, VK_RETURN, VK_UP, VK_VOLUME_MUTE,
};
use jerry_client::emulation::Button as BackendButton;
use jerry_client::emulation::JKey;
use jerry_client::session::emulator::{
    Emulator, EmulatorCall, LinuxImpl, NoopEmulator, WheelButton, WindowsImpl, WindowsInput,
};
use jerry_client::session::message_handler::ProcessingError;
use jerry_client::session::{Button, Direction};

fn mouse(flags: u32, data: i32, dx: i32, dy: i32) -> MouseInput {
    MouseInput { flags, data, dx, dy }
}

#[test]
fn noop_emulator_starts_at_400_400() {
    let mut emulator = NoopEmulator::new();
    assert_eq!(emulator.get_cursor(), Ok((400, 400)));
}

#[test]
fn noop_emulator_follows_the_pointer() {
    let mut emulator = NoopEmulator::new();
    assert_eq!(emulator.mouse_move_rel(-10, 25), Ok(()));
    assert_eq!(emulator.get_cursor(), Ok((390, 425)));
    assert_eq!(emulator.mouse_move_to(7, 8), Ok(()));
    assert_eq!(emulator.get_cursor(), Ok((7, 8)));
    assert_eq!(emulator.mouse_move_rel(i32::MAX, i32::MIN), Ok(()));
    assert_eq!(emulator.get_cursor(), Ok((i32::MIN + 6, i32::MIN + 8)));
}

#[test]
fn noop_emulator_accepts_everything_else() {
    let mut emulator = NoopEmulator::new();
    assert_eq!(emulator.mouse_up(Button::LEFT), Ok(()));
    assert_eq!(emulator.mouse_down(Button::XBUTTON2), Ok(()));
    assert_eq!(emulator.mouse_wheel(Direction::SCROLL_UP, 120), Ok(()));
    assert_eq!(emulator.key_down(65), Ok(()));
    assert_eq!(emulator.key_up(66), Ok(()));
    assert_eq!(emulator.key_down(u32::MAX), Ok(()));
    assert_eq!(emulator.get_cursor(), Ok((400, 400)));
}

#[test]
fn requests_reach_the_backend_they_are_performed_on() {
    let mut emulator = NoopEmulator::new();
    assert_eq!(EmulatorCall::MouseMoveTo(5, 6).perform(&mut emulator), Ok(()));
    assert_eq!(emulator.get_cursor(), Ok((5, 6)));
    assert_eq!(EmulatorCall::MouseMoveRel(1, -1).perform(&mut emulator), Ok(()));
    assert_eq!(emulator.get_cursor(), Ok((6, 5)));
    for call in [
        EmulatorCall::MouseUp(Button::LEFT),
        EmulatorCall::MouseDown(Button::LEFT),
        EmulatorCall::MouseWheel(Direction::SCROLL_LEFT, 3),
        EmulatorCall::KeyDown(65),
        EmulatorCall::KeyUp(65),
    ] {
        assert_eq!(call.perform(&mut emulator), Ok(()));
    }
    assert_eq!(emulator.get_cursor(), Ok((6, 5)));
    let mut boxed: Box<dyn Emulator> = Box::new(NoopEmulator::new());
    assert_eq!(EmulatorCall::MouseMoveTo(9, 9).perform(&mut *boxed), Ok(()));
    assert_eq!(boxed.get_cursor(), Ok((9, 9)));
}

#[test]
fn mouse_buttons_have_their_flags() {
    let mut m = Mouse::new();
    assert_eq!(m.press(BackendButton::Left), mouse(MOUSEEVENTF_LEFTDOWN, 0, 0, 0));
    assert_eq!(m.press(BackendButton::Middle), mouse(MOUSEEVENTF_MIDDLEDOWN, 0, 0, 0));
    assert_eq!(m.press(BackendButton::Right), mouse(MOUSEEVENTF_RIGHTDOWN, 0, 0, 0));
    assert_eq!(m.press(BackendButton::Back), mouse(MOUSEEVENTF_XDOWN, 1, 0, 0));
    assert_eq!(m.press(BackendButton::Forward), mouse(MOUSEEVENTF_XDOWN, 2, 0, 0));
    assert_eq!(m.release(BackendButton::Left), mouse(MOUSEEVENTF_LEFTUP, 0, 0, 0));
    assert_eq!(m.release(BackendButton::Middle), mouse(MOUSEEVENTF_MIDDLEUP, 0, 0, 0));
    assert_eq!(m.release(BackendButton::Right), mouse(MOUSEEVENTF_RIGHTUP, 0, 0, 0));
    assert_eq!(m.release(BackendButton::Back), mouse(MOUSEEVENTF_XUP, 1, 0, 0));
    assert_eq!(m.release(BackendButton::Forward), mouse(MOUSEEVENTF_XUP, 2, 0, 0));
}

#[test]
fn mouse_flags_are_those_of_the_input_queue() {
    assert_eq!(MOUSEEVENTF_MOVE, 0x0001);
    assert_eq!(MOUSEEVENTF_LEFTDOWN, 0x0002);
    assert_eq!(MOUSEEVENTF_LEFTUP, 0x0004);
    assert_eq!(MOUSEEVENTF_RIGHTDOWN, 0x0008);
    assert_eq!(MOUSEEVENTF_RIGHTUP, 0x0010);
    assert_eq!(MOUSEEVENTF_MIDDLEDOWN, 0x0020);
    assert_eq!(MOUSEEVENTF_MIDDLEUP, 0x0040);
    assert_eq!(MOUSEEVENTF_XDOWN, 0x0080);
    assert_eq!(MOUSEEVENTF_XUP, 0x0100);
    assert_eq!(MOUSEEVENTF_WHEEL, 0x0800);
    assert_eq!(MOUSEEVENTF_HWHEEL, 0x1000);
    assert_eq!(KEYEVENTF_EXTENDEDKEY, 1);
    assert_eq!(KEYEVENTF_KEYUP, 2);
    assert_eq!(KEYEVENTF_SCANCODE, 8);
}

#[test]
fn horizontal_wheel_turns_half_as_far() {
    let mut m = Mouse::new();
    assert_eq!(m.wheel(120, false), mouse(MOUSEEVENTF_WHEEL, 120, 0, 0));
    assert_eq!(m.wheel(-120, false), mouse(MOUSEEVENTF_WHEEL, -120, 0, 0));
    assert_eq!(m.wheel(120, true), mouse(MOUSEEVENTF_HWHEEL, 60, 0, 0));
    assert_eq!(m.wheel(-121, true), mouse(MOUSEEVENTF_HWHEEL, -60, 0, 0));
    assert_eq!(m.wheel(1, true), mouse(MOUSEEVENTF_HWHEEL, 0, 0, 0));
    assert_eq!(m.wheel(-1, true), mouse(MOUSEEVENTF_HWHEEL, 0, 0, 0));
    assert_eq!(m.wheel(i32::MIN, true), mouse(MOUSEEVENTF_HWHEEL, i32::MIN / 2, 0, 0));
}

#[test]
fn short_moves_go_by_the_table() {
    let table = [0, 1, 2, 3, 3, 4, 4, 5, 5, 6, 6, 7, 7, 8, 8, 9];
    for (px, mickeys) in table.iter().enumerate() {
        assert_eq!(reverse_acceleration_curve(px as i32), *mickeys);
        assert_eq!(reverse_acceleration_curve(-(px as i32)), -*mickeys);
    }
}

#[test]
fn long_moves_go_by_a_quarter_and_six() {
    assert_eq!(reverse_acceleration_curve(16), 10);
    assert_eq!(reverse_acceleration_curve(17), 10);
    assert_eq!(reverse_acceleration_curve(19), 10);
    assert_eq!(reverse_acceleration_curve(20), 11);
    assert_eq!(reverse_acceleration_curve(-16), -10);
    assert_eq!(reverse_acceleration_curve(-400), -106);
    assert_eq!(reverse_acceleration_curve(i32::MAX), 6 + i32::MAX / 4);
    assert_eq!(reverse_acceleration_curve(i32::MIN + 1), -(6 + i32::MAX / 4));
}

#[test]
fn relative_moves_are_sent_in_device_units() {
    assert_eq!(raw_relative_move(3, -4), mouse(MOUSEEVENTF_MOVE, 0, 3, -4));
    assert_eq!(raw_relative_move_px(&7, &-40), mouse(MOUSEEVENTF_MOVE, 0, 5, -16));
    assert_eq!(raw_relative_move_px(&0, &0), mouse(MOUSEEVENTF_MOVE, 0, 0, 0));
}

#[test]
fn layout_dependent_keys_are_sent_by_scan_code() {
    let keyboard = Keyboard::new();
    assert_eq!(
        keyboard.key_emu_hybrid(0x41, true),
        Ok(KeyInput { scan: 0x1E, vk: VK_LAYOUT_DEPENDENT, flags: KEYEVENTF_SCANCODE })
    );
    assert_eq!(
        keyboard.key_emu_hybrid(0x41, false),
        Ok(KeyInput { scan: 0x1E, vk: 0, flags: KEYEVENTF_SCANCODE | KEYEVENTF_KEYUP })
    );
    assert_eq!(
        keyboard.key_emu_hybrid(0x30, true),
        Ok(KeyInput { scan: 0x0B, vk: 0, flags: 8 })
    );
}

#[test]
fn other_keys_are_sent_by_virtual_key() {
    let keyboard = Keyboard::new();
    assert_eq!(
        keyboard.key_emu_hybrid(0x70, true),
        Ok(KeyInput { scan: 0x3B, vk: VK_F1, flags: 0 })
    );
    assert_eq!(
        keyboard.key_emu_hybrid(0x70, false),
        Ok(KeyInput { scan: 0x3B, vk: 0x70, flags: KEYEVENTF_KEYUP })
    );
    assert_eq!(
        keyboard.key_emu_hybrid(0x26, true),
        Ok(KeyInput { scan: 0x48, vk: VK_UP, flags: KEYEVENTF_EXTENDEDKEY })
    );
    assert_eq!(
        keyboard.key_emu_hybrid(0x26, false),
        Ok(KeyInput { scan: 0x48, vk: 0x26, flags: 3 })
    );
    assert_eq!(
        keyboard.key_emu_hybrid(0x0A, true),
        Ok(KeyInput { scan: 0x1C, vk: VK_RETURN, flags: KEYEVENTF_EXTENDEDKEY })
    );
    assert_eq!(
        keyboard.key_emu_hybrid(0x2C, true),
        Ok(KeyInput { scan: 0x37, vk: VK_PRINT, flags: KEYEVENTF_EXTENDEDKEY })
    );
    assert_eq!(
        keyboard.key_emu_hybrid(0xAD, true),
        Ok(KeyInput { scan: 0, vk: VK_VOLUME_MUTE, flags: 0 })
    );
}

#[test]
fn virtual_keys_are_those_of_the_platform() {
    assert_eq!(VK_F1, 0x70);
    assert_eq!(VK_UP, 0x26);
    assert_eq!(VK_RETURN, 0x0D);
    assert_eq!(VK_PRINT, 0x2A);
    assert_eq!(VK_PAUSE, 0x13);
    assert_eq!(VK_VOLUME_MUTE, 0xAD);
    assert_eq!(EXT0, 0xE0);
    assert_eq!(EXT1, 0xE1);
}

#[test]
fn keys_outside_the_table_are_not_supported() {
    let keyboard = Keyboard::new();
    for vk in [0x00u8, 0x01, 0x07, 0x3A, 0x40, 0x5E, 0x6C, 0x7C, 0xFF] {
        assert_eq!(keyboard.entry(vk), None);
        assert_eq!(keyboard.key_emu_hybrid(vk, true), Err(KeyError::NotSupported(vk)));
        assert_eq!(keyboard.key_emu_hybrid(vk, false), Err(KeyError::NotSupported(vk)));
    }
}

#[test]
fn key_table_has_its_entries() {
    let keyboard = Keyboard::new();
    let mut entries = 0;
    for vk in 0..=255u8 {
        if keyboard.entry(vk).is_some() {
            entries += 1;
        }
    }
    assert_eq!(entries, 113);
    assert_eq!(keyboard.entry(0x5A), Some(WinKey(0x2C, 0, VK_LAYOUT_DEPENDENT)));
    assert_eq!(keyboard.entry(0x5B), Some(WinKey(0x5B, EXT0, 0x5B)));
    assert_eq!(keyboard.entry(0x60), Some(WinKey(0x52, 0, 0x60)));
    assert_eq!(keyboard.entry(0x13), Some(WinKey(0x1D, EXT1, VK_PAUSE)));
    assert_eq!(keyboard.entry(0xE2), Some(WinKey(0x56, 0, VK_LAYOUT_DEPENDENT)));
}

#[test]
fn pause_key_cannot_be_sent_by_scan_code() {
    let keyboard = Keyboard::new();
    assert_eq!(keyboard.key_emu_hybrid(0x13, true), Err(KeyError::InvalidExtendedScanCode));
    assert_eq!(keyboard.key_emu_hybrid(0x13, false), Err(KeyError::InvalidExtendedScanCode));
}

#[test]
fn layout_keys_take_the_virtual_key_of_the_layout() {
    let keyboard = Keyboard::new();
    assert_eq!(
        keyboard.key_down(0x59, 0x5A),
        Ok(Some(KeyInput { scan: 0x15, vk: 0x5A, flags: KEYEVENTF_EXTENDEDKEY }))
    );
    assert_eq!(
        keyboard.key_up(0x59, 0x5A),
        Ok(Some(KeyInput { scan: 0x15, vk: 0x5A, flags: KEYEVENTF_EXTENDEDKEY | KEYEVENTF_KEYUP }))
    );
    assert_eq!(
        keyboard.key_down(0x26, 0x99),
        Ok(Some(KeyInput { scan: 0x48, vk: VK_UP, flags: 0 }))
    );
    assert_eq!(
        keyboard.key_up(0x26, 0x99),
        Ok(Some(KeyInput { scan: 0x48, vk: VK_UP, flags: KEYEVENTF_KEYUP }))
    );
    assert_eq!(keyboard.key_down(0xFF, 0), Ok(None));
    assert_eq!(keyboard.key_up(0xFF, 0), Ok(None));
    assert_eq!(keyboard.key_down(0x01, 0), Err(KeyError::CouldNotSimulate));
    assert_eq!(
        key_to_layout_key(&WinKey(0x1D, EXT1, VK_PAUSE), 7),
        KeyInput { scan: 0x1D, vk: VK_PAUSE, flags: 0 }
    );
}

#[test]
fn layout_is_asked_with_the_prefix_in_the_high_byte() {
    assert_eq!(scan_to_vk(0x1E, 0), 0x001E);
    assert_eq!(scan_to_vk(0x48, EXT0), 0xE048);
    assert_eq!(scan_to_vk(0x1D, EXT1), 0xE11D);
    assert_eq!(scan_to_vk(0x0100, EXT0), 0xE100);
}

#[test]
fn windows_backend_names_the_buttons() {
    assert_eq!(WindowsImpl::convert_btn(Button::LEFT), BackendButton::Left);
    assert_eq!(WindowsImpl::convert_btn(Button::RIGHT), BackendButton::Right);
    assert_eq!(WindowsImpl::convert_btn(Button::MIDDLE), BackendButton::Middle);
    assert_eq!(WindowsImpl::convert_btn(Button::XBUTTON1), BackendButton::Back);
    assert_eq!(WindowsImpl::convert_btn(Button::XBUTTON2), BackendButton::Forward);
}

#[test]
fn windows_backend_turns_requests_into_input() {
    let mut backend = WindowsImpl::new();
    assert_eq!(
        backend.input_for(EmulatorCall::MouseMoveRel(7, -40)),
        Ok(WindowsInput::Mouse(mouse(MOUSEEVENTF_MOVE, 0, 5, -16)))
    );
    assert_eq!(
        backend.input_for(EmulatorCall::MouseMoveTo(100, 200)),
        Ok(WindowsInput::MoveTo(100, 200))
    );
    assert_eq!(
        backend.input_for(EmulatorCall::MouseDown(Button::XBUTTON1)),
        Ok(WindowsInput::Mouse(mouse(MOUSEEVENTF_XDOWN, 1, 0, 0)))
    );
    assert_eq!(
        backend.input_for(EmulatorCall::MouseUp(Button::RIGHT)),
        Ok(WindowsInput::Mouse(mouse(MOUSEEVENTF_RIGHTUP, 0, 0, 0)))
    );
    assert_eq!(
        backend.input_for(EmulatorCall::MouseWheel(Direction::SCROLL_DOWN, -120)),
        Ok(WindowsInput::Mouse(mouse(MOUSEEVENTF_WHEEL, -120, 0, 0)))
    );
    assert_eq!(
        backend.input_for(EmulatorCall::MouseWheel(Direction::SCROLL_RIGHT, 120)),
        Ok(WindowsInput::Mouse(mouse(MOUSEEVENTF_HWHEEL, 60, 0, 0)))
    );
    assert_eq!(
        backend.input_for(EmulatorCall::KeyDown(0x41)),
        Ok(WindowsInput::Key(KeyInput { scan: 0x1E, vk: 0, flags: KEYEVENTF_SCANCODE }))
    );
    assert_eq!(
        backend.input_for(EmulatorCall::KeyUp(0x70)),
        Ok(WindowsInput::Key(KeyInput { scan: 0x3B, vk: VK_F1, flags: KEYEVENTF_KEYUP }))
    );
}

#[test]
fn windows_backend_says_what_it_cannot_send() {
    let mut backend = WindowsImpl::new();
    for call in [
        EmulatorCall::KeyDown(256),
        EmulatorCall::KeyUp(u32::MAX),
        EmulatorCall::KeyDown(0x01),
        EmulatorCall::KeyUp(0x13),
    ] {
        assert_eq!(backend.input_for(call), Err(ProcessingError::UnableToProcess));
    }
    assert_eq!(
        backend.input_for(EmulatorCall::MouseMoveRel(i32::MIN, 0)),
        Err(ProcessingError::FailedToProcess)
    );
    assert_eq!(
        backend.input_for(EmulatorCall::MouseMoveRel(0, i32::MIN)),
        Err(ProcessingError::FailedToProcess)
    );
}

#[test]
fn mac_keys_have_their_codes() {
    assert_eq!(code_from_key(JKey::A), Some(0));
    assert_eq!(code_from_key(JKey::A), Some(KEY_A));
    assert_eq!(code_from_key(JKey::Return), Some(36));
    assert_eq!(code_from_key(JKey::Return), Some(RETURN));
    assert_eq!(code_from_key(JKey::NumLock), Some(KP_CLEAR));
    assert_eq!(code_from_key(JKey::BackQuote), Some(10));
    assert_eq!(code_from_key(JKey::IntlBackslash), Some(50));
    assert_eq!(code_from_key(JKey::KpDelete), Some(0x41));
    assert_eq!(code_from_key(JKey::UpArrow), Some(126));
    assert_eq!(code_from_key(JKey::PageDown), Some(121));
    for key in [
        JKey::PrintScreen,
        JKey::ScrollLock,
        JKey::Pause,
        JKey::Application,
        JKey::Unknown(0),
        JKey::Unknown(255),
    ] {
        assert_eq!(code_from_key(key), None);
    }
}

#[test]
fn linux_wheel_clicks_once_a_turn_is_worth_it() {
    let mut backend = LinuxImpl::new();
    assert_eq!(backend.mouse_wheel(Direction::SCROLL_UP, 30), (WheelButton::Up, 0));
    assert_eq!(backend.mouse_wheel(Direction::SCROLL_UP, 1), (WheelButton::Up, 1));
    // one is left
    assert_eq!(backend.mouse_wheel(Direction::SCROLL_UP, 29), (WheelButton::Up, 0));
    assert_eq!(backend.mouse_wheel(Direction::SCROLL_UP, 31), (WheelButton::Up, 2));
    // one is left again, and a turn back takes it
    assert_eq!(backend.mouse_wheel(Direction::SCROLL_DOWN, -1), (WheelButton::Down, 0));
    assert_eq!(backend.mouse_wheel(Direction::SCROLL_DOWN, -100), (WheelButton::Down, 3));
    // ten are left the other way
    assert_eq!(backend.mouse_wheel(Direction::SCROLL_DOWN, -21), (WheelButton::Down, 1));
}

#[test]
fn linux_wheel_keeps_the_two_directions_apart() {
    let mut backend = LinuxImpl::new();
    assert_eq!(backend.mouse_wheel(Direction::SCROLL_UP, 25), (WheelButton::Up, 0));
    assert_eq!(backend.mouse_wheel(Direction::SCROLL_RIGHT, 25), (WheelButton::Right, 0));
    assert_eq!(backend.mouse_wheel(Direction::SCROLL_LEFT, -60), (WheelButton::Left, 1));
    // five are left to the left
    assert_eq!(backend.mouse_wheel(Direction::SCROLL_RIGHT, 35), (WheelButton::Right, 0));
    assert_eq!(backend.mouse_wheel(Direction::SCROLL_RIGHT, 1), (WheelButton::Right, 1));
    assert_eq!(backend.mouse_wheel(Direction::SCROLL_DOWN, 6), (WheelButton::Up, 1));
}

#[test]
fn linux_wheel_takes_the_largest_turns() {
    let mut backend = LinuxImpl::new();
    assert_eq!(
        backend.mouse_wheel(Direction::SCROLL_UP, i32::MAX),
        (WheelButton::Up, 71_582_788)
    );
    // seven are left
    assert_eq!(
        backend.mouse_wheel(Direction::SCROLL_UP, i32::MIN),
        (WheelButton::Down, 71_582_788)
    );
    // one is left the other way
    assert_eq!(backend.mouse_wheel(Direction::SCROLL_UP, -30), (WheelButton::Down, 1));
    assert_eq!(backend.mouse_wheel(Direction::SCROLL_UP, 0), (WheelButton::Down, 0));
}
