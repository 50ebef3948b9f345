use jerry_client::connection::ConnectionState;
use jerry_client::session::{Button, Direction, HandshakeResult, JerryMessage, Request, State};
use jerry_client::state::log::{Level, LogRecord, Subject, View, ViewStep};
use jerry_client::state::ui::{
    Color, Frame, Heart, UiStep, WindowState, HEART_BEATS, LOWEST_TERMINAL, NARROWEST_TERMINAL,
    PAUSE_AFTER_CONNECTION_RESULT, TICK_INTERVAL_MILLIS,
};
use jerry_client::state::{Command, Coord};

fn record(level: Level, subject: Subject) -> LogRecord {
    LogRecord { level, subject }
}

const LARGE: Option<(u16, u16)> = Some((120, 40));

fn window() -> WindowState {
    WindowState::new(Coord { x: 800, y: 600 })
}

fn show(window: &mut WindowState, msg: JerryMessage) {
    let step = window.run(Some(Command::Message(msg)), LARGE);
    assert_eq!(step, UiStep { frame: Frame::Nothing, stop: false });
}

#[test]
fn messages_are_logged_at_their_levels() {
    let view = View::new();
    assert_eq!(
        view.process(JerryMessage::MouseMove(1, 2), false),
        vec![record(Level::Trace, Subject::MouseMove(1, 2))]
    );
    for corrective in [false, true] {
        assert_eq!(
            view.process(JerryMessage::Key(65, State::RELEASED), corrective),
            vec![record(
                Level::Debug,
                Subject::Key { code: 65, state: State::RELEASED, corrective }
            )]
        );
    }
    assert_eq!(
        view.process(JerryMessage::MouseClick(Button::LEFT, State::PRESSED), false),
        vec![record(
            Level::Trace,
            Subject::MouseButton { button: Button::LEFT, state: State::PRESSED, corrective: false }
        )]
    );
    assert_eq!(
        view.process(JerryMessage::MouseClick(Button::LEFT, State::RELEASED), true),
        vec![record(
            Level::Debug,
            Subject::MouseButton { button: Button::LEFT, state: State::RELEASED, corrective: true }
        )]
    );
    assert_eq!(
        view.process(JerryMessage::MouseWheel(Direction::SCROLL_UP, 3), false),
        vec![record(Level::Trace, Subject::MouseWheel(Direction::SCROLL_UP, 3))]
    );
    assert_eq!(
        view.process(JerryMessage::SessionBegin { relative_move: true }, false),
        vec![record(Level::Info, Subject::Activated { relative_move: true })]
    );
    assert_eq!(
        view.process(JerryMessage::SessionEnd, false),
        vec![record(Level::Info, Subject::Deactivated)]
    );
    assert_eq!(
        view.process(JerryMessage::Request(Request::CLIPBOARD), false),
        vec![record(Level::Debug, Subject::Request(Request::CLIPBOARD))]
    );
    assert_eq!(view.process(JerryMessage::Heartbeat, false), Vec::new());
}

#[test]
fn clipboard_is_logged_with_its_text_and_its_length() {
    let view = View::new();
    assert_eq!(
        view.process(JerryMessage::Clipboard(String::from("text"), false), false),
        vec![
            record(Level::Debug, Subject::ClipboardContent(String::from("text"))),
            record(Level::Info, Subject::ClipboardLength(String::from("text"))),
        ]
    );
}

#[test]
fn verdict_with_a_message_is_a_warning() {
    let view = View::new();
    assert_eq!(
        view.process(JerryMessage::Handshake(HandshakeResult::Success, String::new()), false),
        vec![record(Level::Info, Subject::Handshake(HandshakeResult::Success, String::new()))]
    );
    assert_eq!(
        view.process(
            JerryMessage::Handshake(HandshakeResult::Rejection, String::from("no")),
            false
        ),
        vec![record(
            Level::Warn,
            Subject::Handshake(HandshakeResult::Rejection, String::from("no"))
        )]
    );
}

#[test]
fn connection_states_are_logged_at_their_levels() {
    let view = View::new();
    let why = || String::from("why");
    let cases = vec![
        (ConnectionState::Unconnected, Level::Info),
        (ConnectionState::Establishing, Level::Info),
        (ConnectionState::Connected, Level::Info),
        (ConnectionState::ConnectedSecured, Level::Info),
        (ConnectionState::HandshakeSuccess(why()), Level::Info),
        (ConnectionState::ConnectionError(why()), Level::Info),
        (ConnectionState::KeyExchangeFailed(why()), Level::Error),
        (ConnectionState::HandshakeFailed(why()), Level::Error),
        (ConnectionState::ReadError(why()), Level::Warn),
    ];
    for (state, level) in cases {
        assert_eq!(view.log(state.clone()), record(level, Subject::Connection(state)));
    }
}

#[test]
fn logging_view_ends_when_it_is_told_to() {
    let mut view = View::new();
    assert_eq!(view.run(Some(Command::Draw)), ViewStep { records: Vec::new(), stop: false });
    assert_eq!(
        view.run(Some(Command::Message(JerryMessage::SessionEnd))),
        ViewStep { records: vec![record(Level::Info, Subject::Deactivated)], stop: false }
    );
    assert_eq!(
        view.run(Some(Command::MessageCorrective(JerryMessage::Key(1, State::RELEASED)))),
        ViewStep {
            records: vec![record(
                Level::Debug,
                Subject::Key { code: 1, state: State::RELEASED, corrective: true }
            )],
            stop: false
        }
    );
    assert_eq!(
        view.run(Some(Command::ConnectionResult(ConnectionState::Connected))),
        ViewStep {
            records: vec![record(Level::Info, Subject::Connection(ConnectionState::Connected))],
            stop: false
        }
    );
    assert_eq!(
        view.run(Some(Command::ExitWithError(String::from("bad")))),
        ViewStep {
            records: vec![record(Level::Error, Subject::ExitWithError(String::from("bad")))],
            stop: true
        }
    );
    assert_eq!(
        view.run(Some(Command::Halt)),
        ViewStep { records: vec![record(Level::Info, Subject::Exit)], stop: true }
    );
    assert_eq!(
        view.run(None),
        ViewStep { records: vec![record(Level::Debug, Subject::SenderGone)], stop: true }
    );
}

#[test]
fn display_settings_are_the_documented_ones() {
    assert_eq!(TICK_INTERVAL_MILLIS, 50);
    assert_eq!(PAUSE_AFTER_CONNECTION_RESULT, 10);
    assert_eq!(NARROWEST_TERMINAL, 80);
    assert_eq!(LOWEST_TERMINAL, 16);
    assert_eq!(HEART_BEATS, 3);
}

#[test]
fn new_display_shows_nothing() {
    let window = window();
    assert_eq!(window.mon_size, Coord { x: 800, y: 600 });
    assert_eq!(window.cursor, Coord { x: 0, y: 0 });
    assert_eq!(window.connection_state(), &ConnectionState::Unconnected);
    assert_eq!(window.keys(), &Vec::<u32>::new());
    assert_eq!(window.wheel(), ' ');
    assert_eq!(window.mouse_btn(), 0);
    assert!(!window.active());
    assert_eq!(window.get_color(), Color::DarkGray);
}

#[test]
fn pointer_is_shown_where_the_message_says() {
    let mut window = window();
    show(&mut window, JerryMessage::MouseMove(10, -20));
    assert_eq!(window.cursor, Coord { x: 10, y: -20 });
    show(&mut window, JerryMessage::SessionBegin { relative_move: true });
    assert!(window.active());
    show(&mut window, JerryMessage::MouseMove(10, -20));
    assert_eq!(window.cursor, Coord { x: 410, y: 280 });
    show(&mut window, JerryMessage::MouseMove(i32::MAX, i32::MIN));
    assert_eq!(window.cursor, Coord { x: i32::MIN + 399, y: i32::MIN + 300 });
    let mut odd = WindowState::new(Coord { x: -801, y: 601 });
    odd.process(JerryMessage::SessionBegin { relative_move: true });
    odd.process(JerryMessage::MouseMove(0, 0));
    assert_eq!(odd.cursor, Coord { x: -400, y: 300 });
}

#[test]
fn keys_are_shown_once_in_the_order_they_went_down() {
    let mut window = window();
    for code in [30u32, 10, 30, 20, 10] {
        show(&mut window, JerryMessage::Key(code, State::PRESSED));
    }
    assert_eq!(window.keys(), &vec![30, 10, 20]);
    show(&mut window, JerryMessage::Key(10, State::RELEASED));
    assert_eq!(window.keys(), &vec![30, 20]);
    show(&mut window, JerryMessage::Key(10, State::RELEASED));
    show(&mut window, JerryMessage::Key(99, State::RELEASED));
    assert_eq!(window.keys(), &vec![30, 20]);
    let step = window.run(
        Some(Command::MessageCorrective(JerryMessage::Key(30, State::RELEASED))),
        LARGE,
    );
    assert_eq!(step, UiStep { frame: Frame::Nothing, stop: false });
    assert_eq!(window.keys(), &vec![20]);
}

#[test]
fn buttons_are_counted() {
    let mut window = window();
    show(&mut window, JerryMessage::MouseClick(Button::LEFT, State::RELEASED));
    assert_eq!(window.mouse_btn(), -1);
    for _ in 0..3 {
        show(&mut window, JerryMessage::MouseClick(Button::RIGHT, State::PRESSED));
    }
    assert_eq!(window.mouse_btn(), 2);
}

#[test]
fn wheel_leaves_its_mark() {
    let mut window = window();
    for (dir, mark) in [
        (Direction::SCROLL_UP, '^'),
        (Direction::SCROLL_DOWN, 'v'),
        (Direction::SCROLL_LEFT, '<'),
        (Direction::SCROLL_RIGHT, '>'),
    ] {
        show(&mut window, JerryMessage::MouseWheel(dir, 5));
        assert_eq!(window.wheel(), mark);
    }
}

#[test]
fn colour_follows_session_and_connection() {
    let mut window = window();
    window.run(
        Some(Command::ConnectionResult(ConnectionState::HandshakeSuccess(String::new()))),
        LARGE,
    );
    assert_eq!(window.get_color(), Color::LightBlue);
    window.run(Some(Command::ConnectionResult(ConnectionState::ReadError(String::new()))), LARGE);
    assert_eq!(window.get_color(), Color::Red);
    window.run(Some(Command::ConnectionResult(ConnectionState::Connected)), LARGE);
    assert_eq!(window.get_color(), Color::DarkGray);
    assert_eq!(window.connection_state(), &ConnectionState::Connected);
    window.process(JerryMessage::SessionBegin { relative_move: false });
    assert_eq!(window.get_color(), Color::Green);
    window.process(JerryMessage::SessionEnd);
    assert_eq!(window.get_color(), Color::DarkGray);
}

#[test]
fn heart_beats_after_a_heartbeat() {
    let mut window = window();
    let draw = |window: &mut WindowState| window.run(Some(Command::Draw), LARGE).frame;
    assert_eq!(draw(&mut window), Frame::Screen(Color::DarkGray, Heart::Resting));
    show(&mut window, JerryMessage::Heartbeat);
    assert_eq!(draw(&mut window), Frame::Screen(Color::DarkGray, Heart::Beating));
    assert_eq!(draw(&mut window), Frame::Screen(Color::DarkGray, Heart::Skipping));
    assert_eq!(draw(&mut window), Frame::Screen(Color::DarkGray, Heart::Beating));
    assert_eq!(draw(&mut window), Frame::Screen(Color::DarkGray, Heart::Resting));
}

#[test]
fn connection_result_is_drawn_at_once_and_then_left_to_be_read() {
    let mut window = window();
    let step = window.run(Some(Command::ConnectionResult(ConnectionState::Connected)), LARGE);
    assert_eq!(
        step,
        UiStep { frame: Frame::Screen(Color::DarkGray, Heart::Resting), stop: false }
    );
    for _ in 0..10 {
        assert_eq!(window.run(Some(Command::Draw), LARGE).frame, Frame::Nothing);
    }
    assert_eq!(
        window.run(Some(Command::Draw), LARGE).frame,
        Frame::Screen(Color::DarkGray, Heart::Resting)
    );
}

#[test]
fn small_terminal_gets_the_notice_only() {
    let mut window = window();
    show(&mut window, JerryMessage::Heartbeat);
    for size in [(79u16, 16u16), (80, 15), (0, 0)] {
        assert_eq!(window.render(Some(size)), Frame::TooSmall);
    }
    assert_eq!(window.render(None), Frame::Nothing);
    // the heart did not beat meanwhile
    assert_eq!(window.render(Some((80, 16))), Frame::Screen(Color::DarkGray, Heart::Beating));
}

#[test]
fn display_ends_when_it_is_told_to() {
    for last in [Some(Command::Halt), Some(Command::ExitWithError(String::from("bad"))), None] {
        let mut window = window();
        assert_eq!(window.run(last, LARGE), UiStep { frame: Frame::Nothing, stop: true });
    }
}
