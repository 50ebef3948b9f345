use jerry_client::configuration::{
    get_session_info_localhost, MonitorSize, ScreenResolution, SessionParams,
};
use jerry_client::proto_rs::proto_in::{
    Echo, Heartbeat, Keyboard, MasterMessage_oneof_action, MouseClick, MouseMove, MouseWheel,
    SessionBegin, SessionEnd,
};
use jerry_client::proto_rs::proto_out::{
    ClientInfo, ClientInfo_OS, ClientInfo_UUID, Failure, Position, SlaveMessage_oneof_response,
};
use jerry_client::proto_rs::{Clip_Format, Clipboard, ProtoInMsg, ProtoOutMsg};
use jerry_client::serialization::mapper::{slave_message, GetSlaveMessage};
use jerry_client::serialization::proto_factory::create_clipboard;
use jerry_client::serialization::proto_factory::request::{
    create_clipboard as create_request_clipboard, create_key, create_mouse_click,
    create_mouse_move, create_mouse_wheel, create_session_begin,
};
use jerry_client::serialization::proto_factory::response::{
    create_clipboard as create_response_clipboard, create_failure, create_init_info,
    create_position, get_os, HostInfo,
};
use jerry_client::serialization::{ListenAction, ListenEvent, ProtoSerDe};
use jerry_client::session::message_handler::ContextAwareMessageHandler;
use jerry_client::session::{
    Button, Direction, HandshakeResult, JerryMessage, JerryResponse, Request, State,
};
use jerry_client::DisplayMode;

fn all_messages() -> Vec<JerryMessage> {
    vec![
        JerryMessage::MouseMove(-5, 1200),
        JerryMessage::MouseMove(i32::MIN, i32::MAX),
        JerryMessage::Key(65, State::PRESSED),
        JerryMessage::Key(u32::MAX, State::RELEASED),
        JerryMessage::MouseClick(Button::LEFT, State::PRESSED),
        JerryMessage::MouseClick(Button::RIGHT, State::RELEASED),
        JerryMessage::MouseClick(Button::MIDDLE, State::PRESSED),
        JerryMessage::MouseClick(Button::XBUTTON1, State::RELEASED),
        JerryMessage::MouseClick(Button::XBUTTON2, State::PRESSED),
        JerryMessage::MouseWheel(Direction::SCROLL_UP, 120),
        JerryMessage::MouseWheel(Direction::SCROLL_DOWN, -120),
        JerryMessage::MouseWheel(Direction::SCROLL_LEFT, 1),
        JerryMessage::MouseWheel(Direction::SCROLL_RIGHT, 0),
        JerryMessage::SessionBegin { relative_move: true },
        JerryMessage::SessionBegin { relative_move: false },
        JerryMessage::SessionEnd,
        JerryMessage::Clipboard(String::from("text"), false),
        JerryMessage::Clipboard(String::from("/tmp/a"), true),
        JerryMessage::Clipboard(String::new(), false),
        JerryMessage::Request(Request::INIT_INFO),
        JerryMessage::Request(Request::CLIPBOARD),
        JerryMessage::Request(Request::MOUSE_POSITION),
        JerryMessage::Handshake(HandshakeResult::Success, String::from("welcome")),
        JerryMessage::Handshake(HandshakeResult::Rejection, String::from("bad password")),
        JerryMessage::Heartbeat,
    ]
}

fn host() -> HostInfo {
    HostInfo { cursor: (11, 22), display: (1920, 1080), system: ClientInfo_OS::LINUX }
}

fn params(monitor: ScreenResolution) -> SessionParams {
    SessionParams {
        client_name: String::from("desk"),
        client_guid: String::from("2f0c1a9e"),
        server_password: String::from("pass"),
        monitor,
        ip: [192, 168, 1, 66],
        port: 8888,
        display_mode: DisplayMode::Logging,
        emulate_events: true,
    }
}

#[test]
fn every_message_survives_the_wire() {
    for message in all_messages() {
        let wire = ProtoInMsg::from(message.clone());
        assert!(wire.action.is_some());
        assert_eq!(JerryMessage::from(wire), message);
    }
}

#[test]
fn message_without_action_is_a_heartbeat() {
    assert_eq!(JerryMessage::from(ProtoInMsg::new()), JerryMessage::Heartbeat);
    assert_eq!(JerryMessage::from(ProtoInMsg { action: None }), JerryMessage::Heartbeat);
}

#[test]
fn heartbeat_goes_out_one_way() {
    assert_eq!(
        ProtoInMsg::from(JerryMessage::Heartbeat).action,
        Some(MasterMessage_oneof_action::heartbeat(Heartbeat { one_way: true }))
    );
    let two_way = ProtoInMsg {
        action: Some(MasterMessage_oneof_action::heartbeat(Heartbeat { one_way: false })),
    };
    assert_eq!(JerryMessage::from(two_way), JerryMessage::Heartbeat);
}

#[test]
fn wire_actions_map_to_their_messages() {
    let cases = vec![
        (
            MasterMessage_oneof_action::mouse_position(MouseMove { X: 3, Y: -4 }),
            JerryMessage::MouseMove(3, -4),
        ),
        (
            MasterMessage_oneof_action::keyboard(Keyboard { key: 300, event_type: State::RELEASED }),
            JerryMessage::Key(300, State::RELEASED),
        ),
        (
            MasterMessage_oneof_action::mouse_click(MouseClick {
                button: Button::MIDDLE,
                event_type: State::PRESSED,
            }),
            JerryMessage::MouseClick(Button::MIDDLE, State::PRESSED),
        ),
        (
            MasterMessage_oneof_action::clipboard(Clipboard {
                format: Clip_Format::FILE,
                message: String::from("/tmp/a"),
            }),
            JerryMessage::Clipboard(String::from("/tmp/a"), true),
        ),
        (
            MasterMessage_oneof_action::clipboard(Clipboard {
                format: Clip_Format::TEXT,
                message: String::from("a"),
            }),
            JerryMessage::Clipboard(String::from("a"), false),
        ),
        (
            MasterMessage_oneof_action::mouse_wheel(MouseWheel {
                scroll_direction: Direction::SCROLL_LEFT,
                amount: 7,
            }),
            JerryMessage::MouseWheel(Direction::SCROLL_LEFT, 7),
        ),
        (
            MasterMessage_oneof_action::handshake(Echo {
                result: HandshakeResult::Rejection,
                message: String::from("no"),
            }),
            JerryMessage::Handshake(HandshakeResult::Rejection, String::from("no")),
        ),
        (
            MasterMessage_oneof_action::start_session(SessionBegin { mouse_move_relative: true }),
            JerryMessage::SessionBegin { relative_move: true },
        ),
        (MasterMessage_oneof_action::end_session(SessionEnd {}), JerryMessage::SessionEnd),
        (
            MasterMessage_oneof_action::request(Request::MOUSE_POSITION),
            JerryMessage::Request(Request::MOUSE_POSITION),
        ),
    ];
    for (action, message) in cases {
        assert_eq!(JerryMessage::from(ProtoInMsg { action: Some(action) }), message);
    }
}

#[test]
fn parts_of_a_wire_message_map_on_their_own() {
    assert_eq!(JerryMessage::from(MouseMove { X: 1, Y: 2 }), JerryMessage::MouseMove(1, 2));
    assert_eq!(
        JerryMessage::from(Keyboard { key: 9, event_type: State::PRESSED }),
        JerryMessage::Key(9, State::PRESSED)
    );
    assert_eq!(
        JerryMessage::from(Clipboard { format: Clip_Format::FILE, message: String::from("f") }),
        JerryMessage::Clipboard(String::from("f"), true)
    );
    assert_eq!(
        JerryMessage::from(MouseClick { button: Button::LEFT, event_type: State::RELEASED }),
        JerryMessage::MouseClick(Button::LEFT, State::RELEASED)
    );
    assert_eq!(
        JerryMessage::from(MouseWheel { scroll_direction: Direction::SCROLL_UP, amount: -1 }),
        JerryMessage::MouseWheel(Direction::SCROLL_UP, -1)
    );
    assert_eq!(
        JerryMessage::from(Echo { result: HandshakeResult::Success, message: String::from("ok") }),
        JerryMessage::Handshake(HandshakeResult::Success, String::from("ok"))
    );
    assert_eq!(
        JerryMessage::from(SessionBegin { mouse_move_relative: false }),
        JerryMessage::SessionBegin { relative_move: false }
    );
}

#[test]
fn builders_fill_in_what_they_are_given() {
    assert_eq!(create_mouse_move(3, -4), MouseMove { X: 3, Y: -4 });
    assert_eq!(
        create_mouse_click(Button::XBUTTON1, State::RELEASED),
        MouseClick { button: Button::XBUTTON1, event_type: State::RELEASED }
    );
    assert_eq!(
        create_mouse_wheel(Direction::SCROLL_RIGHT, 240),
        MouseWheel { scroll_direction: Direction::SCROLL_RIGHT, amount: 240 }
    );
    assert_eq!(create_key(27, State::PRESSED), Keyboard { key: 27, event_type: State::PRESSED });
    assert_eq!(create_session_begin(true), SessionBegin { mouse_move_relative: true });
    assert_eq!(create_position(5, 6), Position { x: 5, y: 6 });
    assert_eq!(create_failure(String::from("why")), Failure { Reason: String::from("why") });
}

#[test]
fn clipboard_is_text_unless_it_is_a_file_list() {
    let text = Clipboard { format: Clip_Format::TEXT, message: String::from("a") };
    let files = Clipboard { format: Clip_Format::FILE, message: String::from("a") };
    assert_eq!(create_clipboard(String::from("a"), false), text);
    assert_eq!(create_clipboard(String::from("a"), true), files);
    assert_eq!(create_request_clipboard(String::from("a"), false), text);
    assert_eq!(create_request_clipboard(String::from("a"), true), files);
    assert_eq!(create_response_clipboard(String::from("a"), false), text);
    assert_eq!(create_response_clipboard(String::from("a"), true), files);
    assert_eq!(Clipboard::new(), Clipboard { format: Clip_Format::TEXT, message: String::new() });
}

#[test]
fn fixed_monitor_is_reported_with_the_pointer_at_its_centre() {
    let monitor = ScreenResolution::Static(MonitorSize { width: 801, height: 601 });
    let info = create_init_info(params(monitor), host());
    assert_eq!(
        info,
        ClientInfo {
            Width: 801,
            Height: 601,
            Cursor: Position { x: 400, y: 300 },
            Password: String::from("pass"),
            Guid: ClientInfo_UUID { value: String::from("2f0c1a9e") },
            Name: String::from("desk"),
            System: ClientInfo_OS::LINUX,
        }
    );
    let largest = ScreenResolution::Static(MonitorSize { width: u16::MAX, height: u16::MAX });
    let info = create_init_info(params(largest), host());
    assert_eq!((info.Width, info.Height), (65535, 65535));
    assert_eq!(info.Cursor, Position { x: 32767, y: 32767 });
}

#[test]
fn dynamic_monitor_is_reported_as_the_host_found_it() {
    let info = create_init_info(params(ScreenResolution::Dynamic), host());
    assert_eq!((info.Width, info.Height), (1920, 1080));
    assert_eq!(info.Cursor, Position { x: 11, y: 22 });
    assert_eq!(info.System, ClientInfo_OS::LINUX);
}

#[test]
fn operating_system_follows_the_build() {
    assert_eq!(get_os(true, false), ClientInfo_OS::WINDOWS);
    assert_eq!(get_os(true, true), ClientInfo_OS::WINDOWS);
    assert_eq!(get_os(false, true), ClientInfo_OS::MAC);
    assert_eq!(get_os(false, false), ClientInfo_OS::LINUX);
}

#[test]
fn answers_go_on_the_wire_as_their_own_kind() {
    assert_eq!(
        slave_message(JerryResponse::Cursor(1, 2), host()).response,
        Some(SlaveMessage_oneof_response::cursor(Position { x: 1, y: 2 }))
    );
    assert_eq!(
        slave_message(JerryResponse::Clipboard(String::from("t"), false), host()).response,
        Some(SlaveMessage_oneof_response::clipboard_session(Clipboard {
            format: Clip_Format::TEXT,
            message: String::from("t"),
        }))
    );
    assert_eq!(
        slave_message(JerryResponse::NoResponse(String::new()), host()).response,
        Some(SlaveMessage_oneof_response::no_response(Failure { Reason: String::new() }))
    );
    let monitor = ScreenResolution::Static(MonitorSize { width: 800, height: 600 });
    assert_eq!(
        slave_message(JerryResponse::InitInfo(params(monitor)), host()).response,
        Some(SlaveMessage_oneof_response::init_info(create_init_info(params(monitor), host())))
    );
}

#[test]
fn parts_of_an_answer_can_be_sent_on_their_own() {
    let position = Position { x: 1, y: 2 };
    let clip = Clipboard { format: Clip_Format::TEXT, message: String::from("t") };
    let info = create_init_info(params(ScreenResolution::Dynamic), host());
    let failure = Failure { Reason: String::from("r") };
    assert_eq!(
        position.into_response().response,
        Some(SlaveMessage_oneof_response::cursor(position))
    );
    assert_eq!(
        clip.clone().into_response().response,
        Some(SlaveMessage_oneof_response::clipboard_session(clip.clone()))
    );
    assert_eq!(
        create_init_info(params(ScreenResolution::Dynamic), host()).into_response().response,
        Some(SlaveMessage_oneof_response::init_info(info))
    );
    assert_eq!(
        ProtoOutMsg::from(position).response,
        Some(SlaveMessage_oneof_response::cursor(position))
    );
    assert_eq!(
        ProtoOutMsg::from(clip.clone()).response,
        Some(SlaveMessage_oneof_response::clipboard_session(clip))
    );
    assert_eq!(
        ProtoOutMsg::from(create_init_info(params(ScreenResolution::Dynamic), host())).response,
        Some(SlaveMessage_oneof_response::init_info(create_init_info(
            params(ScreenResolution::Dynamic),
            host()
        )))
    );
    assert_eq!(
        ProtoOutMsg::from(failure).response,
        Some(SlaveMessage_oneof_response::no_response(Failure { Reason: String::from("r") }))
    );
    assert_eq!(ProtoOutMsg::new().response, None);
}

#[test]
fn localhost_session_points_at_this_machine() {
    let info = get_session_info_localhost(
        String::from("Test"),
        String::from("guid"),
        String::from("2002"),
        8888,
        1024,
        768,
    );
    assert_eq!(
        info,
        SessionParams {
            client_name: String::from("Test"),
            client_guid: String::from("guid"),
            server_password: String::from("2002"),
            monitor: ScreenResolution::Static(MonitorSize { width: 1024, height: 768 }),
            ip: [127, 0, 0, 1],
            port: 8888,
            display_mode: DisplayMode::CurrentState,
            emulate_events: false,
        }
    );
}

#[test]
fn display_mode_follows_the_switch() {
    assert_eq!(DisplayMode::from_visualize(true), DisplayMode::CurrentState);
    assert_eq!(DisplayMode::from_visualize(false), DisplayMode::Logging);
}

fn consumer() -> ContextAwareMessageHandler {
    ContextAwareMessageHandler::new(params(ScreenResolution::Dynamic), (0, 0), 0)
}

#[test]
fn listen_loop_reads_until_the_consumer_has_finished() {
    let listener = ProtoSerDe::new(host());
    let mut handler = consumer();
    assert_eq!(listener.listen_loop(&handler, ListenEvent::Started), ListenAction::Read);
    assert_eq!(listener.listen_loop(&handler, ListenEvent::Consumed(None)), ListenAction::Read);
    assert_eq!(listener.listen_loop(&handler, ListenEvent::Written(Ok(()))), ListenAction::Read);
    handler.channel_lost();
    assert_eq!(
        listener.listen_loop(&handler, ListenEvent::Started),
        ListenAction::Finish(Ok(()))
    );
    assert_eq!(
        listener.listen_loop(&handler, ListenEvent::Consumed(None)),
        ListenAction::Finish(Ok(()))
    );
    assert_eq!(
        listener.listen_loop(&handler, ListenEvent::Written(Ok(()))),
        ListenAction::Finish(Ok(()))
    );
}

#[test]
fn listen_loop_hands_each_decoded_message_to_the_consumer() {
    let listener = ProtoSerDe::new(host());
    let handler = consumer();
    for message in all_messages() {
        let wire = ProtoInMsg::from(message.clone());
        assert_eq!(
            listener.listen_loop(&handler, ListenEvent::Decoded(Ok(wire))),
            ListenAction::Consume(message)
        );
    }
    assert_eq!(
        listener.listen_loop(&handler, ListenEvent::Decoded(Ok(ProtoInMsg::new()))),
        ListenAction::Consume(JerryMessage::Heartbeat)
    );
}

#[test]
fn listen_loop_writes_each_answer() {
    let listener = ProtoSerDe::new(host());
    let mut handler = consumer();
    handler.channel_lost();
    // an answer is written even when the consumer has finished meanwhile
    assert_eq!(
        listener.listen_loop(&handler, ListenEvent::Consumed(Some(JerryResponse::Cursor(3, 4)))),
        ListenAction::Write(slave_message(JerryResponse::Cursor(3, 4), host()))
    );
}

#[test]
fn listen_loop_ends_with_the_error_of_the_stream() {
    let listener = ProtoSerDe::new(host());
    let handler = consumer();
    assert_eq!(
        listener.listen_loop(&handler, ListenEvent::Decoded(Err(String::from("WireError(Eof)")))),
        ListenAction::Finish(Err(String::from("Read message error: WireError(Eof)")))
    );
    assert_eq!(
        listener.listen_loop(&handler, ListenEvent::Written(Err(String::from("broken pipe")))),
        ListenAction::Finish(Err(String::from("Write message error: broken pipe")))
    );
}
