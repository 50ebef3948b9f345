use jerry_client::configuration::{ScreenResolution, SessionParams};
use jerry_client::connection::conn::{ConnectStep, ErrorKind};
use jerry_client::connection::{
    abort_on_connection_aborted, ConnectionState, ConnectionWorker, WorkerAction, WorkerEvent,
    WorkerPhase, CONNECT_TIMEOUT_SECONDS, CYCLE_WAIT_SECONDS, HEARTBEAT_TIMEOUT_MILLIS,
    RECONNECTION_INTERVAL_SECONDS,
};
use jerry_client::security::{transport_pair, ChaChaKey, Decryptor, Encryptor};
use jerry_client::session::message_handler::ClientState;
use jerry_client::DisplayMode;

fn worker() -> ConnectionWorker {
    ConnectionWorker::new(SessionParams {
        client_name: String::from("desk"),
        client_guid: String::from("2f0c1a9e"),
        server_password: String::from("pass"),
        monitor: ScreenResolution::Dynamic,
        ip: [192, 168, 1, 66],
        port: 9000,
        display_mode: DisplayMode::Logging,
        emulate_events: true,
    })
}

/// The context that what comes in is read with.
fn master() -> ChaChaKey {
    ChaChaKey { key: [0x11; 32], nonce: [0x21; 12] }
}

/// The context that what goes out is written with.
fn slave() -> ChaChaKey {
    ChaChaKey { key: [0x12; 32], nonce: [0x22; 12] }
}

fn agreed() -> WorkerEvent {
    WorkerEvent::KeysExchanged(Some((master(), slave())))
}

fn published(state: ConnectionState) -> WorkerAction {
    WorkerAction::Publish(state)
}

/// Takes a worker that has just begun a cycle as far as the listen loop.
fn connect(worker: &mut ConnectionWorker, first: bool) {
    if first {
        assert_eq!(
            worker.loop_connection_read(WorkerEvent::Published(true)),
            WorkerAction::Connect
        );
    } else {
        assert_eq!(worker.loop_connection_read(WorkerEvent::Published(true)), WorkerAction::Wait);
        assert_eq!(worker.loop_connection_read(WorkerEvent::Waited), WorkerAction::Connect);
    }
    assert_eq!(
        worker.loop_connection_read(WorkerEvent::Connected(Ok(()))),
        WorkerAction::Configure
    );
    assert_eq!(
        worker.loop_connection_read(WorkerEvent::Configured(Ok(()))),
        published(ConnectionState::Connected)
    );
    assert_eq!(
        worker.loop_connection_read(WorkerEvent::Published(true)),
        WorkerAction::ExchangeKeys
    );
    assert_eq!(worker.loop_connection_read(agreed()), WorkerAction::SplitStream);
    assert_eq!(
        worker.loop_connection_read(WorkerEvent::StreamSplit(true)),
        published(ConnectionState::ConnectedSecured)
    );
    assert_eq!(
        worker.loop_connection_read(WorkerEvent::Published(true)),
        WorkerAction::Listen(Decryptor::new(master()), Encryptor::new(slave()))
    );
    assert_eq!(worker.phase(), WorkerPhase::Listening);
}

#[test]
fn worker_settings_are_the_documented_ones() {
    assert_eq!(CYCLE_WAIT_SECONDS, 1);
    assert_eq!(RECONNECTION_INTERVAL_SECONDS, 1);
    assert_eq!(CONNECT_TIMEOUT_SECONDS, 5);
    assert_eq!(HEARTBEAT_TIMEOUT_MILLIS, 2_500);
}

#[test]
fn worker_transport_retries_every_second_for_five() {
    let transport = worker().transport(abort_on_connection_aborted);
    assert_eq!(transport.address(), ([192, 168, 1, 66], 9000));
    assert_eq!(transport.connect(), ConnectStep::Attempt { timeout: Some(5) });
    assert_eq!(
        transport.after_failure(ErrorKind::ConnectionRefused),
        ConnectStep::Rest { seconds: 1 }
    );
    assert_eq!(
        transport.after_failure(ErrorKind::ConnectionAborted),
        ConnectStep::FailWith(ErrorKind::ConnectionAborted)
    );
}

#[test]
fn worker_hands_out_a_fresh_handler() {
    let handler = worker().message_handler((3, 4), 77);
    assert_eq!(handler.state(), ClientState::Fresh);
    assert!(!handler.finished());
}

#[test]
fn first_cycle_goes_straight_through() {
    let mut worker = worker();
    assert_eq!(worker.phase(), WorkerPhase::Ready);
    assert_eq!(worker.run(), published(ConnectionState::Establishing));
    connect(&mut worker, true);
}

#[test]
fn listen_loop_gets_the_cipher_with_each_context_on_its_side() {
    let plain = b"sixteen byte msg and some more".to_vec();
    let mut worker = worker();
    worker.run();
    worker.loop_connection_read(WorkerEvent::Published(true));
    worker.loop_connection_read(WorkerEvent::Connected(Ok(())));
    worker.loop_connection_read(WorkerEvent::Configured(Ok(())));
    worker.loop_connection_read(WorkerEvent::Published(true));
    worker.loop_connection_read(agreed());
    worker.loop_connection_read(WorkerEvent::StreamSplit(true));
    let (mut reader, mut writer) = match worker.loop_connection_read(WorkerEvent::Published(true))
    {
        WorkerAction::Listen(reader, writer) => (reader, writer),
        other => panic!("the worker asked for {:?}", other),
    };

    // what goes out is sealed with the outbound context, from its start
    let sent = writer.write(&plain).unwrap();
    assert_ne!(sent, plain);
    assert_eq!(sent, Encryptor::new(slave()).write(&plain).unwrap());
    assert_ne!(sent, Encryptor::new(master()).write(&plain).unwrap());
    assert_eq!(Decryptor::new(slave()).read(&sent).unwrap(), plain);

    // what comes in is opened with the inbound context, from its start
    let received = Encryptor::new(master()).write(&plain).unwrap();
    assert_eq!(reader.read(&received).unwrap(), plain);
    assert_ne!(Decryptor::new(slave()).read(&received).unwrap(), plain);
}

#[test]
fn every_connection_gets_the_contexts_of_its_own_key_agreement() {
    let mut worker = worker();
    worker.run();
    connect(&mut worker, true);
    worker.loop_connection_read(WorkerEvent::Listened(Ok(())));
    worker.loop_connection_read(WorkerEvent::Published(true));
    worker.loop_connection_read(WorkerEvent::Waited);
    worker.loop_connection_read(WorkerEvent::Connected(Ok(())));
    worker.loop_connection_read(WorkerEvent::Configured(Ok(())));
    worker.loop_connection_read(WorkerEvent::Published(true));
    let inbound = ChaChaKey { key: [0x31; 32], nonce: [0x41; 12] };
    let outbound = ChaChaKey { key: [0x32; 32], nonce: [0x42; 12] };
    worker.loop_connection_read(WorkerEvent::KeysExchanged(Some((inbound, outbound))));
    worker.loop_connection_read(WorkerEvent::StreamSplit(true));
    assert_eq!(
        worker.loop_connection_read(WorkerEvent::Published(true)),
        WorkerAction::Listen(Decryptor::new(inbound), Encryptor::new(outbound))
    );
}

#[test]
fn transport_pair_reads_with_the_first_context_and_writes_with_the_second() {
    let (mut reader, mut writer) = transport_pair((master(), slave()));
    let plain = vec![7u8; 100];
    assert_eq!(writer.write(&plain).unwrap(), Encryptor::new(slave()).write(&plain).unwrap());
    let received = Encryptor::new(master()).write(&plain).unwrap();
    assert_eq!(reader.read(&received).unwrap(), plain);
    assert_eq!(transport_pair((master(), slave())), (Decryptor::new(master()), Encryptor::new(slave())));
}

#[test]
fn later_cycles_wait_before_they_connect() {
    let mut worker = worker();
    worker.run();
    connect(&mut worker, true);
    assert_eq!(
        worker.loop_connection_read(WorkerEvent::Listened(Ok(()))),
        published(ConnectionState::Establishing)
    );
    connect(&mut worker, false);
    assert_eq!(
        worker.loop_connection_read(WorkerEvent::Listened(Err(String::from("Read message error: x")))),
        published(ConnectionState::ReadError(String::from("Read message error: x")))
    );
    assert_eq!(
        worker.loop_connection_read(WorkerEvent::Published(true)),
        published(ConnectionState::Establishing)
    );
    connect(&mut worker, false);
}

#[test]
fn failure_to_connect_is_published_and_retried() {
    let mut worker = worker();
    worker.run();
    assert_eq!(worker.loop_connection_read(WorkerEvent::Published(true)), WorkerAction::Connect);
    assert_eq!(
        worker.loop_connection_read(WorkerEvent::Connected(Err(String::from("refused")))),
        published(ConnectionState::ConnectionError(String::from("refused")))
    );
    assert_eq!(
        worker.loop_connection_read(WorkerEvent::Published(true)),
        published(ConnectionState::Establishing)
    );
    // the first cycle did try to connect, so this one waits
    assert_eq!(worker.loop_connection_read(WorkerEvent::Published(true)), WorkerAction::Wait);
}

#[test]
fn read_timeout_that_cannot_be_set_ends_the_worker() {
    for delivered in [true, false] {
        let mut worker = worker();
        worker.run();
        worker.loop_connection_read(WorkerEvent::Published(true));
        worker.loop_connection_read(WorkerEvent::Connected(Ok(())));
        assert_eq!(
            worker.loop_connection_read(WorkerEvent::Configured(Err(String::from("no socket")))),
            published(ConnectionState::ConnectionError(String::from("no socket")))
        );
        assert_eq!(
            worker.loop_connection_read(WorkerEvent::Published(delivered)),
            WorkerAction::Halt
        );
        assert_eq!(worker.loop_connection_read(WorkerEvent::Published(true)), WorkerAction::Done);
        assert_eq!(worker.phase(), WorkerPhase::Stopped);
    }
}

#[test]
fn failed_key_exchange_ends_the_worker() {
    for delivered in [true, false] {
        let mut worker = worker();
        worker.run();
        worker.loop_connection_read(WorkerEvent::Published(true));
        worker.loop_connection_read(WorkerEvent::Connected(Ok(())));
        worker.loop_connection_read(WorkerEvent::Configured(Ok(())));
        worker.loop_connection_read(WorkerEvent::Published(true));
        assert_eq!(
            worker.loop_connection_read(WorkerEvent::KeysExchanged(None)),
            published(ConnectionState::KeyExchangeFailed(String::new()))
        );
        assert_eq!(
            worker.loop_connection_read(WorkerEvent::Published(delivered)),
            WorkerAction::Halt
        );
        assert_eq!(worker.loop_connection_read(WorkerEvent::Waited), WorkerAction::Done);
        assert_eq!(worker.loop_connection_read(WorkerEvent::Waited), WorkerAction::Done);
    }
}

#[test]
fn socket_that_cannot_be_split_starts_a_new_cycle() {
    let mut worker = worker();
    worker.run();
    worker.loop_connection_read(WorkerEvent::Published(true));
    worker.loop_connection_read(WorkerEvent::Connected(Ok(())));
    worker.loop_connection_read(WorkerEvent::Configured(Ok(())));
    worker.loop_connection_read(WorkerEvent::Published(true));
    worker.loop_connection_read(agreed());
    assert_eq!(
        worker.loop_connection_read(WorkerEvent::StreamSplit(false)),
        published(ConnectionState::Establishing)
    );
}

#[test]
fn state_that_nobody_receives_ends_the_worker() {
    // at the start of a cycle
    let mut at_start = worker();
    at_start.run();
    assert_eq!(at_start.loop_connection_read(WorkerEvent::Published(false)), WorkerAction::Halt);

    // after a failure to connect
    let mut after_failure = worker();
    after_failure.run();
    after_failure.loop_connection_read(WorkerEvent::Published(true));
    after_failure.loop_connection_read(WorkerEvent::Connected(Err(String::from("refused"))));
    assert_eq!(
        after_failure.loop_connection_read(WorkerEvent::Published(false)),
        WorkerAction::Halt
    );

    // once connected
    let mut connected = worker();
    connected.run();
    connected.loop_connection_read(WorkerEvent::Published(true));
    connected.loop_connection_read(WorkerEvent::Connected(Ok(())));
    connected.loop_connection_read(WorkerEvent::Configured(Ok(())));
    assert_eq!(connected.loop_connection_read(WorkerEvent::Published(false)), WorkerAction::Halt);

    // once secured
    let mut secured = worker();
    secured.run();
    secured.loop_connection_read(WorkerEvent::Published(true));
    secured.loop_connection_read(WorkerEvent::Connected(Ok(())));
    secured.loop_connection_read(WorkerEvent::Configured(Ok(())));
    secured.loop_connection_read(WorkerEvent::Published(true));
    secured.loop_connection_read(agreed());
    secured.loop_connection_read(WorkerEvent::StreamSplit(true));
    assert_eq!(secured.loop_connection_read(WorkerEvent::Published(false)), WorkerAction::Halt);

    // after the end of the listen loop
    let mut listened = worker();
    listened.run();
    connect(&mut listened, true);
    listened.loop_connection_read(WorkerEvent::Listened(Err(String::from("eof"))));
    assert_eq!(listened.loop_connection_read(WorkerEvent::Published(false)), WorkerAction::Halt);
    assert_eq!(listened.loop_connection_read(WorkerEvent::Published(false)), WorkerAction::Done);
}

#[test]
fn report_that_answers_nothing_ends_the_worker() {
    let mut worker = worker();
    worker.run();
    assert_eq!(worker.loop_connection_read(WorkerEvent::Waited), WorkerAction::Halt);
    let mut other = self::worker();
    other.run();
    other.loop_connection_read(WorkerEvent::Published(true));
    assert_eq!(other.loop_connection_read(agreed()), WorkerAction::Halt);
}

#[test]
fn connection_states_have_their_texts() {
    let reason = || String::from("why");
    let cases = vec![
        (ConnectionState::Unconnected, "None"),
        (ConnectionState::Establishing, "Establishing"),
        (ConnectionState::Connected, "Connected"),
        (ConnectionState::ConnectedSecured, "Encrypted communication established"),
        (ConnectionState::ConnectionError(reason()), "Connection error"),
        (ConnectionState::ReadError(reason()), "Read error"),
        (ConnectionState::HandshakeFailed(reason()), "Handshake failed (why)"),
        (ConnectionState::HandshakeSuccess(reason()), "Handshake succeeded (why)"),
        (ConnectionState::HandshakeSuccess(String::new()), "Handshake succeeded ()"),
        (ConnectionState::KeyExchangeFailed(reason()), "Key exchange failed"),
    ];
    for (state, text) in cases {
        assert_eq!(state.to_string(), text);
        assert_eq!(state.clone(), state);
    }
}
