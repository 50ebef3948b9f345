//! The connection life cycle and what is published about it.

pub mod conn;

use vstd::prelude::*;
use crate::configuration::{SessionParams, SessionParamsView};
use crate::security::stream_cipher::{transport_pair, CipherView, Decryptor, Encryptor};
use crate::security::{ChaChaKey, ChaChaKeyView};
use crate::session::message_handler::{ContextAwareMessageHandler, HandlerModel};
use conn::{Connection, ConnectionView, ErrorKind};
use vstd::string::StringExecFns;

verus! {

/// Where a connection attempt stands. The reasons are free text for the
/// reader of a log or a status line.
#[derive(Debug, PartialEq, Eq)]
pub enum ConnectionState {
    Unconnected,
    Establishing,
    ConnectionError(String),
    Connected,
    ConnectedSecured,
    KeyExchangeFailed(String),
    HandshakeFailed(String),
    HandshakeSuccess(String),
    ReadError(String),
}

/// A connection state as a plain value.
pub enum ConnectionStateView {
    Unconnected,
    Establishing,
    ConnectionError(Seq<char>),
    Connected,
    ConnectedSecured,
    KeyExchangeFailed(Seq<char>),
    HandshakeFailed(Seq<char>),
    HandshakeSuccess(Seq<char>),
    ReadError(Seq<char>),
}

impl View for ConnectionState {
    type V = ConnectionStateView;

    open spec fn view(&self) -> ConnectionStateView {
        match self {
            ConnectionState::Unconnected => ConnectionStateView::Unconnected,
            ConnectionState::Establishing => ConnectionStateView::Establishing,
            ConnectionState::ConnectionError(s) => ConnectionStateView::ConnectionError(s@),
            ConnectionState::Connected => ConnectionStateView::Connected,
            ConnectionState::ConnectedSecured => ConnectionStateView::ConnectedSecured,
            ConnectionState::KeyExchangeFailed(s) => ConnectionStateView::KeyExchangeFailed(s@),
            ConnectionState::HandshakeFailed(s) => ConnectionStateView::HandshakeFailed(s@),
            ConnectionState::HandshakeSuccess(s) => ConnectionStateView::HandshakeSuccess(s@),
            ConnectionState::ReadError(s) => ConnectionStateView::ReadError(s@),
        }
    }
}

impl DeepView for ConnectionState {
    type V = ConnectionStateView;

    open spec fn deep_view(&self) -> ConnectionStateView {
        self.view()
    }
}

impl Clone for ConnectionState {
    fn clone(&self) -> (copy: ConnectionState)
        ensures
            copy@ == self@,
    {
        match self {
            ConnectionState::Unconnected => ConnectionState::Unconnected,
            ConnectionState::Establishing => ConnectionState::Establishing,
            ConnectionState::ConnectionError(s) => ConnectionState::ConnectionError(s.clone()),
            ConnectionState::Connected => ConnectionState::Connected,
            ConnectionState::ConnectedSecured => ConnectionState::ConnectedSecured,
            ConnectionState::KeyExchangeFailed(s) => ConnectionState::KeyExchangeFailed(s.clone()),
            ConnectionState::HandshakeFailed(s) => ConnectionState::HandshakeFailed(s.clone()),
            ConnectionState::HandshakeSuccess(s) => ConnectionState::HandshakeSuccess(s.clone()),
            ConnectionState::ReadError(s) => ConnectionState::ReadError(s.clone()),
        }
    }
}

impl ConnectionStateView {
    /// The text shown for a state: a fixed phrase, followed for the two
    /// handshake outcomes by the server's message in parentheses.
    pub open spec fn text(self) -> Seq<char> {
        match self {
            ConnectionStateView::Unconnected => "None"@,
            ConnectionStateView::Establishing => "Establishing"@,
            ConnectionStateView::Connected => "Connected"@,
            ConnectionStateView::ConnectedSecured => "Encrypted communication established"@,
            ConnectionStateView::ConnectionError(_) => "Connection error"@,
            ConnectionStateView::ReadError(_) => "Read error"@,
            ConnectionStateView::HandshakeFailed(s) => "Handshake failed ("@ + s + ")"@,
            ConnectionStateView::HandshakeSuccess(s) => "Handshake succeeded ("@ + s + ")"@,
            ConnectionStateView::KeyExchangeFailed(_) => "Key exchange failed"@,
        }
    }
}

impl ConnectionState {
    /// Renders the state as `ConnectionStateView::text` describes it.
    pub fn to_string(&self) -> (shown: String)
        ensures
            shown@ == self@.text(),
    {
        match self {
            ConnectionState::Unconnected => String::from_str("None"),
            ConnectionState::Establishing => String::from_str("Establishing"),
            ConnectionState::Connected => String::from_str("Connected"),
            ConnectionState::ConnectedSecured => String::from_str(
                "Encrypted communication established",
            ),
            ConnectionState::ConnectionError(_) => String::from_str("Connection error"),
            ConnectionState::ReadError(_) => String::from_str("Read error"),
            ConnectionState::HandshakeFailed(s) => {
                let mut shown = String::from_str("Handshake failed (");
                shown.append(s.as_str());
                shown.append(")");
                shown
            },
            ConnectionState::HandshakeSuccess(s) => {
                let mut shown = String::from_str("Handshake succeeded (");
                shown.append(s.as_str());
                shown.append(")");
                shown
            },
            ConnectionState::KeyExchangeFailed(_) => String::from_str("Key exchange failed"),
        }
    }
}


/// The rest before every cycle but the first, in seconds.
pub const CYCLE_WAIT_SECONDS: u64 = 1;

/// The rest between two attempts to connect within one cycle, in seconds.
pub const RECONNECTION_INTERVAL_SECONDS: u64 = 1;

/// The overall limit of the attempts to connect within one cycle, in
/// seconds.
pub const CONNECT_TIMEOUT_SECONDS: u64 = 5;

/// How long the socket waits for the server to say something, in
/// milliseconds. A server that stays silent for longer counts as gone.
pub const HEARTBEAT_TIMEOUT_MILLIS: u64 = 2_500;

/// The classifier of the worker's transport: an aborted connection ends the
/// attempts at once, any other failure is retried.
pub fn abort_on_connection_aborted(err_kind: ErrorKind) -> (verdict: Option<ErrorKind>)
    ensures
        verdict == (if err_kind == ErrorKind::ConnectionAborted {
            Some(err_kind)
        } else {
            None::<ErrorKind>
        }),
{
    match err_kind {
        ErrorKind::ConnectionAborted => Some(err_kind),
        _ => None,
    }
}

/// What the worker asks of its caller.
#[derive(Debug, PartialEq, Eq)]
pub enum WorkerAction {
    /// Publish the state on the command channel and say whether it was
    /// delivered.
    Publish(ConnectionState),
    /// Rest for `CYCLE_WAIT_SECONDS`.
    Wait,
    /// Connect through the worker's transport.
    Connect,
    /// Switch the socket to no-delay, which may fail, and set its read
    /// timeout to `HEARTBEAT_TIMEOUT_MILLIS`, which may not.
    Configure,
    /// Run the key agreement on the socket.
    ExchangeKeys,
    /// Get a second handle on the socket for writing.
    SplitStream,
    /// Run the listen loop with a new message handler. Every byte that
    /// comes from the socket goes through the reader before it is taken
    /// apart into messages, and every byte of a message goes through the
    /// writer before it is put on the socket.
    Listen(Decryptor, Encryptor),
    /// Publish the halt command, whether or not anyone hears it.
    Halt,
    /// Nothing is left to do.
    Done,
}

/// What the caller reports back to the worker.
#[derive(Debug, PartialEq, Eq)]
pub enum WorkerEvent {
    /// Whether the state was delivered.
    Published(bool),
    Waited,
    /// How connecting went, with the text of the error.
    Connected(Result<(), String>),
    /// How setting the read timeout went, with the text of the error.
    Configured(Result<(), String>),
    /// The two contexts that the key agreement yielded, the inbound one
    /// first, or nothing where it failed.
    KeysExchanged(Option<(ChaChaKey, ChaChaKey)>),
    /// Whether the second handle could be had.
    StreamSplit(bool),
    /// How the listen loop ended, with the text of the error.
    Listened(Result<(), String>),
}

/// An action as a plain value.
pub enum WorkerActionView {
    Publish(ConnectionStateView),
    Wait,
    Connect,
    Configure,
    ExchangeKeys,
    SplitStream,
    /// Listen, with the reading side and the writing side of the cipher.
    Listen(CipherView, CipherView),
    Halt,
    Done,
}

/// An event as a plain value.
pub enum WorkerEventView {
    Published(bool),
    Waited,
    Connected(Result<(), Seq<char>>),
    Configured(Result<(), Seq<char>>),
    KeysExchanged(Option<(ChaChaKeyView, ChaChaKeyView)>),
    StreamSplit(bool),
    Listened(Result<(), Seq<char>>),
}

/// Two contexts as plain values, the inbound one first.
pub open spec fn contexts(keys: Option<(ChaChaKey, ChaChaKey)>) -> Option<
    (ChaChaKeyView, ChaChaKeyView),
> {
    match keys {
        Some(pair) => Some((pair.0@, pair.1@)),
        None => None,
    }
}

/// How something went, with the text of the error as a plain value.
pub open spec fn reported(result: Result<(), String>) -> Result<(), Seq<char>> {
    match result {
        Ok(_) => Ok(()),
        Err(text) => Err(text@),
    }
}

impl View for WorkerAction {
    type V = WorkerActionView;

    open spec fn view(&self) -> WorkerActionView {
        match self {
            WorkerAction::Publish(state) => WorkerActionView::Publish(state@),
            WorkerAction::Wait => WorkerActionView::Wait,
            WorkerAction::Connect => WorkerActionView::Connect,
            WorkerAction::Configure => WorkerActionView::Configure,
            WorkerAction::ExchangeKeys => WorkerActionView::ExchangeKeys,
            WorkerAction::SplitStream => WorkerActionView::SplitStream,
            WorkerAction::Listen(reader, writer) => WorkerActionView::Listen(reader@, writer@),
            WorkerAction::Halt => WorkerActionView::Halt,
            WorkerAction::Done => WorkerActionView::Done,
        }
    }
}

impl View for WorkerEvent {
    type V = WorkerEventView;

    open spec fn view(&self) -> WorkerEventView {
        match self {
            WorkerEvent::Published(delivered) => WorkerEventView::Published(*delivered),
            WorkerEvent::Waited => WorkerEventView::Waited,
            WorkerEvent::Connected(result) => WorkerEventView::Connected(reported(*result)),
            WorkerEvent::Configured(result) => WorkerEventView::Configured(reported(*result)),
            WorkerEvent::KeysExchanged(keys) => WorkerEventView::KeysExchanged(contexts(*keys)),
            WorkerEvent::StreamSplit(done) => WorkerEventView::StreamSplit(*done),
            WorkerEvent::Listened(result) => WorkerEventView::Listened(reported(*result)),
        }
    }
}

/// What the worker is waiting to hear of.
#[derive(Clone, Copy, Debug, PartialEq, Eq, Structural)]
pub enum WorkerPhase {
    /// No cycle has begun.
    Ready,
    AnnouncedEstablishing,
    Waiting,
    Connecting,
    /// A failure to connect was published; a new cycle follows.
    AnnouncedConnectionError,
    Configuring,
    AnnouncedConnected,
    ExchangingKeys,
    SplittingStream,
    AnnouncedSecured,
    Listening,
    /// The end of the listen loop was published; a new cycle follows.
    AnnouncedReadError,
    /// A failure that ends the worker was published.
    AnnouncedFatal,
    Halting,
    Stopped,
}

/// The state of a connection worker.
pub struct WorkerModel {
    pub info: SessionParamsView,
    /// How many cycles have got as far as connecting.
    pub cycle_count: u32,
    pub phase: WorkerPhase,
    /// The contexts of the connection at hand, the inbound one first, from
    /// the key agreement until the listen loop takes them over.
    pub keys: Option<(ChaChaKeyView, ChaChaKeyView)>,
}

impl WorkerModel {
    /// A worker that has not begun.
    pub open spec fn initial(info: SessionParamsView) -> WorkerModel {
        WorkerModel { info, cycle_count: 0, phase: WorkerPhase::Ready, keys: None }
    }

    /// The worker holds contexts exactly while a connection is between its
    /// key agreement and its listen loop.
    pub open spec fn wf(self) -> bool {
        self.keys is Some <==> (self.phase == WorkerPhase::SplittingStream || self.phase
            == WorkerPhase::AnnouncedSecured)
    }

    /// A new cycle begins by publishing that a connection is being
    /// established. The contexts of the connection before are let go.
    pub open spec fn begin_cycle(self) -> (WorkerModel, WorkerActionView) {
        (
            WorkerModel { phase: WorkerPhase::AnnouncedEstablishing, keys: None, ..self },
            WorkerActionView::Publish(ConnectionStateView::Establishing),
        )
    }

    /// The worker gives up: the halt command is published. The contexts
    /// are let go.
    pub open spec fn halt(self) -> (WorkerModel, WorkerActionView) {
        (WorkerModel { phase: WorkerPhase::Halting, keys: None, ..self }, WorkerActionView::Halt)
    }

    /// The worker hands the connection to the listen loop: what comes in is
    /// read with the inbound context, what goes out is written with the
    /// outbound one, each from the start of its keystream. The worker keeps
    /// neither.
    pub open spec fn go_listen(self) -> (WorkerModel, WorkerActionView) {
        match self.keys {
            Some(keys) => (
                WorkerModel { phase: WorkerPhase::Listening, keys: None, ..self },
                WorkerActionView::Listen(
                    CipherView::initial(keys.0),
                    CipherView::initial(keys.1),
                ),
            ),
            None => self.halt(),
        }
    }

    /// The worker goes on to connect, and counts the cycle.
    pub open spec fn go_connect(self) -> (WorkerModel, WorkerActionView) {
        (
            WorkerModel {
                phase: WorkerPhase::Connecting,
                cycle_count: if self.cycle_count < u32::MAX {
                    (self.cycle_count + 1) as u32
                } else {
                    self.cycle_count
                },
                ..self
            },
            WorkerActionView::Connect,
        )
    }

    /// The worker publishes a state and waits to hear whether it arrived.
    pub open spec fn announce(self, phase: WorkerPhase, state: ConnectionStateView) -> (
        WorkerModel,
        WorkerActionView,
    ) {
        (WorkerModel { phase, ..self }, WorkerActionView::Publish(state))
    }

    /// The worker asks for the next piece of work.
    pub open spec fn ask(self, phase: WorkerPhase, action: WorkerActionView) -> (
        WorkerModel,
        WorkerActionView,
    ) {
        (WorkerModel { phase, ..self }, action)
    }

    /// What follows a state that was delivered.
    pub open spec fn after_delivery(self) -> (WorkerModel, WorkerActionView) {
        match self.phase {
            WorkerPhase::AnnouncedEstablishing => if self.cycle_count != 0 {
                self.ask(WorkerPhase::Waiting, WorkerActionView::Wait)
            } else {
                self.go_connect()
            },
            WorkerPhase::AnnouncedConnectionError => self.begin_cycle(),
            WorkerPhase::AnnouncedConnected => self.ask(
                WorkerPhase::ExchangingKeys,
                WorkerActionView::ExchangeKeys,
            ),
            WorkerPhase::AnnouncedSecured => self.go_listen(),
            WorkerPhase::AnnouncedReadError => self.begin_cycle(),
            _ => self.halt(),
        }
    }

    /// The worker's next state and what it asks for, given what the caller
    /// reports. A state that nobody received ends the worker, and so does a
    /// read timeout that cannot be set and a key agreement that fails. A
    /// failure to connect, a socket that cannot be split and the end of the
    /// listen loop are followed by a new cycle. The contexts that a key
    /// agreement yielded are kept until the secured connection is
    /// published, and go to the listen loop then. A report that does not
    /// answer what was asked ends the worker too.
    pub open spec fn next(self, event: WorkerEventView) -> (WorkerModel, WorkerActionView) {
        match (self.phase, event) {
            (WorkerPhase::Stopped, _) => (self, WorkerActionView::Done),
            (WorkerPhase::Halting, _) => (
                WorkerModel { phase: WorkerPhase::Stopped, ..self },
                WorkerActionView::Done,
            ),
            (_, WorkerEventView::Published(delivered)) => if delivered {
                self.after_delivery()
            } else {
                self.halt()
            },
            (WorkerPhase::Waiting, WorkerEventView::Waited) => self.go_connect(),
            (WorkerPhase::Connecting, WorkerEventView::Connected(Ok(_))) => self.ask(
                WorkerPhase::Configuring,
                WorkerActionView::Configure,
            ),
            (WorkerPhase::Connecting, WorkerEventView::Connected(Err(text))) => self.announce(
                WorkerPhase::AnnouncedConnectionError,
                ConnectionStateView::ConnectionError(text),
            ),
            (WorkerPhase::Configuring, WorkerEventView::Configured(Ok(_))) => self.announce(
                WorkerPhase::AnnouncedConnected,
                ConnectionStateView::Connected,
            ),
            (WorkerPhase::Configuring, WorkerEventView::Configured(Err(text))) => self.announce(
                WorkerPhase::AnnouncedFatal,
                ConnectionStateView::ConnectionError(text),
            ),
            (WorkerPhase::ExchangingKeys, WorkerEventView::KeysExchanged(keys)) => if keys
                is Some {
                WorkerModel { keys, ..self }.ask(
                    WorkerPhase::SplittingStream,
                    WorkerActionView::SplitStream,
                )
            } else {
                self.announce(
                    WorkerPhase::AnnouncedFatal,
                    ConnectionStateView::KeyExchangeFailed(Seq::empty()),
                )
            },
            (WorkerPhase::SplittingStream, WorkerEventView::StreamSplit(done)) => if done {
                self.announce(WorkerPhase::AnnouncedSecured, ConnectionStateView::ConnectedSecured)
            } else {
                self.begin_cycle()
            },
            (WorkerPhase::Listening, WorkerEventView::Listened(Ok(_))) => self.begin_cycle(),
            (WorkerPhase::Listening, WorkerEventView::Listened(Err(text))) => self.announce(
                WorkerPhase::AnnouncedReadError,
                ConnectionStateView::ReadError(text),
            ),
            _ => self.halt(),
        }
    }
}

/// The connection worker: it takes one connection at a time from the first
/// attempt to the end of the listen loop, publishes each state on the way,
/// and begins again. The caller does the work and reports how it went.
pub struct ConnectionWorker {
    info: SessionParams,
    cycle_count: u32,
    phase: WorkerPhase,
    keys: Option<(ChaChaKey, ChaChaKey)>,
}

impl View for ConnectionWorker {
    type V = WorkerModel;

    closed spec fn view(&self) -> WorkerModel {
        WorkerModel {
            info: self.info@,
            cycle_count: self.cycle_count,
            phase: self.phase,
            keys: contexts(self.keys),
        }
    }
}

impl ConnectionWorker {
    /// A worker for the server that `info` names.
    pub fn new(info: SessionParams) -> (worker: Self)
        ensures
            worker@ == WorkerModel::initial(info@),
            worker@.wf(),
    {
        ConnectionWorker { info, cycle_count: 0, phase: WorkerPhase::Ready, keys: None }
    }

    /// The transport of one cycle: towards the server of this worker, with
    /// retries every `RECONNECTION_INTERVAL_SECONDS`, limited to
    /// `CONNECT_TIMEOUT_SECONDS`, and with failures put before `on_error`.
    pub fn transport<F: Fn(ErrorKind) -> Option<ErrorKind>>(&self, on_error: F) -> (connection:
        Connection<F>)
        ensures
            connection@ == (ConnectionView {
                classified: true,
                ..ConnectionView::initial(self@.info.ip, self@.info.port).with_reconnection(
                    RECONNECTION_INTERVAL_SECONDS,
                ).with_timeout(CONNECT_TIMEOUT_SECONDS)
            }),
            connection.classifier() == Some(on_error),
            connection@.wf(),
    {
        let mut connection = Connection::new(self.info.ip, self.info.port);
        connection.enable_automatic_reconnection(RECONNECTION_INTERVAL_SECONDS).set_timeout(
            CONNECT_TIMEOUT_SECONDS,
        ).events_on_error(on_error);
        connection
    }

    /// The message handler of one listen loop.
    pub fn message_handler(&self, cursor: (i32, i32), now: u128) -> (handler:
        ContextAwareMessageHandler)
        ensures
            handler@ == HandlerModel::initial(self@.info, cursor, now),
            handler@.wf(),
    {
        ContextAwareMessageHandler::new(self.info.clone(), cursor, now)
    }

    fn begin_cycle(&mut self) -> (action: WorkerAction)
        ensures
            (final(self)@, action@) == old(self)@.begin_cycle(),
    {
        self.phase = WorkerPhase::AnnouncedEstablishing;
        self.keys = None;
        WorkerAction::Publish(ConnectionState::Establishing)
    }

    fn halt(&mut self) -> (action: WorkerAction)
        ensures
            (final(self)@, action@) == old(self)@.halt(),
    {
        self.phase = WorkerPhase::Halting;
        self.keys = None;
        WorkerAction::Halt
    }

    fn go_listen(&mut self) -> (action: WorkerAction)
        ensures
            (final(self)@, action@) == old(self)@.go_listen(),
    {
        match self.keys.take() {
            Some(keys) => {
                self.phase = WorkerPhase::Listening;
                let pair = transport_pair(keys);
                WorkerAction::Listen(pair.0, pair.1)
            },
            None => self.halt(),
        }
    }

    fn go_connect(&mut self) -> (action: WorkerAction)
        ensures
            (final(self)@, action@) == old(self)@.go_connect(),
    {
        self.phase = WorkerPhase::Connecting;
        if self.cycle_count < u32::MAX {
            self.cycle_count += 1;
        }
        WorkerAction::Connect
    }

    fn announce(&mut self, phase: WorkerPhase, state: ConnectionState) -> (action: WorkerAction)
        ensures
            (final(self)@, action@) == old(self)@.announce(phase, state@),
    {
        self.phase = phase;
        WorkerAction::Publish(state)
    }

    fn ask(&mut self, phase: WorkerPhase, action: WorkerAction) -> (asked: WorkerAction)
        ensures
            (final(self)@, asked@) == old(self)@.ask(phase, action@),
    {
        self.phase = phase;
        action
    }

    fn after_delivery(&mut self) -> (action: WorkerAction)
        ensures
            (final(self)@, action@) == old(self)@.after_delivery(),
    {
        match self.phase {
            WorkerPhase::AnnouncedEstablishing => {
                if self.cycle_count != 0 {
                    self.ask(WorkerPhase::Waiting, WorkerAction::Wait)
                } else {
                    self.go_connect()
                }
            },
            WorkerPhase::AnnouncedConnectionError => self.begin_cycle(),
            WorkerPhase::AnnouncedConnected => self.ask(
                WorkerPhase::ExchangingKeys,
                WorkerAction::ExchangeKeys,
            ),
            WorkerPhase::AnnouncedSecured => self.go_listen(),
            WorkerPhase::AnnouncedReadError => self.begin_cycle(),
            _ => self.halt(),
        }
    }

    /// Begins the first cycle.
    pub fn run(&mut self) -> (action: WorkerAction)
        ensures
            (final(self)@, action@) == old(self)@.begin_cycle(),
            old(self)@.wf() ==> final(self)@.wf(),
    {
        self.begin_cycle()
    }

    /// Takes the caller's report on what was asked last and says what to do
    /// next.
    pub fn loop_connection_read(&mut self, event: WorkerEvent) -> (action: WorkerAction)
        ensures
            (final(self)@, action@) == old(self)@.next(event@),
            old(self)@.wf() ==> final(self)@.wf(),
    {
        match self.phase {
            WorkerPhase::Stopped => return WorkerAction::Done,
            WorkerPhase::Halting => {
                self.phase = WorkerPhase::Stopped;
                return WorkerAction::Done;
            },
            _ => {},
        }
        match event {
            WorkerEvent::Published(delivered) => {
                if delivered {
                    self.after_delivery()
                } else {
                    self.halt()
                }
            },
            WorkerEvent::Waited => match self.phase {
                WorkerPhase::Waiting => self.go_connect(),
                _ => self.halt(),
            },
            WorkerEvent::Connected(result) => match self.phase {
                WorkerPhase::Connecting => match result {
                    Ok(_) => self.ask(WorkerPhase::Configuring, WorkerAction::Configure),
                    Err(text) => self.announce(
                        WorkerPhase::AnnouncedConnectionError,
                        ConnectionState::ConnectionError(text),
                    ),
                },
                _ => self.halt(),
            },
            WorkerEvent::Configured(result) => match self.phase {
                WorkerPhase::Configuring => match result {
                    Ok(_) => self.announce(
                        WorkerPhase::AnnouncedConnected,
                        ConnectionState::Connected,
                    ),
                    Err(text) => self.announce(
                        WorkerPhase::AnnouncedFatal,
                        ConnectionState::ConnectionError(text),
                    ),
                },
                _ => self.halt(),
            },
            WorkerEvent::KeysExchanged(keys) => match self.phase {
                WorkerPhase::ExchangingKeys => match keys {
                    Some(pair) => {
                        self.keys = Some(pair);
                        self.ask(WorkerPhase::SplittingStream, WorkerAction::SplitStream)
                    },
                    None => self.announce(
                        WorkerPhase::AnnouncedFatal,
                        ConnectionState::KeyExchangeFailed(String::new()),
                    ),
                },
                _ => self.halt(),
            },
            WorkerEvent::StreamSplit(done) => match self.phase {
                WorkerPhase::SplittingStream => {
                    if done {
                        self.announce(
                            WorkerPhase::AnnouncedSecured,
                            ConnectionState::ConnectedSecured,
                        )
                    } else {
                        self.begin_cycle()
                    }
                },
                _ => self.halt(),
            },
            WorkerEvent::Listened(result) => match self.phase {
                WorkerPhase::Listening => match result {
                    Ok(_) => self.begin_cycle(),
                    Err(text) => self.announce(
                        WorkerPhase::AnnouncedReadError,
                        ConnectionState::ReadError(text),
                    ),
                },
                _ => self.halt(),
            },
        }
    }

    /// What the worker is waiting to hear of.
    pub fn phase(&self) -> (phase: WorkerPhase)
        ensures
            phase == self@.phase,
    {
        self.phase
    }
}

/// A state that nobody received ends the worker at once, wherever it stood:
/// the halt command follows, and after it nothing.
pub proof fn lemma_lost_channel_stops_the_worker(worker: WorkerModel, event: WorkerEventView)
    requires
        worker.phase != WorkerPhase::Stopped,
        worker.phase != WorkerPhase::Halting,
    ensures
        worker.next(WorkerEventView::Published(false)) == worker.halt(),
        worker.halt().0.next(event).1 == WorkerActionView::Done,
        worker.halt().0.next(event).0.next(event).1 == WorkerActionView::Done,
{
}

/// The first cycle connects as soon as its state is published; every later
/// cycle rests first and connects then. Once a cycle has connected, every
/// cycle after it counts as a later one.
pub proof fn lemma_only_later_cycles_wait(worker: WorkerModel)
    requires
        worker.phase == WorkerPhase::AnnouncedEstablishing,
    ensures
        worker.cycle_count == 0 ==> worker.next(WorkerEventView::Published(true))
            == worker.go_connect(),
        worker.cycle_count != 0 ==> worker.next(WorkerEventView::Published(true)).1
            == WorkerActionView::Wait && worker.next(WorkerEventView::Published(true)).0.next(
            WorkerEventView::Waited,
        ).1 == WorkerActionView::Connect,
        worker.go_connect().0.cycle_count != 0,
{
}

/// A key agreement that fails is final for the worker: the failure is
/// published, and whether or not it arrives, the worker halts.
pub proof fn lemma_failed_key_exchange_is_fatal(worker: WorkerModel, delivered: bool)
    requires
        worker.phase == WorkerPhase::ExchangingKeys,
    ensures
        worker.next(WorkerEventView::KeysExchanged(None)).1 == WorkerActionView::Publish(
            ConnectionStateView::KeyExchangeFailed(Seq::empty()),
        ),
        worker.next(WorkerEventView::KeysExchanged(None)).0.next(
            WorkerEventView::Published(delivered),
        ).1 == WorkerActionView::Halt,
{
}

/// A connection that ends, for whatever reason, is followed by a new cycle
/// as long as the channel takes the news.
pub proof fn lemma_lost_connection_starts_over(worker: WorkerModel, text: Seq<char>)
    requires
        worker.phase == WorkerPhase::Listening,
    ensures
        worker.next(WorkerEventView::Listened(Ok(()))) == worker.begin_cycle(),
        worker.next(WorkerEventView::Listened(Err(text))).1 == WorkerActionView::Publish(
            ConnectionStateView::ReadError(text),
        ),
        worker.next(WorkerEventView::Listened(Err(text))).0.next(
            WorkerEventView::Published(true),
        ) == worker.begin_cycle(),
{
}

/// The worker holds contexts only between a key agreement and its listen
/// loop, whatever is reported to it.
pub proof fn lemma_contexts_are_held_only_in_between(worker: WorkerModel, event: WorkerEventView)
    requires
        worker.wf(),
    ensures
        worker.next(event).0.wf(),
        worker.begin_cycle().0.wf(),
{
}

/// The way of a connection that succeeds: the states that are published
/// before the listen loop are, in this order, that a connection is being
/// established, that it stands, and that it is secured. The listen loop then
/// reads with the inbound context and writes with the outbound one, each
/// from the start of its keystream, and the worker keeps neither.
pub proof fn lemma_secured_connection_listens_through_the_cipher(
    info: SessionParamsView,
    inbound: ChaChaKeyView,
    outbound: ChaChaKeyView,
)
    ensures
        ({
            let begun = WorkerModel::initial(info).begin_cycle();
            let connecting = begun.0.next(WorkerEventView::Published(true));
            let configuring = connecting.0.next(WorkerEventView::Connected(Ok(())));
            let connected = configuring.0.next(WorkerEventView::Configured(Ok(())));
            let exchanging = connected.0.next(WorkerEventView::Published(true));
            let splitting = exchanging.0.next(
                WorkerEventView::KeysExchanged(Some((inbound, outbound))),
            );
            let secured = splitting.0.next(WorkerEventView::StreamSplit(true));
            let listening = secured.0.next(WorkerEventView::Published(true));
            &&& begun.1 == WorkerActionView::Publish(ConnectionStateView::Establishing)
            &&& connecting.1 == WorkerActionView::Connect
            &&& configuring.1 == WorkerActionView::Configure
            &&& connected.1 == WorkerActionView::Publish(ConnectionStateView::Connected)
            &&& exchanging.1 == WorkerActionView::ExchangeKeys
            &&& splitting.1 == WorkerActionView::SplitStream
            &&& secured.1 == WorkerActionView::Publish(ConnectionStateView::ConnectedSecured)
            &&& listening.1 == WorkerActionView::Listen(
                CipherView::initial(inbound),
                CipherView::initial(outbound),
            )
            &&& listening.0.keys is None
        }),
{
}

/// Wherever the worker asks for the listen loop, it hands over the two
/// sides of the cipher, made of the contexts that the last key agreement
/// yielded.
pub proof fn lemma_listening_is_always_keyed(worker: WorkerModel, event: WorkerEventView)
    requires
        worker.wf(),
        worker.phase != WorkerPhase::Halting,
        worker.phase != WorkerPhase::Stopped,
        worker.next(event).0.phase == WorkerPhase::Listening,
    ensures
        worker.keys matches Some(keys) && worker.next(event).1 == WorkerActionView::Listen(
            CipherView::initial(keys.0),
            CipherView::initial(keys.1),
        ),
{
}

} // verus!
