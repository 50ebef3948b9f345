//! The logging view: what is written to the log for each command, and at
//! which level.

use vstd::prelude::*;
use vstd::string::StrSliceExecFns;
use vstd::view::View as _;
use super::Command;
use crate::connection::ConnectionState;
use crate::session::{Button, Direction, HandshakeResult, JerryMessage, Request, State};

verus! {

/// How much a line of the log matters.
#[derive(Clone, Copy, Debug, PartialEq, Eq, Structural)]
pub enum Level {
    Trace,
    Debug,
    Info,
    Warn,
    Error,
}

/// What a line of the log is about.
#[derive(Debug, PartialEq, Eq)]
pub enum Subject {
    MouseMove(i32, i32),
    /// A key went down or came up, by itself or by recovery.
    Key { code: u32, state: State, corrective: bool },
    /// A button went down or came up, by itself or by recovery.
    MouseButton { button: Button, state: State, corrective: bool },
    MouseWheel(Direction, i32),
    /// The server's verdict, with its message where it sent one.
    Handshake(HandshakeResult, String),
    Activated { relative_move: bool },
    Deactivated,
    /// The text of the clipboard.
    ClipboardContent(String),
    /// The length of this text of the clipboard.
    ClipboardLength(String),
    Request(Request),
    Connection(ConnectionState),
    /// The view was told to stop because of this error.
    ExitWithError(String),
    /// The view was told to stop.
    Exit,
    /// Nobody is left to send commands.
    SenderGone,
}

/// One line of the log.
#[derive(Debug, PartialEq, Eq)]
pub struct LogRecord {
    pub level: Level,
    pub subject: Subject,
}

/// What one turn of the view comes to.
#[derive(Debug, PartialEq, Eq)]
pub struct ViewStep {
    /// The lines to write, in order.
    pub records: Vec<LogRecord>,
    /// Whether the view is over.
    pub stop: bool,
}

/// The lines that a message is logged with. Moves, wheel turns and plain
/// clicks are traces; keys, recoveries and requests are for debugging; the
/// begin and end of a session are information; a verdict of the server that
/// comes with a message is a warning. A heartbeat is not logged.
pub open spec fn records_of(msg: JerryMessage, correction: bool) -> Seq<LogRecord> {
    match msg {
        JerryMessage::MouseMove(x, y) => seq![
            LogRecord { level: Level::Trace, subject: Subject::MouseMove(x, y) },
        ],
        JerryMessage::Key(code, state) => seq![
            LogRecord {
                level: Level::Debug,
                subject: Subject::Key { code, state, corrective: correction },
            },
        ],
        JerryMessage::MouseClick(button, state) => seq![
            LogRecord {
                level: if correction {
                    Level::Debug
                } else {
                    Level::Trace
                },
                subject: Subject::MouseButton { button, state, corrective: correction },
            },
        ],
        JerryMessage::MouseWheel(dir, amount) => seq![
            LogRecord { level: Level::Trace, subject: Subject::MouseWheel(dir, amount) },
        ],
        JerryMessage::Handshake(res, message) => seq![
            LogRecord {
                level: if message@.len() == 0 {
                    Level::Info
                } else {
                    Level::Warn
                },
                subject: Subject::Handshake(res, message),
            },
        ],
        JerryMessage::SessionBegin { relative_move } => seq![
            LogRecord { level: Level::Info, subject: Subject::Activated { relative_move } },
        ],
        JerryMessage::SessionEnd => seq![
            LogRecord { level: Level::Info, subject: Subject::Deactivated },
        ],
        JerryMessage::Clipboard(content, _) => seq![
            LogRecord { level: Level::Debug, subject: Subject::ClipboardContent(content) },
            LogRecord { level: Level::Info, subject: Subject::ClipboardLength(content) },
        ],
        JerryMessage::Request(a) => seq![
            LogRecord { level: Level::Debug, subject: Subject::Request(a) },
        ],
        JerryMessage::Heartbeat => Seq::empty(),
    }
}

/// The level that a state of the connection is logged at: failures of the
/// key exchange and of the handshake are errors, a read error is a warning,
/// everything else is information.
pub open spec fn level_of(st: ConnectionState) -> Level {
    match st {
        ConnectionState::KeyExchangeFailed(_) | ConnectionState::HandshakeFailed(_) => {
            Level::Error
        },
        ConnectionState::ReadError(_) => Level::Warn,
        _ => Level::Info,
    }
}

/// The lines that something received is logged with; `None` stands for a
/// channel that nobody sends on any more.
pub open spec fn logged(received: Option<Command>) -> Seq<LogRecord> {
    match received {
        Some(Command::Draw) => Seq::empty(),
        Some(Command::Message(msg)) => records_of(msg, false),
        Some(Command::MessageCorrective(msg)) => records_of(msg, true),
        Some(Command::ConnectionResult(st)) => seq![
            LogRecord { level: level_of(st), subject: Subject::Connection(st) },
        ],
        Some(Command::ExitWithError(error)) => seq![
            LogRecord { level: Level::Error, subject: Subject::ExitWithError(error) },
        ],
        Some(Command::Halt) => seq![LogRecord { level: Level::Info, subject: Subject::Exit }],
        None => seq![LogRecord { level: Level::Debug, subject: Subject::SenderGone }],
    }
}

/// Whether the view is over with what it received: it ends when it is told
/// to, with or without an error, and when nobody sends any more.
pub open spec fn ends_view(received: Option<Command>) -> bool {
    match received {
        Some(Command::ExitWithError(_)) | Some(Command::Halt) | None => true,
        _ => false,
    }
}

/// The logging view.
pub struct View {}

impl View {
    pub fn new() -> (view: Self) {
        Self {  }
    }

    /// One turn of the view: what to write for what was received, and
    /// whether to go on. `None` stands for a channel that nobody sends on
    /// any more.
    pub fn run(&mut self, received: Option<Command>) -> (step: ViewStep)
        ensures
            step.records@ == logged(received),
            step.stop == ends_view(received),
    {
        match received {
            Some(msg) => match msg {
                Command::Draw => ViewStep { records: Vec::new(), stop: false },
                Command::Message(msg) => ViewStep { records: self.process(msg, false), stop: false },
                Command::MessageCorrective(msg) => ViewStep {
                    records: self.process(msg, true),
                    stop: false,
                },
                Command::ConnectionResult(st) => {
                    let mut records = Vec::new();
                    records.push(self.log(st));
                    ViewStep { records, stop: false }
                },
                Command::ExitWithError(error) => {
                    let mut records = Vec::new();
                    records.push(
                        LogRecord { level: Level::Error, subject: Subject::ExitWithError(error) },
                    );
                    ViewStep { records, stop: true }
                },
                Command::Halt => {
                    let mut records = Vec::new();
                    records.push(LogRecord { level: Level::Info, subject: Subject::Exit });
                    ViewStep { records, stop: true }
                },
            },
            None => {
                let mut records = Vec::new();
                records.push(LogRecord { level: Level::Debug, subject: Subject::SenderGone });
                ViewStep { records, stop: true }
            },
        }
    }

    /// The lines that a message is logged with.
    pub fn process(&self, msg: JerryMessage, correction: bool) -> (records: Vec<LogRecord>)
        ensures
            records@ == records_of(msg, correction),
    {
        let mut records = Vec::new();
        match msg {
            JerryMessage::MouseMove(x, y) => {
                records.push(LogRecord { level: Level::Trace, subject: Subject::MouseMove(x, y) });
            },
            JerryMessage::Key(code, state) => {
                records.push(
                    LogRecord {
                        level: Level::Debug,
                        subject: Subject::Key { code, state, corrective: correction },
                    },
                );
            },
            JerryMessage::MouseClick(button, state) => {
                let level = match correction {
                    true => Level::Debug,
                    false => Level::Trace,
                };
                records.push(
                    LogRecord {
                        level,
                        subject: Subject::MouseButton { button, state, corrective: correction },
                    },
                );
            },
            JerryMessage::MouseWheel(dir, amount) => {
                records.push(
                    LogRecord { level: Level::Trace, subject: Subject::MouseWheel(dir, amount) },
                );
            },
            JerryMessage::Handshake(res, message) => {
                let level = if message.as_str().unicode_len() == 0 {
                    Level::Info
                } else {
                    Level::Warn
                };
                records.push(LogRecord { level, subject: Subject::Handshake(res, message) });
            },
            JerryMessage::SessionBegin { relative_move } => {
                records.push(
                    LogRecord { level: Level::Info, subject: Subject::Activated { relative_move } },
                );
            },
            JerryMessage::SessionEnd => {
                records.push(LogRecord { level: Level::Info, subject: Subject::Deactivated });
            },
            JerryMessage::Clipboard(content, _filelist) => {
                records.push(
                    LogRecord {
                        level: Level::Debug,
                        subject: Subject::ClipboardContent(content.clone()),
                    },
                );
                records.push(
                    LogRecord { level: Level::Info, subject: Subject::ClipboardLength(content) },
                );
            },
            JerryMessage::Request(a) => {
                records.push(LogRecord { level: Level::Debug, subject: Subject::Request(a) });
            },
            JerryMessage::Heartbeat => {},
        }
        assert(records@ =~= records_of(msg, correction));
        records
    }

    /// The line that a state of the connection is logged with.
    pub fn log(&self, st: ConnectionState) -> (record: LogRecord)
        ensures
            record == (LogRecord { level: level_of(st), subject: Subject::Connection(st) }),
    {
        let level = match &st {
            ConnectionState::Unconnected
            | ConnectionState::Establishing
            | ConnectionState::Connected
            | ConnectionState::HandshakeSuccess(_)
            | ConnectionState::ConnectionError(_)
            | ConnectionState::ConnectedSecured => Level::Info,
            ConnectionState::KeyExchangeFailed(_) | ConnectionState::HandshakeFailed(_) => {
                Level::Error
            },
            ConnectionState::ReadError(_) => Level::Warn,
        };
        LogRecord { level, subject: Subject::Connection(st) }
    }
}

} // verus!
