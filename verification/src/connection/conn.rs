//! The reconnecting transport: when to try, when to rest, when to give up.
//!
//! The socket belongs to the caller. A `Connection` holds the settings and
//! answers, after each thing the caller did, what comes next.

use vstd::prelude::*;

verus! {

/// Nanoseconds in a second.
pub const NANOS_PER_SECOND: u128 = 1_000_000_000;

/// The rest between two attempts unless another is asked for, in seconds.
pub const DEFAULT_RECONNECTION_INTERVAL: u64 = 5;

/// Why an attempt to connect failed.
#[derive(Clone, Copy, Debug, PartialEq, Eq, Structural, Hash)]
pub enum ErrorKind {
    NotFound,
    PermissionDenied,
    ConnectionRefused,
    ConnectionReset,
    ConnectionAborted,
    NotConnected,
    AddrInUse,
    AddrNotAvailable,
    BrokenPipe,
    AlreadyExists,
    WouldBlock,
    InvalidInput,
    InvalidData,
    TimedOut,
    WriteZero,
    Interrupted,
    Unsupported,
    UnexpectedEof,
    OutOfMemory,
    Other,
}

/// What the caller of a reconnecting transport has to do next.
#[derive(Clone, Copy, Debug, PartialEq, Eq, Structural)]
pub enum ConnectStep {
    /// Try to connect, waiting at most `timeout` seconds for the peer, or
    /// without limit where there is none.
    Attempt { timeout: Option<u64> },
    /// Rest for so many seconds and then say how long it has been since the
    /// first attempt began.
    Rest { seconds: u64 },
    /// Give up; the error of the last attempt is the result.
    FailWithLast,
    /// Give up; an error of this kind is the result.
    FailWith(ErrorKind),
}

/// The settings of a reconnecting transport as plain values.
pub struct ConnectionView {
    pub ip: Seq<u8>,
    pub port: u16,
    /// The overall limit in seconds; `None` where there is none.
    pub timeout: Option<u64>,
    /// The rest between two attempts, in seconds.
    pub reconnection_interval: u64,
    pub automatic_reconnection: bool,
    /// Whether failed attempts are put before a classifier.
    pub classified: bool,
}

/// `seconds`, or the limit where the limit is smaller.
pub open spec fn at_most(seconds: u64, limit: Option<u64>) -> u64 {
    match limit {
        Some(t) => if t < seconds {
            t
        } else {
            seconds
        },
        None => seconds,
    }
}

/// The limit, or `seconds` where the limit is smaller.
pub open spec fn at_least(limit: Option<u64>, seconds: u64) -> Option<u64> {
    match limit {
        Some(t) => Some(
            if t < seconds {
                seconds
            } else {
                t
            },
        ),
        None => None,
    }
}

/// Whether so many nanoseconds are more than the limit allows.
pub open spec fn exceeds(elapsed_nanos: u128, limit: Option<u64>) -> bool {
    match limit {
        Some(t) => elapsed_nanos > t * NANOS_PER_SECOND,
        None => false,
    }
}

impl ConnectionView {
    /// The settings a transport starts with: one attempt, no limit.
    pub open spec fn initial(ip: Seq<u8>, port: u16) -> ConnectionView {
        ConnectionView {
            ip,
            port,
            timeout: None,
            reconnection_interval: DEFAULT_RECONNECTION_INTERVAL,
            automatic_reconnection: false,
            classified: false,
        }
    }

    /// The rest between two attempts is never longer than the overall limit.
    pub open spec fn wf(self) -> bool {
        self.timeout matches Some(t) ==> self.reconnection_interval <= t
    }

    /// The settings with a new overall limit. The rest between attempts is
    /// cut down to the limit.
    pub open spec fn with_timeout(self, timeout_sec: u64) -> ConnectionView {
        ConnectionView {
            timeout: Some(timeout_sec),
            reconnection_interval: at_most(self.reconnection_interval, Some(timeout_sec)),
            ..self
        }
    }

    /// The settings with retries switched on. The overall limit is raised to
    /// the rest between attempts.
    pub open spec fn with_reconnection(self, interval: u64) -> ConnectionView {
        ConnectionView {
            automatic_reconnection: true,
            reconnection_interval: interval,
            timeout: at_least(self.timeout, interval),
            ..self
        }
    }

    /// The first step of every call: an attempt.
    pub open spec fn first_step(self) -> ConnectStep {
        ConnectStep::Attempt { timeout: self.timeout }
    }

    /// What follows a failed attempt, given what the classifier said of it
    /// (`None` where it said nothing or was not asked). Without retries the
    /// failure is final. With retries a kind named by the classifier ends
    /// the call at once, and anything else is followed by a rest.
    pub open spec fn after_verdict(self, verdict: Option<ErrorKind>) -> ConnectStep {
        if !self.automatic_reconnection {
            ConnectStep::FailWithLast
        } else {
            match verdict {
                Some(kind) => ConnectStep::FailWith(kind),
                None => ConnectStep::Rest { seconds: self.reconnection_interval },
            }
        }
    }

    /// What follows a rest: the call ends with the last error once more time
    /// has passed since it began than the overall limit allows, and tries
    /// again otherwise.
    pub open spec fn after_rest(self, elapsed_nanos: u128) -> ConnectStep {
        if exceeds(elapsed_nanos, self.timeout) {
            ConnectStep::FailWithLast
        } else {
            ConnectStep::Attempt { timeout: self.timeout }
        }
    }
}

/// A reconnecting transport towards one server. `F` is the classifier that
/// failed attempts are put before: given the kind of a failure it names the
/// kind to give up with, or nothing to go on.
pub struct Connection<F> {
    ip: [u8; 4],
    port: u16,
    timeout: Option<u64>,
    reconnection_interval: u64,
    automatic_reconnection: bool,
    on_error: Option<F>,
}

impl<F> View for Connection<F> {
    type V = ConnectionView;

    closed spec fn view(&self) -> ConnectionView {
        ConnectionView {
            ip: self.ip@,
            port: self.port,
            timeout: self.timeout,
            reconnection_interval: self.reconnection_interval,
            automatic_reconnection: self.automatic_reconnection,
            classified: self.on_error is Some,
        }
    }
}

impl<F: Fn(ErrorKind) -> Option<ErrorKind>> Connection<F> {
    /// The classifier, where one was given.
    pub closed spec fn classifier(&self) -> Option<F> {
        self.on_error
    }

    /// The settings say that failures are classified exactly where the
    /// transport holds a classifier.
    pub proof fn lemma_classified_by_the_classifier(&self)
        ensures
            self@.classified <==> self.classifier() is Some,
    {
    }

    /// A transport that makes one attempt, without limit, and consults no
    /// classifier.
    pub fn new(ip: [u8; 4], port: u16) -> (connection: Self)
        ensures
            connection@ == ConnectionView::initial(ip@, port),
            connection.classifier() is None,
            connection@.wf(),
    {
        Connection {
            ip,
            port,
            timeout: None,
            reconnection_interval: DEFAULT_RECONNECTION_INTERVAL,
            automatic_reconnection: false,
            on_error: None,
        }
    }

    /// Sets the overall limit, in seconds.
    pub fn set_timeout(&mut self, timeout_sec: u64) -> (me: &mut Self)
        ensures
            me@ == old(self)@.with_timeout(timeout_sec),
            me.classifier() == old(self).classifier(),
            me@.wf(),
            *final(self) == *final(me),
    {
        self.timeout = Some(timeout_sec);
        if timeout_sec < self.reconnection_interval {
            self.reconnection_interval = timeout_sec;
        }
        self
    }

    /// Switches retries on, with so many seconds of rest between attempts.
    pub fn enable_automatic_reconnection(&mut self, interval: u64) -> (me: &mut Self)
        ensures
            me@ == old(self)@.with_reconnection(interval),
            me.classifier() == old(self).classifier(),
            me@.wf(),
            *final(self) == *final(me),
    {
        self.automatic_reconnection = true;
        self.reconnection_interval = interval;
        match self.timeout {
            Some(t) => {
                if t < interval {
                    self.timeout = Some(interval);
                }
            },
            None => {},
        }
        self
    }

    /// Has failed attempts put before `on_err`.
    pub fn events_on_error(&mut self, on_err: F) -> (me: &mut Self)
        ensures
            me@ == (ConnectionView { classified: true, ..old(self)@ }),
            me.classifier() == Some(on_err),
            *final(self) == *final(me),
    {
        self.on_error = Some(on_err);
        self
    }

    /// The address and port to connect to.
    pub fn address(&self) -> (target: ([u8; 4], u16))
        ensures
            target.0@ == self@.ip,
            target.1 == self@.port,
    {
        (self.ip, self.port)
    }

    /// Begins a call: the first step is always an attempt.
    pub fn connect(&self) -> (step: ConnectStep)
        ensures
            step == self@.first_step(),
    {
        ConnectStep::Attempt { timeout: self.timeout }
    }

    /// What follows a failed attempt once the classifier has spoken.
    pub fn after_verdict(&self, verdict: Option<ErrorKind>) -> (step: ConnectStep)
        ensures
            step == self@.after_verdict(verdict),
    {
        if !self.automatic_reconnection {
            ConnectStep::FailWithLast
        } else {
            match verdict {
                Some(kind) => ConnectStep::FailWith(kind),
                None => ConnectStep::Rest { seconds: self.reconnection_interval },
            }
        }
    }

    /// What follows a failed attempt. Where retries are on and a classifier
    /// was given, the classifier is asked about the kind of the failure, and
    /// the step is what `after_verdict` makes of its answer. Otherwise
    /// nobody is asked.
    pub fn after_failure(&self, kind: ErrorKind) -> (step: ConnectStep)
        requires
            self@.automatic_reconnection ==> (self.classifier() matches Some(f) ==> call_requires(
                f,
                (kind,),
            )),
        ensures
            !(self@.automatic_reconnection && self@.classified) ==> step == self@.after_verdict(
                None,
            ),
            self@.automatic_reconnection && self@.classified ==> exists|verdict: Option<ErrorKind>|
                call_ensures(self.classifier()->0, (kind,), verdict) && step
                    == self@.after_verdict(verdict),
    {
        if !self.automatic_reconnection {
            return self.after_verdict(None);
        }
        match &self.on_error {
            Some(classify) => {
                let verdict = classify(kind);
                self.after_verdict(verdict)
            },
            None => self.after_verdict(None),
        }
    }

    /// What follows a rest, `elapsed_nanos` nanoseconds after the call
    /// began.
    pub fn after_rest(&self, elapsed_nanos: u128) -> (step: ConnectStep)
        ensures
            step == self@.after_rest(elapsed_nanos),
    {
        let over = match self.timeout {
            Some(t) => {
                assert(t * NANOS_PER_SECOND <= u128::MAX) by (nonlinear_arith)
                    requires
                        0 <= t <= u64::MAX,
                ;
                elapsed_nanos > (t as u128) * NANOS_PER_SECOND
            },
            None => false,
        };
        if over {
            ConnectStep::FailWithLast
        } else {
            ConnectStep::Attempt { timeout: self.timeout }
        }
    }
}

/// A retry that rests no longer than asked always gets its attempt: whatever
/// the settings were made of, the call does not end after a rest as long as
/// the time passed is within the rest between attempts.
pub proof fn lemma_retry_gets_an_attempt(settings: ConnectionView, elapsed_nanos: u128)
    requires
        settings.wf(),
        elapsed_nanos <= settings.reconnection_interval * NANOS_PER_SECOND,
    ensures
        settings.after_rest(elapsed_nanos) == settings.first_step(),
{
    match settings.timeout {
        Some(t) => {
            assert(settings.reconnection_interval * NANOS_PER_SECOND <= t * NANOS_PER_SECOND)
                by (nonlinear_arith)
                requires
                    settings.reconnection_interval <= t,
            ;
        },
        None => {},
    }
}

/// Setting the limit and switching retries on keep the rest between
/// attempts within the overall limit, in whatever order they come.
pub proof fn lemma_settings_stay_consistent(settings: ConnectionView, seconds: u64)
    requires
        settings.wf(),
    ensures
        settings.with_timeout(seconds).wf(),
        settings.with_reconnection(seconds).wf(),
{
}

/// With a limit of `limit` seconds and rests that last at least as long as
/// asked, a call whose attempts all fail ends with the last error after the
/// rest that brings the time passed beyond the limit, and not before the
/// limit is reached.
pub proof fn lemma_retries_end_at_the_limit(
    settings: ConnectionView,
    limit: u64,
    elapsed_nanos: u128,
)
    requires
        settings.timeout == Some(limit),
    ensures
        elapsed_nanos > limit * NANOS_PER_SECOND ==> settings.after_rest(elapsed_nanos)
            == ConnectStep::FailWithLast,
        elapsed_nanos <= limit * NANOS_PER_SECOND ==> settings.after_rest(elapsed_nanos)
            == settings.first_step(),
{
}

} // verus!
