use jerry_client::connection::conn::{
    ConnectStep, Connection, ErrorKind, DEFAULT_RECONNECTION_INTERVAL, NANOS_PER_SECOND,
};
use jerry_client::connection::abort_on_connection_aborted;

type Classifier = fn(ErrorKind) -> Option<ErrorKind>;

fn never(_kind: ErrorKind) -> Option<ErrorKind> {
    None
}

fn turn_refusal_into_timeout(kind: ErrorKind) -> Option<ErrorKind> {
    if kind == ErrorKind::ConnectionRefused {
        Some(ErrorKind::TimedOut)
    } else {
        None
    }
}

#[test]
fn plain_connection_tries_once_without_limit() {
    let connection: Connection<Classifier> = Connection::new([10, 0, 0, 7], 8888);
    assert_eq!(connection.address(), ([10, 0, 0, 7], 8888));
    assert_eq!(connection.connect(), ConnectStep::Attempt { timeout: None });
    assert_eq!(connection.after_failure(ErrorKind::ConnectionRefused), ConnectStep::FailWithLast);
    assert_eq!(connection.after_verdict(Some(ErrorKind::TimedOut)), ConnectStep::FailWithLast);
}

#[test]
fn default_rest_is_five_seconds() {
    assert_eq!(DEFAULT_RECONNECTION_INTERVAL, 5);
    assert_eq!(NANOS_PER_SECOND, 1_000_000_000);
}

#[test]
fn timeout_cuts_the_rest_down() {
    let mut connection: Connection<Classifier> = Connection::new([10, 0, 0, 7], 8888);
    connection.enable_automatic_reconnection(9).set_timeout(3);
    assert_eq!(connection.connect(), ConnectStep::Attempt { timeout: Some(3) });
    assert_eq!(
        connection.after_failure(ErrorKind::ConnectionRefused),
        ConnectStep::Rest { seconds: 3 }
    );
}

#[test]
fn rest_raises_the_timeout() {
    let mut connection: Connection<Classifier> = Connection::new([10, 0, 0, 7], 8888);
    connection.set_timeout(3).enable_automatic_reconnection(9);
    assert_eq!(connection.connect(), ConnectStep::Attempt { timeout: Some(9) });
    assert_eq!(
        connection.after_failure(ErrorKind::ConnectionRefused),
        ConnectStep::Rest { seconds: 9 }
    );
    // one rest of the length asked for is always followed by an attempt
    assert_eq!(
        connection.after_rest(9 * NANOS_PER_SECOND),
        ConnectStep::Attempt { timeout: Some(9) }
    );
    assert_eq!(connection.after_rest(9 * NANOS_PER_SECOND + 1), ConnectStep::FailWithLast);
}

#[test]
fn retries_without_timeout_never_give_up() {
    let mut connection: Connection<Classifier> = Connection::new([10, 0, 0, 7], 8888);
    connection.enable_automatic_reconnection(2);
    assert_eq!(connection.connect(), ConnectStep::Attempt { timeout: None });
    assert_eq!(connection.after_failure(ErrorKind::TimedOut), ConnectStep::Rest { seconds: 2 });
    assert_eq!(connection.after_rest(u128::MAX), ConnectStep::Attempt { timeout: None });
}

#[test]
fn classifier_can_end_the_retries_with_a_kind_of_its_own() {
    let mut connection: Connection<Classifier> = Connection::new([10, 0, 0, 7], 8888);
    connection.enable_automatic_reconnection(1).set_timeout(5).events_on_error(
        turn_refusal_into_timeout,
    );
    assert_eq!(
        connection.after_failure(ErrorKind::ConnectionRefused),
        ConnectStep::FailWith(ErrorKind::TimedOut)
    );
    assert_eq!(
        connection.after_failure(ErrorKind::ConnectionReset),
        ConnectStep::Rest { seconds: 1 }
    );
}

#[test]
fn classifier_is_not_asked_without_retries() {
    let mut connection: Connection<Classifier> = Connection::new([10, 0, 0, 7], 8888);
    connection.events_on_error(turn_refusal_into_timeout);
    assert_eq!(connection.after_failure(ErrorKind::ConnectionRefused), ConnectStep::FailWithLast);
}

#[test]
fn aborted_connection_is_the_only_kind_that_ends_the_worker_s_retries() {
    assert_eq!(
        abort_on_connection_aborted(ErrorKind::ConnectionAborted),
        Some(ErrorKind::ConnectionAborted)
    );
    for kind in [
        ErrorKind::NotFound,
        ErrorKind::PermissionDenied,
        ErrorKind::ConnectionRefused,
        ErrorKind::ConnectionReset,
        ErrorKind::NotConnected,
        ErrorKind::AddrInUse,
        ErrorKind::AddrNotAvailable,
        ErrorKind::BrokenPipe,
        ErrorKind::AlreadyExists,
        ErrorKind::WouldBlock,
        ErrorKind::InvalidInput,
        ErrorKind::InvalidData,
        ErrorKind::TimedOut,
        ErrorKind::WriteZero,
        ErrorKind::Interrupted,
        ErrorKind::Unsupported,
        ErrorKind::UnexpectedEof,
        ErrorKind::OutOfMemory,
        ErrorKind::Other,
    ] {
        assert_eq!(abort_on_connection_aborted(kind), None);
    }
}

/// Runs a call against a server that refuses every attempt. Each attempt
/// takes `attempt_nanos`, each rest as long as asked. Returns the number of
/// attempts, the time the call took, and how it ended.
fn run_against_a_dead_server(
    connection: &Connection<Classifier>,
    attempt_nanos: u128,
) -> (u32, u128, ConnectStep) {
    let mut clock: u128 = 0;
    let mut attempts = 0;
    let mut step = connection.connect();
    loop {
        match step {
            ConnectStep::Attempt { .. } => {
                attempts += 1;
                clock += attempt_nanos;
                step = connection.after_failure(ErrorKind::ConnectionRefused);
            }
            ConnectStep::Rest { seconds } => {
                clock += seconds as u128 * NANOS_PER_SECOND;
                step = connection.after_rest(clock);
            }
            ended => return (attempts, clock, ended),
        }
        assert!(attempts < 1000);
    }
}

#[test]
fn dead_server_costs_about_five_seconds_and_five_attempts() {
    let mut connection: Connection<Classifier> = Connection::new([10, 0, 0, 7], 8888);
    connection.enable_automatic_reconnection(1).set_timeout(5).events_on_error(never);
    // an attempt that is refused takes a millisecond
    let (attempts, nanos, ended) = run_against_a_dead_server(&connection, 1_000_000);
    assert_eq!(ended, ConnectStep::FailWithLast);
    assert_eq!(attempts, 5);
    assert_eq!(nanos, 5 * NANOS_PER_SECOND + 5_000_000);
}

#[test]
fn dead_server_that_refuses_at_once_gets_one_more_attempt() {
    let mut connection: Connection<Classifier> = Connection::new([10, 0, 0, 7], 8888);
    connection.enable_automatic_reconnection(1).set_timeout(5).events_on_error(never);
    // the limit is passed only by more than five seconds
    let (attempts, nanos, ended) = run_against_a_dead_server(&connection, 0);
    assert_eq!(ended, ConnectStep::FailWithLast);
    assert_eq!(attempts, 6);
    assert_eq!(nanos, 6 * NANOS_PER_SECOND);
}

#[test]
fn aborted_connection_ends_the_call_at_the_first_attempt() {
    let mut connection: Connection<Classifier> = Connection::new([10, 0, 0, 7], 8888);
    connection.enable_automatic_reconnection(1).set_timeout(5).events_on_error(
        abort_on_connection_aborted,
    );
    assert_eq!(
        connection.after_failure(ErrorKind::ConnectionAborted),
        ConnectStep::FailWith(ErrorKind::ConnectionAborted)
    );
}
