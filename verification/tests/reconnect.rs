use nanochat::twitch::conn::tls::TlsConfigError;
use nanochat::twitch::conn::OpenStreamError;
use nanochat::twitch::message::{Command, Message};
use nanochat::twitch::read::ReadError;
use nanochat::twitch::reconnect::{reconnect_decision, AttemptOutcome, Backoff, ReconnectDecision};
use nanochat::twitch::ConnectionError;

#[test]
fn backoff_delays_triple_and_stop_after_ten() {
    let mut b = Backoff::new();
    let expected: [u64; 10] = [3, 9, 27, 81, 243, 729, 2187, 6561, 19683, 59049];
    for want in expected {
        assert_eq!(b.next_delay(), Some(want));
    }
    assert_eq!(b.next_delay(), None);
    assert_eq!(b.next_delay(), None);
}

#[test]
fn should_retry_holds_exactly_for_low_level_io() {
    let retryable = [
        ConnectionError::Io,
        ConnectionError::Open(OpenStreamError::Io),
    ];
    for e in retryable {
        assert!(e.should_retry(), "{:?} must be retried", e);
    }
    let fatal = [
        ConnectionError::Read(ReadError::Io),
        ConnectionError::Read(ReadError::Parse("bad".to_owned())),
        ConnectionError::Read(ReadError::StreamClosed),
        ConnectionError::Dns,
        ConnectionError::Tls(TlsConfigError::Io),
        ConnectionError::Tls(TlsConfigError::Tls),
        ConnectionError::Timeout,
        ConnectionError::InvalidFirstMessage(Message { command: Command::Other, params: None }),
        ConnectionError::InvalidAuth,
        ConnectionError::Notice(Message { command: Command::Notice, params: None }),
        ConnectionError::Reconnect,
    ];
    for e in fatal {
        assert!(!e.should_retry(), "{:?} must not be retried", e);
    }
}

#[test]
fn decisions_classify_each_outcome() {
    assert!(matches!(
        reconnect_decision(AttemptOutcome::OpenTimedOut),
        ReconnectDecision::Fail(ConnectionError::Timeout)
    ));
    assert!(matches!(
        reconnect_decision(AttemptOutcome::OpenFailed(OpenStreamError::Io)),
        ReconnectDecision::Retry
    ));
    assert!(matches!(
        reconnect_decision(AttemptOutcome::HandshakeTimedOut),
        ReconnectDecision::Fail(ConnectionError::Timeout)
    ));
    assert!(matches!(
        reconnect_decision(AttemptOutcome::HandshakeFailed(ConnectionError::Io)),
        ReconnectDecision::Retry
    ));
    assert!(matches!(
        reconnect_decision(AttemptOutcome::HandshakeFailed(ConnectionError::InvalidAuth)),
        ReconnectDecision::Fail(ConnectionError::InvalidAuth)
    ));
    assert!(matches!(
        reconnect_decision(AttemptOutcome::Established),
        ReconnectDecision::Connected
    ));
}

/// Drive the reconnect policy the way the hosting application does,
/// against a scripted sequence of attempt outcomes. Returns the delays
/// slept and the final result.
fn run_loop(mut outcomes: Vec<AttemptOutcome>) -> (Vec<u64>, Result<(), ConnectionError>) {
    let mut backoff = Backoff::new();
    let mut slept = Vec::new();
    outcomes.reverse();
    loop {
        let delay = match backoff.next_delay() {
            Some(d) => d,
            None => return (slept, Err(ConnectionError::Reconnect)),
        };
        slept.push(delay);
        let outcome = outcomes.pop().expect("script exhausted");
        match reconnect_decision(outcome) {
            ReconnectDecision::Retry => continue,
            ReconnectDecision::Connected => return (slept, Ok(())),
            ReconnectDecision::Fail(e) => return (slept, Err(e)),
        }
    }
}

#[test]
fn two_open_failures_then_success_reconnects() {
    let (slept, result) = run_loop(vec![
        AttemptOutcome::OpenFailed(OpenStreamError::Io),
        AttemptOutcome::OpenFailed(OpenStreamError::Io),
        AttemptOutcome::Established,
    ]);
    assert!(result.is_ok());
    // A delay is slept before every attempt, the first included, so the
    // successful third attempt waits out the tripled delay as well.
    assert_eq!(slept, vec![3, 9, 27]);
}

#[test]
fn fatal_handshake_failure_stops_immediately() {
    let (slept, result) = run_loop(vec![
        AttemptOutcome::OpenFailed(OpenStreamError::Io),
        AttemptOutcome::HandshakeFailed(ConnectionError::InvalidAuth),
    ]);
    assert!(matches!(result, Err(ConnectionError::InvalidAuth)));
    assert_eq!(slept, vec![3, 9]);
}

#[test]
fn exhausted_budget_surfaces_reconnect_failure() {
    let script = (0..10)
        .map(|_| AttemptOutcome::OpenFailed(OpenStreamError::Io))
        .collect();
    let (slept, result) = run_loop(script);
    assert!(matches!(result, Err(ConnectionError::Reconnect)));
    assert_eq!(slept.len(), 10);
    assert_eq!(slept[9], 59049);
}
