//! The reconnect policy: a bounded budget of attempts, an exponential
//! backoff delay slept before every attempt, and the classification of
//! each attempt's outcome into retry, success, or fatal failure. The
//! sleeping, opening, and handshaking themselves are I/O and live in the
//! hosting application, which drives this policy one attempt at a time.

use vstd::prelude::*;

use crate::twitch::conn::OpenStreamError;
use crate::twitch::{retryable, ConnectionError};

verus! {

/// Three to the `k`-th power.
pub open spec fn pow3(k: nat) -> nat
    decreases k,
{
    if k == 0 {
        1
    } else {
        3 * pow3((k - 1) as nat)
    }
}

proof fn lemma_pow3_pos(k: nat)
    ensures
        pow3(k) >= 1,
    decreases k,
{
    if k > 0 {
        lemma_pow3_pos((k - 1) as nat);
    }
}

proof fn lemma_pow3_monotone(a: nat, b: nat)
    requires
        a <= b,
    ensures
        pow3(a) <= pow3(b),
    decreases b,
{
    if a < b {
        lemma_pow3_monotone(a, (b - 1) as nat);
        lemma_pow3_pos((b - 1) as nat);
    }
}

/// The delay in seconds slept before attempt number `attempt` (1-based).
pub open spec fn backoff_delay(attempt: nat) -> nat {
    pow3(attempt)
}

/// The backoff delays form the sequence 3s, 9s, 27s, ...: the first
/// attempt waits 3 seconds, and every later attempt waits three times as
/// long as the one before it.
pub proof fn lemma_backoff_sequence(k: nat)
    requires
        1 <= k,
    ensures
        backoff_delay(1) == 3,
        k >= 2 ==> backoff_delay(k) == 3 * backoff_delay((k - 1) as nat),
{
    reveal_with_fuel(pow3, 2);
}

/// The fixed budget of reconnect attempts.
pub const MAX_TRIES: u32 = 10;

/// The attempt budget and the next backoff delay of one reconnect loop.
pub struct Backoff {
    tries_left: u32,
    delay_secs: u64,
}

impl Backoff {
    /// How many attempts have begun.
    pub closed spec fn attempts_made(&self) -> nat {
        (MAX_TRIES - self.tries_left) as nat
    }

    /// The budget is intact and the stored delay is the one owed to the
    /// next attempt.
    pub closed spec fn wf(&self) -> bool {
        self.tries_left <= MAX_TRIES && self.delay_secs == backoff_delay(
            self.attempts_made() + 1,
        )
    }

    /// A fresh budget of ten attempts, the first owing a 3-second delay.
    pub fn new() -> (b: Backoff)
        ensures
            b.wf(),
            b.attempts_made() == 0,
    {
        proof {
            reveal_with_fuel(pow3, 2);
        }
        Backoff { tries_left: MAX_TRIES, delay_secs: 3 }
    }

    /// Begin the next attempt: consume one try and hand out the delay to
    /// sleep before it, or report the budget exhausted, upon which the
    /// loop must surface [`ConnectionError::Reconnect`]. At most ten
    /// attempts are ever begun.
    pub fn next_delay(&mut self) -> (r: Option<u64>)
        requires
            old(self).wf(),
        ensures
            final(self).wf(),
            old(self).attempts_made() == MAX_TRIES ==> r is None && *final(self) == *old(self),
            old(self).attempts_made() < MAX_TRIES ==> r == Some(
                backoff_delay(old(self).attempts_made() + 1) as u64,
            ) && final(self).attempts_made() == old(self).attempts_made() + 1,
    {
        if self.tries_left == 0 {
            return None;
        }
        let d = self.delay_secs;
        proof {
            lemma_pow3_monotone(self.attempts_made() + 1, 10);
            reveal_with_fuel(pow3, 11);
            assert(pow3(10) == 59049);
        }
        self.tries_left = self.tries_left - 1;
        self.delay_secs = self.delay_secs * 3;
        Some(d)
    }
}

/// The outcome of one reconnect attempt, as the hosting application
/// observed it.
#[derive(Debug)]
pub enum AttemptOutcome {
    /// Opening the transport exceeded the deadline.
    OpenTimedOut,
    /// Opening the transport failed.
    OpenFailed(OpenStreamError),
    /// The transport opened, but the handshake exceeded the deadline.
    HandshakeTimedOut,
    /// The transport opened, but the handshake failed.
    HandshakeFailed(ConnectionError),
    /// The transport opened and the handshake succeeded.
    Established,
}

/// What the reconnect loop does after one attempt.
#[derive(Debug)]
pub enum ReconnectDecision {
    /// Try again: the failure was low-level I/O.
    Retry,
    /// Stop: the client is connected again.
    Connected,
    /// Stop: the failure is fatal and is surfaced to the caller.
    Fail(ConnectionError),
}

/// How the loop classifies one attempt's outcome: deadline overruns are
/// fatal timeouts, open failures and retryable handshake failures consume
/// an attempt, every other handshake failure is surfaced, and success
/// stops the loop.
pub open spec fn decision_spec(outcome: AttemptOutcome) -> ReconnectDecision {
    match outcome {
        AttemptOutcome::OpenTimedOut => ReconnectDecision::Fail(ConnectionError::Timeout),
        AttemptOutcome::OpenFailed(OpenStreamError::Io) => ReconnectDecision::Retry,
        AttemptOutcome::HandshakeTimedOut => ReconnectDecision::Fail(ConnectionError::Timeout),
        AttemptOutcome::HandshakeFailed(e) => if retryable(e) {
            ReconnectDecision::Retry
        } else {
            ReconnectDecision::Fail(e)
        },
        AttemptOutcome::Established => ReconnectDecision::Connected,
    }
}

/// Classify one attempt's outcome.
pub fn reconnect_decision(outcome: AttemptOutcome) -> (d: ReconnectDecision)
    ensures
        d == decision_spec(outcome),
{
    match outcome {
        AttemptOutcome::OpenTimedOut => ReconnectDecision::Fail(ConnectionError::Timeout),
        AttemptOutcome::OpenFailed(OpenStreamError::Io) => ReconnectDecision::Retry,
        AttemptOutcome::HandshakeTimedOut => ReconnectDecision::Fail(ConnectionError::Timeout),
        AttemptOutcome::HandshakeFailed(e) => {
            if e.should_retry() {
                ReconnectDecision::Retry
            } else {
                ReconnectDecision::Fail(e)
            }
        },
        AttemptOutcome::Established => ReconnectDecision::Connected,
    }
}

} // verus!
