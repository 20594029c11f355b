//! The authentication handshake: emitting the batched registration
//! commands and classifying the server's replies.
//!
//! The machine awaits two replies: first a capability acknowledgment, then
//! the registration result. (A design that expects the welcome reply
//! first, without a capability exchange, would also satisfy the wire
//! protocol; this client requests capabilities and therefore awaits the
//! acknowledgment.)

use vstd::prelude::*;

use crate::text::{contains_seq, has_prefix, push_chars, str_contains, str_has_prefix,
    string_from_chars};
use crate::twitch::message::{opt_view, Command, Message};
use crate::twitch::ChatConfig;
use crate::twitch::ConnectionError;

verus! {

/// The fixed capability set requested at registration.
pub const CAP: &'static str = "twitch.tv/commands twitch.tv/tags";

/// One wire command: a fixed prefix, a payload, and the line terminator.
pub open spec fn wire_line(prefix: Seq<char>, payload: Seq<char>) -> Seq<char> {
    prefix + payload + "\r\n"@
}

/// The requested capability list, as characters.
pub open spec fn cap_text() -> Seq<char> {
    "twitch.tv/commands twitch.tv/tags"@
}

/// The batched registration write: capability request, nickname
/// registration, and credential submission, in that order.
pub open spec fn handshake_batch(nick: Seq<char>, pass: Seq<char>) -> Seq<char> {
    wire_line("CAP REQ :"@, cap_text()) + wire_line("NICK "@, nick) + wire_line("PASS "@, pass)
}

/// Render the batched registration commands for the given identity.
pub fn handshake_request(config: &ChatConfig) -> (s: String)
    ensures
        s@ == handshake_batch(config.nick@, config.pass@),
{
    let mut v: Vec<char> = Vec::new();
    push_chars(&mut v, "CAP REQ :");
    push_chars(&mut v, CAP);
    push_chars(&mut v, "\r\n");
    push_chars(&mut v, "NICK ");
    push_chars(&mut v, config.nick.as_str());
    push_chars(&mut v, "\r\n");
    push_chars(&mut v, "PASS ");
    push_chars(&mut v, config.pass.as_str());
    push_chars(&mut v, "\r\n");
    proof {
        assert(v@ =~= handshake_batch(config.nick@, config.pass@));
    }
    string_from_chars(v)
}

/// No carriage return or line feed occurs in `s`.
pub open spec fn crlf_free(s: Seq<char>) -> bool {
    forall|i: int| 0 <= i < s.len() ==> s[i] != '\r' && s[i] != '\n'
}

/// Index of the first CR-LF pair in `s`, or `s.len()` if there is none.
pub open spec fn first_crlf(s: Seq<char>) -> int
    decreases s.len(),
{
    if s.len() < 2 {
        s.len() as int
    } else if s[0] == '\r' && s[1] == '\n' {
        0
    } else {
        1 + first_crlf(s.subrange(1, s.len() as int))
    }
}

proof fn lemma_first_crlf_at(s: Seq<char>, i: int)
    requires
        0 <= i,
        i + 2 <= s.len(),
        s[i] == '\r',
        s[i + 1] == '\n',
        forall|k: int| 0 <= k < i ==> !((#[trigger] s[k]) == '\r' && s[k + 1] == '\n'),
    ensures
        first_crlf(s) == i,
    decreases s.len(),
{
    if i > 0 {
        let t = s.subrange(1, s.len() as int);
        assert(forall|k: int| 0 <= k < t.len() ==> (#[trigger] t[k]) == s[k + 1]);
        assert(t[i - 1] == s[i] && t[i] == s[i + 1]);
        lemma_first_crlf_at(t, i - 1);
    }
}

proof fn lemma_first_crlf_none(s: Seq<char>)
    requires
        forall|k: int| 0 <= k < s.len() - 1 ==> !((#[trigger] s[k]) == '\r' && s[k + 1] == '\n'),
    ensures
        first_crlf(s) == s.len(),
    decreases s.len(),
{
    if s.len() >= 2 {
        let t = s.subrange(1, s.len() as int);
        assert(forall|k: int| 0 <= k < t.len() ==> (#[trigger] t[k]) == s[k + 1]);
        lemma_first_crlf_none(t);
    }
}

/// Split `s` at its first CR-LF pair, dropping the pair; `None` if no
/// pair occurs.
pub open spec fn split_line(s: Seq<char>) -> Option<(Seq<char>, Seq<char>)> {
    let i = first_crlf(s);
    if i + 2 <= s.len() {
        Option::Some((s.subrange(0, i), s.subrange(i + 2, s.len() as int)))
    } else {
        Option::None
    }
}

/// Drop the prefix `p` from `s`; `None` if `s` does not begin with it.
pub open spec fn strip_prefix(s: Seq<char>, p: Seq<char>) -> Option<Seq<char>> {
    if has_prefix(s, p) {
        Option::Some(s.subrange(p.len() as int, s.len() as int))
    } else {
        Option::None
    }
}

/// Decode one wire command at the head of `s`: the payload after the
/// prefix `p` in the first line, and everything after that line.
pub open spec fn decode_line(s: Seq<char>, p: Seq<char>) -> Option<(Seq<char>, Seq<char>)> {
    match split_line(s) {
        Option::Some(lr) => match strip_prefix(lr.0, p) {
            Option::Some(payload) => Option::Some((payload, lr.1)),
            Option::None => Option::None,
        },
        Option::None => Option::None,
    }
}

/// Decode a whole registration batch back into the capability list, the
/// nickname, and the credential.
pub open spec fn decode_handshake_spec(s: Seq<char>) -> Option<(Seq<char>, Seq<char>, Seq<char>)> {
    match decode_line(s, "CAP REQ :"@) {
        Option::Some(c) => match decode_line(c.1, "NICK "@) {
            Option::Some(nk) => match decode_line(nk.1, "PASS "@) {
                Option::Some(ps) => if ps.1.len() == 0 {
                    Option::Some((c.0, nk.0, ps.0))
                } else {
                    Option::None
                },
                Option::None => Option::None,
            },
            Option::None => Option::None,
        },
        Option::None => Option::None,
    }
}

proof fn lemma_decode_wire_line(p: Seq<char>, payload: Seq<char>, rest: Seq<char>)
    requires
        crlf_free(p),
        crlf_free(payload),
    ensures
        decode_line(wire_line(p, payload) + rest, p) == Option::Some((payload, rest)),
{
    reveal_strlit("\r\n");
    let s = wire_line(p, payload) + rest;
    let i = (p.len() + payload.len()) as int;
    assert(s[i] == '\r');
    assert(s[i + 1] == '\n');
    assert(forall|k: int| 0 <= k < i ==> s[k] != '\r');
    lemma_first_crlf_at(s, i);
    assert(s.subrange(0, i) =~= p + payload);
    assert(s.subrange(i + 2, s.len() as int) =~= rest);
    assert((p + payload).subrange(0, p.len() as int) =~= p);
    assert((p + payload).subrange(p.len() as int, (p + payload).len() as int) =~= payload);
}

/// Decoding a freshly rendered registration batch recovers exactly the
/// capability list, the nickname, and the credential that were put in,
/// for any identity whose fields are free of line terminators.
pub proof fn lemma_handshake_round_trip(nick: Seq<char>, pass: Seq<char>)
    requires
        crlf_free(nick),
        crlf_free(pass),
    ensures
        decode_handshake_spec(handshake_batch(nick, pass)) == Option::Some(
            (cap_text(), nick, pass),
        ),
{
    reveal_strlit("CAP REQ :");
    reveal_strlit("NICK ");
    reveal_strlit("PASS ");
    reveal_strlit("twitch.tv/commands twitch.tv/tags");
    let a = wire_line("CAP REQ :"@, cap_text());
    let b = wire_line("NICK "@, nick);
    let c = wire_line("PASS "@, pass);
    assert(handshake_batch(nick, pass) =~= a + (b + (c + Seq::<char>::empty())));
    lemma_decode_wire_line("CAP REQ :"@, cap_text(), b + (c + Seq::<char>::empty()));
    lemma_decode_wire_line("NICK "@, nick, c + Seq::<char>::empty());
    lemma_decode_wire_line("PASS "@, pass, Seq::<char>::empty());
}

/// View of a decoded batch as character sequences.
pub open spec fn opt3_view(r: Option<(String, String, String)>) -> Option<
    (Seq<char>, Seq<char>, Seq<char>),
> {
    match r {
        Option::Some(t) => Option::Some((t.0@, t.1@, t.2@)),
        Option::None => Option::None,
    }
}

/// Index of the first CR-LF pair at or after `from`, or the length of `s`
/// if there is none.
fn find_crlf(s: &str, from: usize) -> (i: usize)
    requires
        from <= s@.len(),
    ensures
        from <= i <= s@.len(),
        first_crlf(s@.subrange(from as int, s@.len() as int)) == i - from,
{
    let n = s.unicode_len();
    let ghost suf = s@.subrange(from as int, s@.len() as int);
    let mut j: usize = from;
    while j < n
        invariant
            from <= j <= n,
            n == s@.len(),
            suf == s@.subrange(from as int, s@.len() as int),
            forall|k: int| from <= k < j ==> !((#[trigger] s@[k]) == '\r' && k + 1 < n && s@[k + 1]
                == '\n'),
        decreases n - j,
    {
        if s.get_char(j) == '\r' && j + 1 < n {
            if s.get_char(j + 1) == '\n' {
                proof {
                    assert(forall|k: int| 0 <= k < suf.len() ==> (#[trigger] suf[k]) == s@[
                        from + k]);
                    lemma_first_crlf_at(suf, j - from);
                }
                return j;
            }
        }
        j += 1;
    }
    proof {
        assert(forall|k: int| 0 <= k < suf.len() ==> (#[trigger] suf[k]) == s@[from + k]);
        lemma_first_crlf_none(suf);
    }
    n
}

/// Decode one wire command starting at `from`: the payload after the
/// prefix in the first line, and the position just past that line.
fn decode_one(s: &str, from: usize, prefix: &str) -> (r: Option<(String, usize)>)
    requires
        from <= s@.len(),
    ensures
        match decode_line(s@.subrange(from as int, s@.len() as int), prefix@) {
            Option::Some(pr) => r matches Some(x) && x.0@ == pr.0 && from <= x.1 <= s@.len()
                && s@.subrange(x.1 as int, s@.len() as int) == pr.1,
            Option::None => r is None,
        },
{
    let n = s.unicode_len();
    let ghost suf = s@.subrange(from as int, s@.len() as int);
    let e = find_crlf(s, from);
    if n - e < 2 {
        return None;
    }
    let line = s.substring_char(from, e);
    proof {
        assert(line@ =~= suf.subrange(0, e - from));
    }
    if !str_has_prefix(line, prefix) {
        return None;
    }
    let m = prefix.unicode_len();
    let payload = s.substring_char(from + m, e).to_owned();
    proof {
        let l = suf.subrange(0, e - from);
        assert(payload@ =~= l.subrange(prefix@.len() as int, l.len() as int));
        assert(s@.subrange(e + 2, s@.len() as int) =~= suf.subrange(
            e - from + 2,
            suf.len() as int,
        ));
    }
    Some((payload, e + 2))
}

/// Decode a rendered registration batch back into the capability list,
/// the nickname, and the credential; `None` for any text that is not
/// exactly such a batch.
pub fn decode_handshake(s: &str) -> (r: Option<(String, String, String)>)
    ensures
        opt3_view(r) == decode_handshake_spec(s@),
{
    proof {
        assert(s@.subrange(0, s@.len() as int) =~= s@);
    }
    let n = s.unicode_len();
    let first = decode_one(s, 0, "CAP REQ :");
    match first {
        Some((cap, p1)) => {
            let second = decode_one(s, p1, "NICK ");
            match second {
                Some((nick, p2)) => {
                    let third = decode_one(s, p2, "PASS ");
                    match third {
                        Some((pass, p3)) => {
                            if p3 == n {
                                proof {
                                    assert(s@.subrange(p3 as int, s@.len() as int).len() == 0);
                                }
                                Some((cap, nick, pass))
                            } else {
                                None
                            }
                        },
                        None => None,
                    }
                },
                None => None,
            }
        },
        None => None,
    }
}

/// States of the handshake machine.
#[derive(Clone, Copy, Debug, PartialEq, Eq, Structural)]
pub enum HandshakeState {
    /// Nothing sent yet.
    Start,
    /// Commands sent; awaiting the capability acknowledgment.
    AwaitingAck,
    /// Acknowledgment received; awaiting the registration result.
    AwaitingWelcome,
    /// Registration succeeded.
    Connected,
}

/// The capability reply acknowledges the request: its parameter text
/// begins with the acknowledgment marker.
pub open spec fn ack_accepted(m: Message) -> bool {
    opt_view(m.params) matches Some(p) && has_prefix(p, "* ACK"@)
}

/// The notice signals rejected credentials: its parameter text contains
/// the authentication-failure marker.
pub open spec fn notice_is_auth_failure(m: Message) -> bool {
    opt_view(m.params) matches Some(p) && contains_seq(p, "authentication failed"@)
}

/// How an awaiting handshake classifies one reply.
pub open spec fn step_spec(st: HandshakeState, m: Message) -> Result<
    HandshakeState,
    ConnectionError,
>
    recommends
        st == HandshakeState::AwaitingAck || st == HandshakeState::AwaitingWelcome,
{
    if st == HandshakeState::AwaitingAck {
        if m.command == Command::Capability {
            if ack_accepted(m) {
                Ok(HandshakeState::AwaitingWelcome)
            } else {
                Err(ConnectionError::InvalidAuth)
            }
        } else {
            Err(ConnectionError::InvalidFirstMessage(m))
        }
    } else {
        match m.command {
            Command::Welcome => Ok(HandshakeState::Connected),
            Command::Notice => if notice_is_auth_failure(m) {
                Err(ConnectionError::InvalidAuth)
            } else {
                Err(ConnectionError::Notice(m))
            },
            _ => Err(ConnectionError::InvalidFirstMessage(m)),
        }
    }
}

/// Classification is total: in an awaiting state, every reply either
/// advances the machine or terminates it as exactly one of rejected
/// credentials, unrecognized first message, or surfaced notice — no
/// classifier is left unhandled.
pub proof fn lemma_classification_total(st: HandshakeState, m: Message)
    requires
        st == HandshakeState::AwaitingAck || st == HandshakeState::AwaitingWelcome,
    ensures
        step_spec(st, m) == Ok::<HandshakeState, ConnectionError>(HandshakeState::AwaitingWelcome)
            || step_spec(st, m) == Ok::<HandshakeState, ConnectionError>(
            HandshakeState::Connected,
        ) || step_spec(st, m) == Err::<HandshakeState, ConnectionError>(
            ConnectionError::InvalidAuth,
        ) || step_spec(st, m) == Err::<HandshakeState, ConnectionError>(
            ConnectionError::InvalidFirstMessage(m),
        ) || step_spec(st, m) == Err::<HandshakeState, ConnectionError>(ConnectionError::Notice(m)),
{
}

/// A notice carrying the authentication-failure marker always terminates
/// the reply-inspecting state as rejected credentials, whatever else its
/// text holds. (While the acknowledgment is awaited, a notice is an
/// unrecognized first message instead.)
pub proof fn lemma_auth_failure_notice_rejects(m: Message)
    requires
        m.command == Command::Notice,
        notice_is_auth_failure(m),
    ensures
        step_spec(HandshakeState::AwaitingWelcome, m) == Err::<HandshakeState, ConnectionError>(
            ConnectionError::InvalidAuth,
        ),
{
}

/// The handshake driver. The hosting application writes and flushes the
/// batch produced by [`Handshake::begin`], then feeds each awaited reply
/// to [`Handshake::on_message`] until the state is `Connected` or an
/// error is returned.
pub struct Handshake {
    /// Current state of the machine.
    pub state: HandshakeState,
}

impl Handshake {
    /// Start a handshake for the given identity: the machine awaits the
    /// acknowledgment, and the returned batch is what must be written and
    /// flushed before awaiting it.
    pub fn begin(config: &ChatConfig) -> (r: (Handshake, String))
        ensures
            r.0.state == HandshakeState::AwaitingAck,
            r.1@ == handshake_batch(config.nick@, config.pass@),
    {
        let batch = handshake_request(config);
        (Handshake { state: HandshakeState::AwaitingAck }, batch)
    }

    /// Classify one awaited reply, advancing the machine on success and
    /// leaving it unchanged on failure.
    pub fn on_message(&mut self, m: Message) -> (r: Result<(), ConnectionError>)
        requires
            old(self).state == HandshakeState::AwaitingAck || old(self).state
                == HandshakeState::AwaitingWelcome,
        ensures
            match step_spec(old(self).state, m) {
                Ok(s2) => r == Ok::<(), ConnectionError>(()) && final(self).state == s2,
                Err(e) => r == Err::<(), ConnectionError>(e) && final(self).state == old(
                    self,
                ).state,
            },
    {
        if self.state == HandshakeState::AwaitingAck {
            if m.command == Command::Capability {
                let acked = match &m.params {
                    Some(p) => str_has_prefix(p.as_str(), "* ACK"),
                    None => false,
                };
                if acked {
                    self.state = HandshakeState::AwaitingWelcome;
                    Ok(())
                } else {
                    Err(ConnectionError::InvalidAuth)
                }
            } else {
                Err(ConnectionError::InvalidFirstMessage(m))
            }
        } else {
            match m.command {
                Command::Welcome => {
                    self.state = HandshakeState::Connected;
                    Ok(())
                },
                Command::Notice => {
                    let failed = match &m.params {
                        Some(p) => str_contains(p.as_str(), "authentication failed"),
                        None => false,
                    };
                    if failed {
                        Err(ConnectionError::InvalidAuth)
                    } else {
                        Err(ConnectionError::Notice(m))
                    }
                },
                _ => Err(ConnectionError::InvalidFirstMessage(m)),
            }
        }
    }
}

} // verus!
