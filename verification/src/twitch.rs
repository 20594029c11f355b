//! The chat client core: identity configuration, the unified connection
//! failure taxonomy, and the retry classification used by the reconnect
//! policy.

pub mod conn;
pub mod handshake;
pub mod message;
pub mod read;
pub mod reconnect;
pub mod write;

use vstd::prelude::*;

use crate::text::{has_prefix, push_chars, string_from_chars};
use crate::twitch::conn::tls::TlsConfigError;
use crate::twitch::conn::OpenStreamError;
use crate::twitch::message::Message;
use crate::twitch::read::ReadError;

verus! {

/// The decimal digit `d` as a character.
pub open spec fn digit_char(d: int) -> char {
    ((48 + d) as u8) as char
}

/// The numeric value of a digit character.
pub open spec fn digit_val(c: char) -> int {
    c as int - 48
}

/// `c` is a decimal digit.
pub open spec fn is_ascii_digit(c: char) -> bool {
    48 <= c as int <= 57
}

/// The five decimal digits of `n`, most significant first.
pub open spec fn nick_digits(n: int) -> Seq<char> {
    seq![
        digit_char(n / 10000 % 10),
        digit_char(n / 1000 % 10),
        digit_char(n / 100 % 10),
        digit_char(n / 10 % 10),
        digit_char(n % 10),
    ]
}

/// The anonymous nickname drawn for suffix `n`.
pub open spec fn anon_nick(n: int) -> Seq<char> {
    "justinfan"@ + nick_digits(n)
}

/// Every anonymous nickname is the fixed prefix followed by exactly five
/// decimal digits, and those digits spell out the drawn suffix.
pub proof fn lemma_anon_nick_shape(n: int)
    requires
        10000 <= n < 99999,
    ensures
        anon_nick(n).len() == 14,
        has_prefix(anon_nick(n), "justinfan"@),
        forall|i: int| 9 <= i < 14 ==> is_ascii_digit(#[trigger] anon_nick(n)[i]),
        digit_val(anon_nick(n)[9]) * 10000 + digit_val(anon_nick(n)[10]) * 1000 + digit_val(
            anon_nick(n)[11],
        ) * 100 + digit_val(anon_nick(n)[12]) * 10 + digit_val(anon_nick(n)[13]) == n,
{
    reveal_strlit("justinfan");
    assert(anon_nick(n).subrange(0, 9) =~= "justinfan"@);
    lemma_digits_decode(n);
    let d0 = n / 10000 % 10;
    let d1 = n / 1000 % 10;
    let d2 = n / 100 % 10;
    let d3 = n / 10 % 10;
    let d4 = n % 10;
    vstd::arithmetic::div_mod::lemma_mod_bound(n / 10000, 10);
    vstd::arithmetic::div_mod::lemma_mod_bound(n / 1000, 10);
    vstd::arithmetic::div_mod::lemma_mod_bound(n / 100, 10);
    vstd::arithmetic::div_mod::lemma_mod_bound(n / 10, 10);
    vstd::arithmetic::div_mod::lemma_mod_bound(n, 10);
    assert(digit_val(digit_char(d0)) == d0);
    assert(digit_val(digit_char(d1)) == d1);
    assert(digit_val(digit_char(d2)) == d2);
    assert(digit_val(digit_char(d3)) == d3);
    assert(digit_val(digit_char(d4)) == d4);
}

/// For a five-digit `n`, the digits of [`nick_digits`] reassemble to `n`.
proof fn lemma_digits_decode(n: int)
    requires
        10000 <= n < 100000,
    ensures
        n / 10000 % 10 * 10000 + n / 1000 % 10 * 1000 + n / 100 % 10 * 100 + n / 10 % 10 * 10 + n
            % 10 == n,
{
    vstd::arithmetic::div_mod::lemma_fundamental_div_mod(n, 10);
    vstd::arithmetic::div_mod::lemma_fundamental_div_mod(n / 10, 10);
    vstd::arithmetic::div_mod::lemma_fundamental_div_mod(n / 100, 10);
    vstd::arithmetic::div_mod::lemma_fundamental_div_mod(n / 1000, 10);
    vstd::arithmetic::div_mod::lemma_div_denominator(n, 10, 10);
    vstd::arithmetic::div_mod::lemma_div_denominator(n, 100, 10);
    vstd::arithmetic::div_mod::lemma_div_denominator(n, 1000, 10);
    assert(1 <= n / 10000 < 10) by {
        vstd::arithmetic::div_mod::lemma_fundamental_div_mod(n, 10000);
        vstd::arithmetic::div_mod::lemma_mod_bound(n, 10000);
    }
    vstd::arithmetic::div_mod::lemma_small_mod((n / 10000) as nat, 10);
}

/// Identity used for the authentication handshake.
pub struct ChatConfig {
    /// Nickname registered with `NICK`.
    pub nick: String,
    /// Credential submitted with `PASS`.
    pub pass: String,
}

impl ChatConfig {
    /// Store the given identity as-is; no validation is performed.
    pub fn new(nick: &str, pass: &str) -> (c: ChatConfig)
        ensures
            c.nick@ == nick@,
            c.pass@ == pass@,
    {
        ChatConfig { nick: nick.to_owned(), pass: pass.to_owned() }
    }

    /// An anonymous identity: the nickname is the fixed prefix followed
    /// by a randomly drawn five-digit suffix in `[10000, 99999)`, and the
    /// credential is a fixed placeholder.
    pub fn anon() -> (c: ChatConfig)
        ensures
            c.pass@ == "just_a_lil_guy"@,
            exists|n: int| 10000 <= n < 99999 && c.nick@ == anon_nick(n),
    {
        let n = random_nick_suffix();
        let d0 = n / 10000 % 10;
        let d1 = n / 1000 % 10;
        let d2 = n / 100 % 10;
        let d3 = n / 10 % 10;
        let d4 = n % 10;
        let mut v: Vec<char> = Vec::new();
        push_chars(&mut v, "justinfan");
        v.push((48u8 + d0 as u8) as char);
        v.push((48u8 + d1 as u8) as char);
        v.push((48u8 + d2 as u8) as char);
        v.push((48u8 + d3 as u8) as char);
        v.push((48u8 + d4 as u8) as char);
        proof {
            assert(v@ =~= anon_nick(n as int));
        }
        let nick = string_from_chars(v);
        ChatConfig { nick, pass: "just_a_lil_guy".to_owned() }
    }
}

/// Relies on rand's `gen_range` over `10000u32..99999u32`: the result is a
/// uniformly drawn value of the half-open range, so it lies in
/// `[10000, 99999)`.
#[verifier::external_body]
fn random_nick_suffix() -> (n: u32)
    ensures
        10000 <= n < 99999,
{
    rand::Rng::gen_range(&mut rand::thread_rng(), 10000u32..99999u32)
}

/// Why a connection attempt failed.
#[derive(Debug)]
pub enum ConnectionError {
    /// Reading a reply failed during the handshake.
    Read(ReadError),
    /// A low-level socket or TLS write/read failed.
    Io,
    /// The server identity is not a valid host name.
    Dns,
    /// The TLS context could not be built.
    Tls(TlsConfigError),
    /// The transport could not be established.
    Open(OpenStreamError),
    /// A wrapped operation exceeded its deadline.
    Timeout,
    /// The handshake received a reply that matches no expected classifier.
    InvalidFirstMessage(Message),
    /// The credentials were rejected.
    InvalidAuth,
    /// The handshake received a notice that is not an authentication
    /// failure; kept verbatim for the caller.
    Notice(Message),
    /// The reconnect retry budget was exhausted.
    Reconnect,
}

/// The failures the reconnect loop recovers from locally: the low-level
/// I/O failures, and no others.
pub open spec fn retryable(e: ConnectionError) -> bool {
    e matches ConnectionError::Io || e matches ConnectionError::Open(_)
}

impl ConnectionError {
    /// Whether the reconnect loop may consume an attempt and try again:
    /// true exactly for the low-level I/O failures (`Io` and `Open`);
    /// every other failure is fatal.
    pub fn should_retry(&self) -> (r: bool)
        ensures
            r == retryable(*self),
    {
        match self {
            ConnectionError::Io => true,
            ConnectionError::Open(_) => true,
            _ => false,
        }
    }
}

impl From<ReadError> for ConnectionError {
    fn from(value: ReadError) -> Self {
        ConnectionError::Read(value)
    }
}

impl vstd::std_specs::convert::FromSpecImpl<ReadError> for ConnectionError {
    open spec fn obeys_from_spec() -> bool {
        true
    }

    open spec fn from_spec(v: ReadError) -> ConnectionError {
        ConnectionError::Read(v)
    }
}

impl From<TlsConfigError> for ConnectionError {
    fn from(value: TlsConfigError) -> Self {
        ConnectionError::Tls(value)
    }
}

impl vstd::std_specs::convert::FromSpecImpl<TlsConfigError> for ConnectionError {
    open spec fn obeys_from_spec() -> bool {
        true
    }

    open spec fn from_spec(v: TlsConfigError) -> ConnectionError {
        ConnectionError::Tls(v)
    }
}

impl From<OpenStreamError> for ConnectionError {
    fn from(value: OpenStreamError) -> Self {
        ConnectionError::Open(value)
    }
}

impl vstd::std_specs::convert::FromSpecImpl<OpenStreamError> for ConnectionError {
    open spec fn obeys_from_spec() -> bool {
        true
    }

    open spec fn from_spec(v: OpenStreamError) -> ConnectionError {
        ConnectionError::Open(v)
    }
}

} // verus!
