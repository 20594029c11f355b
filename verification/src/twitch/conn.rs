//! Transport endpoint constants and the failure kind of opening a
//! transport. Establishing the encrypted stream itself is I/O and lives in
//! the hosting application; the client core only classifies its outcome.

pub mod tls;

use vstd::prelude::*;

verus! {

/// Fixed chat server host name.
pub const HOST: &'static str = "irc.chat.twitch.tv";

/// Fixed chat server port (TLS).
pub const PORT: u16 = 6697;

/// Failure of establishing the encrypted transport stream.
#[derive(Clone, Copy, Debug, PartialEq, Eq, Structural)]
pub enum OpenStreamError {
    /// Any transport-level failure: name resolution, TCP connect, or the
    /// TLS handshake.
    Io,
}

} // verus!
