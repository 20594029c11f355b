//! Failure kinds of the write half. The socket writes themselves are I/O
//! and live in the hosting application.

use vstd::prelude::*;

verus! {

/// Failure of writing to the transport stream.
#[derive(Clone, Copy, Debug, PartialEq, Eq, Structural)]
pub enum WriteError {
    /// The underlying byte write failed.
    Io,
    /// The stream was already closed.
    StreamClosed,
}

} // verus!
