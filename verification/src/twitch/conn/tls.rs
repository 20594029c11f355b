//! Failure kinds of building the TLS client context. Loading the trust
//! store and registering certificates is I/O and lives in the hosting
//! application; the client core only classifies its outcome.

use vstd::prelude::*;

verus! {

/// Failure of loading the trust store and building the TLS context.
#[derive(Clone, Copy, Debug, PartialEq, Eq, Structural)]
pub enum TlsConfigError {
    /// The platform trust store could not be read.
    Io,
    /// A certificate could not be registered.
    Tls,
}

} // verus!
