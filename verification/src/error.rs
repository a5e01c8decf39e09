//! The failure kinds of the node and connection operations.

use vstd::prelude::*;

verus! {

/// Why an operation failed. Every failure ends the call that raised it;
/// nothing is retried inside the library.
#[derive(Debug, Clone, Copy, PartialEq, Eq, Structural)]
pub enum EiError {
    /// The target could not be reached or the handshake was refused.
    Connect,
    /// The local identity could not be set up.
    Init,
    /// The transport failed, reported a protocol error or timed out.
    Receive,
    /// The message could not be written whole.
    Send,
    /// A payload arrived but is not a well-formed term.
    Decode,
}

pub type EiResult<T> = Result<T, EiError>;

} // verus!
