//! Error kinds of the pairing protocol and the error reply container.
//!
//! Every failed step is reported to the transport as an [`ErrorContainer`]:
//! the error kind together with the state code the client expects for that
//! step's response (not the request's own code).

use vstd::prelude::*;

verus! {

/// Protocol error kinds carried in an error TLV reply.
#[derive(Debug, Clone, Copy, PartialEq, Eq, Structural)]
pub enum TlvError {
    /// Malformed, out-of-sequence or missing-session request.
    Unknown,
    /// Proof or signature mismatch, or an authenticated-decryption failure.
    Authentication,
    /// Pairing capacity exceeded.
    MaxPeers,
    /// Retry ceiling exceeded.
    MaxTries,
}

impl TlvError {
    /// Wire code of the error kind.
    pub fn code(&self) -> (r: u8)
        ensures
            r == self.spec_code(),
    {
        match self {
            TlvError::Unknown => 1,
            TlvError::Authentication => 2,
            TlvError::MaxPeers => 4,
            TlvError::MaxTries => 5,
        }
    }

    /// Wire code of the error kind.
    pub open spec fn spec_code(&self) -> u8 {
        match self {
            TlvError::Unknown => 1,
            TlvError::Authentication => 2,
            TlvError::MaxPeers => 4,
            TlvError::MaxTries => 5,
        }
    }
}

/// An error reply: the error kind tagged with the response state code the
/// client expects for the step that failed.
#[derive(Debug, Clone, Copy, PartialEq, Eq, Structural)]
pub struct ErrorContainer {
    /// State code of the reply the failed step would have produced.
    pub state: u8,
    /// The error kind.
    pub error: TlvError,
}

impl ErrorContainer {
    /// Builds an error reply for the given response state code.
    pub fn new(state: u8, error: TlvError) -> (r: ErrorContainer)
        ensures
            r == (ErrorContainer { state, error }),
    {
        ErrorContainer { state, error }
    }
}

} // verus!
