//! What can go wrong while a block is observed.

use vstd::prelude::*;

use crate::error::{ProtocolError, ProtocolErrorView};
use crate::text::joined;

verus! {

/// Why a block could not be observed.
#[derive(Debug)]
pub enum ErrorKind {
    InvalidBlockHash,
    InvalidBlockNumber,
    /// The runtime could not answer, for the given reason.
    RuntimeApiError(String),
    StateNotFound,
    ProofGenerationFailed,
    MessageRoutingFailed,
}

impl ErrorKind {
    /// The error as a message.
    pub open spec fn message(self) -> Seq<char> {
        match self {
            ErrorKind::InvalidBlockHash => "Invalid block hash"@,
            ErrorKind::InvalidBlockNumber => "Invalid block number"@,
            ErrorKind::RuntimeApiError(e) => "Runtime API error: "@ + e@,
            ErrorKind::StateNotFound => "State not found"@,
            ErrorKind::ProofGenerationFailed => "Failed to generate proof"@,
            ErrorKind::MessageRoutingFailed => "Failed to route message"@,
        }
    }
}

impl From<ErrorKind> for ProtocolError {
    fn from(kind: ErrorKind) -> (r: Self)
        ensures
            r@ == ProtocolErrorView::Custom(kind.message()),
    {
        match kind {
            ErrorKind::InvalidBlockHash => ProtocolError::Custom("Invalid block hash".to_owned()),
            ErrorKind::InvalidBlockNumber => {
                ProtocolError::Custom("Invalid block number".to_owned())
            },
            ErrorKind::RuntimeApiError(e) => {
                ProtocolError::Custom(joined("Runtime API error: ", e.as_str()))
            },
            ErrorKind::StateNotFound => ProtocolError::Custom("State not found".to_owned()),
            ErrorKind::ProofGenerationFailed => {
                ProtocolError::Custom("Failed to generate proof".to_owned())
            },
            ErrorKind::MessageRoutingFailed => {
                ProtocolError::Custom("Failed to route message".to_owned())
            },
        }
    }
}

impl vstd::std_specs::convert::FromSpecImpl<ErrorKind> for ProtocolError {
    open spec fn obeys_from_spec() -> bool {
        false
    }

    open spec fn from_spec(kind: ErrorKind) -> Self {
        arbitrary()
    }
}

/// Each failure of observation has a message of its own.
pub proof fn law_failures_have_their_messages(reason: String)
    ensures
        ErrorKind::InvalidBlockHash.message() == "Invalid block hash"@,
        ErrorKind::InvalidBlockNumber.message() == "Invalid block number"@,
        ErrorKind::RuntimeApiError(reason).message() == "Runtime API error: "@ + reason@,
        ErrorKind::StateNotFound.message() == "State not found"@,
        ErrorKind::ProofGenerationFailed.message() == "Failed to generate proof"@,
        ErrorKind::MessageRoutingFailed.message() == "Failed to route message"@,
{
}

} // verus!
