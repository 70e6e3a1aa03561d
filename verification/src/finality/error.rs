//! What can go wrong while finality is established.

use vstd::prelude::*;

use crate::state::BlockRef;
use crate::text::joined;

verus! {

/// Why a block could not be verified.
#[derive(Debug)]
pub enum GrandpaFinalityVerificationError {
    ChainError(String),
    BlockNotFound(String),
    ConsensusError(String),
    TimeoutError(String),
    InvalidJustification(String),
    InvalidProof(String),
    AuthoritySetError(String),
    SignatureVerificationError(String),
    InvalidInput(String),
}

/// What a verification error says.
pub enum ErrorView {
    ChainError(Seq<char>),
    BlockNotFound(Seq<char>),
    ConsensusError(Seq<char>),
    TimeoutError(Seq<char>),
    InvalidJustification(Seq<char>),
    InvalidProof(Seq<char>),
    AuthoritySetError(Seq<char>),
    SignatureVerificationError(Seq<char>),
    InvalidInput(Seq<char>),
}

impl View for GrandpaFinalityVerificationError {
    type V = ErrorView;

    open spec fn view(&self) -> ErrorView {
        match self {
            GrandpaFinalityVerificationError::ChainError(m) => ErrorView::ChainError(m@),
            GrandpaFinalityVerificationError::BlockNotFound(m) => ErrorView::BlockNotFound(m@),
            GrandpaFinalityVerificationError::ConsensusError(m) => ErrorView::ConsensusError(m@),
            GrandpaFinalityVerificationError::TimeoutError(m) => ErrorView::TimeoutError(m@),
            GrandpaFinalityVerificationError::InvalidJustification(m) => {
                ErrorView::InvalidJustification(m@)
            },
            GrandpaFinalityVerificationError::InvalidProof(m) => ErrorView::InvalidProof(m@),
            GrandpaFinalityVerificationError::AuthoritySetError(m) => {
                ErrorView::AuthoritySetError(m@)
            },
            GrandpaFinalityVerificationError::SignatureVerificationError(m) => {
                ErrorView::SignatureVerificationError(m@)
            },
            GrandpaFinalityVerificationError::InvalidInput(m) => ErrorView::InvalidInput(m@),
        }
    }
}

impl ErrorView {
    /// The error as a message.
    pub open spec fn text(self) -> Seq<char> {
        match self {
            ErrorView::ChainError(m) => "Chain error: "@ + m,
            ErrorView::BlockNotFound(m) => "Block not found: "@ + m,
            ErrorView::ConsensusError(m) => "Consensus error: "@ + m,
            ErrorView::TimeoutError(m) => "Timeout error: "@ + m,
            ErrorView::InvalidJustification(m) => "Invalid justification: "@ + m,
            ErrorView::InvalidProof(m) => "Invalid proof: "@ + m,
            ErrorView::AuthoritySetError(m) => "Authority set error: "@ + m,
            ErrorView::SignatureVerificationError(m) => "Signature verification failed: "@ + m,
            ErrorView::InvalidInput(m) => "Invalid input: "@ + m,
        }
    }
}

impl GrandpaFinalityVerificationError {
    /// The error as a message.
    pub fn to_string(&self) -> (r: String)
        ensures
            r@ == self@.text(),
    {
        match self {
            GrandpaFinalityVerificationError::ChainError(m) => joined("Chain error: ", m.as_str()),
            GrandpaFinalityVerificationError::BlockNotFound(m) => {
                joined("Block not found: ", m.as_str())
            },
            GrandpaFinalityVerificationError::ConsensusError(m) => {
                joined("Consensus error: ", m.as_str())
            },
            GrandpaFinalityVerificationError::TimeoutError(m) => {
                joined("Timeout error: ", m.as_str())
            },
            GrandpaFinalityVerificationError::InvalidJustification(m) => {
                joined("Invalid justification: ", m.as_str())
            },
            GrandpaFinalityVerificationError::InvalidProof(m) => {
                joined("Invalid proof: ", m.as_str())
            },
            GrandpaFinalityVerificationError::AuthoritySetError(m) => {
                joined("Authority set error: ", m.as_str())
            },
            GrandpaFinalityVerificationError::SignatureVerificationError(m) => {
                joined("Signature verification failed: ", m.as_str())
            },
            GrandpaFinalityVerificationError::InvalidInput(m) => {
                joined("Invalid input: ", m.as_str())
            },
        }
    }
}

/// The answer of a failed verification, as a message.
#[derive(Debug)]
pub struct FinalityVerificationError(pub String);

impl From<GrandpaFinalityVerificationError> for FinalityVerificationError {
    fn from(err: GrandpaFinalityVerificationError) -> (r: Self)
        ensures
            r.0@ == err@.text(),
    {
        FinalityVerificationError(err.to_string())
    }
}

impl vstd::std_specs::convert::FromSpecImpl<GrandpaFinalityVerificationError>
    for FinalityVerificationError {
    open spec fn obeys_from_spec() -> bool {
        false
    }

    open spec fn from_spec(err: GrandpaFinalityVerificationError) -> Self {
        arbitrary()
    }
}

/// Why finality of a block was not established.
#[derive(Debug)]
pub enum FinalityError {
    /// The chain could not be read, or does not hold the block.
    ChainError(String),
    /// Too little voting power, in percent, stands behind the block.
    ConsensusError { details: String, required_power: u64, actual_power: u64 },
    /// The block was not final in time.
    Timeout { block_ref: BlockRef, timeout_nanos: u128, retry_count: u32 },
}

/// What a finality error says.
pub enum FinalityErrorView {
    ChainError(Seq<char>),
    ConsensusError { details: Seq<char>, required_power: u64, actual_power: u64 },
    Timeout { block_ref: BlockRef, timeout_nanos: u128, retry_count: u32 },
}

impl View for FinalityError {
    type V = FinalityErrorView;

    open spec fn view(&self) -> FinalityErrorView {
        match self {
            FinalityError::ChainError(m) => FinalityErrorView::ChainError(m@),
            FinalityError::ConsensusError { details, required_power, actual_power } => {
                FinalityErrorView::ConsensusError {
                    details: details@,
                    required_power: *required_power,
                    actual_power: *actual_power,
                }
            },
            FinalityError::Timeout { block_ref, timeout_nanos, retry_count } => {
                FinalityErrorView::Timeout {
                    block_ref: *block_ref,
                    timeout_nanos: *timeout_nanos,
                    retry_count: *retry_count,
                }
            },
        }
    }
}

impl From<GrandpaFinalityVerificationError> for FinalityError {
    fn from(err: GrandpaFinalityVerificationError) -> (r: Self)
        ensures
            r@ == match err@ {
                ErrorView::ConsensusError(m) => FinalityErrorView::ConsensusError {
                    details: m,
                    required_power: 0,
                    actual_power: 0,
                },
                other => FinalityErrorView::ChainError(other.text()),
            },
    {
        match err {
            GrandpaFinalityVerificationError::ConsensusError(m) => FinalityError::ConsensusError {
                details: m,
                required_power: 0,
                actual_power: 0,
            },
            other => FinalityError::ChainError(other.to_string()),
        }
    }
}

impl vstd::std_specs::convert::FromSpecImpl<GrandpaFinalityVerificationError> for FinalityError {
    open spec fn obeys_from_spec() -> bool {
        false
    }

    open spec fn from_spec(err: GrandpaFinalityVerificationError) -> Self {
        arbitrary()
    }
}

/// A verification error reads as its kind, followed by its own message.
pub proof fn law_errors_read_as_kind_and_message(m: Seq<char>)
    ensures
        ErrorView::ChainError(m).text() == "Chain error: "@ + m,
        ErrorView::BlockNotFound(m).text() == "Block not found: "@ + m,
        ErrorView::ConsensusError(m).text() == "Consensus error: "@ + m,
        ErrorView::TimeoutError(m).text() == "Timeout error: "@ + m,
        ErrorView::InvalidJustification(m).text() == "Invalid justification: "@ + m,
        ErrorView::InvalidProof(m).text() == "Invalid proof: "@ + m,
        ErrorView::AuthoritySetError(m).text() == "Authority set error: "@ + m,
        ErrorView::SignatureVerificationError(m).text() == "Signature verification failed: "@ + m,
        ErrorView::InvalidInput(m).text() == "Invalid input: "@ + m,
{
}

/// What an error says is what it holds, under its own kind.
pub proof fn law_errors_say_what_they_hold(
    m: String,
    block_ref: BlockRef,
    required_power: u64,
    actual_power: u64,
    timeout_nanos: u128,
    retry_count: u32,
)
    ensures
        GrandpaFinalityVerificationError::ChainError(m)@ == ErrorView::ChainError(m@),
        GrandpaFinalityVerificationError::BlockNotFound(m)@ == ErrorView::BlockNotFound(m@),
        GrandpaFinalityVerificationError::ConsensusError(m)@ == ErrorView::ConsensusError(m@),
        GrandpaFinalityVerificationError::TimeoutError(m)@ == ErrorView::TimeoutError(m@),
        GrandpaFinalityVerificationError::InvalidJustification(m)@
            == ErrorView::InvalidJustification(m@),
        GrandpaFinalityVerificationError::InvalidProof(m)@ == ErrorView::InvalidProof(m@),
        GrandpaFinalityVerificationError::AuthoritySetError(m)@ == ErrorView::AuthoritySetError(m@),
        GrandpaFinalityVerificationError::SignatureVerificationError(m)@
            == ErrorView::SignatureVerificationError(m@),
        GrandpaFinalityVerificationError::InvalidInput(m)@ == ErrorView::InvalidInput(m@),
        FinalityError::ChainError(m)@ == FinalityErrorView::ChainError(m@),
        (FinalityError::ConsensusError { details: m, required_power, actual_power })@ == (
        FinalityErrorView::ConsensusError { details: m@, required_power, actual_power }),
        (FinalityError::Timeout { block_ref, timeout_nanos, retry_count })@ == (
        FinalityErrorView::Timeout { block_ref, timeout_nanos, retry_count }),
{
}

} // verus!
