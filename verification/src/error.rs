//! Errors of the protocol.

use vstd::prelude::*;
use vstd::std_specs::convert::FromSpec;

use crate::finality::error::{FinalityError, FinalityErrorView};

verus! {

/// Why a request of the protocol failed.
#[derive(Debug)]
pub enum ProtocolError {
    /// A failure with a message.
    Custom(String),
    /// Finality was not established.
    Finality(FinalityError),
}

/// What a protocol error says.
pub enum ProtocolErrorView {
    Custom(Seq<char>),
    Finality(FinalityErrorView),
}

impl View for ProtocolError {
    type V = ProtocolErrorView;

    open spec fn view(&self) -> ProtocolErrorView {
        match self {
            ProtocolError::Custom(m) => ProtocolErrorView::Custom(m@),
            ProtocolError::Finality(e) => ProtocolErrorView::Finality(e@),
        }
    }
}

impl From<FinalityError> for ProtocolError {
    fn from(error: FinalityError) -> (r: Self) {
        ProtocolError::Finality(error)
    }
}

impl vstd::std_specs::convert::FromSpecImpl<FinalityError> for ProtocolError {
    open spec fn obeys_from_spec() -> bool {
        true
    }

    open spec fn from_spec(error: FinalityError) -> Self {
        ProtocolError::Finality(error)
    }
}

/// The outcome of a request, as far as it can be compared.
pub open spec fn outcome_view(outcome: Result<(), ProtocolError>) -> Result<(), ProtocolErrorView> {
    match outcome {
        Ok(_) => Ok(()),
        Err(e) => Err(e@),
    }
}

/// What a protocol error says is what it holds, and outcomes are compared by that.
pub proof fn law_protocol_errors_say_what_they_hold(m: String, e: FinalityError)
    ensures
        ProtocolError::Custom(m)@ == ProtocolErrorView::Custom(m@),
        ProtocolError::Finality(e)@ == ProtocolErrorView::Finality(e@),
        outcome_view(Ok(())) == Ok::<(), ProtocolErrorView>(()),
        outcome_view(Err(ProtocolError::Custom(m))) == Err::<(), _>(
            ProtocolErrorView::Custom(m@),
        ),
        outcome_view(Err(ProtocolError::Finality(e))) == Err::<(), _>(
            ProtocolErrorView::Finality(e@),
        ),
{
}

/// A finality error stays what it is as an error of the protocol.
pub proof fn law_finality_errors_are_kept(error: FinalityError)
    ensures
        <ProtocolError as FromSpec<FinalityError>>::obeys_from_spec(),
        ProtocolError::from_spec(error) == ProtocolError::Finality(error),
{
}

} // verus!
