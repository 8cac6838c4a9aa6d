//! What can end the duty cycle.

use vstd::prelude::*;
use crate::lookahead::error::{LookaheadError, LookaheadErrorKind};

verus! {

/// Why the sidecar gave up.  The text in a variant is what the failing
/// service said.
#[derive(Debug)]
pub enum InclusionListBoostError {
    /// A condition that the sidecar itself found broken.
    GenericError(String),
    /// The beacon node refused a request.
    BeaconApiError(String),
    /// A request failed in transport.
    Reqwest(String),
    /// The stream of head events broke, or delivered what is no head event.
    SseError(String),
    /// The execution node refused a request.
    AlloyRpcError(String),
    /// The signer did not sign.
    SignerClientError(String),
    /// A lookahead could not be had.
    LookaheadError(LookaheadError),
    /// A field that should hold a number holds none.
    ParseIntError,
    /// An answer that should be JSON is none.
    Serde(serde_json::Error),
}

/// What an `InclusionListBoostError` is in contracts: its kind and the
/// text it carries.  Of a parser's error nothing but its kind is said.
pub enum ErrorKind {
    Generic(Seq<char>),
    BeaconApi(Seq<char>),
    Reqwest(Seq<char>),
    Sse(Seq<char>),
    AlloyRpc(Seq<char>),
    SignerClient(Seq<char>),
    Lookahead(LookaheadErrorKind),
    ParseInt,
    Serde,
}

impl View for InclusionListBoostError {
    type V = ErrorKind;

    open spec fn view(&self) -> ErrorKind {
        match self {
            InclusionListBoostError::GenericError(text) => ErrorKind::Generic(text@),
            InclusionListBoostError::BeaconApiError(text) => ErrorKind::BeaconApi(text@),
            InclusionListBoostError::Reqwest(text) => ErrorKind::Reqwest(text@),
            InclusionListBoostError::SseError(text) => ErrorKind::Sse(text@),
            InclusionListBoostError::AlloyRpcError(text) => ErrorKind::AlloyRpc(text@),
            InclusionListBoostError::SignerClientError(text) => ErrorKind::SignerClient(text@),
            InclusionListBoostError::LookaheadError(error) => ErrorKind::Lookahead(error@),
            InclusionListBoostError::ParseIntError => ErrorKind::ParseInt,
            InclusionListBoostError::Serde(_) => ErrorKind::Serde,
        }
    }
}

impl From<String> for InclusionListBoostError {
    fn from(value: String) -> (error: Self) {
        InclusionListBoostError::GenericError(value)
    }
}

impl vstd::std_specs::convert::FromSpecImpl<String> for InclusionListBoostError {
    open spec fn obeys_from_spec() -> bool {
        true
    }

    open spec fn from_spec(value: String) -> Self {
        InclusionListBoostError::GenericError(value)
    }
}

impl From<LookaheadError> for InclusionListBoostError {
    fn from(value: LookaheadError) -> (error: Self) {
        InclusionListBoostError::LookaheadError(value)
    }
}

impl vstd::std_specs::convert::FromSpecImpl<LookaheadError> for InclusionListBoostError {
    open spec fn obeys_from_spec() -> bool {
        true
    }

    open spec fn from_spec(value: LookaheadError) -> Self {
        InclusionListBoostError::LookaheadError(value)
    }
}

impl From<serde_json::Error> for InclusionListBoostError {
    fn from(value: serde_json::Error) -> (error: Self) {
        InclusionListBoostError::Serde(value)
    }
}

impl vstd::std_specs::convert::FromSpecImpl<serde_json::Error> for InclusionListBoostError {
    open spec fn obeys_from_spec() -> bool {
        true
    }

    open spec fn from_spec(value: serde_json::Error) -> Self {
        InclusionListBoostError::Serde(value)
    }
}

} // verus!
