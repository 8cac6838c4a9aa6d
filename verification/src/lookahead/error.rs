//! What can be wrong with the beacon node's answers from which a lookahead
//! is made.  A request that fails in transport is no answer; it is
//! reported as an `InclusionListBoostError` by whoever made the request.

use vstd::prelude::*;

verus! {

/// Why an answer of the beacon node gives no lookahead.
#[derive(Debug)]
pub enum LookaheadError {
    /// The beacon node's answer is no JSON document.
    Serde(serde_json::Error),
    /// The answer holds the field, but no unsigned integer in it.
    ParseIntError,
    /// The answer lacks the slot of the head.
    FailedLookahead,
}

/// What a `LookaheadError` is in contracts: its kind.
pub enum LookaheadErrorKind {
    Serde,
    ParseInt,
    FailedLookahead,
}

impl View for LookaheadError {
    type V = LookaheadErrorKind;

    open spec fn view(&self) -> LookaheadErrorKind {
        match self {
            LookaheadError::Serde(_) => LookaheadErrorKind::Serde,
            LookaheadError::ParseIntError => LookaheadErrorKind::ParseInt,
            LookaheadError::FailedLookahead => LookaheadErrorKind::FailedLookahead,
        }
    }
}

impl From<serde_json::Error> for LookaheadError {
    fn from(value: serde_json::Error) -> (error: Self) {
        LookaheadError::Serde(value)
    }
}

impl vstd::std_specs::convert::FromSpecImpl<serde_json::Error> for LookaheadError {
    open spec fn obeys_from_spec() -> bool {
        true
    }

    open spec fn from_spec(value: serde_json::Error) -> Self {
        LookaheadError::Serde(value)
    }
}

} // verus!
