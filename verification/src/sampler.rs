//! What one attempt to fetch an observation comes back with. The fetch
//! itself is done by whoever drives a worker; it never breaks off the run,
//! and reports a failure as a value.

use vstd::prelude::*;

verus! {

/// Why a fetch brought no observation.
#[derive(Clone, Copy, PartialEq, Eq, Structural, Debug)]
pub enum FetchError {
    /// The feed could not be reached or did not answer.
    Network,
    /// The answer did not have the expected shape.
    MalformedResponse,
    /// The amount in the answer is no number.
    UnparsableAmount,
}

/// The observation that a fetch brought, if it brought one. A failure of
/// any kind brings none: the sample is passed over, and nothing is tried
/// again.
pub open spec fn observed<T>(outcome: Result<T, FetchError>) -> Option<T> {
    match outcome {
        Ok(value) => Some(value),
        Err(_) => None,
    }
}

} // verus!
