//! Why a request was turned down.

use vstd::prelude::*;

verus! {

/// The ways a request can fail.
#[derive(Clone, Copy, Debug, PartialEq, Eq, Structural)]
pub enum ServiceError {
    /// The capability token is missing, malformed, wrongly signed or expired.
    /// The cause is never told apart.
    Unauthenticated,
    /// No player or no leaderboard has the given identifier.
    UnknownEntity,
    /// The signature of a submission does not match its content.
    SignatureInvalid,
    /// The same score was already stored.
    DuplicateSubmission,
    /// The store could not be reached or refused the write.
    PersistenceFailure,
}

impl ServiceError {
    /// The HTTP status that reports this error: 401 for a token that was not
    /// accepted, and one generic server error for everything else, so that no
    /// response reveals why a submission failed.
    pub open spec fn spec_status(self) -> u16 {
        match self {
            ServiceError::Unauthenticated => 401,
            _ => 500,
        }
    }

    #[verifier::when_used_as_spec(spec_status)]
    pub fn status(self) -> (code: u16)
        ensures
            code == self.spec_status(),
    {
        match self {
            ServiceError::Unauthenticated => 401,
            _ => 500,
        }
    }
}

} // verus!
