//! The closed set of domain failures.

use vstd::prelude::*;

verus! {

/// Failure reported by a cache collaborator: a human-readable description of
/// what went wrong on the transport. It never reaches a client.
#[derive(Debug)]
pub struct CacheError(pub String);

/// Every way a use case can fail. The kinds carry no payload.
#[derive(Debug, Clone, Copy, PartialEq, Eq, Structural)]
pub enum UserError {
    NotFound,
    EmailAlreadyExists,
    UsernameAlreadyExists,
    UnexpectedError,
    InvalidEmail,
    InvalidId,
}

impl From<CacheError> for UserError {
    /// A cache failure that has to be surfaced is never classified further.
    fn from(value: CacheError) -> (kind: UserError)
        ensures
            kind == UserError::UnexpectedError,
    {
        UserError::UnexpectedError
    }
}

impl vstd::std_specs::convert::FromSpecImpl<CacheError> for UserError {
    open spec fn obeys_from_spec() -> bool {
        true
    }

    open spec fn from_spec(value: CacheError) -> UserError {
        UserError::UnexpectedError
    }
}

} // verus!
