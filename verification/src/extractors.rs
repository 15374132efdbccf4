//! Extraction of validated request shapes: a decoded body or query either
//! passes every rule of its shape or is refused with all the reasons.

use vstd::prelude::*;
use crate::validation::{Validate, Violation};

verus! {

/// The two ways a request shape is refused before any use case runs.
#[derive(Debug, Clone, Copy, PartialEq, Eq, Structural)]
pub enum RejectionKind {
    /// The payload could not be decoded into the shape.
    Malformed,
    /// The payload was decoded and breaks at least one rule.
    ValidationFailed,
}

/// A refused request shape. It is not a domain failure and is always
/// answered with status 400.
#[derive(Debug)]
pub struct RejectionError {
    pub kind: RejectionKind,
    pub message: &'static str,
    pub details: Vec<Violation>,
}

/// Status code of every rejection.
pub const REJECTION_STATUS: u16 = 400;

impl RejectionError {
    pub fn status(&self) -> (code: u16)
        ensures
            code == REJECTION_STATUS,
    {
        REJECTION_STATUS
    }
}

/// A request body that has passed every rule of its shape.
pub struct BodyValidator<T>(pub T);

/// A request query that has passed every rule of its shape.
#[derive(Debug)]
pub struct QueryValidator<T>(pub T);

/// What is owed for a decoded payload: the value itself when it breaks no
/// rule, else a rejection that lists every violation; and a rejection
/// without details when nothing could be decoded.
pub open spec fn extraction<T: Validate>(
    parsed: Option<T>,
    malformed: &'static str,
    invalid: &'static str,
    outcome: Result<T, RejectionError>,
) -> bool {
    match parsed {
        None => {
            &&& outcome is Err
            &&& outcome->Err_0.kind == RejectionKind::Malformed
            &&& outcome->Err_0.message == malformed
            &&& outcome->Err_0.details@.len() == 0
        },
        Some(value) => if value.violations().len() == 0 {
            outcome == Ok::<T, RejectionError>(value)
        } else {
            &&& outcome is Err
            &&& outcome->Err_0.kind == RejectionKind::ValidationFailed
            &&& outcome->Err_0.message == invalid
            &&& outcome->Err_0.details@ == value.violations()
        },
    }
}

/// Validates a decoded payload, or refuses the request when there is none.
pub fn extract<T: Validate>(
    parsed: Option<T>,
    malformed: &'static str,
    invalid: &'static str,
) -> (outcome: Result<T, RejectionError>)
    ensures
        extraction(parsed, malformed, invalid, outcome),
{
    match parsed {
        None => Err(
            RejectionError { kind: RejectionKind::Malformed, message: malformed, details: Vec::new() },
        ),
        Some(value) => {
            let found = value.validate();
            if found.len() == 0 {
                Ok(value)
            } else {
                Err(
                    RejectionError {
                        kind: RejectionKind::ValidationFailed,
                        message: invalid,
                        details: found,
                    },
                )
            }
        },
    }
}

pub open spec fn unwrap_body<T>(outcome: Result<BodyValidator<T>, RejectionError>) -> Result<
    T,
    RejectionError,
> {
    match outcome {
        Ok(body) => Ok(body.0),
        Err(rejection) => Err(rejection),
    }
}

pub open spec fn unwrap_query<T>(outcome: Result<QueryValidator<T>, RejectionError>) -> Result<
    T,
    RejectionError,
> {
    match outcome {
        Ok(query) => Ok(query.0),
        Err(rejection) => Err(rejection),
    }
}

impl<T: Validate> BodyValidator<T> {
    /// Turns the decoded body of a request, or `None` where it could not be
    /// decoded, into a validated body or a rejection.
    pub fn from_request(parsed: Option<T>) -> (outcome: Result<BodyValidator<T>, RejectionError>)
        ensures
            extraction(parsed, "Invalid request body", "Validation failed", unwrap_body(outcome)),
    {
        match extract(parsed, "Invalid request body", "Validation failed") {
            Ok(value) => Ok(BodyValidator(value)),
            Err(rejection) => Err(rejection),
        }
    }
}

impl<T> BodyValidator<T> {
    pub fn into_inner(self) -> (value: T)
        ensures
            value == self.0,
    {
        self.0
    }
}

impl<T: Validate> QueryValidator<T> {
    /// Turns the decoded query of a request, or `None` where it could not be
    /// decoded, into a validated query or a rejection.
    pub fn from_request(parsed: Option<T>) -> (outcome: Result<QueryValidator<T>, RejectionError>)
        ensures
            extraction(parsed, "Invalid query format", "Invalid query format", unwrap_query(outcome)),
    {
        match extract(parsed, "Invalid query format", "Invalid query format") {
            Ok(value) => Ok(QueryValidator(value)),
            Err(rejection) => Err(rejection),
        }
    }
}

impl<T> QueryValidator<T> {
    pub fn into_inner(self) -> (value: T)
        ensures
            value == self.0,
    {
        self.0
    }
}

impl<T> core::ops::Deref for QueryValidator<T> {
    type Target = T;

    fn deref(&self) -> (value: &T)
        ensures
            *value == self.0,
    {
        &self.0
    }
}

} // verus!
