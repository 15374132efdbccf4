//! The response that each domain failure is answered with.

use vstd::prelude::*;
use crate::errors::UserError;

verus! {

/// What a client sees of a domain failure: a status code, the request field
/// the failure is about (where there is one) and a fixed message.
#[derive(Debug, Clone, Copy)]
pub struct HttpResponse {
    pub status: u16,
    pub field: Option<&'static str>,
    pub message: &'static str,
}

/// Status code owed to each kind of failure.
pub open spec fn status_of(kind: UserError) -> u16 {
    match kind {
        UserError::NotFound => 404,
        UserError::EmailAlreadyExists => 409,
        UserError::UsernameAlreadyExists => 409,
        UserError::UnexpectedError => 500,
        UserError::InvalidEmail => 400,
        UserError::InvalidId => 400,
    }
}

/// Request field named in the body, for the kinds that concern one.
pub open spec fn field_of(kind: UserError) -> Option<&'static str> {
    match kind {
        UserError::NotFound => None,
        UserError::EmailAlreadyExists => Some("email"),
        UserError::UsernameAlreadyExists => Some("username"),
        UserError::UnexpectedError => None,
        UserError::InvalidEmail => Some("email"),
        UserError::InvalidId => Some("id"),
    }
}

/// Message carried in the body. It depends on the kind alone, so nothing of
/// the failure's origin can leak through it.
pub open spec fn message_of(kind: UserError) -> &'static str {
    match kind {
        UserError::NotFound => "User not found",
        UserError::EmailAlreadyExists => "Email already exists",
        UserError::UsernameAlreadyExists => "Username already exists",
        UserError::UnexpectedError => "Unexpected error",
        UserError::InvalidEmail => "The provided email is not valid to register",
        UserError::InvalidId => "The provided id is not valid",
    }
}

impl From<UserError> for HttpResponse {
    fn from(value: UserError) -> (response: HttpResponse)
        ensures
            response.status == status_of(value),
            response.field == field_of(value),
            response.message == message_of(value),
    {
        match value {
            UserError::UsernameAlreadyExists => HttpResponse {
                status: 409,
                field: Some("username"),
                message: "Username already exists",
            },
            UserError::EmailAlreadyExists => HttpResponse {
                status: 409,
                field: Some("email"),
                message: "Email already exists",
            },
            UserError::NotFound => HttpResponse {
                status: 404,
                field: None,
                message: "User not found",
            },
            UserError::UnexpectedError => HttpResponse {
                status: 500,
                field: None,
                message: "Unexpected error",
            },
            UserError::InvalidEmail => HttpResponse {
                status: 400,
                field: Some("email"),
                message: "The provided email is not valid to register",
            },
            UserError::InvalidId => HttpResponse {
                status: 400,
                field: Some("id"),
                message: "The provided id is not valid",
            },
        }
    }
}

impl vstd::std_specs::convert::FromSpecImpl<UserError> for HttpResponse {
    open spec fn obeys_from_spec() -> bool {
        true
    }

    open spec fn from_spec(value: UserError) -> HttpResponse {
        HttpResponse {
            status: status_of(value),
            field: field_of(value),
            message: message_of(value),
        }
    }
}

/// Every failure is answered with a client or a server error, and the only
/// server error is the unclassified failure. A failure that names a field is
/// a conflict or a bad request.
pub proof fn lemma_status_classes(kind: UserError)
    ensures
        400 <= status_of(kind) <= 500,
        status_of(kind) == 500 <==> kind == UserError::UnexpectedError,
        field_of(kind) is Some ==> status_of(kind) == 409 || status_of(kind) == 400,
        status_of(kind) == 409 <==> kind == UserError::EmailAlreadyExists || kind
            == UserError::UsernameAlreadyExists,
{
}

} // verus!
