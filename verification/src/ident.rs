//! Identifiers as they arrive in a request path.

use vstd::prelude::*;
use crate::errors::UserError;

verus! {

/// The 128-bit value of the UUID that a text writes, where `uuid` reads one
/// from it. The forms that the crate reads are not restated here.
pub uninterp spec fn uuid_value(text: Seq<char>) -> Option<u128>;

/// Calls `uuid::Uuid::parse_str` and, on success, `Uuid::as_u128`. The
/// answer depends on the text alone; the contract gives it a name and claims
/// no more.
#[verifier::external_body]
fn parse_uuid(text: &str) -> (id: Option<u128>)
    ensures
        id == uuid_value(text@),
{
    match uuid::Uuid::parse_str(text) {
        Ok(uuid) => Some(uuid.as_u128()),
        Err(_) => None,
    }
}

/// The identifier owed to what was read from a text: the value itself, or
/// the failure that names the identifier as invalid.
pub open spec fn id_or_invalid(read: Option<u128>) -> Result<u128, UserError> {
    match read {
        Some(id) => Ok(id),
        None => Err(UserError::InvalidId),
    }
}

/// Classifies what was read from a text.
pub fn classify_id(read: Option<u128>) -> (id: Result<u128, UserError>)
    ensures
        id == id_or_invalid(read),
{
    match read {
        Some(id) => Ok(id),
        None => Err(UserError::InvalidId),
    }
}

/// Reads the identifier of a user from the text of a request path.
pub fn parse_id(text: &str) -> (id: Result<u128, UserError>)
    ensures
        id == id_or_invalid(uuid_value(text@)),
{
    classify_id(parse_uuid(text))
}

} // verus!
