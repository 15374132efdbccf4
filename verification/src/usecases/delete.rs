//! Deleting a user. Deleting an identifier that no user has is not a
//! failure: the repository removes what there is, and the answer is the
//! same whether or not there was anything.

use vstd::prelude::*;
use crate::errors::UserError;
use crate::ident::{id_or_invalid, parse_id, uuid_value};
use crate::store::{lift, lifted, RepositoryError};

verus! {

/// Where the deletion of a user stands.
#[derive(Debug, Clone, Copy, PartialEq, Eq, Structural)]
pub enum DeletePhase {
    /// Waiting for the repository to delete.
    Deleting,
    /// The response has been given.
    Finished,
}

/// What the repository answered to the deletion.
#[derive(Debug, Clone, Copy, PartialEq, Eq)]
pub enum DeleteEvent {
    Deleted(Result<(), RepositoryError>),
}

/// What is to be done next.
#[derive(Debug, Clone, Copy, PartialEq, Eq)]
pub enum DeleteAction {
    /// Delete the user with the identifier.
    DeleteById(u128),
    /// Answer the request.
    Respond(Result<(), UserError>),
}

/// The deletion of one user, from the identifier in the request to the
/// response.
#[derive(Debug, Clone, Copy, PartialEq, Eq, Structural)]
pub struct DeleteUserCase {
    pub phase: DeletePhase,
}

/// How the use case begins, given what was read from the identifier: a text
/// that is no identifier is refused before the repository is touched.
pub open spec fn delete_start(read: Option<u128>) -> (DeleteUserCase, DeleteAction) {
    match id_or_invalid(read) {
        Ok(id) => (DeleteUserCase { phase: DeletePhase::Deleting }, DeleteAction::DeleteById(id)),
        Err(kind) => (
            DeleteUserCase { phase: DeletePhase::Finished },
            DeleteAction::Respond(Err(kind)),
        ),
    }
}

/// The decision taken on the repository's answer: success, or the failure
/// lifted into the domain. An answer after the response is a failure.
pub open spec fn delete_step(case: DeleteUserCase, event: DeleteEvent) -> (
    DeleteUserCase,
    DeleteAction,
) {
    let done = DeleteUserCase { phase: DeletePhase::Finished };
    match (case.phase, event) {
        (DeletePhase::Deleting, DeleteEvent::Deleted(Ok(()))) => (done, DeleteAction::Respond(Ok(()))),
        (DeletePhase::Deleting, DeleteEvent::Deleted(Err(error))) => (
            done,
            DeleteAction::Respond(Err(lifted(error))),
        ),
        (DeletePhase::Finished, _) => (done, DeleteAction::Respond(Err(UserError::UnexpectedError))),
    }
}

impl DeleteUserCase {
    /// Begins the use case with the identifier already read.
    pub fn start_with(id: Result<u128, UserError>) -> (begun: (DeleteUserCase, DeleteAction))
        ensures
            begun == match id {
                Ok(id) => (
                    DeleteUserCase { phase: DeletePhase::Deleting },
                    DeleteAction::DeleteById(id),
                ),
                Err(kind) => (
                    DeleteUserCase { phase: DeletePhase::Finished },
                    DeleteAction::Respond(Err(kind)),
                ),
            },
    {
        match id {
            Ok(id) => (DeleteUserCase { phase: DeletePhase::Deleting }, DeleteAction::DeleteById(id)),
            Err(kind) => (
                DeleteUserCase { phase: DeletePhase::Finished },
                DeleteAction::Respond(Err(kind)),
            ),
        }
    }

    /// Begins the use case with the identifier as the request gave it.
    pub fn start(user_id: &str) -> (begun: (DeleteUserCase, DeleteAction))
        ensures
            begun == delete_start(uuid_value(user_id@)),
    {
        DeleteUserCase::start_with(parse_id(user_id))
    }

    /// Takes the decision of [`delete_step`].
    pub fn step(self, event: DeleteEvent) -> (next: (DeleteUserCase, DeleteAction))
        ensures
            next == delete_step(self, event),
    {
        let done = DeleteUserCase { phase: DeletePhase::Finished };
        match (self.phase, event) {
            (DeletePhase::Deleting, DeleteEvent::Deleted(Ok(()))) => (
                done,
                DeleteAction::Respond(Ok(())),
            ),
            (DeletePhase::Deleting, DeleteEvent::Deleted(Err(error))) => (
                done,
                DeleteAction::Respond(Err(lift(error))),
            ),
            (DeletePhase::Finished, _) => (
                done,
                DeleteAction::Respond(Err(UserError::UnexpectedError)),
            ),
        }
    }
}

} // verus!
