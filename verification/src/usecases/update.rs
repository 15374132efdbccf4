//! Updating a user: the record is looked up, the fields that the request
//! gives replace the old ones, and the record is stored again.

use vstd::prelude::*;
use crate::dtos::{text_of, UpdateUserInput};
use crate::entity::{User, UserView};
use crate::errors::UserError;
use crate::ident::{id_or_invalid, parse_id, uuid_value};
use crate::stamp::now_micros;
use crate::store::{lift, lifted, RepositoryError};

verus! {

/// Where the update of a user stands.
#[derive(Debug, Clone, Copy, PartialEq, Eq, Structural)]
pub enum UpdatePhase {
    /// Waiting for the lookup of the record.
    Lookup,
    /// Waiting for the hash of the new password.
    Hashing,
    /// Waiting for the repository to store the record.
    Updating,
    /// The response has been given.
    Finished,
}

/// What a collaborator answered.
pub enum UpdateEvent {
    /// The repository looked the record up.
    Found(Result<Option<User>, RepositoryError>),
    /// The hasher hashed the password of the input, or failed to.
    Hashed(Option<String>),
    /// The repository stored the record.
    Updated(Result<User, RepositoryError>),
}

/// What is to be done next.
pub enum UpdateAction {
    /// Look up the user with the identifier.
    FindById(u128),
    /// Hash the password of the input.
    HashPassword,
    /// Store the record.
    Update(User),
    /// Answer the request.
    Respond(Result<User, UserError>),
}

/// The update of one user, from the validated input to the response. The
/// record that was found is kept while the new password is hashed.
pub struct UpdateUserCase {
    pub phase: UpdatePhase,
    pub input: UpdateUserInput,
    pub existing: Option<User>,
}

pub struct UpdateInputView {
    pub username: Option<Seq<char>>,
    pub email: Option<Seq<char>>,
    pub password: Option<Seq<char>>,
}

pub struct UpdateCaseView {
    pub phase: UpdatePhase,
    pub input: UpdateInputView,
    pub existing: Option<UserView>,
}

pub enum UpdateEventView {
    Found(Result<Option<UserView>, RepositoryError>),
    Hashed(Option<Seq<char>>),
    Updated(Result<UserView, RepositoryError>),
}

pub enum UpdateActionView {
    FindById(u128),
    HashPassword,
    Update(UserView),
    Respond(Result<UserView, UserError>),
}

pub open spec fn user_view(value: Option<User>) -> Option<UserView> {
    match value {
        Some(user) => Some(user@),
        None => None,
    }
}

impl View for UpdateUserInput {
    type V = UpdateInputView;

    open spec fn view(&self) -> UpdateInputView {
        UpdateInputView {
            username: text_of(self.username),
            email: text_of(self.email),
            password: text_of(self.password),
        }
    }
}

impl View for UpdateUserCase {
    type V = UpdateCaseView;

    open spec fn view(&self) -> UpdateCaseView {
        UpdateCaseView {
            phase: self.phase,
            input: self.input@,
            existing: user_view(self.existing),
        }
    }
}

impl View for UpdateEvent {
    type V = UpdateEventView;

    open spec fn view(&self) -> UpdateEventView {
        match self {
            UpdateEvent::Found(Ok(found)) => UpdateEventView::Found(Ok(user_view(*found))),
            UpdateEvent::Found(Err(error)) => UpdateEventView::Found(Err(*error)),
            UpdateEvent::Hashed(hash) => UpdateEventView::Hashed(text_of(*hash)),
            UpdateEvent::Updated(Ok(user)) => UpdateEventView::Updated(Ok(user@)),
            UpdateEvent::Updated(Err(error)) => UpdateEventView::Updated(Err(*error)),
        }
    }
}

impl View for UpdateAction {
    type V = UpdateActionView;

    open spec fn view(&self) -> UpdateActionView {
        match self {
            UpdateAction::FindById(id) => UpdateActionView::FindById(*id),
            UpdateAction::HashPassword => UpdateActionView::HashPassword,
            UpdateAction::Update(user) => UpdateActionView::Update(user@),
            UpdateAction::Respond(Ok(user)) => UpdateActionView::Respond(Ok(user@)),
            UpdateAction::Respond(Err(kind)) => UpdateActionView::Respond(Err(*kind)),
        }
    }
}

pub open spec fn or_old(new: Option<Seq<char>>, old: Seq<char>) -> Seq<char> {
    match new {
        Some(text) => text,
        None => old,
    }
}

pub open spec fn later(a: i64, b: i64) -> i64 {
    if a > b {
        a
    } else {
        b
    }
}

/// The record after an update at time `now`: the fields that the input
/// gives replace the old ones, the hash replaces the password where a new
/// one was hashed, and the time of the last update moves to `now` unless it
/// is later already. Identifier, validation flag and time of creation stay.
pub open spec fn merged(
    existing: UserView,
    input: UpdateInputView,
    hash: Option<Seq<char>>,
    now: i64,
) -> UserView {
    UserView {
        id: existing.id,
        username: or_old(input.username, existing.username),
        email: or_old(input.email, existing.email),
        password: or_old(hash, existing.password),
        validated: existing.validated,
        created_at: existing.created_at,
        updated_at: later(now, existing.updated_at),
    }
}

fn pick(new: &Option<String>, old: String) -> (text: String)
    ensures
        text@ == or_old(text_of(*new), old@),
{
    match new {
        Some(text) => text.clone(),
        None => old,
    }
}

/// Builds the record after an update.
pub fn merge(existing: User, input: &UpdateUserInput, hash: Option<String>, now: i64) -> (user:
    User)
    ensures
        user@ == merged(existing@, input@, text_of(hash), now),
        existing.wf() ==> user.wf(),
{
    let User { id, username, email, password, validated, created_at, updated_at } = existing;
    User {
        id,
        username: pick(&input.username, username),
        email: pick(&input.email, email),
        password: match hash {
            Some(text) => text,
            None => password,
        },
        validated,
        created_at,
        updated_at: if now > updated_at {
            now
        } else {
            updated_at
        },
    }
}

pub open spec fn update_finished(case: UpdateCaseView, result: Result<UserView, UserError>) -> (
    UpdateCaseView,
    UpdateActionView,
) {
    (
        UpdateCaseView { phase: UpdatePhase::Finished, input: case.input, existing: None },
        UpdateActionView::Respond(result),
    )
}

pub open spec fn update_storing(case: UpdateCaseView, user: UserView) -> (
    UpdateCaseView,
    UpdateActionView,
) {
    (
        UpdateCaseView { phase: UpdatePhase::Updating, input: case.input, existing: None },
        UpdateActionView::Update(user),
    )
}

/// How the use case begins, given what was read from the identifier: a text
/// that is no identifier is refused before the repository is touched.
pub open spec fn update_start(read: Option<u128>, input: UpdateInputView) -> (
    UpdateCaseView,
    UpdateActionView,
) {
    match id_or_invalid(read) {
        Ok(id) => (
            UpdateCaseView { phase: UpdatePhase::Lookup, input, existing: None },
            UpdateActionView::FindById(id),
        ),
        Err(kind) => (
            UpdateCaseView { phase: UpdatePhase::Finished, input, existing: None },
            UpdateActionView::Respond(Err(kind)),
        ),
    }
}

/// The decision taken on an answer. A record that is not there ends the use
/// case with `NotFound`. A new password is hashed before the record is
/// built; without one the record is built at once. A failed lookup, a failed
/// hash and an answer that does not belong to the phase end the use case
/// with an unclassified failure; a conflict that the store noticed is
/// reported as the conflict it is. The time is read only when the record is
/// built.
pub open spec fn update_step(case: UpdateCaseView, event: UpdateEventView, now: i64) -> (
    UpdateCaseView,
    UpdateActionView,
) {
    match (case.phase, event) {
        (UpdatePhase::Lookup, UpdateEventView::Found(Ok(None))) => update_finished(
            case,
            Err(UserError::NotFound),
        ),
        (UpdatePhase::Lookup, UpdateEventView::Found(Ok(Some(existing)))) => {
            if case.input.password is Some {
                (
                    UpdateCaseView {
                        phase: UpdatePhase::Hashing,
                        input: case.input,
                        existing: Some(existing),
                    },
                    UpdateActionView::HashPassword,
                )
            } else {
                update_storing(case, merged(existing, case.input, None, now))
            }
        },
        (UpdatePhase::Hashing, UpdateEventView::Hashed(Some(hash))) => {
            match case.existing {
                Some(existing) => update_storing(
                    case,
                    merged(existing, case.input, Some(hash), now),
                ),
                None => update_finished(case, Err(UserError::UnexpectedError)),
            }
        },
        (UpdatePhase::Updating, UpdateEventView::Updated(Ok(user))) => update_finished(
            case,
            Ok(user),
        ),
        (UpdatePhase::Updating, UpdateEventView::Updated(Err(error))) => update_finished(
            case,
            Err(lifted(error)),
        ),
        _ => update_finished(case, Err(UserError::UnexpectedError)),
    }
}

impl UpdateUserCase {
    /// Begins the use case with the identifier already read.
    pub fn start_with(id: Result<u128, UserError>, input: UpdateUserInput) -> (begun: (
        UpdateUserCase,
        UpdateAction,
    ))
        ensures
            begun.0.input == input,
            begun.0.existing is None,
            match id {
                Ok(id) => begun.0.phase == UpdatePhase::Lookup && begun.1@
                    == UpdateActionView::FindById(id),
                Err(kind) => begun.0.phase == UpdatePhase::Finished && begun.1@
                    == UpdateActionView::Respond(Err(kind)),
            },
    {
        match id {
            Ok(id) => (
                UpdateUserCase { phase: UpdatePhase::Lookup, input, existing: None },
                UpdateAction::FindById(id),
            ),
            Err(kind) => (
                UpdateUserCase { phase: UpdatePhase::Finished, input, existing: None },
                UpdateAction::Respond(Err(kind)),
            ),
        }
    }

    /// Begins the use case with the identifier as the request gave it.
    pub fn start(id: &str, input: UpdateUserInput) -> (begun: (UpdateUserCase, UpdateAction))
        ensures
            (begun.0@, begun.1@) == update_start(uuid_value(id@), input@),
            begun.0.input == input,
    {
        UpdateUserCase::start_with(parse_id(id), input)
    }

    /// Takes the decision of [`update_step`] at the time given.
    pub fn step_at(self, event: UpdateEvent, now: i64) -> (next: (UpdateUserCase, UpdateAction))
        ensures
            (next.0@, next.1@) == update_step(self@, event@, now),
            next.0.input == self.input,
    {
        let UpdateUserCase { phase, input, existing } = self;
        let action = match (phase, event) {
            (UpdatePhase::Lookup, UpdateEvent::Found(Ok(None))) => UpdateAction::Respond(
                Err(UserError::NotFound),
            ),
            (UpdatePhase::Lookup, UpdateEvent::Found(Ok(Some(found)))) => {
                if input.password.is_some() {
                    return (
                        UpdateUserCase { phase: UpdatePhase::Hashing, input, existing: Some(found) },
                        UpdateAction::HashPassword,
                    );
                }
                let user = merge(found, &input, None, now);
                return (
                    UpdateUserCase { phase: UpdatePhase::Updating, input, existing: None },
                    UpdateAction::Update(user),
                );
            },
            (UpdatePhase::Hashing, UpdateEvent::Hashed(Some(hash))) => {
                match existing {
                    Some(found) => {
                        let user = merge(found, &input, Some(hash), now);
                        return (
                            UpdateUserCase { phase: UpdatePhase::Updating, input, existing: None },
                            UpdateAction::Update(user),
                        );
                    },
                    None => UpdateAction::Respond(Err(UserError::UnexpectedError)),
                }
            },
            (UpdatePhase::Updating, UpdateEvent::Updated(Ok(user))) => UpdateAction::Respond(
                Ok(user),
            ),
            (UpdatePhase::Updating, UpdateEvent::Updated(Err(error))) => UpdateAction::Respond(
                Err(lift(error)),
            ),
            _ => UpdateAction::Respond(Err(UserError::UnexpectedError)),
        };
        (UpdateUserCase { phase: UpdatePhase::Finished, input, existing: None }, action)
    }

    /// Takes the decision on an answer. Where the record is built, the time
    /// of the update is read from the clock; whatever it is, the decision is
    /// that of [`update_step`].
    pub fn step(self, event: UpdateEvent) -> (next: (UpdateUserCase, UpdateAction))
        ensures
            exists|now: i64| (next.0@, next.1@) == #[trigger] update_step(self@, event@, now),
            next.0.input == self.input,
    {
        let now: i64 = match (self.phase, &event) {
            (UpdatePhase::Lookup, UpdateEvent::Found(Ok(Some(_)))) => now_micros(),
            (UpdatePhase::Hashing, UpdateEvent::Hashed(Some(_))) => now_micros(),
            _ => 0,
        };
        let ghost before = self@;
        let ghost answer = event@;
        let next = self.step_at(event, now);
        assert((next.0@, next.1@) == update_step(before, answer, now));
        next
    }
}

} // verus!
