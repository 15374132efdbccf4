//! Creating a user: the e-mail address and the username must both be free,
//! the password is hashed, and the new record is stored.

use vstd::prelude::*;
use crate::dtos::CreateUserInput;
use crate::entity::{User, UserView};
use crate::errors::UserError;
use crate::stamp::Stamp;
use crate::store::{lift, lifted, RepositoryError};

verus! {

/// Where the creation of a user stands.
#[derive(Debug, Clone, Copy, PartialEq, Eq, Structural)]
pub enum CreatePhase {
    /// Waiting for the lookup of the e-mail address.
    EmailLookup,
    /// Waiting for the lookup of the username.
    UsernameLookup,
    /// Waiting for the hash of the password.
    Hashing,
    /// Waiting for the repository to store the record.
    Inserting,
    /// The response has been given.
    Finished,
}

/// What a collaborator answered.
pub enum CreateEvent {
    /// The repository looked a user up.
    Found(Result<Option<User>, RepositoryError>),
    /// The hasher hashed the password of the input, or failed to.
    Hashed(Option<String>),
    /// The repository stored the record.
    Inserted(Result<User, RepositoryError>),
}

/// What is to be done next.
pub enum CreateAction {
    /// Look up the user with the e-mail address of the input.
    FindByEmail,
    /// Look up the user with the username of the input.
    FindByUsername,
    /// Hash the password of the input.
    HashPassword,
    /// Store the record.
    Insert(User),
    /// Answer the request.
    Respond(Result<User, UserError>),
}

/// The creation of one user, from the validated input to the response.
pub struct CreateUserCase {
    pub phase: CreatePhase,
    pub input: CreateUserInput,
}

pub struct CreateInputView {
    pub username: Seq<char>,
    pub email: Seq<char>,
    pub password: Seq<char>,
}

pub struct CreateCaseView {
    pub phase: CreatePhase,
    pub input: CreateInputView,
}

pub enum CreateEventView {
    Found(Result<Option<UserView>, RepositoryError>),
    Hashed(Option<Seq<char>>),
    Inserted(Result<UserView, RepositoryError>),
}

pub enum CreateActionView {
    FindByEmail,
    FindByUsername,
    HashPassword,
    Insert(UserView),
    Respond(Result<UserView, UserError>),
}

impl View for CreateUserInput {
    type V = CreateInputView;

    open spec fn view(&self) -> CreateInputView {
        CreateInputView { username: self.username@, email: self.email@, password: self.password@ }
    }
}

impl View for CreateUserCase {
    type V = CreateCaseView;

    open spec fn view(&self) -> CreateCaseView {
        CreateCaseView { phase: self.phase, input: self.input@ }
    }
}

impl View for CreateEvent {
    type V = CreateEventView;

    open spec fn view(&self) -> CreateEventView {
        match self {
            CreateEvent::Found(Ok(Some(user))) => CreateEventView::Found(Ok(Some(user@))),
            CreateEvent::Found(Ok(None)) => CreateEventView::Found(Ok(None)),
            CreateEvent::Found(Err(error)) => CreateEventView::Found(Err(*error)),
            CreateEvent::Hashed(Some(hash)) => CreateEventView::Hashed(Some(hash@)),
            CreateEvent::Hashed(None) => CreateEventView::Hashed(None),
            CreateEvent::Inserted(Ok(user)) => CreateEventView::Inserted(Ok(user@)),
            CreateEvent::Inserted(Err(error)) => CreateEventView::Inserted(Err(*error)),
        }
    }
}

impl View for CreateAction {
    type V = CreateActionView;

    open spec fn view(&self) -> CreateActionView {
        match self {
            CreateAction::FindByEmail => CreateActionView::FindByEmail,
            CreateAction::FindByUsername => CreateActionView::FindByUsername,
            CreateAction::HashPassword => CreateActionView::HashPassword,
            CreateAction::Insert(user) => CreateActionView::Insert(user@),
            CreateAction::Respond(Ok(user)) => CreateActionView::Respond(Ok(user@)),
            CreateAction::Respond(Err(kind)) => CreateActionView::Respond(Err(*kind)),
        }
    }
}

/// The record of a new user: not yet validated, created and last updated at
/// the time of the stamp, under the identifier of the stamp, with the hash in
/// place of the password.
pub open spec fn new_user_view(input: CreateInputView, hash: Seq<char>, stamp: Stamp) -> UserView {
    UserView {
        id: stamp.id,
        username: input.username,
        email: input.email,
        password: hash,
        validated: false,
        created_at: stamp.now,
        updated_at: stamp.now,
    }
}

/// Builds the record of a new user.
pub fn new_user(input: &CreateUserInput, hash: String, stamp: Stamp) -> (user: User)
    ensures
        user@ == new_user_view(input@, hash@, stamp),
        user.wf(),
{
    User {
        id: stamp.id,
        username: input.username.clone(),
        email: input.email.clone(),
        password: hash,
        validated: false,
        created_at: stamp.now,
        updated_at: stamp.now,
    }
}

pub open spec fn finished(input: CreateInputView, result: Result<UserView, UserError>) -> (
    CreateCaseView,
    CreateActionView,
) {
    (CreateCaseView { phase: CreatePhase::Finished, input }, CreateActionView::Respond(result))
}

pub open spec fn waiting(input: CreateInputView, phase: CreatePhase, action: CreateActionView) -> (
    CreateCaseView,
    CreateActionView,
) {
    (CreateCaseView { phase, input }, action)
}

/// The decision taken on an answer. The e-mail address is looked up before
/// the username, so a request that collides on both is refused for the
/// e-mail address. A failed lookup, a failed hash and an answer that does not
/// belong to the phase end the use case with an unclassified failure; a
/// conflict that only the store noticed is reported as the conflict it is.
/// The stamp is read only when the record is built.
pub open spec fn create_step(case: CreateCaseView, event: CreateEventView, stamp: Stamp) -> (
    CreateCaseView,
    CreateActionView,
) {
    let input = case.input;
    match (case.phase, event) {
        (CreatePhase::EmailLookup, CreateEventView::Found(Ok(None))) => waiting(
            input,
            CreatePhase::UsernameLookup,
            CreateActionView::FindByUsername,
        ),
        (CreatePhase::EmailLookup, CreateEventView::Found(Ok(Some(_)))) => finished(
            input,
            Err(UserError::EmailAlreadyExists),
        ),
        (CreatePhase::UsernameLookup, CreateEventView::Found(Ok(None))) => waiting(
            input,
            CreatePhase::Hashing,
            CreateActionView::HashPassword,
        ),
        (CreatePhase::UsernameLookup, CreateEventView::Found(Ok(Some(_)))) => finished(
            input,
            Err(UserError::UsernameAlreadyExists),
        ),
        (CreatePhase::Hashing, CreateEventView::Hashed(Some(hash))) => waiting(
            input,
            CreatePhase::Inserting,
            CreateActionView::Insert(new_user_view(input, hash, stamp)),
        ),
        (CreatePhase::Inserting, CreateEventView::Inserted(Ok(user))) => finished(input, Ok(user)),
        (CreatePhase::Inserting, CreateEventView::Inserted(Err(error))) => finished(
            input,
            Err(lifted(error)),
        ),
        _ => finished(input, Err(UserError::UnexpectedError)),
    }
}

impl CreateUserCase {
    /// Begins the use case: the first thing to do is to look the e-mail
    /// address up.
    pub fn start(input: CreateUserInput) -> (begun: (CreateUserCase, CreateAction))
        ensures
            begun.0.phase == CreatePhase::EmailLookup,
            begun.0.input == input,
            begun.1@ == CreateActionView::FindByEmail,
    {
        (CreateUserCase { phase: CreatePhase::EmailLookup, input }, CreateAction::FindByEmail)
    }

    /// Takes the decision of [`create_step`] with the stamp given.
    pub fn step_with(self, event: CreateEvent, stamp: Stamp) -> (next: (CreateUserCase, CreateAction))
        ensures
            (next.0@, next.1@) == create_step(self@, event@, stamp),
            next.0.input == self.input,
    {
        let CreateUserCase { phase, input } = self;
        let action = match (phase, event) {
            (CreatePhase::EmailLookup, CreateEvent::Found(Ok(None))) => {
                return (
                    CreateUserCase { phase: CreatePhase::UsernameLookup, input },
                    CreateAction::FindByUsername,
                );
            },
            (CreatePhase::EmailLookup, CreateEvent::Found(Ok(Some(_)))) => CreateAction::Respond(
                Err(UserError::EmailAlreadyExists),
            ),
            (CreatePhase::UsernameLookup, CreateEvent::Found(Ok(None))) => {
                return (
                    CreateUserCase { phase: CreatePhase::Hashing, input },
                    CreateAction::HashPassword,
                );
            },
            (
                CreatePhase::UsernameLookup,
                CreateEvent::Found(Ok(Some(_))),
            ) => CreateAction::Respond(Err(UserError::UsernameAlreadyExists)),
            (CreatePhase::Hashing, CreateEvent::Hashed(Some(hash))) => {
                let user = new_user(&input, hash, stamp);
                return (
                    CreateUserCase { phase: CreatePhase::Inserting, input },
                    CreateAction::Insert(user),
                );
            },
            (CreatePhase::Inserting, CreateEvent::Inserted(Ok(user))) => CreateAction::Respond(
                Ok(user),
            ),
            (CreatePhase::Inserting, CreateEvent::Inserted(Err(error))) => CreateAction::Respond(
                Err(lift(error)),
            ),
            _ => CreateAction::Respond(Err(UserError::UnexpectedError)),
        };
        (CreateUserCase { phase: CreatePhase::Finished, input }, action)
    }

    /// Takes the decision on an answer. Where the record is built, its
    /// identifier is drawn afresh and its timestamps are read from the
    /// clock; whatever they are, the decision is that of [`create_step`].
    pub fn step(self, event: CreateEvent) -> (next: (CreateUserCase, CreateAction))
        ensures
            exists|stamp: Stamp| (next.0@, next.1@) == #[trigger] create_step(self@, event@, stamp),
            next.0.input == self.input,
    {
        let stamp = match (self.phase, &event) {
            (CreatePhase::Hashing, CreateEvent::Hashed(Some(_))) => Stamp::draw(),
            _ => Stamp { id: 0, now: 0 },
        };
        let ghost before = self@;
        let ghost answer = event@;
        let next = self.step_with(event, stamp);
        assert((next.0@, next.1@) == create_step(before, answer, stamp));
        next
    }
}

} // verus!
