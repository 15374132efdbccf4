//! The repository as the use cases see it: the failures it reports and a
//! mathematical model of what it holds, against which the use cases are
//! stated.

use vstd::prelude::*;
use crate::entity::UserView;
use crate::errors::UserError;

verus! {

/// How a call on the repository can fail. A conflict is reported where the
/// store itself refuses a second user with the same e-mail address or the
/// same username.
#[derive(Debug, Clone, Copy, PartialEq, Eq, Structural)]
pub enum RepositoryError {
    Persistence,
    EmailTaken,
    UsernameTaken,
}

/// The domain failure that a repository failure becomes.
pub open spec fn lifted(error: RepositoryError) -> UserError {
    match error {
        RepositoryError::Persistence => UserError::UnexpectedError,
        RepositoryError::EmailTaken => UserError::EmailAlreadyExists,
        RepositoryError::UsernameTaken => UserError::UsernameAlreadyExists,
    }
}

pub fn lift(error: RepositoryError) -> (kind: UserError)
    ensures
        kind == lifted(error),
{
    match error {
        RepositoryError::Persistence => UserError::UnexpectedError,
        RepositoryError::EmailTaken => UserError::EmailAlreadyExists,
        RepositoryError::UsernameTaken => UserError::UsernameAlreadyExists,
    }
}

/// The users of a store, in the order of their creation.
pub type Store = Seq<UserView>;

pub open spec fn has_id(store: Store, id: u128) -> bool {
    exists|i: int| 0 <= i < store.len() && (#[trigger] store[i]).id == id
}

pub open spec fn has_email(store: Store, email: Seq<char>) -> bool {
    exists|i: int| 0 <= i < store.len() && (#[trigger] store[i]).email == email
}

pub open spec fn has_username(store: Store, username: Seq<char>) -> bool {
    exists|i: int| 0 <= i < store.len() && (#[trigger] store[i]).username == username
}

/// Some user of the store with the identifier, if there is one.
pub open spec fn find_by_id(store: Store, id: u128) -> Option<UserView> {
    if has_id(store, id) {
        Some(store[choose|i: int| 0 <= i < store.len() && (#[trigger] store[i]).id == id])
    } else {
        None
    }
}

pub open spec fn find_by_email(store: Store, email: Seq<char>) -> Option<UserView> {
    if has_email(store, email) {
        Some(store[choose|i: int| 0 <= i < store.len() && (#[trigger] store[i]).email == email])
    } else {
        None
    }
}

pub open spec fn find_by_username(store: Store, username: Seq<char>) -> Option<UserView> {
    if has_username(store, username) {
        Some(
            store[choose|i: int| 0 <= i < store.len() && (#[trigger] store[i]).username == username],
        )
    } else {
        None
    }
}

/// No two users of the store share an identifier, an e-mail address or a
/// username, and every record is well formed.
pub open spec fn store_wf(store: Store) -> bool {
    &&& forall|i: int| 0 <= i < store.len() ==> (#[trigger] store[i]).wf()
    &&& forall|i: int, j: int|
        0 <= i < j < store.len() ==> {
            &&& (#[trigger] store[i]).id != (#[trigger] store[j]).id
            &&& store[i].email != store[j].email
            &&& store[i].username != store[j].username
        }
}

/// The store with one more user, the newest.
pub open spec fn inserted(store: Store, user: UserView) -> Store {
    store.push(user)
}

/// The store in which every user with the identifier of `user` has become
/// `user`.
pub open spec fn replaced(store: Store, user: UserView) -> Store {
    Seq::new(
        store.len(),
        |i: int|
            if store[i].id == user.id {
                user
            } else {
                store[i]
            },
    )
}

/// The store without the users that have the identifier.
pub open spec fn removed(store: Store, id: u128) -> Store {
    store.filter(|user: UserView| user.id != id)
}

/// Where in the store a page starts and ends.
pub open spec fn page_start(len: nat, page: int, page_size: int) -> int {
    let start = (page - 1) * page_size;
    if start < 0 {
        0
    } else if start > len {
        len as int
    } else {
        start
    }
}

pub open spec fn page_end(len: nat, page: int, page_size: int) -> int {
    let end = page * page_size;
    if end < page_start(len, page, page_size) {
        page_start(len, page, page_size)
    } else if end > len {
        len as int
    } else {
        end
    }
}

/// The users on a page, in the order of the store.
pub open spec fn page_rows(store: Store, page: int, page_size: int) -> Seq<UserView> {
    store.subrange(
        page_start(store.len(), page, page_size),
        page_end(store.len(), page, page_size),
    )
}

/// A page never holds more users than its size.
pub proof fn lemma_page_rows_len(store: Store, page: int, page_size: int)
    requires
        page >= 1,
        page_size >= 1,
    ensures
        page_rows(store, page, page_size).len() <= page_size,
{
    assert(page * page_size == (page - 1) * page_size + page_size) by (nonlinear_arith);
    assert((page - 1) * page_size >= 0) by (nonlinear_arith)
        requires
            page >= 1,
            page_size >= 1,
    ;
}

} // verus!
