//! Whole runs of the use cases against a model of their collaborators, and
//! what holds of them.
//!
//! A run feeds a use case the answers that a store holding a given sequence
//! of users, and a cache holding a given map, would give, and follows its
//! decisions to the response. The statements below are about such runs.

use vstd::prelude::*;
use crate::cache::{key_of, lemma_key_injective};
use crate::entity::{lemma_pages_needed, PageView, UserView};
use crate::errors::UserError;
use crate::ident::id_or_invalid;
use crate::stamp::Stamp;
use crate::store::{
    find_by_email, find_by_id, find_by_username, has_email, has_id, has_username, inserted,
    lemma_page_rows_len, page_rows, removed, replaced, store_wf, RepositoryError, Store,
};
use crate::usecases::create::{
    create_step, new_user_view, CreateActionView, CreateCaseView, CreateEventView, CreateInputView,
    CreatePhase,
};
use crate::usecases::delete::{delete_start, delete_step, DeleteAction, DeleteEvent};
use crate::usecases::get::{
    get_start, get_step, listed_page, offset_of, query_ok, usable, GetActionView, GetEventView,
};
use crate::usecases::update::{
    later, merged, update_start, update_step, UpdateActionView, UpdateEventView, UpdateInputView,
};

verus! {

/// What the store answers to the insertion of a record: it refuses a second
/// user with the same e-mail address, username or identifier.
pub open spec fn insert_answer(store: Store, user: UserView) -> Result<UserView, RepositoryError> {
    if has_email(store, user.email) {
        Err(RepositoryError::EmailTaken)
    } else if has_username(store, user.username) {
        Err(RepositoryError::UsernameTaken)
    } else if has_id(store, user.id) {
        Err(RepositoryError::Persistence)
    } else {
        Ok(user)
    }
}

/// The creation of a user from beginning to end: the store after it and the
/// response. `hash` is what the hasher answers, `stamp` what the record
/// takes from outside.
pub open spec fn create_run(
    store: Store,
    input: CreateInputView,
    hash: Option<Seq<char>>,
    stamp: Stamp,
) -> (Store, Result<UserView, UserError>) {
    let begun = CreateCaseView { phase: CreatePhase::EmailLookup, input };
    let (looked, first) = create_step(
        begun,
        CreateEventView::Found(Ok(find_by_email(store, input.email))),
        stamp,
    );
    match first {
        CreateActionView::FindByUsername => {
            let (named, second) = create_step(
                looked,
                CreateEventView::Found(Ok(find_by_username(store, input.username))),
                stamp,
            );
            match second {
                CreateActionView::HashPassword => {
                    let (hashed, third) = create_step(named, CreateEventView::Hashed(hash), stamp);
                    match third {
                        CreateActionView::Insert(user) => {
                            let answer = insert_answer(store, user);
                            let (_, last) = create_step(
                                hashed,
                                CreateEventView::Inserted(answer),
                                stamp,
                            );
                            let after = if answer is Ok {
                                inserted(store, user)
                            } else {
                                store
                            };
                            match last {
                                CreateActionView::Respond(result) => (after, result),
                                _ => (after, Err(UserError::UnexpectedError)),
                            }
                        },
                        CreateActionView::Respond(result) => (store, result),
                        _ => (store, Err(UserError::UnexpectedError)),
                    }
                },
                CreateActionView::Respond(result) => (store, result),
                _ => (store, Err(UserError::UnexpectedError)),
            }
        },
        CreateActionView::Respond(result) => (store, result),
        _ => (store, Err(UserError::UnexpectedError)),
    }
}

/// A user whose e-mail address is taken is refused for the e-mail address,
/// whatever the username. A user whose e-mail address is free and whose
/// username is taken is refused for the username. Neither refusal changes
/// the store.
pub proof fn lemma_create_conflict(
    store: Store,
    input: CreateInputView,
    hash: Option<Seq<char>>,
    stamp: Stamp,
)
    ensures
        has_email(store, input.email) ==> create_run(store, input, hash, stamp) == (
            store,
            Err::<UserView, UserError>(UserError::EmailAlreadyExists),
        ),
        !has_email(store, input.email) && has_username(store, input.username) ==> create_run(
            store,
            input,
            hash,
            stamp,
        ) == (store, Err::<UserView, UserError>(UserError::UsernameAlreadyExists)),
{
}

/// A user whose e-mail address and username are free is stored under the
/// fresh identifier, with the hash in place of the password, and is the
/// response. The store stays well formed.
pub proof fn lemma_create_success(
    store: Store,
    input: CreateInputView,
    hash: Seq<char>,
    stamp: Stamp,
)
    requires
        !has_email(store, input.email),
        !has_username(store, input.username),
        !has_id(store, stamp.id),
    ensures
        create_run(store, input, Some(hash), stamp) == (
            store.push(new_user_view(input, hash, stamp)),
            Ok::<UserView, UserError>(new_user_view(input, hash, stamp)),
        ),
        store_wf(store) ==> store_wf(create_run(store, input, Some(hash), stamp).0),
{
    let user = new_user_view(input, hash, stamp);
    let after = store.push(user);
    if store_wf(store) {
        assert forall|i: int, j: int| 0 <= i < j < after.len() implies {
            &&& (#[trigger] after[i]).id != (#[trigger] after[j]).id
            &&& after[i].email != after[j].email
            &&& after[i].username != after[j].username
        } by {
            if j == store.len() {
                assert(after[i] == store[i]);
                assert(after[j] == user);
            } else {
                assert(after[i] == store[i]);
                assert(after[j] == store[j]);
            }
        }
        assert forall|i: int| 0 <= i < after.len() implies (#[trigger] after[i]).wf() by {
            if i < store.len() {
                assert(after[i] == store[i]);
            }
        }
    }
}

/// Whether another user of the store has the e-mail address.
pub open spec fn email_of_other(store: Store, id: u128, email: Seq<char>) -> bool {
    exists|i: int| 0 <= i < store.len() && (#[trigger] store[i]).id != id && store[i].email == email
}

/// Whether another user of the store has the username.
pub open spec fn username_of_other(store: Store, id: u128, username: Seq<char>) -> bool {
    exists|i: int|
        0 <= i < store.len() && (#[trigger] store[i]).id != id && store[i].username == username
}

/// What the store answers to the update of a record: it refuses an e-mail
/// address or a username that another user has.
pub open spec fn update_answer(store: Store, user: UserView) -> Result<UserView, RepositoryError> {
    if email_of_other(store, user.id, user.email) {
        Err(RepositoryError::EmailTaken)
    } else if username_of_other(store, user.id, user.username) {
        Err(RepositoryError::UsernameTaken)
    } else {
        Ok(user)
    }
}

/// The update of a user from beginning to end: the store after it and the
/// response. `read` is what was read from the identifier of the request,
/// `hash` what the hasher answers, `now` the time of the update.
pub open spec fn update_run(
    store: Store,
    read: Option<u128>,
    input: UpdateInputView,
    hash: Option<Seq<char>>,
    now: i64,
) -> (Store, Result<UserView, UserError>) {
    let (begun, first) = update_start(read, input);
    match first {
        UpdateActionView::FindById(id) => {
            let (looked, second) = update_step(
                begun,
                UpdateEventView::Found(Ok(find_by_id(store, id))),
                now,
            );
            let (ready, third) = match second {
                UpdateActionView::HashPassword => update_step(
                    looked,
                    UpdateEventView::Hashed(hash),
                    now,
                ),
                _ => (looked, second),
            };
            match third {
                UpdateActionView::Update(user) => {
                    let answer = update_answer(store, user);
                    let (_, last) = update_step(ready, UpdateEventView::Updated(answer), now);
                    let after = if answer is Ok {
                        replaced(store, user)
                    } else {
                        store
                    };
                    match last {
                        UpdateActionView::Respond(result) => (after, result),
                        _ => (after, Err(UserError::UnexpectedError)),
                    }
                },
                UpdateActionView::Respond(result) => (store, result),
                _ => (store, Err(UserError::UnexpectedError)),
            }
        },
        UpdateActionView::Respond(result) => (store, result),
        _ => (store, Err(UserError::UnexpectedError)),
    }
}

/// An update that gives only a username, one that no other user has, changes
/// the username and nothing else but the time of the last update: e-mail
/// address, password, identifier, validation flag and time of creation stay.
/// The time of the last update does not go back, and it is the time of the
/// update unless the record was updated later than that already.
pub proof fn lemma_update_username_only(
    store: Store,
    id: u128,
    username: Seq<char>,
    hash: Option<Seq<char>>,
    now: i64,
)
    requires
        has_id(store, id),
        !username_of_other(store, id, username),
        store_wf(store),
    ensures
        ({
            let input = UpdateInputView { username: Some(username), email: None, password: None };
            let old = find_by_id(store, id)->Some_0;
            let (after, result) = update_run(store, Some(id), input, hash, now);
            &&& result is Ok
            &&& result->Ok_0.username == username
            &&& result->Ok_0.email == old.email
            &&& result->Ok_0.password == old.password
            &&& result->Ok_0.id == id
            &&& result->Ok_0.validated == old.validated
            &&& result->Ok_0.created_at == old.created_at
            &&& result->Ok_0.updated_at == later(now, old.updated_at)
            &&& result->Ok_0.updated_at >= old.updated_at
            &&& result->Ok_0.wf()
            &&& after == replaced(store, result->Ok_0)
        }),
{
    let input = UpdateInputView { username: Some(username), email: None, password: None };
    let old = find_by_id(store, id)->Some_0;
    let k = choose|i: int| 0 <= i < store.len() && (#[trigger] store[i]).id == id;
    assert(old == store[k]);
    assert(old.wf());
    let user = merged(old, input, None, now);
    assert(!email_of_other(store, id, user.email)) by {
        if email_of_other(store, id, user.email) {
            let i = choose|i: int|
                0 <= i < store.len() && (#[trigger] store[i]).id != id && store[i].email
                    == user.email;
            if i < k {
                assert(store[i].email != store[k].email);
            } else {
                assert(store[k].email != store[i].email);
            }
        }
    }
}

/// An update of a user that the store does not hold answers `NotFound` and
/// changes nothing; an identifier that cannot be read answers `InvalidId`.
pub proof fn lemma_update_absent(
    store: Store,
    read: Option<u128>,
    input: UpdateInputView,
    hash: Option<Seq<char>>,
    now: i64,
)
    ensures
        read is None ==> update_run(store, read, input, hash, now) == (
            store,
            Err::<UserView, UserError>(UserError::InvalidId),
        ),
        read is Some && !has_id(store, read->Some_0) ==> update_run(store, read, input, hash, now)
            == (store, Err::<UserView, UserError>(UserError::NotFound)),
{
}

/// The deletion of a user from beginning to end: the store after it and the
/// response. The store removes what it holds under the identifier and
/// reports success whether or not there was anything.
pub open spec fn delete_run(store: Store, read: Option<u128>) -> (Store, Result<(), UserError>) {
    let (begun, first) = delete_start(read);
    match first {
        DeleteAction::DeleteById(id) => {
            let (_, last) = delete_step(begun, DeleteEvent::Deleted(Ok(())));
            match last {
                DeleteAction::Respond(result) => (removed(store, id), result),
                _ => (removed(store, id), Err(UserError::UnexpectedError)),
            }
        },
        DeleteAction::Respond(result) => (store, result),
    }
}

/// A sequence whose members all pass a test is its own filtrate.
proof fn lemma_filter_all<A>(s: Seq<A>, pred: spec_fn(A) -> bool)
    requires
        forall|i: int| 0 <= i < s.len() ==> pred(#[trigger] s[i]),
    ensures
        s.filter(pred) == s,
    decreases s.len(),
{
    reveal(Seq::filter);
    if s.len() > 0 {
        assert forall|i: int| 0 <= i < s.drop_last().len() implies pred(
            #[trigger] s.drop_last()[i],
        ) by {
            assert(s.drop_last()[i] == s[i]);
        }
        lemma_filter_all(s.drop_last(), pred);
        assert(pred(s[s.len() - 1]));
        assert(s.drop_last().push(s.last()) =~= s);
    }
}

/// Deleting answers success for every identifier that can be read, whether
/// the store holds a user under it or not; where it holds none, the store
/// stays as it is. Deleting a second time answers as the first time did and
/// leaves the store as the first deletion left it.
pub proof fn lemma_delete_idempotent(store: Store, read: Option<u128>)
    ensures
        delete_run(store, read).1 == match read {
            Some(_) => Ok::<(), UserError>(()),
            None => Err::<(), UserError>(UserError::InvalidId),
        },
        read is Some && !has_id(store, read->Some_0) ==> delete_run(store, read).0 == store,
        read is Some ==> !has_id(delete_run(store, read).0, read->Some_0),
        delete_run(delete_run(store, read).0, read) == delete_run(store, read),
{
    match read {
        Some(id) => {
            let keep = |user: UserView| user.id != id;
            let once = store.filter(keep);
            assert forall|i: int| 0 <= i < once.len() implies keep(#[trigger] once[i]) by {
                store.lemma_filter_pred(keep, i);
            }
            assert(once == removed(store, id));
            lemma_filter_all(once, keep);
            assert(removed(once, id) == once);
            if !has_id(store, id) {
                assert forall|i: int| 0 <= i < store.len() implies keep(#[trigger] store[i]) by {
                    if store[i].id == id {
                        assert(has_id(store, id));
                    }
                }
                lemma_filter_all(store, keep);
            }
            if has_id(once, id) {
                let i = choose|i: int| 0 <= i < once.len() && (#[trigger] once[i]).id == id;
                assert(keep(once[i]));
            }
        },
        None => {},
    }
}

/// What a cache holds: pages under keys.
pub type CacheModel = Map<Seq<char>, PageView>;

/// What the cache answers to a read, where it can be reached at all.
pub open spec fn cache_answer(cache: CacheModel, key: Seq<char>, reachable: bool) -> GetEventView {
    if !reachable {
        GetEventView::CacheFailed
    } else if cache.contains_key(key) {
        GetEventView::Hit(cache[key])
    } else {
        GetEventView::Miss
    }
}

pub open spec fn clamped(at: int, len: nat) -> int {
    if at < 0 {
        0
    } else if at > len {
        len as int
    } else {
        at
    }
}

/// What the store lists for a limit and an offset: its users in their
/// order, without the first `offset`, and at most `limit` of them.
pub open spec fn store_rows(store: Store, limit: i64, offset: i64) -> Seq<UserView> {
    let start = clamped(offset as int, store.len());
    let end = clamped(offset + limit, store.len());
    store.subrange(
        start,
        if end < start {
            start
        } else {
            end
        },
    )
}

/// The page that the store gives for a query when it is asked afresh.
pub open spec fn fresh_page(store: Store, page: i64, page_size: i64) -> PageView {
    listed_page(page_rows(store, page as int, page_size as int), store.len() as i64, page, page_size)
}

/// The listing of a page from beginning to end: the cache after it and the
/// response. `reachable` says whether the cache answers the read, `writable`
/// whether it takes the write.
pub open spec fn list_run(
    store: Store,
    cache: CacheModel,
    page: i64,
    page_size: i64,
    reachable: bool,
    writable: bool,
) -> (CacheModel, Result<PageView, UserError>) {
    let (begun, first) = get_start(page, page_size);
    match first {
        GetActionView::ProbeCache(key) => {
            let (probed, second) = get_step(begun, cache_answer(cache, key, reachable));
            let (_, last) = match second {
                GetActionView::QueryStore { limit, offset } => get_step(
                    probed,
                    GetEventView::Listed(store_rows(store, limit, offset), store.len() as i64),
                ),
                _ => (probed, second),
            };
            match last {
                GetActionView::Respond { result: Ok(found), refill: Some(under) } => (
                    if writable {
                        cache.insert(under, found)
                    } else {
                        cache
                    },
                    Ok(found),
                ),
                GetActionView::Respond { result, refill } => (cache, result),
                _ => (cache, Err(UserError::UnexpectedError)),
            }
        },
        GetActionView::Respond { result, refill } => (cache, result),
        _ => (cache, Err(UserError::UnexpectedError)),
    }
}

/// A cache agrees with a store when every page it holds under the key of a
/// query is the page that the store gives for that query.
pub open spec fn coherent(cache: CacheModel, store: Store) -> bool {
    forall|page: i64, page_size: i64|
        query_ok(page, page_size) && cache.contains_key(
            #[trigger] key_of(page as int, page_size as int),
        ) ==> cache[key_of(page as int, page_size as int)] == fresh_page(store, page, page_size)
}

/// The page that a store gives for a query that has passed validation holds
/// no more users than the page size, counts all users of the store, and
/// numbers the pages as the count divided by the page size, rounded up.
pub proof fn lemma_fresh_page(store: Store, page: i64, page_size: i64)
    requires
        query_ok(page, page_size),
        store.len() <= i64::MAX,
    ensures
        fresh_page(store, page, page_size).wf(),
        fresh_page(store, page, page_size).data.len() <= page_size,
        fresh_page(store, page, page_size).count == store.len(),
        fresh_page(store, page, page_size).total_pages == (store.len() + page_size - 1) / (
        page_size as int),
        usable(fresh_page(store, page, page_size), page, page_size),
        store_rows(store, page_size, offset_of(page, page_size)) == page_rows(
            store,
            page as int,
            page_size as int,
        ),
{
    lemma_page_rows_len(store, page as int, page_size as int);
    lemma_pages_needed(store.len() as int, page_size as int);
    assert(page * page_size == (page - 1) * page_size + page_size) by (nonlinear_arith);
    assert((page - 1) * page_size >= 0) by (nonlinear_arith)
        requires
            page >= 1,
            page_size >= 1,
    ;
}

/// Listing a page from a cache that agrees with the store answers with the
/// page that the store gives afresh, whether the cache holds the page or
/// not, can be reached or not, and takes the write or not; and the cache
/// agrees with the store afterwards.
pub proof fn lemma_list_run(
    store: Store,
    cache: CacheModel,
    page: i64,
    page_size: i64,
    reachable: bool,
    writable: bool,
)
    requires
        query_ok(page, page_size),
        store.len() <= i64::MAX,
        coherent(cache, store),
    ensures
        list_run(store, cache, page, page_size, reachable, writable).1 == Ok::<
            PageView,
            UserError,
        >(fresh_page(store, page, page_size)),
        coherent(list_run(store, cache, page, page_size, reachable, writable).0, store),
{
    lemma_fresh_page(store, page, page_size);
    let key = key_of(page as int, page_size as int);
    let fresh = fresh_page(store, page, page_size);
    let after = list_run(store, cache, page, page_size, reachable, writable).0;
    if reachable && cache.contains_key(key) {
        assert(cache[key] == fresh);
        assert(after == cache);
    } else {
        assert(after == if writable {
            cache.insert(key, fresh)
        } else {
            cache
        });
        assert forall|p: i64, s: i64|
            query_ok(p, s) && after.contains_key(
                #[trigger] key_of(p as int, s as int),
            ) implies after[key_of(p as int, s as int)] == fresh_page(store, p, s) by {
            if key_of(p as int, s as int) == key {
                lemma_key_injective(p as int, s as int, page as int, page_size as int);
            }
        }
    }
}

/// Two listings of the same page, one after the other with nothing changed
/// in the store between them, give the same response, whatever the cache
/// held before the first and however it behaved during each.
pub proof fn lemma_list_twice(
    store: Store,
    cache: CacheModel,
    page: i64,
    page_size: i64,
    first_reachable: bool,
    first_writable: bool,
    second_reachable: bool,
    second_writable: bool,
)
    requires
        query_ok(page, page_size),
        store.len() <= i64::MAX,
        coherent(cache, store),
    ensures
        ({
            let (between, first) = list_run(
                store,
                cache,
                page,
                page_size,
                first_reachable,
                first_writable,
            );
            let (_, second) = list_run(
                store,
                between,
                page,
                page_size,
                second_reachable,
                second_writable,
            );
            first == second
        }),
{
    lemma_list_run(store, cache, page, page_size, first_reachable, first_writable);
    let between = list_run(store, cache, page, page_size, first_reachable, first_writable).0;
    lemma_list_run(store, between, page, page_size, second_reachable, second_writable);
}

} // verus!
