//! Listing users, cache aside: the cache is asked first, the repository
//! only on a miss, and what the repository gave is handed back for the cache
//! to keep.
//!
//! A cache that cannot be reached, and an entry that does not describe the
//! page that was asked for, count as a miss. Writing to the cache is part of
//! the response: whether it succeeds changes nothing of the answer.

use vstd::prelude::*;
use crate::cache::{cache_key, key_of};
use crate::dtos::UserQueryInput;
use crate::entity::{page_shape_ok, pages_needed, total_pages, views, PageView, PaginatedData, User, UserView};
use crate::errors::{CacheError, UserError};
use crate::store::RepositoryError;
use crate::validation::{PAGE_MIN, PAGE_SIZE_MIN};

verus! {

/// Where the listing stands.
#[derive(Debug, Clone, Copy, PartialEq, Eq, Structural)]
pub enum GetPhase {
    /// Waiting for the cache.
    Probing,
    /// Waiting for the repository.
    Querying,
    /// The response has been given.
    Finished,
}

/// What a collaborator answered.
pub enum GetEvent {
    /// The cache was read: an entry, none, or a failure.
    Cached(Result<Option<PaginatedData<User>>, CacheError>),
    /// The repository listed a page: its rows and the number of all users.
    Listed(Result<(Vec<User>, i64), RepositoryError>),
}

/// What is to be done next.
pub enum GetAction {
    /// Read the cache under the key.
    ProbeCache(String),
    /// Ask the repository for `limit` users, leaving out the first `offset`.
    QueryStore { limit: i64, offset: i64 },
    /// Answer the request. Where `refill` holds a key, the page of the
    /// answer is to be written to the cache under it, and a failure to do so
    /// is to be ignored.
    Respond { result: Result<PaginatedData<User>, UserError>, refill: Option<String> },
}

/// The listing of one page, from the validated query to the response.
pub struct GetUsersCase {
    pub phase: GetPhase,
    pub page: i64,
    pub page_size: i64,
}

pub enum GetEventView {
    Hit(PageView),
    Miss,
    CacheFailed,
    Listed(Seq<UserView>, i64),
    StoreFailed,
}

pub enum GetActionView {
    ProbeCache(Seq<char>),
    QueryStore { limit: i64, offset: i64 },
    Respond { result: Result<PageView, UserError>, refill: Option<Seq<char>> },
}

impl View for GetEvent {
    type V = GetEventView;

    open spec fn view(&self) -> GetEventView {
        match self {
            GetEvent::Cached(Ok(Some(page))) => GetEventView::Hit(page@),
            GetEvent::Cached(Ok(None)) => GetEventView::Miss,
            GetEvent::Cached(Err(_)) => GetEventView::CacheFailed,
            GetEvent::Listed(Ok((rows, count))) => GetEventView::Listed(views(rows@), *count),
            GetEvent::Listed(Err(_)) => GetEventView::StoreFailed,
        }
    }
}

impl View for GetAction {
    type V = GetActionView;

    open spec fn view(&self) -> GetActionView {
        match self {
            GetAction::ProbeCache(key) => GetActionView::ProbeCache(key@),
            GetAction::QueryStore { limit, offset } => GetActionView::QueryStore {
                limit: *limit,
                offset: *offset,
            },
            GetAction::Respond { result: Ok(page), refill: Some(key) } => GetActionView::Respond {
                result: Ok(page@),
                refill: Some(key@),
            },
            GetAction::Respond { result: Ok(page), refill: None } => GetActionView::Respond {
                result: Ok(page@),
                refill: None,
            },
            GetAction::Respond { result: Err(kind), refill: Some(key) } => GetActionView::Respond {
                result: Err(*kind),
                refill: Some(key@),
            },
            GetAction::Respond { result: Err(kind), refill: None } => GetActionView::Respond {
                result: Err(*kind),
                refill: None,
            },
        }
    }
}

/// A query that has passed validation: pages are numbered from 1 and a page
/// holds at least five users.
pub open spec fn query_ok(page: i64, page_size: i64) -> bool {
    page >= PAGE_MIN && page_size >= PAGE_SIZE_MIN
}

/// The number of users before a page. It stops at the largest value that
/// fits, which no store reaches.
pub open spec fn offset_of(page: i64, page_size: i64) -> i64 {
    let exact = (page - 1) * page_size;
    if exact > i64::MAX {
        i64::MAX
    } else {
        exact as i64
    }
}

/// Whether a cache entry describes the page that was asked for.
pub open spec fn usable(entry: PageView, page: i64, page_size: i64) -> bool {
    entry.wf() && entry.page == page && entry.page_size == page_size
}

/// The page built from what the repository listed.
pub open spec fn listed_page(rows: Seq<UserView>, count: i64, page: i64, page_size: i64) -> PageView {
    PageView {
        data: rows,
        count,
        total_pages: pages_needed(count as int, page_size as int) as i64,
        page,
        page_size,
    }
}

pub open spec fn get_done(case: GetUsersCase, result: Result<PageView, UserError>, refill: Option<
    Seq<char>,
>) -> (GetUsersCase, GetActionView) {
    (
        GetUsersCase { phase: GetPhase::Finished, page: case.page, page_size: case.page_size },
        GetActionView::Respond { result, refill },
    )
}

/// How the use case begins: with a look into the cache, under the key of the
/// query. A query that has not passed validation is refused at once.
pub open spec fn get_start(page: i64, page_size: i64) -> (GetUsersCase, GetActionView) {
    if query_ok(page, page_size) {
        (
            GetUsersCase { phase: GetPhase::Probing, page, page_size },
            GetActionView::ProbeCache(key_of(page as int, page_size as int)),
        )
    } else {
        get_done(
            GetUsersCase { phase: GetPhase::Finished, page, page_size },
            Err(UserError::UnexpectedError),
            None,
        )
    }
}

/// The decision taken on an answer. A usable entry of the cache is the
/// response, and the repository is not asked. Anything else from the cache
/// sends the query to the repository. What the repository lists becomes the
/// response and goes to the cache under the key of the query; rows that
/// cannot be a page of the size asked for, a failure of the repository, and
/// an answer that does not belong to the phase end the use case with an
/// unclassified failure, and so does a use case that was not begun with a
/// query that had passed validation.
pub open spec fn get_step(case: GetUsersCase, event: GetEventView) -> (GetUsersCase, GetActionView) {
    if query_ok(case.page, case.page_size) {
        get_step_valid(case, event)
    } else {
        get_done(case, Err(UserError::UnexpectedError), None)
    }
}

/// The decision on an answer to a query that had passed validation.
pub open spec fn get_step_valid(case: GetUsersCase, event: GetEventView) -> (
    GetUsersCase,
    GetActionView,
) {
    let page = case.page;
    let page_size = case.page_size;
    match (case.phase, event) {
        (GetPhase::Probing, GetEventView::Hit(entry)) => if usable(entry, page, page_size) {
            get_done(case, Ok(entry), None)
        } else {
            (
                GetUsersCase { phase: GetPhase::Querying, page, page_size },
                GetActionView::QueryStore { limit: page_size, offset: offset_of(page, page_size) },
            )
        },
        (GetPhase::Probing, GetEventView::Miss) => (
            GetUsersCase { phase: GetPhase::Querying, page, page_size },
            GetActionView::QueryStore { limit: page_size, offset: offset_of(page, page_size) },
        ),
        (GetPhase::Probing, GetEventView::CacheFailed) => (
            GetUsersCase { phase: GetPhase::Querying, page, page_size },
            GetActionView::QueryStore { limit: page_size, offset: offset_of(page, page_size) },
        ),
        (GetPhase::Querying, GetEventView::Listed(rows, count)) => if page_shape_ok(
            rows.len(),
            count as int,
            page as int,
            page_size as int,
        ) {
            get_done(
                case,
                Ok(listed_page(rows, count, page, page_size)),
                Some(key_of(page as int, page_size as int)),
            )
        } else {
            get_done(case, Err(UserError::UnexpectedError), None)
        },
        _ => get_done(case, Err(UserError::UnexpectedError), None),
    }
}

/// Computes the number of users before a page.
pub fn page_offset(page: i64, page_size: i64) -> (offset: i64)
    requires
        page >= 1,
        page_size >= 1,
    ensures
        offset == offset_of(page, page_size),
        offset >= 0,
{
    let before: i128 = (page - 1) as i128;
    let size: i128 = page_size as i128;
    assert(0 <= before * size <= 0x7fff_ffff_ffff_ffff * 0x7fff_ffff_ffff_ffff) by (nonlinear_arith)
        requires
            0 <= before <= 0x7fff_ffff_ffff_ffff,
            0 <= size <= 0x7fff_ffff_ffff_ffff,
    ;
    let exact: i128 = before * size;
    if exact > i64::MAX as i128 {
        i64::MAX
    } else {
        exact as i64
    }
}

/// Whether a cache entry describes the page that was asked for.
pub fn is_usable(entry: &PaginatedData<User>, page: i64, page_size: i64) -> (ok: bool)
    ensures
        ok == usable(entry@, page, page_size),
{
    if entry.page != page || entry.page_size != page_size {
        return false;
    }
    if entry.page < 1 || entry.page_size < 1 || entry.count < 0 {
        return false;
    }
    if entry.data.len() as u64 > entry.page_size as u64 {
        return false;
    }
    entry.total_pages == total_pages(entry.count, entry.page_size)
}

impl GetUsersCase {
    /// Begins the use case.
    pub fn start(query: &UserQueryInput) -> (begun: (GetUsersCase, GetAction))
        ensures
            (begun.0, begun.1@) == get_start(query.page, query.page_size),
    {
        let page = query.page;
        let page_size = query.page_size;
        if page >= PAGE_MIN && page_size >= PAGE_SIZE_MIN {
            (
                GetUsersCase { phase: GetPhase::Probing, page, page_size },
                GetAction::ProbeCache(cache_key(page, page_size)),
            )
        } else {
            (
                GetUsersCase { phase: GetPhase::Finished, page, page_size },
                GetAction::Respond { result: Err(UserError::UnexpectedError), refill: None },
            )
        }
    }

    /// Takes the decision of [`get_step`].
    pub fn step(self, event: GetEvent) -> (next: (GetUsersCase, GetAction))
        ensures
            (next.0, next.1@) == get_step(self, event@),
    {
        let page = self.page;
        let page_size = self.page_size;
        let done = GetUsersCase { phase: GetPhase::Finished, page, page_size };
        if page < PAGE_MIN || page_size < PAGE_SIZE_MIN {
            return (
                done,
                GetAction::Respond { result: Err(UserError::UnexpectedError), refill: None },
            );
        }
        match (self.phase, event) {
            (GetPhase::Probing, GetEvent::Cached(Ok(Some(entry)))) => {
                if is_usable(&entry, page, page_size) {
                    (done, GetAction::Respond { result: Ok(entry), refill: None })
                } else {
                    (
                        GetUsersCase { phase: GetPhase::Querying, page, page_size },
                        GetAction::QueryStore { limit: page_size, offset: page_offset(page, page_size) },
                    )
                }
            },
            (GetPhase::Probing, GetEvent::Cached(_)) => (
                GetUsersCase { phase: GetPhase::Querying, page, page_size },
                GetAction::QueryStore { limit: page_size, offset: page_offset(page, page_size) },
            ),
            (GetPhase::Querying, GetEvent::Listed(Ok((rows, count)))) => {
                let ghost listed = views(rows@);
                match PaginatedData::new(rows, count, page, page_size) {
                    Some(built) => {
                        assert(built@ == listed_page(listed, count, page, page_size));
                        (
                            done,
                            GetAction::Respond {
                                result: Ok(built),
                                refill: Some(cache_key(page, page_size)),
                            },
                        )
                    },
                    None => (
                        done,
                        GetAction::Respond { result: Err(UserError::UnexpectedError), refill: None },
                    ),
                }
            },
            _ => (done, GetAction::Respond { result: Err(UserError::UnexpectedError), refill: None }),
        }
    }
}

} // verus!
