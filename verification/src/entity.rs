//! The user record and one page of a listing.

use vstd::prelude::*;

verus! {

/// A stored user. The identifier is the 128-bit value of a UUID; the two
/// timestamps count microseconds since the Unix epoch. The password is kept
/// as a hash.
#[derive(Debug)]
pub struct User {
    pub id: u128,
    pub username: String,
    pub email: String,
    pub password: String,
    pub validated: bool,
    pub created_at: i64,
    pub updated_at: i64,
}

/// What a user is, as plain values.
pub struct UserView {
    pub id: u128,
    pub username: Seq<char>,
    pub email: Seq<char>,
    pub password: Seq<char>,
    pub validated: bool,
    pub created_at: i64,
    pub updated_at: i64,
}

impl View for User {
    type V = UserView;

    open spec fn view(&self) -> UserView {
        UserView {
            id: self.id,
            username: self.username@,
            email: self.email@,
            password: self.password@,
            validated: self.validated,
            created_at: self.created_at,
            updated_at: self.updated_at,
        }
    }
}

impl UserView {
    /// The last update of a record is never earlier than its creation.
    pub open spec fn wf(self) -> bool {
        self.created_at <= self.updated_at
    }
}

impl User {
    pub open spec fn wf(&self) -> bool {
        self@.wf()
    }
}

impl Clone for User {
    fn clone(&self) -> (copy: User)
        ensures
            copy@ == self@,
    {
        User {
            id: self.id,
            username: self.username.clone(),
            email: self.email.clone(),
            password: self.password.clone(),
            validated: self.validated,
            created_at: self.created_at,
            updated_at: self.updated_at,
        }
    }
}

/// The users of a sequence, each as plain values.
pub open spec fn views(users: Seq<User>) -> Seq<UserView> {
    Seq::new(users.len(), |i: int| users[i]@)
}

/// One page of a listing: the items of the page, the number of all matching
/// items, the number of pages they fill, and the page and page size that
/// were asked for.
#[derive(Debug)]
pub struct PaginatedData<T> {
    pub data: Vec<T>,
    pub count: i64,
    pub total_pages: i64,
    pub page: i64,
    pub page_size: i64,
}

/// The number of pages of `page_size` items that `count` items fill: the
/// quotient rounded up.
pub open spec fn pages_needed(count: int, page_size: int) -> int
    recommends
        count >= 0,
        page_size >= 1,
{
    (count + page_size - 1) / page_size
}

/// Whether the four values can describe a page: pages are numbered from 1,
/// a page holds at least one item, a count is not negative, and no page
/// holds more items than its size.
pub open spec fn page_shape_ok(items: nat, count: int, page: int, page_size: int) -> bool {
    &&& page >= 1
    &&& page_size >= 1
    &&& count >= 0
    &&& items <= page_size
}

/// What a page of users is, as plain values.
pub struct PageView {
    pub data: Seq<UserView>,
    pub count: i64,
    pub total_pages: i64,
    pub page: i64,
    pub page_size: i64,
}

impl PageView {
    pub open spec fn wf(self) -> bool {
        &&& page_shape_ok(self.data.len(), self.count as int, self.page as int, self.page_size as int)
        &&& self.total_pages == pages_needed(self.count as int, self.page_size as int)
    }
}

impl View for PaginatedData<User> {
    type V = PageView;

    open spec fn view(&self) -> PageView {
        PageView {
            data: views(self.data@),
            count: self.count,
            total_pages: self.total_pages,
            page: self.page,
            page_size: self.page_size,
        }
    }
}

impl<T> PaginatedData<T> {
    pub open spec fn wf(&self) -> bool {
        &&& page_shape_ok(self.data@.len(), self.count as int, self.page as int, self.page_size as int)
        &&& self.total_pages == pages_needed(self.count as int, self.page_size as int)
    }

    /// Builds a page and computes the number of pages. Nothing is built from
    /// values that cannot describe a page.
    pub fn new(data: Vec<T>, count: i64, page: i64, page_size: i64) -> (built: Option<Self>)
        ensures
            built is Some <==> page_shape_ok(data@.len(), count as int, page as int, page_size as int),
            built is Some ==> {
                let p = built->Some_0;
                &&& p.wf()
                &&& p.data == data
                &&& p.count == count
                &&& p.page == page
                &&& p.page_size == page_size
            },
    {
        if page < 1 || page_size < 1 || count < 0 {
            return None;
        }
        if data.len() as u64 > page_size as u64 {
            return None;
        }
        let total_pages = total_pages(count, page_size);
        Some(PaginatedData { data, count, total_pages, page, page_size })
    }
}

/// The number of pages that `count` items fill, computed without overflow.
pub fn total_pages(count: i64, page_size: i64) -> (pages: i64)
    requires
        count >= 0,
        page_size >= 1,
    ensures
        pages == pages_needed(count as int, page_size as int),
        0 <= pages <= count,
{
    let full: i64 = count / page_size;
    let rest: i64 = count % page_size;
    proof {
        lemma_pages_needed(count as int, page_size as int);
    }
    if rest == 0 {
        full
    } else {
        full + 1
    }
}

/// Rounding the quotient up is the quotient itself where the division
/// leaves no remainder, and one more where it does.
pub proof fn lemma_pages_needed(count: int, page_size: int)
    requires
        count >= 0,
        page_size >= 1,
    ensures
        pages_needed(count, page_size) == count / page_size + if count % page_size == 0 {
            0int
        } else {
            1int
        },
        0 <= pages_needed(count, page_size) <= count,
        (pages_needed(count, page_size) - 1) * page_size < count <= pages_needed(count, page_size)
            * page_size || count == 0,
{
    let q = count / page_size;
    let r = count % page_size;
    assert(count == q * page_size + r && 0 <= r < page_size) by (nonlinear_arith)
        requires
            q == count / page_size,
            r == count % page_size,
            page_size >= 1,
            count >= 0,
    ;
    assert(q >= 0) by (nonlinear_arith)
        requires
            q == count / page_size,
            page_size >= 1,
            count >= 0,
    ;
    if r == 0 {
        assert((q * page_size + page_size - 1) / page_size == q) by (nonlinear_arith)
            requires
                page_size >= 1,
        ;
    } else {
        assert((q * page_size + r + page_size - 1) / page_size == q + 1) by (nonlinear_arith)
            requires
                page_size >= 1,
                0 < r < page_size,
        ;
    }
    assert(q <= count) by (nonlinear_arith)
        requires
            count == q * page_size + r,
            r >= 0,
            q >= 0,
            page_size >= 1,
    ;
    assert(q * page_size >= q) by (nonlinear_arith)
        requires
            q >= 0,
            page_size >= 1,
    ;
    let p = pages_needed(count, page_size);
    assert((p - 1) * page_size == p * page_size - page_size) by (nonlinear_arith);
}

} // verus!
