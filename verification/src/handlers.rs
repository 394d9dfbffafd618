//! What the handlers of the routes compute, from a decoded request to a
//! status code and a response body.

use vstd::prelude::*;
use crate::status::{StatusCode, CREATED, OK};

verus! {

/// The body of a greeting request.
#[derive(Debug)]
pub struct HelloReq {
    pub name: String,
}

/// The query of a listing request: which page, and how many items a page holds.
#[derive(Clone, Copy, Debug)]
pub struct Pagination {
    pub page: u32,
    pub count: u32,
}

/// The body of a greeting.
#[derive(Debug)]
pub struct HelloRes {
    pub msg: String,
}

/// The body that confirms a user id.
#[derive(Debug)]
pub struct UserRes {
    pub msg: String,
    pub user_id: String,
}

/// The body of a listing: the indices of the first and the last item of the page.
#[derive(Clone, Copy, Debug)]
pub struct PageRes {
    pub from: u32,
    pub to: u32,
}

impl Pagination {
    /// The index of the first item of the page.
    pub open spec fn spec_first(self) -> int {
        self.page * self.count
    }

    /// The index of the last item of the page.
    pub open spec fn spec_last(self) -> int {
        (self.page + 1) * self.count - 1
    }

    /// Whether a page holds an item and the number of items up to the end
    /// of this page fits in 32 bits.
    pub open spec fn spec_in_range(self) -> bool {
        self.count >= 1 && (self.page + 1) * self.count <= u32::MAX
    }

    /// Whether `page` can answer this query.
    pub fn in_range(&self) -> (b: bool)
        ensures
            b == self.spec_in_range(),
    {
        let pages: u64 = self.page as u64 + 1;
        let count: u64 = self.count as u64;
        assert(pages * count <= 0x1_0000_0000 * 0xffff_ffff) by (nonlinear_arith)
            requires
                0 <= pages <= 0x1_0000_0000,
                0 <= count <= 0xffff_ffff,
        ;
        self.count >= 1 && pages * count <= u32::MAX as u64
    }
}

/// Greets the sender by name.
pub fn hello(body: &HelloReq) -> (response: (StatusCode, HelloRes))
    ensures
        response.0@ == 201,
        response.1.msg@ == "Hello there, "@ + body.name@,
{
    let res = HelloRes { msg: "Hello there, ".to_owned().concat(body.name.as_str()) };
    (StatusCode::known(CREATED), res)
}

/// Confirms the user id of the path.
pub fn user_id(id: String) -> (response: (StatusCode, UserRes))
    ensures
        response.0@ == 200,
        response.1.msg@ == "User ID accepted"@,
        response.1.user_id@ == id@,
{
    let res = UserRes { msg: "User ID accepted".to_owned(), user_id: id };
    (StatusCode::known(OK), res)
}

/// The bounds of the page that the query asks for.
pub fn page(pagination: &Pagination) -> (response: (StatusCode, PageRes))
    requires
        pagination.spec_in_range(),
    ensures
        response.0@ == 200,
        response.1.from == pagination.spec_first(),
        response.1.to == pagination.spec_last(),
{
    let ghost pages = pagination.page + 1;
    let ghost count = pagination.count as int;
    assert(pagination.page * count <= pages * count && pages <= pages * count)
        by (nonlinear_arith)
        requires
            pages == pagination.page + 1,
            count >= 1,
    ;
    let res = PageRes {
        from: pagination.page * pagination.count,
        to: (pagination.page + 1) * pagination.count - 1,
    };
    (StatusCode::known(OK), res)
}

} // verus!
