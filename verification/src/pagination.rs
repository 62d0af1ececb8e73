//! Page arithmetic for the college listing: which rows a page asks for, how
//! many pages there are, and what the response reports about it.

use vstd::prelude::*;
use vstd::string::StringExecFns;
use vstd::arithmetic::div_mod::{lemma_fundamental_div_mod, lemma_mod_bound};
use crate::errors::{ApiError, ApiErrorView};

verus! {

/// The page shown when the client names none.
pub const DEFAULT_PAGE: u32 = 1;

/// The page size used when the client names none.
pub const DEFAULT_LIMIT: u32 = 12;

/// The largest page size ever used, whatever the client asks for.
pub const MAX_LIMIT: u32 = 50;

/// The query parameters of the college listing, as the client sent them.
#[derive(Clone, Debug, PartialEq, Eq)]
pub struct PaginationParams {
    pub page: Option<u32>,
    pub limit: Option<u32>,
    pub search: Option<String>,
    pub district: Option<String>,
    pub category: Option<String>,
    pub college_type: Option<String>,
}

/// What a listing response reports about its page.
#[derive(Clone, Copy, Debug, PartialEq, Eq)]
pub struct PaginationInfo {
    pub current_page: u32,
    pub per_page: u32,
    pub total: i64,
    pub total_pages: u32,
    pub has_next: bool,
    pub has_prev: bool,
}

/// One page of rows with the report about it.
#[derive(Clone, Debug, PartialEq, Eq)]
pub struct PaginatedResponse<T> {
    pub data: Vec<T>,
    pub pagination: PaginationInfo,
}

/// A validated page request: a 1-based page number and a page size within
/// `1..=MAX_LIMIT`. Every value of this type is valid.
#[derive(Clone, Copy, Debug, PartialEq, Eq)]
pub struct PageRequest {
    page: u32,
    per_page: u32,
}

/// The page size in force for a requested limit: the default where none is
/// given, then clamped to `1..=MAX_LIMIT`.
pub open spec fn clamped_limit(limit: Option<u32>) -> u32 {
    let asked = match limit {
        Some(l) => l,
        None => DEFAULT_LIMIT,
    };
    if asked < 1 {
        1
    } else if asked > MAX_LIMIT {
        MAX_LIMIT
    } else {
        asked
    }
}

/// The page number in force for a requested page.
pub open spec fn requested_page(page: Option<u32>) -> u32 {
    match page {
        Some(p) => p,
        None => DEFAULT_PAGE,
    }
}

/// The number of rows that precede the first row of a page.
pub open spec fn row_offset(page: int, per_page: int) -> int {
    (page - 1) * per_page
}

/// `total / per_page`, rounded up.
pub open spec fn ceil_div(total: int, per_page: int) -> int {
    (total + per_page - 1) / per_page
}

/// The number of pages that `total` rows fill: one for an empty result, else
/// the rounded-up quotient, held at `u32::MAX` where it would not fit.
pub open spec fn page_count(total: int, per_page: int) -> int {
    if total <= 0 {
        1
    } else if ceil_div(total, per_page) > u32::MAX {
        u32::MAX as int
    } else {
        ceil_div(total, per_page)
    }
}

/// The report for page `page` of `total` rows, `per_page` to a page.
pub open spec fn page_info(page: u32, per_page: u32, total: i64) -> PaginationInfo {
    PaginationInfo {
        current_page: page,
        per_page,
        total,
        total_pages: page_count(total as int, per_page as int) as u32,
        has_next: page < page_count(total as int, per_page as int),
        has_prev: page > 1,
    }
}

/// What a caller is told who asks for page 0.
pub open spec fn page_zero_message() -> Seq<char> {
    "page must be at least 1"@
}

/// The invariant that a negative row count breaks.
pub open spec fn negative_total_message() -> Seq<char> {
    "storage reported a negative row count"@
}

/// The invariant that a page with too many rows breaks.
pub open spec fn oversized_page_message() -> Seq<char> {
    "storage returned more rows than the page holds"@
}

/// The page size in force for a requested limit.
pub fn per_page(limit: Option<u32>) -> (n: u32)
    ensures
        n == clamped_limit(limit),
        1 <= n <= MAX_LIMIT,
{
    let asked: u32 = match limit {
        Some(l) => l,
        None => DEFAULT_LIMIT,
    };
    if asked < 1 {
        1
    } else if asked > MAX_LIMIT {
        MAX_LIMIT
    } else {
        asked
    }
}

/// The number of pages that `total` rows fill.
pub fn total_pages(total: i64, per_page: u32) -> (pages: u32)
    requires
        per_page >= 1,
    ensures
        pages == page_count(total as int, per_page as int),
        pages >= 1,
{
    if total <= 0 {
        return 1;
    }
    let rounded_up: u64 = (total as u64 + per_page as u64 - 1) / (per_page as u64);
    proof {
        lemma_ceiling(total as int, per_page as int);
    }
    if rounded_up > u32::MAX as u64 {
        u32::MAX
    } else {
        rounded_up as u32
    }
}

impl PageRequest {
    #[verifier::type_invariant]
    spec fn valid(self) -> bool {
        self.page >= 1 && 1 <= self.per_page <= MAX_LIMIT
    }

    /// The page number, counted from 1.
    pub closed spec fn page_number(self) -> u32 {
        self.page
    }

    /// The number of rows to a page.
    pub closed spec fn page_size(self) -> u32 {
        self.per_page
    }

    /// A page number of at least 1 and a page size within `1..=MAX_LIMIT`.
    pub open spec fn wf(self) -> bool {
        self.page_number() >= 1 && 1 <= self.page_size() <= MAX_LIMIT
    }

    /// The rows that precede the page.
    pub open spec fn row_offset(self) -> int {
        row_offset(self.page_number() as int, self.page_size() as int)
    }

    /// Validates the client's `page` and `limit`. A missing page is page 1, a
    /// missing limit the default; the limit is clamped, never refused. Page 0
    /// does not exist and is refused as a bad request.
    pub fn new(page: Option<u32>, limit: Option<u32>) -> (request: Result<PageRequest, ApiError>)
        ensures
            request is Err <==> page == Some(0u32),
            request matches Err(e) ==> e@ == ApiErrorView::BadRequest(page_zero_message()),
            request matches Ok(r) ==> r.wf() && r.page_number() == requested_page(page)
                && r.page_size() == clamped_limit(limit),
    {
        let number: u32 = match page {
            Some(p) => p,
            None => DEFAULT_PAGE,
        };
        if number == 0 {
            return Err(ApiError::BadRequest(String::from_str("page must be at least 1")));
        }
        Ok(PageRequest { page: number, per_page: per_page(limit) })
    }

    /// The page number, counted from 1.
    pub fn page(&self) -> (n: u32)
        ensures
            n == self.page_number(),
            self.wf(),
    {
        proof {
            use_type_invariant(self);
        }
        self.page
    }

    /// The number of rows to a page.
    pub fn per_page(&self) -> (n: u32)
        ensures
            n == self.page_size(),
            self.wf(),
    {
        proof {
            use_type_invariant(self);
        }
        self.per_page
    }

    /// The `LIMIT` of the page's query.
    pub fn limit(&self) -> (n: i64)
        ensures
            n == self.page_size(),
            1 <= n <= MAX_LIMIT,
    {
        proof {
            use_type_invariant(self);
        }
        self.per_page as i64
    }

    /// The `OFFSET` of the page's query: the rows of all earlier pages.
    pub fn offset(&self) -> (n: i64)
        ensures
            n == self.row_offset(),
            n >= 0,
    {
        proof {
            use_type_invariant(self);
        }
        let earlier: i64 = (self.page - 1) as i64;
        let size: i64 = self.per_page as i64;
        assert(0 <= earlier * size <= 0xffff_ffff * 50) by (nonlinear_arith)
            requires
                0 <= earlier <= 0xffff_ffff,
                0 <= size <= 50,
        ;
        earlier * size
    }
}

impl PaginationInfo {
    /// The report for page `page` of `total` rows, `per_page` to a page.
    pub fn new(page: u32, per_page: u32, total: i64) -> (info: PaginationInfo)
        requires
            per_page >= 1,
        ensures
            info == page_info(page, per_page, total),
    {
        let pages = total_pages(total, per_page);
        PaginationInfo {
            current_page: page,
            per_page,
            total,
            total_pages: pages,
            has_next: page < pages,
            has_prev: page > 1,
        }
    }
}

impl<T> PaginatedResponse<T> {
    /// Puts the rows that the store returned for `request` together with the
    /// report about the page. The store's answer is held to what was asked:
    /// a negative count, or more rows than the page size, is an internal
    /// error and nothing is returned. A page beyond the last one is no
    /// error: it comes back empty.
    pub fn assemble(request: &PageRequest, data: Vec<T>, total: i64) -> (response: Result<
        PaginatedResponse<T>,
        ApiError,
    >)
        ensures
            response is Ok <==> total >= 0 && data.len() <= request.page_size(),
            response matches Ok(r) ==> r.data == data && r.data.len() <= r.pagination.per_page
                && r.pagination == page_info(request.page_number(), request.page_size(), total),
            response matches Err(e) ==> e@ == ApiErrorView::InternalServerError(
                if total < 0 {
                    negative_total_message()
                } else {
                    oversized_page_message()
                },
            ),
    {
        if total < 0 {
            return Err(
                ApiError::InternalServerError(
                    String::from_str("storage reported a negative row count"),
                ),
            );
        }
        let page = request.page();
        let size = request.per_page();
        if data.len() > size as usize {
            return Err(
                ApiError::InternalServerError(
                    String::from_str("storage returned more rows than the page holds"),
                ),
            );
        }
        let pagination = PaginationInfo::new(page, size, total);
        Ok(PaginatedResponse { data, pagination })
    }
}

/// The rounded-up quotient is the least number of pages that hold all rows.
pub proof fn lemma_ceiling(total: int, per_page: int)
    requires
        total >= 0,
        per_page >= 1,
    ensures
        ceil_div(total, per_page) >= 0,
        total <= ceil_div(total, per_page) * per_page,
        total > 0 ==> (ceil_div(total, per_page) - 1) * per_page < total,
        total > 0 ==> ceil_div(total, per_page) >= 1,
{
    let x = total + per_page - 1;
    let q = x / per_page;
    lemma_fundamental_div_mod(x, per_page);
    lemma_mod_bound(x, per_page);
    assert((q - 1) * per_page == per_page * q - per_page) by (nonlinear_arith);
    if q < 0 {
        assert(per_page * q <= -per_page) by (nonlinear_arith)
            requires
                q <= -1,
                per_page >= 1,
        ;
    }
    if total > 0 && q < 1 {
        assert(per_page * q <= 0) by (nonlinear_arith)
            requires
                q <= 0,
                per_page >= 1,
        ;
    }
}

/// The page count is never below one. Where the rounded-up quotient fits the
/// counter, an empty result has exactly one page and any other result has
/// exactly the rounded-up quotient of pages, which is the least number of
/// pages of `per_page` rows that hold `total` rows.
pub proof fn lemma_page_count_is_ceiling(total: int, per_page: int)
    requires
        total >= 0,
        per_page >= 1,
        ceil_div(total, per_page) <= u32::MAX,
    ensures
        page_count(total, per_page) >= 1,
        total == 0 ==> page_count(total, per_page) == 1,
        total > 0 ==> page_count(total, per_page) == ceil_div(total, per_page),
        total <= page_count(total, per_page) * per_page,
        total > 0 ==> (page_count(total, per_page) - 1) * per_page < total,
{
    lemma_ceiling(total, per_page);
}

/// The flags of a page report agree with the page number and the page
/// count: there is a previous page exactly after page 1, and a next page
/// exactly before the last page. A page within the count of a non-empty
/// result starts before the end of the rows; a page beyond the count starts
/// at or after their end, so it has no rows.
pub proof fn lemma_page_flags_are_consistent(request: PageRequest, total: i64)
    requires
        request.wf(),
        total >= 0,
    ensures
        ({
            let info = page_info(request.page_number(), request.page_size(), total);
            &&& info.has_prev <==> info.current_page > 1
            &&& info.has_next <==> info.current_page < info.total_pages
            &&& info.current_page == 1 ==> !info.has_prev
            &&& info.current_page >= info.total_pages ==> !info.has_next
            &&& info.current_page > info.total_pages ==> request.row_offset() >= total
            &&& total > 0 && info.current_page <= info.total_pages ==> request.row_offset() < total
        }),
{
    let page = request.page_number() as int;
    let per = request.page_size() as int;
    let pages = page_count(total as int, per);
    lemma_ceiling(total as int, per);
    let ceiling = ceil_div(total as int, per);
    if page > pages {
        // The count is then not held at the counter's maximum, so it is the
        // ceiling, or 1 for an empty result.
        assert((page - 1) * per >= pages * per) by (nonlinear_arith)
            requires
                page - 1 >= pages,
                per >= 1,
        ;
        if total == 0 {
            assert(pages * per >= 0) by (nonlinear_arith)
                requires
                    pages >= 1,
                    per >= 1,
            ;
        }
    }
    if total > 0 && page <= pages {
        assert((page - 1) * per <= (ceiling - 1) * per) by (nonlinear_arith)
            requires
                page - 1 <= ceiling - 1,
                per >= 1,
        ;
    }
}

/// The pages tile the rows: the first page starts at the first row, and
/// each page starts where the page before it ends.
pub proof fn lemma_pages_are_adjacent(page: int, per_page: int)
    ensures
        row_offset(1, per_page) == 0,
        row_offset(page + 1, per_page) == row_offset(page, per_page) + per_page,
{
    assert((page + 1 - 1) * per_page == (page - 1) * per_page + per_page) by (nonlinear_arith);
}

} // verus!
