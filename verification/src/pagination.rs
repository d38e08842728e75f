use vstd::prelude::*;

verus! {

/// Page size used when the request names none.
pub const DEFAULT_PER_PAGE: i64 = 50;

/// Largest page size a request may ask for.
pub const MAX_PER_PAGE: i64 = 200;

/// `?page=` / `?per_page=` query parameters shared by every paginated list.
pub struct PageQuery {
    pub page: Option<i64>,
    pub per_page: Option<i64>,
}

/// One page of a list, with the counts a client needs to page through it.
pub struct Page<T> {
    pub items: Vec<T>,
    pub page: i64,
    pub per_page: i64,
    pub total: i64,
    pub total_pages: i64,
    pub has_more: bool,
}

/// Rust's `/` on integers: the quotient rounded toward zero.
pub open spec fn div_toward_zero(a: int, b: int) -> int {
    if a >= 0 { a / b } else { -((-a) / b) }
}

impl PageQuery {
    /// Requested page number: 1 when absent, at least 1.
    pub open spec fn spec_page(self) -> i64 {
        match self.page {
            Some(p) => if p < 1 { 1 } else { p },
            None => 1,
        }
    }

    /// Requested page size: 50 when absent, clamped to 1..=200.
    pub open spec fn spec_per_page(self) -> i64 {
        let p = match self.per_page {
            Some(p) => p,
            None => DEFAULT_PER_PAGE,
        };
        if p < 1 { 1 } else if p > MAX_PER_PAGE { MAX_PER_PAGE } else { p }
    }

    /// Number of rows to skip before this page.
    pub open spec fn spec_offset(self) -> int {
        (self.spec_page() - 1) * self.spec_per_page()
    }

    /// Requested page number (1-based, at least 1).
    pub fn page(&self) -> (r: i64)
        ensures
            r == self.spec_page(),
            r >= 1,
    {
        let p: i64 = match self.page {
            Some(p) => p,
            None => 1,
        };
        if p < 1 { 1 } else { p }
    }

    /// Requested page size (between 1 and 200).
    pub fn per_page(&self) -> (r: i64)
        ensures
            r == self.spec_per_page(),
            1 <= r <= MAX_PER_PAGE,
    {
        let p: i64 = match self.per_page {
            Some(p) => p,
            None => DEFAULT_PER_PAGE,
        };
        if p < 1 {
            1
        } else if p > MAX_PER_PAGE {
            MAX_PER_PAGE
        } else {
            p
        }
    }

    /// Rows to skip to reach this page: `(page - 1) * per_page`.
    pub fn offset(&self) -> (r: i64)
        requires
            self.spec_offset() <= i64::MAX,
        ensures
            r == self.spec_offset(),
            r >= 0,
    {
        let page: i64 = self.page();
        let per_page: i64 = self.per_page();
        proof {
            assert((page - 1) * per_page >= 0) by (nonlinear_arith)
                requires
                    page >= 1,
                    per_page >= 1,
            ;
        }
        (page - 1) * per_page
    }
}

/// Number of pages for `total` rows at `per_page` rows per page (1 for none).
pub open spec fn spec_total_pages(total: int, per_page: int) -> int {
    if total == 0 { 1 } else { div_toward_zero(total + per_page - 1, per_page) }
}

impl<T> Page<T> {
    /// Wraps the rows of one page; `total` is the row count of the whole list.
    pub fn new(items: Vec<T>, query: &PageQuery, total: i64) -> (r: Page<T>)
        requires
            total <= i64::MAX - MAX_PER_PAGE,
        ensures
            r.items@ == items@,
            r.page == query.spec_page(),
            r.per_page == query.spec_per_page(),
            r.total == total,
            r.total_pages == spec_total_pages(total as int, query.spec_per_page() as int),
            r.has_more == (r.page < r.total_pages),
    {
        let per_page: i64 = query.per_page();
        let page: i64 = query.page();
        let total_pages: i64 = if total == 0 {
            1
        } else {
            let n: i64 = total + per_page - 1;
            n / per_page
        };
        Page { items, page, per_page, total, total_pages, has_more: page < total_pages }
    }
}

/// For a non-empty list, the page count is the least number of full-size pages
/// that holds every row, and always at least 1 page is reported.
pub proof fn lemma_total_pages_cover(total: int, per_page: int)
    requires
        total >= 0,
        1 <= per_page,
    ensures
        spec_total_pages(total, per_page) >= 1,
        total > 0 ==> (spec_total_pages(total, per_page) - 1) * per_page < total,
        total > 0 ==> total <= spec_total_pages(total, per_page) * per_page,
{
    if total > 0 {
        let q = (total + per_page - 1) / per_page;
        let r = (total + per_page - 1) % per_page;
        assert(q * per_page + r == total + per_page - 1 && 0 <= r < per_page) by (nonlinear_arith)
            requires
                per_page >= 1,
                q == (total + per_page - 1) / per_page,
                r == (total + per_page - 1) % per_page,
        ;
        assert(q >= 1) by (nonlinear_arith)
            requires
                q * per_page + r == total + per_page - 1,
                0 <= r < per_page,
                total >= 1,
        ;
        assert((q - 1) * per_page < total) by (nonlinear_arith)
            requires
                q * per_page + r == total + per_page - 1,
                0 <= r < per_page,
        ;
    }
}

} // verus!
