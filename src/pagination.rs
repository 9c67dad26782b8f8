use vstd::prelude::*;

use vstd::arithmetic::div_mod::lemma_fundamental_div_mod;

verus! {

/// Number of rows shown on one page when a request does not say.
pub const DEFAULT_ITEMS_PER_PAGE: u64 = 5;

/// Number of pages that `total` rows fill at `per_page` rows a page: the
/// ceiling of `total / per_page`.
pub open spec fn page_count(total: nat, per_page: nat) -> nat {
    if per_page == 0 {
        0
    } else if total % per_page == 0 {
        total / per_page
    } else {
        total / per_page + 1
    }
}

/// The page that is served for a request of `page` when there are
/// `num_pages` pages: page 0 is read as page 1, a page past the last as the
/// last, and with no rows at all page 1 (which is empty) is served.
pub open spec fn clamp_page(page: nat, num_pages: nat) -> nat {
    if page == 0 || num_pages == 0 {
        1
    } else if page > num_pages {
        num_pages
    } else {
        page
    }
}

/// `page_count` is the ceiling: the pages hold every row, and all but the
/// last are full.
pub proof fn lemma_page_count_is_ceiling(total: nat, per_page: nat)
    requires
        per_page > 0,
    ensures
        total == 0 ==> page_count(total, per_page) == 0,
        total > 0 ==> page_count(total, per_page) >= 1,
        total > 0 ==> (page_count(total, per_page) - 1) * per_page < total,
        total <= page_count(total, per_page) * per_page,
{
    let q = total / per_page;
    let rem = total % per_page;
    lemma_fundamental_div_mod(total as int, per_page as int);
    assert(0 <= rem < per_page);
    if rem == 0 {
        assert(total == q * per_page) by (nonlinear_arith)
            requires
                total == per_page * q + rem,
                rem == 0,
        ;
        if total > 0 {
            assert(q >= 1) by (nonlinear_arith)
                requires
                    total == q * per_page,
                    total > 0,
                    q >= 0,
            ;
            assert((q - 1) * per_page < total) by (nonlinear_arith)
                requires
                    total == q * per_page,
                    per_page > 0,
                    q >= 1,
            ;
        } else {
            assert(q == 0) by (nonlinear_arith)
                requires
                    0 == q * per_page,
                    per_page > 0,
                    q >= 0,
            ;
        }
    } else {
        assert(q * per_page < total && total <= (q + 1) * per_page) by (nonlinear_arith)
            requires
                total == per_page * q + rem,
                0 < rem < per_page,
        ;
    }
}

/// Page and page size as a request gives them; either may be left out.
pub struct PaginationParams {
    pub page: Option<u64>,
    pub items_per_page: Option<u64>,
}

/// A page (counted from 1) and a page size (at least 1).
pub struct PageRequest {
    pub page: u64,
    pub items_per_page: u64,
}

impl PageRequest {
    pub open spec fn wf(&self) -> bool {
        self.page >= 1 && self.items_per_page >= 1
    }
}

impl PaginationParams {
    /// The request with defaults filled in: page 1 and
    /// `DEFAULT_ITEMS_PER_PAGE` rows when left out; a page or a page size of
    /// 0 is read as 1.
    pub fn resolve(&self) -> (r: PageRequest)
        ensures
            r.wf(),
            r.page == match self.page {
                Some(p) => if p == 0 { 1 } else { p },
                None => 1,
            },
            r.items_per_page == match self.items_per_page {
                Some(n) => if n == 0 { 1 } else { n },
                None => DEFAULT_ITEMS_PER_PAGE,
            },
    {
        let page = match self.page {
            Some(p) => if p == 0 { 1 } else { p },
            None => 1,
        };
        let items_per_page = match self.items_per_page {
            Some(n) => if n == 0 { 1 } else { n },
            None => DEFAULT_ITEMS_PER_PAGE,
        };
        PageRequest { page, items_per_page }
    }
}

/// Number of pages that `total` rows fill at `per_page` rows a page.
pub fn num_pages(total: u64, per_page: u64) -> (r: u64)
    requires
        per_page > 0,
    ensures
        r == page_count(total as nat, per_page as nat),
{
    let q = total / per_page;
    let rem = total % per_page;
    if rem == 0 {
        q
    } else {
        proof {
            lemma_fundamental_div_mod(total as int, per_page as int);
            assert(q < u64::MAX) by (nonlinear_arith)
                requires
                    total == per_page * q + rem,
                    rem > 0,
                    per_page >= 1,
                    total <= u64::MAX,
            ;
        }
        q + 1
    }
}

/// The rows of one page, as positions in the full ordered list.
pub struct PageWindow {
    /// The page served, counted from 1.
    pub page: u64,
    /// Number of pages in all.
    pub num_pages: u64,
    /// Position of the page's first row.
    pub offset: u64,
    /// Number of rows on the page.
    pub len: u64,
}

/// Where the page of `req` lies among `total` rows.
pub fn page_window(total: u64, req: &PageRequest) -> (r: PageWindow)
    requires
        req.wf(),
    ensures
        r.num_pages == page_count(total as nat, req.items_per_page as nat),
        r.page == clamp_page(req.page as nat, r.num_pages as nat),
        r.offset == (r.page - 1) * req.items_per_page,
        r.offset + r.len <= total,
        r.len == if total - r.offset < req.items_per_page { (total - r.offset) as nat } else { req.items_per_page as nat },
        r.len <= req.items_per_page,
        r.page == r.num_pages ==> r.len == total - (r.num_pages - 1) * req.items_per_page,
        r.page < r.num_pages ==> r.len == req.items_per_page,
{
    let n = req.items_per_page;
    let count = num_pages(total, n);
    proof {
        lemma_page_count_is_ceiling(total as nat, n as nat);
    }
    let page = if count == 0 {
        1
    } else if req.page > count {
        count
    } else {
        req.page
    };
    proof {
        if count > 0 {
            assert((page - 1) * n <= (count - 1) * n) by (nonlinear_arith)
                requires
                    1 <= page <= count,
                    n >= 1,
            ;
            assert(total <= (count - 1) * n + n) by (nonlinear_arith)
                requires
                    total <= count * n,
                    count >= 1,
            ;
        } else {
            assert((page - 1) * n == 0) by (nonlinear_arith)
                requires
                    page == 1,
            ;
        }
    }
    let offset = (page - 1) * n;
    let rest = total - offset;
    let len = if rest < n { rest } else { n };
    proof {
        if page < count {
            assert(offset + n <= (count - 1) * n) by (nonlinear_arith)
                requires
                    offset == (page - 1) * n,
                    page + 1 <= count,
                    n >= 1,
            ;
        }
    }
    PageWindow { page, num_pages: count, offset, len }
}

/// One page of rows, with the page served and the number of pages.
pub struct Page<T> {
    pub items: Vec<T>,
    pub page: u64,
    pub num_pages: u64,
}

/// Cuts the page of `req` out of `rows`, which are in their listing order
/// (ascending primary key). At most `items_per_page` rows come back; the last
/// page holds the remainder.
pub fn paginate<T>(rows: Vec<T>, req: &PageRequest) -> (r: Page<T>)
    requires
        req.wf(),
    ensures
        r.num_pages == page_count(rows@.len(), req.items_per_page as nat),
        r.page == clamp_page(req.page as nat, r.num_pages as nat),
        r.items@ == rows@.subrange(
            (r.page - 1) * req.items_per_page,
            (r.page - 1) * req.items_per_page + r.items@.len(),
        ),
        r.items@.len() <= req.items_per_page,
        r.page == r.num_pages ==> r.items@.len() == rows@.len() - (r.num_pages - 1) * req.items_per_page,
        r.page < r.num_pages ==> r.items@.len() == req.items_per_page,
{
    let mut rows = rows;
    let window = page_window(rows.len() as u64, req);
    let mut items = rows.split_off(window.offset as usize);
    items.truncate(window.len as usize);
    Page { items, page: window.page, num_pages: window.num_pages }
}

} // verus!
