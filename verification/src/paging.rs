use vstd::prelude::*;
use crate::models::BrandRating;

verus! {

/// Query of the brand listing.
pub struct ListParams {
    pub page: Option<usize>,
    pub limit: Option<usize>,
    pub category: Option<String>,
    pub min_score: Option<u8>,
    pub max_score: Option<u8>,
    pub search: Option<String>,
    pub sort: Option<String>,
}

/// Query of the name search.
pub struct SearchParams {
    pub q: Option<String>,
}

/// Query of the top and worst lists.
pub struct LimitParams {
    pub limit: Option<usize>,
}

/// Query of the comparison: comma separated slugs.
pub struct CompareParams {
    pub brands: Option<String>,
}

/// Query of the alternatives list.
pub struct AlternativesParams {
    pub limit: Option<usize>,
    pub min_score: Option<u8>,
}

/// One page of the brand listing.
pub struct PaginatedResponse {
    pub brands: Vec<BrandRating>,
    pub total: usize,
    pub page: usize,
    pub pages: usize,
}

/// `requested`, or `default` when absent, but never more than `max`.
pub open spec fn capped(requested: Option<usize>, default: usize, max: usize) -> usize {
    let v = match requested {
        Some(v) => v,
        None => default,
    };
    if v <= max { v } else { max }
}

/// A requested count, `default` when absent, capped at `max`.
pub fn capped_limit(requested: Option<usize>, default: usize, max: usize) -> (r: usize)
    ensures
        r == capped(requested, default, max),
{
    let v = match requested {
        Some(v) => v,
        None => default,
    };
    if v <= max { v } else { max }
}

/// Page size of the listing: 50 by default, at most 100.
pub open spec fn listing_limit(limit: Option<usize>) -> usize {
    capped(limit, 50, 100)
}

/// Page number of the listing: 1 by default, at least 1.
pub open spec fn listing_page(page: Option<usize>) -> usize {
    match page {
        Some(p) => if p >= 1 { p } else { 1 },
        None => 1,
    }
}

/// A listing page holds at most 100 rows, 50 when no size is asked for,
/// and at least one whenever a positive size is asked for (or none); the
/// page number is at least 1.
pub proof fn law_listing_window_bounds(page: Option<usize>, limit: Option<usize>)
    ensures
        listing_limit(limit) <= 100,
        match limit {
            Some(x) => (x >= 1 ==> listing_limit(limit) >= 1) && (x <= 100 ==> listing_limit(limit) == x),
            None => listing_limit(limit) == 50,
        },
        listing_page(page) >= 1,
        page matches Some(p) ==> (p >= 1 ==> listing_page(page) == p),
{
}

/// Size, number and first row of a page of the listing.
pub struct PageWindow {
    pub limit: usize,
    pub page: usize,
    pub offset: usize,
}

/// The page of the listing that a query asks for.
pub fn page_window(page: Option<usize>, limit: Option<usize>) -> (w: PageWindow)
    requires
        (listing_page(page) - 1) * listing_limit(limit) <= usize::MAX,
    ensures
        w.limit == listing_limit(limit),
        w.page == listing_page(page),
        w.offset == (w.page - 1) * w.limit,
{
    let limit = capped_limit(limit, 50, 100);
    let page = match page {
        Some(p) => if p >= 1 { p } else { 1 },
        None => 1,
    };
    PageWindow { limit, page, offset: (page - 1) * limit }
}

/// Number of pages of `limit` rows that `total` rows fill (one when there are none).
pub open spec fn page_count_value(total: nat, limit: nat) -> nat {
    if total == 0 {
        1
    } else {
        ((total + limit - 1) / limit as int) as nat
    }
}

/// Number of pages for `total` rows, `limit` to a page.
pub fn page_count(total: usize, limit: usize) -> (r: usize)
    requires
        total > 0 ==> limit > 0,
        total > 0 ==> total + limit <= usize::MAX,
    ensures
        r == page_count_value(total as nat, limit as nat),
{
    if total == 0 {
        1
    } else {
        (total + limit - 1) / limit
    }
}

/// With rows present, the pages hold all of them and the last page is not
/// empty: `(pages - 1) * limit < total <= pages * limit`.
pub proof fn law_page_count_covers(total: nat, limit: nat)
    requires
        total > 0,
        limit > 0,
    ensures
        page_count_value(total, limit) >= 1,
        (page_count_value(total, limit) - 1) * limit < total,
        total <= page_count_value(total, limit) * limit,
{
    let p = page_count_value(total, limit);
    let n = total + limit - 1;
    assert(p == n / (limit as int));
    assert(n == (limit as int) * (n / (limit as int)) + n % (limit as int)) by (nonlinear_arith)
        requires limit > 0;
    assert(0 <= n % (limit as int) < limit) by (nonlinear_arith)
        requires limit > 0;
    assert(n / (limit as int) >= 1) by (nonlinear_arith)
        requires n >= limit, limit > 0;
    assert((p - 1) * limit == p * limit - limit) by (nonlinear_arith);
    assert(p * limit == limit * p) by (nonlinear_arith);
}

/// One page of the listing.
pub fn paginated_response(brands: Vec<BrandRating>, total: usize, window: &PageWindow) -> (r: PaginatedResponse)
    requires
        total > 0 ==> window.limit > 0,
        total > 0 ==> total + window.limit <= usize::MAX,
    ensures
        r.brands@ == brands@,
        r.total == total,
        r.page == window.page,
        r.pages == page_count_value(total as nat, window.limit as nat),
{
    let pages = page_count(total, window.limit);
    PaginatedResponse { brands, total, page: window.page, pages }
}

/// Length of the top and worst lists: 10 by default, at most 50.
pub fn ranking_limit(params: &LimitParams) -> (r: usize)
    ensures
        r == capped(params.limit, 10, 50),
{
    capped_limit(params.limit, 10, 50)
}

} // verus!
