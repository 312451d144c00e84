use vstd::prelude::*;

use crate::error::{AppError, is_validation};
use crate::text::owned;

verus! {

/// The smallest `n` with `n * d >= a`, for a positive divisor `d`.
pub open spec fn ceil_div(a: nat, d: nat) -> nat
    recommends
        d > 0,
{
    if a % d == 0 {
        a / d
    } else {
        a / d + 1
    }
}

/// Which page of a listing a client asks for, and how long pages are.
#[derive(Debug, Clone, Copy, PartialEq, Eq)]
pub struct PaginationParams {
    pub page: u64,
    pub limit: u64,
}

/// The page asked for when the client names none.
pub fn default_page() -> (r: u64)
    ensures
        r == 1,
{
    1
}

/// The page length used when the client names none.
pub fn default_limit() -> (r: u64)
    ensures
        r == 20,
{
    20
}

/// The longest page the service hands out.
pub open spec fn max_page_len() -> u64 {
    100
}

impl PaginationParams {
    /// How many rows precede the requested page: pages count from 1, page 0 reads as page 1.
    pub open spec fn spec_offset(self) -> int {
        if self.page == 0 {
            0
        } else {
            (self.page - 1) * self.limit
        }
    }

    /// The page length actually used: the requested one, at most 100.
    pub open spec fn spec_limit_clamped(self) -> u64 {
        if self.limit <= max_page_len() {
            self.limit
        } else {
            max_page_len()
        }
    }

    /// Rows to skip before the requested page.
    pub fn offset(&self) -> (r: u64)
        requires
            self.spec_offset() <= u64::MAX,
        ensures
            r == self.spec_offset(),
    {
        self.page.saturating_sub(1) * self.limit
    }

    /// Rows to skip before the requested page; refused with `Validation("page is out of
    /// range")` when that count does not fit a `u64`.
    pub fn checked_offset(&self) -> (r: Result<u64, AppError>)
        ensures
            r is Ok <==> self.spec_offset() <= u64::MAX,
            r matches Ok(o) ==> o == self.spec_offset(),
            r matches Err(e) ==> is_validation(e, "page is out of range"@),
    {
        match self.page.saturating_sub(1).checked_mul(self.limit) {
            Some(o) => Ok(o),
            None => Err(AppError::Validation(owned("page is out of range"))),
        }
    }

    /// The requested page length, cut down to 100.
    pub fn limit_clamped(&self) -> (r: u64)
        ensures
            r == self.spec_limit_clamped(),
            r <= 100,
    {
        if self.limit <= 100 {
            self.limit
        } else {
            100
        }
    }
}

/// Where a page stands in the whole listing.
#[derive(Debug, Clone, Copy, PartialEq, Eq)]
pub struct PaginationMeta {
    pub total: u64,
    pub page: u64,
    pub limit: u64,
    pub total_pages: u64,
    pub has_next: bool,
    pub has_prev: bool,
}

/// Number of pages of `limit` rows that `total` rows fill. With a length of 0, an empty
/// listing has no pages and any other has as many as a `u64` holds.
pub open spec fn page_count(total: u64, limit: u64) -> int {
    if limit == 0 {
        if total == 0 {
            0
        } else {
            u64::MAX as int
        }
    } else {
        ceil_div(total as nat, limit as nat) as int
    }
}

/// Number of pages of `limit` rows that `total` rows fill.
pub fn pages_for(total: u64, limit: u64) -> (r: u64)
    ensures
        r == page_count(total, limit),
{
    if limit == 0 {
        if total == 0 {
            0
        } else {
            u64::MAX
        }
    } else {
        let q = total / limit;
        if total % limit == 0 {
            q
        } else {
            proof {
                assert(q < 0xffff_ffff_ffff_ffffu64) by (nonlinear_arith)
                    requires
                        q == total / limit,
                        limit >= 1,
                        total % limit != 0,
                        total <= 0xffff_ffff_ffff_ffffu64,
                {
                    if limit == 1 {
                        assert(total % 1 == 0);
                    } else {
                        assert(q * limit <= total);
                        assert(q * 2 <= q * limit);
                    }
                }
            }
            q + 1
        }
    }
}

/// A page of rows together with where it stands in the listing.
#[derive(Debug, Clone, PartialEq, Eq)]
pub struct PaginatedResponse<T> {
    pub data: Vec<T>,
    pub meta: PaginationMeta,
}

impl<T> PaginatedResponse<T> {
    /// The page `params` asks for, holding `data`, out of `total` rows.
    pub fn new(data: Vec<T>, total: u64, params: &PaginationParams) -> (r: PaginatedResponse<T>)
        ensures
            r.data@ == data@,
            r.meta.total == total,
            r.meta.page == params.page,
            r.meta.limit == params.spec_limit_clamped(),
            r.meta.total_pages == page_count(total, params.spec_limit_clamped()),
            r.meta.has_next == (params.page < r.meta.total_pages),
            r.meta.has_prev == (params.page > 1),
    {
        let limit = params.limit_clamped();
        let total_pages = pages_for(total, limit);
        PaginatedResponse {
            data,
            meta: PaginationMeta {
                total,
                page: params.page,
                limit,
                total_pages,
                has_next: params.page < total_pages,
                has_prev: params.page > 1,
            },
        }
    }
}

/// The listing's row count as the database reports it alongside the first row; no row
/// means no count, and so 0.
pub fn count_total(count: Option<i64>) -> (r: u64)
    ensures
        r == (match count { Some(c) => c, None => 0 }) as u64,
{
    match count {
        Some(c) => c as u64,
        None => 0,
    }
}

/// For a positive `d`: `k` whole blocks of `d` stop short of `a` exactly when `k` is below
/// the number of blocks that `a` fills.
pub proof fn lemma_blocks_short_of(a: nat, d: nat, k: nat)
    requires
        d > 0,
    ensures
        (k * d < a) <==> (k < ceil_div(a, d)),
{
    let q = a / d;
    let r = a % d;
    assert(a == q * d + r && 0 <= r < d) by (nonlinear_arith)
        requires
            d > 0,
            q == a / d,
            r == a % d,
    ;
    if k < q {
        assert(k * d < a) by (nonlinear_arith)
            requires
                k < q,
                a == q * d + r,
                r >= 0,
                d > 0,
        ;
    } else if k == q {
        assert(k * d == q * d);
    } else {
        assert(k * d > a) by (nonlinear_arith)
            requires
                k >= q + 1,
                d > 0,
                a == q * d + r,
                r < d,
        ;
    }
}

/// A requested page (counting from 1, with a length of 1 to 100) starts inside the listing
/// exactly when its number is at most the page count that the response reports.
pub proof fn law_page_starts_inside_listing(params: PaginationParams, total: u64)
    requires
        params.page >= 1,
        1 <= params.limit <= max_page_len(),
    ensures
        params.spec_offset() < total <==> params.page <= page_count(
            total,
            params.spec_limit_clamped(),
        ),
{
    lemma_blocks_short_of(total as nat, params.limit as nat, (params.page - 1) as nat);
}

/// The response announces a next page exactly when rows remain after the requested one.
pub proof fn law_next_page_iff_rows_remain(params: PaginationParams, total: u64)
    requires
        params.limit >= 1,
    ensures
        (params.page < page_count(total, params.spec_limit_clamped())) <==> params.page
            * params.spec_limit_clamped() < total,
{
    lemma_blocks_short_of(total as nat, params.spec_limit_clamped() as nat, params.page as nat);
}

} // verus!
