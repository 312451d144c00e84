use vstd::prelude::*;

use crate::access::AuthUser;
use crate::error::{AppError, is_not_found, is_unauthorized, is_validation};
use crate::pagination::{PaginationMeta, ceil_div, lemma_blocks_short_of, pages_for};
use crate::text::owned;

verus! {

/// A faculty member as listed.
#[derive(Debug, Clone, PartialEq, Eq)]
pub struct FacultyDto {
    pub id: String,
    pub faculty_id: String,
    pub first_name: String,
    pub last_name: String,
    pub email: String,
    pub department_id: Option<String>,
    pub department_name: Option<String>,
    pub designation: Option<String>,
    pub is_active: bool,
}

/// Filter and page of a faculty listing.
#[derive(Debug, Clone, PartialEq, Eq)]
pub struct FacultyFilter {
    pub department_id: Option<String>,
    pub page: Option<i64>,
    pub per_page: Option<i64>,
}

/// `c` is a hexadecimal digit, in either case.
pub open spec fn is_hex(c: char) -> bool {
    48 <= (c as int) <= 57 || 65 <= (c as int) <= 70 || 97 <= (c as int) <= 102
}

/// The value of a hexadecimal digit.
pub open spec fn hex_digit_value(c: char) -> int {
    if 48 <= (c as int) <= 57 {
        (c as int) - 48
    } else if 65 <= (c as int) <= 70 {
        (c as int) - 55
    } else {
        (c as int) - 87
    }
}

/// The number that the hexadecimal digits of `s` spell.
pub open spec fn hex_value(s: Seq<char>) -> int
    decreases s.len(),
{
    if s.len() == 0 {
        0
    } else {
        hex_value(s.drop_last()) * 16 + hex_digit_value(s.last())
    }
}

/// The 32 digits of a hyphenated UUID: 36 characters with hyphens at 8, 13, 18 and 23.
pub open spec fn hyphenated_digits(s: Seq<char>) -> Option<Seq<char>> {
    if s.len() == 36 && s[8] == '-' && s[13] == '-' && s[18] == '-' && s[23] == '-' {
        Some(
            s.subrange(0, 8) + s.subrange(9, 13) + s.subrange(14, 18) + s.subrange(19, 23)
                + s.subrange(24, 36),
        )
    } else {
        None
    }
}

/// `c` in ASCII lower case.
pub open spec fn ascii_lower(c: char) -> char {
    if 65 <= (c as int) <= 90 {
        ((c as int) + 32) as char
    } else {
        c
    }
}

/// `s` begins with `urn:uuid:` in any ASCII case.
pub open spec fn has_urn_prefix(s: Seq<char>) -> bool {
    s.len() >= 9 && forall|i: int| 0 <= i < 9 ==> ascii_lower(#[trigger] s[i]) == "urn:uuid:"@[i]
}

/// The 32 digits of a UUID text in one of the forms `uuid` reads: 32 digits; the
/// hyphenated form; the hyphenated form in braces; or `urn:uuid:` and the hyphenated form.
pub open spec fn uuid_digits(s: Seq<char>) -> Option<Seq<char>> {
    if s.len() == 32 {
        Some(s)
    } else if s.len() == 36 {
        hyphenated_digits(s)
    } else if s.len() == 38 && s[0] == '{' && s[37] == '}' {
        hyphenated_digits(s.subrange(1, 37))
    } else if s.len() == 45 && has_urn_prefix(s) {
        hyphenated_digits(s.subrange(9, 45))
    } else {
        None
    }
}

/// The 128-bit value of the UUID that `text` writes: the 32 digits read as one hexadecimal
/// number, when every one of them is a hexadecimal digit.
pub open spec fn uuid_value(text: Seq<char>) -> Option<u128> {
    match uuid_digits(text) {
        Some(d) => if forall|i: int| 0 <= i < d.len() ==> is_hex(#[trigger] d[i]) {
            Some(hex_value(d) as u128)
        } else {
            None
        },
        None => None,
    }
}

/// Calls `uuid::Uuid::parse_str` and takes the UUID's `as_u128()`: the parser accepts the
/// four forms of `uuid_value`, with digits in either case, and `as_u128` reads the 16 bytes
/// big-endian.
#[verifier::external_body]
fn parse_uuid(text: &str) -> (r: Option<u128>)
    ensures
        r == uuid_value(text@),
{
    match uuid::Uuid::parse_str(text) {
        Ok(u) => Some(u.as_u128()),
        Err(_) => None,
    }
}

/// The page of a faculty listing: page `page` (at least 1) of `per_page` rows, skipping
/// `offset` rows.
#[derive(Debug, Clone, Copy, PartialEq, Eq)]
pub struct FacultyWindow {
    pub page: i64,
    pub per_page: i64,
    pub offset: i64,
}

impl FacultyFilter {
    /// The page asked for: 1 when unset, and never below 1.
    pub open spec fn spec_page(self) -> i64 {
        match self.page {
            Some(p) => if p >= 1 {
                p
            } else {
                1
            },
            None => 1,
        }
    }

    /// The page length asked for: 20 when unset, and never above 100.
    pub open spec fn spec_per_page(self) -> i64 {
        match self.per_page {
            Some(n) => if n <= 100 {
                n
            } else {
                100
            },
            None => 20,
        }
    }

    /// The page of the listing this filter asks for. A page length below 1 is refused with
    /// `Validation("per_page must be at least 1")`, and a page whose row offset does not fit an
    /// `i64` with `Validation("page is out of range")`.
    pub fn window(&self) -> (r: Result<FacultyWindow, AppError>)
        ensures
            self.spec_per_page() < 1 ==> (r matches Err(e) && is_validation(
                e,
                "per_page must be at least 1"@,
            )),
            self.spec_per_page() >= 1 && (self.spec_page() - 1) * self.spec_per_page() > i64::MAX
                ==> (r matches Err(e) && is_validation(e, "page is out of range"@)),
            r is Ok <==> (self.spec_per_page() >= 1 && (self.spec_page() - 1)
                * self.spec_per_page() <= i64::MAX),
            r matches Ok(w) ==> {
                &&& (self.per_page is Some && self.per_page->0 <= 100 ==> w.per_page == self.per_page->0)
                &&& (self.per_page is Some && self.per_page->0 > 100 ==> w.per_page == 100)
                &&& (self.per_page is None ==> w.per_page == 20)
                &&& (self.page is Some && self.page->0 >= 1 ==> w.page == self.page->0)
                &&& (self.page is Some && self.page->0 < 1 ==> w.page == 1)
                &&& (self.page is None ==> w.page == 1)
                &&& w.offset == (w.page - 1) * w.per_page
                &&& w.page == self.spec_page()
                &&& w.per_page == self.spec_per_page()
                &&& w.offset == (self.spec_page() - 1) * self.spec_per_page()
                &&& w.page >= 1
                &&& 1 <= w.per_page <= 100
                &&& w.offset >= 0
            },
    {
        let page: i64 = match self.page {
            Some(p) => if p >= 1 {
                p
            } else {
                1
            },
            None => 1,
        };
        let per_page: i64 = match self.per_page {
            Some(n) => if n <= 100 {
                n
            } else {
                100
            },
            None => 20,
        };
        if per_page < 1 {
            return Err(AppError::Validation(owned("per_page must be at least 1")));
        }
        match (page - 1).checked_mul(per_page) {
            Some(offset) => {
                assert(offset >= 0) by (nonlinear_arith)
                    requires
                        offset == (page - 1) * per_page,
                        page >= 1,
                        per_page >= 1,
                ;
                Ok(FacultyWindow { page, per_page, offset })
            },
            None => Err(AppError::Validation(owned("page is out of range"))),
        }
    }

    /// The department to filter by: the filter's department id when it is a UUID; an id
    /// that is not one filters nothing.
    pub fn department(&self) -> (r: Option<u128>)
        ensures
            r == (match self.department_id {
                Some(d) => uuid_value(d@),
                None => None,
            }),
    {
        match &self.department_id {
            Some(d) => parse_uuid(d.as_str()),
            None => None,
        }
    }
}

/// Where a faculty page stands: the page count divides `total` by the page length taken
/// as unsigned, rounding up.
pub fn faculty_meta(total: u64, window: &FacultyWindow) -> (r: PaginationMeta)
    requires
        window.page >= 1,
        window.per_page >= 1,
    ensures
        r.total == total,
        r.page == window.page,
        r.limit == window.per_page as u64,
        r.limit > 0,
        r.total_pages == ceil_div(total as nat, r.limit as nat),
        r.has_next == (r.page < r.total_pages),
        r.has_prev == (window.page > 1),
{
    let limit = window.per_page as u64;
    let total_pages = pages_for(total, limit);
    let page = window.page as u64;
    PaginationMeta {
        total,
        page,
        limit,
        total_pages,
        has_next: page < total_pages,
        has_prev: window.page > 1,
    }
}

/// The caller's institution as a UUID: refused with `Unauthorized("Bad institution id")`
/// when the caller's institution id is not one.
pub fn caller_institution(auth_user: &AuthUser) -> (r: Result<u128, AppError>)
    ensures
        match uuid_value(auth_user.institution_id@) {
            Some(u) => r == Ok::<u128, AppError>(u),
            None => r matches Err(e) && is_unauthorized(e, "Bad institution id"@),
        },
{
    match parse_uuid(auth_user.institution_id.as_str()) {
        Some(u) => Ok(u),
        None => Err(AppError::Unauthorized(owned("Bad institution id"))),
    }
}

/// The faculty member asked for, as a UUID: refused with `NotFound("Faculty not found")`
/// when the id is not one.
pub fn requested_faculty(id: &str) -> (r: Result<u128, AppError>)
    ensures
        match uuid_value(id@) {
            Some(u) => r == Ok::<u128, AppError>(u),
            None => r matches Err(e) && is_not_found(e, "Faculty not found"@),
        },
{
    match parse_uuid(id) {
        Some(u) => Ok(u),
        None => Err(AppError::NotFound(owned("Faculty not found"))),
    }
}

/// The faculty record found: refused with `NotFound("Faculty not found")` when there is
/// none in the caller's institution.
pub fn faculty_found(record: Option<FacultyDto>) -> (r: Result<FacultyDto, AppError>)
    ensures
        match record {
            Some(f) => r == Ok::<FacultyDto, AppError>(f),
            None => r matches Err(e) && is_not_found(e, "Faculty not found"@),
        },
{
    match record {
        Some(f) => Ok(f),
        None => Err(AppError::NotFound(owned("Faculty not found"))),
    }
}

/// A faculty page with a positive length starts inside the listing exactly when its number
/// is at most the page count reported, and a next page is announced exactly when rows
/// remain after it.
pub proof fn law_faculty_page_inside_listing(window: FacultyWindow, total: u64)
    requires
        window.page >= 1,
        window.per_page >= 1,
        window.offset == (window.page - 1) * window.per_page,
    ensures
        window.offset < total <==> window.page <= ceil_div(total as nat, window.per_page as nat),
        window.page < ceil_div(total as nat, window.per_page as nat) <==> window.page
            * window.per_page < total,
{
    lemma_blocks_short_of(total as nat, window.per_page as nat, (window.page - 1) as nat);
    lemma_blocks_short_of(total as nat, window.per_page as nat, window.page as nat);
}

/// The page length used is the one asked for whenever it is at most 100, 100 when a
/// longer one is asked for, and 20 when none is; the page used is the one asked for when it
/// is at least 1, and 1 otherwise. A page length of 1 to 100 is thus never altered.
pub proof fn law_faculty_page_request_kept(filter: FacultyFilter)
    ensures
        filter.per_page is Some && filter.per_page->0 <= 100 ==> filter.spec_per_page() == filter.per_page->0,
        filter.per_page is Some && filter.per_page->0 > 100 ==> filter.spec_per_page() == 100,
        filter.per_page is None ==> filter.spec_per_page() == 20,
        filter.page is Some && filter.page->0 >= 1 ==> filter.spec_page() == filter.page->0,
        filter.page is Some && filter.page->0 < 1 ==> filter.spec_page() == 1,
        filter.page is None ==> filter.spec_page() == 1,
        1 <= filter.spec_page(),
        filter.spec_per_page() <= 100,
{
}

} // verus!
