use vstd::prelude::*;

use crate::error::{AppError, is_not_found};
use crate::pagination::PaginationParams;
use crate::text::owned;

verus! {

/// Filters and page of a student listing.
#[derive(Debug, Clone, PartialEq, Eq)]
pub struct StudentFilterParams {
    pub department_id: Option<String>,
    pub is_active: Option<bool>,
    pub pagination: PaginationParams,
}

/// The student record found: refused with `NotFound("Student not found")` when there is
/// none in the caller's institution.
pub fn student_found<T>(record: Option<T>) -> (r: Result<T, AppError>)
    ensures
        match record {
            Some(s) => r == Ok::<T, AppError>(s),
            None => r matches Err(e) && is_not_found(e, "Student not found"@),
        },
{
    match record {
        Some(s) => Ok(s),
        None => Err(AppError::NotFound(owned("Student not found"))),
    }
}

} // verus!
