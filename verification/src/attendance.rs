use vstd::prelude::*;

use crate::error::{AppError, is_forbidden, is_validation};
use crate::text::owned;

verus! {

/// One student's mark in an attendance session.
#[derive(Debug, Clone, PartialEq, Eq)]
pub struct AttendanceRecord {
    pub student_id: String,
    pub status: String,
    pub remarks: Option<String>,
}

/// The form that records a session's attendance.
#[derive(Debug, Clone, PartialEq, Eq)]
pub struct MarkAttendanceRequest {
    pub course_id: String,
    pub date: String,
    pub topic: Option<String>,
    pub records: Vec<AttendanceRecord>,
}

/// The instant that chrono reads from `text` as an ISO 8601 date and time without zone
/// (`NaiveDateTime`'s `FromStr`, as `YYYY-MM-DDTHH:MM:SS` with an optional fraction): the
/// seconds since the epoch and the nanoseconds past them, if it reads one.
pub uninterp spec fn iso_instant(text: Seq<char>) -> Option<(i64, u32)>;

/// Calls `str::parse::<chrono::NaiveDateTime>` and takes the result's seconds since the
/// epoch and sub-second nanoseconds. The result is named `iso_instant`; of it the contract
/// states only that an empty text is no date.
#[verifier::external_body]
fn parse_iso_instant(text: &str) -> (r: Option<(i64, u32)>)
    ensures
        r == iso_instant(text@),
        text@.len() == 0 ==> r is None,
{
    match text.parse::<chrono::NaiveDateTime>() {
        Ok(d) => Some((d.and_utc().timestamp(), d.and_utc().timestamp_subsec_nanos())),
        Err(_) => None,
    }
}

/// The session date of an attendance form: refused with `Validation("Invalid date format.
/// Use ISO 8601")` when it is not an ISO 8601 date and time.
pub fn session_date(request: &MarkAttendanceRequest) -> (r: Result<(i64, u32), AppError>)
    ensures
        match iso_instant(request.date@) {
            Some(t) => r == Ok::<(i64, u32), AppError>(t),
            None => r matches Err(e) && is_validation(e, "Invalid date format. Use ISO 8601"@),
        },
{
    match parse_iso_instant(request.date.as_str()) {
        Some(t) => Ok(t),
        None => Err(AppError::Validation(owned("Invalid date format. Use ISO 8601"))),
    }
}

/// The faculty member who marks attendance: refused with `Forbidden("Only faculty can mark
/// attendance")` when the caller has no faculty profile.
pub fn marking_faculty(faculty_id: Option<String>) -> (r: Result<String, AppError>)
    ensures
        match faculty_id {
            Some(f) => r == Ok::<String, AppError>(f),
            None => r matches Err(e) && is_forbidden(e, "Only faculty can mark attendance"@),
        },
{
    match faculty_id {
        Some(f) => Ok(f),
        None => Err(AppError::Forbidden(owned("Only faculty can mark attendance"))),
    }
}

/// An attendance session to record: only `new_session` makes one, after its checks pass.
#[derive(Debug, Clone, PartialEq, Eq)]
pub struct NewSession {
    pub course_id: String,
    pub faculty_id: String,
    pub date_seconds: i64,
    pub date_nanos: u32,
    pub topic: Option<String>,
    pub records: Vec<AttendanceRecord>,
}

/// The session that a faculty member's form records. The caller's faculty profile is
/// checked first, as `marking_faculty` does, then the date, as `session_date` does.
pub fn new_session(faculty_id: Option<String>, request: MarkAttendanceRequest) -> (r: Result<
    NewSession,
    AppError,
>)
    ensures
        faculty_id is None ==> (r matches Err(e) && is_forbidden(
            e,
            "Only faculty can mark attendance"@,
        )),
        faculty_id is Some && iso_instant(request.date@) is None ==> (r matches Err(e)
            && is_validation(e, "Invalid date format. Use ISO 8601"@)),
        r is Ok <==> (faculty_id is Some && iso_instant(request.date@) is Some),
        r matches Ok(s) ==> {
            &&& faculty_id == Some(s.faculty_id)
            &&& iso_instant(request.date@) == Some((s.date_seconds, s.date_nanos))
            &&& s.course_id == request.course_id
            &&& s.topic == request.topic
            &&& s.records@ == request.records@
        },
{
    let faculty = marking_faculty(faculty_id)?;
    let (date_seconds, date_nanos) = session_date(&request)?;
    Ok(
        NewSession {
            course_id: request.course_id,
            faculty_id: faculty,
            date_seconds,
            date_nanos,
            topic: request.topic,
            records: request.records,
        },
    )
}

} // verus!
