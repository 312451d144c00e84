use vstd::prelude::*;

use crate::access::{AuthUser, StaffAction, authorize};
use crate::error::{AppError, is_conflict, is_forbidden, is_not_found};
use crate::pagination::PaginationParams;
use crate::text::owned;
use crate::validation::{CreateCourseRequest, report, validation_failure};

verus! {

/// A course as listed.
#[derive(Debug, Clone, PartialEq, Eq)]
pub struct CourseDto {
    pub id: String,
    pub code: String,
    pub name: String,
    pub description: Option<String>,
    pub credits: i32,
    pub max_capacity: i32,
    pub enrolled_count: Option<i64>,
    pub department_id: String,
    pub department_name: Option<String>,
    pub faculty_id: Option<String>,
    pub faculty_name: Option<String>,
    pub semester_id: Option<String>,
    pub is_active: bool,
}

/// Filters and page of a course listing.
#[derive(Debug, Clone, PartialEq, Eq)]
pub struct CourseFilterParams {
    pub department_id: Option<String>,
    pub semester_id: Option<String>,
    pub faculty_id: Option<String>,
    pub is_active: Option<bool>,
    pub pagination: PaginationParams,
}

/// An active course's seats: how many it has, and how many active enrolments the
/// database counted (no count reads as 0).
#[derive(Debug, Clone, Copy, PartialEq, Eq)]
pub struct CourseSeats {
    pub max_capacity: i32,
    pub enrolled: Option<i64>,
}

impl CourseSeats {
    /// The active enrolments, no count read as 0.
    pub open spec fn spec_enrolled(self) -> i64 {
        match self.enrolled {
            Some(n) => n,
            None => 0,
        }
    }

    /// The course has no seat left.
    pub open spec fn spec_full(self) -> bool {
        self.spec_enrolled() >= self.max_capacity as i64
    }
}

/// The student who asks to enrol: refused with `NotFound("Student profile not found")` when
/// the caller has no student profile.
pub fn enrolling_student(student_id: Option<String>) -> (r: Result<String, AppError>)
    ensures
        match student_id {
            Some(s) => r == Ok::<String, AppError>(s),
            None => r matches Err(e) && is_not_found(e, "Student profile not found"@),
        },
{
    match student_id {
        Some(s) => Ok(s),
        None => Err(AppError::NotFound(owned("Student profile not found"))),
    }
}

/// The verdict on the seats of the course asked for: refused with `NotFound("Course not
/// found")` when the course is missing or inactive, with `Conflict("Course is at full
/// capacity")` when every seat is taken. An admitted enrolment never takes the course past
/// its capacity.
pub fn seat_verdict(course: Option<CourseSeats>) -> (r: Result<(), AppError>)
    ensures
        r is Ok <==> (course matches Some(c) && (match c.enrolled {
            Some(n) => n as int,
            None => 0int,
        }) < c.max_capacity as int),
        r is Ok ==> (course matches Some(c) && c.spec_enrolled() + 1 <= c.max_capacity),
        match course {
            None => r matches Err(e) && is_not_found(e, "Course not found"@),
            Some(c) => if c.spec_full() {
                r matches Err(e) && is_conflict(e, "Course is at full capacity"@)
            } else {
                r is Ok
            },
        },
{
    let seats = match course {
        Some(c) => c,
        None => {
            return Err(AppError::NotFound(owned("Course not found")));
        },
    };
    let enrolled: i64 = match seats.enrolled {
        Some(n) => n,
        None => 0,
    };
    if enrolled >= seats.max_capacity as i64 {
        return Err(AppError::Conflict(owned("Course is at full capacity")));
    }
    Ok(())
}

/// An enrolment to record: only `new_enrollment` makes one, after its checks pass.
#[derive(Debug, Clone, PartialEq, Eq)]
pub struct NewEnrollment {
    pub student_id: String,
    pub course_id: String,
}

/// The enrolment of a student (already found) in a course, once the course's seats are
/// checked as `seat_verdict` does.
pub fn new_enrollment(student_id: String, course_id: String, course: Option<CourseSeats>) -> (r:
    Result<NewEnrollment, AppError>)
    ensures
        r is Ok ==> (course matches Some(c) && c.spec_enrolled() + 1 <= c.max_capacity),
        match course {
            None => r matches Err(e) && is_not_found(e, "Course not found"@),
            Some(c) => if c.spec_full() {
                r matches Err(e) && is_conflict(e, "Course is at full capacity"@)
            } else {
                r == Ok::<NewEnrollment, AppError>(NewEnrollment { student_id, course_id })
            },
        },
{
    match seat_verdict(course) {
        Ok(()) => Ok(NewEnrollment { student_id, course_id }),
        Err(e) => Err(e),
    }
}

/// A course to create: only `new_course` makes one, after its checks pass.
#[derive(Debug, Clone, PartialEq, Eq)]
pub struct NewCourse {
    pub code: String,
    pub name: String,
    pub description: Option<String>,
    pub credits: i32,
    pub max_capacity: i32,
    pub institution_id: String,
    pub department_id: String,
    pub faculty_id: Option<String>,
    pub semester_id: Option<String>,
}

/// The course that a caller's form creates, in the caller's institution. The role is
/// checked first (`Forbidden("Insufficient permissions")` unless the caller may create
/// courses), then the form (`Validation` listing every broken rule); the seat count
/// defaults to 60.
pub fn new_course(auth_user: &AuthUser, request: CreateCourseRequest) -> (r: Result<
    NewCourse,
    AppError,
>)
    ensures
        !StaffAction::CreateCourse.spec_allowed_roles().contains(auth_user.role@) ==> (r matches Err(
            e,
        ) && is_forbidden(e, "Insufficient permissions"@)),
        StaffAction::CreateCourse.spec_allowed_roles().contains(auth_user.role@)
            && request.spec_violations().len() > 0 ==> (r matches Err(e) && e matches AppError::Validation(m)
            && m@ == report(request.spec_violations())),
        r is Ok <==> (StaffAction::CreateCourse.spec_allowed_roles().contains(auth_user.role@)
            && request.spec_violations().len() == 0),
        r matches Ok(c) ==> {
            &&& c.code == request.code
            &&& c.name == request.name
            &&& c.description == request.description
            &&& c.credits == request.credits
            &&& c.max_capacity == (match request.max_capacity {
                Some(n) => n,
                None => 60,
            })
            &&& c.institution_id == auth_user.institution_id
            &&& c.department_id == request.department_id
            &&& c.faculty_id == request.faculty_id
            &&& c.semester_id == request.semester_id
        },
{
    authorize(auth_user, &StaffAction::CreateCourse)?;
    match request.validate() {
        Err(vs) => Err(validation_failure(&vs)),
        Ok(()) => {
            let max_capacity = request.capacity();
            Ok(
                NewCourse {
                    code: request.code,
                    name: request.name,
                    description: request.description,
                    credits: request.credits,
                    max_capacity,
                    institution_id: auth_user.institution_id.clone(),
                    department_id: request.department_id,
                    faculty_id: request.faculty_id,
                    semester_id: request.semester_id,
                },
            )
        },
    }
}

/// An existing course is full exactly when its active enrolments (none counted read as
/// none) reach its capacity; so whenever one more enrolment fits, the course is not full,
/// and a course with a free seat is never refused as full.
pub proof fn law_full_exactly_at_capacity(course: CourseSeats)
    ensures
        course.spec_full() <==> (match course.enrolled {
            Some(n) => n as int,
            None => 0int,
        }) >= course.max_capacity as int,
        (match course.enrolled {
            Some(n) => n as int,
            None => 0int,
        }) + 1 <= course.max_capacity as int ==> !course.spec_full(),
        course.spec_enrolled() == (match course.enrolled {
            Some(n) => n as int,
            None => 0int,
        }),
{
}

} // verus!
