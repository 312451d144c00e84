use vstd::prelude::*;

use crate::error::{AppError, is_forbidden};
use crate::text::{owned, same_text};

verus! {

/// The caller of a protected request, as its bearer token names it.
#[derive(Debug, Clone, PartialEq, Eq)]
pub struct AuthUser {
    pub id: String,
    pub email: String,
    pub role: String,
    pub institution_id: String,
}

/// `role` is one of the names in `allowed`.
pub open spec fn role_listed(role: Seq<char>, allowed: Seq<&str>) -> bool {
    exists|i: int| 0 <= i < allowed.len() && (#[trigger] allowed[i])@ == role
}

/// Lets the request through when the caller's role is one of `allowed`; otherwise refuses
/// it with `Forbidden("Insufficient permissions")`.
pub fn require_roles(auth_user: &AuthUser, allowed: &[&str]) -> (r: Result<(), AppError>)
    ensures
        r is Ok <==> role_listed(auth_user.role@, allowed@),
        r matches Err(e) ==> is_forbidden(e, "Insufficient permissions"@),
{
    let mut i: usize = 0;
    while i < allowed.len()
        invariant
            i <= allowed@.len(),
            forall|j: int| 0 <= j < i ==> (#[trigger] allowed@[j])@ != auth_user.role@,
        decreases allowed@.len() - i,
    {
        if same_text(allowed[i], auth_user.role.as_str()) {
            return Ok(());
        }
        i = i + 1;
    }
    Err(AppError::Forbidden(owned("Insufficient permissions")))
}

/// The requests that only some roles may make.
#[derive(Debug, Clone, Copy, PartialEq, Eq)]
pub enum StaffAction {
    ListStudents,
    DeleteStudent,
    CreateCourse,
    MarkAttendance,
    UploadResults,
    PublishResults,
}

impl StaffAction {
    /// The roles that may take this action.
    pub open spec fn spec_allowed_roles(self) -> Seq<Seq<char>> {
        match self {
            StaffAction::ListStudents => seq!["ADMIN"@, "DEPT_HEAD"@, "FACULTY"@],
            StaffAction::DeleteStudent => seq!["ADMIN"@],
            StaffAction::CreateCourse => seq!["ADMIN"@],
            StaffAction::MarkAttendance => seq!["FACULTY"@, "ADMIN"@],
            StaffAction::UploadResults => seq!["FACULTY"@, "ADMIN"@],
            StaffAction::PublishResults => seq!["ADMIN"@, "FACULTY"@],
        }
    }

    /// The roles that may take this action.
    pub fn allowed_roles(&self) -> (r: Vec<&'static str>)
        ensures
            r@.len() == self.spec_allowed_roles().len(),
            forall|i: int| 0 <= i < r@.len() ==> (#[trigger] r@[i])@ == self.spec_allowed_roles()[i],
    {
        match self {
            StaffAction::ListStudents => vec!["ADMIN", "DEPT_HEAD", "FACULTY"],
            StaffAction::DeleteStudent => vec!["ADMIN"],
            StaffAction::CreateCourse => vec!["ADMIN"],
            StaffAction::MarkAttendance => vec!["FACULTY", "ADMIN"],
            StaffAction::UploadResults => vec!["FACULTY", "ADMIN"],
            StaffAction::PublishResults => vec!["ADMIN", "FACULTY"],
        }
    }
}

/// Lets the caller take `action` when its role is one of those the action admits;
/// otherwise refuses with `Forbidden("Insufficient permissions")`.
pub fn authorize(auth_user: &AuthUser, action: &StaffAction) -> (r: Result<(), AppError>)
    ensures
        r is Ok <==> action.spec_allowed_roles().contains(auth_user.role@),
        r matches Err(e) ==> is_forbidden(e, "Insufficient permissions"@),
{
    let roles = action.allowed_roles();
    let r = require_roles(auth_user, roles.as_slice());
    proof {
        if r is Ok {
            let i = choose|i: int| 0 <= i < roles@.len() && (#[trigger] roles@[i])@ == auth_user.role@;
            assert(action.spec_allowed_roles()[i] == auth_user.role@);
        }
        if action.spec_allowed_roles().contains(auth_user.role@) {
            let i = choose|i: int| 0 <= i < action.spec_allowed_roles().len()
                && action.spec_allowed_roles()[i] == auth_user.role@;
            assert((roles@[i])@ == auth_user.role@);
        }
    }
    r
}

/// Students may see only their own records; every other role may see any.
pub fn must_prove_ownership(auth_user: &AuthUser) -> (r: bool)
    ensures
        r == (auth_user.role@ == "STUDENT"@),
{
    same_text(auth_user.role.as_str(), "STUDENT")
}

/// The verdict on a student's request for a student record, given whether the record is
/// the student's own (no answer counts as no): refused with `Forbidden("Access denied")`
/// unless it is.
pub fn ownership_verdict(is_own: Option<bool>) -> (r: Result<(), AppError>)
    ensures
        r is Ok <==> is_own == Some(true),
        r matches Err(e) ==> is_forbidden(e, "Access denied"@),
{
    match is_own {
        Some(true) => Ok(()),
        _ => Err(AppError::Forbidden(owned("Access denied"))),
    }
}

/// No staff action admits the student role.
pub proof fn law_students_take_no_staff_action(action: StaffAction)
    ensures
        !action.spec_allowed_roles().contains("STUDENT"@),
{
    reveal_strlit("STUDENT");
    reveal_strlit("ADMIN");
    reveal_strlit("DEPT_HEAD");
    reveal_strlit("FACULTY");
    assert("STUDENT"@[0] != "FACULTY"@[0]);
    assert("STUDENT"@ != "FACULTY"@);
    assert("STUDENT"@ != "ADMIN"@);
    assert("STUDENT"@ != "DEPT_HEAD"@);
    let roles = action.spec_allowed_roles();
    assert forall|i: int| 0 <= i < roles.len() implies roles[i] != "STUDENT"@ by {}
}

/// The administrator role may take every staff action.
pub proof fn law_admins_take_every_staff_action(action: StaffAction)
    ensures
        action.spec_allowed_roles().contains("ADMIN"@),
{
    let roles = action.spec_allowed_roles();
    match action {
        StaffAction::ListStudents => assert(roles[0] == "ADMIN"@),
        StaffAction::DeleteStudent => assert(roles[0] == "ADMIN"@),
        StaffAction::CreateCourse => assert(roles[0] == "ADMIN"@),
        StaffAction::MarkAttendance => assert(roles[1] == "ADMIN"@),
        StaffAction::UploadResults => assert(roles[1] == "ADMIN"@),
        StaffAction::PublishResults => assert(roles[0] == "ADMIN"@),
    }
}

} // verus!
