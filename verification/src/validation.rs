use vstd::prelude::*;
use vstd::string::{StrSliceExecFns, StringExecFns};

use crate::error::AppError;

verus! {

/// Whether the `validator` crate accepts `text` as an e-mail address (its HTML5 address
/// rules, with the local part at most 64 and the domain at most 255 characters).
pub uninterp spec fn email_accepted(text: Seq<char>) -> bool;

/// Calls `validator::ValidateEmail::validate_email` on `text`. The result is named
/// `email_accepted`; of it, the contract states only what the crate's first test shows:
/// an empty text, or one without `@`, is refused.
#[verifier::external_body]
fn email_is_valid(text: &str) -> (r: bool)
    ensures
        r == email_accepted(text@),
        (text@.len() == 0 || !text@.contains('@')) ==> !r,
{
    validator::ValidateEmail::validate_email(&text)
}

/// The text has between `min` and (when given) `max` characters, both included.
fn length_is_within(text: &str, min: u64, max: Option<u64>) -> (r: bool)
    ensures
        r == (min <= text@.len() && (max matches Some(m) ==> text@.len() <= m)),
{
    let n = text.unicode_len() as u64;
    min <= n && match max {
        Some(m) => n <= m,
        None => true,
    }
}

/// `value` lies between `min` and `max`, both included.
fn range_is_within(value: i32, min: i32, max: i32) -> (r: bool)
    ensures
        r == (min <= value <= max),
{
    min <= value && value <= max
}

/// A rule of a request form that the submitted form breaks.
#[derive(Debug, Clone, Copy, PartialEq, Eq)]
pub enum Violation {
    EmailFormat,
    PasswordLength,
    FirstNameLength,
    LastNameLength,
    CodeLength,
    NameLength,
    CreditsRange,
}

impl Violation {
    /// The text that reports this violation: the field, then the rule.
    pub open spec fn spec_text(self) -> Seq<char> {
        match self {
            Violation::EmailFormat => "email: not a valid e-mail address"@,
            Violation::PasswordLength => "password: length out of range"@,
            Violation::FirstNameLength => "first_name: length out of range"@,
            Violation::LastNameLength => "last_name: length out of range"@,
            Violation::CodeLength => "code: length out of range"@,
            Violation::NameLength => "name: length out of range"@,
            Violation::CreditsRange => "credits: value out of range"@,
        }
    }

    /// The text that reports this violation.
    pub fn text(&self) -> (r: &'static str)
        ensures
            r@ == self.spec_text(),
    {
        match self {
            Violation::EmailFormat => "email: not a valid e-mail address",
            Violation::PasswordLength => "password: length out of range",
            Violation::FirstNameLength => "first_name: length out of range",
            Violation::LastNameLength => "last_name: length out of range",
            Violation::CodeLength => "code: length out of range",
            Violation::NameLength => "name: length out of range",
            Violation::CreditsRange => "credits: value out of range",
        }
    }
}

/// `v` alone when `broken`, else nothing.
pub open spec fn flag(broken: bool, v: Violation) -> Seq<Violation> {
    if broken {
        seq![v]
    } else {
        seq![]
    }
}

/// The reports of `vs`, one per line.
pub open spec fn report(vs: Seq<Violation>) -> Seq<char>
    decreases vs.len(),
{
    if vs.len() == 0 {
        seq![]
    } else if vs.len() == 1 {
        vs[0].spec_text()
    } else {
        report(vs.drop_last()) + "\n"@ + vs.last().spec_text()
    }
}

/// The refusal of a form that breaks the rules `vs`: `Validation` with one line per
/// broken rule.
pub fn validation_failure(vs: &Vec<Violation>) -> (r: AppError)
    ensures
        r matches AppError::Validation(m) && m@ == report(vs@),
{
    let mut msg = String::new();
    let mut i: usize = 0;
    while i < vs.len()
        invariant
            i <= vs@.len(),
            msg@ == report(vs@.take(i as int)),
        decreases vs@.len() - i,
    {
        proof {
            assert(vs@.take(i + 1).drop_last() =~= vs@.take(i as int));
        }
        if i > 0 {
            msg.append("\n");
        }
        msg.append(vs[i].text());
        proof {
            if i == 0 {
                assert(msg@ =~= report(vs@.take(1)));
            } else {
                assert(msg@ =~= report(vs@.take(i + 1)));
            }
        }
        i = i + 1;
    }
    proof {
        assert(vs@.take(vs@.len() as int) =~= vs@);
    }
    AppError::Validation(msg)
}

/// `Ok` when `vs` is empty, else `Err` with `vs`.
fn verdict(vs: Vec<Violation>) -> (r: Result<(), Vec<Violation>>)
    ensures
        (r is Ok) == (vs@.len() == 0),
        r matches Err(found) ==> found@ == vs@,
{
    if vs.len() == 0 {
        Ok(())
    } else {
        Err(vs)
    }
}

/// The sign-in form.
#[derive(Debug, Clone, PartialEq, Eq)]
pub struct LoginRequest {
    pub email: String,
    pub password: String,
}

impl LoginRequest {
    /// The rules the form breaks, in field order: the e-mail must be an address, the
    /// password at least 8 characters long.
    pub open spec fn spec_violations(self) -> Seq<Violation> {
        flag(!email_accepted(self.email@), Violation::EmailFormat) + flag(
            self.password@.len() < 8,
            Violation::PasswordLength,
        )
    }

    /// Checks the form against its rules.
    pub fn validate(&self) -> (r: Result<(), Vec<Violation>>)
        ensures
            (r is Ok) == (self.spec_violations().len() == 0),
            r matches Err(vs) ==> vs@ == self.spec_violations(),
            (r is Ok) <==> (email_accepted(self.email@) && self.password@.len() >= 8),
    {
        let mut vs: Vec<Violation> = Vec::new();
        if !email_is_valid(self.email.as_str()) {
            vs.push(Violation::EmailFormat);
        }
        if !length_is_within(self.password.as_str(), 8, None) {
            vs.push(Violation::PasswordLength);
        }
        assert(vs@ =~= self.spec_violations());
        proof {
            law_login_form_rules(*self);
        }
        verdict(vs)
    }
}

/// The form that opens an account.
#[derive(Debug, Clone, PartialEq, Eq)]
pub struct RegisterRequest {
    pub email: String,
    pub password: String,
    pub first_name: String,
    pub last_name: String,
    pub role: String,
    pub institution_id: String,
}

impl RegisterRequest {
    /// The rules the form breaks, in field order: an e-mail address, a password of 8 to
    /// 128 characters, first and last names of 1 to 100 characters.
    pub open spec fn spec_violations(self) -> Seq<Violation> {
        flag(!email_accepted(self.email@), Violation::EmailFormat) + flag(
            !(8 <= self.password@.len() <= 128),
            Violation::PasswordLength,
        ) + flag(!(1 <= self.first_name@.len() <= 100), Violation::FirstNameLength) + flag(
            !(1 <= self.last_name@.len() <= 100),
            Violation::LastNameLength,
        )
    }

    /// Checks the form against its rules.
    pub fn validate(&self) -> (r: Result<(), Vec<Violation>>)
        ensures
            (r is Ok) == (self.spec_violations().len() == 0),
            r matches Err(vs) ==> vs@ == self.spec_violations(),
    {
        let mut vs: Vec<Violation> = Vec::new();
        if !email_is_valid(self.email.as_str()) {
            vs.push(Violation::EmailFormat);
        }
        if !length_is_within(self.password.as_str(), 8, Some(128)) {
            vs.push(Violation::PasswordLength);
        }
        if !length_is_within(self.first_name.as_str(), 1, Some(100)) {
            vs.push(Violation::FirstNameLength);
        }
        if !length_is_within(self.last_name.as_str(), 1, Some(100)) {
            vs.push(Violation::LastNameLength);
        }
        assert(vs@ =~= self.spec_violations());
        verdict(vs)
    }
}

/// The form that adds a student.
#[derive(Debug, Clone, PartialEq, Eq)]
pub struct CreateStudentRequest {
    pub email: String,
    pub password: String,
    pub first_name: String,
    pub last_name: String,
    pub department_id: String,
    pub enrollment_year: i32,
}

impl CreateStudentRequest {
    /// The rules the form breaks, in field order: an e-mail address, a password of at
    /// least 8 characters, first and last names of 1 to 100 characters.
    pub open spec fn spec_violations(self) -> Seq<Violation> {
        flag(!email_accepted(self.email@), Violation::EmailFormat) + flag(
            self.password@.len() < 8,
            Violation::PasswordLength,
        ) + flag(!(1 <= self.first_name@.len() <= 100), Violation::FirstNameLength) + flag(
            !(1 <= self.last_name@.len() <= 100),
            Violation::LastNameLength,
        )
    }

    /// Checks the form against its rules.
    pub fn validate(&self) -> (r: Result<(), Vec<Violation>>)
        ensures
            (r is Ok) == (self.spec_violations().len() == 0),
            r matches Err(vs) ==> vs@ == self.spec_violations(),
    {
        let mut vs: Vec<Violation> = Vec::new();
        if !email_is_valid(self.email.as_str()) {
            vs.push(Violation::EmailFormat);
        }
        if !length_is_within(self.password.as_str(), 8, None) {
            vs.push(Violation::PasswordLength);
        }
        if !length_is_within(self.first_name.as_str(), 1, Some(100)) {
            vs.push(Violation::FirstNameLength);
        }
        if !length_is_within(self.last_name.as_str(), 1, Some(100)) {
            vs.push(Violation::LastNameLength);
        }
        assert(vs@ =~= self.spec_violations());
        verdict(vs)
    }
}

/// The changes a student's record may receive; the form has no rules.
#[derive(Debug, Clone, PartialEq, Eq)]
pub struct UpdateStudentRequest {
    pub first_name: Option<String>,
    pub last_name: Option<String>,
    pub phone: Option<String>,
    pub address: Option<String>,
    pub current_semester: Option<i32>,
    pub is_active: Option<bool>,
}

/// The form that creates a course.
#[derive(Debug, Clone, PartialEq, Eq)]
pub struct CreateCourseRequest {
    pub code: String,
    pub name: String,
    pub description: Option<String>,
    pub credits: i32,
    pub max_capacity: Option<i32>,
    pub department_id: String,
    pub faculty_id: Option<String>,
    pub semester_id: Option<String>,
}

impl CreateCourseRequest {
    /// The rules the form breaks, in field order: a code of 2 to 20 characters, a name of
    /// 3 to 200 characters, 1 to 12 credits.
    pub open spec fn spec_violations(self) -> Seq<Violation> {
        flag(!(2 <= self.code@.len() <= 20), Violation::CodeLength) + flag(
            !(3 <= self.name@.len() <= 200),
            Violation::NameLength,
        ) + flag(!(1 <= self.credits <= 12), Violation::CreditsRange)
    }

    /// Checks the form against its rules.
    pub fn validate(&self) -> (r: Result<(), Vec<Violation>>)
        ensures
            (r is Ok) == (self.spec_violations().len() == 0),
            r matches Err(vs) ==> vs@ == self.spec_violations(),
            (r is Ok) <==> (2 <= self.code@.len() <= 20 && 3 <= self.name@.len() <= 200 && 1
                <= self.credits <= 12),
    {
        let mut vs: Vec<Violation> = Vec::new();
        if !length_is_within(self.code.as_str(), 2, Some(20)) {
            vs.push(Violation::CodeLength);
        }
        if !length_is_within(self.name.as_str(), 3, Some(200)) {
            vs.push(Violation::NameLength);
        }
        if !range_is_within(self.credits, 1, 12) {
            vs.push(Violation::CreditsRange);
        }
        assert(vs@ =~= self.spec_violations());
        proof {
            law_course_form_rules(*self);
        }
        verdict(vs)
    }

    /// The seat count a new course gets: the one asked for, else 60.
    pub fn capacity(&self) -> (r: i32)
        ensures
            r == (match self.max_capacity { Some(c) => c, None => 60 }),
    {
        match self.max_capacity {
            Some(c) => c,
            None => 60,
        }
    }
}

/// The sign-in form breaks exactly these rules: the e-mail rule when the address is not
/// one, the password rule when the password has fewer than 8 characters (there is no
/// upper limit); so it passes exactly when the address is accepted and the password has at
/// least 8 characters.
pub proof fn law_login_form_rules(request: LoginRequest)
    ensures
        request.spec_violations().contains(Violation::EmailFormat) <==> !email_accepted(
            request.email@,
        ),
        request.spec_violations().contains(Violation::PasswordLength) <==> request.password@.len()
            < 8,
        request.spec_violations().len() == 0 <==> (email_accepted(request.email@)
            && request.password@.len() >= 8),
        forall|v: Violation|
            #![trigger request.spec_violations().contains(v)]
            request.spec_violations().contains(v) ==> (v == Violation::EmailFormat || v
                == Violation::PasswordLength),
{
    let a = flag(!email_accepted(request.email@), Violation::EmailFormat);
    let b = flag(request.password@.len() < 8, Violation::PasswordLength);
    lemma_flag_contains(!email_accepted(request.email@), Violation::EmailFormat);
    lemma_flag_contains(request.password@.len() < 8, Violation::PasswordLength);
    lemma_concat_contains(a, b);
    assert(request.spec_violations() == a + b);
    assert((a + b).contains(Violation::EmailFormat) <==> (a.contains(Violation::EmailFormat)
        || b.contains(Violation::EmailFormat)));
    assert((a + b).contains(Violation::PasswordLength) <==> (a.contains(Violation::PasswordLength)
        || b.contains(Violation::PasswordLength)));
    assert(a.contains(Violation::EmailFormat) <==> !email_accepted(request.email@));
    assert(b.contains(Violation::EmailFormat) <==> false);
    assert(a.contains(Violation::PasswordLength) <==> false);
    assert(b.contains(Violation::PasswordLength) <==> request.password@.len() < 8);
}

/// The course form breaks exactly these rules: the code rule when the code has fewer than 2
/// or more than 20 characters, the name rule when the name has fewer than 3 or more than
/// 200, the credits rule when the credits are below 1 or above 12; so it passes exactly
/// when all three lie in those bounds.
pub proof fn law_course_form_rules(request: CreateCourseRequest)
    ensures
        request.spec_violations().contains(Violation::CodeLength) <==> (request.code@.len() < 2
            || request.code@.len() > 20),
        request.spec_violations().contains(Violation::NameLength) <==> (request.name@.len() < 3
            || request.name@.len() > 200),
        request.spec_violations().contains(Violation::CreditsRange) <==> (request.credits < 1
            || request.credits > 12),
        request.spec_violations().len() == 0 <==> (2 <= request.code@.len() <= 20 && 3
            <= request.name@.len() <= 200 && 1 <= request.credits <= 12),
{
    let a = flag(!(2 <= request.code@.len() <= 20), Violation::CodeLength);
    let b = flag(!(3 <= request.name@.len() <= 200), Violation::NameLength);
    let c = flag(!(1 <= request.credits <= 12), Violation::CreditsRange);
    lemma_flag_contains(!(2 <= request.code@.len() <= 20), Violation::CodeLength);
    lemma_flag_contains(!(3 <= request.name@.len() <= 200), Violation::NameLength);
    lemma_flag_contains(!(1 <= request.credits <= 12), Violation::CreditsRange);
    lemma_concat_contains(a, b);
    lemma_concat_contains(a + b, c);
    let vs = request.spec_violations();
    assert(vs == a + b + c);
    let ab = a + b;
    assert forall|x: Violation| vs.contains(x) <==> (a.contains(x) || b.contains(x) || c.contains(x)) by {
        assert(vs.contains(x) <==> (ab.contains(x) || c.contains(x)));
        assert(ab.contains(x) <==> (a.contains(x) || b.contains(x)));
    }
    assert(vs.contains(Violation::CodeLength) <==> a.contains(Violation::CodeLength));
    assert(b.contains(Violation::CodeLength) <==> false);
    assert(c.contains(Violation::CodeLength) <==> false);
    assert(a.contains(Violation::NameLength) <==> false);
    assert(c.contains(Violation::NameLength) <==> false);
    assert(a.contains(Violation::CreditsRange) <==> false);
    assert(b.contains(Violation::CreditsRange) <==> false);
}

/// `flag(broken, v)` holds `v` alone when `broken`, and nothing otherwise.
proof fn lemma_flag_contains(broken: bool, v: Violation)
    ensures
        forall|x: Violation| flag(broken, v).contains(x) <==> (broken && x == v),
        flag(broken, v).len() == (if broken { 1int } else { 0int }),
{
    if broken {
        assert(flag(broken, v)[0] == v);
    }
}

/// What two joined lists hold is what either holds.
proof fn lemma_concat_contains(a: Seq<Violation>, b: Seq<Violation>)
    ensures
        forall|x: Violation| (a + b).contains(x) <==> (a.contains(x) || b.contains(x)),
{
    assert forall|x: Violation| (a + b).contains(x) <==> (a.contains(x) || b.contains(x)) by {
        if (a + b).contains(x) {
            let i = choose|i: int| 0 <= i < (a + b).len() && (a + b)[i] == x;
            if i < a.len() {
                assert(a[i] == x);
            } else {
                assert(b[i - a.len()] == x);
            }
        }
        if a.contains(x) {
            let i = choose|i: int| 0 <= i < a.len() && a[i] == x;
            assert((a + b)[i] == x);
        }
        if b.contains(x) {
            let i = choose|i: int| 0 <= i < b.len() && b[i] == x;
            assert((a + b)[a.len() + i] == x);
        }
    }
}

} // verus!
