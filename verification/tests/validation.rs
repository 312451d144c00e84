use ocms::error::AppError;
use ocms::validation::{
    validation_failure, CreateCourseRequest, CreateStudentRequest, LoginRequest, RegisterRequest,
    Violation,
};

fn login(email: &str, password: &str) -> LoginRequest {
    LoginRequest { email: email.to_string(), password: password.to_string() }
}

fn course(code: &str, name: &str, credits: i32, max_capacity: Option<i32>) -> CreateCourseRequest {
    CreateCourseRequest {
        code: code.to_string(),
        name: name.to_string(),
        description: None,
        credits,
        max_capacity,
        department_id: "d".to_string(),
        faculty_id: None,
        semester_id: None,
    }
}

#[test]
fn good_login_passes() {
    assert_eq!(login("alice@example.com", "hunter22").validate(), Ok(()));
}

#[test]
fn login_rules() {
    assert_eq!(login("not-an-email", "hunter22").validate(), Err(vec![Violation::EmailFormat]));
    assert_eq!(login("alice@example.com", "short").validate(), Err(vec![Violation::PasswordLength]));
    assert_eq!(
        login("", "1234567").validate(),
        Err(vec![Violation::EmailFormat, Violation::PasswordLength])
    );
}

#[test]
fn password_length_counts_characters() {
    // eight characters, sixteen bytes
    assert_eq!(login("a@b.co", "éééééééé").validate(), Ok(()));
    assert_eq!(login("a@b.co", "ééééééé").validate(), Err(vec![Violation::PasswordLength]));
}

#[test]
fn register_rules() {
    let ok = RegisterRequest {
        email: "bob@example.org".to_string(),
        password: "a".repeat(128),
        first_name: "B".to_string(),
        last_name: "x".repeat(100),
        role: "STUDENT".to_string(),
        institution_id: "i".to_string(),
    };
    assert_eq!(ok.validate(), Ok(()));
    let bad = RegisterRequest {
        password: "a".repeat(129),
        first_name: String::new(),
        last_name: "x".repeat(101),
        ..ok
    };
    assert_eq!(
        bad.validate(),
        Err(vec![Violation::PasswordLength, Violation::FirstNameLength, Violation::LastNameLength])
    );
}

#[test]
fn create_student_rules() {
    let ok = CreateStudentRequest {
        email: "s@uni.edu".to_string(),
        password: "a".repeat(500),
        first_name: "S".to_string(),
        last_name: "T".to_string(),
        department_id: "d".to_string(),
        enrollment_year: 2024,
    };
    assert_eq!(ok.validate(), Ok(()));
    let bad = CreateStudentRequest { email: "s@".to_string(), first_name: String::new(), ..ok };
    assert_eq!(bad.validate(), Err(vec![Violation::EmailFormat, Violation::FirstNameLength]));
}

#[test]
fn course_rules() {
    assert_eq!(course("CS", "Algorithms", 4, None).validate(), Ok(()));
    assert_eq!(course("C", "Algorithms", 4, None).validate(), Err(vec![Violation::CodeLength]));
    assert_eq!(course("CS101", "AI", 4, None).validate(), Err(vec![Violation::NameLength]));
    assert_eq!(course("CS101", "Algorithms", 0, None).validate(), Err(vec![Violation::CreditsRange]));
    assert_eq!(course("CS101", "Algorithms", 13, None).validate(), Err(vec![Violation::CreditsRange]));
    assert_eq!(course("CS101", "Algorithms", 12, None).validate(), Ok(()));
    assert_eq!(
        course(&"C".repeat(21), &"N".repeat(201), -1, None).validate(),
        Err(vec![Violation::CodeLength, Violation::NameLength, Violation::CreditsRange])
    );
}

#[test]
fn course_capacity_defaults_to_sixty() {
    assert_eq!(course("CS", "Algorithms", 4, None).capacity(), 60);
    assert_eq!(course("CS", "Algorithms", 4, Some(25)).capacity(), 25);
}

#[test]
fn failure_report_lists_each_rule() {
    assert_eq!(
        validation_failure(&vec![Violation::EmailFormat, Violation::PasswordLength]),
        AppError::Validation(
            "email: not a valid e-mail address\npassword: length out of range".to_string()
        )
    );
    assert_eq!(
        validation_failure(&vec![Violation::CreditsRange]),
        AppError::Validation("credits: value out of range".to_string())
    );
    assert_eq!(validation_failure(&vec![]), AppError::Validation(String::new()));
}
