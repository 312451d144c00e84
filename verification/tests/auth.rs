use argon2::password_hash::{PasswordHasher, SaltString};
use ocms::access::AuthUser;
use ocms::auth::{
    access_claims, auth_response, claims_at, authenticated_user, bearer_token, create_access_claims,
    check_password, own_profile, sign_in, sign_in_account, Claims, JwtConfig, UserInfo, UserRecord,
};
use ocms::error::AppError;

fn unauthorized(m: &str) -> AppError {
    AppError::Unauthorized(m.to_string())
}

fn record(active: bool) -> UserRecord {
    UserRecord {
        id: "u1".to_string(),
        email: "ada@example.com".to_string(),
        password_hash: "hash".to_string(),
        role: "ADMIN".to_string(),
        first_name: "Ada".to_string(),
        last_name: "Lovelace".to_string(),
        institution_id: "inst".to_string(),
        avatar_url: None,
        is_active: active,
    }
}

fn config(minutes: i64) -> JwtConfig {
    JwtConfig { secret: "s".to_string(), access_token_expiry_minutes: minutes, refresh_token_expiry_days: 7 }
}

#[test]
fn settings_default_when_unset() {
    let c = JwtConfig::from_settings("k".to_string(), None, None);
    assert_eq!(c.secret, "k");
    assert_eq!(c.access_token_expiry_minutes, 15);
    assert_eq!(c.refresh_token_expiry_days, 7);
}

#[test]
fn settings_read_numbers() {
    let c = JwtConfig::from_settings("k".to_string(), Some("30".to_string()), Some("-2".to_string()));
    assert_eq!(c.access_token_expiry_minutes, 30);
    assert_eq!(c.refresh_token_expiry_days, -2);
}

#[test]
fn settings_read_signed_and_bounded_numbers() {
    let read = |t: &str| JwtConfig::from_settings(String::new(), Some(t.to_string()), None).access_token_expiry_minutes;
    assert_eq!(read("+45"), 45);
    assert_eq!(read("-0"), 0);
    assert_eq!(read("007"), 7);
    assert_eq!(read("9223372036854775807"), i64::MAX);
    assert_eq!(read("-9223372036854775808"), i64::MIN);
    assert_eq!(read("9223372036854775808"), 15);
    assert_eq!(read("+"), 15);
    assert_eq!(read("-"), 15);
    assert_eq!(read("1_000"), 15);
    assert_eq!(read("١٢"), 15);
}

#[test]
fn settings_default_when_not_a_number() {
    let c = JwtConfig::from_settings("k".to_string(), Some("soon".to_string()), Some("".to_string()));
    assert_eq!(c.access_token_expiry_minutes, 15);
    assert_eq!(c.refresh_token_expiry_days, 7);
    let c = JwtConfig::from_settings("k".to_string(), Some(" 30".to_string()), None);
    assert_eq!(c.access_token_expiry_minutes, 15);
}

#[test]
fn claims_expire_after_configured_minutes() {
    let c = access_claims("u1", "a@b.c", "ADMIN", "inst", 15, 1_700_000_000, "jti-1".to_string()).unwrap();
    assert_eq!(c.sub, "u1");
    assert_eq!(c.email, "a@b.c");
    assert_eq!(c.role, "ADMIN");
    assert_eq!(c.institution_id, "inst");
    assert_eq!(c.jti, "jti-1");
    assert_eq!(c.iat, 1_700_000_000);
    assert_eq!(c.exp, 1_700_000_900);
}

#[test]
fn claims_with_negative_lifetime() {
    let c = access_claims("u", "e", "r", "i", -1, 1000, String::new()).unwrap();
    assert_eq!(c.exp, 940);
}

#[test]
fn claims_beyond_chrono_range() {
    assert!(access_claims("u", "e", "r", "i", i64::MAX / 60, 0, String::new()).is_none());
    assert!(access_claims("u", "e", "r", "i", i64::MAX, 0, String::new()).is_none());
}

const CHRONO_MAX: i64 = 8_210_266_876_799;
const CHRONO_MIN: i64 = -8_334_601_228_800;

#[test]
fn claims_at_the_edges_of_chrono_range() {
    let exp = |now: i64, m: i64| access_claims("u", "e", "r", "i", m, now, String::new()).map(|c| c.exp);
    assert_eq!(exp(CHRONO_MAX, 0), Some(CHRONO_MAX));
    assert_eq!(exp(CHRONO_MAX + 1, 0), None);
    assert_eq!(exp(CHRONO_MAX - 60, 1), Some(CHRONO_MAX));
    assert_eq!(exp(CHRONO_MAX - 59, 1), None);
    assert_eq!(exp(CHRONO_MIN, 0), Some(CHRONO_MIN));
    assert_eq!(exp(CHRONO_MIN - 1, 0), None);
    assert_eq!(exp(CHRONO_MIN + 60, -1), Some(CHRONO_MIN));
    assert_eq!(exp(CHRONO_MIN + 59, -1), None);
    assert_eq!(exp(CHRONO_MIN, 1), Some(CHRONO_MIN + 60));
}

fn is_uuid_v4_text(s: &str) -> bool {
    let b = s.as_bytes();
    b.len() == 36
        && b.iter().enumerate().all(|(i, c)| {
            if [8, 13, 18, 23].contains(&i) { *c == b'-' } else { c.is_ascii_digit() || (b'a'..=b'f').contains(c) }
        })
        && b[14] == b'4'
        && [b'8', b'9', b'a', b'b'].contains(&b[19])
}

#[test]
fn issued_claims_now() {
    let c = create_access_claims("u1", "a@b.c", "FACULTY", "inst", &config(15)).unwrap();
    assert_eq!(c.exp - c.iat, 900);
    assert!(is_uuid_v4_text(&c.jti), "{}", c.jti);
    assert!(c.iat > 1_600_000_000 && c.iat <= 8_210_266_876_799);
    assert_eq!(c.role, "FACULTY");
    let other = create_access_claims("u1", "a@b.c", "FACULTY", "inst", &config(15)).unwrap();
    assert_ne!(c.jti, other.jti);
}

#[test]
fn claims_at_clock_reading() {
    let c = claims_at(Some(1_700_000_000), "j".to_string(), "u1", "a@b.c", "ADMIN", "inst", &config(15)).unwrap();
    assert_eq!((c.sub.as_str(), c.jti.as_str(), c.iat, c.exp), ("u1", "j", 1_700_000_000, 1_700_000_900));
    let clock = Err(AppError::Internal("System clock out of range".to_string()));
    assert_eq!(claims_at(None, "j".to_string(), "u", "e", "r", "i", &config(15)), clock);
    assert_eq!(claims_at(Some(8_210_266_876_800), "j".to_string(), "u", "e", "r", "i", &config(0)), clock);
    assert_eq!(
        claims_at(Some(8_210_266_876_799), "j".to_string(), "u", "e", "r", "i", &config(0)).map(|c| c.exp),
        Ok(8_210_266_876_799)
    );
    assert_eq!(
        claims_at(Some(8_210_266_876_799), "j".to_string(), "u", "e", "r", "i", &config(1)),
        Err(AppError::Internal("Token expiry out of range".to_string()))
    );
}

#[test]
fn issuing_with_non_positive_lifetime_succeeds() {
    let c = create_access_claims("u", "e", "r", "i", &config(0)).unwrap();
    assert_eq!(c.exp, c.iat);
    let c = create_access_claims("u", "e", "r", "i", &config(-60)).unwrap();
    assert_eq!(c.exp, c.iat - 3600);
}

#[test]
fn issuing_with_absurd_lifetime_fails() {
    assert_eq!(
        create_access_claims("u", "e", "r", "i", &config(i64::MAX)),
        Err(AppError::Internal("Token expiry out of range".to_string()))
    );
}

#[test]
fn bearer_header_gives_token() {
    assert_eq!(bearer_token(Some("Bearer abc.def.ghi")), Ok("abc.def.ghi".to_string()));
    assert_eq!(bearer_token(Some("Bearer ")), Ok(String::new()));
}

#[test]
fn bearer_header_roundtrip() {
    for t in ["x", "a.b.c", "Bearer y", "é"] {
        let header = format!("Bearer {t}");
        assert_eq!(bearer_token(Some(&header)), Ok(t.to_string()));
    }
}

#[test]
fn missing_header_is_unauthorized() {
    assert_eq!(bearer_token(None), Err(unauthorized("Missing authorization header")));
}

#[test]
fn other_schemes_are_refused() {
    for h in ["Basic abc", "bearer abc", "Bearer", "", "Token Bearer x"] {
        assert_eq!(bearer_token(Some(h)), Err(unauthorized("Invalid authorization format")), "{h}");
    }
}

#[test]
fn verified_claims_name_the_caller() {
    let c = Claims {
        sub: "u9".to_string(),
        email: "e@x.y".to_string(),
        role: "STUDENT".to_string(),
        institution_id: "i".to_string(),
        jti: "j".to_string(),
        exp: 2,
        iat: 1,
    };
    assert_eq!(
        authenticated_user(Some(c)),
        Ok(AuthUser {
            id: "u9".to_string(),
            email: "e@x.y".to_string(),
            role: "STUDENT".to_string(),
            institution_id: "i".to_string()
        })
    );
}

#[test]
fn issued_claims_come_back_as_their_holder() {
    let c = access_claims("u1", "a@b.c", "ADMIN", "inst", 15, 0, "j".to_string()).unwrap();
    let u = authenticated_user(Some(c)).unwrap();
    assert_eq!((u.id.as_str(), u.email.as_str(), u.role.as_str(), u.institution_id.as_str()), ("u1", "a@b.c", "ADMIN", "inst"));
}

#[test]
fn unverified_token_is_refused() {
    assert_eq!(authenticated_user(None), Err(unauthorized("Invalid or expired token")));
}

#[test]
fn sign_in_account_checks() {
    assert_eq!(sign_in_account(None), Err(unauthorized("Invalid email or password")));
    assert_eq!(sign_in_account(Some(record(false))), Err(unauthorized("Account is deactivated")));
    assert_eq!(sign_in_account(Some(record(true))), Ok(record(true)));
}

fn argon2_hash(password: &str) -> String {
    let salt = SaltString::from_b64("c29tZXNhbHRzb21lc2FsdA").unwrap();
    argon2::Argon2::default().hash_password(password.as_bytes(), &salt).unwrap().to_string()
}

fn with_hash(hash: String) -> UserRecord {
    UserRecord { password_hash: hash, ..record(true) }
}

#[test]
fn right_password_passes() {
    assert_eq!(check_password("correct horse", &with_hash(argon2_hash("correct horse"))), Ok(()));
}

#[test]
fn wrong_password_is_refused() {
    assert_eq!(
        check_password("Correct horse", &with_hash(argon2_hash("correct horse"))),
        Err(unauthorized("Invalid email or password"))
    );
}

#[test]
fn sign_in_checks_account_then_password() {
    let hash = argon2_hash("pw-12345");
    let account = |active: bool| UserRecord { password_hash: hash.clone(), ..record(active) };
    assert_eq!(sign_in(None, "pw-12345"), Err(unauthorized("Invalid email or password")));
    assert_eq!(sign_in(Some(account(false)), "pw-12345"), Err(unauthorized("Account is deactivated")));
    assert_eq!(sign_in(Some(account(false)), "wrong"), Err(unauthorized("Account is deactivated")));
    assert_eq!(sign_in(Some(account(true)), "wrong"), Err(unauthorized("Invalid email or password")));
    assert_eq!(sign_in(Some(account(true)), "pw-12345"), Ok(account(true)));
}

#[test]
fn unreadable_hash_fails_internally() {
    assert_eq!(
        check_password("correct horse", &with_hash("correct horse".to_string())),
        Err(AppError::Internal("Password verification failed".to_string()))
    );
}

#[test]
fn sign_in_answer() {
    let r = auth_response("tok".to_string(), record(true));
    assert_eq!(r.access_token, "tok");
    assert_eq!(r.token_type, "Bearer");
    assert_eq!(r.user.id, "u1");
    assert_eq!(r.user.first_name, "Ada");
    assert_eq!(r.user.avatar_url, None);
}

#[test]
fn own_profile_lookup() {
    assert_eq!(own_profile(None), Err(AppError::NotFound("User not found".to_string())));
    let info: UserInfo = record(true).info();
    assert_eq!(own_profile(Some(info.clone())), Ok(info));
}
