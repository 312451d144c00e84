use argon2::PasswordVerifier;
use vstd::prelude::*;

use crate::access::AuthUser;
use crate::error::{AppError, is_internal, is_not_found, is_unauthorized};
use crate::text::{owned, strip_prefix};

verus! {

/// What an access token asserts: who the caller is, and when the token was issued and
/// expires (seconds since the Unix epoch).
#[derive(Debug, Clone, PartialEq, Eq)]
pub struct Claims {
    pub sub: String,
    pub email: String,
    pub role: String,
    pub institution_id: String,
    pub jti: String,
    pub exp: i64,
    pub iat: i64,
}

/// How tokens are signed and how long they live.
#[derive(Debug, Clone, PartialEq, Eq)]
pub struct JwtConfig {
    pub secret: String,
    pub access_token_expiry_minutes: i64,
    pub refresh_token_expiry_days: i64,
}

/// `c` is an ASCII decimal digit.
pub open spec fn is_digit(c: char) -> bool {
    48 <= (c as int) <= 57
}

/// `s` is one or more ASCII decimal digits.
pub open spec fn all_digits(s: Seq<char>) -> bool {
    s.len() > 0 && forall|i: int| 0 <= i < s.len() ==> is_digit(#[trigger] s[i])
}

/// The number that the digits of `s` spell in base ten.
pub open spec fn digits_value(s: Seq<char>) -> int
    decreases s.len(),
{
    if s.len() == 0 {
        0
    } else {
        digits_value(s.drop_last()) * 10 + ((s.last() as int) - 48)
    }
}

/// The number a text spells in base ten: an optional `+` or `-`, then one or more ASCII
/// digits and nothing else.
pub open spec fn decimal_value(s: Seq<char>) -> Option<int> {
    if all_digits(s) {
        Some(digits_value(s))
    } else if s.len() > 1 && s[0] == '+' && all_digits(s.drop_first()) {
        Some(digits_value(s.drop_first()))
    } else if s.len() > 1 && s[0] == '-' && all_digits(s.drop_first()) {
        Some(-digits_value(s.drop_first()))
    } else {
        None
    }
}

/// The `i64` that `text` spells, when it spells one that fits.
pub open spec fn decimal_i64(text: Seq<char>) -> Option<i64> {
    match decimal_value(text) {
        Some(v) => if i64::MIN <= v <= i64::MAX {
            Some(v as i64)
        } else {
            None
        },
        None => None,
    }
}

/// Calls `str::parse::<i64>`: std reads an optional `+` or `-` and then ASCII digits only,
/// and refuses an empty text, a lone sign, any other character, and a value outside `i64`.
#[verifier::external_body]
fn parse_decimal(text: &str) -> (r: Option<i64>)
    ensures
        r == decimal_i64(text@),
{
    text.parse::<i64>().ok()
}

/// The setting read from an optional text: its number when it has one, else `fallback`.
pub open spec fn setting_or(text: Option<Seq<char>>, fallback: i64) -> i64 {
    match text {
        Some(t) => match decimal_i64(t) {
            Some(v) => v,
            None => fallback,
        },
        None => fallback,
    }
}

/// The view of an optional text.
pub open spec fn text_view(text: Option<String>) -> Option<Seq<char>> {
    match text {
        Some(t) => Some(t@),
        None => None,
    }
}

fn number_or(text: Option<String>, fallback: i64) -> (r: i64)
    ensures
        r == setting_or(text_view(text), fallback),
{
    match text {
        Some(t) => match parse_decimal(t.as_str()) {
            Some(v) => v,
            None => fallback,
        },
        None => fallback,
    }
}

impl JwtConfig {
    /// The configuration from its settings: the signing secret, and the lifetimes of
    /// access tokens in minutes (15 when unset or not a number) and of refresh tokens in
    /// days (7 when unset or not a number).
    pub fn from_settings(
        secret: String,
        access_minutes: Option<String>,
        refresh_days: Option<String>,
    ) -> (r: JwtConfig)
        ensures
            r.secret == secret,
            r.access_token_expiry_minutes == setting_or(text_view(access_minutes), 15),
            r.refresh_token_expiry_days == setting_or(text_view(refresh_days), 7),
    {
        JwtConfig {
            secret,
            access_token_expiry_minutes: number_or(access_minutes, 15),
            refresh_token_expiry_days: number_or(refresh_days, 7),
        }
    }
}

/// The earliest instant chrono represents, in seconds since the Unix epoch
/// (January 1 of year -262143, at midnight).
pub open spec fn chrono_min_timestamp() -> int {
    -8_334_601_228_800
}

/// The latest whole second chrono represents, in seconds since the Unix epoch
/// (December 31 of year 262142, at 23:59:59).
pub open spec fn chrono_max_timestamp() -> int {
    8_210_266_876_799
}

/// Chrono can represent the instant `t` (seconds since the Unix epoch).
pub open spec fn chrono_holds(t: int) -> bool {
    chrono_min_timestamp() <= t <= chrono_max_timestamp()
}

/// Calls `std::time::SystemTime::now()` and reads it as whole seconds since the Unix epoch
/// through `duration_since(UNIX_EPOCH)`, which fails on a clock set before the epoch
/// (`None`). The reading itself is not stated: it depends on the clock.
#[verifier::external_body]
fn clock_seconds() -> (r: Option<u64>) {
    match std::time::SystemTime::now().duration_since(std::time::UNIX_EPOCH) {
        Ok(d) => Some(d.as_secs()),
        Err(_) => None,
    }
}

/// `c` is a lower-case hexadecimal digit.
pub open spec fn is_lower_hex(c: char) -> bool {
    48 <= (c as int) <= 57 || 97 <= (c as int) <= 102
}

/// `s` is a random (version 4, RFC 4122 variant) UUID written in the hyphenated lower-case
/// form: 36 characters, hyphens at positions 8, 13, 18 and 23, lower-case hexadecimal
/// digits elsewhere, `4` at position 14, and one of `8`, `9`, `a`, `b` at position 19.
pub open spec fn is_uuid_v4_text(s: Seq<char>) -> bool {
    &&& s.len() == 36
    &&& forall|i: int|
        0 <= i < 36 ==> if i == 8 || i == 13 || i == 18 || i == 23 {
            s[i] == '-'
        } else {
            is_lower_hex(#[trigger] s[i])
        }
    &&& s[14] == '4'
    &&& (s[19] == '8' || s[19] == '9' || s[19] == 'a' || s[19] == 'b')
}

/// Calls `uuid::Uuid::new_v4()` and returns it as text. The identifier is random; the
/// contract states the form that `uuid` writes every version 4 UUID in.
#[verifier::external_body]
fn fresh_token_id() -> (r: String)
    ensures
        is_uuid_v4_text(r@),
{
    uuid::Uuid::new_v4().to_string()
}

/// Calls chrono: the instant `now` (seconds since the epoch) plus
/// `chrono::TimeDelta::try_minutes(minutes)`, through `checked_add_signed`, read back with
/// `timestamp()`. Chrono answers exactly when it represents both the start and the sum.
#[verifier::external_body]
fn minutes_later(now: i64, minutes: i64) -> (r: Option<i64>)
    ensures
        r == (if chrono_holds(now as int) && chrono_holds(now + 60 * minutes) {
            Some((now + 60 * minutes) as i64)
        } else {
            None
        }),
{
    let start = chrono::DateTime::from_timestamp(now, 0)?;
    let span = chrono::TimeDelta::try_minutes(minutes)?;
    start.checked_add_signed(span).map(|t| t.timestamp())
}

/// `c` names the given user and expires `expiry_minutes` minutes after it was issued.
pub open spec fn issued_to(
    c: Claims,
    user_id: Seq<char>,
    email: Seq<char>,
    role: Seq<char>,
    institution_id: Seq<char>,
    expiry_minutes: i64,
) -> bool {
    &&& c.sub@ == user_id
    &&& c.email@ == email
    &&& c.role@ == role
    &&& c.institution_id@ == institution_id
    &&& c.exp == c.iat + 60 * expiry_minutes
}

/// The claims of an access token issued at `now` with identifier `jti` to the given user:
/// it expires `expiry_minutes` minutes later. `None` exactly when chrono cannot represent
/// the issue time or the expiry.
pub fn access_claims(
    user_id: &str,
    email: &str,
    role: &str,
    institution_id: &str,
    expiry_minutes: i64,
    now: i64,
    jti: String,
) -> (r: Option<Claims>)
    ensures
        r is Some <==> chrono_holds(now as int) && chrono_holds(now + 60 * expiry_minutes),
        r matches Some(c) ==> {
            &&& issued_to(c, user_id@, email@, role@, institution_id@, expiry_minutes)
            &&& c.jti == jti
            &&& c.iat == now
        },
{
    let exp = minutes_later(now, expiry_minutes)?;
    Some(
        Claims {
            sub: owned(user_id),
            email: owned(email),
            role: owned(role),
            institution_id: owned(institution_id),
            jti,
            iat: now,
            exp,
        },
    )
}

/// The claims of an access token for the given user, given the clock's reading in seconds
/// since the Unix epoch (`None` when the clock reads before it) and the token identifier.
/// Refused with `Internal("System clock out of range")` when there is no reading or it lies
/// past the last second chrono represents; otherwise the claims `access_claims` issues at
/// that reading, or `Internal("Token expiry out of range")` when it issues none.
pub fn claims_at(
    reading: Option<u64>,
    jti: String,
    user_id: &str,
    email: &str,
    role: &str,
    institution_id: &str,
    config: &JwtConfig,
) -> (r: Result<Claims, AppError>)
    ensures
        (reading is None || reading->0 > chrono_max_timestamp()) ==> (r matches Err(e)
            && is_internal(e, "System clock out of range"@)),
        reading is Some && reading->0 <= chrono_max_timestamp() ==> {
            if chrono_holds(reading->0 + 60 * config.access_token_expiry_minutes) {
                r matches Ok(c) && issued_to(
                    c,
                    user_id@,
                    email@,
                    role@,
                    institution_id@,
                    config.access_token_expiry_minutes,
                ) && c.jti == jti && c.iat == reading->0
            } else {
                r matches Err(e) && is_internal(e, "Token expiry out of range"@)
            }
        },
{
    let now: i64 = match reading {
        Some(t) => if t <= 8_210_266_876_799u64 {
            t as i64
        } else {
            return Err(AppError::Internal(owned("System clock out of range")));
        },
        None => {
            return Err(AppError::Internal(owned("System clock out of range")));
        },
    };
    match access_claims(
        user_id,
        email,
        role,
        institution_id,
        config.access_token_expiry_minutes,
        now,
        jti,
    ) {
        Some(c) => Ok(c),
        None => Err(AppError::Internal(owned("Token expiry out of range"))),
    }
}

/// The claims of an access token for the given user, issued now with a fresh random
/// identifier, living as long as `config` says: `claims_at` applied to the clock's reading
/// and a fresh identifier, so refused as `claims_at` refuses.
pub fn create_access_claims(
    user_id: &str,
    email: &str,
    role: &str,
    institution_id: &str,
    config: &JwtConfig,
) -> (r: Result<Claims, AppError>)
    ensures
        r matches Ok(c) ==> {
            &&& issued_to(
                c,
                user_id@,
                email@,
                role@,
                institution_id@,
                config.access_token_expiry_minutes,
            )
            &&& is_uuid_v4_text(c.jti@)
            &&& 0 <= c.iat <= chrono_max_timestamp()
        },
        r matches Err(e) ==> {
            ||| is_internal(e, "System clock out of range"@)
            ||| is_internal(e, "Token expiry out of range"@) && (60
                * config.access_token_expiry_minutes > 0 || 60 * config.access_token_expiry_minutes
                < chrono_min_timestamp())
        },
{
    claims_at(clock_seconds(), fresh_token_id(), user_id, email, role, institution_id, config)
}

/// The token in an `Authorization` header: what follows `Bearer `. A missing header (or
/// one that is not visible ASCII, which the caller passes as `None`) is refused with
/// `Unauthorized("Missing authorization header")`, any other with
/// `Unauthorized("Invalid authorization format")`.
pub fn bearer_token(header: Option<&str>) -> (r: Result<String, AppError>)
    ensures
        header is None ==> (r matches Err(e) && is_unauthorized(
            e,
            "Missing authorization header"@,
        )),
        header matches Some(h) ==> {
            if "Bearer "@.is_prefix_of(h@) {
                r matches Ok(t) && t@ == h@.subrange(7, h@.len() as int)
            } else {
                r matches Err(e) && is_unauthorized(e, "Invalid authorization format"@)
            }
        },
{
    proof {
        reveal_strlit("Bearer ");
    }
    match header {
        None => Err(AppError::Unauthorized(owned("Missing authorization header"))),
        Some(h) => match strip_prefix(h, "Bearer ") {
            Some(t) => Ok(t),
            None => Err(AppError::Unauthorized(owned("Invalid authorization format"))),
        },
    }
}

/// The caller that verified claims name; when the token did not verify (`None`), the
/// request is refused with `Unauthorized("Invalid or expired token")`.
pub fn authenticated_user(claims: Option<Claims>) -> (r: Result<AuthUser, AppError>)
    ensures
        claims is None ==> (r matches Err(e) && is_unauthorized(e, "Invalid or expired token"@)),
        claims matches Some(c) ==> r == Ok::<AuthUser, AppError>(claimed_user(c)),
{
    match claims {
        None => Err(AppError::Unauthorized(owned("Invalid or expired token"))),
        Some(c) => Ok(
            AuthUser { id: c.sub, email: c.email, role: c.role, institution_id: c.institution_id },
        ),
    }
}

/// A user's account as stored.
#[derive(Debug, Clone, PartialEq, Eq)]
pub struct UserRecord {
    pub id: String,
    pub email: String,
    pub password_hash: String,
    pub role: String,
    pub first_name: String,
    pub last_name: String,
    pub institution_id: String,
    pub avatar_url: Option<String>,
    pub is_active: bool,
}

/// What the client learns of a user.
#[derive(Debug, Clone, PartialEq, Eq)]
pub struct UserInfo {
    pub id: String,
    pub email: String,
    pub first_name: String,
    pub last_name: String,
    pub role: String,
    pub institution_id: String,
    pub avatar_url: Option<String>,
}

/// The answer to a successful sign-in.
#[derive(Debug, Clone, PartialEq, Eq)]
pub struct AuthResponse {
    pub access_token: String,
    pub token_type: String,
    pub user: UserInfo,
}

/// `info` shows the account `u`.
pub open spec fn shows(info: UserInfo, u: UserRecord) -> bool {
    &&& info.id == u.id
    &&& info.email == u.email
    &&& info.first_name == u.first_name
    &&& info.last_name == u.last_name
    &&& info.role == u.role
    &&& info.institution_id == u.institution_id
    &&& info.avatar_url == u.avatar_url
}

impl UserRecord {
    /// What the client learns of this account.
    pub fn info(self) -> (r: UserInfo)
        ensures
            shows(r, self),
    {
        UserInfo {
            id: self.id,
            email: self.email,
            first_name: self.first_name,
            last_name: self.last_name,
            role: self.role,
            institution_id: self.institution_id,
            avatar_url: self.avatar_url,
        }
    }
}

/// The account a sign-in goes on with: refused with `Unauthorized("Invalid email or
/// password")` when no account has the address, with `Unauthorized("Account is
/// deactivated")` when the account is inactive.
pub fn sign_in_account(account: Option<UserRecord>) -> (r: Result<UserRecord, AppError>)
    ensures
        account is None ==> (r matches Err(e) && is_unauthorized(
            e,
            "Invalid email or password"@,
        )),
        account matches Some(u) ==> (if u.is_active {
            r == Ok::<UserRecord, AppError>(u)
        } else {
            r matches Err(e) && is_unauthorized(e, "Account is deactivated"@)
        }),
{
    match account {
        None => Err(AppError::Unauthorized(owned("Invalid email or password"))),
        Some(u) => {
            if u.is_active {
                Ok(u)
            } else {
                Err(AppError::Unauthorized(owned("Account is deactivated")))
            }
        },
    }
}

/// What checking `password` against the stored Argon2 hash `hash` gives: `None` when the
/// hash is not in PHC string form, else whether the password hashes to it.
pub uninterp spec fn argon2_verdict(password: Seq<char>, hash: Seq<char>) -> Option<bool>;

/// Calls `argon2::password_hash::PasswordHash::new` on the stored hash and, when it parses,
/// `Argon2::default().verify_password` on the password's bytes. The result is named
/// `argon2_verdict`; it depends on the two texts alone (the salt and parameters come from
/// the hash).
#[verifier::external_body]
fn argon2_matches(password: &str, hash: &str) -> (r: Option<bool>)
    ensures
        r == argon2_verdict(password@, hash@),
{
    match argon2::PasswordHash::new(hash) {
        Ok(parsed) => Some(argon2::Argon2::default().verify_password(password.as_bytes(), &parsed).is_ok()),
        Err(_) => None,
    }
}

/// The verdict on a sign-in's password against the account's stored hash: refused with
/// `Internal("Password verification failed")` when the stored hash cannot be read, with
/// `Unauthorized("Invalid email or password")` when the password does not match.
pub fn check_password(password: &str, account: &UserRecord) -> (r: Result<(), AppError>)
    ensures
        r is Ok <==> argon2_verdict(password@, account.password_hash@) == Some(true),
        argon2_verdict(password@, account.password_hash@) is None ==> (r matches Err(e)
            && is_internal(e, "Password verification failed"@)),
        argon2_verdict(password@, account.password_hash@) == Some(false) ==> (r matches Err(e)
            && is_unauthorized(e, "Invalid email or password"@)),
{
    match argon2_matches(password, account.password_hash.as_str()) {
        None => Err(AppError::Internal(owned("Password verification failed"))),
        Some(true) => Ok(()),
        Some(false) => Err(AppError::Unauthorized(owned("Invalid email or password"))),
    }
}

/// The account a sign-in opens: checked as `sign_in_account` does (missing, then inactive),
/// and only then the password, as `check_password` does.
pub fn sign_in(account: Option<UserRecord>, password: &str) -> (r: Result<UserRecord, AppError>)
    ensures
        account is None ==> (r matches Err(e) && is_unauthorized(
            e,
            "Invalid email or password"@,
        )),
        account matches Some(u) && !u.is_active ==> (r matches Err(e) && is_unauthorized(
            e,
            "Account is deactivated"@,
        )),
        account matches Some(u) && u.is_active && argon2_verdict(password@, u.password_hash@)
            is None ==> (r matches Err(e) && is_internal(e, "Password verification failed"@)),
        account matches Some(u) && u.is_active && argon2_verdict(password@, u.password_hash@)
            == Some(false) ==> (r matches Err(e) && is_unauthorized(
            e,
            "Invalid email or password"@,
        )),
        r is Ok <==> (account matches Some(u) && u.is_active && argon2_verdict(
            password@,
            u.password_hash@,
        ) == Some(true)),
        r matches Ok(u) ==> account == Some(u),
{
    let u = sign_in_account(account)?;
    check_password(password, &u)?;
    Ok(u)
}

/// The answer to a sign-in that passed: the token, of type `Bearer`, and the account.
pub fn auth_response(access_token: String, account: UserRecord) -> (r: AuthResponse)
    ensures
        r.access_token == access_token,
        r.token_type@ == "Bearer"@,
        shows(r.user, account),
{
    AuthResponse { access_token, token_type: owned("Bearer"), user: account.info() }
}

/// The caller's own profile: refused with `NotFound("User not found")` when no active
/// account has the caller's id.
pub fn own_profile(profile: Option<UserInfo>) -> (r: Result<UserInfo, AppError>)
    ensures
        profile is None ==> (r matches Err(e) && is_not_found(e, "User not found"@)),
        profile matches Some(p) ==> r == Ok::<UserInfo, AppError>(p),
{
    match profile {
        None => Err(AppError::NotFound(owned("User not found"))),
        Some(p) => Ok(p),
    }
}

/// A header that is `Bearer ` followed by a token hands back exactly that token.
pub proof fn law_bearer_header_gives_back_token(token: Seq<char>)
    ensures
        "Bearer "@.is_prefix_of("Bearer "@ + token),
        ("Bearer "@ + token).subrange(7, ("Bearer "@ + token).len() as int) == token,
{
    reveal_strlit("Bearer ");
    assert(("Bearer "@ + token).subrange(7, ("Bearer "@ + token).len() as int) =~= token);
}

/// The caller named by claims.
pub open spec fn claimed_user(c: Claims) -> AuthUser {
    AuthUser { id: c.sub, email: c.email, role: c.role, institution_id: c.institution_id }
}

/// Claims that `access_claims` or `create_access_claims` issued to a user (`issued_to`)
/// make `authenticated_user` admit exactly that user, whose token lives the configured
/// number of minutes. This joins the two contracts; the signing and checking of the token
/// between them is not part of it.
pub proof fn law_issued_claims_name_their_holder(
    c: Claims,
    user_id: Seq<char>,
    email: Seq<char>,
    role: Seq<char>,
    institution_id: Seq<char>,
    expiry_minutes: i64,
)
    requires
        issued_to(c, user_id, email, role, institution_id, expiry_minutes),
    ensures
        claimed_user(c).id@ == user_id,
        claimed_user(c).email@ == email,
        claimed_user(c).role@ == role,
        claimed_user(c).institution_id@ == institution_id,
        c.exp - c.iat == 60 * expiry_minutes,
{
}

} // verus!
