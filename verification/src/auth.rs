//! Accounts and sessions: the password policy, new-account validation,
//! bearer-token extraction, session resolution and password hashing.

use vstd::prelude::*;
use rand::RngCore;
use argon2::password_hash::{PasswordHash, PasswordHasher, PasswordVerifier, SaltString};
use crate::error::ApiError;
use crate::text::{blank, contains_char, is_blank, starts_with, str_eq};

verus! {

/// Authenticated caller resolved from a bearer token.
pub struct CurrentUser {
    /// Canonical (lower-case, hyphenated) user uuid.
    pub uuid: String,
    pub username: String,
    pub email: String,
    pub admin: bool,
}

/// An authenticated caller who is an admin.
pub struct AdminUser(pub CurrentUser);

/// The minimum password length, in characters.
pub const MIN_PASSWORD_CHARS: usize = 8;

/// Password policy shared by registration, admin creation, and
/// self-service change: at least eight characters.
pub fn validate_password(password: &str) -> (r: Result<(), ApiError>)
    ensures
        r is Ok <==> password@.len() >= 8,
        r matches Err(e) ==> (e matches ApiError::BadRequest(m) && m@
            == "password must be at least 8 characters"@),
{
    if password.unicode_len() < MIN_PASSWORD_CHARS {
        return Err(ApiError::BadRequest(String::from_str("password must be at least 8 characters")));
    }
    Ok(())
}

/// Shared validation for registration and admin user creation: a
/// non-blank username, an email containing `@`, and the password policy,
/// checked in that order.
pub fn validate_new_user(username: &str, email: &str, password: &str) -> (r: Result<(), ApiError>)
    ensures
        r is Ok <==> !is_blank(username@) && email@.contains('@') && password@.len() >= 8,
        is_blank(username@) ==> (r matches Err(ApiError::BadRequest(m)) && m@ == "username must not be empty"@),
        !is_blank(username@) && !email@.contains('@') ==> (r matches Err(ApiError::BadRequest(m)) && m@
            == "email must be a valid address"@),
        !is_blank(username@) && email@.contains('@') && password@.len() < 8 ==> (r matches Err(
            ApiError::BadRequest(m),
        ) && m@ == "password must be at least 8 characters"@),
{
    if blank(username) {
        return Err(ApiError::BadRequest(String::from_str("username must not be empty")));
    }
    if !contains_char(email, '@') {
        return Err(ApiError::BadRequest(String::from_str("email must be a valid address")));
    }
    validate_password(password)
}

/// The session token carried by an `Authorization` header value of the
/// form `Bearer <token>`.
pub fn bearer_token(header: Option<&str>) -> (r: Option<String>)
    ensures
        r is Some <==> (header matches Some(v) && "Bearer "@.len() <= v@.len() && v@.subrange(0, 7)
            == "Bearer "@),
        r matches Some(t) ==> (header matches Some(v) && t@ == v@.subrange(7, v@.len() as int)),
{
    proof {
        reveal_strlit("Bearer ");
    }
    match header {
        None => None,
        Some(v) => {
            if starts_with(v, "Bearer ") {
                let n = v.unicode_len();
                Some(String::from_str(v.substring_char(7, n)))
            } else {
                None
            }
        },
    }
}

/// What the session lookup reads for a token: the user row joined with
/// the session's optional expiry (microseconds since the epoch).
pub struct SessionRow {
    pub user_uuid: String,
    pub username: String,
    pub email: String,
    pub admin: bool,
    pub expires_at_micros: Option<i64>,
}

/// A session is live unless it carries an expiry that has passed.
pub open spec fn session_live(expires_at: Option<i64>, now: i64) -> bool {
    match expires_at {
        Some(expiry) => !(expiry < now),
        None => true,
    }
}

/// Resolves a looked-up session into the calling user: unknown tokens and
/// expired sessions are unauthorized, a stored uuid that does not parse
/// is an internal error.
pub fn resolve_session(row: Option<SessionRow>, now_micros: i64) -> (r: Result<CurrentUser, ApiError>)
    ensures
        row is None ==> r matches Err(ApiError::Unauthorized),
        row matches Some(s) ==> {
            &&& !session_live(s.expires_at_micros, now_micros) ==> (r matches Err(ApiError::Unauthorized))
            &&& session_live(s.expires_at_micros, now_micros) && uuid_canonical(s.user_uuid@) is None
                ==> (r matches Err(ApiError::Internal(_)))
            &&& session_live(s.expires_at_micros, now_micros) && uuid_canonical(s.user_uuid@) is Some
                ==> (r matches Ok(u) && u.uuid@ == uuid_canonical(s.user_uuid@).unwrap()
                && u.username == s.username && u.email == s.email && u.admin == s.admin)
        },
{
    match row {
        None => Err(ApiError::Unauthorized),
        Some(s) => {
            if let Some(expiry) = s.expires_at_micros {
                if expiry < now_micros {
                    return Err(ApiError::Unauthorized);
                }
            }
            match canonical_uuid(s.user_uuid.as_str()) {
                Some(uuid) => Ok(CurrentUser { uuid, username: s.username, email: s.email, admin: s.admin }),
                None => Err(ApiError::Internal(String::from_str("stored user uuid does not parse"))),
            }
        },
    }
}

/// Admin-gated access: non-admin callers are forbidden.
pub fn require_admin(user: CurrentUser) -> (r: Result<AdminUser, ApiError>)
    ensures
        user.admin ==> (r matches Ok(a) && a.0 == user),
        !user.admin ==> r matches Err(ApiError::Forbidden),
{
    if user.admin {
        Ok(AdminUser(user))
    } else {
        Err(ApiError::Forbidden)
    }
}

/// The name for what `uuid::Uuid::parse_str` followed by `to_string`
/// gives: the lower-case hyphenated form of the uuid a text denotes, or
/// nothing when the text is not a uuid.
pub uninterp spec fn uuid_canonical(s: Seq<char>) -> Option<Seq<char>>;

/// `Uuid::parse_str(s).ok().map(|u| u.to_string())`.
#[verifier::external_body]
pub(crate) fn canonical_uuid(s: &str) -> (r: Option<String>)
    ensures
        r is Some == uuid_canonical(s@) is Some,
        r matches Some(c) ==> uuid_canonical(s@) == Some(c@),
{
    uuid::Uuid::parse_str(s).ok().map(|u| u.to_string())
}

/// `Argon2::default().hash_password` with a fresh random 16-byte salt from
/// `rand::rng()`, rendered as a PHC string; the error as its message.
/// The salt is random, so the hash itself is not named; what the crate's
/// documentation shows of it is stated: the PHC string parses and the
/// same password verifies against it. With the default parameters and a
/// 16-byte salt, hashing fails only for a password longer than
/// `u32::MAX` bytes (`MAX_PWD_LEN`), so success is stated for every
/// other password.
#[verifier::external_body]
fn argon2_hash(password: &str) -> (r: Result<String, String>)
    ensures
        r matches Ok(h) ==> argon2_verdict(password@, h@) == Some(true),
        password.len() <= 0xFFFF_FFFF ==> r is Ok,
{
    let mut bytes = [0u8; 16];
    rand::rng().fill_bytes(&mut bytes);
    let salt = SaltString::encode_b64(&bytes).map_err(|e| e.to_string())?;
    argon2::Argon2::default()
        .hash_password(password.as_bytes(), &salt)
        .map(|hash| hash.to_string())
        .map_err(|e| e.to_string())
}

/// The name for what verifying a password against a PHC string with
/// `Argon2::default()` decides: `None` when the PHC string does not parse
/// (`PasswordHash::new` fails), otherwise whether the password matches.
pub uninterp spec fn argon2_verdict(password: Seq<char>, phc: Seq<char>) -> Option<bool>;

/// `PasswordHash::new(phc)` then `Argon2::default().verify_password`.
#[verifier::external_body]
fn argon2_verify(password: &str, phc: &str) -> (r: Result<bool, String>)
    ensures
        r is Ok == argon2_verdict(password@, phc@) is Some,
        r matches Ok(b) ==> argon2_verdict(password@, phc@) == Some(b),
{
    PasswordHash::new(phc)
        .map(|parsed| argon2::Argon2::default().verify_password(password.as_bytes(), &parsed).is_ok())
        .map_err(|e| e.to_string())
}

/// Hashes a password for storage (Argon2 with default parameters and a
/// random salt). A hashing failure is an internal error; a stored hash
/// accepts the password it was made from. Hashing succeeds for every
/// password of at most `u32::MAX` bytes.
pub fn hash_password(password: &str) -> (r: Result<String, ApiError>)
    ensures
        password.len() <= 0xFFFF_FFFF ==> r is Ok,
        r matches Err(e) ==> e is Internal,
        r matches Ok(h) ==> argon2_verdict(password@, h@) == Some(true),
{
    match argon2_hash(password) {
        Ok(h) => Ok(h),
        Err(m) => Err(ApiError::Internal(String::from_str("password hashing failed: ").concat(m.as_str()))),
    }
}

/// Checks a password against its stored PHC hash. A stored hash that does
/// not parse is an internal error.
pub fn verify_password(password: &str, phc_hash: &str) -> (r: Result<bool, ApiError>)
    ensures
        argon2_verdict(password@, phc_hash@) matches Some(b) ==> r == Ok::<bool, ApiError>(b),
        argon2_verdict(password@, phc_hash@) is None ==> r matches Err(ApiError::Internal(_)),
{
    match argon2_verify(password, phc_hash) {
        Ok(b) => Ok(b),
        Err(m) => Err(ApiError::Internal(String::from_str("stored password hash invalid: ").concat(m.as_str()))),
    }
}

/// Registration is gated on the server's join code, matched exactly.
pub fn check_join_code(supplied: &str, server_code: &str) -> (r: Result<(), ApiError>)
    ensures
        r is Ok <==> supplied@ == server_code@,
        r is Err ==> r matches Err(ApiError::InvalidJoinCode),
{
    if !str_eq(supplied, server_code) {
        return Err(ApiError::InvalidJoinCode);
    }
    Ok(())
}

/// The outcome of a login attempt, given the stored hash of the named
/// user (`None` when there is no such user). An unknown username and a
/// wrong password get the same answer, so responses do not reveal which
/// usernames exist; a stored hash that does not parse is internal.
pub fn login_verdict(password: &str, stored_hash: Option<&str>) -> (r: Result<(), ApiError>)
    ensures
        stored_hash is None ==> r matches Err(ApiError::InvalidCredentials),
        stored_hash matches Some(h) ==> match argon2_verdict(password@, h@) {
            Some(true) => r is Ok,
            Some(false) => r matches Err(ApiError::InvalidCredentials),
            None => r matches Err(ApiError::Internal(_)),
        },
{
    match stored_hash {
        None => Err(ApiError::InvalidCredentials),
        Some(h) => {
            if verify_password(password, h)? {
                Ok(())
            } else {
                Err(ApiError::InvalidCredentials)
            }
        },
    }
}

/// A password change needs the current password.
pub fn check_current_password(password: &str, stored_hash: &str) -> (r: Result<(), ApiError>)
    ensures
        match argon2_verdict(password@, stored_hash@) {
            Some(true) => r is Ok,
            Some(false) => r matches Err(ApiError::BadRequest(m)) && m@ == "current password is incorrect"@,
            None => r matches Err(ApiError::Internal(_)),
        },
{
    if verify_password(password, stored_hash)? {
        Ok(())
    } else {
        Err(ApiError::BadRequest(String::from_str("current password is incorrect")))
    }
}

} // verus!
