//! The API's unified error, and how each kind renders as an HTTP
//! response: a status code plus a JSON body `{code, message}`.

use vstd::prelude::*;
use crate::content::{import_error_text, ImportError, RecordError};
use crate::text::{contains_str, contains_text};

verus! {

/// One field that failed authoring validation.
#[derive(Debug)]
pub struct FieldError {
    pub field: String,
    pub message: String,
}

/// Unified API error type. Handlers return `Result<T, ApiError>`.
#[derive(Debug)]
pub enum ApiError {
    /// Registration failed because the supplied join code did not match
    /// the server's join code.
    InvalidJoinCode,
    /// Registration failed because the display name is already taken.
    DisplayNameTaken,
    /// Login failed because no user with the given display name exists.
    DisplayNameNotFound,
    /// Login failed: unknown username or wrong password (one answer for
    /// both, so responses do not reveal which usernames exist).
    InvalidCredentials,
    /// The username is already registered.
    UsernameTaken,
    /// The email address is already registered.
    EmailTaken,
    /// Request lacked a valid `Authorization: Bearer <token>` header.
    Unauthorized,
    /// The caller is authenticated but may not do this.
    Forbidden,
    /// Requested resource does not exist.
    NotFound,
    /// Request body or path parameters were malformed.
    BadRequest(String),
    /// Authoring input failed field validation.
    Validation(Vec<FieldError>),
    /// Catch-all for unexpected failures (database errors, etc.), with the
    /// internal description that is logged but never sent.
    Internal(String),
}

/// The HTTP status each error kind answers with.
pub open spec fn status_of(e: ApiError) -> u16 {
    match e {
        ApiError::InvalidJoinCode => 403,
        ApiError::DisplayNameTaken => 409,
        ApiError::DisplayNameNotFound => 404,
        ApiError::InvalidCredentials => 401,
        ApiError::UsernameTaken => 409,
        ApiError::EmailTaken => 409,
        ApiError::Unauthorized => 401,
        ApiError::Forbidden => 403,
        ApiError::NotFound => 404,
        ApiError::BadRequest(_) => 400,
        ApiError::Validation(_) => 422,
        ApiError::Internal(_) => 500,
    }
}

/// The machine-readable code each error kind carries.
pub open spec fn code_of(e: ApiError) -> Seq<char> {
    match e {
        ApiError::InvalidJoinCode => "invalid_join_code"@,
        ApiError::DisplayNameTaken => "display_name_taken"@,
        ApiError::DisplayNameNotFound => "display_name_not_found"@,
        ApiError::InvalidCredentials => "invalid_credentials"@,
        ApiError::UsernameTaken => "username_taken"@,
        ApiError::EmailTaken => "email_taken"@,
        ApiError::Unauthorized => "unauthorized"@,
        ApiError::Forbidden => "forbidden"@,
        ApiError::NotFound => "not_found"@,
        ApiError::BadRequest(_) => "bad_request"@,
        ApiError::Validation(_) => "validation_failed"@,
        ApiError::Internal(_) => "internal_error"@,
    }
}

/// The human-readable message each error kind sends. A bad request
/// passes its detail through; an internal error never reveals its cause.
pub open spec fn message_of(e: ApiError) -> Seq<char> {
    match e {
        ApiError::InvalidJoinCode => "join code did not match this server"@,
        ApiError::DisplayNameTaken => "display name is already in use on this server"@,
        ApiError::DisplayNameNotFound => "no user with that display name exists on this server"@,
        ApiError::InvalidCredentials => "invalid username or password"@,
        ApiError::UsernameTaken => "username is already in use on this server"@,
        ApiError::EmailTaken => "email is already in use on this server"@,
        ApiError::Unauthorized => "missing or invalid session token"@,
        ApiError::Forbidden => "not permitted"@,
        ApiError::NotFound => "resource not found"@,
        ApiError::BadRequest(detail) => detail@,
        ApiError::Validation(_) => "field validation failed"@,
        ApiError::Internal(_) => "internal server error"@,
    }
}

/// An error rendered for the wire.
pub struct ErrorResponse {
    pub status: u16,
    pub code: &'static str,
    pub message: String,
}

impl ApiError {
    /// The status, code and message this error answers with.
    pub fn response_parts(&self) -> (r: ErrorResponse)
        ensures
            r.status == status_of(*self),
            r.code@ == code_of(*self),
            r.message@ == message_of(*self),
    {
        match self {
            ApiError::InvalidJoinCode => ErrorResponse {
                status: 403,
                code: "invalid_join_code",
                message: String::from_str("join code did not match this server"),
            },
            ApiError::DisplayNameTaken => ErrorResponse {
                status: 409,
                code: "display_name_taken",
                message: String::from_str("display name is already in use on this server"),
            },
            ApiError::DisplayNameNotFound => ErrorResponse {
                status: 404,
                code: "display_name_not_found",
                message: String::from_str("no user with that display name exists on this server"),
            },
            ApiError::InvalidCredentials => ErrorResponse {
                status: 401,
                code: "invalid_credentials",
                message: String::from_str("invalid username or password"),
            },
            ApiError::UsernameTaken => ErrorResponse {
                status: 409,
                code: "username_taken",
                message: String::from_str("username is already in use on this server"),
            },
            ApiError::EmailTaken => ErrorResponse {
                status: 409,
                code: "email_taken",
                message: String::from_str("email is already in use on this server"),
            },
            ApiError::Unauthorized => ErrorResponse {
                status: 401,
                code: "unauthorized",
                message: String::from_str("missing or invalid session token"),
            },
            ApiError::Forbidden => ErrorResponse {
                status: 403,
                code: "forbidden",
                message: String::from_str("not permitted"),
            },
            ApiError::NotFound => ErrorResponse {
                status: 404,
                code: "not_found",
                message: String::from_str("resource not found"),
            },
            ApiError::BadRequest(detail) => ErrorResponse {
                status: 400,
                code: "bad_request",
                message: detail.clone(),
            },
            ApiError::Validation(_) => ErrorResponse {
                status: 422,
                code: "validation_failed",
                message: String::from_str("field validation failed"),
            },
            ApiError::Internal(_) => ErrorResponse {
                status: 500,
                code: "internal_error",
                message: String::from_str("internal server error"),
            },
        }
    }
}

/// A record-persistence failure as an API error: invalid input is the
/// client's fault, a database failure the server's.
pub fn record_error(e: RecordError) -> (r: ApiError)
    ensures
        e matches RecordError::Invalid(m) ==> (r matches ApiError::BadRequest(d) && d@ == m@),
        e matches RecordError::Db(m) ==> (r matches ApiError::Internal(d) && d@ == m@),
{
    match e {
        RecordError::Invalid(m) => ApiError::BadRequest(m),
        RecordError::Db(m) => ApiError::Internal(m),
    }
}

/// A failed bundle install as an API error: a database failure is
/// internal, any other refusal is a bad request carrying its message.
pub fn import_error(e: ImportError, server_min: u32, server_current: u32) -> (r: ApiError)
    ensures
        e matches ImportError::Db(m) ==> (r matches ApiError::Internal(d) && d@ == m@),
        !(e matches ImportError::Db(_)) ==> (r matches ApiError::BadRequest(d) && d@
            == import_error_text(e, server_min, server_current)),
{
    match e {
        ImportError::Db(m) => ApiError::Internal(m),
        other => ApiError::BadRequest(other.message(server_min, server_current)),
    }
}

/// Maps a UNIQUE-constraint violation on `users` to the right conflict.
/// The SQLite message names the failing column ("users.username" /
/// "users.email"), which is the only signal available.
pub fn map_user_unique_violation(message: &str) -> (r: ApiError)
    ensures
        contains_text(message@, "users.email"@) ==> r is EmailTaken,
        !contains_text(message@, "users.email"@) && contains_text(message@, "users.username"@)
            ==> r is UsernameTaken,
        !contains_text(message@, "users.email"@) && !contains_text(message@, "users.username"@)
            ==> (r matches ApiError::Internal(d) && d@ == message@),
{
    if contains_str(message, "users.email") {
        ApiError::EmailTaken
    } else if contains_str(message, "users.username") {
        ApiError::UsernameTaken
    } else {
        ApiError::Internal(String::from_str(message))
    }
}

/// Cross-module references surface as foreign-key violations on
/// uninstall: a client problem, not a server bug.
pub fn map_fk_conflict(is_foreign_key_violation: bool, message: &str) -> (r: ApiError)
    ensures
        is_foreign_key_violation ==> (r matches ApiError::BadRequest(d) && d@
            == "module content is referenced by other installed modules; uninstall those first"@),
        !is_foreign_key_violation ==> (r matches ApiError::Internal(d) && d@ == message@),
{
    if is_foreign_key_violation {
        ApiError::BadRequest(
            String::from_str(
                "module content is referenced by other installed modules; uninstall those first",
            ),
        )
    } else {
        ApiError::Internal(String::from_str(message))
    }
}

} // verus!
