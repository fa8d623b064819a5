use lorewyld::auth::{
    bearer_token, check_current_password, check_join_code, login_verdict, hash_password, require_admin, resolve_session, validate_new_user, validate_password,
    verify_password, CurrentUser, SessionRow,
};
use lorewyld::content::RecordError;
use lorewyld::error::{map_fk_conflict, map_user_unique_violation, record_error, ApiError};
use lorewyld::rows::parse_uuid;

fn user(uuid: &str, admin: bool) -> CurrentUser {
    CurrentUser {
        uuid: uuid.to_string(),
        username: "alice".to_string(),
        email: "alice@example.com".to_string(),
        admin,
    }
}

#[test]
fn each_error_renders_its_status_and_code() {
    let cases: Vec<(ApiError, u16, &str, &str)> = vec![
        (ApiError::InvalidJoinCode, 403, "invalid_join_code", ""),
        (ApiError::Unauthorized, 401, "unauthorized", ""),
        (ApiError::Forbidden, 403, "forbidden", ""),
        (ApiError::NotFound, 404, "not_found", "resource not found"),
        (ApiError::BadRequest("bad thing".to_string()), 400, "bad_request", "bad thing"),
        (ApiError::Validation(vec![]), 422, "validation_failed", "field validation failed"),
        (ApiError::Internal("secret detail".to_string()), 500, "internal_error", "internal server error"),
        (ApiError::UsernameTaken, 409, "", ""),
        (ApiError::EmailTaken, 409, "", ""),
        (ApiError::InvalidCredentials, 401, "", ""),
        (ApiError::DisplayNameTaken, 409, "", ""),
        (ApiError::DisplayNameNotFound, 404, "", ""),
    ];
    for (e, status, code, message) in cases {
        let parts = e.response_parts();
        assert_eq!(parts.status, status);
        if !code.is_empty() {
            assert_eq!(parts.code, code);
        }
        if !message.is_empty() {
            assert_eq!(parts.message, message);
        }
    }
}

#[test]
fn internal_details_are_never_sent() {
    let parts = ApiError::Internal("password hash of bob".to_string()).response_parts();
    assert!(!parts.message.contains("bob"));
}

#[test]
fn record_errors_map_to_client_or_server_faults() {
    match record_error(RecordError::Invalid("no name".to_string())) {
        ApiError::BadRequest(m) => assert_eq!(m, "no name"),
        other => panic!("unexpected {other:?}"),
    }
    match record_error(RecordError::Db("locked".to_string())) {
        ApiError::Internal(m) => assert_eq!(m, "locked"),
        other => panic!("unexpected {other:?}"),
    }
}

#[test]
fn unique_violations_name_the_taken_column() {
    assert!(matches!(
        map_user_unique_violation("UNIQUE constraint failed: users.email"),
        ApiError::EmailTaken
    ));
    assert!(matches!(
        map_user_unique_violation("UNIQUE constraint failed: users.username"),
        ApiError::UsernameTaken
    ));
    assert!(matches!(map_user_unique_violation("disk I/O error"), ApiError::Internal(_)));
    assert!(matches!(map_fk_conflict(true, "FOREIGN KEY constraint failed"), ApiError::BadRequest(_)));
    assert!(matches!(map_fk_conflict(false, "busy"), ApiError::Internal(_)));
}

#[test]
fn password_policy_counts_bytes() {
    assert!(validate_password("12345678").is_ok());
    match validate_password("1234567") {
        Err(ApiError::BadRequest(m)) => assert_eq!(m, "password must be at least 8 characters"),
        other => panic!("unexpected {other:?}"),
    }
    // The policy counts characters, not bytes.
    assert!(validate_password("éééé").is_err());
    assert!(validate_password("éééééééé").is_ok());
}

#[test]
fn new_user_checks_in_order() {
    assert!(validate_new_user("alice", "alice@example.com", "correct horse").is_ok());
    match validate_new_user("   ", "nope", "x") {
        Err(ApiError::BadRequest(m)) => assert_eq!(m, "username must not be empty"),
        other => panic!("unexpected {other:?}"),
    }
    match validate_new_user("alice", "alice.example.com", "x") {
        Err(ApiError::BadRequest(m)) => assert_eq!(m, "email must be a valid address"),
        other => panic!("unexpected {other:?}"),
    }
    match validate_new_user("alice", "a@b", "short") {
        Err(ApiError::BadRequest(m)) => assert_eq!(m, "password must be at least 8 characters"),
        other => panic!("unexpected {other:?}"),
    }
}

#[test]
fn bearer_token_takes_the_rest_of_the_header() {
    assert_eq!(bearer_token(Some("Bearer abc123")), Some("abc123".to_string()));
    assert_eq!(bearer_token(Some("Bearer ")), Some(String::new()));
    assert_eq!(bearer_token(Some("bearer abc")), None);
    assert_eq!(bearer_token(Some("Basic abc")), None);
    assert_eq!(bearer_token(None), None);
}

fn row(uuid: &str, expires: Option<i64>) -> SessionRow {
    SessionRow {
        user_uuid: uuid.to_string(),
        username: "alice".to_string(),
        email: "alice@example.com".to_string(),
        admin: false,
        expires_at_micros: expires,
    }
}

#[test]
fn sessions_resolve_unless_missing_or_expired() {
    let now = 1_000_000;
    let u = resolve_session(Some(row("6F9619FF-8B86-D011-B42D-00C04FC964FF", None)), now).unwrap();
    // The stored uuid comes back in canonical (lower-case) form.
    assert_eq!(u.uuid, "6f9619ff-8b86-d011-b42d-00c04fc964ff");
    assert_eq!(u.username, "alice");
    assert!(resolve_session(Some(row("6f9619ff-8b86-d011-b42d-00c04fc964ff", Some(now))), now).is_ok());
    assert!(matches!(
        resolve_session(Some(row("6f9619ff-8b86-d011-b42d-00c04fc964ff", Some(now - 1))), now),
        Err(ApiError::Unauthorized)
    ));
    assert!(matches!(resolve_session(None, now), Err(ApiError::Unauthorized)));
    assert!(matches!(resolve_session(Some(row("not-a-uuid", None)), now), Err(ApiError::Internal(_))));
}

#[test]
fn admin_gate() {
    assert!(require_admin(user("u", true)).is_ok());
    assert!(matches!(require_admin(user("u", false)), Err(ApiError::Forbidden)));
}

#[test]
fn parse_uuid_canonicalizes() {
    assert_eq!(
        parse_uuid("67E55044-10B1-426F-9247-BB680E5FE0C8").unwrap(),
        "67e55044-10b1-426f-9247-bb680e5fe0c8"
    );
    assert_eq!(
        parse_uuid("67e5504410b1426f9247bb680e5fe0c8").unwrap(),
        "67e55044-10b1-426f-9247-bb680e5fe0c8"
    );
    assert!(matches!(parse_uuid("67e55044"), Err(ApiError::Internal(_))));
}

#[test]
fn a_stored_hash_accepts_its_password_only() {
    let h = hash_password("correct horse battery").unwrap();
    assert!(h.starts_with("$argon2"));
    assert_eq!(verify_password("correct horse battery", &h).unwrap(), true);
    assert_eq!(verify_password("wrong password", &h).unwrap(), false);
    assert!(matches!(verify_password("x", "not a phc string"), Err(ApiError::Internal(_))));
}

#[test]
fn join_code_gate() {
    assert!(check_join_code("AbC123-xYz789-Q1w2E3", "AbC123-xYz789-Q1w2E3").is_ok());
    assert!(matches!(check_join_code("abc123-xyz789-q1w2e3", "AbC123-xYz789-Q1w2E3"), Err(ApiError::InvalidJoinCode)));
}

#[test]
fn login_answers_the_same_for_unknown_user_and_wrong_password() {
    let h = hash_password("hunter2hunter2").unwrap();
    assert!(login_verdict("hunter2hunter2", Some(&h)).is_ok());
    assert!(matches!(login_verdict("wrong", Some(&h)), Err(ApiError::InvalidCredentials)));
    assert!(matches!(login_verdict("hunter2hunter2", None), Err(ApiError::InvalidCredentials)));
    assert!(matches!(login_verdict("x", Some("garbage")), Err(ApiError::Internal(_))));
    assert!(check_current_password("hunter2hunter2", &h).is_ok());
    match check_current_password("nope", &h) {
        Err(ApiError::BadRequest(m)) => assert_eq!(m, "current password is incorrect"),
        other => panic!("unexpected {other:?}"),
    }
}
