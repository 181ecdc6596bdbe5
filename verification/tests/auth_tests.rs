use lightweight_charts_backend::auth::{bearer_token, Claims, TOKEN_EXPIRATION_SECS};
use lightweight_charts_backend::routes::auth::check_credentials;
use lightweight_charts_backend::routes::{AuthError, LoginRequest, LoginResponse};

#[test]
fn claims_expire_a_day_after_issue() {
    let c = Claims::issued_at("user123".to_string(), 1_000);
    assert_eq!(c.sub, "user123");
    assert_eq!(c.user_id, "user123");
    assert_eq!(c.iat, 1_000);
    assert_eq!(c.exp, 1_000 + 86_400);
    assert!(!c.is_expired_at(1_000));
    assert!(!c.is_expired_at(87_400));
    assert!(c.is_expired_at(87_401));
    assert_eq!(TOKEN_EXPIRATION_SECS, 86_400);
}

#[test]
fn fresh_claims_are_not_expired() {
    let c = Claims::new("alice".to_string());
    assert_eq!(c.user_id, "alice");
    assert_eq!(c.exp, c.iat + TOKEN_EXPIRATION_SECS);
    assert!(!c.is_expired());
    assert!(c.iat > 1_600_000_000);
}

#[test]
fn expiry_wraps_like_release_arithmetic() {
    let c = Claims::issued_at("u".to_string(), u64::MAX);
    assert_eq!(c.exp, 86_399);
}

#[test]
fn bearer_token_is_taken_after_prefix() {
    assert_eq!(bearer_token("Bearer abc.def"), Some("abc.def".to_string()));
    assert_eq!(bearer_token("Bearer "), Some(String::new()));
    assert_eq!(bearer_token("bearer abc"), None);
    assert_eq!(bearer_token("Basic abc"), None);
    assert_eq!(bearer_token("Bear"), None);
}

#[test]
fn only_admin_password_is_accepted() {
    let ok = LoginRequest { username: "bob".to_string(), password: "admin".to_string() };
    let bad = LoginRequest { username: "admin".to_string(), password: "Admin".to_string() };
    assert!(check_credentials(&ok));
    assert!(!check_credentials(&bad));
}

#[test]
fn login_answers() {
    let r = LoginResponse::for_token("tok".to_string());
    assert_eq!(r.token, "tok");
    assert_eq!(r.expires_in, 86_400);
    assert_eq!(AuthError::invalid_credentials().error, "Invalid credentials");
    assert_eq!(AuthError::token_failure("bad key").error, "Failed to create token: bad key");
}
