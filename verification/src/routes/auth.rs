use vstd::prelude::*;
use crate::auth::TOKEN_EXPIRATION_SECS;
use crate::text::str_eq;

verus! {

/// A request for a token.
#[derive(Debug)]
pub struct LoginRequest {
    pub username: String,
    pub password: String,
}

/// A token and how many seconds it stays valid.
#[derive(Debug)]
pub struct LoginResponse {
    pub token: String,
    pub expires_in: u64,
}

/// Why no token was given.
#[derive(Debug)]
pub struct AuthError {
    pub error: String,
}

/// Whether a login request is accepted: any user whose password is `admin`.
pub open spec fn accepts(req: LoginRequest) -> bool {
    req.password@ == "admin"@
}

/// Checks the credentials of a login request.
pub fn check_credentials(req: &LoginRequest) -> (ok: bool)
    ensures
        ok == accepts(*req),
{
    str_eq(req.password.as_str(), "admin")
}

impl LoginResponse {
    /// The answer carrying a freshly made token, valid for a day.
    pub fn for_token(token: String) -> (r: Self)
        ensures
            r.token@ == token@,
            r.expires_in == TOKEN_EXPIRATION_SECS,
    {
        LoginResponse { token, expires_in: TOKEN_EXPIRATION_SECS }
    }
}

impl AuthError {
    /// The answer to a request whose credentials are refused.
    pub fn invalid_credentials() -> (e: Self)
        ensures
            e.error@ == "Invalid credentials"@,
    {
        AuthError { error: "Invalid credentials".to_string() }
    }

    /// The answer when the token could not be made, for the reason given.
    pub fn token_failure(reason: &str) -> (e: Self)
        ensures
            e.error@ == "Failed to create token: "@ + reason@,
    {
        let m = "Failed to create token: ".to_string();
        AuthError { error: m.concat(reason) }
    }
}

} // verus!
