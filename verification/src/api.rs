//! The data the coordinator exchanges at login, and the one decision made
//! on it: whether a response renews the stored session token. The HTTP
//! transport around these values is I/O and lives outside the library.

use vstd::prelude::*;

verus! {

/// Credentials sent to the coordinator's login endpoint.
pub struct LoginRequest {
    pub email: String,
    pub password: String,
}

/// What the login endpoint answers.
pub struct LoginResponse {
    pub success: bool,
    pub token: Option<String>,
    pub user: Option<serde_json::Value>,
    pub error: Option<String>,
}

/// The session token to hold after a login response: a token in the
/// response replaces the stored one, a response without one keeps it.
pub fn refreshed_token(current: Option<String>, response: &LoginResponse) -> (r: Option<String>)
    ensures
        response.token is Some ==> r == response.token,
        response.token is None ==> r == current,
{
    match &response.token {
        Some(t) => Some(t.clone()),
        None => current,
    }
}

} // verus!
