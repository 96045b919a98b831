//! Error model of the HTTP layer and the bearer-token extraction its
//! authentication middleware performs.
//!
//! The middleware resolves a bearer token out of the `authorization`
//! header before any permission check happens; the extraction itself is a
//! pure string decision and lives here. Turning these errors into HTTP
//! responses is left to the surrounding application.

use crate::text::{spec_decimal, spec_starts_with, str_starts_with, u16_to_string};
use vstd::prelude::*;

verus! {

/// Errors surfaced by API handlers.
#[derive(Debug, Clone)]
pub enum ApiError {
    Unknown { message: String },
    TokenNotFound,
    InvalidToken { message: String },
}

/// The JSON body every failed API call answers with.
#[derive(Debug, Clone)]
pub struct ApiErrorResponse {
    pub code: String,
    pub status: u16,
    pub message: String,
}

impl ApiError {
    /// The human-readable diagnostic for this error.
    pub fn message(&self) -> (r: String)
        ensures
            self matches ApiError::Unknown { message } ==> r@ == "unknown error occurred: "@
                + message@,
            self is TokenNotFound ==> r@ == "token not found"@,
            self matches ApiError::InvalidToken { message } ==> r@ == "invalid token: "@
                + message@,
    {
        match self {
            ApiError::Unknown { message } => String::from_str("unknown error occurred: ").concat(
                message.as_str(),
            ),
            ApiError::TokenNotFound => String::from_str("token not found"),
            ApiError::InvalidToken { message } => String::from_str("invalid token: ").concat(
                message.as_str(),
            ),
        }
    }

    /// The response body the error maps to: an unknown error answers as an
    /// internal server error, both token errors answer as unauthorized,
    /// and only the invalid-token message passes through verbatim.
    pub fn to_error_response(&self) -> (r: ApiErrorResponse)
        ensures
            self matches ApiError::Unknown { message } ==> r.code@ == "E_INTERNAL_SERVER_ERROR"@
                && r.status == 500 && r.message@ == "internal server error: "@ + message@,
            self is TokenNotFound ==> r.code@ == "E_UNAUTHORIZED"@ && r.status == 401
                && r.message@ == "token not found"@,
            self matches ApiError::InvalidToken { message } ==> r.code@ == "E_UNAUTHORIZED"@
                && r.status == 401 && r.message@ == message@,
    {
        match self {
            ApiError::Unknown { message } => ApiErrorResponse {
                code: String::from_str("E_INTERNAL_SERVER_ERROR"),
                status: 500,
                message: String::from_str("internal server error: ").concat(message.as_str()),
            },
            ApiError::TokenNotFound => ApiErrorResponse {
                code: String::from_str("E_UNAUTHORIZED"),
                status: 401,
                message: String::from_str("token not found"),
            },
            ApiError::InvalidToken { message } => ApiErrorResponse {
                code: String::from_str("E_UNAUTHORIZED"),
                status: 401,
                message: message.clone(),
            },
        }
    }
}

/// Errors of the authentication middleware. A failed identification
/// carries the collaborator's diagnostic text.
#[derive(Debug, Clone)]
pub enum MiddlewareError {
    MissingAuthHeader,
    InvalidAuthHeader,
    AuthenticationFailed(String),
}

impl MiddlewareError {
    /// The HTTP status the middleware answers with: every variant reads as
    /// unauthorized.
    pub fn status_code(&self) -> (r: u16)
        ensures
            r == 401,
    {
        match self {
            MiddlewareError::MissingAuthHeader => 401,
            MiddlewareError::InvalidAuthHeader => 401,
            MiddlewareError::AuthenticationFailed(_) => 401,
        }
    }
}

/// Resolves the bearer token out of an `authorization` header value: the
/// text after the `"Bearer "` prefix, or nothing when the prefix is
/// missing.
pub fn extract_token_from_bearer(auth_str: &str) -> (r: Option<String>)
    ensures
        spec_starts_with(auth_str@, "Bearer "@) ==> (r matches Some(t) && t@ == auth_str@.skip(
            "Bearer "@.len() as int,
        )),
        !spec_starts_with(auth_str@, "Bearer "@) ==> r is None,
{
    if !str_starts_with(auth_str, "Bearer ") {
        return None;
    }
    proof {
        reveal_strlit("Bearer ");
    }
    let n = auth_str.unicode_len();
    Some(String::from_str(auth_str.substring_char(7, n)))
}

/// The text the server resolves its listening address from: the host and
/// the decimal port, joined by a colon. Resolving that text to socket
/// addresses is outside work the surrounding application performs.
pub fn socket_addr_string(host: &str, port: u16) -> (r: String)
    ensures
        r@ == host@ + ":"@ + spec_decimal(port as nat),
{
    String::from_str(host).concat(":").concat(u16_to_string(port).as_str())
}

} // verus!
