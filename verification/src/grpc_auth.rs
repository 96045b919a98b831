//! Bearer-token authentication attached to every outbound call.
//!
//! The interceptor holds one static token for the client's lifetime; a
//! token cannot be rotated without reconstructing the client. When the
//! token is empty no credential header is attached at all, which supports
//! unauthenticated local deployments.

use vstd::prelude::*;

verus! {

/// Computes the credential header attached to outbound calls.
#[derive(Debug, Clone)]
pub struct AuthInterceptor {
    token: String,
}

impl AuthInterceptor {
    /// The preshared token this interceptor was built with.
    pub closed spec fn spec_token(&self) -> Seq<char> {
        self.token@
    }

    /// Builds an interceptor around the given preshared token.
    pub fn new(token: String) -> (r: Self)
        ensures
            r.spec_token() == token@,
    {
        AuthInterceptor { token }
    }

    /// The value of the `authorization` header for one outbound call:
    /// `"Bearer "` followed by the token, or no header at all when the
    /// token is empty.
    pub fn header_value(&self) -> (r: Option<String>)
        ensures
            r is None <==> self.spec_token().len() == 0,
            r matches Some(h) ==> h@ == "Bearer "@ + self.spec_token(),
    {
        if self.token.as_str().is_empty() {
            None
        } else {
            Some(String::from_str("Bearer ").concat(self.token.as_str()))
        }
    }
}

} // verus!
