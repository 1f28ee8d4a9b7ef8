//! The bearer-token presence check. It is a stub on purpose: it verifies
//! only that a non-empty token was presented and provides no actual trust
//! guarantee.

use vstd::prelude::*;
use vstd::string::*;

use crate::context::{bearer_of, header_lookup, RequestContext};
use crate::error::McpError;

verus! {

/// OAuth 2.0 client configuration.
#[derive(Debug, Clone, PartialEq, Eq)]
pub struct OAuthConfig {
    pub client_id: String,
    pub client_secret: String,
}

/// The bearer token of a context, as the lookup specs define it.
pub open spec fn context_bearer(ctx: RequestContext) -> Option<Seq<char>> {
    match header_lookup(ctx.headers@, "authorization"@) {
        Some(auth) => bearer_of(auth),
        None => None,
    }
}

impl OAuthConfig {
    /// The presence-only token check: authentication-required when no
    /// bearer token was presented, authorization-failed when the token is
    /// empty, and success on exactly the contexts carrying a non-empty
    /// bearer token.
    pub fn validate_token(&self, ctx: &RequestContext) -> (r: Result<(), McpError>)
        ensures
            match context_bearer(*ctx) {
                None => r matches Err(e) && e@ == crate::error::McpErrData::AuthRequired,
                Some(token) => if token.len() == 0 {
                    r matches Err(e) && e@ == crate::error::McpErrData::AuthFailed(
                        "Invalid token"@,
                    )
                } else {
                    r is Ok
                },
            },
    {
        let token = match ctx.get_bearer_token() {
            Some(t) => t,
            None => {
                return Err(McpError::AuthenticationRequired);
            },
        };
        if token.as_str().unicode_len() == 0 {
            return Err(McpError::AuthorizationFailed("Invalid token".to_owned()));
        }
        Ok(())
    }
}

} // verus!
