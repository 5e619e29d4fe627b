//! Principals, token-validation outcomes, and the per-request context
//! that carries an authenticated identity to a handler.

use vstd::prelude::*;

verus! {

/// The authenticated identity resolved from a bearer token: a user id and
/// an optional role. It lives for one request and is never persisted.
pub struct Principal {
    pub user_id: String,
    pub role: Option<u32>,
}

/// What the token service said about the bearer token of a request: a
/// principal, or a failure (missing, invalid or expired token).
pub enum TokenOutcome {
    Valid(Principal),
    Invalid,
}

/// The typed per-request context handed to a handler. A protected route
/// reaches its handler only with a principal present; an open route
/// carries none.
pub struct RequestContext {
    pub principal: Option<Principal>,
}

} // verus!
