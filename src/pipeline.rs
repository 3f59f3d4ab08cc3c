//! The per-request decisions of the gateway: the bypass path, the trusted
//! identity headers, the bearer token, and forwarding or rejecting.
//!
//! The identity headers are trusted as set by an upstream proxy; their
//! presence is required here, their authenticity is not checked.

use vstd::prelude::*;
use crate::error::AuthError;
use crate::text::{has_prefix, same_text};
use crate::token::BearerClaims;

verus! {

/// The one path that skips identity and bearer checks, matched exactly.
pub const BYPASS_PATH: &'static str = "/staging_login";

pub const BEARER_PREFIX: &'static str = "Bearer ";

/// The identity attached to a request for its handler.
pub struct UserContext {
    pub user_id: String,
    pub email: String,
}

/// What the pipeline reads of a request: its path and the relevant headers,
/// each `None` when absent or not valid text.
pub struct RequestHeaders {
    pub path: String,
    /// `Authorization`.
    pub authorization: Option<String>,
    /// `X-User-Id`.
    pub user_id: Option<String>,
    /// `X-User-Email`.
    pub email: Option<String>,
    /// `X-User-Authorization`, the session credential.
    pub session: Option<String>,
}

/// Where a request stands once its headers have been read.
pub enum Gate {
    /// The bypass path: forward with no identity.
    Bypass,
    /// Rejected before any verification.
    Reject(AuthError),
    /// The bearer token must be verified; `user` is attached if it passes.
    Verify { user: UserContext, token: String },
}

/// The token of an `Authorization` value of the form `Bearer <token>`.
pub open spec fn bearer_of(v: Seq<char>) -> Option<Seq<char>> {
    let p = BEARER_PREFIX@;
    if p.len() <= v.len() && v.subrange(0, p.len() as int) == p {
        Some(v.subrange(p.len() as int, v.len() as int))
    } else {
        None
    }
}

/// Extracts the token from an `Authorization` value.
pub fn bearer_token(v: &str) -> (r: Option<String>)
    ensures
        match r {
            Some(t) => bearer_of(v@) == Some(t@),
            None => bearer_of(v@) is None,
        },
{
    if !has_prefix(v, BEARER_PREFIX) {
        return None;
    }
    let start = BEARER_PREFIX.unicode_len();
    let end = v.unicode_len();
    Some(String::from_str(v.substring_char(start, end)))
}

/// Reads a request's headers: the bypass path first, then both identity
/// headers, then the bearer token.
pub fn screen(req: &RequestHeaders) -> (r: Gate)
    ensures
        req.path@ == BYPASS_PATH@ ==> r is Bypass,
        req.path@ != BYPASS_PATH@ && (req.user_id is None || req.email is None) ==> r
            == Gate::Reject(AuthError::IdentityHeadersMissing),
        req.path@ != BYPASS_PATH@ && req.user_id is Some && req.email is Some && (
        req.authorization is None || bearer_of(req.authorization.unwrap()@) is None) ==> r
            == Gate::Reject(AuthError::AuthMissing),
        req.path@ != BYPASS_PATH@ && req.user_id is Some && req.email is Some
            && req.authorization is Some && bearer_of(req.authorization.unwrap()@) is Some ==> (
        r matches Gate::Verify { user, token } && user.user_id@ == req.user_id.unwrap()@
            && user.email@ == req.email.unwrap()@ && Some(token@) == bearer_of(
            req.authorization.unwrap()@,
        )),
{
    if same_text(req.path.as_str(), BYPASS_PATH) {
        return Gate::Bypass;
    }
    let (user_id, email) = match (&req.user_id, &req.email) {
        (Some(u), Some(e)) => (u, e),
        _ => return Gate::Reject(AuthError::IdentityHeadersMissing),
    };
    let token = match &req.authorization {
        None => return Gate::Reject(AuthError::AuthMissing),
        Some(v) => match bearer_token(v.as_str()) {
            None => return Gate::Reject(AuthError::AuthMissing),
            Some(t) => t,
        },
    };
    Gate::Verify { user: UserContext { user_id: user_id.clone(), email: email.clone() }, token }
}

/// Whether the handler runs, and with which identity.
pub enum Decision {
    Forward(Option<UserContext>),
    Reject(AuthError),
}

impl Decision {
    /// The status of a rejected request; `None` when the request is forwarded.
    pub fn status(&self) -> (r: Option<u16>)
        ensures
            match self {
                Decision::Forward(_) => r is None,
                Decision::Reject(e) => r == Some(
                    if e.is_infrastructure_spec() {
                        crate::error::STATUS_INTERNAL_ERROR
                    } else {
                        crate::error::STATUS_UNAUTHORIZED
                    },
                ),
            },
    {
        match self {
            Decision::Forward(_) => None,
            Decision::Reject(e) => Some(e.status()),
        }
    }
}

/// Completes a request that passed its headers: forwarded with `user` when the
/// bearer token verified, rejected with the verifier's error otherwise.
pub fn after_verification(user: UserContext, outcome: Result<BearerClaims, AuthError>) -> (r:
    Decision)
    ensures
        outcome is Ok ==> r == Decision::Forward(Some(user)),
        outcome matches Err(e) ==> r == Decision::Reject(e),
{
    match outcome {
        Ok(_) => Decision::Forward(Some(user)),
        Err(e) => Decision::Reject(e),
    }
}

/// The decision for a request that never reaches verification.
pub fn without_verification(gate: Gate) -> (r: Option<Decision>)
    ensures
        gate is Bypass ==> r == Some(Decision::Forward(None)),
        gate matches Gate::Reject(e) ==> r == Some(Decision::Reject(e)),
        gate is Verify ==> r is None,
{
    match gate {
        Gate::Bypass => Some(Decision::Forward(None)),
        Gate::Reject(e) => Some(Decision::Reject(e)),
        Gate::Verify { .. } => None,
    }
}

} // verus!
