//! Properties of verification that hold for every token, key set and time.

use vstd::prelude::*;
use crate::error::AuthError;
use crate::jwt::{header_of, payload_of, token_signed_by, Alg};
use crate::keys::{find_key_spec, KeyView};
use crate::token::{claims_complete, verify_spec, BearerView};

verus! {

/// A token with an RS256 header naming an advertised key, signed by that key,
/// with `nbf <= now < exp` and `azp` equal to the audience, is accepted with
/// its own claims.
pub proof fn accepted_when_valid(
    token: Seq<char>,
    audience: Seq<char>,
    now: u64,
    keys: Seq<KeyView>,
    kid: Seq<char>,
    key: KeyView,
)
    requires
        header_of(token) == Some((Alg::RS256, Some(kid))),
        find_key_spec(keys, kid) == Some(key),
        token_signed_by(token, key.n, key.e),
        payload_of(token) matches Some(c) && claims_complete(c) && c.2.unwrap() <= now
            < c.1.unwrap() && c.3.unwrap() == audience,
    ensures
        payload_of(token) matches Some(c) && verify_spec(token, audience, now, keys) == Ok::<
            BearerView,
            AuthError,
        >(BearerView { sub: c.0.unwrap(), exp: c.1.unwrap(), nbf: c.2.unwrap(), azp: c.3.unwrap() }),
{
}

/// A token whose `exp` is not after `now` is rejected as expired, whether or
/// not its signature holds, once its header names an advertised RS256 key.
pub proof fn expired_rejected(
    token: Seq<char>,
    audience: Seq<char>,
    now: u64,
    keys: Seq<KeyView>,
    kid: Seq<char>,
)
    requires
        header_of(token) == Some((Alg::RS256, Some(kid))),
        find_key_spec(keys, kid) is Some,
        payload_of(token) matches Some(c) && claims_complete(c) && c.1.unwrap() <= now,
    ensures
        verify_spec(token, audience, now, keys) == Err::<BearerView, AuthError>(AuthError::Expired),
{
}

/// A token whose `nbf` is after `now` (and that is not already expired) is
/// rejected as not yet valid, once its header names an advertised RS256 key.
pub proof fn premature_rejected(
    token: Seq<char>,
    audience: Seq<char>,
    now: u64,
    keys: Seq<KeyView>,
    kid: Seq<char>,
)
    requires
        header_of(token) == Some((Alg::RS256, Some(kid))),
        find_key_spec(keys, kid) is Some,
        payload_of(token) matches Some(c) && claims_complete(c) && c.2.unwrap() > now
            && c.1.unwrap() > now,
    ensures
        verify_spec(token, audience, now, keys) == Err::<BearerView, AuthError>(
            AuthError::NotYetValid,
        ),
{
}

/// A well-formed RS256 token whose `kid` is absent from the key set is
/// rejected with `KeyNotFound`, whatever its payload.
pub proof fn unknown_key_rejected(
    token: Seq<char>,
    audience: Seq<char>,
    now: u64,
    keys: Seq<KeyView>,
    kid: Seq<char>,
)
    requires
        header_of(token) == Some((Alg::RS256, Some(kid))),
        find_key_spec(keys, kid) is None,
    ensures
        verify_spec(token, audience, now, keys) == Err::<BearerView, AuthError>(
            AuthError::KeyNotFound,
        ),
{
}

/// A token whose header names any algorithm but RS256 is rejected as such,
/// whatever the key set holds.
pub proof fn other_algorithms_rejected(
    token: Seq<char>,
    audience: Seq<char>,
    now: u64,
    keys: Seq<KeyView>,
    alg: Alg,
    kid: Seq<char>,
)
    requires
        header_of(token) == Some((alg, Some(kid))),
        alg != Alg::RS256,
    ensures
        verify_spec(token, audience, now, keys) == Err::<BearerView, AuthError>(
            AuthError::UnsupportedAlgorithm,
        ),
{
}

/// Verifying the same token twice against the same key-set snapshot gives the
/// same result both times: two outcomes that each meet the verifier's
/// contract on equal inputs are equal.
pub proof fn verification_repeatable(
    token: Seq<char>,
    audience: Seq<char>,
    now: u64,
    keys: Seq<KeyView>,
    first: Result<BearerView, AuthError>,
    second: Result<BearerView, AuthError>,
)
    requires
        first == verify_spec(token, audience, now, keys),
        second == verify_spec(token, audience, now, keys),
    ensures
        first == second,
{
}

/// A key set that lacks the token's `kid` is always refreshed before the
/// lookup fails.
pub proof fn missing_key_triggers_refresh(
    keys: Seq<KeyView>,
    fetched_at: Option<u64>,
    ttl: u64,
    kid: Seq<char>,
    now: u64,
)
    requires
        find_key_spec(keys, kid) is None,
    ensures
        crate::keys::refresh_due(keys, fetched_at, ttl, kid, now),
{
}

} // verus!
