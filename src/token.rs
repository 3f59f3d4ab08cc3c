//! Verification of a bearer token: header, algorithm, key, claims, validity
//! window, signature and audience, in that order.

use vstd::prelude::*;
use crate::error::AuthError;
use crate::jwt::{header_of, payload_of, token_signed_by, check_token_signature, read_header, read_payload, Alg};
use crate::keys::{find_key_spec, KeyView, SigningKeySet};

verus! {

/// A token's claims as its payload decodes, before any check; a claim is
/// present only if the payload gave it with the right JSON type.
pub struct RawClaims {
    pub sub: Option<String>,
    pub exp: Option<u64>,
    pub nbf: Option<u64>,
    pub azp: Option<String>,
}

/// The claims of a verified token.
pub struct BearerClaims {
    pub sub: String,
    pub exp: u64,
    pub nbf: u64,
    pub azp: String,
}

pub ghost struct BearerView {
    pub sub: Seq<char>,
    pub exp: u64,
    pub nbf: u64,
    pub azp: Seq<char>,
}

impl View for BearerClaims {
    type V = BearerView;

    open spec fn view(&self) -> BearerView {
        BearerView { sub: self.sub@, exp: self.exp, nbf: self.nbf, azp: self.azp@ }
    }
}

/// Decoded claims `(sub, exp, nbf, azp)`, each present or not.
pub open spec fn claims_complete(
    c: (Option<Seq<char>>, Option<u64>, Option<u64>, Option<Seq<char>>),
) -> bool {
    c.0 is Some && c.1 is Some && c.2 is Some && c.3 is Some
}

/// The key identifier to look up for `token`, once its header decodes, names a
/// key and allows RS256 only.
pub open spec fn key_id_spec(token: Seq<char>) -> Result<Seq<char>, AuthError> {
    match header_of(token) {
        None => Err(AuthError::MalformedToken),
        Some((alg, kid)) => if kid is None {
            Err(AuthError::MalformedToken)
        } else if alg != Alg::RS256 {
            Err(AuthError::UnsupportedAlgorithm)
        } else {
            Ok(kid.unwrap())
        },
    }
}

/// The outcome of verifying `token` against `keys`, for `audience` at time
/// `now` in seconds.
pub open spec fn verify_spec(
    token: Seq<char>,
    audience: Seq<char>,
    now: u64,
    keys: Seq<KeyView>,
) -> Result<BearerView, AuthError> {
    match key_id_spec(token) {
        Err(e) => Err(e),
        Ok(kid) => match find_key_spec(keys, kid) {
            None => Err(AuthError::KeyNotFound),
            Some(key) => match payload_of(token) {
                None => Err(AuthError::MalformedToken),
                Some(c) => if !claims_complete(c) {
                    Err(AuthError::MissingClaim)
                } else if c.1.unwrap() <= now {
                    Err(AuthError::Expired)
                } else if c.2.unwrap() > now {
                    Err(AuthError::NotYetValid)
                } else if !token_signed_by(token, key.n, key.e) {
                    Err(AuthError::BadSignature)
                } else if c.3.unwrap() != audience {
                    Err(AuthError::AudienceMismatch)
                } else {
                    Ok(
                        BearerView {
                            sub: c.0.unwrap(),
                            exp: c.1.unwrap(),
                            nbf: c.2.unwrap(),
                            azp: c.3.unwrap(),
                        },
                    )
                },
            },
        },
    }
}

/// Reads the header of `token` and returns the key identifier to resolve. A
/// token whose header does not decode, names no key, or names an algorithm
/// other than RS256 fails here, before any key is looked up or fetched.
pub fn key_id_of(token: &str) -> (r: Result<String, AuthError>)
    ensures
        r matches Ok(k) ==> key_id_spec(token@) == Ok::<Seq<char>, AuthError>(k@),
        r matches Err(e) ==> key_id_spec(token@) == Err::<Seq<char>, AuthError>(e),
{
    let header = match read_header(token) {
        None => return Err(AuthError::MalformedToken),
        Some(h) => h,
    };
    let kid = match header.kid {
        None => return Err(AuthError::MalformedToken),
        Some(k) => k,
    };
    if header.alg != Alg::RS256 {
        return Err(AuthError::UnsupportedAlgorithm);
    }
    Ok(kid)
}

/// Verifies `token` against the key set `keys` for `audience` at `now`, in
/// seconds. The validity window is checked before the signature, so an
/// expired or premature token is reported as such whether or not its
/// signature holds.
pub fn verify_token(token: &str, audience: &str, now: u64, keys: &SigningKeySet) -> (r: Result<
    BearerClaims,
    AuthError,
>)
    ensures
        r matches Ok(c) ==> verify_spec(token@, audience@, now, keys@) == Ok::<
            BearerView,
            AuthError,
        >(c@),
        r matches Err(e) ==> verify_spec(token@, audience@, now, keys@) == Err::<
            BearerView,
            AuthError,
        >(e),
{
    let kid = match key_id_of(token) {
        Err(e) => return Err(e),
        Ok(k) => k,
    };
    let key = match keys.find(&kid) {
        None => return Err(AuthError::KeyNotFound),
        Some(k) => k,
    };
    let claims = match read_payload(token) {
        None => return Err(AuthError::MalformedToken),
        Some(c) => c,
    };
    match (claims.sub, claims.exp, claims.nbf, claims.azp) {
        (Some(sub), Some(exp), Some(nbf), Some(azp)) => {
            if exp <= now {
                return Err(AuthError::Expired);
            }
            if nbf > now {
                return Err(AuthError::NotYetValid);
            }
            if !check_token_signature(token, key.n.as_str(), key.e.as_str()) {
                return Err(AuthError::BadSignature);
            }
            if !crate::text::same_text(azp.as_str(), audience) {
                return Err(AuthError::AudienceMismatch);
            }
            Ok(BearerClaims { sub, exp, nbf, azp })
        },
        _ => Err(AuthError::MissingClaim),
    }
}

} // verus!
