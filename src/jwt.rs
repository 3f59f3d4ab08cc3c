//! The calls into `jsonwebtoken` that token verification relies on.

use vstd::prelude::*;
use crate::text::last_dot;
use crate::token::RawClaims;
use jsonwebtoken::{Algorithm as A, DecodingKey, Validation};
use serde_json::Value;

verus! {

/// What `jsonwebtoken::decode_header` reads from `token`: the header's
/// algorithm and key identifier; `None` when the header cannot be decoded.
pub uninterp spec fn header_of(token: Seq<char>) -> Option<(Alg, Option<Seq<char>>)>;

/// What `jsonwebtoken::decode` yields as the claims `sub`, `exp`, `nbf`, `azp`
/// of `token` with signature and claim validation switched off; `None` when
/// the token's header or payload cannot be decoded.
pub uninterp spec fn payload_of(token: Seq<char>) -> Option<
    (Option<Seq<char>>, Option<u64>, Option<u64>, Option<Seq<char>>),
>;

/// Whether `jsonwebtoken::crypto::verify` accepts `signature` over `message` as
/// an RS256 signature by the RSA public key with base64url modulus `n` and
/// exponent `e` (false too when either cannot be decoded).
pub uninterp spec fn rs256_verifies(
    signature: Seq<char>,
    message: Seq<char>,
    n: Seq<char>,
    e: Seq<char>,
) -> bool;

/// The signing algorithms a token header can name.
#[derive(Clone, Copy, Debug, PartialEq, Eq, Structural)]
pub enum Alg {
    HS256,
    HS384,
    HS512,
    ES256,
    ES384,
    RS256,
    RS384,
    RS512,
    PS256,
    PS384,
    PS512,
    EdDSA,
}

/// The unverified header of a compact token.
pub struct TokenHeader {
    pub alg: Alg,
    pub kid: Option<String>,
}

/// Relies on jsonwebtoken::decode_header: it splits the token and decodes its
/// header, a function of the token's text alone.
#[verifier::external_body]
pub(crate) fn read_header(token: &str) -> (r: Option<TokenHeader>)
    ensures
        match r {
            Some(h) => header_of(token@) == Some((h.alg, h.kid.deep_view())),
            None => header_of(token@) is None,
        },
{
    let h = jsonwebtoken::decode_header(token).ok()?;
    let alg = match h.alg {
        A::HS256 => Alg::HS256, A::HS384 => Alg::HS384, A::HS512 => Alg::HS512,
        A::ES256 => Alg::ES256, A::ES384 => Alg::ES384, A::EdDSA => Alg::EdDSA,
        A::RS256 => Alg::RS256, A::RS384 => Alg::RS384, A::RS512 => Alg::RS512,
        A::PS256 => Alg::PS256, A::PS384 => Alg::PS384, A::PS512 => Alg::PS512,
    };
    Some(TokenHeader { alg, kid: h.kid })
}

/// Relies on jsonwebtoken::decode into a serde_json::Value with the signature
/// check and every claim check switched off (so no clock is read): the claims
/// then depend on the token's text alone. A claim of another JSON type counts
/// as absent.
#[verifier::external_body]
pub(crate) fn read_payload(token: &str) -> (r: Option<RawClaims>)
    ensures
        match r {
            Some(c) => payload_of(token@) == Some(
                (c.sub.deep_view(), c.exp, c.nbf, c.azp.deep_view()),
            ),
            None => payload_of(token@) is None,
        },
{
    let mut v = Validation::new(A::RS256);
    v.insecure_disable_signature_validation();
    v.validate_exp = false;
    v.validate_aud = false;
    v.required_spec_claims.clear();
    let c = jsonwebtoken::decode::<Value>(token, &DecodingKey::from_secret(&[]), &v).ok()?.claims;
    let (sub, azp) = (c["sub"].as_str().map(String::from), c["azp"].as_str().map(String::from));
    Some(RawClaims { sub, exp: c["exp"].as_u64(), nbf: c["nbf"].as_u64(), azp })
}

/// Relies on jsonwebtoken::crypto::verify with Algorithm::RS256, over the key
/// that DecodingKey::from_rsa_components builds from `n` and `e`; a key or
/// signature that does not decode counts as not verified.
#[verifier::external_body]
fn rs256_check(signature: &str, message: &str, n: &str, e: &str) -> (r: bool)
    ensures
        r == rs256_verifies(signature@, message@, n@, e@),
{
    match DecodingKey::from_rsa_components(n, e) {
        Ok(key) => matches!(
            jsonwebtoken::crypto::verify(signature, message.as_bytes(), &key, A::RS256),
            Ok(true)
        ),
        Err(_) => false,
    }
}

/// Whether `token`'s signature part verifies over its signed part under the
/// RSA key `(n, e)`.
pub open spec fn token_signed_by(token: Seq<char>, n: Seq<char>, e: Seq<char>) -> bool {
    let i = last_dot(token);
    i >= 0 && rs256_verifies(token.subrange(i + 1, token.len() as int), token.subrange(0, i), n, e)
}

/// Checks the RS256 signature of a compact token against an RSA public key.
pub fn check_token_signature(token: &str, n: &str, e: &str) -> (r: bool)
    ensures
        r == token_signed_by(token@, n@, e@),
{
    proof {
        crate::text::lemma_last_dot_bounds(token@);
    }
    match crate::text::find_last_dot(token) {
        None => false,
        Some(i) => {
            let len = token.unicode_len();
            let message = token.substring_char(0, i);
            let signature = token.substring_char(i + 1, len);
            rs256_check(signature, message, n, e)
        },
    }
}

} // verus!
