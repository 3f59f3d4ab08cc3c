//! Why a request failed to authenticate, and the status each failure maps to.

use vstd::prelude::*;

verus! {

pub const STATUS_UNAUTHORIZED: u16 = 401;

pub const STATUS_INTERNAL_ERROR: u16 = 500;

#[derive(Clone, Copy, Debug, PartialEq, Eq, Structural)]
pub enum AuthError {
    /// No `Authorization` header, or one not of the form `Bearer <token>`.
    AuthMissing,
    /// A trusted identity header is absent.
    IdentityHeadersMissing,
    /// The token's header or payload cannot be decoded, or it names no key.
    MalformedToken,
    /// The header names an algorithm other than RS256.
    UnsupportedAlgorithm,
    /// The signature does not verify under the resolved key.
    BadSignature,
    /// One of `sub`, `exp`, `nbf`, `azp` is absent.
    MissingClaim,
    /// `azp` differs from the configured audience.
    AudienceMismatch,
    /// `exp` is not after the current time.
    Expired,
    /// `nbf` is after the current time.
    NotYetValid,
    /// The current key set holds no key with the token's `kid`.
    KeyNotFound,
    /// The key set could not be fetched or parsed.
    KeyFetchError,
    /// A required configuration value is absent.
    ConfigMissing,
}

impl AuthError {
    /// Operator or infrastructure faults, as opposed to a bad credential.
    pub open spec fn is_infrastructure_spec(self) -> bool {
        self == AuthError::KeyFetchError || self == AuthError::ConfigMissing
    }

    pub fn is_infrastructure(&self) -> (r: bool)
        ensures
            r == self.is_infrastructure_spec(),
    {
        match self {
            AuthError::KeyFetchError | AuthError::ConfigMissing => true,
            _ => false,
        }
    }

    /// The HTTP status a request rejected for this reason receives.
    pub fn status(&self) -> (r: u16)
        ensures
            self.is_infrastructure_spec() ==> r == STATUS_INTERNAL_ERROR,
            !self.is_infrastructure_spec() ==> r == STATUS_UNAUTHORIZED,
    {
        if self.is_infrastructure() {
            STATUS_INTERNAL_ERROR
        } else {
            STATUS_UNAUTHORIZED
        }
    }
}

} // verus!
