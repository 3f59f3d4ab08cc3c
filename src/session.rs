//! Renewal of the application-issued session credential that travels in
//! `X-User-Authorization`.

use vstd::prelude::*;

verus! {

/// What a structurally valid session credential carries.
pub struct SessionClaims {
    pub user_id: String,
    pub plan: String,
    /// Expiry, in seconds since the epoch.
    pub exp: u64,
}

pub ghost struct SessionView {
    pub user_id: Seq<char>,
    pub plan: Seq<char>,
    pub exp: u64,
}

impl View for SessionClaims {
    type V = SessionView;

    open spec fn view(&self) -> SessionView {
        SessionView { user_id: self.user_id@, plan: self.plan@, exp: self.exp }
    }
}

/// Whether a credential expiring at `exp` has less than `threshold` seconds
/// left at `now`; its remaining lifetime `exp - now` is negative once expired.
pub open spec fn due_for_renewal(exp: u64, now: u64, threshold: u64) -> bool {
    exp - now < threshold
}

/// The expiry of a credential minted at `now` for `lifetime` seconds, held at
/// the largest timestamp.
pub open spec fn renewed_expiry(now: u64, lifetime: u64) -> u64 {
    if now + lifetime > u64::MAX { u64::MAX } else { (now + lifetime) as u64 }
}

/// Whether the response gets a fresh session credential, and with what claims.
pub enum RenewalDecision {
    NoAction,
    Renew(SessionClaims),
}

/// Decides on renewal for the credential presented with a request: `None`
/// when it was absent or its signature could not be established. A credential
/// that is due, expired ones included, is replaced by one with the same user
/// and plan and a fresh expiry.
pub fn maybe_renew(
    session: Option<&SessionClaims>,
    now: u64,
    threshold: u64,
    lifetime: u64,
) -> (r: RenewalDecision)
    ensures
        match session {
            None => r is NoAction,
            Some(s) => if due_for_renewal(s.exp, now, threshold) {
                r matches RenewalDecision::Renew(n) && n.user_id@ == s.user_id@ && n.plan@
                    == s.plan@ && n.exp == renewed_expiry(now, lifetime)
            } else {
                r is NoAction
            },
        },
{
    match session {
        None => RenewalDecision::NoAction,
        Some(s) => {
            if s.exp < now || s.exp - now < threshold {
                RenewalDecision::Renew(
                    SessionClaims {
                        user_id: s.user_id.clone(),
                        plan: s.plan.clone(),
                        exp: now.saturating_add(lifetime),
                    },
                )
            } else {
                RenewalDecision::NoAction
            }
        },
    }
}

} // verus!
