//! Plain request and response records exchanged with clients and providers.

use vstd::prelude::*;

verus! {

/// A completed search-suggestion call.
pub struct SuggestResponse {
    pub response_type: String,
    pub query: Query,
    pub results: Vec<Suggestion>,
}

pub struct Query {
    pub original: String,
}

pub struct Suggestion {
    pub query: String,
}

/// A subscription as reported to the client: the plan and when the paid
/// period ends (seconds since the epoch, zero for the free plan).
pub struct SubscriptionResponse {
    pub plan_id: String,
    pub current_period_end: i64,
}

pub struct CustomerResponse {
    pub session_id: String,
}

pub struct CreateUserRequest {
    pub user_id: String,
    pub email: String,
}

pub struct CreateUserResponse {
    pub message: String,
}

pub struct CreateLinkRequest {
    pub url: String,
    pub description: Option<String>,
    pub title: String,
    pub next_order_index: i32,
    pub owner_type: String,
    pub owner_id: String,
    pub column_type: String,
}

pub struct UpdateLinkRequest {
    pub id: String,
    pub url: Option<String>,
    pub description: Option<String>,
    pub title: Option<String>,
    pub icon: Option<String>,
    pub column_type: Option<String>,
}

pub struct UpdateLinkResponse {
    pub message: String,
}

/// The billing provider's client; its operations need only the secret key
/// from the environment.
pub struct StripeClient {}

/// Messages sent from the system tray to the main loop.
pub enum TrayMessage {
    Exit,
}

} // verus!
