//! Request authentication gateway: bearer-token verification against a cached
//! signing-key set, session-credential renewal, and the per-request pipeline
//! that ties them together.

pub mod rate_limiter;
pub mod text;
pub mod jwt;
pub mod error;
pub mod keys;
pub mod token;
pub mod laws;
pub mod session;
pub mod pipeline;
pub mod models;
pub mod icons;
pub mod links;
pub mod assets;
