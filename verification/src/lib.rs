//! Verified core of a third-party-login web service: the OAuth2
//! authorization-code flow with CSRF and PKCE protection, identity
//! resolution (linking an external account to a local user), and the
//! session lifecycle (issuance, validation, expiry, revocation).
//!
//! The store of users and sessions, the callback validation rules and
//! the session rules are verified; calls into outside crates (URL
//! construction, random token generation, the system clock) stand
//! behind small trusted wrappers whose contracts name what they rely
//! on.

pub mod constants;
pub mod cookies;
pub mod error;
pub mod flow;
pub mod misc;
pub mod models;
pub mod routes;
pub mod server;
pub mod store;
pub mod utils;
