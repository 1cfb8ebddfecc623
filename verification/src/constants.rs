//! Names of the cookies the service sets and the fixed session length.

use vstd::prelude::*;

verus! {

/// Cookie that carries the session id after a successful login.
pub const COOKIE_AUTH_SESSION: &'static str = "auth_session";

/// Short-lived cookie holding the anti-CSRF state for one login attempt.
pub const COOKIE_AUTH_CSRF_STATE: &'static str = "auth_csrf_state";

/// Short-lived cookie holding the PKCE code verifier for one login attempt.
pub const COOKIE_AUTH_CODE_VERIFIER: &'static str = "auth_code_verifier";

/// Cookie that remembers the user's chosen theme.
pub const COOKIE_THEME: &'static str = "theme";

/// How long a session lives, in milliseconds: one day.
pub const SESSION_DURATION_MS: u64 = 1000 * 60 * 60 * 24;

/// Lifetime of the transient CSRF/PKCE cookies, in seconds: five minutes.
pub const AUTH_COOKIE_MAX_AGE_SECONDS: u64 = 60 * 5;

/// Lifetime of a cookie kept "forever", in seconds: twenty years.
pub const COOKIE_PERMANENT_MAX_AGE_SECONDS: u64 = 60 * 60 * 24 * 365 * 20;

} // verus!
