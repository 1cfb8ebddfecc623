//! The error taxonomy of the service.
//!
//! Every fallible operation of the library reports one of these
//! variants; the HTTP layer maps each to a status code through
//! [`AppError::status_code`].

use vstd::prelude::*;

verus! {

/// What went wrong, classified by who must act on it.
#[derive(Debug, Clone, Copy, PartialEq, Eq, Structural)]
pub enum AppError {
    /// Provider credentials or endpoint configuration are missing or
    /// malformed; the affected route cannot be used.
    Configuration,
    /// The client sent a callback without the expected auth-state
    /// cookies, or with a `state` that does not match the stored
    /// CSRF token. The login attempt must restart.
    BadRequest,
    /// The provider's token exchange or profile fetch failed or
    /// timed out. No session is created.
    Upstream,
    /// The identity store failed.
    Store,
    /// No session cookie, or the session is unknown or expired.
    Unauthenticated,
}

impl AppError {
    /// The HTTP status code that reports this error to the client:
    /// `400` for a bad callback, `401` for a missing or invalid
    /// session, `500` for configuration, provider and store failures.
    pub fn status_code(&self) -> (code: u16)
        ensures
            code == self.spec_status_code(),
    {
        match self {
            AppError::Configuration => 500,
            AppError::BadRequest => 400,
            AppError::Upstream => 500,
            AppError::Store => 500,
            AppError::Unauthenticated => 401,
        }
    }

    /// [`AppError::status_code`], as a spec-level function.
    pub open spec fn spec_status_code(&self) -> u16 {
        match self {
            AppError::Configuration => 500u16,
            AppError::BadRequest => 400u16,
            AppError::Upstream => 500u16,
            AppError::Store => 500u16,
            AppError::Unauthenticated => 401u16,
        }
    }

    /// A generic client-safe message. Internals (query text, provider
    /// responses) never reach the client through this type.
    pub fn message(&self) -> (msg: String)
        ensures
            self is BadRequest ==> msg@ == "bad request"@,
            self is Unauthenticated ==> msg@ == "unauthenticated"@,
            !(self is BadRequest) && !(self is Unauthenticated) ==> msg@
                == "something went wrong"@,
    {
        match self {
            AppError::BadRequest => "bad request".to_owned(),
            AppError::Unauthenticated => "unauthenticated".to_owned(),
            _ => "something went wrong".to_owned(),
        }
    }
}

} // verus!
