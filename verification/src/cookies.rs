//! Cookie directives.
//!
//! The library never touches HTTP itself; a [`SetCookie`] says exactly
//! what cookie a response must set, and the HTTP layer turns it into a
//! `Set-Cookie` header.

use vstd::prelude::*;

verus! {

/// One cookie a response sets. A `removal` directive clears the cookie
/// (empty value, max-age zero); every other directive stores `value`
/// for `max_age_seconds`.
#[derive(Debug)]
pub struct SetCookie {
    pub name: String,
    pub value: String,
    pub path: String,
    pub http_only: bool,
    pub same_site_lax: bool,
    pub max_age_seconds: u64,
    pub removal: bool,
}

impl SetCookie {
    /// A short-lived `HttpOnly`, `SameSite=Lax` cookie scoped to one
    /// login attempt.
    pub fn auth_state(name: &str, value: String, max_age_seconds: u64) -> (c: SetCookie)
        ensures
            c.name@ == name@,
            c.value@ == value@,
            c.path@ == "/"@,
            c.http_only,
            c.same_site_lax,
            c.max_age_seconds == max_age_seconds,
            !c.removal,
    {
        SetCookie {
            name: name.to_owned(),
            value,
            path: "/".to_owned(),
            http_only: true,
            same_site_lax: true,
            max_age_seconds,
            removal: false,
        }
    }

    /// A directive that clears the cookie called `name`.
    pub fn removal(name: &str) -> (c: SetCookie)
        ensures
            c.name@ == name@,
            c.value@ == ""@,
            c.path@ == "/"@,
            c.max_age_seconds == 0,
            c.removal,
    {
        SetCookie {
            name: name.to_owned(),
            value: "".to_owned(),
            path: "/".to_owned(),
            http_only: true,
            same_site_lax: true,
            max_age_seconds: 0,
            removal: true,
        }
    }

    /// A plain cookie readable by page scripts, such as the theme.
    pub fn plain(name: &str, value: String, max_age_seconds: u64) -> (c: SetCookie)
        ensures
            c.name@ == name@,
            c.value@ == value@,
            c.path@ == "/"@,
            !c.http_only,
            !c.same_site_lax,
            c.max_age_seconds == max_age_seconds,
            !c.removal,
    {
        SetCookie {
            name: name.to_owned(),
            value,
            path: "/".to_owned(),
            http_only: false,
            same_site_lax: false,
            max_age_seconds,
            removal: false,
        }
    }
}

} // verus!
