//! Request-scoped extraction: the current user from the session
//! cookie, the chosen theme from the theme cookie, and the guard that
//! routes unauthenticated page visits to the login page.

use vstd::prelude::*;

use crate::flow::opt_view;
use crate::misc::Theme;
use crate::models::User;
use crate::store::{spec_validate_session, IdentityStore};

verus! {

/// The authenticated user of a request, as the guard resolved it.
#[derive(Debug)]
pub struct CurrentUser(pub User);

/// The rejection of a request that carries no valid session.
#[derive(Debug)]
pub struct UnauthorizedUser;

impl UnauthorizedUser {
    /// The status code this rejection answers with.
    pub fn status_code(&self) -> (code: u16)
        ensures
            code == 401,
    {
        401
    }
}

/// The theme a request's cookie selects, if it selects one.
#[derive(Debug)]
pub struct UserTheme(pub Option<Theme>);

/// What the theme cookie's value means: `"dark"` and `"light"` select
/// a theme, anything else — a missing cookie too — selects none.
pub open spec fn spec_theme_from_cookie(value: Option<Seq<char>>) -> Option<Theme> {
    match value {
        Some(s) => if s == "dark"@ {
            Some(Theme::Dark)
        } else if s == "light"@ {
            Some(Theme::Light)
        } else {
            None
        },
        None => None,
    }
}

impl UserTheme {
    /// Reads the theme cookie's value.
    pub fn from_cookie(value: Option<&String>) -> (r: UserTheme)
        ensures
            r.0 == spec_theme_from_cookie(opt_view(value)),
    {
        match value {
            Some(v) => {
                if *v == "dark".to_owned() {
                    UserTheme(Some(Theme::Dark))
                } else if *v == "light".to_owned() {
                    UserTheme(Some(Theme::Light))
                } else {
                    UserTheme(None)
                }
            },
            None => UserTheme(None),
        }
    }
}

/// The single gate of every protected operation: resolves the session
/// cookie through session validation — with its lazy eviction — and
/// yields the user exactly when the session is known and unexpired.
pub fn resolve_current_user(
    store: &mut IdentityStore,
    session_cookie: Option<&String>,
    now_ms: u64,
) -> (r: Result<CurrentUser, UnauthorizedUser>)
    requires
        old(store)@.wf(),
    ensures
        final(store)@.wf(),
        match session_cookie {
            None => r is Err && final(store)@ == old(store)@,
            Some(sid) => {
                let (m2, found) = spec_validate_session(old(store)@, sid@, now_ms);
                &&& final(store)@ == m2
                &&& match (r, found) {
                    (Ok(cu), Some(u)) => cu.0 == u,
                    (Err(_), None) => true,
                    _ => false,
                }
            },
        },
{
    match session_cookie {
        None => Err(UnauthorizedUser),
        Some(sid) => match store.get_user_by_session_id(sid, now_ms) {
            Some(u) => Ok(CurrentUser(u)),
            None => Err(UnauthorizedUser),
        },
    }
}

/// What the page guard decides for a request.
#[derive(Debug, Clone, Copy, PartialEq, Eq, Structural)]
pub enum RouteDecision {
    /// No user and not on the login page: go log in.
    RedirectToLogin,
    /// Already signed in but on the login page: go home.
    RedirectHome,
    /// Serve the page.
    Continue,
}

/// The page guard: visitors without a user are sent to the login
/// page, signed-in visitors of the login page are sent home, and
/// every other request passes through.
pub fn route_guard(authenticated: bool, on_login_page: bool) -> (d: RouteDecision)
    ensures
        d is RedirectToLogin <==> !authenticated && !on_login_page,
        d is RedirectHome <==> authenticated && on_login_page,
        d is Continue <==> authenticated == !on_login_page,
{
    if !authenticated && !on_login_page {
        RouteDecision::RedirectToLogin
    } else if authenticated && on_login_page {
        RouteDecision::RedirectHome
    } else {
        RouteDecision::Continue
    }
}

} // verus!
