//! The decisions of the authenticated routes: who `me` answers with,
//! what `logout` deletes and clears, and how the theme toggles. The
//! HTTP layer only moves cookie values and status codes in and out.

use vstd::prelude::*;

use crate::constants::{COOKIE_AUTH_SESSION, COOKIE_PERMANENT_MAX_AGE_SECONDS, COOKIE_THEME};
use crate::cookies::SetCookie;
use crate::error::AppError;
use crate::misc::Theme;
use crate::models::User;
use crate::server::UserTheme;
use crate::store::{spec_revoke_session, spec_validate_session, IdentityStore};

verus! {

/// Answers `/auth/me`: the user of the request's session, validated
/// with the usual lazy eviction. A missing cookie and an unknown or
/// expired session are both `Unauthenticated`.
pub fn me(store: &mut IdentityStore, session_cookie: Option<&String>, now_ms: u64) -> (r: Result<
    User,
    AppError,
>)
    requires
        old(store)@.wf(),
    ensures
        final(store)@.wf(),
        match session_cookie {
            None => r matches Err(e) && e == AppError::Unauthenticated && final(store)@ == old(
                store,
            )@,
            Some(sid) => {
                let (m2, found) = spec_validate_session(old(store)@, sid@, now_ms);
                &&& final(store)@ == m2
                &&& match (r, found) {
                    (Ok(u), Some(v)) => u == v,
                    (Err(e), None) => e == AppError::Unauthenticated,
                    _ => false,
                }
            },
        },
{
    match session_cookie {
        None => Err(AppError::Unauthenticated),
        Some(sid) => match store.get_user_by_session_id(sid, now_ms) {
            Some(u) => Ok(u),
            None => Err(AppError::Unauthenticated),
        },
    }
}

/// What `/auth/logout` responds with: whether a session was deleted,
/// the directive clearing the session cookie, and where to send the
/// client.
pub struct LogoutResponse {
    pub deleted: bool,
    pub cookies: Vec<SetCookie>,
    pub redirect_to: String,
}

/// Answers `/auth/logout`: revokes the cookie's session — idempotent,
/// an unknown id deletes nothing and is no error — clears the session
/// cookie and redirects home. Only a request without the cookie is
/// rejected, as `Unauthenticated`.
pub fn logout(store: &mut IdentityStore, session_cookie: Option<&String>) -> (r: Result<
    LogoutResponse,
    AppError,
>)
    requires
        old(store)@.wf(),
    ensures
        final(store)@.wf(),
        match session_cookie {
            None => r matches Err(e) && e == AppError::Unauthenticated && final(store)@ == old(
                store,
            )@,
            Some(sid) => {
                &&& final(store)@ == spec_revoke_session(old(store)@, sid@).0
                &&& r matches Ok(resp)
                &&& r matches Ok(resp) ==> {
                    &&& resp.deleted == spec_revoke_session(old(store)@, sid@).1
                    &&& resp.cookies@.len() == 1
                    &&& resp.cookies@[0].name@ == COOKIE_AUTH_SESSION@
                    &&& resp.cookies@[0].path@ == "/"@
                    &&& resp.cookies@[0].removal
                    &&& resp.redirect_to@ == "/"@
                }
            },
        },
{
    match session_cookie {
        None => Err(AppError::Unauthenticated),
        Some(sid) => {
            let deleted = store.delete_user_session(sid);
            let mut cookies: Vec<SetCookie> = Vec::new();
            cookies.push(SetCookie::removal(COOKIE_AUTH_SESSION));
            Ok(LogoutResponse { deleted, cookies, redirect_to: "/".to_owned() })
        },
    }
}

/// What a theme toggle responds with: the new theme and the cookie
/// that remembers it.
pub struct ThemeToggle {
    pub theme: Theme,
    pub cookie: SetCookie,
}

/// Answers the theme toggle: the other theme than the current one —
/// dark when none is set — stored in a long-lived plain cookie.
pub fn toggle_theme(current: UserTheme) -> (r: ThemeToggle)
    ensures
        ({
            let prev = match current.0 {
                Some(t) => t,
                None => Theme::Dark,
            };
            &&& (prev is Dark <==> r.theme is Light)
            &&& r.cookie.name@ == COOKIE_THEME@
            &&& r.cookie.value@ == r.theme.spec_label()
            &&& r.cookie.path@ == "/"@
            &&& !r.cookie.http_only
            &&& !r.cookie.removal
            &&& r.cookie.max_age_seconds == COOKIE_PERMANENT_MAX_AGE_SECONDS
        }),
{
    let prev = match current.0 {
        Some(t) => t,
        None => Theme::Dark,
    };
    let theme = prev.toggled();
    let cookie = SetCookie::plain(COOKIE_THEME, theme.label(), COOKIE_PERMANENT_MAX_AGE_SECONDS);
    ThemeToggle { theme, cookie }
}

} // verus!
