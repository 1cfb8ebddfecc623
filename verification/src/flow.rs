//! The OAuth2 flow engine: authorization-code exchange with CSRF and
//! PKCE protection, generic over the configured provider.
//!
//! A login attempt walks `login` → provider redirect →
//! `validate_callback` (the CSRF decision, before any network call) →
//! token exchange and profile fetch, done by the HTTP layer →
//! `complete_callback` (user resolution and session issuance). The
//! transient state lives only in client-side cookies; the library
//! computes every cookie directive exactly.

use vstd::prelude::*;

use oauth2::basic::BasicClient;
use oauth2::{AuthUrl, ClientId, CsrfToken, PkceCodeChallenge, PkceCodeVerifier, RedirectUrl, Scope};

use crate::constants::{
    AUTH_COOKIE_MAX_AGE_SECONDS, COOKIE_AUTH_CODE_VERIFIER, COOKIE_AUTH_CSRF_STATE,
    COOKIE_AUTH_SESSION,
};
use crate::cookies::SetCookie;
use crate::error::AppError;
use crate::models::{AuthProvider, User, UserSession};
use crate::store::{
    find_session, find_user, find_user_by_id, lemma_find_session_at_props,
    lemma_find_user_at_props, lemma_find_user_by_id_at_props, spec_create_session,
    spec_create_user, spec_get_or_create_user, user_key_is, IdentityStore, StoreModel,
};
use crate::utils::fresh_uuid;

verus! {

/// One configured provider: its endpoints, this service's credentials
/// with it, and the scopes requested at login.
pub struct ProviderConfig {
    pub provider: AuthProvider,
    pub client_id: String,
    pub client_secret: String,
    pub auth_url: String,
    pub token_url: String,
    pub userinfo_url: String,
    pub redirect_url: String,
    pub scopes: Vec<String>,
}

impl ProviderConfig {
    /// The credentials and the redirect URL a flow cannot run without
    /// are present. A missing one is a configuration error, never a
    /// silent default.
    pub open spec fn spec_configured(&self) -> bool {
        &&& self.client_id@.len() > 0
        &&& self.client_secret@.len() > 0
        &&& self.redirect_url@.len() > 0
    }

    /// Checks [`ProviderConfig::spec_configured`].
    pub fn is_configured(&self) -> (r: bool)
        ensures
            r == self.spec_configured(),
    {
        !self.client_id.as_str().is_empty() && !self.client_secret.as_str().is_empty()
            && !self.redirect_url.as_str().is_empty()
    }
}

/// The first configuration for `provider` from index `i` on, if any.
pub open spec fn find_config_at(
    configs: Seq<ProviderConfig>,
    provider: AuthProvider,
    i: int,
) -> Option<ProviderConfig>
    decreases configs.len() - i,
{
    if i < 0 || i >= configs.len() {
        None
    } else if configs[i].provider == provider {
        Some(configs[i])
    } else {
        find_config_at(configs, provider, i + 1)
    }
}

/// The configuration the route segment `name` selects: the first one
/// for the provider of that name, and none for an unrecognised name.
pub open spec fn spec_find_config(
    configs: Seq<ProviderConfig>,
    name: Seq<char>,
) -> Option<ProviderConfig> {
    let provider = AuthProvider::spec_from_name(name);
    if provider is Unknown {
        None
    } else {
        find_config_at(configs, provider, 0)
    }
}

/// Looks up the configuration the route segment `name` selects.
pub fn find_config<'a>(configs: &'a Vec<ProviderConfig>, name: &String) -> (r: Option<
    &'a ProviderConfig,
>)
    ensures
        match r {
            Some(c) => spec_find_config(configs@, name@) == Some(*c),
            None => spec_find_config(configs@, name@) is None,
        },
{
    let provider = AuthProvider::from_name(name);
    if provider == AuthProvider::Unknown {
        return None;
    }
    let mut i: usize = 0;
    while i < configs.len()
        invariant
            i <= configs.len(),
            provider == AuthProvider::spec_from_name(name@),
            !(provider is Unknown),
            find_config_at(configs@, provider, 0) == find_config_at(configs@, provider, i as int),
        decreases configs.len() - i,
    {
        if configs[i].provider == provider {
            return Some(&configs[i]);
        }
        i += 1;
    }
    None
}

/// The views of the configured scope strings.
pub open spec fn scope_views(scopes: Seq<String>) -> Seq<Seq<char>> {
    scopes.map_values(|s: String| s@)
}

/// Whether `url::Url::parse` accepts `s`; what `oauth2`'s URL
/// newtypes require of an endpoint string.
pub uninterp spec fn url_parse_ok(s: Seq<char>) -> bool;

/// The authorization URL `oauth2` builds: the endpoint with the
/// response type, client id, state, S256 challenge of the verifier,
/// redirect URL and scopes as query parameters — a function of these
/// arguments alone.
pub uninterp spec fn authorize_url_of(
    auth_url: Seq<char>,
    client_id: Seq<char>,
    redirect_url: Seq<char>,
    scopes: Seq<Seq<char>>,
    state: Seq<char>,
    verifier: Seq<char>,
) -> Seq<char>;

/// Relies on `oauth2::CsrfToken::new_random`: a freshly drawn random
/// 128-bit token, base64-encoded. Randomness admits no contract.
#[verifier::external_body]
fn new_csrf_token() -> String {
    CsrfToken::new_random().secret().clone()
}

/// Relies on `oauth2::PkceCodeChallenge::new_random_sha256`: a fresh
/// random PKCE code verifier, 43 base64url characters from 32 random
/// bytes — ASCII only, and within the 43..=128 length range RFC 7636
/// requires.
#[verifier::external_body]
fn new_pkce_verifier() -> (r: String)
    ensures
        43 <= r@.len() <= 128,
        vstd::utf8::is_ascii_chars(r@),
{
    let (_challenge, verifier) = PkceCodeChallenge::new_random_sha256();
    verifier.secret().clone()
}

/// Relies on `oauth2`'s `AuthUrl::new` and `RedirectUrl::new`, which
/// succeed exactly when `url::Url::parse` accepts the string, and on
/// `AuthorizationRequest::url`, which builds the authorization URL
/// from the endpoint, client id, redirect URL, scopes, state and the
/// S256 challenge of the verifier, and from nothing else. The
/// verifier must be ASCII and 43..=128 characters long: oauth2
/// rejects — by panicking — a verifier whose UTF-8 byte length lies
/// outside 43..=128, and for ASCII the byte count is the character
/// count.
#[verifier::external_body]
fn build_authorize_url(
    cfg: &ProviderConfig,
    state: &String,
    verifier: &String,
) -> (r: Result<String, AppError>)
    requires
        43 <= verifier@.len() <= 128,
        vstd::utf8::is_ascii_chars(verifier@),
    ensures
        r is Ok ==> url_parse_ok(cfg.auth_url@) && url_parse_ok(cfg.redirect_url@),
        url_parse_ok(cfg.auth_url@) && url_parse_ok(cfg.redirect_url@) ==> r is Ok,
        r matches Ok(u) ==> u@ == authorize_url_of(
            cfg.auth_url@,
            cfg.client_id@,
            cfg.redirect_url@,
            scope_views(cfg.scopes@),
            state@,
            verifier@,
        ),
        r matches Err(e) ==> e == AppError::Configuration,
{
    let auth = AuthUrl::new(cfg.auth_url.clone()).map_err(|_| AppError::Configuration)?;
    let redirect = RedirectUrl::new(cfg.redirect_url.clone()).map_err(|_| AppError::Configuration)?;
    let client = BasicClient::new(ClientId::new(cfg.client_id.clone()), None, auth, None)
        .set_redirect_uri(redirect);
    let st = state.clone();
    let challenge =
        PkceCodeChallenge::from_code_verifier_sha256(&PkceCodeVerifier::new(verifier.clone()));
    let (url, _state) = client
        .authorize_url(move || CsrfToken::new(st))
        .add_scopes(cfg.scopes.iter().cloned().map(Scope::new))
        .set_pkce_challenge(challenge)
        .url();
    Ok(url.to_string())
}

/// What a login responds with: a redirect to the provider's
/// authorization URL, and the two transient cookies that carry the
/// CSRF token and the PKCE verifier through the round trip.
pub struct LoginRedirect {
    pub authorize_url: String,
    pub cookies: Vec<SetCookie>,
}

/// Starts a login attempt against `cfg`'s provider: draws a CSRF
/// token and a PKCE verifier, stores both in short-lived `HttpOnly`,
/// `SameSite=Lax` cookies, and redirects to the authorization URL
/// that embeds the token and the verifier's challenge. No server-side
/// state is created; the only failure is a configuration error.
pub fn login(cfg: &ProviderConfig) -> (r: Result<LoginRedirect, AppError>)
    ensures
        r is Ok <==> cfg.spec_configured() && url_parse_ok(cfg.auth_url@) && url_parse_ok(
            cfg.redirect_url@,
        ),
        r matches Err(e) ==> e == AppError::Configuration,
        r matches Ok(lr) ==> {
            &&& lr.cookies@.len() == 2
            &&& lr.cookies@[0].name@ == COOKIE_AUTH_CSRF_STATE@
            &&& lr.cookies@[1].name@ == COOKIE_AUTH_CODE_VERIFIER@
            &&& lr.cookies@[0].path@ == "/"@ && lr.cookies@[1].path@ == "/"@
            &&& lr.cookies@[0].http_only && lr.cookies@[1].http_only
            &&& lr.cookies@[0].same_site_lax && lr.cookies@[1].same_site_lax
            &&& !lr.cookies@[0].removal && !lr.cookies@[1].removal
            &&& lr.cookies@[0].max_age_seconds == AUTH_COOKIE_MAX_AGE_SECONDS
            &&& lr.cookies@[1].max_age_seconds == AUTH_COOKIE_MAX_AGE_SECONDS
            &&& lr.authorize_url@ == authorize_url_of(
                cfg.auth_url@,
                cfg.client_id@,
                cfg.redirect_url@,
                scope_views(cfg.scopes@),
                lr.cookies@[0].value@,
                lr.cookies@[1].value@,
            )
        },
{
    if !cfg.is_configured() {
        return Err(AppError::Configuration);
    }
    let csrf = new_csrf_token();
    let verifier = new_pkce_verifier();
    let url = match build_authorize_url(cfg, &csrf, &verifier) {
        Ok(u) => u,
        Err(e) => return Err(e),
    };
    let mut cookies: Vec<SetCookie> = Vec::new();
    cookies.push(SetCookie::auth_state(COOKIE_AUTH_CSRF_STATE, csrf, AUTH_COOKIE_MAX_AGE_SECONDS));
    cookies.push(
        SetCookie::auth_state(COOKIE_AUTH_CODE_VERIFIER, verifier, AUTH_COOKIE_MAX_AGE_SECONDS),
    );
    Ok(LoginRedirect { authorize_url: url, cookies })
}

/// The CSRF decision of a callback: both transient cookies must be
/// present and the `state` query parameter must equal the stored CSRF
/// token exactly; only then is the stored PKCE verifier released for
/// the token exchange. This is the sole proof of the callback's
/// authenticity.
pub open spec fn spec_csrf_check(
    stored_state: Option<Seq<char>>,
    stored_verifier: Option<Seq<char>>,
    state: Seq<char>,
) -> Result<Seq<char>, AppError> {
    match (stored_state, stored_verifier) {
        (Some(st), Some(v)) => if state == st {
            Ok(v)
        } else {
            Err(AppError::BadRequest)
        },
        _ => Err(AppError::BadRequest),
    }
}

/// The view of an optional stored cookie value.
pub open spec fn opt_view(v: Option<&String>) -> Option<Seq<char>> {
    match v {
        Some(s) => Some(s@),
        None => None,
    }
}

/// Everything the HTTP layer needs to exchange the authorization code
/// at the token endpoint: the configured credentials, the code, and
/// the PKCE verifier the CSRF check released.
pub struct TokenExchangeRequest {
    pub token_url: String,
    pub client_id: String,
    pub client_secret: String,
    pub redirect_url: String,
    pub code: String,
    pub pkce_verifier: String,
}

/// Validates a callback before any network call: the CSRF decision of
/// [`spec_csrf_check`], then the configuration check. A missing
/// cookie or a `state` mismatch is `BadRequest`; a provider without
/// credentials is `Configuration`; otherwise the token exchange
/// request is handed back.
pub fn validate_callback(
    cfg: &ProviderConfig,
    stored_state: Option<&String>,
    stored_verifier: Option<&String>,
    state: &String,
    code: String,
) -> (r: Result<TokenExchangeRequest, AppError>)
    ensures
        spec_csrf_check(opt_view(stored_state), opt_view(stored_verifier), state@) matches Err(e)
            ==> r matches Err(e2) && e2 == e,
        spec_csrf_check(opt_view(stored_state), opt_view(stored_verifier), state@) matches Ok(v)
            ==> {
            if cfg.spec_configured() {
                r matches Ok(t) && t.token_url == cfg.token_url && t.client_id == cfg.client_id
                    && t.client_secret == cfg.client_secret && t.redirect_url == cfg.redirect_url
                    && t.code == code && t.pkce_verifier@ == v
            } else {
                r matches Err(e) && e == AppError::Configuration
            }
        },
{
    match (stored_state, stored_verifier) {
        (Some(st), Some(v)) => {
            if !(*state == *st) {
                return Err(AppError::BadRequest);
            }
            if !cfg.is_configured() {
                return Err(AppError::Configuration);
            }
            Ok(TokenExchangeRequest {
                token_url: cfg.token_url.clone(),
                client_id: cfg.client_id.clone(),
                client_secret: cfg.client_secret.clone(),
                redirect_url: cfg.redirect_url.clone(),
                code,
                pkce_verifier: v.clone(),
            })
        },
        _ => Err(AppError::BadRequest),
    }
}

/// The identity a provider's user-info endpoint reported: the stable
/// external subject id, the display name, and an avatar if any.
pub struct ProviderProfile {
    pub account_id: String,
    pub username: String,
    pub image_url: Option<String>,
}

/// What a successful callback responds with: the resolved user, the
/// issued session, the cookie directives (clear both transient
/// cookies, set the session cookie), and where to send the client.
pub struct CallbackResponse {
    pub user: User,
    pub session: UserSession,
    pub cookies: Vec<SetCookie>,
    pub redirect_to: String,
}

/// What completing a callback does to the store: resolve the user by
/// `(provider, account_id)` — creating one under `user_id` on a first
/// login — then issue the session `session_id`. A failure of the
/// second step leaves the resolved user in place, as the store has no
/// transaction around the pair; no session is ever issued without a
/// resolved user.
pub open spec fn spec_complete_callback(
    m: StoreModel,
    provider: AuthProvider,
    profile: ProviderProfile,
    user_id: String,
    session_id: String,
    now: u64,
    duration: u64,
) -> (StoreModel, Result<(User, UserSession), AppError>) {
    let (m1, ru) = spec_get_or_create_user(
        m,
        user_id,
        provider,
        profile.account_id,
        profile.username,
        profile.image_url,
    );
    match ru {
        Err(e) => (m1, Err(e)),
        Ok(u) => {
            let (m2, rs) = spec_create_session(m1, session_id, u.id, now, duration);
            match rs {
                Err(e) => (m1, Err(e)),
                Ok(s) => (m2, Ok((u, s))),
            }
        },
    }
}

/// The cookie directives of a successful callback: clear the CSRF
/// and verifier cookies, and store the session id for the session's
/// whole duration.
pub open spec fn callback_cookies_ok(resp: CallbackResponse, duration: u64) -> bool {
    &&& resp.cookies@.len() == 3
    &&& resp.cookies@[0].name@ == COOKIE_AUTH_CSRF_STATE@ && resp.cookies@[0].removal
    &&& resp.cookies@[1].name@ == COOKIE_AUTH_CODE_VERIFIER@ && resp.cookies@[1].removal
    &&& resp.cookies@[2].name@ == COOKIE_AUTH_SESSION@
    &&& !resp.cookies@[2].removal
    &&& resp.cookies@[2].value@ == resp.session.id@
    &&& resp.cookies@[2].http_only && resp.cookies@[2].same_site_lax
    &&& resp.cookies@[0].path@ == "/"@ && resp.cookies@[1].path@ == "/"@
        && resp.cookies@[2].path@ == "/"@
    &&& resp.cookies@[2].max_age_seconds == duration / 1000
    &&& resp.redirect_to@ == "/"@
}

/// The response and the new store agree with
/// [`spec_complete_callback`] for the ids `user_id` and `session_id`.
pub open spec fn callback_outcome(
    m0: StoreModel,
    m1: StoreModel,
    provider: AuthProvider,
    profile: ProviderProfile,
    user_id: String,
    session_id: String,
    now: u64,
    duration: u64,
    r: Result<CallbackResponse, AppError>,
) -> bool {
    let (m, out) = spec_complete_callback(m0, provider, profile, user_id, session_id, now, duration);
    &&& m1 == m
    &&& match (r, out) {
        (Ok(resp), Ok(pair)) => resp.user == pair.0 && resp.session == pair.1
            && callback_cookies_ok(resp, duration),
        (Err(e), Err(e2)) => e == e2,
        _ => false,
    }
}

/// Completes a callback under the given fresh ids; the whole outcome
/// is [`spec_complete_callback`] of the arguments.
pub fn complete_callback_with_ids(
    store: &mut IdentityStore,
    provider: AuthProvider,
    profile: ProviderProfile,
    user_id: String,
    session_id: String,
    now_ms: u64,
    duration_ms: u64,
) -> (r: Result<CallbackResponse, AppError>)
    requires
        old(store)@.wf(),
        now_ms + duration_ms <= u64::MAX,
    ensures
        final(store)@.wf(),
        callback_outcome(
            old(store)@,
            final(store)@,
            provider,
            profile,
            user_id,
            session_id,
            now_ms,
            duration_ms,
            r,
        ),
{
    let resolved = store.get_or_create_user(
        user_id,
        provider,
        profile.account_id,
        profile.username,
        profile.image_url,
    );
    let user = match resolved {
        Ok(u) => u,
        Err(e) => {
            return Err(e);
        },
    };
    let session = match store.create_user_session(session_id, &user.id, now_ms, duration_ms) {
        Ok(s) => s,
        Err(e) => {
            return Err(e);
        },
    };
    let mut cookies: Vec<SetCookie> = Vec::new();
    cookies.push(SetCookie::removal(COOKIE_AUTH_CSRF_STATE));
    cookies.push(SetCookie::removal(COOKIE_AUTH_CODE_VERIFIER));
    cookies.push(
        SetCookie::auth_state(COOKIE_AUTH_SESSION, session.id.clone(), duration_ms / 1000),
    );
    Ok(CallbackResponse { user, session, cookies, redirect_to: "/".to_owned() })
}

/// Completes a callback after a successful token exchange and profile
/// fetch: resolves the user, issues a session under freshly drawn
/// random ids, and computes the response cookies. The outcome is that
/// of [`spec_complete_callback`] for some pair of fresh ids; an error
/// is a store rejection, and no session is created on one.
pub fn complete_callback(
    store: &mut IdentityStore,
    provider: AuthProvider,
    profile: ProviderProfile,
    now_ms: u64,
    duration_ms: u64,
) -> (r: Result<CallbackResponse, AppError>)
    requires
        old(store)@.wf(),
        now_ms + duration_ms <= u64::MAX,
    ensures
        final(store)@.wf(),
        exists|user_id: String, session_id: String|
            callback_outcome(
                old(store)@,
                final(store)@,
                provider,
                profile,
                user_id,
                session_id,
                now_ms,
                duration_ms,
                r,
            ),
{
    let ghost m0 = store@;
    let ghost p = profile;
    let user_id = fresh_uuid();
    let session_id = fresh_uuid();
    let ghost uid = user_id;
    let ghost sid = session_id;
    let r = complete_callback_with_ids(
        store,
        provider,
        profile,
        user_id,
        session_id,
        now_ms,
        duration_ms,
    );
    proof {
        assert(callback_outcome(m0, store@, provider, p, uid, sid, now_ms, duration_ms, r));
    }
    r
}

/// For every callback where the `state` parameter differs from the
/// stored CSRF token, or either transient cookie is absent, the
/// decision is `BadRequest`. No verifier is released, so the exchange
/// and the store are never reached and no session is created.
pub proof fn lemma_csrf_enforcement(
    stored_state: Option<Seq<char>>,
    stored_verifier: Option<Seq<char>>,
    state: Seq<char>,
)
    requires
        !(stored_state matches Some(st) && stored_verifier is Some && state == st),
    ensures
        spec_csrf_check(stored_state, stored_verifier, state) == Err::<Seq<char>, AppError>(
            AppError::BadRequest,
        ),
{
}

/// The round trip: a login immediately followed by a callback that
/// carries the cookies the login set and a matching `state` passes
/// the CSRF check, releasing the stored verifier; and completing the
/// callback under fresh ids authenticates — it issues a session whose
/// life is exactly the configured duration, for a user who carries
/// the profile's external account key.
pub proof fn lemma_login_callback_round_trip(
    m: StoreModel,
    csrf: Seq<char>,
    verifier: Seq<char>,
    provider: AuthProvider,
    profile: ProviderProfile,
    user_id: String,
    session_id: String,
    now: u64,
    duration: u64,
)
    requires
        m.wf(),
        now + duration <= u64::MAX,
        find_user_by_id(m.users, user_id@) is None,
        find_session(m.sessions, session_id@) is None,
    ensures
        spec_csrf_check(Some(csrf), Some(verifier), csrf) == Ok::<Seq<char>, AppError>(verifier),
        ({
            let out = spec_complete_callback(
                m,
                provider,
                profile,
                user_id,
                session_id,
                now,
                duration,
            ).1;
            &&& out matches Ok(pair)
            &&& out matches Ok(pair) ==> {
                &&& pair.1.created_at == now
                &&& pair.1.expires_at - pair.1.created_at == duration
                &&& user_key_is(pair.0, provider, profile.account_id@)
                &&& pair.1.user_id@ == pair.0.id@
            }
        }),
{
    lemma_find_user_by_id_at_props(m.users, user_id@, 0);
    lemma_find_session_at_props(m.sessions, session_id@, 0);
    let found = find_user(m.users, provider, profile.account_id@);
    lemma_find_user_at_props(m.users, provider, profile.account_id@, 0);
    match found {
        Some(u) => {
            let j = choose|j: int|
                0 <= j < m.users.len() && #[trigger] m.users[j] == u && user_key_is(
                    u,
                    provider,
                    profile.account_id@,
                );
            assert(m.has_user_id(u.id@));
        },
        None => {
            assert(!m.has_user_id(user_id@));
            let u = User {
                id: user_id,
                account_id: profile.account_id,
                provider,
                username: profile.username,
                image_url: profile.image_url,
            };
            let m1 = spec_create_user(
                m,
                user_id,
                provider,
                profile.account_id,
                profile.username,
                profile.image_url,
            ).0;
            assert(m1.users[m.users.len() as int] == u);
            assert(m1.has_user_id(u.id@));
        },
    }
}

} // verus!
