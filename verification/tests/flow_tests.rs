use auth_flow::error::AppError;
use auth_flow::flow::{
    complete_callback, login, validate_callback, ProviderConfig, ProviderProfile,
};
use auth_flow::models::AuthProvider;
use auth_flow::routes::{logout, me};
use auth_flow::store::IdentityStore;

const DAY_MS: u64 = 1000 * 60 * 60 * 24;

fn google_config() -> ProviderConfig {
    ProviderConfig {
        provider: AuthProvider::Google,
        client_id: "client-123".to_string(),
        client_secret: "client-secret-value".to_string(),
        auth_url: "https://accounts.google.com/o/oauth2/v2/auth".to_string(),
        token_url: "https://www.googleapis.com/oauth2/v3/token".to_string(),
        userinfo_url: "https://www.googleapis.com/oauth2/v3/userinfo".to_string(),
        redirect_url: "http://localhost:3000/auth/google/callback".to_string(),
        scopes: vec!["https://www.googleapis.com/auth/userinfo.profile".to_string()],
    }
}

#[test]
fn login_sets_both_transient_cookies() {
    let lr = login(&google_config()).unwrap();
    assert_eq!(lr.cookies.len(), 2);
    assert_eq!(lr.cookies[0].name, "auth_csrf_state");
    assert_eq!(lr.cookies[1].name, "auth_code_verifier");
    for c in &lr.cookies {
        assert!(c.http_only);
        assert!(c.same_site_lax);
        assert!(!c.removal);
        assert_eq!(c.path, "/");
        assert_eq!(c.max_age_seconds, 300);
        assert!(!c.value.is_empty());
    }
    // A PKCE verifier is 43 base64 characters and differs from the
    // CSRF token.
    assert_eq!(lr.cookies[1].value.len(), 43);
    assert_ne!(lr.cookies[0].value, lr.cookies[1].value);
}

#[test]
fn login_builds_the_authorization_url() {
    let cfg = google_config();
    let lr = login(&cfg).unwrap();
    // The URL is the endpoint plus the query oauth2 builds; it embeds
    // the state that the CSRF cookie stores and the PKCE challenge.
    assert!(lr.authorize_url.starts_with(&cfg.auth_url));
    assert!(lr.authorize_url.contains("response_type=code"));
    assert!(lr.authorize_url.contains("client_id=client-123"));
    assert!(lr
        .authorize_url
        .contains(&format!("state={}", lr.cookies[0].value)));
    assert!(lr.authorize_url.contains("code_challenge="));
    assert!(lr.authorize_url.contains("code_challenge_method=S256"));
    assert!(lr.authorize_url.contains("redirect_uri="));
    // The verifier itself never appears in the URL, only its
    // challenge does.
    assert!(!lr.authorize_url.contains(&lr.cookies[1].value));
}

#[test]
fn login_without_credentials_is_a_configuration_error() {
    let mut cfg = google_config();
    cfg.client_secret = String::new();
    let r = login(&cfg);
    assert!(matches!(r, Err(AppError::Configuration)));
    assert_eq!(AppError::Configuration.status_code(), 500);
}

#[test]
fn login_with_a_malformed_endpoint_is_a_configuration_error() {
    let mut cfg = google_config();
    cfg.auth_url = "not a url".to_string();
    assert!(matches!(login(&cfg), Err(AppError::Configuration)));
}

#[test]
fn callback_with_matching_state_releases_the_verifier() {
    let cfg = google_config();
    let csrf = "state-token".to_string();
    let verifier = "verifier-value".to_string();
    let t = validate_callback(&cfg, Some(&csrf), Some(&verifier), &csrf, "code-1".to_string())
        .unwrap();
    assert_eq!(t.token_url, cfg.token_url);
    assert_eq!(t.client_id, cfg.client_id);
    assert_eq!(t.client_secret, cfg.client_secret);
    assert_eq!(t.redirect_url, cfg.redirect_url);
    assert_eq!(t.code, "code-1");
    assert_eq!(t.pkce_verifier, "verifier-value");
}

#[test]
fn callback_with_mismatched_state_is_a_bad_request() {
    let cfg = google_config();
    let csrf = "state-token".to_string();
    let verifier = "verifier-value".to_string();
    let forged = "another-state".to_string();
    let r = validate_callback(&cfg, Some(&csrf), Some(&verifier), &forged, "code-1".to_string());
    assert!(matches!(r, Err(AppError::BadRequest)));
    assert_eq!(AppError::BadRequest.status_code(), 400);
}

#[test]
fn callback_without_stored_state_is_a_bad_request() {
    let cfg = google_config();
    let verifier = "verifier-value".to_string();
    let state = "state-token".to_string();
    let r = validate_callback(&cfg, None, Some(&verifier), &state, "code-1".to_string());
    assert!(matches!(r, Err(AppError::BadRequest)));
}

#[test]
fn callback_without_stored_verifier_is_a_bad_request() {
    let cfg = google_config();
    let csrf = "state-token".to_string();
    let r = validate_callback(&cfg, Some(&csrf), None, &csrf, "code-1".to_string());
    assert!(matches!(r, Err(AppError::BadRequest)));
}

#[test]
fn callback_on_unconfigured_provider_is_a_configuration_error() {
    let mut cfg = google_config();
    cfg.client_id = String::new();
    let csrf = "state-token".to_string();
    let verifier = "verifier-value".to_string();
    let r = validate_callback(&cfg, Some(&csrf), Some(&verifier), &csrf, "code-1".to_string());
    assert!(matches!(r, Err(AppError::Configuration)));
}

#[test]
fn completing_a_callback_issues_one_session() {
    let mut store = IdentityStore::new();
    let profile = ProviderProfile {
        account_id: "12345".to_string(),
        username: "Ada".to_string(),
        image_url: None,
    };
    let resp = complete_callback(&mut store, AuthProvider::Google, profile, 1_000, DAY_MS)
        .unwrap();
    assert_eq!(resp.user.account_id, "12345");
    assert_eq!(resp.session.user_id, resp.user.id);
    assert_eq!(resp.session.created_at, 1_000);
    assert_eq!(resp.session.expires_at, 1_000 + DAY_MS);
    assert_eq!(resp.cookies.len(), 3);
    assert_eq!(resp.cookies[0].name, "auth_csrf_state");
    assert!(resp.cookies[0].removal);
    assert_eq!(resp.cookies[1].name, "auth_code_verifier");
    assert!(resp.cookies[1].removal);
    assert_eq!(resp.cookies[2].name, "auth_session");
    assert!(!resp.cookies[2].removal);
    assert_eq!(resp.cookies[2].value, resp.session.id);
    assert_eq!(resp.cookies[2].max_age_seconds, DAY_MS / 1000);
    assert!(resp.cookies.iter().all(|c| c.path == "/"));
    assert_eq!(resp.redirect_to, "/");
}

#[test]
fn two_callbacks_for_one_account_share_the_user() {
    let mut store = IdentityStore::new();
    let profile = |name: &str| ProviderProfile {
        account_id: "12345".to_string(),
        username: name.to_string(),
        image_url: None,
    };
    let first = complete_callback(&mut store, AuthProvider::Google, profile("Ada"), 1_000, DAY_MS)
        .unwrap();
    let second =
        complete_callback(&mut store, AuthProvider::Google, profile("Ada II"), 2_000, DAY_MS)
            .unwrap();
    // One user — the second login resolves to the first record —
    // but two distinct, freshly drawn sessions.
    assert_eq!(second.user.id, first.user.id);
    assert_eq!(second.user.username, "Ada");
    assert_ne!(second.session.id, first.session.id);
}

#[test]
fn fresh_account_login_round_trip() {
    // A fresh external account google:12345 with display name "Ada"
    // walks the whole flow.
    let cfg = google_config();
    let lr = login(&cfg).unwrap();
    let csrf_cookie = lr.cookies[0].value.clone();
    let verifier_cookie = lr.cookies[1].value.clone();

    // The provider redirects back with a code and the same state.
    let t = validate_callback(
        &cfg,
        Some(&csrf_cookie),
        Some(&verifier_cookie),
        &csrf_cookie,
        "auth-code".to_string(),
    )
    .unwrap();
    assert_eq!(t.pkce_verifier, verifier_cookie);

    // The exchange and the profile fetch happened upstream; their
    // result is the profile.
    let mut store = IdentityStore::new();
    let profile = ProviderProfile {
        account_id: "12345".to_string(),
        username: "Ada".to_string(),
        image_url: None,
    };
    let now = 1_700_000_000_000u64;
    let resp = complete_callback(&mut store, AuthProvider::Google, profile, now, DAY_MS).unwrap();

    // Exactly one user row with the expected fields.
    let user = store
        .get_user_by_account_id(AuthProvider::Google, &"12345".to_string())
        .unwrap();
    assert_eq!(user.account_id, "12345");
    assert_eq!(user.username, "Ada");
    assert!(matches!(user.provider, AuthProvider::Google));
    // One session row lasting exactly one day, set as the session
    // cookie while the transient cookies are cleared.
    assert_eq!(resp.session.expires_at - resp.session.created_at, DAY_MS);
    assert!(resp.cookies[0].removal && resp.cookies[1].removal);
    assert_eq!(resp.cookies[2].value, resp.session.id);

    // `me` with that cookie answers with the user.
    let session_cookie = resp.cookies[2].value.clone();
    let me_user = me(&mut store, Some(&session_cookie), now + 1_000).unwrap();
    assert_eq!(me_user.id, user.id);

    // Logout deletes the session and clears the cookie; `me` is then
    // unauthenticated.
    let out = logout(&mut store, Some(&session_cookie)).unwrap();
    assert!(out.deleted);
    assert_eq!(out.cookies.len(), 1);
    assert_eq!(out.cookies[0].name, "auth_session");
    assert!(out.cookies[0].removal);
    assert_eq!(out.redirect_to, "/");

    let again = me(&mut store, Some(&session_cookie), now + 2_000);
    assert!(matches!(again, Err(AppError::Unauthenticated)));
    assert_eq!(AppError::Unauthenticated.status_code(), 401);
}
