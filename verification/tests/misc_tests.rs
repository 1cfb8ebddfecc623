use auth_flow::error::AppError;
use auth_flow::misc::{error_page_for, Theme};
use auth_flow::models::AuthProvider;
use auth_flow::routes::toggle_theme;
use auth_flow::server::{route_guard, RouteDecision, UnauthorizedUser, UserTheme};
use auth_flow::utils::{now, take};

#[test]
fn provider_names_round_trip() {
    for (name, provider) in [
        ("google", AuthProvider::Google),
        ("github", AuthProvider::Github),
        ("discord", AuthProvider::Discord),
    ] {
        let parsed = AuthProvider::from_name(&name.to_string());
        assert_eq!(parsed, provider);
        assert_eq!(parsed.label(), name);
    }
    let unknown = AuthProvider::from_name(&"gitlab".to_string());
    assert_eq!(unknown, AuthProvider::Unknown);
    assert_eq!(unknown.label(), "unknown provider");
}

#[test]
fn error_status_codes() {
    assert_eq!(AppError::Configuration.status_code(), 500);
    assert_eq!(AppError::BadRequest.status_code(), 400);
    assert_eq!(AppError::Upstream.status_code(), 500);
    assert_eq!(AppError::Store.status_code(), 500);
    assert_eq!(AppError::Unauthenticated.status_code(), 401);
    assert_eq!(AppError::Store.message(), "something went wrong");
    assert_eq!(AppError::BadRequest.message(), "bad request");
    assert_eq!(UnauthorizedUser.status_code(), 401);
}

#[test]
fn error_pages_cover_the_error_statuses() {
    let page = error_page_for(404, "Not Found".to_string()).unwrap();
    assert_eq!(page.status, 404);
    assert_eq!(page.message, "Not Found");
    assert!(error_page_for(500, "oops".to_string()).is_some());
    assert!(error_page_for(200, "ok".to_string()).is_none());
    assert!(error_page_for(302, "see other".to_string()).is_none());
}

#[test]
fn theme_toggles_and_defaults_to_dark() {
    assert_eq!(Theme::default(), Theme::Dark);
    assert_eq!(Theme::Dark.toggled(), Theme::Light);
    assert_eq!(Theme::Light.toggled(), Theme::Dark);

    let t = toggle_theme(UserTheme(None));
    assert_eq!(t.theme, Theme::Light);
    assert_eq!(t.cookie.name, "theme");
    assert_eq!(t.cookie.value, "light");
    assert!(!t.cookie.http_only);
    assert_eq!(t.cookie.max_age_seconds, 60 * 60 * 24 * 365 * 20);

    let back = toggle_theme(UserTheme(Some(Theme::Light)));
    assert_eq!(back.theme, Theme::Dark);
    assert_eq!(back.cookie.value, "dark");
}

#[test]
fn theme_cookie_values_parse() {
    assert_eq!(UserTheme::from_cookie(Some(&"dark".to_string())).0, Some(Theme::Dark));
    assert_eq!(UserTheme::from_cookie(Some(&"light".to_string())).0, Some(Theme::Light));
    assert_eq!(UserTheme::from_cookie(Some(&"sepia".to_string())).0, None);
    assert_eq!(UserTheme::from_cookie(None).0, None);
}

#[test]
fn route_guard_decisions() {
    assert_eq!(route_guard(false, false), RouteDecision::RedirectToLogin);
    assert_eq!(route_guard(true, true), RouteDecision::RedirectHome);
    assert_eq!(route_guard(true, false), RouteDecision::Continue);
    assert_eq!(route_guard(false, true), RouteDecision::Continue);
}

#[test]
fn take_keeps_a_prefix() {
    assert_eq!(take("hello world", 5), "hello");
    assert_eq!(take("abc", 0), "");
    assert_eq!(take("abc", 3), "abc");
}

#[test]
fn the_clock_reads_milliseconds_since_the_epoch() {
    // Any moment after mid-2020 is fine; the point is that the value
    // is epoch milliseconds, not seconds or something relative.
    let t = now();
    assert!(t > 1_600_000_000_000);
}
