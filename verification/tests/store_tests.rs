use auth_flow::error::AppError;
use auth_flow::models::AuthProvider;
use auth_flow::server::resolve_current_user;
use auth_flow::store::IdentityStore;

const DAY_MS: u64 = 1000 * 60 * 60 * 24;

#[test]
fn create_and_find_user() {
    let mut store = IdentityStore::new();
    let created = store
        .create_user(
            "user-1".to_string(),
            AuthProvider::Google,
            "acc-1".to_string(),
            "Ada".to_string(),
            Some("https://example.com/a.png".to_string()),
        )
        .unwrap();
    assert_eq!(created.id, "user-1");
    assert_eq!(created.username, "Ada");

    let found = store
        .get_user_by_account_id(AuthProvider::Google, &"acc-1".to_string())
        .unwrap();
    assert_eq!(found.id, "user-1");
    assert_eq!(found.account_id, "acc-1");

    // The key is the pair: the same account id under another provider
    // is somebody else.
    assert!(store
        .get_user_by_account_id(AuthProvider::Github, &"acc-1".to_string())
        .is_none());
    assert!(store
        .get_user_by_account_id(AuthProvider::Google, &"acc-2".to_string())
        .is_none());
}

#[test]
fn duplicate_account_is_rejected() {
    let mut store = IdentityStore::new();
    store
        .create_user(
            "user-1".to_string(),
            AuthProvider::Google,
            "acc-1".to_string(),
            "Ada".to_string(),
            None,
        )
        .unwrap();
    let second = store.create_user(
        "user-2".to_string(),
        AuthProvider::Google,
        "acc-1".to_string(),
        "Eva".to_string(),
        None,
    );
    assert!(matches!(second, Err(AppError::Store)));
    // The first record is untouched.
    let found = store
        .get_user_by_account_id(AuthProvider::Google, &"acc-1".to_string())
        .unwrap();
    assert_eq!(found.id, "user-1");
    assert_eq!(found.username, "Ada");
}

#[test]
fn get_or_create_is_idempotent() {
    let mut store = IdentityStore::new();
    let first = store
        .get_or_create_user(
            "user-1".to_string(),
            AuthProvider::Google,
            "acc-1".to_string(),
            "Ada".to_string(),
            None,
        )
        .unwrap();
    let second = store
        .get_or_create_user(
            "user-2".to_string(),
            AuthProvider::Google,
            "acc-1".to_string(),
            "Renamed".to_string(),
            Some("https://example.com/new.png".to_string()),
        )
        .unwrap();
    // The second resolution returns the first record unchanged and
    // creates nothing.
    assert_eq!(second.id, first.id);
    assert_eq!(second.username, "Ada");
    assert!(second.image_url.is_none());
}

#[test]
fn session_fields_are_exact() {
    let mut store = IdentityStore::new();
    store
        .create_user(
            "user-1".to_string(),
            AuthProvider::Discord,
            "acc-1".to_string(),
            "Ada".to_string(),
            None,
        )
        .unwrap();
    let session = store
        .create_user_session("sess-1".to_string(), &"user-1".to_string(), 5_000, DAY_MS)
        .unwrap();
    assert_eq!(session.id, "sess-1");
    assert_eq!(session.user_id, "user-1");
    assert_eq!(session.created_at, 5_000);
    assert_eq!(session.expires_at, 5_000 + DAY_MS);
}

#[test]
fn session_for_unknown_user_is_rejected() {
    let mut store = IdentityStore::new();
    let r = store.create_user_session("sess-1".to_string(), &"nobody".to_string(), 0, DAY_MS);
    assert!(matches!(r, Err(AppError::Store)));
}

#[test]
fn duplicate_session_id_is_rejected() {
    let mut store = IdentityStore::new();
    store
        .create_user(
            "user-1".to_string(),
            AuthProvider::Google,
            "acc-1".to_string(),
            "Ada".to_string(),
            None,
        )
        .unwrap();
    store
        .create_user_session("sess-1".to_string(), &"user-1".to_string(), 0, DAY_MS)
        .unwrap();
    let r = store.create_user_session("sess-1".to_string(), &"user-1".to_string(), 1, DAY_MS);
    assert!(matches!(r, Err(AppError::Store)));
}

#[test]
fn valid_session_yields_its_owner() {
    let mut store = IdentityStore::new();
    store
        .create_user(
            "user-1".to_string(),
            AuthProvider::Google,
            "acc-1".to_string(),
            "Ada".to_string(),
            None,
        )
        .unwrap();
    store
        .create_user_session("sess-1".to_string(), &"user-1".to_string(), 1_000, DAY_MS)
        .unwrap();
    let user = store
        .get_user_by_session_id(&"sess-1".to_string(), 1_000 + DAY_MS - 1)
        .unwrap();
    assert_eq!(user.id, "user-1");
}

#[test]
fn expired_session_is_invalid_and_evicted() {
    let mut store = IdentityStore::new();
    store
        .create_user(
            "user-1".to_string(),
            AuthProvider::Google,
            "acc-1".to_string(),
            "Ada".to_string(),
            None,
        )
        .unwrap();
    store
        .create_user_session("sess-1".to_string(), &"user-1".to_string(), 1_000, 10)
        .unwrap();
    // The boundary counts as expired: expires_at <= now.
    assert!(store
        .get_user_by_session_id(&"sess-1".to_string(), 1_010)
        .is_none());
    // Observing it removed it: revoking it afterwards finds nothing.
    assert!(!store.delete_user_session(&"sess-1".to_string()));
}

#[test]
fn lookup_evicts_other_expired_sessions_of_the_user() {
    let mut store = IdentityStore::new();
    store
        .create_user(
            "user-1".to_string(),
            AuthProvider::Google,
            "acc-1".to_string(),
            "Ada".to_string(),
            None,
        )
        .unwrap();
    store
        .create_user_session("old-sess".to_string(), &"user-1".to_string(), 0, 10)
        .unwrap();
    store
        .create_user_session("new-sess".to_string(), &"user-1".to_string(), 1_000, DAY_MS)
        .unwrap();
    // Validating the live session purges the expired sibling.
    assert!(store
        .get_user_by_session_id(&"new-sess".to_string(), 2_000)
        .is_some());
    assert!(!store.delete_user_session(&"old-sess".to_string()));
    // The live session survived the purge.
    assert!(store.delete_user_session(&"new-sess".to_string()));
}

#[test]
fn delete_expired_reports_the_count() {
    let mut store = IdentityStore::new();
    store
        .create_user(
            "user-1".to_string(),
            AuthProvider::Google,
            "acc-1".to_string(),
            "Ada".to_string(),
            None,
        )
        .unwrap();
    store
        .create_user_session("s1".to_string(), &"user-1".to_string(), 0, 10)
        .unwrap();
    store
        .create_user_session("s2".to_string(), &"user-1".to_string(), 0, 20)
        .unwrap();
    store
        .create_user_session("s3".to_string(), &"user-1".to_string(), 0, 5_000)
        .unwrap();
    let count = store.delete_expired_user_sessions(&"user-1".to_string(), 100);
    assert_eq!(count, 2);
}

#[test]
fn revoke_is_idempotent() {
    let mut store = IdentityStore::new();
    store
        .create_user(
            "user-1".to_string(),
            AuthProvider::Google,
            "acc-1".to_string(),
            "Ada".to_string(),
            None,
        )
        .unwrap();
    store
        .create_user_session("sess-1".to_string(), &"user-1".to_string(), 0, DAY_MS)
        .unwrap();
    // Never-existing id: nothing deleted, no error.
    assert!(!store.delete_user_session(&"ghost-sess".to_string()));
    // First revoke deletes, the second finds nothing.
    assert!(store.delete_user_session(&"sess-1".to_string()));
    assert!(!store.delete_user_session(&"sess-1".to_string()));
}

#[test]
fn the_guard_resolves_only_live_sessions() {
    let mut store = IdentityStore::new();
    store
        .create_user(
            "user-1".to_string(),
            AuthProvider::Google,
            "acc-1".to_string(),
            "Ada".to_string(),
            None,
        )
        .unwrap();
    store
        .create_user_session("sess-1".to_string(), &"user-1".to_string(), 0, DAY_MS)
        .unwrap();

    // No cookie: unauthenticated.
    assert!(resolve_current_user(&mut store, None, 100).is_err());
    // A live session resolves to its owner.
    let cu = resolve_current_user(&mut store, Some(&"sess-1".to_string()), 100).unwrap();
    assert_eq!(cu.0.id, "user-1");
    // The same cookie after expiry: unauthenticated.
    assert!(resolve_current_user(&mut store, Some(&"sess-1".to_string()), DAY_MS).is_err());
}
