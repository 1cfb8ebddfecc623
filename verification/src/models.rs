//! The data model: external identity providers, local users, and
//! sessions.
//!
//! Identifiers are opaque strings (the store issues fresh random
//! ones); timestamps are milliseconds since the Unix epoch.

use vstd::prelude::*;

verus! {

/// An external identity issuer. `Unknown` stands for a provider name
/// this service does not recognise; no flow is configured for it.
#[derive(Debug, Clone, Copy, PartialEq, Eq, Structural)]
pub enum AuthProvider {
    Google,
    Github,
    Discord,
    Unknown,
}

impl AuthProvider {
    /// The provider named `name`: `"google"`, `"github"` and
    /// `"discord"` map to their variants, anything else to `Unknown`.
    pub fn from_name(name: &String) -> (p: AuthProvider)
        ensures
            p == AuthProvider::spec_from_name(name@),
    {
        if *name == "google".to_owned() {
            AuthProvider::Google
        } else if *name == "github".to_owned() {
            AuthProvider::Github
        } else if *name == "discord".to_owned() {
            AuthProvider::Discord
        } else {
            AuthProvider::Unknown
        }
    }

    /// [`AuthProvider::from_name`], as a spec-level function.
    pub open spec fn spec_from_name(name: Seq<char>) -> AuthProvider {
        if name == "google"@ {
            AuthProvider::Google
        } else if name == "github"@ {
            AuthProvider::Github
        } else if name == "discord"@ {
            AuthProvider::Discord
        } else {
            AuthProvider::Unknown
        }
    }

    /// The provider's name as it appears in routes and labels.
    pub fn label(&self) -> (s: String)
        ensures
            s@ == self.spec_label(),
    {
        match self {
            AuthProvider::Google => "google".to_owned(),
            AuthProvider::Github => "github".to_owned(),
            AuthProvider::Discord => "discord".to_owned(),
            AuthProvider::Unknown => "unknown provider".to_owned(),
        }
    }

    /// [`AuthProvider::label`], as a spec-level function.
    pub open spec fn spec_label(&self) -> Seq<char> {
        match self {
            AuthProvider::Google => "google"@,
            AuthProvider::Github => "github"@,
            AuthProvider::Discord => "discord"@,
            AuthProvider::Unknown => "unknown provider"@,
        }
    }
}

/// A local user, created on the first successful login from an
/// external account. `(provider, account_id)` identifies at most one
/// user; `id` is the immutable local identifier.
#[derive(Debug)]
pub struct User {
    pub id: String,
    pub account_id: String,
    pub provider: AuthProvider,
    pub username: String,
    pub image_url: Option<String>,
}

impl Clone for User {
    fn clone(&self) -> (u: Self)
        ensures
            u == *self,
    {
        User {
            id: self.id.clone(),
            account_id: self.account_id.clone(),
            provider: self.provider,
            username: self.username.clone(),
            image_url: match &self.image_url {
                Some(url) => Some(url.clone()),
                None => None,
            },
        }
    }
}

/// A server-issued session. It grants `user_id`'s identity from
/// `created_at` until `expires_at`; its id is the opaque value of the
/// session cookie.
#[derive(Debug)]
pub struct UserSession {
    pub id: String,
    pub user_id: String,
    pub created_at: u64,
    pub expires_at: u64,
}

impl Clone for UserSession {
    fn clone(&self) -> (s: Self)
        ensures
            s == *self,
    {
        UserSession {
            id: self.id.clone(),
            user_id: self.user_id.clone(),
            created_at: self.created_at,
            expires_at: self.expires_at,
        }
    }
}

impl UserSession {
    /// A session is expired at `now` when its end has been reached:
    /// `expires_at <= now`. It is valid strictly before that point.
    pub open spec fn is_expired(&self, now_ms: u64) -> bool {
        self.expires_at <= now_ms
    }
}

} // verus!
