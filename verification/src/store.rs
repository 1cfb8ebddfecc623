//! The identity store: users and their sessions, held in memory.
//!
//! [`StoreModel`] is the mathematical content of a store; every
//! operation's contract is a function from model to model, so callers
//! reason about the store without reading any loop. The store keeps
//! [`StoreModel::wf`] as its invariant: user ids are unique,
//! `(provider, account_id)` names at most one user, session ids are
//! unique, and every session points at an existing user.

use vstd::prelude::*;

use crate::error::AppError;
use crate::models::{AuthProvider, User, UserSession};

verus! {

/// The content of an [`IdentityStore`]: its users and sessions, in
/// insertion order.
pub struct StoreModel {
    pub users: Seq<User>,
    pub sessions: Seq<UserSession>,
}

/// `u` is the user the pair `(provider, account_id)` names.
pub open spec fn user_key_is(u: User, provider: AuthProvider, account_id: Seq<char>) -> bool {
    u.provider == provider && u.account_id@ == account_id
}

/// The first user from index `i` on whose `(provider, account_id)`
/// key matches, if any.
pub open spec fn find_user_at(
    users: Seq<User>,
    provider: AuthProvider,
    account_id: Seq<char>,
    i: int,
) -> Option<User>
    decreases users.len() - i,
{
    if i < 0 || i >= users.len() {
        None
    } else if user_key_is(users[i], provider, account_id) {
        Some(users[i])
    } else {
        find_user_at(users, provider, account_id, i + 1)
    }
}

/// The user the pair `(provider, account_id)` names, if any.
pub open spec fn find_user(
    users: Seq<User>,
    provider: AuthProvider,
    account_id: Seq<char>,
) -> Option<User> {
    find_user_at(users, provider, account_id, 0)
}

/// The first user from index `i` on with the local id `id`, if any.
pub open spec fn find_user_by_id_at(users: Seq<User>, id: Seq<char>, i: int) -> Option<User>
    decreases users.len() - i,
{
    if i < 0 || i >= users.len() {
        None
    } else if users[i].id@ == id {
        Some(users[i])
    } else {
        find_user_by_id_at(users, id, i + 1)
    }
}

/// The user with the local id `id`, if any.
pub open spec fn find_user_by_id(users: Seq<User>, id: Seq<char>) -> Option<User> {
    find_user_by_id_at(users, id, 0)
}

/// The first session from index `i` on with the id `id`, if any.
pub open spec fn find_session_at(sessions: Seq<UserSession>, id: Seq<char>, i: int) -> Option<
    UserSession,
>
    decreases sessions.len() - i,
{
    if i < 0 || i >= sessions.len() {
        None
    } else if sessions[i].id@ == id {
        Some(sessions[i])
    } else {
        find_session_at(sessions, id, i + 1)
    }
}

/// The session with the id `id`, if any.
pub open spec fn find_session(sessions: Seq<UserSession>, id: Seq<char>) -> Option<UserSession> {
    find_session_at(sessions, id, 0)
}

impl StoreModel {
    /// Some user carries the local id `id`.
    pub open spec fn has_user_id(self, id: Seq<char>) -> bool {
        exists|i: int| 0 <= i < self.users.len() && #[trigger] self.users[i].id@ == id
    }

    /// The store's invariant: user ids are unique, each
    /// `(provider, account_id)` pair names at most one user, session
    /// ids are unique, every session belongs to an existing user, and
    /// no session ends before it starts.
    pub open spec fn wf(self) -> bool {
        &&& forall|i: int, j: int|
            0 <= i < j < self.users.len() ==> (#[trigger] self.users[i].id@) != (
            #[trigger] self.users[j].id@)
        &&& forall|i: int, j: int|
            0 <= i < j < self.users.len() ==> !((#[trigger] self.users[i].provider)
                == self.users[j].provider && self.users[i].account_id@ == (
            #[trigger] self.users[j].account_id@))
        &&& forall|i: int, j: int|
            0 <= i < j < self.sessions.len() ==> (#[trigger] self.sessions[i].id@) != (
            #[trigger] self.sessions[j].id@)
        &&& forall|i: int|
            0 <= i < self.sessions.len() ==> self.has_user_id(
                (#[trigger] self.sessions[i]).user_id@,
            )
        &&& forall|i: int|
            0 <= i < self.sessions.len() ==> (#[trigger] self.sessions[i]).created_at
                <= self.sessions[i].expires_at
    }
}

/// Characterises [`find_user_at`]: a hit is a matching entry at or
/// after `i`, a miss means no entry at or after `i` matches.
pub proof fn lemma_find_user_at_props(
    users: Seq<User>,
    provider: AuthProvider,
    account_id: Seq<char>,
    i: int,
)
    requires
        0 <= i,
    ensures
        match find_user_at(users, provider, account_id, i) {
            Some(u) => exists|j: int|
                i <= j < users.len() && #[trigger] users[j] == u && user_key_is(
                    u,
                    provider,
                    account_id,
                ),
            None => forall|j: int|
                i <= j < users.len() ==> !user_key_is(#[trigger] users[j], provider, account_id),
        },
    decreases users.len() - i,
{
    if 0 <= i < users.len() && !user_key_is(users[i], provider, account_id) {
        lemma_find_user_at_props(users, provider, account_id, i + 1);
    }
}

/// Characterises [`find_user_by_id_at`] in the same way.
pub proof fn lemma_find_user_by_id_at_props(users: Seq<User>, id: Seq<char>, i: int)
    requires
        0 <= i,
    ensures
        match find_user_by_id_at(users, id, i) {
            Some(u) => exists|j: int|
                i <= j < users.len() && #[trigger] users[j] == u && u.id@ == id,
            None => forall|j: int| i <= j < users.len() ==> (#[trigger] users[j]).id@ != id,
        },
    decreases users.len() - i,
{
    if 0 <= i < users.len() && users[i].id@ != id {
        lemma_find_user_by_id_at_props(users, id, i + 1);
    }
}

/// Characterises [`find_session_at`] in the same way.
pub proof fn lemma_find_session_at_props(sessions: Seq<UserSession>, id: Seq<char>, i: int)
    requires
        0 <= i,
    ensures
        match find_session_at(sessions, id, i) {
            Some(s) => exists|j: int|
                i <= j < sessions.len() && #[trigger] sessions[j] == s && s.id@ == id,
            None => forall|j: int| i <= j < sessions.len() ==> (#[trigger] sessions[j]).id@ != id,
        },
    decreases sessions.len() - i,
{
    if 0 <= i < sessions.len() && sessions[i].id@ != id {
        lemma_find_session_at_props(sessions, id, i + 1);
    }
}

/// Users and sessions, in memory. All methods keep [`StoreModel::wf`].
pub struct IdentityStore {
    users: Vec<User>,
    sessions: Vec<UserSession>,
}

impl View for IdentityStore {
    type V = StoreModel;

    closed spec fn view(&self) -> StoreModel {
        StoreModel { users: self.users@, sessions: self.sessions@ }
    }
}

impl IdentityStore {
    /// An empty store.
    pub fn new() -> (s: IdentityStore)
        ensures
            s@.users == Seq::<User>::empty(),
            s@.sessions == Seq::<UserSession>::empty(),
            s@.wf(),
    {
        IdentityStore { users: Vec::new(), sessions: Vec::new() }
    }

    /// The user the `(provider, account_id)` pair names, if any.
    pub fn get_user_by_account_id(&self, provider: AuthProvider, account_id: &String) -> (r: Option<
        User,
    >)
        ensures
            r == find_user(self@.users, provider, account_id@),
    {
        let mut i: usize = 0;
        while i < self.users.len()
            invariant
                i <= self.users.len(),
                find_user(self@.users, provider, account_id@) == find_user_at(
                    self@.users,
                    provider,
                    account_id@,
                    i as int,
                ),
            decreases self.users.len() - i,
        {
            let u = &self.users[i];
            if u.provider == provider && u.account_id == *account_id {
                return Some(u.clone());
            }
            i += 1;
        }
        None
    }

    /// The user with the local id `id`, if any.
    pub fn get_user_by_id(&self, id: &String) -> (r: Option<User>)
        ensures
            r == find_user_by_id(self@.users, id@),
    {
        let mut i: usize = 0;
        while i < self.users.len()
            invariant
                i <= self.users.len(),
                find_user_by_id(self@.users, id@) == find_user_by_id_at(
                    self@.users,
                    id@,
                    i as int,
                ),
            decreases self.users.len() - i,
        {
            let u = &self.users[i];
            if u.id == *id {
                return Some(u.clone());
            }
            i += 1;
        }
        None
    }

    /// The session with the id `id`, if any.
    fn find_session_record(&self, id: &String) -> (r: Option<UserSession>)
        ensures
            r == find_session(self@.sessions, id@),
    {
        let mut i: usize = 0;
        while i < self.sessions.len()
            invariant
                i <= self.sessions.len(),
                find_session(self@.sessions, id@) == find_session_at(
                    self@.sessions,
                    id@,
                    i as int,
                ),
            decreases self.sessions.len() - i,
        {
            let s = &self.sessions[i];
            if s.id == *id {
                return Some(s.clone());
            }
            i += 1;
        }
        None
    }
}

/// Keep `s` when purging the expired sessions of `user_id` at `now`:
/// a session is dropped exactly when it belongs to that user and has
/// expired.
pub open spec fn keep_session(s: UserSession, user_id: Seq<char>, now: u64) -> bool {
    !(s.user_id@ == user_id && s.expires_at <= now)
}

/// The predicate the lazy eviction filters with.
pub open spec fn session_survives(user_id: Seq<char>, now: u64) -> spec_fn(UserSession) -> bool {
    |s: UserSession| keep_session(s, user_id, now)
}

/// The predicate a revocation filters with.
pub open spec fn session_keeps_id(id: Seq<char>) -> spec_fn(UserSession) -> bool {
    |s: UserSession| s.id@ != id
}

/// `sessions` with the expired sessions of `user_id` removed.
pub open spec fn purged_sessions(
    sessions: Seq<UserSession>,
    user_id: Seq<char>,
    now: u64,
) -> Seq<UserSession> {
    sessions.filter(session_survives(user_id, now))
}

/// `sessions` without the session called `id`.
pub open spec fn sessions_without(sessions: Seq<UserSession>, id: Seq<char>) -> Seq<UserSession> {
    sessions.filter(session_keeps_id(id))
}

/// What inserting a user does: a new record from the given fields,
/// unless the `(provider, account_id)` key or the id is already taken,
/// which the underlying store rejects.
pub open spec fn spec_create_user(
    m: StoreModel,
    id: String,
    provider: AuthProvider,
    account_id: String,
    username: String,
    image_url: Option<String>,
) -> (StoreModel, Result<User, AppError>) {
    if find_user(m.users, provider, account_id@) is Some || m.has_user_id(id@) {
        (m, Err(AppError::Store))
    } else {
        let u = User { id, account_id, provider, username, image_url };
        (StoreModel { users: m.users.push(u), sessions: m.sessions }, Ok(u))
    }
}

/// What resolving an external account does: the existing user if the
/// `(provider, account_id)` key is known — the stored record, with no
/// field refreshed — and otherwise a newly created one.
pub open spec fn spec_get_or_create_user(
    m: StoreModel,
    id: String,
    provider: AuthProvider,
    account_id: String,
    username: String,
    image_url: Option<String>,
) -> (StoreModel, Result<User, AppError>) {
    match find_user(m.users, provider, account_id@) {
        Some(u) => (m, Ok(u)),
        None => spec_create_user(m, id, provider, account_id, username, image_url),
    }
}

/// What issuing a session does: a new record that starts at `now` and
/// expires exactly `duration` later, unless the user is unknown or the
/// session id is already taken.
pub open spec fn spec_create_session(
    m: StoreModel,
    id: String,
    user_id: String,
    now: u64,
    duration: u64,
) -> (StoreModel, Result<UserSession, AppError>) {
    if !m.has_user_id(user_id@) || find_session(m.sessions, id@) is Some {
        (m, Err(AppError::Store))
    } else {
        let s = UserSession {
            id,
            user_id,
            created_at: now,
            expires_at: (now + duration) as u64,
        };
        (StoreModel { users: m.users, sessions: m.sessions.push(s) }, Ok(s))
    }
}

/// What the lazy eviction does: every expired session of `user_id`
/// leaves the store.
pub open spec fn spec_delete_expired(m: StoreModel, user_id: Seq<char>, now: u64) -> StoreModel {
    StoreModel { users: m.users, sessions: purged_sessions(m.sessions, user_id, now) }
}

/// What validating a session does. An unknown id changes nothing and
/// yields no user. A known id first evicts every expired session of
/// its owner; the owner is yielded only when the session itself is
/// still unexpired.
pub open spec fn spec_validate_session(m: StoreModel, session_id: Seq<char>, now: u64) -> (
    StoreModel,
    Option<User>,
) {
    match find_session(m.sessions, session_id) {
        None => (m, None),
        Some(s) => {
            let m2 = spec_delete_expired(m, s.user_id@, now);
            if s.is_expired(now) {
                (m2, None)
            } else {
                (m2, find_user_by_id(m.users, s.user_id@))
            }
        },
    }
}

/// What revoking a session does: the session with that id leaves the
/// store, and the flag says whether anything was there to delete.
pub open spec fn spec_revoke_session(m: StoreModel, session_id: Seq<char>) -> (StoreModel, bool) {
    let kept = sessions_without(m.sessions, session_id);
    (StoreModel { users: m.users, sessions: kept }, kept.len() < m.sessions.len())
}

/// Every entry of a filtered sequence comes from the original one.
proof fn lemma_filter_membership<A>(s: Seq<A>, pred: spec_fn(A) -> bool)
    ensures
        forall|i: int| 0 <= i < s.filter(pred).len() ==> s.contains(#[trigger] s.filter(pred)[i]),
    decreases s.len(),
{
    reveal(Seq::filter);
    if s.len() > 0 {
        lemma_filter_membership(s.drop_last(), pred);
        let f = s.filter(pred);
        let fd = s.drop_last().filter(pred);
        assert forall|i: int| 0 <= i < f.len() implies s.contains(#[trigger] f[i]) by {
            if i < fd.len() {
                assert(s.drop_last().contains(fd[i]));
                let j = choose|j: int|
                    0 <= j < s.drop_last().len() && s.drop_last()[j] == fd[i];
                assert(s[j] == f[i]);
            } else {
                assert(f[i] == s.last());
                assert(s[s.len() - 1] == s.last());
            }
        }
    }
}

/// Filtering keeps session ids pairwise distinct.
proof fn lemma_filter_distinct_session_ids(s: Seq<UserSession>, pred: spec_fn(UserSession) -> bool)
    requires
        forall|i: int, j: int|
            0 <= i < j < s.len() ==> (#[trigger] s[i].id@) != (#[trigger] s[j].id@),
    ensures
        forall|i: int, j: int|
            0 <= i < j < s.filter(pred).len() ==> (#[trigger] s.filter(pred)[i].id@) != (
            #[trigger] s.filter(pred)[j].id@),
    decreases s.len(),
{
    reveal(Seq::filter);
    if s.len() > 0 {
        lemma_filter_distinct_session_ids(s.drop_last(), pred);
        lemma_filter_membership(s.drop_last(), pred);
        let f = s.filter(pred);
        let fd = s.drop_last().filter(pred);
        assert forall|i: int, j: int|
            0 <= i < j < f.len() implies (#[trigger] f[i].id@) != (#[trigger] f[j].id@) by {
            if j < fd.len() {
                assert(f[i] == fd[i] && f[j] == fd[j]);
            } else if pred(s.last()) && j == fd.len() {
                assert(f[i] == fd[i]);
                assert(f[j] == s.last());
                assert(s.drop_last().contains(fd[i]));
                let k = choose|k: int|
                    0 <= k < s.drop_last().len() && s.drop_last()[k] == fd[i];
                assert(s[k] == fd[i]);
                assert(s[k].id@ != s[s.len() - 1].id@);
            }
        }
    }
}

/// A filter that drops some entry shortens the sequence.
proof fn lemma_filter_drops<A>(s: Seq<A>, pred: spec_fn(A) -> bool, i: int)
    requires
        0 <= i < s.len(),
        !pred(s[i]),
    ensures
        s.filter(pred).len() < s.len(),
    decreases s.len(),
{
    reveal(Seq::filter);
    s.drop_last().lemma_filter_len(pred);
    if i < s.len() - 1 {
        lemma_filter_drops(s.drop_last(), pred, i);
    }
}

/// A filter that keeps every entry changes nothing.
proof fn lemma_filter_all_true<A>(s: Seq<A>, pred: spec_fn(A) -> bool)
    requires
        forall|i: int| 0 <= i < s.len() ==> pred(#[trigger] s[i]),
    ensures
        s.filter(pred) == s,
    decreases s.len(),
{
    reveal(Seq::filter);
    if s.len() > 0 {
        lemma_filter_all_true(s.drop_last(), pred);
        assert(s.filter(pred) =~= s);
    }
}

/// Dropping sessions preserves the store invariant.
proof fn lemma_session_filter_wf(m: StoreModel, pred: spec_fn(UserSession) -> bool)
    requires
        m.wf(),
    ensures
        (StoreModel { users: m.users, sessions: m.sessions.filter(pred) }).wf(),
{
    lemma_filter_membership(m.sessions, pred);
    lemma_filter_distinct_session_ids(m.sessions, pred);
    let m2 = StoreModel { users: m.users, sessions: m.sessions.filter(pred) };
    assert forall|i: int| 0 <= i < m2.sessions.len() implies m2.has_user_id(
        (#[trigger] m2.sessions[i]).user_id@,
    ) && m2.sessions[i].created_at <= m2.sessions[i].expires_at by {
        assert(m.sessions.contains(m2.sessions[i]));
        let j = choose|j: int| 0 <= j < m.sessions.len() && m.sessions[j] == m2.sessions[i];
        assert(m.has_user_id(m.sessions[j].user_id@));
        assert(m.sessions[j].created_at <= m.sessions[j].expires_at);
    }
}

/// Adding a user whose key and id are fresh preserves the invariant.
proof fn lemma_push_user_wf(m: StoreModel, u: User)
    requires
        m.wf(),
        find_user(m.users, u.provider, u.account_id@) is None,
        find_user_by_id(m.users, u.id@) is None,
    ensures
        (StoreModel { users: m.users.push(u), sessions: m.sessions }).wf(),
{
    lemma_find_user_at_props(m.users, u.provider, u.account_id@, 0);
    lemma_find_user_by_id_at_props(m.users, u.id@, 0);
    let m2 = StoreModel { users: m.users.push(u), sessions: m.sessions };
    assert(forall|i: int|
        0 <= i < m.users.len() ==> #[trigger] m2.users[i] == m.users[i]);
    assert(m2.users[m.users.len() as int] == u);
    assert forall|i: int| 0 <= i < m2.sessions.len() implies m2.has_user_id(
        (#[trigger] m2.sessions[i]).user_id@,
    ) by {
        assert(m.has_user_id(m.sessions[i].user_id@));
        let w = choose|w: int|
            0 <= w < m.users.len() && #[trigger] m.users[w].id@ == m.sessions[i].user_id@;
        assert(m2.users[w].id@ == m2.sessions[i].user_id@);
    }
}

/// Adding a session with a fresh id for an existing user preserves
/// the invariant.
proof fn lemma_push_session_wf(m: StoreModel, s: UserSession)
    requires
        m.wf(),
        find_session(m.sessions, s.id@) is None,
        m.has_user_id(s.user_id@),
        s.created_at <= s.expires_at,
    ensures
        (StoreModel { users: m.users, sessions: m.sessions.push(s) }).wf(),
{
    lemma_find_session_at_props(m.sessions, s.id@, 0);
    let m2 = StoreModel { users: m.users, sessions: m.sessions.push(s) };
    assert(forall|i: int|
        0 <= i < m.sessions.len() ==> #[trigger] m2.sessions[i] == m.sessions[i]);
    assert(m2.sessions[m.sessions.len() as int] == s);
}

impl IdentityStore {
    /// Inserts a new user with the given (freshly drawn) id.
    /// Succeeds exactly when neither the `(provider, account_id)` key
    /// nor the id is taken; a duplicate is rejected as a store error,
    /// as a uniqueness constraint would reject it.
    pub fn create_user(
        &mut self,
        id: String,
        provider: AuthProvider,
        account_id: String,
        username: String,
        image_url: Option<String>,
    ) -> (r: Result<User, AppError>)
        requires
            old(self)@.wf(),
        ensures
            final(self)@ == spec_create_user(
                old(self)@,
                id,
                provider,
                account_id,
                username,
                image_url,
            ).0,
            r == spec_create_user(old(self)@, id, provider, account_id, username, image_url).1,
            final(self)@.wf(),
    {
        let existing = self.get_user_by_account_id(provider, &account_id);
        if existing.is_some() {
            return Err(AppError::Store);
        }
        let ghost m = self@;
        let by_id = self.get_user_by_id(&id);
        if by_id.is_some() {
            proof {
                lemma_find_user_by_id_at_props(m.users, id@, 0);
            }
            return Err(AppError::Store);
        }
        proof {
            lemma_find_user_by_id_at_props(m.users, id@, 0);
            assert(!m.has_user_id(id@));
        }
        let u = User { id, account_id, provider, username, image_url };
        proof {
            lemma_push_user_wf(m, u);
        }
        self.users.push(u.clone());
        Ok(u)
    }

    /// Resolves an external account to a local user: the stored user
    /// when the `(provider, account_id)` key is known — unchanged, no
    /// field refreshed — and a newly inserted one otherwise.
    pub fn get_or_create_user(
        &mut self,
        fresh_id: String,
        provider: AuthProvider,
        account_id: String,
        username: String,
        image_url: Option<String>,
    ) -> (r: Result<User, AppError>)
        requires
            old(self)@.wf(),
        ensures
            final(self)@ == spec_get_or_create_user(
                old(self)@,
                fresh_id,
                provider,
                account_id,
                username,
                image_url,
            ).0,
            r == spec_get_or_create_user(
                old(self)@,
                fresh_id,
                provider,
                account_id,
                username,
                image_url,
            ).1,
            final(self)@.wf(),
    {
        match self.get_user_by_account_id(provider, &account_id) {
            Some(u) => Ok(u),
            None => self.create_user(fresh_id, provider, account_id, username, image_url),
        }
    }

    /// Issues a session for `user_id` with the given (freshly drawn)
    /// id: it starts at `now_ms` and expires exactly `duration_ms`
    /// later. An unknown user or a taken id is a store error.
    pub fn create_user_session(
        &mut self,
        session_id: String,
        user_id: &String,
        now_ms: u64,
        duration_ms: u64,
    ) -> (r: Result<UserSession, AppError>)
        requires
            old(self)@.wf(),
            now_ms + duration_ms <= u64::MAX,
        ensures
            final(self)@ == spec_create_session(
                old(self)@,
                session_id,
                *user_id,
                now_ms,
                duration_ms,
            ).0,
            r == spec_create_session(old(self)@, session_id, *user_id, now_ms, duration_ms).1,
            final(self)@.wf(),
    {
        let ghost m = self@;
        let owner = self.get_user_by_id(user_id);
        if owner.is_none() {
            proof {
                lemma_find_user_by_id_at_props(m.users, user_id@, 0);
            }
            return Err(AppError::Store);
        }
        let existing = self.find_session_record(&session_id);
        if existing.is_some() {
            proof {
                lemma_find_user_by_id_at_props(m.users, user_id@, 0);
            }
            return Err(AppError::Store);
        }
        let s = UserSession {
            id: session_id,
            user_id: user_id.clone(),
            created_at: now_ms,
            expires_at: now_ms + duration_ms,
        };
        proof {
            lemma_find_user_by_id_at_props(m.users, user_id@, 0);
            lemma_push_session_wf(m, s);
        }
        self.sessions.push(s.clone());
        Ok(s)
    }

    /// Deletes every expired session of `user_id` (the lazy eviction:
    /// there is no background sweep) and reports how many left.
    pub fn delete_expired_user_sessions(&mut self, user_id: &String, now_ms: u64) -> (count: usize)
        requires
            old(self)@.wf(),
        ensures
            final(self)@ == spec_delete_expired(old(self)@, user_id@, now_ms),
            count == old(self)@.sessions.len() - final(self)@.sessions.len(),
            final(self)@.wf(),
    {
        let ghost m = self@;
        let mut kept: Vec<UserSession> = Vec::new();
        let n = self.sessions.len();
        let mut i: usize = 0;
        while i < n
            invariant
                i <= n,
                self@ == m,
                n == m.sessions.len(),
                kept@ == purged_sessions(m.sessions.subrange(0, i as int), user_id@, now_ms),
                kept@.len() <= i,
            decreases n - i,
        {
            let s = &self.sessions[i];
            if !(s.user_id == *user_id && s.expires_at <= now_ms) {
                kept.push(s.clone());
            }
            proof {
                reveal(Seq::filter);
                let prefix1 = m.sessions.subrange(0, i + 1 as int);
                let prefix0 = m.sessions.subrange(0, i as int);
                assert(prefix1.drop_last() =~= prefix0);
                assert(prefix1.last() == m.sessions[i as int]);
            }
            i += 1;
        }
        proof {
            assert(m.sessions.subrange(0, n as int) =~= m.sessions);
            lemma_session_filter_wf(m, session_survives(user_id@, now_ms));
        }
        let count = self.sessions.len() - kept.len();
        self.sessions = kept;
        count
    }

    /// Validates the session called `session_id` at time `now_ms`:
    /// yields its owner exactly when the session exists and is still
    /// unexpired. Looking at a known session also evicts every
    /// expired session of its owner.
    pub fn get_user_by_session_id(&mut self, session_id: &String, now_ms: u64) -> (r: Option<User>)
        requires
            old(self)@.wf(),
        ensures
            final(self)@ == spec_validate_session(old(self)@, session_id@, now_ms).0,
            r == spec_validate_session(old(self)@, session_id@, now_ms).1,
            final(self)@.wf(),
    {
        let session = self.find_session_record(session_id);
        match session {
            None => None,
            Some(s) => {
                let owner = self.get_user_by_id(&s.user_id);
                self.delete_expired_user_sessions(&s.user_id, now_ms);
                if s.expires_at <= now_ms {
                    None
                } else {
                    owner
                }
            },
        }
    }

    /// Revokes the session called `session_id`. Idempotent: reports
    /// whether a session was there to delete and never fails, also on
    /// an id that never existed.
    pub fn delete_user_session(&mut self, session_id: &String) -> (deleted: bool)
        requires
            old(self)@.wf(),
        ensures
            final(self)@ == spec_revoke_session(old(self)@, session_id@).0,
            deleted == spec_revoke_session(old(self)@, session_id@).1,
            final(self)@.wf(),
    {
        let ghost m = self@;
        let mut kept: Vec<UserSession> = Vec::new();
        let n = self.sessions.len();
        let mut i: usize = 0;
        while i < n
            invariant
                i <= n,
                self@ == m,
                n == m.sessions.len(),
                kept@ == sessions_without(m.sessions.subrange(0, i as int), session_id@),
                kept@.len() <= i,
            decreases n - i,
        {
            let s = &self.sessions[i];
            if !(s.id == *session_id) {
                kept.push(s.clone());
            }
            proof {
                reveal(Seq::filter);
                let prefix1 = m.sessions.subrange(0, i + 1 as int);
                let prefix0 = m.sessions.subrange(0, i as int);
                assert(prefix1.drop_last() =~= prefix0);
                assert(prefix1.last() == m.sessions[i as int]);
            }
            i += 1;
        }
        proof {
            assert(m.sessions.subrange(0, n as int) =~= m.sessions);
            lemma_session_filter_wf(m, session_keeps_id(session_id@));
        }
        let deleted = kept.len() < self.sessions.len();
        self.sessions = kept;
        deleted
    }
}

/// What survives an eviction: only sessions the predicate of
/// [`keep_session`] keeps, all drawn from the old list, and every
/// kept one survives.
pub proof fn lemma_purged_sessions_props(s: Seq<UserSession>, user_id: Seq<char>, now: u64)
    ensures
        purged_sessions(s, user_id, now).len() <= s.len(),
        forall|i: int|
            0 <= i < purged_sessions(s, user_id, now).len() ==> keep_session(
                #[trigger] purged_sessions(s, user_id, now)[i],
                user_id,
                now,
            ) && s.contains(purged_sessions(s, user_id, now)[i]),
        forall|i: int|
            0 <= i < s.len() && keep_session(#[trigger] s[i], user_id, now) ==> purged_sessions(
                s,
                user_id,
                now,
            ).contains(s[i]),
{
    let pred = session_survives(user_id, now);
    lemma_filter_membership(s, pred);
    s.lemma_filter_len(pred);
    assert forall|i: int| 0 <= i < purged_sessions(s, user_id, now).len() implies keep_session(
        #[trigger] purged_sessions(s, user_id, now)[i],
        user_id,
        now,
    ) && s.contains(purged_sessions(s, user_id, now)[i]) by {
        s.lemma_filter_pred(pred, i);
    }
    assert forall|i: int|
        0 <= i < s.len() && keep_session(#[trigger] s[i], user_id, now) implies purged_sessions(
        s,
        user_id,
        now,
    ).contains(s[i]) by {
        s.lemma_filter_contains(pred, i);
    }
}

/// An eviction that finds nothing expired changes nothing.
pub proof fn lemma_purge_keeps_all(m: StoreModel, user_id: Seq<char>, now: u64)
    requires
        forall|i: int|
            0 <= i < m.sessions.len() ==> keep_session(#[trigger] m.sessions[i], user_id, now),
    ensures
        spec_delete_expired(m, user_id, now) == m,
{
    lemma_filter_all_true(m.sessions, session_survives(user_id, now));
    assert(StoreModel {
        users: m.users,
        sessions: purged_sessions(m.sessions, user_id, now),
    } == m);
}

/// What survives a revocation: only sessions with another id, all
/// drawn from the old list, and every such session survives.
pub proof fn lemma_sessions_without_props(s: Seq<UserSession>, id: Seq<char>)
    ensures
        sessions_without(s, id).len() <= s.len(),
        forall|i: int|
            0 <= i < sessions_without(s, id).len() ==> (#[trigger] sessions_without(s, id)[i]).id@
                != id && s.contains(sessions_without(s, id)[i]),
        forall|i: int|
            0 <= i < s.len() && (#[trigger] s[i]).id@ != id ==> sessions_without(s, id).contains(
                s[i],
            ),
{
    let pred = session_keeps_id(id);
    lemma_filter_membership(s, pred);
    s.lemma_filter_len(pred);
    assert forall|i: int| 0 <= i < sessions_without(s, id).len() implies (
    #[trigger] sessions_without(s, id)[i]).id@ != id && s.contains(sessions_without(s, id)[i]) by {
        s.lemma_filter_pred(pred, i);
    }
    assert forall|i: int|
        0 <= i < s.len() && (#[trigger] s[i]).id@ != id implies sessions_without(s, id).contains(
        s[i],
    ) by {
        s.lemma_filter_contains(pred, i);
    }
}

/// Appending a matching user to a list without a match makes the
/// search find exactly that user.
proof fn lemma_find_user_push_match(
    users: Seq<User>,
    provider: AuthProvider,
    account_id: Seq<char>,
    u: User,
    i: int,
)
    requires
        0 <= i <= users.len(),
        find_user_at(users, provider, account_id, i) is None,
        user_key_is(u, provider, account_id),
    ensures
        find_user_at(users.push(u), provider, account_id, i) == Some(u),
    decreases users.len() - i,
{
    let p = users.push(u);
    if i < users.len() {
        assert(p[i] == users[i]);
        lemma_find_user_push_match(users, provider, account_id, u, i + 1);
    } else {
        assert(p[i] == u);
    }
}

/// Resolving the same external account twice never creates a second
/// user: whatever fresh id and display fields the second resolution
/// brings, it leaves the store unchanged and returns exactly the
/// record the first resolution returned.
pub proof fn lemma_get_or_create_user_idempotent(
    m: StoreModel,
    id1: String,
    id2: String,
    provider: AuthProvider,
    account_id1: String,
    account_id2: String,
    username1: String,
    username2: String,
    image1: Option<String>,
    image2: Option<String>,
)
    requires
        m.wf(),
        account_id1@ == account_id2@,
        spec_get_or_create_user(m, id1, provider, account_id1, username1, image1).1 is Ok,
    ensures
        ({
            let (m1, r1) = spec_get_or_create_user(m, id1, provider, account_id1, username1, image1);
            spec_get_or_create_user(m1, id2, provider, account_id2, username2, image2) == (m1, r1)
        }),
{
    let (m1, r1) = spec_get_or_create_user(m, id1, provider, account_id1, username1, image1);
    match find_user(m.users, provider, account_id1@) {
        Some(u) => {},
        None => {
            let u = User {
                id: id1,
                account_id: account_id1,
                provider,
                username: username1,
                image_url: image1,
            };
            lemma_find_user_push_match(m.users, provider, account_id1@, u, 0);
        },
    }
}

/// A session observed to be expired is never reported as valid, and
/// observing it removes every session with its id from storage.
pub proof fn lemma_validate_expired_session(m: StoreModel, session_id: Seq<char>, now: u64)
    requires
        m.wf(),
        forall|i: int|
            0 <= i < m.sessions.len() && (#[trigger] m.sessions[i]).id@ == session_id
                ==> m.sessions[i].expires_at <= now,
    ensures
        spec_validate_session(m, session_id, now).1 is None,
        forall|i: int|
            0 <= i < spec_validate_session(m, session_id, now).0.sessions.len() ==> (
            #[trigger] spec_validate_session(m, session_id, now).0.sessions[i]).id@ != session_id,
{
    let (m2, r) = spec_validate_session(m, session_id, now);
    lemma_find_session_at_props(m.sessions, session_id, 0);
    match find_session(m.sessions, session_id) {
        None => {},
        Some(s) => {
            let j = choose|j: int|
                0 <= j < m.sessions.len() && #[trigger] m.sessions[j] == s && s.id@ == session_id;
            assert(s.expires_at <= now);
            let pred = session_survives(s.user_id@, now);
            lemma_filter_membership(m.sessions, pred);
            assert forall|i: int| 0 <= i < m2.sessions.len() implies (
            #[trigger] m2.sessions[i]).id@ != session_id by {
                if m2.sessions[i].id@ == session_id {
                    assert(m.sessions.contains(m2.sessions[i]));
                    let k = choose|k: int|
                        0 <= k < m.sessions.len() && m.sessions[k] == m2.sessions[i];
                    assert(k == j);
                    m.sessions.lemma_filter_pred(pred, i);
                    assert(false);
                }
            }
        },
    }
}

/// Revoking a session id that is not in the store deletes nothing
/// and leaves the store unchanged; revoking never fails.
pub proof fn lemma_revoke_absent(m: StoreModel, session_id: Seq<char>)
    requires
        find_session(m.sessions, session_id) is None,
    ensures
        spec_revoke_session(m, session_id) == (m, false),
{
    lemma_find_session_at_props(m.sessions, session_id, 0);
    let pred = session_keeps_id(session_id);
    assert(forall|i: int| 0 <= i < m.sessions.len() ==> pred(#[trigger] m.sessions[i]));
    lemma_filter_all_true(m.sessions, pred);
    assert(StoreModel {
        users: m.users,
        sessions: sessions_without(m.sessions, session_id),
    } == m);
}

/// The revocation flag is exact: something is deleted precisely when
/// a session with that id is in the store.
pub proof fn lemma_revoke_deleted_iff_present(m: StoreModel, session_id: Seq<char>)
    ensures
        spec_revoke_session(m, session_id).1 <==> find_session(m.sessions, session_id) is Some,
{
    lemma_find_session_at_props(m.sessions, session_id, 0);
    match find_session(m.sessions, session_id) {
        None => {
            lemma_revoke_absent(m, session_id);
        },
        Some(s) => {
            let j = choose|j: int|
                0 <= j < m.sessions.len() && #[trigger] m.sessions[j] == s && s.id@ == session_id;
            lemma_filter_drops(m.sessions, session_keeps_id(session_id), j);
        },
    }
}

/// Revoking the same session twice deletes it once: the second
/// revocation reports nothing deleted and changes nothing.
pub proof fn lemma_revoke_idempotent(m: StoreModel, session_id: Seq<char>)
    ensures
        ({
            let m1 = spec_revoke_session(m, session_id).0;
            spec_revoke_session(m1, session_id) == (m1, false)
        }),
{
    let m1 = spec_revoke_session(m, session_id).0;
    let pred = session_keeps_id(session_id);
    assert forall|i: int| 0 <= i < m1.sessions.len() implies (
    #[trigger] m1.sessions[i]).id@ != session_id by {
        m.sessions.lemma_filter_pred(pred, i);
    }
    lemma_find_session_at_props(m1.sessions, session_id, 0);
    if find_session(m1.sessions, session_id) is Some {
        assert(false);
    }
    lemma_revoke_absent(m1, session_id);
}

} // verus!
