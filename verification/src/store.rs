use rand::Rng;
use vstd::hash_map::StringHashMap;
use vstd::prelude::*;

use crate::text::{str_eq, strings_view};

verus! {

/// Upper bound on stored login sessions: starting a session is unauthenticated,
/// so the store must not grow without limit.
pub const MAX_SESSIONS: usize = 10000;

/// The largest number of milliseconds a `std::time::Duration` holds.
pub const MAX_DURATION_MILLIS: u128 = 18446744073709551615999;

/// A user as the identity provider described them.
#[derive(Clone, Debug, PartialEq, Eq)]
pub struct UserIdentity {
    pub user_id: String,
    pub display_name: String,
    pub preferred_username: String,
}

pub struct UserIdentityView {
    pub user_id: Seq<char>,
    pub display_name: Seq<char>,
    pub preferred_username: Seq<char>,
}

impl View for UserIdentity {
    type V = UserIdentityView;

    open spec fn view(&self) -> UserIdentityView {
        UserIdentityView {
            user_id: self.user_id@,
            display_name: self.display_name@,
            preferred_username: self.preferred_username@,
        }
    }
}

impl UserIdentity {
    /// A copy with the same contents.
    pub fn duplicate(&self) -> (result: UserIdentity)
        ensures
            result@ == self@,
    {
        UserIdentity {
            user_id: self.user_id.clone(),
            display_name: self.display_name.clone(),
            preferred_username: self.preferred_username.clone(),
        }
    }
}

/// The secrets of one OIDC authorization-code attempt.
#[derive(Clone, Debug)]
pub struct OidcAttempt {
    pub csrf_state: String,
    pub nonce: String,
    pub pkce_verifier: String,
}

pub struct OidcAttemptView {
    pub csrf_state: Seq<char>,
    pub nonce: Seq<char>,
    pub pkce_verifier: Seq<char>,
}

impl View for OidcAttempt {
    type V = OidcAttemptView;

    open spec fn view(&self) -> OidcAttemptView {
        OidcAttemptView {
            csrf_state: self.csrf_state@,
            nonce: self.nonce@,
            pkce_verifier: self.pkce_verifier@,
        }
    }
}

impl OidcAttempt {
    /// A copy with the same contents.
    pub fn duplicate(&self) -> (result: OidcAttempt)
        ensures
            result@ == self@,
    {
        OidcAttempt {
            csrf_state: self.csrf_state.clone(),
            nonce: self.nonce.clone(),
            pkce_verifier: self.pkce_verifier.clone(),
        }
    }
}

/// A finished login: the user and the token issued to them.
#[derive(Clone, Debug)]
pub struct CompletedSession {
    pub user: UserIdentity,
    pub token: String,
    pub token_expires_at: i64,
}

pub struct CompletedSessionView {
    pub user: UserIdentityView,
    pub token: Seq<char>,
    pub token_expires_at: i64,
}

impl View for CompletedSession {
    type V = CompletedSessionView;

    open spec fn view(&self) -> CompletedSessionView {
        CompletedSessionView { user: self.user@, token: self.token@, token_expires_at: self.token_expires_at }
    }
}

/// Where a login session stands.
#[derive(Clone, Debug)]
pub enum SessionState {
    Pending { oidc: Option<OidcAttempt> },
    Completed(CompletedSession),
}

pub enum SessionStateView {
    Pending { oidc: Option<OidcAttemptView> },
    Completed(CompletedSessionView),
}

impl View for SessionState {
    type V = SessionStateView;

    open spec fn view(&self) -> SessionStateView {
        match self {
            SessionState::Pending { oidc } => SessionStateView::Pending {
                oidc: match oidc {
                    Some(a) => Some(a@),
                    None => None,
                },
            },
            SessionState::Completed(c) => SessionStateView::Completed(c@),
        }
    }
}

impl SessionState {
    /// A copy with the same contents.
    pub fn duplicate(&self) -> (result: SessionState)
        ensures
            result@ == self@,
    {
        match self {
            SessionState::Pending { oidc } => SessionState::Pending {
                oidc: match oidc {
                    Some(a) => Some(a.duplicate()),
                    None => None,
                },
            },
            SessionState::Completed(c) => SessionState::Completed(
                CompletedSession { user: c.user.duplicate(), token: c.token.clone(), token_expires_at: c.token_expires_at },
            ),
        }
    }
}

/// One browser login started by a Lore client. `expires_at` is in milliseconds
/// since the Unix epoch.
#[derive(Clone, Debug)]
pub struct AuthSession {
    pub code: String,
    pub client_state: String,
    pub expires_at: u128,
    pub state: SessionState,
}

pub struct AuthSessionView {
    pub code: Seq<char>,
    pub client_state: Seq<char>,
    pub expires_at: u128,
    pub state: SessionStateView,
}

impl View for AuthSession {
    type V = AuthSessionView;

    open spec fn view(&self) -> AuthSessionView {
        AuthSessionView {
            code: self.code@,
            client_state: self.client_state@,
            expires_at: self.expires_at,
            state: self.state@,
        }
    }
}

impl AuthSession {
    /// A copy with the same contents.
    pub fn duplicate(&self) -> (result: AuthSession)
        ensures
            result@ == self@,
    {
        AuthSession {
            code: self.code.clone(),
            client_state: self.client_state.clone(),
            expires_at: self.expires_at,
            state: self.state.duplicate(),
        }
    }
}

/// Why a session operation was refused.
#[derive(Clone, Copy, Debug, PartialEq, Eq, Structural)]
pub enum StoreError {
    NotFound,
    Expired,
    NotPending,
    OidcNotStarted,
    InvalidOidcState,
    CapacityExceeded,
}

pub open spec fn store_error_message(e: StoreError) -> Seq<char> {
    match e {
        StoreError::NotFound => "session not found"@,
        StoreError::Expired => "session expired"@,
        StoreError::NotPending => "session is not pending"@,
        StoreError::OidcNotStarted => "OIDC login has not started"@,
        StoreError::InvalidOidcState => "OIDC state does not match"@,
        StoreError::CapacityExceeded => "too many pending login sessions"@,
    }
}

impl StoreError {
    /// The human-readable text of this error.
    pub fn message(&self) -> (result: String)
        ensures
            result@ == store_error_message(*self),
    {
        match self {
            StoreError::NotFound => "session not found".to_owned(),
            StoreError::Expired => "session expired".to_owned(),
            StoreError::NotPending => "session is not pending".to_owned(),
            StoreError::OidcNotStarted => "OIDC login has not started".to_owned(),
            StoreError::InvalidOidcState => "OIDC state does not match".to_owned(),
            StoreError::CapacityExceeded => "too many pending login sessions".to_owned(),
        }
    }
}

/// The abstract contents of a [`MemoryStore`]: sessions by code, the code of the
/// session waiting on each OIDC `state`, users by ID, and the session lifetime.
pub struct StoreView {
    pub sessions: Map<Seq<char>, AuthSessionView>,
    pub oidc_index: Map<Seq<char>, Seq<char>>,
    pub users: Map<Seq<char>, UserIdentityView>,
    pub ttl: u128,
}

/// A session is usable strictly before its expiry instant.
pub open spec fn is_fresh(session: AuthSessionView, now: u128) -> bool {
    now < session.expires_at
}

/// The store after dropping every expired session and every OIDC state whose
/// session is gone.
pub open spec fn purge(v: StoreView, now: u128) -> StoreView {
    let sessions = Map::new(
        |k: Seq<char>| v.sessions.contains_key(k) && is_fresh(v.sessions[k], now),
        |k: Seq<char>| v.sessions[k],
    );
    let oidc_index = Map::new(
        |st: Seq<char>| v.oidc_index.contains_key(st) && sessions.contains_key(v.oidc_index[st]),
        |st: Seq<char>| v.oidc_index[st],
    );
    StoreView { sessions, oidc_index, users: v.users, ttl: v.ttl }
}

pub open spec fn session_result(r: Result<AuthSession, StoreError>) -> Result<AuthSessionView, StoreError> {
    match r {
        Ok(s) => Ok(s@),
        Err(e) => Err(e),
    }
}

/// The session stored under `code`, if it has not expired.
pub open spec fn spec_get(v: StoreView, code: Seq<char>, now: u128) -> Result<AuthSessionView, StoreError> {
    if !v.sessions.contains_key(code) {
        Err(StoreError::NotFound)
    } else if !is_fresh(v.sessions[code], now) {
        Err(StoreError::Expired)
    } else {
        Ok(v.sessions[code])
    }
}

/// A freshly started session: pending, with no OIDC attempt, living `ttl` milliseconds.
pub open spec fn new_session(code: Seq<char>, client_state: Seq<char>, now: u128, ttl: u128) -> AuthSessionView {
    AuthSessionView {
        code,
        client_state,
        expires_at: (now + ttl) as u128,
        state: SessionStateView::Pending { oidc: None },
    }
}

/// Starting a session: purge, refuse at capacity, otherwise store the new session under `code`.
pub open spec fn spec_create(v: StoreView, client_state: Seq<char>, code: Seq<char>, now: u128) -> (
    StoreView,
    Result<AuthSessionView, StoreError>,
) {
    let p = purge(v, now);
    if p.sessions.len() >= MAX_SESSIONS {
        (p, Err(StoreError::CapacityExceeded))
    } else {
        let session = new_session(code, client_state, now, v.ttl);
        (
            StoreView {
                sessions: p.sessions.insert(code, session),
                oidc_index: p.oidc_index,
                users: p.users,
                ttl: p.ttl,
            },
            Ok(session),
        )
    }
}

/// The OIDC index without the state of a replaced or finished attempt.
pub open spec fn index_without(index: Map<Seq<char>, Seq<char>>, oidc: Option<OidcAttemptView>) -> Map<
    Seq<char>,
    Seq<char>,
> {
    match oidc {
        Some(previous) => index.remove(previous.csrf_state),
        None => index,
    }
}

/// Recording an OIDC attempt on a pending session; a previous attempt's state stops resolving.
pub open spec fn spec_begin_oidc(v: StoreView, code: Seq<char>, attempt: OidcAttemptView, now: u128) -> (
    StoreView,
    Result<(), StoreError>,
) {
    match spec_get(v, code, now) {
        Err(e) => (v, Err(e)),
        Ok(s) => match s.state {
            SessionStateView::Completed(_) => (v, Err(StoreError::NotPending)),
            SessionStateView::Pending { oidc } => {
                let updated = AuthSessionView {
                    code: s.code,
                    client_state: s.client_state,
                    expires_at: s.expires_at,
                    state: SessionStateView::Pending { oidc: Some(attempt) },
                };
                (
                    StoreView {
                        sessions: v.sessions.insert(code, updated),
                        oidc_index: index_without(v.oidc_index, oidc).insert(attempt.csrf_state, code),
                        users: v.users,
                        ttl: v.ttl,
                    },
                    Ok(()),
                )
            },
        },
    }
}

/// Whether a session waits on an OIDC attempt with exactly this state.
pub open spec fn awaits_state(state: SessionStateView, csrf_state: Seq<char>) -> bool {
    match state {
        SessionStateView::Pending { oidc: Some(a) } => a.csrf_state == csrf_state,
        _ => false,
    }
}

/// The pending session whose current OIDC attempt carries `state`.
pub open spec fn spec_session_for_oidc_state(v: StoreView, state: Seq<char>, now: u128) -> Result<
    AuthSessionView,
    StoreError,
> {
    if v.oidc_index.contains_key(state) && v.sessions.contains_key(v.oidc_index[state]) && awaits_state(
        v.sessions[v.oidc_index[state]].state,
        state,
    ) {
        if is_fresh(v.sessions[v.oidc_index[state]], now) {
            Ok(v.sessions[v.oidc_index[state]])
        } else {
            Err(StoreError::Expired)
        }
    } else {
        Err(StoreError::InvalidOidcState)
    }
}

/// Finishing a pending session: it records the user and token, its OIDC state
/// stops resolving, and the user becomes known to the directory.
pub open spec fn spec_complete(
    v: StoreView,
    code: Seq<char>,
    user: UserIdentityView,
    token: Seq<char>,
    token_expires_at: i64,
    now: u128,
) -> (StoreView, Result<(), StoreError>) {
    match spec_get(v, code, now) {
        Err(e) => (v, Err(e)),
        Ok(s) => match s.state {
            SessionStateView::Completed(_) => (v, Err(StoreError::NotPending)),
            SessionStateView::Pending { oidc } => {
                let completed = AuthSessionView {
                    code: s.code,
                    client_state: s.client_state,
                    expires_at: s.expires_at,
                    state: SessionStateView::Completed(CompletedSessionView { user, token, token_expires_at }),
                };
                (
                    StoreView {
                        sessions: v.sessions.insert(code, completed),
                        oidc_index: index_without(v.oidc_index, oidc),
                        users: v.users.insert(user.user_id, user),
                        ttl: v.ttl,
                    },
                    Ok(()),
                )
            },
        },
    }
}

/// The known users among `ids`, in the order of `ids`.
pub open spec fn spec_users_by_id(v: StoreView, ids: Seq<Seq<char>>) -> Seq<UserIdentityView> {
    ids.filter(|id: Seq<char>| v.users.contains_key(id)).map_values(|id: Seq<char>| v.users[id])
}

/// A session that was just started can be read back, pending and with the
/// client's state, until it expires.
pub proof fn law_created_session_is_readable(
    v: StoreView,
    client_state: Seq<char>,
    code: Seq<char>,
    now: u128,
    later: u128,
)
    requires
        spec_create(v, client_state, code, now).1 is Ok,
        later < spec_create(v, client_state, code, now).1->Ok_0.expires_at,
    ensures
        spec_get(spec_create(v, client_state, code, now).0, code, later) == spec_create(v, client_state, code, now).1,
        spec_create(v, client_state, code, now).1->Ok_0.client_state == client_state,
        spec_create(v, client_state, code, now).1->Ok_0.state == (SessionStateView::Pending { oidc: None }),
{
}

/// A code that was never stored is answered with `NotFound`, before and after
/// another session is started.
pub proof fn law_unknown_code_is_not_found(
    v: StoreView,
    client_state: Seq<char>,
    code: Seq<char>,
    other: Seq<char>,
    now: u128,
    later: u128,
)
    requires
        !v.sessions.contains_key(other),
        other != code,
    ensures
        spec_get(v, other, later) == Err::<AuthSessionView, StoreError>(StoreError::NotFound),
        spec_get(spec_create(v, client_state, code, now).0, other, later) == Err::<AuthSessionView, StoreError>(
            StoreError::NotFound,
        ),
{
}

/// From its expiry instant on, a session is answered with `Expired`.
pub proof fn law_session_expires(v: StoreView, client_state: Seq<char>, code: Seq<char>, now: u128, later: u128)
    requires
        spec_create(v, client_state, code, now).1 is Ok,
        later >= now + v.ttl,
        now + v.ttl <= u128::MAX,
    ensures
        spec_get(spec_create(v, client_state, code, now).0, code, later) == Err::<AuthSessionView, StoreError>(
            StoreError::Expired,
        ),
{
}

/// Starting a new OIDC attempt replaces the previous one: the old state no
/// longer finds the session, the new one does while it is fresh.
pub proof fn law_new_attempt_replaces_old(
    v: StoreView,
    code: Seq<char>,
    first: OidcAttemptView,
    second: OidcAttemptView,
    now: u128,
    later: u128,
)
    requires
        spec_begin_oidc(v, code, first, now).1 is Ok,
        spec_begin_oidc(spec_begin_oidc(v, code, first, now).0, code, second, now).1 is Ok,
        first.csrf_state != second.csrf_state,
    ensures
        ({
            let after = spec_begin_oidc(spec_begin_oidc(v, code, first, now).0, code, second, now).0;
            &&& spec_session_for_oidc_state(after, first.csrf_state, later) == Err::<AuthSessionView, StoreError>(
                StoreError::InvalidOidcState,
            )
            &&& spec_session_for_oidc_state(after, second.csrf_state, later) == spec_get(after, code, later)
        }),
{
    let middle = spec_begin_oidc(v, code, first, now).0;
    let after = spec_begin_oidc(middle, code, second, now).0;
    assert(middle.sessions[code].state == (SessionStateView::Pending { oidc: Some(first) }));
    assert(!after.oidc_index.contains_key(first.csrf_state));
    assert(after.oidc_index[second.csrf_state] == code);
}

/// The state of a begun OIDC attempt leads back to its session, as long as the
/// session is fresh; the session then waits on exactly that attempt.
pub proof fn law_attempt_state_finds_session(
    v: StoreView,
    code: Seq<char>,
    attempt: OidcAttemptView,
    now: u128,
    later: u128,
)
    requires
        spec_begin_oidc(v, code, attempt, now).1 is Ok,
    ensures
        ({
            let after = spec_begin_oidc(v, code, attempt, now).0;
            &&& spec_session_for_oidc_state(after, attempt.csrf_state, later) == spec_get(after, code, later)
            &&& after.sessions[code].state == (SessionStateView::Pending { oidc: Some(attempt) })
        }),
{
}

/// A completed session is final: no OIDC state finds it any more, and
/// completing it again is refused.
pub proof fn law_completion_is_final(
    v: StoreView,
    code: Seq<char>,
    user: UserIdentityView,
    token: Seq<char>,
    token_expires_at: i64,
    now: u128,
    state: Seq<char>,
    later: u128,
    again: UserIdentityView,
    again_token: Seq<char>,
    again_expires_at: i64,
)
    requires
        spec_complete(v, code, user, token, token_expires_at, now).1 is Ok,
    ensures
        ({
            let after = spec_complete(v, code, user, token, token_expires_at, now).0;
            &&& spec_session_for_oidc_state(after, state, later) is Ok ==> after.oidc_index[state] != code
            &&& spec_complete(after, code, again, again_token, again_expires_at, later).1 != Ok::<(), StoreError>(())
        }),
{
    let after = spec_complete(v, code, user, token, token_expires_at, now).0;
    assert(after.sessions[code].state is Completed);
}

/// Completing a login makes the user known to the directory.
pub proof fn law_completed_user_is_known(
    v: StoreView,
    code: Seq<char>,
    user: UserIdentityView,
    token: Seq<char>,
    token_expires_at: i64,
    now: u128,
)
    requires
        spec_complete(v, code, user, token, token_expires_at, now).1 is Ok,
    ensures
        spec_complete(v, code, user, token, token_expires_at, now).0.users.contains_key(user.user_id),
        spec_complete(v, code, user, token, token_expires_at, now).0.users[user.user_id] == user,
        spec_users_by_id(spec_complete(v, code, user, token, token_expires_at, now).0, seq![user.user_id]) == seq![user],
{
    let after = spec_complete(v, code, user, token, token_expires_at, now).0;
    let ids = seq![user.user_id];
    reveal_with_fuel(Seq::filter, 2);
    assert(ids.drop_last() =~= Seq::<Seq<char>>::empty());
    assert(ids.filter(|id: Seq<char>| after.users.contains_key(id)) =~= ids);
    assert(spec_users_by_id(after, ids) =~= seq![user]);
}

/// Purging never drops a session that is still fresh, and drops every expired one.
pub proof fn law_purge_keeps_exactly_fresh_sessions(v: StoreView, now: u128, code: Seq<char>)
    ensures
        purge(v, now).sessions.contains_key(code) <==> (v.sessions.contains_key(code) && is_fresh(v.sessions[code], now)),
        purge(v, now).sessions.contains_key(code) ==> purge(v, now).sessions[code] == v.sessions[code],
        purge(v, now).users == v.users,
{
}

/// Every key of `dom` occurs in `list`.
pub open spec fn keys_listed(list: Seq<String>, dom: Set<Seq<char>>) -> bool {
    forall|k: Seq<char>| #[trigger] dom.contains(k) ==> exists|j: int| 0 <= j < list.len() && (#[trigger] list[j])@ == k
}

/// A 48-character code of ASCII letters and digits.
pub open spec fn is_session_code(code: Seq<char>) -> bool {
    &&& code.len() == 48
    &&& forall|i: int| 0 <= i < code.len() ==> {
        let c = #[trigger] code[i];
        ('a' <= c <= 'z') || ('A' <= c <= 'Z') || ('0' <= c <= '9')
    }
}

/// 48 characters drawn by `rand::rng().sample_iter(rand::distr::Alphanumeric)`:
/// a fresh random code of ASCII letters and digits.
#[verifier::external_body]
fn random_session_code() -> (code: String)
    ensures
        is_session_code(code@),
{
    rand::rng().sample_iter(&rand::distr::Alphanumeric).take(48).map(char::from).collect()
}

/// In-memory login sessions and user directory.
pub struct MemoryStore {
    sessions: StringHashMap<AuthSession>,
    codes: Vec<String>,
    code_by_oidc_state: StringHashMap<String>,
    oidc_states: Vec<String>,
    users: StringHashMap<UserIdentity>,
    user_ids: Vec<String>,
    ttl_millis: u128,
    earliest_expiry: u128,
}

impl View for MemoryStore {
    type V = StoreView;

    closed spec fn view(&self) -> StoreView {
        StoreView {
            sessions: self.sessions@.map_values(|s: AuthSession| s@),
            oidc_index: self.code_by_oidc_state@.map_values(|c: String| c@),
            users: self.users@.map_values(|u: UserIdentity| u@),
            ttl: self.ttl_millis,
        }
    }
}

impl MemoryStore {
    /// The store's internal consistency.
    pub closed spec fn wf(&self) -> bool {
        &&& keys_listed(self.codes@, self.sessions@.dom())
        &&& keys_listed(self.oidc_states@, self.code_by_oidc_state@.dom())
        &&& keys_listed(self.user_ids@, self.users@.dom())
        &&& self.sessions@.dom().finite()
        &&& self.sessions@.len() <= MAX_SESSIONS
        &&& forall|k: Seq<char>| #[trigger] self.sessions@.contains_key(k) ==> self.sessions@[k]@.code == k
            && self.earliest_expiry <= self.sessions@[k].expires_at
        &&& forall|st: Seq<char>| #[trigger] self.code_by_oidc_state@.contains_key(st) ==> self.sessions@.contains_key(
            self.code_by_oidc_state@[st]@,
        )
        &&& forall|k: Seq<char>| #[trigger] self.users@.contains_key(k) ==> self.users@[k]@.user_id == k
        &&& self.ttl_millis <= MAX_DURATION_MILLIS
    }

    /// The store holds at most [`MAX_SESSIONS`] sessions.
    pub proof fn law_sessions_are_bounded(&self)
        requires
            self.wf(),
        ensures
            self@.sessions.dom().finite(),
            self@.sessions.len() <= MAX_SESSIONS,
    {
        assert(self@.sessions.dom() =~= self.sessions@.dom());
    }

    /// An empty store whose sessions live `ttl_millis` milliseconds.
    pub fn new(ttl_millis: u128) -> (result: MemoryStore)
        requires
            ttl_millis <= MAX_DURATION_MILLIS,
        ensures
            result.wf(),
            result@.sessions == Map::<Seq<char>, AuthSessionView>::empty(),
            result@.oidc_index == Map::<Seq<char>, Seq<char>>::empty(),
            result@.users == Map::<Seq<char>, UserIdentityView>::empty(),
            result@.ttl == ttl_millis,
    {
        let result = MemoryStore {
            sessions: StringHashMap::new(),
            codes: Vec::new(),
            code_by_oidc_state: StringHashMap::new(),
            oidc_states: Vec::new(),
            users: StringHashMap::new(),
            user_ids: Vec::new(),
            ttl_millis,
            earliest_expiry: 0,
        };
        assert(result@.sessions =~= Map::<Seq<char>, AuthSessionView>::empty());
        assert(result@.oidc_index =~= Map::<Seq<char>, Seq<char>>::empty());
        assert(result@.users =~= Map::<Seq<char>, UserIdentityView>::empty());
        result
    }

    /// Drops expired sessions and OIDC states whose session is gone.
    pub fn purge_expired(&mut self, now: u128)
        requires
            old(self).wf(),
        ensures
            final(self).wf(),
            final(self)@ == purge(old(self)@, now),
    {
        if now < self.earliest_expiry {
            proof {
                assert(self@.sessions =~= purge(old(self)@, now).sessions);
                assert(self@.oidc_index =~= purge(old(self)@, now).oidc_index);
            }
            return;
        }
        let ghost old_sessions = self.sessions@;
        let mut kept: Vec<String> = Vec::new();
        let mut earliest: u128 = u128::MAX;
        let n = self.codes.len();
        let mut i: usize = 0;
        while i < n
            invariant
                old(self).wf(),
                n == self.codes@.len(),
                self.codes == old(self).codes,
                self.code_by_oidc_state == old(self).code_by_oidc_state,
                self.oidc_states == old(self).oidc_states,
                self.users == old(self).users,
                self.user_ids == old(self).user_ids,
                self.ttl_millis == old(self).ttl_millis,
                old_sessions == old(self).sessions@,
                i <= n,
                forall|k: Seq<char>| #[trigger] self.sessions@.contains_key(k) <==> (old_sessions.contains_key(k) && (
                    now < old_sessions[k].expires_at || forall|j: int| 0 <= j < i ==> (#[trigger] self.codes@[j])@ != k)),
                forall|k: Seq<char>| #[trigger] self.sessions@.contains_key(k) ==> self.sessions@[k] == old_sessions[k],
                forall|k: Seq<char>| #[trigger] self.sessions@.contains_key(k) ==> (exists|j: int|
                    0 <= j < kept@.len() && (#[trigger] kept@[j])@ == k) || (exists|j: int| i <= j < n && (#[trigger] self.codes@[j])@ == k),
                forall|k: Seq<char>| #[trigger] self.sessions@.contains_key(k) ==> earliest <= self.sessions@[k].expires_at
                    || (exists|j: int| i <= j < n && (#[trigger] self.codes@[j])@ == k),
            decreases n - i,
        {
            let code = self.codes[i].clone();
            let ghost c = code@;
            let ghost before = self.sessions@;
            let ghost kept_before = kept@;
            let found = match self.sessions.get(code.as_str()) {
                None => None,
                Some(session) => Some(session.expires_at),
            };
            match found {
                None => {},
                Some(expires) => {
                    if now < expires {
                        kept.push(code);
                        if expires < earliest {
                            earliest = expires;
                        }
                    } else {
                        self.sessions.remove(code.as_str());
                    }
                },
            }
            proof {
                assert(self.codes@[i as int]@ == c);
                assert forall|k: Seq<char>| #[trigger] self.sessions@.contains_key(k) <==> (old_sessions.contains_key(k) && (
                    now < old_sessions[k].expires_at || forall|j: int| 0 <= j < i + 1 ==> (#[trigger] self.codes@[j])@ != k)) by {
                    if k == c {
                        if before.contains_key(c) {
                            assert(before[c] == old_sessions[c]);
                        }
                    } else {
                        assert(before.contains_key(k) == self.sessions@.contains_key(k));
                        if forall|j: int| 0 <= j < i ==> (#[trigger] self.codes@[j])@ != k {
                            assert forall|j: int| 0 <= j < i + 1 implies (#[trigger] self.codes@[j])@ != k by {}
                        }
                    }
                }
                assert forall|k: Seq<char>| #[trigger] self.sessions@.contains_key(k) implies (exists|j: int|
                    0 <= j < kept@.len() && (#[trigger] kept@[j])@ == k) || (exists|j: int| i + 1 <= j < n && (#[trigger] self.codes@[j])@ == k) by {
                    assert(before.contains_key(k));
                    if exists|j: int| 0 <= j < kept_before.len() && (#[trigger] kept_before[j])@ == k {
                        let j = choose|j: int| 0 <= j < kept_before.len() && (#[trigger] kept_before[j])@ == k;
                        assert(kept@[j] == kept_before[j]);
                    } else if k == c {
                        assert(kept@[kept@.len() - 1]@ == k);
                    } else {
                        let j = choose|j: int| i <= j < n && (#[trigger] self.codes@[j])@ == k;
                        assert(j != i);
                    }
                }
                assert forall|k: Seq<char>| #[trigger] self.sessions@.contains_key(k) implies earliest <= self.sessions@[k].expires_at
                    || (exists|j: int| i + 1 <= j < n && (#[trigger] self.codes@[j])@ == k) by {
                    assert(before.contains_key(k));
                    if k != c {
                        if !(earliest <= self.sessions@[k].expires_at) {
                            let j = choose|j: int| i <= j < n && (#[trigger] self.codes@[j])@ == k;
                            assert(j != i);
                        }
                    }
                }
            }
            i = i + 1;
        }
        self.codes = kept;
        self.earliest_expiry = earliest;
        proof {
            assert forall|k: Seq<char>| #[trigger] self.sessions@.contains_key(k) <==> (old_sessions.contains_key(k) && now
                < old_sessions[k].expires_at) by {
                if old_sessions.contains_key(k) && !(now < old_sessions[k].expires_at) {
                    assert(old_sessions.dom().contains(k));
                    let j = choose|j: int| 0 <= j < old(self).codes@.len() && (#[trigger] old(self).codes@[j])@ == k;
                    assert(old(self).codes@[j]@ == k);
                }
            }
            vstd::set_lib::lemma_len_subset(self.sessions@.dom(), old_sessions.dom());
            assert(self@.sessions =~= purge(old(self)@, now).sessions);
        }
        let ghost old_index = self.code_by_oidc_state@;
        let ghost codes_after = self.codes;
        let ghost sessions_after = self.sessions@;
        let mut kept_states: Vec<String> = Vec::new();
        let m = self.oidc_states.len();
        let mut i: usize = 0;
        while i < m
            invariant
                old(self).wf(),
                m == self.oidc_states@.len(),
                self.oidc_states == old(self).oidc_states,
                old_index == old(self).code_by_oidc_state@,
                self@.sessions == purge(old(self)@, now).sessions,
                self.codes == codes_after,
                self.sessions@ == sessions_after,
                self.earliest_expiry == earliest,
                self.users == old(self).users,
                self.user_ids == old(self).user_ids,
                self.ttl_millis == old(self).ttl_millis,
                forall|k: Seq<char>| #[trigger] self.sessions@.contains_key(k) ==> (exists|j: int|
                    0 <= j < self.codes@.len() && (#[trigger] self.codes@[j])@ == k) && self.sessions@[k]@.code == k
                    && self.earliest_expiry <= self.sessions@[k].expires_at,
                self.sessions@.dom().finite(),
                self.sessions@.len() <= MAX_SESSIONS,
                i <= m,
                forall|st: Seq<char>| #[trigger] self.code_by_oidc_state@.contains_key(st) <==> (old_index.contains_key(st) && (
                    self.sessions@.contains_key(old_index[st]@) || forall|j: int| 0 <= j < i ==> (#[trigger] self.oidc_states@[j])@ != st)),
                forall|st: Seq<char>| #[trigger] self.code_by_oidc_state@.contains_key(st) ==> self.code_by_oidc_state@[st] == old_index[st],
                forall|st: Seq<char>| #[trigger] self.code_by_oidc_state@.contains_key(st) ==> (exists|j: int|
                    0 <= j < kept_states@.len() && (#[trigger] kept_states@[j])@ == st) || (exists|j: int| i <= j < m && (#[trigger] self.oidc_states@[j])@ == st),
            decreases m - i,
        {
            let state = self.oidc_states[i].clone();
            let ghost c = state@;
            let ghost before = self.code_by_oidc_state@;
            let ghost kept_before = kept_states@;
            let live = match self.code_by_oidc_state.get(state.as_str()) {
                None => None,
                Some(code) => Some(self.sessions.contains_key(code.as_str())),
            };
            match live {
                None => {},
                Some(true) => {
                    kept_states.push(state);
                },
                Some(false) => {
                    self.code_by_oidc_state.remove(state.as_str());
                },
            }
            proof {
                assert(self.oidc_states@[i as int]@ == c);
                assert forall|st: Seq<char>| #[trigger] self.code_by_oidc_state@.contains_key(st) <==> (old_index.contains_key(st) && (
                    self.sessions@.contains_key(old_index[st]@) || forall|j: int| 0 <= j < i + 1 ==> (#[trigger] self.oidc_states@[j])@ != st)) by {
                    if st == c {
                        if before.contains_key(c) {
                            assert(before[c] == old_index[c]);
                        }
                    } else {
                        assert(before.contains_key(st) == self.code_by_oidc_state@.contains_key(st));
                        if forall|j: int| 0 <= j < i ==> (#[trigger] self.oidc_states@[j])@ != st {
                            assert forall|j: int| 0 <= j < i + 1 implies (#[trigger] self.oidc_states@[j])@ != st by {}
                        }
                    }
                }
                assert forall|st: Seq<char>| #[trigger] self.code_by_oidc_state@.contains_key(st) implies (exists|j: int|
                    0 <= j < kept_states@.len() && (#[trigger] kept_states@[j])@ == st) || (exists|j: int| i + 1 <= j < m && (#[trigger] self.oidc_states@[j])@ == st) by {
                    assert(before.contains_key(st));
                    if exists|j: int| 0 <= j < kept_before.len() && (#[trigger] kept_before[j])@ == st {
                        let j = choose|j: int| 0 <= j < kept_before.len() && (#[trigger] kept_before[j])@ == st;
                        assert(kept_states@[j] == kept_before[j]);
                    } else if st == c {
                        assert(kept_states@[kept_states@.len() - 1]@ == st);
                    } else {
                        let j = choose|j: int| i <= j < m && (#[trigger] self.oidc_states@[j])@ == st;
                        assert(j != i);
                    }
                }
            }
            i = i + 1;
        }
        self.oidc_states = kept_states;
        proof {
            assert forall|st: Seq<char>| #[trigger] self.code_by_oidc_state@.contains_key(st) <==> (old_index.contains_key(st)
                && self.sessions@.contains_key(old_index[st]@)) by {
                if old_index.contains_key(st) && !self.sessions@.contains_key(old_index[st]@) {
                    assert(old_index.dom().contains(st));
                    let j = choose|j: int| 0 <= j < old(self).oidc_states@.len() && (#[trigger] old(self).oidc_states@[j])@ == st;
                    assert(old(self).oidc_states@[j]@ == st);
                }
            }
            assert(self@.oidc_index =~= purge(old(self)@, now).oidc_index);
            assert(self@.users =~= purge(old(self)@, now).users);
        }
    }

    /// Starts a pending session stored under `code`, after dropping expired
    /// sessions; refused when the store is full.
    pub fn create_session_with_code(&mut self, client_state: String, code: String, now: u128) -> (result: Result<
        AuthSession,
        StoreError,
    >)
        requires
            old(self).wf(),
            now <= MAX_DURATION_MILLIS,
        ensures
            final(self).wf(),
            (final(self)@, session_result(result)) == spec_create(old(self)@, client_state@, code@, now),
    {
        self.purge_expired(now);
        if self.sessions.len() >= MAX_SESSIONS {
            proof {
                assert(self@.sessions.dom() =~= self.sessions@.dom());
            }
            return Err(StoreError::CapacityExceeded);
        }
        let ghost purged = self@;
        let expires_at = now + self.ttl_millis;
        let session = AuthSession {
            code: code.clone(),
            client_state,
            expires_at,
            state: SessionState::Pending { oidc: None },
        };
        let result = session.duplicate();
        let ghost sessions_before = self.sessions@;
        let ghost codes_pre = self.codes@;
        if !self.sessions.contains_key(code.as_str()) {
            self.codes.push(code.clone());
        }
        let ghost codes_mid = self.codes@;
        self.sessions.insert(code, session);
        if expires_at < self.earliest_expiry {
            self.earliest_expiry = expires_at;
        }
        proof {
            assert(purged.sessions.dom() =~= sessions_before.dom());
            assert forall|k: Seq<char>| #[trigger] self.sessions@.dom().contains(k) implies exists|j: int|
                0 <= j < self.codes@.len() && (#[trigger] self.codes@[j])@ == k by {
                if k == result@.code {
                    if !sessions_before.contains_key(k) {
                        assert(self.codes@[self.codes@.len() - 1]@ == k);
                    } else {
                        assert(sessions_before.dom().contains(k));
                        let j = choose|j: int| 0 <= j < codes_pre.len() && (#[trigger] codes_pre[j])@ == k;
                        assert(self.codes@[j] == codes_pre[j]);
                    }
                } else {
                    assert(sessions_before.dom().contains(k));
                    let j = choose|j: int| 0 <= j < codes_pre.len() && (#[trigger] codes_pre[j])@ == k;
                    assert(self.codes@[j] == codes_pre[j]);
                }
            }
            if sessions_before.contains_key(result@.code) {
                assert(self.sessions@.dom() =~= sessions_before.dom());
            } else {
                assert(self.sessions@.dom() =~= sessions_before.dom().insert(result@.code));
            }
            assert(self@.sessions =~= purged.sessions.insert(result@.code, result@));
            assert(self@.oidc_index =~= purged.oidc_index);
            assert(self@.users =~= purged.users);
        }
        Ok(result)
    }

    /// Starts a pending session under a fresh random code, after dropping
    /// expired sessions; refused when the store is full.
    pub fn create_session(&mut self, client_state: String, now: u128) -> (result: Result<AuthSession, StoreError>)
        requires
            old(self).wf(),
            now <= MAX_DURATION_MILLIS,
        ensures
            final(self).wf(),
            result is Ok <==> purge(old(self)@, now).sessions.len() < MAX_SESSIONS,
            match result {
                Ok(session) => is_session_code(session@.code) && (final(self)@, Ok::<AuthSessionView, StoreError>(session@))
                    == spec_create(old(self)@, client_state@, session@.code, now),
                Err(e) => e == StoreError::CapacityExceeded && final(self)@ == purge(old(self)@, now),
            },
    {
        let code = random_session_code();
        let ghost code_view = code@;
        let result = self.create_session_with_code(client_state, code, now);
        result
    }

    /// Records an OIDC attempt on the pending session `code`.
    pub fn begin_oidc(&mut self, code: &str, attempt: OidcAttempt, now: u128) -> (result: Result<(), StoreError>)
        requires
            old(self).wf(),
        ensures
            final(self).wf(),
            (final(self)@, result) == spec_begin_oidc(old(self)@, code@, attempt@, now),
    {
        let session = match self.sessions.get(code) {
            None => return Err(StoreError::NotFound),
            Some(session) => session.duplicate(),
        };
        if now >= session.expires_at {
            return Err(StoreError::Expired);
        }
        let previous: Option<String> = match &session.state {
            SessionState::Completed(_) => return Err(StoreError::NotPending),
            SessionState::Pending { oidc } => match oidc {
                Some(a) => Some(a.csrf_state.clone()),
                None => None,
            },
        };
        let ghost old_view = self@;
        let ghost old_oidc = match session@.state {
            SessionStateView::Pending { oidc } => oidc,
            _ => None,
        };
        let new_state = attempt.csrf_state.clone();
        let updated = AuthSession {
            code: session.code,
            client_state: session.client_state,
            expires_at: session.expires_at,
            state: SessionState::Pending { oidc: Some(attempt) },
        };
        self.sessions.insert(code.to_owned(), updated);
        if let Some(previous_state) = previous {
            self.code_by_oidc_state.remove(previous_state.as_str());
        }
        let ghost before_insert = self.code_by_oidc_state@;
        if !self.code_by_oidc_state.contains_key(new_state.as_str()) {
            self.oidc_states.push(new_state.clone());
        }
        self.code_by_oidc_state.insert(new_state, code.to_owned());
        proof {
            assert forall|k: Seq<char>| #[trigger] self.sessions@.dom().contains(k) implies exists|j: int|
                0 <= j < self.codes@.len() && (#[trigger] self.codes@[j])@ == k by {
                assert(old(self).sessions@.dom().contains(k));
                let j = choose|j: int| 0 <= j < old(self).codes@.len() && (#[trigger] old(self).codes@[j])@ == k;
                assert(self.codes@[j] == old(self).codes@[j]);
            }
            assert forall|st: Seq<char>| #[trigger] self.code_by_oidc_state@.dom().contains(st) implies exists|j: int|
                0 <= j < self.oidc_states@.len() && (#[trigger] self.oidc_states@[j])@ == st by {
                if st == attempt@.csrf_state {
                    if !before_insert.contains_key(st) {
                        assert(self.oidc_states@[self.oidc_states@.len() - 1]@ == st);
                    } else {
                        assert(old(self).code_by_oidc_state@.dom().contains(st));
                        let j = choose|j: int| 0 <= j < old(self).oidc_states@.len() && (#[trigger] old(self).oidc_states@[j])@ == st;
                        assert(self.oidc_states@[j] == old(self).oidc_states@[j]);
                    }
                } else {
                    assert(old(self).code_by_oidc_state@.dom().contains(st));
                    let j = choose|j: int| 0 <= j < old(self).oidc_states@.len() && (#[trigger] old(self).oidc_states@[j])@ == st;
                    assert(self.oidc_states@[j] == old(self).oidc_states@[j]);
                }
            }
            assert(self.sessions@.dom() =~= old(self).sessions@.dom());
            assert(self@.sessions =~= old_view.sessions.insert(code@, self.sessions@[code@]@));
            assert(self@.oidc_index =~= index_without(old_view.oidc_index, old_oidc).insert(attempt@.csrf_state, code@));
            assert(self@.users =~= old_view.users);
        }
        Ok(())
    }

    /// The pending session whose current OIDC attempt carries `state`.
    pub fn session_for_oidc_state(&self, state: &str, now: u128) -> (result: Result<AuthSession, StoreError>)
        requires
            self.wf(),
        ensures
            session_result(result) == spec_session_for_oidc_state(self@, state@, now),
    {
        let code = match self.code_by_oidc_state.get(state) {
            None => return Err(StoreError::InvalidOidcState),
            Some(code) => code,
        };
        let session = match self.sessions.get(code.as_str()) {
            None => return Err(StoreError::InvalidOidcState),
            Some(session) => session,
        };
        let matches = match &session.state {
            SessionState::Pending { oidc: Some(attempt) } => str_eq(attempt.csrf_state.as_str(), state),
            _ => false,
        };
        if !matches {
            return Err(StoreError::InvalidOidcState);
        }
        if now >= session.expires_at {
            return Err(StoreError::Expired);
        }
        Ok(session.duplicate())
    }

    /// Marks the pending session `code` as completed by `user` with `token`.
    pub fn complete_session(
        &mut self,
        code: &str,
        user: UserIdentity,
        token: String,
        token_expires_at: i64,
        now: u128,
    ) -> (result: Result<(), StoreError>)
        requires
            old(self).wf(),
        ensures
            final(self).wf(),
            (final(self)@, result) == spec_complete(old(self)@, code@, user@, token@, token_expires_at, now),
    {
        let session = match self.sessions.get(code) {
            None => return Err(StoreError::NotFound),
            Some(session) => session.duplicate(),
        };
        if now >= session.expires_at {
            return Err(StoreError::Expired);
        }
        let oidc_state: Option<String> = match &session.state {
            SessionState::Completed(_) => return Err(StoreError::NotPending),
            SessionState::Pending { oidc } => match oidc {
                Some(a) => Some(a.csrf_state.clone()),
                None => None,
            },
        };
        let ghost old_view = self@;
        let ghost old_oidc = match session@.state {
            SessionStateView::Pending { oidc } => oidc,
            _ => None,
        };
        let user_id = user.user_id.clone();
        let completed = AuthSession {
            code: session.code,
            client_state: session.client_state,
            expires_at: session.expires_at,
            state: SessionState::Completed(CompletedSession { user: user.duplicate(), token, token_expires_at }),
        };
        self.sessions.insert(code.to_owned(), completed);
        if let Some(previous_state) = oidc_state {
            self.code_by_oidc_state.remove(previous_state.as_str());
        }
        let ghost users_before = self.users@;
        if !self.users.contains_key(user_id.as_str()) {
            self.user_ids.push(user_id.clone());
        }
        self.users.insert(user_id, user);
        proof {
            assert forall|k: Seq<char>| #[trigger] self.sessions@.dom().contains(k) implies exists|j: int|
                0 <= j < self.codes@.len() && (#[trigger] self.codes@[j])@ == k by {
                assert(old(self).sessions@.dom().contains(k));
                let j = choose|j: int| 0 <= j < old(self).codes@.len() && (#[trigger] old(self).codes@[j])@ == k;
                assert(self.codes@[j] == old(self).codes@[j]);
            }
            assert forall|st: Seq<char>| #[trigger] self.code_by_oidc_state@.dom().contains(st) implies exists|j: int|
                0 <= j < self.oidc_states@.len() && (#[trigger] self.oidc_states@[j])@ == st by {
                assert(old(self).code_by_oidc_state@.dom().contains(st));
                let j = choose|j: int| 0 <= j < old(self).oidc_states@.len() && (#[trigger] old(self).oidc_states@[j])@ == st;
                assert(self.oidc_states@[j] == old(self).oidc_states@[j]);
            }
            assert forall|k: Seq<char>| #[trigger] self.users@.dom().contains(k) implies exists|j: int|
                0 <= j < self.user_ids@.len() && (#[trigger] self.user_ids@[j])@ == k by {
                if k == user@.user_id {
                    if !users_before.contains_key(k) {
                        assert(self.user_ids@[self.user_ids@.len() - 1]@ == k);
                    } else {
                        let j = choose|j: int| 0 <= j < old(self).user_ids@.len() && (#[trigger] old(self).user_ids@[j])@ == k;
                        assert(self.user_ids@[j] == old(self).user_ids@[j]);
                    }
                } else {
                    assert(old(self).users@.dom().contains(k));
                    let j = choose|j: int| 0 <= j < old(self).user_ids@.len() && (#[trigger] old(self).user_ids@[j])@ == k;
                    assert(self.user_ids@[j] == old(self).user_ids@[j]);
                }
            }
            assert(self.sessions@.dom() =~= old(self).sessions@.dom());
            assert(self@.sessions =~= old_view.sessions.insert(code@, self.sessions@[code@]@));
            assert(self@.oidc_index =~= index_without(old_view.oidc_index, old_oidc));
            assert(self@.users =~= old_view.users.insert(user@.user_id, user@));
        }
        Ok(())
    }

    /// The known users among `ids`, in the order of `ids`.
    pub fn users_by_id(&self, ids: &[String]) -> (result: Vec<UserIdentity>)
        requires
            self.wf(),
        ensures
            result@.map_values(|u: UserIdentity| u@) == spec_users_by_id(self@, strings_view(ids@)),
    {
        let ghost idv = strings_view(ids@);
        let ghost pred = |id: Seq<char>| self@.users.contains_key(id);
        let mut result: Vec<UserIdentity> = Vec::new();
        let mut i: usize = 0;
        while i < ids.len()
            invariant
                i <= ids.len(),
                idv == strings_view(ids@),
                pred == (|id: Seq<char>| self@.users.contains_key(id)),
                result@.map_values(|u: UserIdentity| u@) == idv.take(i as int).filter(pred).map_values(
                    |id: Seq<char>| self@.users[id],
                ),
            decreases ids.len() - i,
        {
            let ghost before = result@;
            proof {
                assert(idv.take(i + 1).drop_last() =~= idv.take(i as int));
                reveal_with_fuel(Seq::filter, 1);
            }
            match self.users.get(ids[i].as_str()) {
                Some(user) => {
                    result.push(user.duplicate());
                    proof {
                        assert(idv.take(i + 1).filter(pred) == idv.take(i as int).filter(pred).push(idv[i as int]));
                        assert(result@.map_values(|u: UserIdentity| u@) =~= before.map_values(|u: UserIdentity| u@).push(self@.users[idv[i as int]]));
                        assert(idv.take(i + 1).filter(pred).map_values(|id: Seq<char>| self@.users[id]) =~= idv.take(i as int).filter(pred).map_values(|id: Seq<char>| self@.users[id]).push(self@.users[idv[i as int]]));
                    }
                },
                None => {
                    proof {
                        assert(idv.take(i + 1).filter(pred) == idv.take(i as int).filter(pred));
                    }
                },
            }
            i = i + 1;
        }
        assert(idv.take(ids.len() as int) =~= idv);
        result
    }

    /// Some known user with this display name, if there is one.
    pub fn user_by_display_name(&self, display_name: &str) -> (result: Option<UserIdentity>)
        requires
            self.wf(),
        ensures
            match result {
                Some(user) => self@.users.contains_key(user@.user_id) && self@.users[user@.user_id] == user@
                    && user@.display_name == display_name@,
                None => forall|k: Seq<char>| #[trigger] self@.users.contains_key(k) ==> self@.users[k].display_name
                    != display_name@,
            },
    {
        let mut i: usize = 0;
        while i < self.user_ids.len()
            invariant
                self.wf(),
                i <= self.user_ids.len(),
                forall|j: int| 0 <= j < i && #[trigger] self.users@.contains_key(self.user_ids@[j]@) ==> self.users@[self.user_ids@[j]@].display_name@ != display_name@,
            decreases self.user_ids.len() - i,
        {
            match self.users.get(self.user_ids[i].as_str()) {
                Some(user) => {
                    if str_eq(user.display_name.as_str(), display_name) {
                        return Some(user.duplicate());
                    }
                },
                None => {},
            }
            i = i + 1;
        }
        proof {
            assert forall|k: Seq<char>| #[trigger] self@.users.contains_key(k) implies self@.users[k].display_name != display_name@ by {
                assert(self.users@.dom().contains(k));
                let j = choose|j: int| 0 <= j < self.user_ids@.len() && (#[trigger] self.user_ids@[j])@ == k;
                assert(self.users@.contains_key(self.user_ids@[j]@));
            }
        }
        None
    }

    /// How many sessions the store holds, expired ones not yet purged included.
    pub fn session_count(&self) -> (result: usize)
        requires
            self.wf(),
        ensures
            result == self@.sessions.len(),
    {
        proof {
            assert(self@.sessions.dom() =~= self.sessions@.dom());
        }
        self.sessions.len()
    }

    /// How many OIDC states currently lead to a session.
    pub fn oidc_state_count(&self) -> (result: usize)
        requires
            self.wf(),
        ensures
            result == self@.oidc_index.len(),
    {
        proof {
            assert(self@.oidc_index.dom() =~= self.code_by_oidc_state@.dom());
        }
        self.code_by_oidc_state.len()
    }

    /// The session stored under `code`, unless it is unknown or expired at `now`.
    pub fn get_session(&self, code: &str, now: u128) -> (result: Result<AuthSession, StoreError>)
        requires
            self.wf(),
        ensures
            session_result(result) == spec_get(self@, code@, now),
    {
        match self.sessions.get(code) {
            None => Err(StoreError::NotFound),
            Some(session) => {
                if now >= session.expires_at {
                    Err(StoreError::Expired)
                } else {
                    Ok(session.duplicate())
                }
            },
        }
    }
}

} // verus!
