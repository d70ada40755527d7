use lore_auth_oidc::store::{
    AuthSession, MemoryStore, OidcAttempt, SessionState, StoreError, UserIdentity, MAX_SESSIONS,
};

fn user() -> UserIdentity {
    UserIdentity {
        user_id: "user-1".into(),
        display_name: "Ada Lovelace".into(),
        preferred_username: "ada".into(),
    }
}

fn attempt(state: &str) -> OidcAttempt {
    OidcAttempt { csrf_state: state.into(), nonce: "nonce".into(), pkce_verifier: "verifier".into() }
}

const START: u128 = 1_700_000_000_000;

fn code_of(result: &Result<AuthSession, StoreError>) -> String {
    result.as_ref().unwrap().code.clone()
}

#[test]
fn session_creation_and_expiration() {
    let mut store = MemoryStore::new(20);
    let session = store.create_session("client-state".into(), START).unwrap();
    assert_eq!(store.get_session(&session.code, START).unwrap().client_state, "client-state");
    assert!(matches!(store.get_session(&session.code, START + 30), Err(StoreError::Expired)));
}

#[test]
fn creating_a_session_purges_expired_sessions() {
    let mut store = MemoryStore::new(20);
    let expired = store.create_session("state".into(), START).unwrap();
    store.begin_oidc(&expired.code, attempt("oidc-state"), START).unwrap();
    store.create_session("state".into(), START + 30).unwrap();
    assert!(matches!(store.get_session(&expired.code, START + 30), Err(StoreError::NotFound)));
    assert_eq!(store.oidc_state_count(), 0);
    assert_eq!(store.session_count(), 1);
}

#[test]
fn enforces_session_capacity() {
    let mut store = MemoryStore::new(30_000);
    for index in 0..MAX_SESSIONS {
        store.create_session_with_code("state".into(), format!("code-{index}"), START).unwrap();
    }
    assert!(matches!(store.create_session("state".into(), START), Err(StoreError::CapacityExceeded)));
}

#[test]
fn finds_sessions_by_oidc_state_until_completed() {
    let mut store = MemoryStore::new(30_000);
    let session = store.create_session("state".into(), START).unwrap();
    store.begin_oidc(&session.code, attempt("first-state"), START).unwrap();
    store.begin_oidc(&session.code, attempt("second-state"), START).unwrap();
    assert!(matches!(store.session_for_oidc_state("first-state", START), Err(StoreError::InvalidOidcState)));
    assert_eq!(store.session_for_oidc_state("second-state", START).unwrap().code, session.code);
    store.complete_session(&session.code, user(), "jwt".into(), 1234, START).unwrap();
    assert!(matches!(store.session_for_oidc_state("second-state", START), Err(StoreError::InvalidOidcState)));
}

#[test]
fn session_completion_indexes_user() {
    let mut store = MemoryStore::new(30_000);
    let session = store.create_session("state".into(), START).unwrap();
    store.complete_session(&session.code, user(), "jwt".into(), 1234, START).unwrap();
    let completed = store.get_session(&session.code, START).unwrap();
    assert!(matches!(completed.state, SessionState::Completed(_)));
    assert_eq!(store.user_by_display_name("Ada Lovelace"), Some(user()));
    assert_eq!(store.complete_session(&session.code, user(), "again".into(), 1234, START), Err(StoreError::NotPending));
}

#[test]
fn session_codes_are_random_alphanumerics() {
    let mut store = MemoryStore::new(30_000);
    let first = store.create_session("a".into(), START);
    let second = store.create_session("b".into(), START);
    let (first, second) = (code_of(&first), code_of(&second));
    assert_eq!(first.len(), 48);
    assert!(first.chars().all(|c| c.is_ascii_alphanumeric()));
    assert_ne!(first, second);
}

#[test]
fn a_session_is_usable_until_just_before_its_expiry() {
    let mut store = MemoryStore::new(20);
    let session = store.create_session("client".into(), START).unwrap();
    assert_eq!(session.expires_at, START + 20);
    assert!(store.get_session(&session.code, START + 19).is_ok());
    assert_eq!(store.get_session(&session.code, START + 20).err(), Some(StoreError::Expired));
    assert_eq!(store.get_session("unknown", START).err(), Some(StoreError::NotFound));
    assert_eq!(store.begin_oidc(&session.code, attempt("s"), START + 20), Err(StoreError::Expired));
    assert_eq!(store.begin_oidc("unknown", attempt("s"), START), Err(StoreError::NotFound));
}

#[test]
fn oidc_state_of_an_expired_session_is_refused() {
    let mut store = MemoryStore::new(20);
    let session = store.create_session("client".into(), START).unwrap();
    store.begin_oidc(&session.code, attempt("s"), START).unwrap();
    assert_eq!(store.session_for_oidc_state("s", START + 20).err(), Some(StoreError::Expired));
    assert_eq!(store.session_for_oidc_state("other", START).err(), Some(StoreError::InvalidOidcState));
}

#[test]
fn completed_sessions_refuse_new_attempts() {
    let mut store = MemoryStore::new(30_000);
    let session = store.create_session("client".into(), START).unwrap();
    store.complete_session(&session.code, user(), "jwt".into(), 99, START).unwrap();
    assert_eq!(store.begin_oidc(&session.code, attempt("late"), START), Err(StoreError::NotPending));
    match store.get_session(&session.code, START).unwrap().state {
        SessionState::Completed(done) => {
            assert_eq!(done.token, "jwt");
            assert_eq!(done.token_expires_at, 99);
            assert_eq!(done.user, user());
        },
        SessionState::Pending { .. } => panic!("session should be completed"),
    }
}

#[test]
fn looks_users_up_by_id_in_request_order() {
    let mut store = MemoryStore::new(30_000);
    let other = UserIdentity { user_id: "user-2".into(), display_name: "Grace".into(), preferred_username: "grace".into() };
    let first = store.create_session("a".into(), START).unwrap();
    let second = store.create_session("b".into(), START).unwrap();
    store.complete_session(&first.code, user(), "t1".into(), 1, START).unwrap();
    store.complete_session(&second.code, other.clone(), "t2".into(), 2, START).unwrap();
    let found = store.users_by_id(&["user-2".into(), "nobody".into(), "user-1".into()]);
    assert_eq!(found, vec![other.clone(), user()]);
    assert_eq!(store.user_by_display_name("Grace"), Some(other));
    assert_eq!(store.user_by_display_name("Nobody"), None);
}

#[test]
fn purging_keeps_fresh_sessions_and_their_states() {
    let mut store = MemoryStore::new(20);
    let old = store.create_session("old".into(), START).unwrap();
    store.begin_oidc(&old.code, attempt("old-state"), START).unwrap();
    let young = store.create_session("young".into(), START + 10).unwrap();
    store.begin_oidc(&young.code, attempt("young-state"), START + 10).unwrap();
    store.purge_expired(START + 25);
    assert_eq!(store.session_count(), 1);
    assert_eq!(store.oidc_state_count(), 1);
    assert_eq!(store.session_for_oidc_state("young-state", START + 25).unwrap().code, young.code);
    assert_eq!(store.get_session(&old.code, START + 25).err(), Some(StoreError::NotFound));
}

#[test]
fn explains_store_errors() {
    assert_eq!(StoreError::NotFound.message(), "session not found");
    assert_eq!(StoreError::Expired.message(), "session expired");
    assert_eq!(StoreError::NotPending.message(), "session is not pending");
    assert_eq!(StoreError::OidcNotStarted.message(), "OIDC login has not started");
    assert_eq!(StoreError::InvalidOidcState.message(), "OIDC state does not match");
    assert_eq!(StoreError::CapacityExceeded.message(), "too many pending login sessions");
}
