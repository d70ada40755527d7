use std::sync::Arc;

use lore_auth_oidc::grpc::{unix_millis, unsupported, AuthService, Code, Status, UnsupportedRpc};
use lore_auth_oidc::jwt::{resource_claims, JwtService};
use lore_auth_oidc::store::{AuthSession, CompletedSession, MemoryStore, SessionState, StoreError, UserIdentity};

const FIRST_P: [u8; 128] = [
    242, 124, 102, 47, 180, 119, 150, 235, 150, 1, 144, 70, 213, 225, 74, 3,
    45, 58, 192, 115, 106, 12, 123, 211, 126, 1, 246, 173, 152, 97, 43, 33,
    62, 56, 4, 95, 182, 91, 121, 40, 135, 122, 3, 10, 136, 199, 191, 216,
    83, 168, 84, 53, 55, 115, 108, 222, 218, 88, 234, 253, 19, 97, 214, 230,
    132, 215, 230, 61, 16, 9, 105, 228, 249, 130, 119, 212, 55, 148, 218, 182,
    214, 132, 180, 8, 76, 136, 86, 233, 160, 117, 15, 123, 225, 45, 26, 117,
    84, 29, 49, 68, 31, 242, 171, 125, 250, 37, 189, 99, 54, 116, 34, 90,
    56, 100, 26, 167, 47, 241, 43, 175, 231, 228, 116, 177, 103, 40, 77, 243,
];

const FIRST_Q: [u8; 128] = [
    229, 68, 183, 174, 209, 123, 128, 91, 7, 235, 65, 93, 206, 169, 158, 4,
    140, 188, 161, 49, 137, 16, 17, 45, 196, 198, 165, 91, 178, 160, 153, 192,
    174, 103, 68, 73, 179, 76, 85, 150, 95, 51, 143, 46, 76, 212, 67, 78,
    154, 157, 224, 1, 118, 80, 78, 71, 167, 243, 26, 229, 198, 221, 25, 128,
    44, 173, 16, 236, 244, 253, 40, 163, 92, 10, 56, 91, 80, 15, 15, 182,
    237, 45, 185, 210, 106, 207, 15, 232, 25, 157, 211, 87, 237, 198, 210, 221,
    187, 155, 12, 172, 71, 74, 180, 192, 189, 205, 160, 106, 212, 140, 182, 221,
    19, 49, 79, 154, 65, 214, 73, 130, 9, 42, 63, 229, 186, 204, 193, 153,
];

/// An RSA key built from two fixed primes, so that tests neither carry key
/// files nor spend seconds generating keys.
fn rsa_key(p: &[u8], q: &[u8]) -> rsa::RsaPrivateKey {
    rsa::RsaPrivateKey::from_p_q(
        rsa::BigUint::from_bytes_be(p),
        rsa::BigUint::from_bytes_be(q),
        rsa::BigUint::from(65537u32),
    )
    .unwrap()
}

fn pkcs8_pem(key: &rsa::RsaPrivateKey) -> String {
    let pem = rsa::pkcs8::EncodePrivateKey::to_pkcs8_pem(key, rsa::pkcs8::LineEnding::LF).unwrap();
    pem.as_str().to_owned()
}

fn pkcs8_key() -> String {
    pkcs8_pem(&rsa_key(&FIRST_P, &FIRST_Q))
}

fn jwt() -> Arc<JwtService> {
    Arc::new(
        JwtService::from_pem(
            pkcs8_key().as_bytes(),
            Some("test-key".into()),
            "https://auth.example.com".into(),
            vec!["lore.example.com".into()],
            "test".into(),
            "test-oidc".into(),
        )
        .unwrap(),
    )
}

fn service(allow_all_users: bool) -> AuthService {
    AuthService::new("https://auth.example.com//".into(), allow_all_users, jwt())
}

fn user() -> UserIdentity {
    UserIdentity { user_id: "user-1".into(), display_name: "Ada Lovelace".into(), preferred_username: "ada".into() }
}

fn session(state: SessionState) -> AuthSession {
    AuthSession { code: "code-1".into(), client_state: "client".into(), expires_at: 5_000, state }
}

fn refusal(status: &Status) -> (Code, &str) {
    (status.code, status.message.as_str())
}

#[test]
fn public_url_loses_trailing_slashes() {
    let service = service(true);
    assert_eq!(service.public_url(), "https://auth.example.com");
    assert_eq!(service.login_url("abc"), "https://auth.example.com/login?session_code=abc");
    assert!(service.allow_all_users());
    assert_eq!(service.jwt().key_id(), "test-key");
}

#[test]
fn reads_the_bearer_token() {
    assert_eq!(AuthService::bearer(Some("Bearer abc.def")).unwrap(), "abc.def");
    for header in [None, Some("Bearer "), Some("Basic abc"), Some("bearer abc"), Some("")] {
        let status = AuthService::bearer(header).unwrap_err();
        assert_eq!(refusal(&status), (Code::Unauthenticated, "missing Bearer token"));
    }
}

#[test]
fn maps_store_errors_to_statuses() {
    let cases = [
        (StoreError::NotFound, Code::NotFound, "session not found"),
        (StoreError::Expired, Code::DeadlineExceeded, "session expired"),
        (StoreError::NotPending, Code::FailedPrecondition, "session is not pending"),
        (StoreError::OidcNotStarted, Code::FailedPrecondition, "OIDC login has not started"),
        (StoreError::InvalidOidcState, Code::FailedPrecondition, "OIDC state does not match"),
        (StoreError::CapacityExceeded, Code::FailedPrecondition, "too many pending login sessions"),
    ];
    for (error, code, message) in cases {
        assert_eq!(refusal(&AuthService::map_store_error(error)), (code, message));
    }
}

#[test]
fn starting_a_session_answers_its_login_url() {
    let service = service(true);
    let start = service.start_auth_session(Ok(session(SessionState::Pending { oidc: None }))).unwrap();
    assert_eq!(start.session_code, "code-1");
    assert_eq!(start.login_url, "https://auth.example.com/login?session_code=code-1");
    let full = service.start_auth_session(Err(StoreError::CapacityExceeded)).unwrap_err();
    assert_eq!(refusal(&full), (Code::FailedPrecondition, "too many pending login sessions"));
}

#[test]
fn polling_answers_only_the_starting_client() {
    let pending = AuthService::get_auth_session(Ok(session(SessionState::Pending { oidc: None })), "client");
    assert!(pending.unwrap().is_none());
    let other = AuthService::get_auth_session(Ok(session(SessionState::Pending { oidc: None })), "intruder");
    assert_eq!(refusal(&other.unwrap_err()), (Code::PermissionDenied, "client_state does not match"));
    let missing = AuthService::get_auth_session(Err(StoreError::NotFound), "client");
    assert_eq!(refusal(&missing.unwrap_err()), (Code::NotFound, "session not found"));
    let expired = AuthService::get_auth_session(Err(StoreError::Expired), "client");
    assert_eq!(refusal(&expired.unwrap_err()), (Code::DeadlineExceeded, "session expired"));
}

#[test]
fn polling_a_completed_session_hands_out_its_token() {
    let done = SessionState::Completed(CompletedSession { user: user(), token: "jwt".into(), token_expires_at: 1_700_003_600_000 });
    let token = AuthService::get_auth_session(Ok(session(done)), "client").unwrap().unwrap();
    assert_eq!(token.user_token, "jwt");
    assert_eq!(token.expires_at, 1_700_003_600_000);
    assert_eq!(token.user_id, "user-1");
    assert_eq!(token.user_name, "Ada Lovelace");
}

#[test]
fn exchange_needs_an_authentication_token() {
    let service = service(true);
    let missing = service.exchange_user_token_for_multiresource_token(None, &["urc-a".into()]).unwrap_err();
    assert_eq!(refusal(&missing), (Code::Unauthenticated, "invalid authentication token"));
    let jwt = jwt();
    let authn = jwt.authn_claims_at(&user(), 1_700_000_000);
    let resources = resource_claims(&["urc-a".into()], true).unwrap();
    let mut authz_as_authn = authn.clone();
    authz_as_authn.typ = jwt.authz_claims_at(&authn, resources, 1_700_000_000).typ;
    let wrong = service.exchange_user_token_for_multiresource_token(Some(authz_as_authn), &["urc-a".into()]).unwrap_err();
    assert_eq!(refusal(&wrong), (Code::Unauthenticated, "invalid authentication token"));
}

#[test]
fn exchange_refuses_unusable_resource_requests() {
    let authn = jwt().authn_claims_at(&user(), 1_700_000_000);
    let denied = service(false)
        .exchange_user_token_for_multiresource_token(Some(authn.clone()), &["urc-a".into()])
        .unwrap_err();
    assert_eq!(refusal(&denied), (Code::PermissionDenied, "no authorization policy backend is configured"));
    let invalid = service(true)
        .exchange_user_token_for_multiresource_token(Some(authn.clone()), &["repo".into()])
        .unwrap_err();
    assert_eq!(refusal(&invalid), (Code::InvalidArgument, "resource IDs must use urc-{repository_id} or urc-*"));
    let empty = service(true).exchange_user_token_for_multiresource_token(Some(authn), &[]).unwrap_err();
    assert_eq!(refusal(&empty), (Code::InvalidArgument, "at least one resource_id is required"));
}

#[test]
fn exchange_grants_the_requested_resources() {
    let jwt = jwt();
    let authn = jwt.issue_authn(&user()).unwrap();
    let claims = service(true)
        .exchange_user_token_for_multiresource_token(Some(authn.clone()), &["urc-a".into(), "urc-b".into(), "urc-a".into()])
        .unwrap();
    assert_eq!(claims.typ, "lore-authz");
    assert_eq!(claims.sub, "user-1");
    assert_eq!(claims.idp, "test-oidc");
    assert!(claims.exp <= authn.exp);
    let ids: Vec<&str> = claims.resources.iter().map(|r| r.resource_id.as_str()).collect();
    assert_eq!(ids, ["urc-a", "urc-b"]);
    let reply = AuthService::multiresource_token_reply("signed".into(), &claims);
    assert_eq!(reply.user_token, "signed");
    assert_eq!(reply.expires_at, claims.exp * 1000);
    assert_eq!(reply.user_id, "user-1");
    assert_eq!(reply.user_name, "Ada Lovelace");
}

#[test]
fn resources_need_a_matching_authorization_token() {
    let service = service(true);
    let jwt = jwt();
    let authn = jwt.authn_claims_at(&user(), 1_700_000_000);
    let claims = jwt.authz_claims_at(&authn, resource_claims(&["urc-a".into()], true).unwrap(), 1_700_000_000);
    assert!(service.require_resource(Some(claims.clone()), "urc-a").is_ok());
    let other = service.require_resource(Some(claims.clone()), "urc-b").unwrap_err();
    assert_eq!(refusal(&other), (Code::PermissionDenied, "token does not authorize resource"));
    let missing = service.require_resource(None, "urc-a").unwrap_err();
    assert_eq!(refusal(&missing), (Code::Unauthenticated, "invalid authorization token"));
    let mut wrong_type = claims;
    wrong_type.typ = authn.typ.clone();
    let wrong = service.require_resource(Some(wrong_type), "urc-a").unwrap_err();
    assert_eq!(refusal(&wrong), (Code::Unauthenticated, "invalid authorization token"));
}

#[test]
fn unsupported_calls_say_so() {
    let cases = [
        (UnsupportedRpc::RefreshAuthSession, "refresh sessions are not supported"),
        (UnsupportedRpc::VerifyUser, "user verification is not supported"),
        (UnsupportedRpc::ExchangeExternalTokenForUserToken, "external token exchange is not supported"),
        (UnsupportedRpc::ExchangeApiKeyForUserToken, "API key exchange is not supported"),
        (UnsupportedRpc::CheckUserPermission, "permission checks are not supported"),
        (UnsupportedRpc::LookupUserPermissions, "permission lookup is not supported"),
        (UnsupportedRpc::GetProviderUserId, "provider user IDs are not supported"),
    ];
    for (rpc, message) in cases {
        assert_eq!(refusal(&unsupported(rpc)), (Code::Unimplemented, message));
    }
}

#[test]
fn token_expiry_is_reported_in_milliseconds() {
    assert_eq!(unix_millis(1_700_003_600), 1_700_003_600_000);
    assert_eq!(unix_millis(0), 0);
}

#[test]
fn a_started_login_polls_pending_then_hands_out_its_token() {
    let mut store = MemoryStore::new(600_000);
    let now: u128 = 1_700_000_000_000;
    let started = service(true).start_auth_session(store.create_session("client".into(), now)).unwrap();
    let pending = AuthService::get_auth_session(store.get_session(&started.session_code, now + 1), "client").unwrap();
    assert!(pending.is_none());
    store.complete_session(&started.session_code, user(), "jwt".into(), 1_700_003_600_000, now + 2).unwrap();
    let token = AuthService::get_auth_session(store.get_session(&started.session_code, now + 3), "client")
        .unwrap()
        .unwrap();
    assert_eq!(token.user_token, "jwt");
    assert_eq!(token.expires_at, 1_700_003_600_000);
    let stranger = AuthService::get_auth_session(store.get_session(&started.session_code, now + 3), "other");
    assert_eq!(refusal(&stranger.unwrap_err()), (Code::PermissionDenied, "client_state does not match"));
}

#[test]
fn a_valid_exchange_succeeds_unless_the_expiry_would_not_fit() {
    let jwt = jwt();
    let authn = jwt.authn_claims_at(&user(), 1_700_000_000);
    let service = service(true);
    let claims = service
        .exchange_user_token_for_multiresource_token_at(Some(authn.clone()), &["urc-a".into()], 1_700_001_000)
        .unwrap();
    assert_eq!(claims.iat, 1_700_001_000);
    assert_eq!(claims.exp, 1_700_003_600);
    assert_eq!(claims.resources.len(), 1);
    let refused = service
        .exchange_user_token_for_multiresource_token_at(Some(authn), &["urc-a".into()], i64::MAX - 3599)
        .unwrap_err();
    assert_eq!(refusal(&refused), (Code::Internal, "failed to create authorization token"));
}
