use vstd::prelude::*;

use std::sync::Arc;

use crate::jwt::{
    authorizes_resource, resource_claim_error_message, resource_claims,
    spec_authorizes, spec_authz_claims, spec_resource_claims, AuthnClaims, AuthnClaimsView,
    AuthzClaims, AuthzClaimsView, JwtService, JwtServiceView, ResourceClaimView,
};
use crate::store::{
    spec_create, spec_get, store_error_message, AuthSession, AuthSessionView, SessionState,
    SessionStateView, StoreError, StoreView,
};
use crate::text::{chars_of, starts_with, string_from_chars, strings_view, trim_end_char, trim_end_matches_char};

verus! {

/// The gRPC status codes the auth service answers with.
#[derive(Clone, Copy, Debug, PartialEq, Eq, Structural)]
pub enum Code {
    InvalidArgument,
    NotFound,
    DeadlineExceeded,
    PermissionDenied,
    FailedPrecondition,
    Unimplemented,
    Internal,
    Unauthenticated,
}

/// A refused call: its status code and the message sent with it.
#[derive(Clone, Debug)]
pub struct Status {
    pub code: Code,
    pub message: String,
}

pub struct StatusView {
    pub code: Code,
    pub message: Seq<char>,
}

impl View for Status {
    type V = StatusView;

    open spec fn view(&self) -> StatusView {
        StatusView { code: self.code, message: self.message@ }
    }
}

pub open spec fn status(code: Code, message: Seq<char>) -> StatusView {
    StatusView { code, message }
}

fn make_status(code: Code, message: &str) -> (result: Status)
    ensures
        result@ == status(code, message@),
{
    Status { code, message: message.to_owned() }
}

/// A user's token as Lore receives it; `expires_at` is in Unix milliseconds.
#[derive(Clone, Debug)]
pub struct UserToken {
    pub user_token: String,
    pub expires_at: i64,
    pub user_id: String,
    pub user_name: String,
}

pub struct UserTokenView {
    pub user_token: Seq<char>,
    pub expires_at: i64,
    pub user_id: Seq<char>,
    pub user_name: Seq<char>,
}

impl View for UserToken {
    type V = UserTokenView;

    open spec fn view(&self) -> UserTokenView {
        UserTokenView {
            user_token: self.user_token@,
            expires_at: self.expires_at,
            user_id: self.user_id@,
            user_name: self.user_name@,
        }
    }
}

/// The answer to a started login: where the browser goes and the code to poll with.
#[derive(Clone, Debug)]
pub struct SessionStart {
    pub login_url: String,
    pub session_code: String,
}

/// The calls of the Lore auth API that this adapter does not offer.
#[derive(Clone, Copy, Debug, PartialEq, Eq, Structural)]
pub enum UnsupportedRpc {
    RefreshAuthSession,
    VerifyUser,
    ExchangeExternalTokenForUserToken,
    ExchangeApiKeyForUserToken,
    CheckUserPermission,
    LookupUserPermissions,
    GetProviderUserId,
}

pub open spec fn unsupported_message(rpc: UnsupportedRpc) -> Seq<char> {
    match rpc {
        UnsupportedRpc::RefreshAuthSession => "refresh sessions are not supported"@,
        UnsupportedRpc::VerifyUser => "user verification is not supported"@,
        UnsupportedRpc::ExchangeExternalTokenForUserToken => "external token exchange is not supported"@,
        UnsupportedRpc::ExchangeApiKeyForUserToken => "API key exchange is not supported"@,
        UnsupportedRpc::CheckUserPermission => "permission checks are not supported"@,
        UnsupportedRpc::LookupUserPermissions => "permission lookup is not supported"@,
        UnsupportedRpc::GetProviderUserId => "provider user IDs are not supported"@,
    }
}

/// The answer to a call this adapter does not offer.
pub fn unsupported(rpc: UnsupportedRpc) -> (result: Status)
    ensures
        result@ == status(Code::Unimplemented, unsupported_message(rpc)),
{
    match rpc {
        UnsupportedRpc::RefreshAuthSession => make_status(Code::Unimplemented, "refresh sessions are not supported"),
        UnsupportedRpc::VerifyUser => make_status(Code::Unimplemented, "user verification is not supported"),
        UnsupportedRpc::ExchangeExternalTokenForUserToken => make_status(
            Code::Unimplemented,
            "external token exchange is not supported",
        ),
        UnsupportedRpc::ExchangeApiKeyForUserToken => make_status(
            Code::Unimplemented,
            "API key exchange is not supported",
        ),
        UnsupportedRpc::CheckUserPermission => make_status(Code::Unimplemented, "permission checks are not supported"),
        UnsupportedRpc::LookupUserPermissions => make_status(Code::Unimplemented, "permission lookup is not supported"),
        UnsupportedRpc::GetProviderUserId => make_status(Code::Unimplemented, "provider user IDs are not supported"),
    }
}

/// The refusal of a request without a usable bearer token.
pub open spec fn missing_bearer() -> StatusView {
    status(Code::Unauthenticated, "missing Bearer token"@)
}

/// The token of an `authorization` header value: what follows `Bearer `, when
/// that is not empty.
pub open spec fn spec_bearer(header: Option<Seq<char>>) -> Result<Seq<char>, StatusView> {
    match header {
        Some(h) => if "Bearer "@.is_prefix_of(h) && h.len() > "Bearer "@.len() {
            Ok(h.subrange("Bearer "@.len() as int, h.len() as int))
        } else {
            Err(missing_bearer())
        },
        None => Err(missing_bearer()),
    }
}

pub open spec fn text_status_result(r: Result<String, Status>) -> Result<Seq<char>, StatusView> {
    match r {
        Ok(s) => Ok(s@),
        Err(e) => Err(e@),
    }
}

/// The status answered for a refused session operation.
pub open spec fn store_status(e: StoreError) -> StatusView {
    status(
        match e {
            StoreError::NotFound => Code::NotFound,
            StoreError::Expired => Code::DeadlineExceeded,
            _ => Code::FailedPrecondition,
        },
        store_error_message(e),
    )
}

pub open spec fn invalid_authz_token() -> StatusView {
    status(Code::Unauthenticated, "invalid authorization token"@)
}

pub open spec fn invalid_authn_token() -> StatusView {
    status(Code::Unauthenticated, "invalid authentication token"@)
}

pub open spec fn resource_not_authorized() -> StatusView {
    status(Code::PermissionDenied, "token does not authorize resource"@)
}

pub open spec fn client_state_mismatch() -> StatusView {
    status(Code::PermissionDenied, "client_state does not match"@)
}

pub open spec fn token_not_issued() -> StatusView {
    status(Code::Internal, "failed to create authorization token"@)
}

pub open spec fn authz_option_view(o: Option<AuthzClaims>) -> Option<AuthzClaimsView> {
    match o {
        Some(c) => Some(c@),
        None => None,
    }
}

pub open spec fn authn_option_view(o: Option<AuthnClaims>) -> Option<AuthnClaimsView> {
    match o {
        Some(c) => Some(c@),
        None => None,
    }
}

/// Access to a resource: a verified authorization token that grants it.
pub open spec fn spec_require_resource(decoded: Option<AuthzClaimsView>, resource: Seq<char>) -> Result<(), StatusView> {
    match decoded {
        None => Err(invalid_authz_token()),
        Some(claims) => if claims.typ != "lore-authz"@ {
            Err(invalid_authz_token())
        } else if spec_authorizes(claims.resources, resource) {
            Ok(())
        } else {
            Err(resource_not_authorized())
        },
    }
}

pub open spec fn unit_status_result(r: Result<(), Status>) -> Result<(), StatusView> {
    match r {
        Ok(()) => Ok(()),
        Err(e) => Err(e@),
    }
}

/// The login URL of a session: the public URL's login page with the session code.
pub open spec fn spec_login_url(public_url: Seq<char>, code: Seq<char>) -> Seq<char> {
    public_url + "/login?session_code="@ + code
}

/// The token of a completed session, as a Lore client polls for it.
pub open spec fn completed_token(session: AuthSessionView) -> Option<UserTokenView> {
    match session.state {
        SessionStateView::Pending { .. } => None,
        SessionStateView::Completed(c) => Some(
            UserTokenView {
                user_token: c.token,
                expires_at: c.token_expires_at,
                user_id: c.user.user_id,
                user_name: c.user.display_name,
            },
        ),
    }
}

/// The answer to a client polling its session: only the client that started
/// the session learns of it; a completed session gives its token.
pub open spec fn spec_auth_session_reply(fetched: Result<AuthSessionView, StoreError>, client_state: Seq<char>) -> Result<
    Option<UserTokenView>,
    StatusView,
> {
    match fetched {
        Err(e) => Err(store_status(e)),
        Ok(session) => if session.client_state != client_state {
            Err(client_state_mismatch())
        } else {
            Ok(completed_token(session))
        },
    }
}

pub open spec fn token_reply_view(r: Result<Option<UserToken>, Status>) -> Result<Option<UserTokenView>, StatusView> {
    match r {
        Ok(Some(t)) => Ok(Some(t@)),
        Ok(None) => Ok(None),
        Err(e) => Err(e@),
    }
}

/// The status of a refused resource request: a bad request when every user is
/// allowed, a denial otherwise.
pub open spec fn resource_refusal(e: crate::jwt::ResourceClaimError, allow_all: bool) -> StatusView {
    status(
        if allow_all {
            Code::InvalidArgument
        } else {
            Code::PermissionDenied
        },
        resource_claim_error_message(e),
    )
}

pub open spec fn authz_status_result(r: Result<AuthzClaims, Status>) -> Result<AuthzClaimsView, StatusView> {
    match r {
        Ok(c) => Ok(c@),
        Err(e) => Err(e@),
    }
}

/// The grant an exchange makes at the clock reading `now`: a valid
/// authentication token, then a usable resource request, then an expiry that
/// fits; the claims are issued at `now`.
pub open spec fn spec_exchange(
    service: AuthServiceView,
    decoded: Option<AuthnClaimsView>,
    resource_ids: Seq<Seq<char>>,
    now: i64,
) -> Result<AuthzClaimsView, StatusView> {
    match decoded {
        None => Err(invalid_authn_token()),
        Some(authn) => if authn.typ != "lore-authn"@ {
            Err(invalid_authn_token())
        } else {
            match spec_resource_claims(resource_ids, service.allow_all_users) {
                Err(e) => Err(resource_refusal(e, service.allow_all_users)),
                Ok(grants) => if now > i64::MAX - crate::jwt::TOKEN_TTL_SECONDS {
                    Err(token_not_issued())
                } else {
                    Ok(spec_authz_claims(service.jwt, authn, grants, now))
                },
            }
        },
    }
}

/// Milliseconds for a Unix time in seconds.
pub fn unix_millis(seconds: i64) -> (result: i64)
    requires
        i64::MIN <= seconds * 1000 <= i64::MAX,
    ensures
        result == seconds * 1000,
{
    seconds * 1000
}

/// What the gRPC API of the adapter answers, for each call, from what the
/// session store and the token checks gave.
pub struct AuthService {
    public_url: String,
    allow_all_users: bool,
    jwt: Arc<JwtService>,
}

pub struct AuthServiceView {
    pub public_url: Seq<char>,
    pub allow_all_users: bool,
    pub jwt: JwtServiceView,
}

impl View for AuthService {
    type V = AuthServiceView;

    closed spec fn view(&self) -> AuthServiceView {
        AuthServiceView { public_url: self.public_url@, allow_all_users: self.allow_all_users, jwt: self.jwt@ }
    }
}

impl AuthService {
    /// A service answering under `public_url`, whose trailing slashes are dropped.
    pub fn new(public_url: String, allow_all_users: bool, jwt: Arc<JwtService>) -> (result: AuthService)
        ensures
            result@.public_url == trim_end_char(public_url@, '/'),
            result@.allow_all_users == allow_all_users,
            result@.jwt == jwt@,
    {
        AuthService { public_url: trim_end_matches_char(public_url.as_str(), '/'), allow_all_users, jwt }
    }

    /// The public URL, without trailing slashes.
    pub fn public_url(&self) -> (result: &str)
        ensures
            result@ == self@.public_url,
    {
        self.public_url.as_str()
    }

    /// Whether every authenticated user may use every repository.
    pub fn allow_all_users(&self) -> (result: bool)
        ensures
            result == self@.allow_all_users,
    {
        self.allow_all_users
    }

    /// The token service.
    pub fn jwt(&self) -> (result: &JwtService)
        ensures
            result@ == self@.jwt,
    {
        &*self.jwt
    }

    /// The bearer token of a request's `authorization` header value, if it has one.
    pub fn bearer(authorization: Option<&str>) -> (result: Result<String, Status>)
        ensures
            text_status_result(result) == spec_bearer(match authorization {
                Some(h) => Some(h@),
                None => None,
            }),
    {
        proof {
            reveal_strlit("Bearer ");
        }
        match authorization {
            None => Err(make_status(Code::Unauthenticated, "missing Bearer token")),
            Some(header) => {
                let chars = chars_of(header);
                if starts_with(header, "Bearer ") && chars.len() > 7 {
                    Ok(string_from_chars(&chars, 7, chars.len()))
                } else {
                    Err(make_status(Code::Unauthenticated, "missing Bearer token"))
                }
            },
        }
    }

    /// The status answered for a refused session operation.
    pub fn map_store_error(error: StoreError) -> (result: Status)
        ensures
            result@ == store_status(error),
    {
        let message = error.message();
        let code = match error {
            StoreError::NotFound => Code::NotFound,
            StoreError::Expired => Code::DeadlineExceeded,
            _ => Code::FailedPrecondition,
        };
        Status { code, message }
    }

    /// Checks that the request's verified authorization token grants `resource`;
    /// `decoded` is `None` when the token failed signature or claim checks.
    pub fn require_resource(&self, decoded: Option<AuthzClaims>, resource: &str) -> (result: Result<(), Status>)
        ensures
            unit_status_result(result) == spec_require_resource(authz_option_view(decoded), resource@),
    {
        let claims = match decoded {
            None => return Err(make_status(Code::Unauthenticated, "invalid authorization token")),
            Some(c) => c,
        };
        let claims = match self.jwt.validate_authz(claims) {
            Ok(c) => c,
            Err(_) => return Err(make_status(Code::Unauthenticated, "invalid authorization token")),
        };
        if authorizes_resource(&claims, resource) {
            Ok(())
        } else {
            Err(make_status(Code::PermissionDenied, "token does not authorize resource"))
        }
    }

    /// The login URL of a session.
    pub fn login_url(&self, code: &str) -> (result: String)
        ensures
            result@ == spec_login_url(self@.public_url, code@),
    {
        let mut url = self.public_url.clone();
        url.append("/login?session_code=");
        url.append(code);
        url
    }

    /// The answer to `StartAuthSession`, from the store's answer to creating the session.
    pub fn start_auth_session(&self, created: Result<AuthSession, StoreError>) -> (result: Result<SessionStart, Status>)
        ensures
            match created {
                Ok(session) => result matches Ok(start) && start.login_url@ == spec_login_url(
                    self@.public_url,
                    session.code@,
                ) && start.session_code@ == session.code@,
                Err(e) => result matches Err(status) && status@ == store_status(e),
            },
    {
        match created {
            Err(e) => Err(Self::map_store_error(e)),
            Ok(session) => {
                let login_url = self.login_url(session.code.as_str());
                Ok(SessionStart { login_url, session_code: session.code })
            },
        }
    }

    /// The answer to `GetAuthSession`, from the store's answer for the polled
    /// code and the client state the poll carries.
    pub fn get_auth_session(fetched: Result<AuthSession, StoreError>, client_state: &str) -> (result: Result<
        Option<UserToken>,
        Status,
    >)
        ensures
            token_reply_view(result) == spec_auth_session_reply(
                crate::store::session_result(fetched),
                client_state@,
            ),
    {
        let session = match fetched {
            Err(e) => return Err(Self::map_store_error(e)),
            Ok(s) => s,
        };
        if !crate::text::str_eq(session.client_state.as_str(), client_state) {
            return Err(make_status(Code::PermissionDenied, "client_state does not match"));
        }
        match session.state {
            SessionState::Pending { .. } => Ok(None),
            SessionState::Completed(completed) => Ok(
                Some(
                    UserToken {
                        user_token: completed.token,
                        expires_at: completed.token_expires_at,
                        user_id: completed.user.user_id,
                        user_name: completed.user.display_name,
                    },
                ),
            ),
        }
    }

    /// The first half of `ExchangeUserTokenForMultiresourceToken` at the clock
    /// reading `now` (Unix seconds): the claims of the authorization token
    /// granted for `resource_ids` to the holder of the presented authentication
    /// token (`None` when it failed signature or claim checks).
    pub fn exchange_user_token_for_multiresource_token_at(
        &self,
        decoded: Option<AuthnClaims>,
        resource_ids: &[String],
        now: i64,
    ) -> (result: Result<AuthzClaims, Status>)
        ensures
            authz_status_result(result) == spec_exchange(
                self@,
                authn_option_view(decoded),
                strings_view(resource_ids@),
                now,
            ),
    {
        let claims = match decoded {
            None => return Err(make_status(Code::Unauthenticated, "invalid authentication token")),
            Some(c) => c,
        };
        let authn = match self.jwt.validate_authn(claims) {
            Ok(c) => c,
            Err(_) => return Err(make_status(Code::Unauthenticated, "invalid authentication token")),
        };
        let resources = match resource_claims(resource_ids, self.allow_all_users) {
            Ok(r) => r,
            Err(e) => {
                let message = e.message();
                let code = if self.allow_all_users {
                    Code::InvalidArgument
                } else {
                    Code::PermissionDenied
                };
                return Err(Status { code, message });
            },
        };
        match self.jwt.authz_claims_checked(&authn, resources, now) {
            Ok(claims) => Ok(claims),
            Err(_) => Err(make_status(Code::Internal, "failed to create authorization token")),
        }
    }

    /// The first half of `ExchangeUserTokenForMultiresourceToken`, at the
    /// clock's current reading (see
    /// [`AuthService::exchange_user_token_for_multiresource_token_at`]).
    pub fn exchange_user_token_for_multiresource_token(
        &self,
        decoded: Option<AuthnClaims>,
        resource_ids: &[String],
    ) -> (result: Result<AuthzClaims, Status>)
        ensures
            exists|now: i64|
                authz_status_result(result) == spec_exchange(
                    self@,
                    authn_option_view(decoded),
                    strings_view(resource_ids@),
                    now,
                ),
            match result {
                Ok(claims) => authz_status_result(result) == spec_exchange(
                    self@,
                    authn_option_view(decoded),
                    strings_view(resource_ids@),
                    claims.iat,
                ),
                Err(_) => true,
            },
    {
        let now = crate::jwt::unix_now();
        self.exchange_user_token_for_multiresource_token_at(decoded, resource_ids, now)
    }

    /// The second half of `ExchangeUserTokenForMultiresourceToken`: the token
    /// handed back for the signed authorization `token` with these `claims`.
    pub fn multiresource_token_reply(token: String, claims: &AuthzClaims) -> (result: UserToken)
        requires
            i64::MIN <= claims.exp * 1000 <= i64::MAX,
        ensures
            result@ == (UserTokenView {
                user_token: token@,
                expires_at: (claims.exp * 1000) as i64,
                user_id: claims@.sub,
                user_name: claims@.name,
            }),
    {
        UserToken {
            user_token: token,
            expires_at: unix_millis(claims.exp),
            user_id: claims.sub.clone(),
            user_name: claims.name.clone(),
        }
    }
}

/// A client polling the session it just started, before the session expires,
/// is told that the login is still pending.
pub proof fn law_started_session_polls_pending(
    v: StoreView,
    client_state: Seq<char>,
    code: Seq<char>,
    now: u128,
    later: u128,
)
    requires
        spec_create(v, client_state, code, now).1 is Ok,
        later < spec_create(v, client_state, code, now).1->Ok_0.expires_at,
    ensures
        spec_auth_session_reply(spec_get(spec_create(v, client_state, code, now).0, code, later), client_state)
            == Ok::<Option<UserTokenView>, StatusView>(None),
{
    crate::store::law_created_session_is_readable(v, client_state, code, now, later);
}

/// Only the client that started a session hears of it: a poll with another
/// client state is refused, whatever the session holds.
pub proof fn law_poll_needs_client_state(session: AuthSessionView, client_state: Seq<char>)
    requires
        session.client_state != client_state,
    ensures
        spec_auth_session_reply(Ok(session), client_state) == Err::<Option<UserTokenView>, StatusView>(
            client_state_mismatch(),
        ),
{
}

/// A completed login is handed to its client with the token the store recorded.
pub proof fn law_completed_login_is_handed_out(
    v: StoreView,
    code: Seq<char>,
    user: crate::store::UserIdentityView,
    token: Seq<char>,
    token_expires_at: i64,
    now: u128,
    later: u128,
)
    requires
        crate::store::spec_complete(v, code, user, token, token_expires_at, now).1 is Ok,
        later < v.sessions[code].expires_at,
    ensures
        spec_auth_session_reply(
            spec_get(crate::store::spec_complete(v, code, user, token, token_expires_at, now).0, code, later),
            v.sessions[code].client_state,
        ) == Ok::<Option<UserTokenView>, StatusView>(
            Some(
                UserTokenView {
                    user_token: token,
                    expires_at: token_expires_at,
                    user_id: user.user_id,
                    user_name: user.display_name,
                },
            ),
        ),
{
}

/// A resource is reachable with an authorization token exactly when one of its
/// grants covers it: the wildcard or the resource's own ID, with a permission.
pub proof fn law_resource_access_follows_grants(claims: AuthzClaimsView, resource: Seq<char>)
    requires
        claims.typ == "lore-authz"@,
    ensures
        spec_require_resource(Some(claims), resource) is Ok <==> spec_authorizes(claims.resources, resource),
{
}

/// While every-user access is off, no resource request is granted: an exchange
/// by a holder of a valid authentication token is denied.
pub proof fn law_exchange_denied_without_policy(requested: Seq<Seq<char>>)
    ensures
        spec_resource_claims(requested, false) == Err::<Seq<ResourceClaimView>, crate::jwt::ResourceClaimError>(
            crate::jwt::ResourceClaimError::NoPolicyBackend,
        ),
        resource_refusal(crate::jwt::ResourceClaimError::NoPolicyBackend, false).code == Code::PermissionDenied,
{
}

/// For the client that started a session, a poll answers "no token yet"
/// exactly while the session is pending, whether or not a login at the
/// provider has begun; a completed session hands out the recorded token with
/// the user's ID and display name.
pub proof fn law_poll_answers_by_session_state(session: AuthSessionView)
    ensures
        (spec_auth_session_reply(Ok(session), session.client_state) == Ok::<Option<UserTokenView>, StatusView>(None))
            <==> session.state is Pending,
        spec_auth_session_reply(Ok(session), session.client_state) is Ok,
        session.state matches SessionStateView::Completed(done) ==> spec_auth_session_reply(
            Ok(session),
            session.client_state,
        ) == Ok::<Option<UserTokenView>, StatusView>(
            Some(
                UserTokenView {
                    user_token: done.token,
                    expires_at: done.token_expires_at,
                    user_id: done.user.user_id,
                    user_name: done.user.display_name,
                },
            ),
        ),
{
}

/// A granted exchange speaks for the holder of the authentication token: the
/// same subject, name and preferred username, an authorization type, an
/// expiry no later than the authentication token's, and every requested
/// resource authorized.
pub proof fn law_exchange_speaks_for_the_holder(
    service: AuthServiceView,
    authn: AuthnClaimsView,
    resource_ids: Seq<Seq<char>>,
    now: i64,
    resource: Seq<char>,
)
    requires
        spec_exchange(service, Some(authn), resource_ids, now) is Ok,
    ensures
        ({
            let c = spec_exchange(service, Some(authn), resource_ids, now)->Ok_0;
            &&& c.sub == authn.sub
            &&& c.name == authn.name
            &&& c.preferred_username == authn.preferred_username
            &&& c.typ == "lore-authz"@
            &&& c.exp <= authn.exp
            &&& c.iat == now
            &&& resource_ids.contains(resource) ==> spec_authorizes(c.resources, resource)
        }),
{
    if resource_ids.contains(resource) {
        crate::jwt::law_granted_resources_are_authorized(resource_ids, service.allow_all_users, resource);
    }
}

/// A bearer token is what follows `Bearer ` in the header, never empty; a
/// header with such a token always yields it.
pub proof fn law_bearer_is_the_rest_of_the_header(header: Seq<char>, token: Seq<char>)
    ensures
        spec_bearer(Some(header)) == Ok::<Seq<char>, StatusView>(token) ==> header == "Bearer "@ + token && token.len() > 0,
        token.len() > 0 ==> spec_bearer(Some("Bearer "@ + token)) == Ok::<Seq<char>, StatusView>(token),
{
    let h = "Bearer "@ + token;
    assert("Bearer "@.is_prefix_of(h)) by {
        assert forall|i: int| 0 <= i < "Bearer "@.len() implies "Bearer "@[i] == h[i] by {}
    }
    assert(h.subrange("Bearer "@.len() as int, h.len() as int) =~= token);
    if spec_bearer(Some(header)) == Ok::<Seq<char>, StatusView>(token) {
        assert(header =~= "Bearer "@ + header.subrange("Bearer "@.len() as int, header.len() as int));
    }
}

} // verus!
