use vstd::prelude::*;

use base64::Engine;
use vstd::hash_map::StringHashMap;

use crate::store::{UserIdentity, UserIdentityView};
use crate::text::{chars_of, option_view, str_eq, string_from_chars, trim, trim_str};

verus! {

/// How the client authenticates itself at the provider's token endpoint.
#[derive(Clone, Copy, Debug, PartialEq, Eq, Structural)]
pub enum ClientAuthMethod {
    ClientSecretBasic,
    ClientSecretPost,
}

/// Why a configured client authentication method was refused.
#[derive(Clone, Copy, Debug, PartialEq, Eq, Structural)]
pub enum ClientAuthMethodError {
    Unsupported,
}

pub open spec fn spec_parse_client_auth_method(value: Seq<char>) -> Result<ClientAuthMethod, ClientAuthMethodError> {
    if value == "client_secret_basic"@ {
        Ok(ClientAuthMethod::ClientSecretBasic)
    } else if value == "client_secret_post"@ {
        Ok(ClientAuthMethod::ClientSecretPost)
    } else {
        Err(ClientAuthMethodError::Unsupported)
    }
}

impl ClientAuthMethod {
    /// Parses the configured method name; only the two secret-based methods are accepted.
    pub fn parse(value: &str) -> (result: Result<ClientAuthMethod, ClientAuthMethodError>)
        ensures
            result == spec_parse_client_auth_method(value@),
    {
        if str_eq(value, "client_secret_basic") {
            Ok(ClientAuthMethod::ClientSecretBasic)
        } else if str_eq(value, "client_secret_post") {
            Ok(ClientAuthMethod::ClientSecretPost)
        } else {
            Err(ClientAuthMethodError::Unsupported)
        }
    }
}

impl std::str::FromStr for ClientAuthMethod {
    type Err = ClientAuthMethodError;

    fn from_str(value: &str) -> (result: Result<ClientAuthMethod, ClientAuthMethodError>)
        ensures
            result == spec_parse_client_auth_method(value@),
    {
        ClientAuthMethod::parse(value)
    }
}

/// The provider's authorization URL and the secrets of that login attempt.
#[derive(Clone, Debug)]
pub struct AuthorizationRequest {
    pub url: String,
    pub csrf_state: String,
    pub nonce: String,
    pub pkce_verifier: String,
}

/// How the adapter talks to its one OIDC provider.
#[derive(Clone, Debug)]
pub struct OidcOptions {
    pub issuer_url: String,
    pub client_id: String,
    pub client_secret: String,
    pub redirect_url: String,
    pub scopes: Vec<String>,
    pub display_name_claim: Option<String>,
    pub username_claim: Option<String>,
    pub client_auth_method: ClientAuthMethod,
    /// Additional PEM root certificates to trust, for identity providers
    /// served through a reverse proxy with a private CA.
    pub tls_root_ca_pem: Option<Vec<u8>>,
}

/// The claims of a validated ID token, as far as identity resolution reads
/// them: for each claim name, its text when the claim is a JSON string.
pub struct IdTokenClaims {
    entries: StringHashMap<Option<String>>,
}

impl View for IdTokenClaims {
    type V = Map<Seq<char>, Option<Seq<char>>>;

    closed spec fn view(&self) -> Map<Seq<char>, Option<Seq<char>>> {
        self.entries@.map_values(|v: Option<String>| option_view(v))
    }
}

impl IdTokenClaims {
    /// No claims.
    pub fn new() -> (result: IdTokenClaims)
        ensures
            result@ == Map::<Seq<char>, Option<Seq<char>>>::empty(),
    {
        let result = IdTokenClaims { entries: StringHashMap::new() };
        assert(result@ =~= Map::<Seq<char>, Option<Seq<char>>>::empty());
        result
    }

    /// Records a claim whose value is the JSON string `value`.
    pub fn insert_string(&mut self, name: String, value: String)
        ensures
            final(self)@ == old(self)@.insert(name@, Some(value@)),
    {
        let ghost n = name@;
        let ghost v = value@;
        self.entries.insert(name, Some(value));
        assert(self@ =~= old(self)@.insert(n, Some(v)));
    }

    /// Records a claim whose value is not a JSON string.
    pub fn insert_other(&mut self, name: String)
        ensures
            final(self)@ == old(self)@.insert(name@, None),
    {
        let ghost n = name@;
        self.entries.insert(name, None);
        assert(self@ =~= old(self)@.insert(n, None));
    }
}

/// Why an identity could not be resolved from the ID token.
#[derive(Clone, Copy, Debug, PartialEq, Eq, Structural)]
pub enum ClaimError {
    NoStringValue,
    ConfiguredClaimUnusable,
}

/// The trimmed text of a claim; refused unless it is a non-blank string.
pub open spec fn spec_claim_string(claims: Map<Seq<char>, Option<Seq<char>>>, name: Seq<char>) -> Result<
    Seq<char>,
    ClaimError,
> {
    let text = if claims.contains_key(name) {
        match claims[name] {
            Some(t) => t,
            None => Seq::<char>::empty(),
        }
    } else {
        Seq::<char>::empty()
    };
    if trim(text).len() == 0 {
        Err(ClaimError::NoStringValue)
    } else {
        Ok(trim(text))
    }
}

pub open spec fn claim_result(r: Result<String, ClaimError>) -> Result<Seq<char>, ClaimError> {
    match r {
        Ok(s) => Ok(s@),
        Err(e) => Err(e),
    }
}

/// The trimmed text of a claim, which must be a non-blank string.
pub fn claim_string(claims: &IdTokenClaims, name: &str) -> (result: Result<String, ClaimError>)
    ensures
        claim_result(result) == spec_claim_string(claims@, name@),
{
    let value = match claims.entries.get(name) {
        Some(Some(text)) => trim_str(text.as_str()),
        _ => trim_str(""),
    };
    proof {
        reveal_strlit("");
        assert(""@ =~= Seq::<char>::empty());
    }
    if value.as_str().is_empty() {
        Err(ClaimError::NoStringValue)
    } else {
        Ok(value)
    }
}

/// The first of `names` whose claim is a non-blank string.
pub open spec fn first_claim(claims: Map<Seq<char>, Option<Seq<char>>>, names: Seq<Seq<char>>) -> Option<Seq<char>>
    decreases names.len(),
{
    if names.len() == 0 {
        None
    } else {
        match spec_claim_string(claims, names[0]) {
            Ok(v) => Some(v),
            Err(_) => first_claim(claims, names.drop_first()),
        }
    }
}

/// An identity attribute: the configured claim, which is then required;
/// otherwise the first usable fallback claim, else `final_fallback`.
pub open spec fn spec_resolve_claim(
    claims: Map<Seq<char>, Option<Seq<char>>>,
    configured: Option<Seq<char>>,
    fallbacks: Seq<Seq<char>>,
    final_fallback: Seq<char>,
) -> Result<Seq<char>, ClaimError> {
    match configured {
        Some(name) => match spec_claim_string(claims, name) {
            Ok(v) => Ok(v),
            Err(_) => Err(ClaimError::ConfiguredClaimUnusable),
        },
        None => match first_claim(claims, fallbacks) {
            Some(v) => Ok(v),
            None => Ok(final_fallback),
        },
    }
}

pub open spec fn strs_view(names: Seq<&str>) -> Seq<Seq<char>> {
    names.map_values(|s: &str| s@)
}

pub open spec fn str_option_view(o: Option<&str>) -> Option<Seq<char>> {
    match o {
        Some(s) => Some(s@),
        None => None,
    }
}

/// Resolves one identity attribute from the ID token's claims.
pub fn resolve_claim(
    claims: &IdTokenClaims,
    configured: Option<&str>,
    fallbacks: &[&str],
    final_fallback: &str,
) -> (result: Result<String, ClaimError>)
    ensures
        claim_result(result) == spec_resolve_claim(claims@, str_option_view(configured), strs_view(fallbacks@), final_fallback@),
{
    if let Some(name) = configured {
        return match claim_string(claims, name) {
            Ok(v) => Ok(v),
            Err(_) => Err(ClaimError::ConfiguredClaimUnusable),
        };
    }
    let ghost names = strs_view(fallbacks@);
    let mut i: usize = 0;
    assert(names.skip(0) =~= names);
    while i < fallbacks.len()
        invariant
            configured is None,
            i <= fallbacks.len(),
            names == strs_view(fallbacks@),
            first_claim(claims@, names) == first_claim(claims@, names.skip(i as int)),
        decreases fallbacks.len() - i,
    {
        proof {
            assert(names.skip(i as int).drop_first() =~= names.skip(i + 1));
            assert(names.skip(i as int)[0] == fallbacks@[i as int]@);
        }
        match claim_string(claims, fallbacks[i]) {
            Ok(v) => return Ok(v),
            Err(_) => {},
        }
        i = i + 1;
    }
    assert(names.skip(fallbacks.len() as int) =~= Seq::<Seq<char>>::empty());
    Ok(final_fallback.to_owned())
}

pub open spec fn resolve_names_username() -> Seq<Seq<char>> {
    seq!["preferred_username"@, "email"@, "name"@]
}

pub open spec fn resolve_names_display() -> Seq<Seq<char>> {
    seq!["name"@, "preferred_username"@, "email"@]
}

/// The Lore identity of an authenticated subject: the subject is the stable
/// user ID; the username and display name come from the claims.
pub open spec fn spec_identity(
    subject: Seq<char>,
    claims: Map<Seq<char>, Option<Seq<char>>>,
    username_claim: Option<Seq<char>>,
    display_name_claim: Option<Seq<char>>,
) -> Result<UserIdentityView, ClaimError> {
    match spec_resolve_claim(claims, username_claim, resolve_names_username(), subject) {
        Err(e) => Err(e),
        Ok(preferred_username) => match spec_resolve_claim(claims, display_name_claim, resolve_names_display(), subject) {
            Err(e) => Err(e),
            Ok(display_name) => Ok(UserIdentityView { user_id: subject, display_name, preferred_username }),
        },
    }
}

pub open spec fn identity_result(r: Result<UserIdentity, ClaimError>) -> Result<UserIdentityView, ClaimError> {
    match r {
        Ok(u) => Ok(u@),
        Err(e) => Err(e),
    }
}

fn option_str(o: &Option<String>) -> (result: Option<&str>)
    ensures
        str_option_view(result) == option_view(*o),
{
    match o {
        Some(s) => Some(s.as_str()),
        None => None,
    }
}

/// The Lore user for a validated ID token with subject `subject`.
pub fn identity_from_claims(subject: &str, claims: &IdTokenClaims, options: &OidcOptions) -> (result: Result<
    UserIdentity,
    ClaimError,
>)
    ensures
        identity_result(result) == spec_identity(
            subject@,
            claims@,
            option_view(options.username_claim),
            option_view(options.display_name_claim),
        ),
{
    let username_names: [&str; 3] = ["preferred_username", "email", "name"];
    let display_names: [&str; 3] = ["name", "preferred_username", "email"];
    assert(strs_view(username_names@) =~= resolve_names_username());
    assert(strs_view(display_names@) =~= resolve_names_display());
    let preferred_username = match resolve_claim(
        claims,
        option_str(&options.username_claim),
        username_names.as_slice(),
        subject,
    ) {
        Err(e) => return Err(e),
        Ok(v) => v,
    };
    let display_name = match resolve_claim(
        claims,
        option_str(&options.display_name_claim),
        display_names.as_slice(),
        subject,
    ) {
        Err(e) => return Err(e),
        Ok(v) => v,
    };
    Ok(UserIdentity { user_id: subject.to_owned(), display_name, preferred_username })
}

/// `base64::DecodeError`, carried through without looking inside.
#[verifier::external_type_specification]
#[verifier::external_body]
pub struct ExBase64DecodeError(base64::DecodeError);

/// `openidconnect::reqwest::Certificate`, carried through without looking inside.
#[verifier::external_type_specification]
#[verifier::external_body]
pub struct ExCertificate(openidconnect::reqwest::Certificate);

/// `openidconnect::reqwest::Error`, carried through without looking inside.
#[verifier::external_type_specification]
#[verifier::external_body]
pub struct ExReqwestError(openidconnect::reqwest::Error);

/// The bytes that unpadded base64url `text` encodes, when it is valid.
pub uninterp spec fn base64url_decode(text: Seq<char>) -> Option<Seq<u8>>;

/// The number of certificate sections in a PEM bundle, when each of them
/// decodes.
pub uninterp spec fn pem_bundle_certificate_count(pem: Seq<u8>) -> Option<nat>;

/// `base64::engine::general_purpose::URL_SAFE_NO_PAD.decode`.
#[verifier::external_body]
fn decode_base64url(text: &str) -> (result: Result<Vec<u8>, base64::DecodeError>)
    ensures
        match result {
            Ok(bytes) => base64url_decode(text@) == Some(bytes@),
            Err(_) => base64url_decode(text@) is None,
        },
{
    base64::engine::general_purpose::URL_SAFE_NO_PAD.decode(text)
}

/// `reqwest::Certificate::from_pem_bundle`: the certificates of a PEM bundle.
#[verifier::external_body]
fn certificates_from_pem_bundle(pem: &[u8]) -> (result: Result<
    Vec<openidconnect::reqwest::Certificate>,
    openidconnect::reqwest::Error,
>)
    ensures
        match result {
            Ok(certificates) => pem_bundle_certificate_count(pem@) == Some(certificates@.len()),
            Err(_) => pem_bundle_certificate_count(pem@) is None,
        },
{
    openidconnect::reqwest::Certificate::from_pem_bundle(pem)
}

/// Seconds the provider's HTTP client waits for a connection.
pub const CONNECT_TIMEOUT_SECONDS: u64 = 10;

/// Seconds the provider's HTTP client waits for a whole request.
pub const REQUEST_TIMEOUT_SECONDS: u64 = 30;

/// Milliseconds for which discovered provider metadata is reused.
pub const METADATA_CACHE_TTL_MILLIS: u128 = 900000;

/// Whether provider metadata fetched `age_millis` milliseconds ago may still be
/// used instead of running discovery again.
pub fn cached_metadata_is_fresh(age_millis: u128) -> (result: bool)
    ensures
        result == (age_millis < METADATA_CACHE_TTL_MILLIS),
{
    age_millis < METADATA_CACHE_TTL_MILLIS
}

/// Why the provider's HTTP client could not be set up.
#[derive(Clone, Copy, Debug, PartialEq, Eq, Structural)]
pub enum OidcSetupError {
    InvalidRootCaBundle,
    EmptyRootCaBundle,
}

/// The extra root certificates to trust: none without a bundle; a bundle must
/// parse and hold at least one certificate.
pub open spec fn spec_root_certificate_count(pem: Option<Seq<u8>>) -> Result<nat, OidcSetupError> {
    match pem {
        None => Ok(0),
        Some(p) => match pem_bundle_certificate_count(p) {
            None => Err(OidcSetupError::InvalidRootCaBundle),
            Some(n) => if n == 0 {
                Err(OidcSetupError::EmptyRootCaBundle)
            } else {
                Ok(n)
            },
        },
    }
}

/// The root certificates to add to the provider's HTTP client.
pub fn root_certificates(options: &OidcOptions) -> (result: Result<Vec<openidconnect::reqwest::Certificate>, OidcSetupError>)
    ensures
        match result {
            Ok(certificates) => spec_root_certificate_count(
                match options.tls_root_ca_pem {
                    Some(p) => Some(p@),
                    None => None,
                },
            ) == Ok::<nat, OidcSetupError>(certificates@.len()),
            Err(e) => spec_root_certificate_count(
                match options.tls_root_ca_pem {
                    Some(p) => Some(p@),
                    None => None,
                },
            ) == Err::<nat, OidcSetupError>(e),
        },
{
    match &options.tls_root_ca_pem {
        None => Ok(Vec::new()),
        Some(pem) => match certificates_from_pem_bundle(pem.as_slice()) {
            Err(_) => Err(OidcSetupError::InvalidRootCaBundle),
            Ok(certificates) => {
                if certificates.len() == 0 {
                    Err(OidcSetupError::EmptyRootCaBundle)
                } else {
                    Ok(certificates)
                }
            },
        },
    }
}

/// The position of the first `c` in `s`.
pub open spec fn first_index_of(s: Seq<char>, c: char) -> Option<int>
    decreases s.len(),
{
    if s.len() == 0 {
        None
    } else if s[0] == c {
        Some(0)
    } else {
        match first_index_of(s.drop_first(), c) {
            Some(i) => Some(i + 1),
            None => None,
        }
    }
}

/// The second `.`-separated segment of a compact JWT: its payload.
pub open spec fn second_segment(token: Seq<char>) -> Option<Seq<char>> {
    match first_index_of(token, '.') {
        None => None,
        Some(i) => {
            let rest = token.skip(i + 1);
            match first_index_of(rest, '.') {
                Some(j) => Some(rest.take(j)),
                None => Some(rest),
            }
        },
    }
}

proof fn lemma_first_index_found(s: Seq<char>, c: char, i: int)
    requires
        0 <= i < s.len(),
        s[i] == c,
        forall|k: int| 0 <= k < i ==> s[k] != c,
    ensures
        first_index_of(s, c) == Some(i),
    decreases i,
{
    if i > 0 {
        lemma_first_index_found(s.drop_first(), c, i - 1);
    }
}

proof fn lemma_first_index_absent(s: Seq<char>, c: char)
    requires
        forall|k: int| 0 <= k < s.len() ==> s[k] != c,
    ensures
        first_index_of(s, c) is None,
    decreases s.len(),
{
    if s.len() > 0 {
        lemma_first_index_absent(s.drop_first(), c);
    }
}

fn find_char(v: &Vec<char>, start: usize, c: char) -> (result: Option<usize>)
    requires
        start <= v.len(),
    ensures
        match result {
            Some(i) => start <= i < v.len() && first_index_of(v@.skip(start as int), c) == Some(i - start),
            None => first_index_of(v@.skip(start as int), c) is None,
        },
{
    let mut i = start;
    while i < v.len()
        invariant
            start <= i <= v.len(),
            forall|k: int| start <= k < i ==> v@[k] != c,
        decreases v.len() - i,
    {
        if v[i] == c {
            proof {
                lemma_first_index_found(v@.skip(start as int), c, i - start);
            }
            return Some(i);
        }
        i = i + 1;
    }
    proof {
        lemma_first_index_absent(v@.skip(start as int), c);
    }
    None
}

/// Why the payload of an ID token could not be extracted.
#[derive(Clone, Copy, Debug, PartialEq, Eq, Structural)]
pub enum IdTokenError {
    Malformed,
    PayloadNotBase64,
    PayloadNotJson,
    ClaimsNotObject,
}

/// The decoded payload of a compact ID token.
pub open spec fn spec_id_token_payload(token: Seq<char>) -> Result<Seq<u8>, IdTokenError> {
    match second_segment(token) {
        None => Err(IdTokenError::Malformed),
        Some(segment) => match base64url_decode(segment) {
            None => Err(IdTokenError::PayloadNotBase64),
            Some(bytes) => Ok(bytes),
        },
    }
}

/// The payload bytes of a compact ID token, for reading provider-specific claims.
pub fn id_token_payload(id_token: &str) -> (result: Result<Vec<u8>, IdTokenError>)
    ensures
        match result {
            Ok(bytes) => spec_id_token_payload(id_token@) == Ok::<Seq<u8>, IdTokenError>(bytes@),
            Err(e) => spec_id_token_payload(id_token@) == Err::<Seq<u8>, IdTokenError>(e),
        },
{
    let v = chars_of(id_token);
    assert(v@.skip(0) =~= v@);
    let first = match find_char(&v, 0, '.') {
        None => return Err(IdTokenError::Malformed),
        Some(i) => i,
    };
    let end = match find_char(&v, first + 1, '.') {
        Some(j) => j,
        None => v.len(),
    };
    let segment = string_from_chars(&v, first + 1, end);
    proof {
        let rest = v@.skip(first + 1);
        if end < v.len() {
            assert(rest.take(end - first - 1) =~= v@.subrange(first + 1, end as int));
        } else {
            assert(rest =~= v@.subrange(first + 1, end as int));
        }
    }
    match decode_base64url(segment.as_str()) {
        Err(_) => Err(IdTokenError::PayloadNotBase64),
        Ok(bytes) => Ok(bytes),
    }
}

/// A claim's name and its text when the claim is a JSON string.
pub open spec fn claim_entries_view(v: Seq<(String, Option<String>)>) -> Seq<(Seq<char>, Option<Seq<char>>)> {
    v.map_values(|e: (String, Option<String>)| (e.0@, option_view(e.1)))
}

/// What a JSON document holds: `None` when it is not JSON, `Some(None)` when
/// it is not an object, otherwise the object's members in the order the
/// parsed object lists them, each with its text when it is a string.
pub uninterp spec fn json_object_members(bytes: Seq<u8>) -> Option<Option<Seq<(Seq<char>, Option<Seq<char>>)>>>;

/// `serde_json::from_slice` into a `serde_json::Value`, then the members of
/// the object it holds, each string member with its text.
#[verifier::external_body]
fn json_object_claims(bytes: &[u8]) -> (result: Result<Vec<(String, Option<String>)>, IdTokenError>)
    ensures
        match result {
            Ok(members) => json_object_members(bytes@) == Some(Some(claim_entries_view(members@))),
            Err(IdTokenError::PayloadNotJson) => json_object_members(bytes@) is None,
            Err(IdTokenError::ClaimsNotObject) => json_object_members(bytes@) == Some(
                None::<Seq<(Seq<char>, Option<Seq<char>>)>>,
            ),
            Err(_) => false,
        },
{
    match serde_json::from_slice::<serde_json::Value>(bytes) {
        Err(_) => Err(IdTokenError::PayloadNotJson),
        Ok(serde_json::Value::Object(object)) => Ok(object.into_iter().map(|(name, value)| match value {
            serde_json::Value::String(text) => (name, Some(text)),
            serde_json::Value::Null | serde_json::Value::Bool(_) | serde_json::Value::Number(_)
            | serde_json::Value::Array(_) | serde_json::Value::Object(_) => (name, None),
        }).collect()),
        Ok(_) => Err(IdTokenError::ClaimsNotObject),
    }
}

/// The claims map of a list of members: a later member replaces an earlier one
/// of the same name.
pub open spec fn members_map(members: Seq<(Seq<char>, Option<Seq<char>>)>) -> Map<Seq<char>, Option<Seq<char>>>
    decreases members.len(),
{
    if members.len() == 0 {
        Map::empty()
    } else {
        members_map(members.drop_last()).insert(members.last().0, members.last().1)
    }
}

impl IdTokenClaims {
    /// The claims made of `members`, a later member replacing an earlier one of the same name.
    pub fn from_members(members: Vec<(String, Option<String>)>) -> (result: IdTokenClaims)
        ensures
            result@ == members_map(claim_entries_view(members@)),
    {
        let ghost all = claim_entries_view(members@);
        let mut claims = IdTokenClaims::new();
        let mut i: usize = 0;
        assert(all.take(0) =~= Seq::<(Seq<char>, Option<Seq<char>>)>::empty());
        while i < members.len()
            invariant
                i <= members.len(),
                all == claim_entries_view(members@),
                claims@ == members_map(all.take(i as int)),
            decreases members.len() - i,
        {
            let name = members[i].0.clone();
            match &members[i].1 {
                Some(text) => claims.insert_string(name, text.clone()),
                None => claims.insert_other(name),
            }
            proof {
                assert(all.take(i + 1).drop_last() =~= all.take(i as int));
                assert(all.take(i + 1).last() == all[i as int]);
            }
            i = i + 1;
        }
        assert(all.take(members.len() as int) =~= all);
        claims
    }
}

/// The claims of a compact ID token's payload.
pub open spec fn spec_decode_claims(token: Seq<char>) -> Result<Map<Seq<char>, Option<Seq<char>>>, IdTokenError> {
    match spec_id_token_payload(token) {
        Err(e) => Err(e),
        Ok(bytes) => match json_object_members(bytes) {
            None => Err(IdTokenError::PayloadNotJson),
            Some(None) => Err(IdTokenError::ClaimsNotObject),
            Some(Some(members)) => Ok(members_map(members)),
        },
    }
}

pub open spec fn claims_result(r: Result<IdTokenClaims, IdTokenError>) -> Result<Map<Seq<char>, Option<Seq<char>>>, IdTokenError> {
    match r {
        Ok(c) => Ok(c@),
        Err(e) => Err(e),
    }
}

/// The claims of a validated compact ID token, read from its payload to reach
/// provider-specific claims.
pub fn decode_claims(id_token: &str) -> (result: Result<IdTokenClaims, IdTokenError>)
    ensures
        claims_result(result) == spec_decode_claims(id_token@),
{
    let payload = match id_token_payload(id_token) {
        Err(e) => return Err(e),
        Ok(bytes) => bytes,
    };
    match json_object_claims(payload.as_slice()) {
        Err(e) => Err(e),
        Ok(members) => Ok(IdTokenClaims::from_members(members)),
    }
}

/// The subject is always the Lore user ID; without overrides, resolution never
/// fails, falling back to the subject.
pub proof fn law_identity_without_overrides(subject: Seq<char>, claims: Map<Seq<char>, Option<Seq<char>>>)
    ensures
        spec_identity(subject, claims, None, None) is Ok,
        spec_identity(subject, claims, None, None)->Ok_0.user_id == subject,
{
}

/// A configured claim override is strict: an absent, blank or non-string
/// claim fails the login.
pub proof fn law_configured_claim_is_required(
    subject: Seq<char>,
    claims: Map<Seq<char>, Option<Seq<char>>>,
    username_claim: Option<Seq<char>>,
    display_name_claim: Option<Seq<char>>,
    name: Seq<char>,
)
    requires
        username_claim == Some(name) || display_name_claim == Some(name),
        spec_claim_string(claims, name) is Err,
    ensures
        spec_identity(subject, claims, username_claim, display_name_claim) == Err::<UserIdentityView, ClaimError>(
            ClaimError::ConfiguredClaimUnusable,
        ),
{
}

/// Whenever identity resolution succeeds, the user ID is the subject.
pub proof fn law_subject_is_user_id(
    subject: Seq<char>,
    claims: Map<Seq<char>, Option<Seq<char>>>,
    username_claim: Option<Seq<char>>,
    display_name_claim: Option<Seq<char>>,
)
    requires
        spec_identity(subject, claims, username_claim, display_name_claim) is Ok,
    ensures
        spec_identity(subject, claims, username_claim, display_name_claim)->Ok_0.user_id == subject,
{
}

/// A configured claim decides its attribute: when the identity resolves, the
/// username claim was a string and gives the preferred username, and the
/// display-name claim was a string and gives the display name, each as the
/// claim's trimmed text.
pub proof fn law_configured_claims_decide(
    subject: Seq<char>,
    claims: Map<Seq<char>, Option<Seq<char>>>,
    username_claim: Option<Seq<char>>,
    display_name_claim: Option<Seq<char>>,
    name: Seq<char>,
    text: Seq<char>,
)
    requires
        spec_identity(subject, claims, username_claim, display_name_claim) is Ok,
    ensures
        username_claim == Some(name) ==> claims.contains_key(name) && claims[name] is Some,
        display_name_claim == Some(name) ==> claims.contains_key(name) && claims[name] is Some,
        (username_claim == Some(name) && claims.contains_key(name) && claims[name] == Some(text)) ==> spec_identity(
            subject,
            claims,
            username_claim,
            display_name_claim,
        )->Ok_0.preferred_username == trim(text),
        (display_name_claim == Some(name) && claims.contains_key(name) && claims[name] == Some(text))
            ==> spec_identity(subject, claims, username_claim, display_name_claim)->Ok_0.display_name == trim(text),
{
}

/// Without overrides, a non-blank `preferred_username` claim is the preferred
/// username and a non-blank `name` claim is the display name; without any
/// claims, both fall back to the subject.
pub proof fn law_standard_claims_come_first(subject: Seq<char>, claims: Map<Seq<char>, Option<Seq<char>>>, text: Seq<char>)
    ensures
        (claims.contains_key("preferred_username"@) && claims["preferred_username"@] == Some(text) && trim(text).len() > 0)
            ==> spec_identity(subject, claims, None, None)->Ok_0.preferred_username == trim(text),
        (claims.contains_key("name"@) && claims["name"@] == Some(text) && trim(text).len() > 0) ==> spec_identity(
            subject,
            claims,
            None,
            None,
        )->Ok_0.display_name == trim(text),
        claims == Map::<Seq<char>, Option<Seq<char>>>::empty() ==> spec_identity(subject, claims, None, None)->Ok_0.preferred_username
            == subject && spec_identity(subject, claims, None, None)->Ok_0.display_name == subject,
{
    reveal_with_fuel(first_claim, 4);
}

} // verus!
