use vstd::prelude::*;

use base64::Engine;
use rsa::pkcs1::DecodeRsaPrivateKey;
use rsa::pkcs8::DecodePrivateKey;
use rsa::traits::PublicKeyParts;
use sha2::Digest;
use vstd::utf8::{decode_utf8, valid_utf8};

use crate::store::{UserIdentity, UserIdentityView};
use crate::text::{option_view, starts_with, str_eq, strings_view};

verus! {

/// One repository resource and the permissions granted on it.
#[derive(Clone, Debug, PartialEq, Eq)]
pub struct ResourceClaim {
    pub resource_id: String,
    pub permission: Vec<String>,
}

pub struct ResourceClaimView {
    pub resource_id: Seq<char>,
    pub permission: Seq<Seq<char>>,
}

impl View for ResourceClaim {
    type V = ResourceClaimView;

    open spec fn view(&self) -> ResourceClaimView {
        ResourceClaimView { resource_id: self.resource_id@, permission: strings_view(self.permission@) }
    }
}

pub open spec fn resource_claims_view(v: Seq<ResourceClaim>) -> Seq<ResourceClaimView> {
    v.map_values(|c: ResourceClaim| c@)
}

/// Why a set of requested resources was refused.
#[derive(Clone, Copy, Debug, PartialEq, Eq, Structural)]
pub enum ResourceClaimError {
    NoPolicyBackend,
    NoResourceIds,
    InvalidResourceId,
}

/// The text reported to the client for a refusal.
pub open spec fn resource_claim_error_message(e: ResourceClaimError) -> Seq<char> {
    match e {
        ResourceClaimError::NoPolicyBackend => "no authorization policy backend is configured"@,
        ResourceClaimError::NoResourceIds => "at least one resource_id is required"@,
        ResourceClaimError::InvalidResourceId => "resource IDs must use urc-{repository_id} or urc-*"@,
    }
}

impl ResourceClaimError {
    /// The text reported to the client for this refusal.
    pub fn message(&self) -> (result: String)
        ensures
            result@ == resource_claim_error_message(*self),
    {
        match self {
            ResourceClaimError::NoPolicyBackend => "no authorization policy backend is configured".to_owned(),
            ResourceClaimError::NoResourceIds => "at least one resource_id is required".to_owned(),
            ResourceClaimError::InvalidResourceId => "resource IDs must use urc-{repository_id} or urc-*".to_owned(),
        }
    }
}

/// A resource ID that names neither the wildcard nor a `urc-` repository.
pub open spec fn is_invalid_resource_id(r: Seq<char>) -> bool {
    (r != "urc-*"@ && !"urc-"@.is_prefix_of(r)) || r == "urc-"@
}

/// Every granted resource carries read, write and admin.
pub open spec fn full_permissions() -> Seq<Seq<char>> {
    seq!["read"@, "write"@, "admin"@]
}

pub open spec fn full_grant(id: Seq<char>) -> ResourceClaimView {
    ResourceClaimView { resource_id: id, permission: full_permissions() }
}

/// The claims granted for `requested` when every authenticated user is allowed:
/// one full grant per distinct requested ID, in order of first request.
pub open spec fn spec_resource_claims(requested: Seq<Seq<char>>, allow_all: bool) -> Result<
    Seq<ResourceClaimView>,
    ResourceClaimError,
> {
    if !allow_all {
        Err(ResourceClaimError::NoPolicyBackend)
    } else if requested.len() == 0 {
        Err(ResourceClaimError::NoResourceIds)
    } else if exists|i: int| 0 <= i < requested.len() && is_invalid_resource_id(#[trigger] requested[i]) {
        Err(ResourceClaimError::InvalidResourceId)
    } else {
        Ok(requested.remove_duplicates(Seq::empty()).map_values(|id: Seq<char>| full_grant(id)))
    }
}

fn is_invalid_resource(resource: &String) -> (result: bool)
    ensures
        result == is_invalid_resource_id(resource@),
{
    let r = resource.as_str();
    (!str_eq(r, "urc-*") && !starts_with(r, "urc-")) || str_eq(r, "urc-")
}

fn full_permission_list() -> (result: Vec<String>)
    ensures
        strings_view(result@) == full_permissions(),
{
    let mut v: Vec<String> = Vec::new();
    v.push("read".to_owned());
    v.push("write".to_owned());
    v.push("admin".to_owned());
    assert(strings_view(v@) =~= full_permissions());
    v
}

fn claims_contain_id(resources: &Vec<ResourceClaim>, id: &String) -> (result: bool)
    ensures
        result == exists|j: int| 0 <= j < resources@.len() && #[trigger] resources@[j].resource_id@ == id@,
{
    let mut j: usize = 0;
    while j < resources.len()
        invariant
            j <= resources.len(),
            forall|k: int| 0 <= k < j ==> resources@[k].resource_id@ != id@,
        decreases resources.len() - j,
    {
        if str_eq(resources[j].resource_id.as_str(), id.as_str()) {
            return true;
        }
        j = j + 1;
    }
    false
}

/// Grants the requested repository resources under the allow-all policy.
pub fn resource_claims(requested: &[String], allow_all: bool) -> (result: Result<Vec<ResourceClaim>, ResourceClaimError>)
    ensures
        match result {
            Ok(claims) => spec_resource_claims(strings_view(requested@), allow_all) == Ok::<
                Seq<ResourceClaimView>,
                ResourceClaimError,
            >(resource_claims_view(claims@)),
            Err(e) => spec_resource_claims(strings_view(requested@), allow_all) == Err::<
                Seq<ResourceClaimView>,
                ResourceClaimError,
            >(e),
        },
{
    let ghost ids = strings_view(requested@);
    if !allow_all {
        return Err(ResourceClaimError::NoPolicyBackend);
    }
    if requested.len() == 0 {
        return Err(ResourceClaimError::NoResourceIds);
    }
    let mut i: usize = 0;
    while i < requested.len()
        invariant
            allow_all,
            i <= requested.len(),
            ids == strings_view(requested@),
            forall|k: int| 0 <= k < i ==> !is_invalid_resource_id(#[trigger] ids[k]),
        decreases requested.len() - i,
    {
        if is_invalid_resource(&requested[i]) {
            assert(is_invalid_resource_id(ids[i as int]));
            return Err(ResourceClaimError::InvalidResourceId);
        }
        i = i + 1;
    }
    let mut resources: Vec<ResourceClaim> = Vec::new();
    let mut i: usize = 0;
    while i < requested.len()
        invariant
            allow_all,
            forall|k: int| 0 <= k < ids.len() ==> !is_invalid_resource_id(#[trigger] ids[k]),
            i <= requested.len(),
            ids == strings_view(requested@),
            resource_claims_view(resources@) == ids.take(i as int).remove_duplicates(
                Seq::empty(),
            ).map_values(|id: Seq<char>| full_grant(id)),
            forall|k: int| 0 <= k < resources@.len() ==> (#[trigger] resources@[k])@.resource_id == ids.take(i as int).remove_duplicates(Seq::empty())[k],
            resources@.len() == ids.take(i as int).remove_duplicates(Seq::empty()).len(),
        decreases requested.len() - i,
    {
        let ghost prefix = ids.take(i as int);
        let ghost deduped = prefix.remove_duplicates(Seq::empty());
        proof {
            assert(ids.take(i + 1) =~= prefix + seq![ids[i as int]]);
            prefix.lemma_remove_duplicates_append(ids[i as int], Seq::empty());
            prefix.lemma_remove_duplicates_properties(Seq::empty());
            assert(prefix + Seq::<Seq<char>>::empty() =~= prefix);
        }
        let present = claims_contain_id(&resources, &requested[i]);
        if present {
            proof {
                let j = choose|j: int| 0 <= j < resources@.len() && #[trigger] resources@[j].resource_id@ == requested@[i as int]@;
                assert(deduped[j] == ids[i as int]);
                assert(deduped.contains(ids[i as int]));
            }
        } else {
            proof {
                if deduped.contains(ids[i as int]) {
                    let j = choose|j: int| 0 <= j < deduped.len() && deduped[j] == ids[i as int];
                    assert(resources@[j].resource_id@ == requested@[i as int]@);
                }
            }
            let ghost before = resources@;
            let claim = ResourceClaim { resource_id: requested[i].clone(), permission: full_permission_list() };
            resources.push(claim);
            proof {
                assert(resource_claims_view(resources@) =~= resource_claims_view(before).push(full_grant(ids[i as int])));
                assert(deduped + seq![ids[i as int]] =~= deduped.push(ids[i as int]));
                assert(deduped.push(ids[i as int]).map_values(|id: Seq<char>| full_grant(id)) =~= deduped.map_values(|id: Seq<char>| full_grant(id)).push(full_grant(ids[i as int])));
            }
        }
        i = i + 1;
    }
    assert(ids.take(requested.len() as int) =~= ids);
    Ok(resources)
}

/// Claims of an adapter-issued authentication token.
#[derive(Clone, Debug)]
pub struct AuthnClaims {
    pub iss: String,
    pub sub: String,
    pub iat: i64,
    pub exp: i64,
    pub aud: Vec<String>,
    pub typ: String,
    pub env: String,
    pub name: String,
    pub preferred_username: String,
    pub is_service_account: bool,
}

pub struct AuthnClaimsView {
    pub iss: Seq<char>,
    pub sub: Seq<char>,
    pub iat: i64,
    pub exp: i64,
    pub aud: Seq<Seq<char>>,
    pub typ: Seq<char>,
    pub env: Seq<char>,
    pub name: Seq<char>,
    pub preferred_username: Seq<char>,
    pub is_service_account: bool,
}

impl View for AuthnClaims {
    type V = AuthnClaimsView;

    open spec fn view(&self) -> AuthnClaimsView {
        AuthnClaimsView {
            iss: self.iss@,
            sub: self.sub@,
            iat: self.iat,
            exp: self.exp,
            aud: strings_view(self.aud@),
            typ: self.typ@,
            env: self.env@,
            name: self.name@,
            preferred_username: self.preferred_username@,
            is_service_account: self.is_service_account,
        }
    }
}

/// Claims of an adapter-issued multi-resource authorization token.
#[derive(Clone, Debug)]
pub struct AuthzClaims {
    pub iss: String,
    pub sub: String,
    pub iat: i64,
    pub exp: i64,
    pub aud: Vec<String>,
    pub typ: String,
    pub env: String,
    pub name: String,
    pub preferred_username: String,
    pub idp: String,
    pub resources: Vec<ResourceClaim>,
}

pub struct AuthzClaimsView {
    pub iss: Seq<char>,
    pub sub: Seq<char>,
    pub iat: i64,
    pub exp: i64,
    pub aud: Seq<Seq<char>>,
    pub typ: Seq<char>,
    pub env: Seq<char>,
    pub name: Seq<char>,
    pub preferred_username: Seq<char>,
    pub idp: Seq<char>,
    pub resources: Seq<ResourceClaimView>,
}

impl View for AuthzClaims {
    type V = AuthzClaimsView;

    open spec fn view(&self) -> AuthzClaimsView {
        AuthzClaimsView {
            iss: self.iss@,
            sub: self.sub@,
            iat: self.iat,
            exp: self.exp,
            aud: strings_view(self.aud@),
            typ: self.typ@,
            env: self.env@,
            name: self.name@,
            preferred_username: self.preferred_username@,
            idp: self.idp@,
            resources: resource_claims_view(self.resources@),
        }
    }
}

/// Whether one granted resource covers `resource`: the wildcard or the same ID,
/// with at least one permission.
pub open spec fn grant_covers(claim: ResourceClaimView, resource: Seq<char>) -> bool {
    (claim.resource_id == "urc-*"@ || claim.resource_id == resource) && claim.permission.len() > 0
}

/// Whether some granted resource covers `resource`.
pub open spec fn spec_authorizes(resources: Seq<ResourceClaimView>, resource: Seq<char>) -> bool {
    exists|i: int| 0 <= i < resources.len() && grant_covers(#[trigger] resources[i], resource)
}

/// Whether an authorization token grants access to `resource`.
pub fn authorizes_resource(claims: &AuthzClaims, resource: &str) -> (result: bool)
    ensures
        result == spec_authorizes(claims@.resources, resource@),
{
    let mut i: usize = 0;
    while i < claims.resources.len()
        invariant
            i <= claims.resources.len(),
            forall|k: int| 0 <= k < i ==> !grant_covers(#[trigger] claims@.resources[k], resource@),
        decreases claims.resources.len() - i,
    {
        let claim = &claims.resources[i];
        let id = claim.resource_id.as_str();
        if (str_eq(id, "urc-*") || str_eq(id, resource)) && claim.permission.len() > 0 {
            assert(grant_covers(claims@.resources[i as int], resource@));
            return true;
        }
        i = i + 1;
    }
    false
}

/// Every requested resource that is granted is then authorized by the grant.
pub proof fn law_granted_resources_are_authorized(requested: Seq<Seq<char>>, allow_all: bool, resource: Seq<char>)
    requires
        spec_resource_claims(requested, allow_all) is Ok,
        requested.contains(resource),
    ensures
        spec_authorizes(spec_resource_claims(requested, allow_all)->Ok_0, resource),
{
    let deduped = requested.remove_duplicates(Seq::empty());
    requested.lemma_remove_duplicates_properties(Seq::empty());
    assert(requested + Seq::<Seq<char>>::empty() =~= requested);
    assert(deduped.contains(resource));
    let i = choose|i: int| 0 <= i < deduped.len() && deduped[i] == resource;
    let claims = spec_resource_claims(requested, allow_all)->Ok_0;
    assert(claims[i] == full_grant(resource));
    assert(grant_covers(claims[i], resource));
}

/// Granted claims name each requested resource once, in order of first request,
/// each with read, write and admin.
pub proof fn law_grants_are_full_and_distinct(requested: Seq<Seq<char>>, allow_all: bool)
    requires
        spec_resource_claims(requested, allow_all) is Ok,
    ensures
        ({
            let claims = spec_resource_claims(requested, allow_all)->Ok_0;
            &&& forall|i: int| 0 <= i < claims.len() ==> (#[trigger] claims[i]).permission == full_permissions()
            &&& forall|i: int, j: int| 0 <= i < j < claims.len() ==> (#[trigger] claims[i]).resource_id != (#[trigger] claims[j]).resource_id
            &&& forall|i: int| 0 <= i < claims.len() ==> requested.contains((#[trigger] claims[i]).resource_id)
        }),
{
    let deduped = requested.remove_duplicates(Seq::empty());
    requested.lemma_remove_duplicates_properties(Seq::empty());
    assert(requested + Seq::<Seq<char>>::empty() =~= requested);
    lemma_remove_duplicates_distinct(requested, Seq::empty());
    let claims = spec_resource_claims(requested, allow_all)->Ok_0;
    assert forall|i: int| 0 <= i < claims.len() implies (#[trigger] claims[i]) == full_grant(deduped[i]) by {}
    assert forall|i: int, j: int| 0 <= i < j < claims.len() implies (#[trigger] claims[i]).resource_id != (#[trigger] claims[j]).resource_id by {
        assert(claims[i] == full_grant(deduped[i]));
        assert(claims[j] == full_grant(deduped[j]));
    }
    assert forall|i: int| 0 <= i < claims.len() implies requested.contains((#[trigger] claims[i]).resource_id) by {
        assert(claims[i] == full_grant(deduped[i]));
        assert(deduped.contains(deduped[i]));
    }
}

proof fn lemma_remove_duplicates_distinct(s: Seq<Seq<char>>, seen: Seq<Seq<char>>)
    requires
        seen.no_duplicates(),
    ensures
        s.remove_duplicates(seen).no_duplicates(),
    decreases s.len(),
{
    if s.len() == 0 {
    } else if seen.contains(s[0]) {
        lemma_remove_duplicates_distinct(s.skip(1), seen);
    } else {
        let next = seen + seq![s[0]];
        assert forall|i: int, j: int| 0 <= i < next.len() && 0 <= j < next.len() && i != j implies next[i] != next[j] by {
            if i < seen.len() && j < seen.len() {
            } else if i == seen.len() {
                assert(next[i] == s[0]);
                assert(next[j] == seen[j]);
            } else {
                assert(next[j] == s[0]);
                assert(next[i] == seen[i]);
            }
        }
        lemma_remove_duplicates_distinct(s.skip(1), next);
    }
}

/// A wildcard grant with some permission authorizes every resource.
pub proof fn law_wildcard_authorizes_everything(resources: Seq<ResourceClaimView>, i: int, resource: Seq<char>)
    requires
        0 <= i < resources.len(),
        resources[i].resource_id == "urc-*"@,
        resources[i].permission.len() > 0,
    ensures
        spec_authorizes(resources, resource),
{
    assert(grant_covers(resources[i], resource));
}

/// Authorization only ever comes from a grant of that resource or of the wildcard.
pub proof fn law_authorization_needs_a_grant(resources: Seq<ResourceClaimView>, resource: Seq<char>)
    requires
        spec_authorizes(resources, resource),
    ensures
        exists|i: int| 0 <= i < resources.len() && (#[trigger] resources[i]).permission.len() > 0 && (resources[i].resource_id
            == resource || resources[i].resource_id == "urc-*"@),
{
}

/// An authorization token never outlives the authentication token it was
/// exchanged for, nor the token lifetime.
pub proof fn law_authz_never_outlives_authn(
    service: JwtServiceView,
    authn: AuthnClaimsView,
    resources: Seq<ResourceClaimView>,
    now: i64,
)
    requires
        now <= i64::MAX - TOKEN_TTL_SECONDS,
    ensures
        spec_authz_claims(service, authn, resources, now).exp <= authn.exp,
        spec_authz_claims(service, authn, resources, now).exp <= now + TOKEN_TTL_SECONDS,
        spec_authz_claims(service, authn, resources, now).sub == authn.sub,
{
}

/// Authentication and authorization tokens carry different types, so neither
/// is accepted in place of the other.
pub proof fn law_token_types_differ(
    service: JwtServiceView,
    user: UserIdentityView,
    authn: AuthnClaimsView,
    resources: Seq<ResourceClaimView>,
    now: i64,
    later: i64,
)
    ensures
        spec_authn_claims(service, user, now).typ == "lore-authn"@,
        spec_authz_claims(service, authn, resources, later).typ == "lore-authz"@,
        spec_authn_claims(service, user, now).typ != "lore-authz"@,
        spec_authz_claims(service, authn, resources, later).typ != "lore-authn"@,
{
    reveal_strlit("lore-authn");
    reveal_strlit("lore-authz");
    assert("lore-authn"@[9] != "lore-authz"@[9]);
}

/// Lifetime of issued tokens, in seconds.
pub const TOKEN_TTL_SECONDS: i64 = 3600;

/// `jsonwebtoken::EncodingKey`, carried through without looking inside.
#[verifier::external_type_specification]
#[verifier::external_body]
pub struct ExEncodingKey(jsonwebtoken::EncodingKey);

/// `jsonwebtoken::DecodingKey`, carried through without looking inside.
#[verifier::external_type_specification]
#[verifier::external_body]
pub struct ExDecodingKey(jsonwebtoken::DecodingKey);

/// `jsonwebtoken::errors::Error`, carried through without looking inside.
#[verifier::external_type_specification]
#[verifier::external_body]
pub struct ExJwtError(jsonwebtoken::errors::Error);

/// `rsa::pkcs8::Error`, carried through without looking inside.
#[verifier::external_type_specification]
#[verifier::external_body]
pub struct ExPkcs8Error(rsa::pkcs8::Error);

/// `rsa::pkcs1::Error`, carried through without looking inside.
#[verifier::external_type_specification]
#[verifier::external_body]
pub struct ExPkcs1Error(rsa::pkcs1::Error);

/// The base64url encoding, without padding, of some bytes.
pub uninterp spec fn base64url_encode(bytes: Seq<u8>) -> Seq<char>;

/// The SHA-256 digest of some bytes.
pub uninterp spec fn sha256(bytes: Seq<u8>) -> Seq<u8>;

/// The big-endian modulus and public exponent of the RSA private key in a
/// PKCS#8 PEM document, when the document holds one.
pub uninterp spec fn pkcs8_rsa_components(text: Seq<char>) -> Option<(Seq<u8>, Seq<u8>)>;

/// The big-endian modulus and public exponent of the RSA private key in a
/// PKCS#1 PEM document, when the document holds one.
pub uninterp spec fn pkcs1_rsa_components(text: Seq<char>) -> Option<(Seq<u8>, Seq<u8>)>;

/// Whether `jsonwebtoken` accepts these PEM bytes as an RSA signing key.
pub uninterp spec fn rsa_signing_pem_accepted(pem: Seq<u8>) -> bool;

/// Whether `jsonwebtoken` accepts these base64url modulus and exponent as an RSA verifying key.
pub uninterp spec fn rsa_components_accepted(modulus: Seq<char>, exponent: Seq<char>) -> bool;

/// `base64::engine::general_purpose::URL_SAFE_NO_PAD.encode`: the unpadded
/// base64url text of `bytes`, four characters for each whole three bytes and
/// one more than the bytes left over (`base64::encoded_len` without padding).
#[verifier::external_body]
pub(crate) fn encode_base64url(bytes: &[u8]) -> (result: String)
    ensures
        result@ == base64url_encode(bytes@),
        result@.len() == 4 * (bytes@.len() / 3) + if bytes@.len() % 3 == 0 {
            0
        } else {
            bytes@.len() % 3 + 1
        },
{
    base64::engine::general_purpose::URL_SAFE_NO_PAD.encode(bytes)
}

/// `sha2::Sha256::digest`: the SHA-256 digest of `bytes`, 32 bytes long.
#[verifier::external_body]
fn digest_sha256(bytes: &[u8]) -> (result: Vec<u8>)
    ensures
        result@ == sha256(bytes@),
        result@.len() == 32,
{
    sha2::Sha256::digest(bytes).to_vec()
}

/// `std::str::from_utf8`: the text of `bytes` when they are valid UTF-8.
#[verifier::external_body]
fn utf8_text(bytes: &[u8]) -> (result: Option<&str>)
    ensures
        match result {
            Some(text) => valid_utf8(bytes@) && text@ == decode_utf8(bytes@),
            None => !valid_utf8(bytes@),
        },
{
    std::str::from_utf8(bytes).ok()
}

/// `rsa::RsaPrivateKey::from_pkcs8_pem`, keeping the key's big-endian modulus
/// and public exponent.
#[verifier::external_body]
fn parse_pkcs8_rsa_key(text: &str) -> (result: Result<(Vec<u8>, Vec<u8>), rsa::pkcs8::Error>)
    ensures
        match result {
            Ok((n, e)) => pkcs8_rsa_components(text@) == Some((n@, e@)),
            Err(_) => pkcs8_rsa_components(text@) is None,
        },
{
    rsa::RsaPrivateKey::from_pkcs8_pem(text).map(|key| (key.n().to_bytes_be(), key.e().to_bytes_be()))
}

/// `rsa::RsaPrivateKey::from_pkcs1_pem`, keeping the key's big-endian modulus
/// and public exponent.
#[verifier::external_body]
fn parse_pkcs1_rsa_key(text: &str) -> (result: Result<(Vec<u8>, Vec<u8>), rsa::pkcs1::Error>)
    ensures
        match result {
            Ok((n, e)) => pkcs1_rsa_components(text@) == Some((n@, e@)),
            Err(_) => pkcs1_rsa_components(text@) is None,
        },
{
    rsa::RsaPrivateKey::from_pkcs1_pem(text).map(|key| (key.n().to_bytes_be(), key.e().to_bytes_be()))
}

/// `jsonwebtoken::EncodingKey::from_rsa_pem`: a signing key from PEM bytes.
#[verifier::external_body]
fn signing_key_from_pem(pem: &[u8]) -> (result: Result<jsonwebtoken::EncodingKey, jsonwebtoken::errors::Error>)
    ensures
        result is Ok <==> rsa_signing_pem_accepted(pem@),
{
    jsonwebtoken::EncodingKey::from_rsa_pem(pem)
}

/// `jsonwebtoken::DecodingKey::from_rsa_components`: a verifying key from the
/// base64url modulus and exponent.
#[verifier::external_body]
fn verifying_key_from_components(modulus: &str, exponent: &str) -> (result: Result<
    jsonwebtoken::DecodingKey,
    jsonwebtoken::errors::Error,
>)
    ensures
        result is Ok <==> rsa_components_accepted(modulus@, exponent@),
{
    jsonwebtoken::DecodingKey::from_rsa_components(modulus, exponent)
}

/// `chrono::Utc::now().timestamp()`: the current Unix time in seconds.
#[verifier::external_body]
pub(crate) fn unix_now() -> i64 {
    chrono::Utc::now().timestamp()
}

/// Why a signing key was refused or a token or its claims could not be produced.
#[derive(Clone, Copy, Debug, PartialEq, Eq, Structural)]
pub enum JwtError {
    KeyNotUtf8,
    KeyNotRsaPem,
    SigningKeyRejected,
    VerifyingKeyRejected,
    NotAuthenticationToken,
    NotAuthorizationToken,
    ClockOutOfRange,
}

/// The RSA public components of a PKCS#8 PEM key, else of a PKCS#1 PEM key.
pub open spec fn rsa_components(text: Seq<char>) -> Option<(Seq<u8>, Seq<u8>)> {
    match pkcs8_rsa_components(text) {
        Some(c) => Some(c),
        None => pkcs1_rsa_components(text),
    }
}

/// The RFC 7638 canonical JSON of an RSA public key: the required members in
/// lexicographic order, without white space.
pub open spec fn thumbprint_input(exponent: Seq<char>, modulus: Seq<char>) -> Seq<char> {
    "{\"e\":\""@ + exponent + "\",\"kty\":\"RSA\",\"n\":\""@ + modulus + "\"}"@
}

/// The RFC 7638 JWK thumbprint: base64url of the SHA-256 of the canonical JSON.
pub open spec fn spec_jwk_thumbprint(exponent: Seq<char>, modulus: Seq<char>) -> Seq<char> {
    base64url_encode(sha256(vstd::utf8::encode_utf8(thumbprint_input(exponent, modulus))))
}

/// The JWK thumbprint of an RSA public key given by its base64url exponent and modulus.
pub fn jwk_thumbprint(exponent: &str, modulus: &str) -> (result: String)
    ensures
        result@ == spec_jwk_thumbprint(exponent@, modulus@),
        result@.len() == 43,
{
    let mut canonical = String::new();
    canonical.append("{\"e\":\"");
    canonical.append(exponent);
    canonical.append("\",\"kty\":\"RSA\",\"n\":\"");
    canonical.append(modulus);
    canonical.append("\"}");
    let digest = digest_sha256(canonical.as_str().as_bytes());
    encode_base64url(digest.as_slice())
}

/// The settings and public key of a [`JwtService`].
pub struct JwtServiceView {
    pub key_id: Seq<char>,
    pub issuer: Seq<char>,
    pub audience: Seq<Seq<char>>,
    pub environment: Seq<char>,
    pub identity_provider: Seq<char>,
    pub modulus: Seq<char>,
    pub exponent: Seq<char>,
}

/// Issues and checks the adapter's Lore JWTs, signed with one RSA key.
pub struct JwtService {
    encoding_key: jsonwebtoken::EncodingKey,
    decoding_key: jsonwebtoken::DecodingKey,
    key_id: String,
    issuer: String,
    audience: Vec<String>,
    environment: String,
    identity_provider: String,
    modulus: String,
    exponent: String,
}

impl View for JwtService {
    type V = JwtServiceView;

    closed spec fn view(&self) -> JwtServiceView {
        JwtServiceView {
            key_id: self.key_id@,
            issuer: self.issuer@,
            audience: strings_view(self.audience@),
            environment: self.environment@,
            identity_provider: self.identity_provider@,
            modulus: self.modulus@,
            exponent: self.exponent@,
        }
    }
}

/// What loading a signing key gives: refusals in the order they are checked,
/// otherwise the service's settings, with the key ID defaulting to the key's thumbprint.
pub open spec fn spec_from_pem(
    pem: Seq<u8>,
    key_id: Option<Seq<char>>,
    issuer: Seq<char>,
    audience: Seq<Seq<char>>,
    environment: Seq<char>,
    identity_provider: Seq<char>,
) -> Result<JwtServiceView, JwtError> {
    if !valid_utf8(pem) {
        Err(JwtError::KeyNotUtf8)
    } else {
        match rsa_components(decode_utf8(pem)) {
            None => Err(JwtError::KeyNotRsaPem),
            Some((n, e)) => {
                let modulus = base64url_encode(n);
                let exponent = base64url_encode(e);
                if !rsa_signing_pem_accepted(pem) {
                    Err(JwtError::SigningKeyRejected)
                } else if !rsa_components_accepted(modulus, exponent) {
                    Err(JwtError::VerifyingKeyRejected)
                } else {
                    Ok(
                        JwtServiceView {
                            key_id: match key_id {
                                Some(k) => k,
                                None => spec_jwk_thumbprint(exponent, modulus),
                            },
                            issuer,
                            audience,
                            environment,
                            identity_provider,
                            modulus,
                            exponent,
                        },
                    )
                }
            },
        }
    }
}

pub open spec fn service_result(r: Result<JwtService, JwtError>) -> Result<JwtServiceView, JwtError> {
    match r {
        Ok(s) => Ok(s@),
        Err(e) => Err(e),
    }
}


/// The authentication claims issued to `user` at `now`.
pub open spec fn spec_authn_claims(service: JwtServiceView, user: UserIdentityView, now: i64) -> AuthnClaimsView {
    AuthnClaimsView {
        iss: service.issuer,
        sub: user.user_id,
        iat: now,
        exp: (now + TOKEN_TTL_SECONDS) as i64,
        aud: service.audience,
        typ: "lore-authn"@,
        env: service.environment,
        name: user.display_name,
        preferred_username: user.preferred_username,
        is_service_account: false,
    }
}

/// The authorization claims issued at `now` for an authenticated user: they
/// never outlive the authentication token.
pub open spec fn spec_authz_claims(
    service: JwtServiceView,
    authn: AuthnClaimsView,
    resources: Seq<ResourceClaimView>,
    now: i64,
) -> AuthzClaimsView {
    AuthzClaimsView {
        iss: service.issuer,
        sub: authn.sub,
        iat: now,
        exp: if now + TOKEN_TTL_SECONDS <= authn.exp {
            (now + TOKEN_TTL_SECONDS) as i64
        } else {
            authn.exp
        },
        aud: service.audience,
        typ: "lore-authz"@,
        env: service.environment,
        name: authn.name,
        preferred_username: authn.preferred_username,
        idp: service.identity_provider,
        resources,
    }
}

fn clone_strings(v: &Vec<String>) -> (result: Vec<String>)
    ensures
        strings_view(result@) == strings_view(v@),
{
    let mut result: Vec<String> = Vec::new();
    let mut i: usize = 0;
    while i < v.len()
        invariant
            i <= v.len(),
            strings_view(result@) == strings_view(v@).take(i as int),
        decreases v.len() - i,
    {
        let ghost before = result@;
        let item = v[i].clone();
        result.push(item);
        assert(strings_view(result@) =~= strings_view(before).push(v@[i as int]@));
        assert(strings_view(result@) =~= strings_view(v@).take(i + 1));
        i = i + 1;
    }
    assert(strings_view(v@).take(v.len() as int) =~= strings_view(v@));
    result
}

/// One published RSA signing key, in JWK form.
pub struct Jwk {
    pub kty: String,
    pub key_use: String,
    pub alg: String,
    pub kid: String,
    pub n: String,
    pub e: String,
}

/// The published key set.
pub struct JwkSet {
    pub keys: Vec<Jwk>,
}

impl JwtService {
    /// Loads an RSA PKCS#8 or PKCS#1 PEM signing key and the token settings.
    pub fn from_pem(
        pem: &[u8],
        key_id: Option<String>,
        issuer: String,
        audience: Vec<String>,
        environment: String,
        identity_provider: String,
    ) -> (result: Result<JwtService, JwtError>)
        ensures
            service_result(result) == spec_from_pem(
                pem@,
                option_view(key_id),
                issuer@,
                strings_view(audience@),
                environment@,
                identity_provider@,
            ),
            key_id is None ==> (result matches Ok(service) ==> service@.key_id.len() == 43),
    {
        let text = match utf8_text(pem) {
            Some(text) => text,
            None => return Err(JwtError::KeyNotUtf8),
        };
        let components = match parse_pkcs8_rsa_key(text) {
            Ok(c) => c,
            Err(_) => match parse_pkcs1_rsa_key(text) {
                Ok(c) => c,
                Err(_) => return Err(JwtError::KeyNotRsaPem),
            },
        };
        let (n, e) = components;
        let modulus = encode_base64url(n.as_slice());
        let exponent = encode_base64url(e.as_slice());
        let key_id = match key_id {
            Some(k) => k,
            None => jwk_thumbprint(exponent.as_str(), modulus.as_str()),
        };
        let encoding_key = match signing_key_from_pem(pem) {
            Ok(k) => k,
            Err(_) => return Err(JwtError::SigningKeyRejected),
        };
        let decoding_key = match verifying_key_from_components(modulus.as_str(), exponent.as_str()) {
            Ok(k) => k,
            Err(_) => return Err(JwtError::VerifyingKeyRejected),
        };
        Ok(
            JwtService {
                encoding_key,
                decoding_key,
                key_id,
                issuer,
                audience,
                environment,
                identity_provider,
                modulus,
                exponent,
            },
        )
    }

    /// The key ID published in JWKS and set in token headers.
    pub fn key_id(&self) -> (result: &str)
        ensures
            result@ == self@.key_id,
    {
        self.key_id.as_str()
    }

    /// The `iss` of issued tokens, also required of validated ones.
    pub fn issuer(&self) -> (result: &str)
        ensures
            result@ == self@.issuer,
    {
        self.issuer.as_str()
    }

    /// The `aud` of issued tokens; a validated token must name one of them.
    pub fn audience(&self) -> (result: &Vec<String>)
        ensures
            strings_view(result@) == self@.audience,
    {
        &self.audience
    }

    /// The signing key this service was built with, from the PEM it was given.
    pub closed spec fn signing_key(&self) -> jsonwebtoken::EncodingKey {
        self.encoding_key
    }

    /// The verifying key this service was built with, from the modulus and
    /// exponent it publishes.
    pub closed spec fn verifying_key(&self) -> jsonwebtoken::DecodingKey {
        self.decoding_key
    }

    /// The key that signs issued tokens.
    pub fn encoding_key(&self) -> (result: &jsonwebtoken::EncodingKey)
        ensures
            *result == self.signing_key(),
    {
        &self.encoding_key
    }

    /// The key that verifies presented tokens.
    pub fn decoding_key(&self) -> (result: &jsonwebtoken::DecodingKey)
        ensures
            *result == self.verifying_key(),
    {
        &self.decoding_key
    }

    /// The authentication claims for `user`, issued at `now` (Unix seconds).
    pub fn authn_claims_at(&self, user: &UserIdentity, now: i64) -> (result: AuthnClaims)
        requires
            now <= i64::MAX - TOKEN_TTL_SECONDS,
        ensures
            result@ == spec_authn_claims(self@, user@, now),
    {
        AuthnClaims {
            iss: self.issuer.clone(),
            sub: user.user_id.clone(),
            iat: now,
            exp: now + TOKEN_TTL_SECONDS,
            aud: clone_strings(&self.audience),
            typ: "lore-authn".to_owned(),
            env: self.environment.clone(),
            name: user.display_name.clone(),
            preferred_username: user.preferred_username.clone(),
            is_service_account: false,
        }
    }

    /// The authentication claims for `user` at the clock reading `now` (Unix
    /// seconds); refused exactly when the expiry would not fit in an `i64`.
    pub fn authn_claims_checked(&self, user: &UserIdentity, now: i64) -> (result: Result<AuthnClaims, JwtError>)
        ensures
            result is Err <==> now > i64::MAX - TOKEN_TTL_SECONDS,
            match result {
                Ok(claims) => claims@ == spec_authn_claims(self@, user@, now),
                Err(e) => e == JwtError::ClockOutOfRange,
            },
    {
        if now > i64::MAX - TOKEN_TTL_SECONDS {
            return Err(JwtError::ClockOutOfRange);
        }
        Ok(self.authn_claims_at(user, now))
    }

    /// The authentication claims for `user`, issued at the clock's current
    /// reading; refused only when the clock is so far ahead that the expiry
    /// would not fit (see [`JwtService::authn_claims_checked`]).
    pub fn issue_authn(&self, user: &UserIdentity) -> (result: Result<AuthnClaims, JwtError>)
        ensures
            match result {
                Ok(claims) => claims.iat <= i64::MAX - TOKEN_TTL_SECONDS && claims@ == spec_authn_claims(
                    self@,
                    user@,
                    claims.iat,
                ),
                Err(e) => e == JwtError::ClockOutOfRange,
            },
    {
        self.authn_claims_checked(user, unix_now())
    }

    /// The authorization claims granting `resources` to the holder of `authn`,
    /// issued at `now` (Unix seconds).
    pub fn authz_claims_at(&self, authn: &AuthnClaims, resources: Vec<ResourceClaim>, now: i64) -> (result: AuthzClaims)
        requires
            now <= i64::MAX - TOKEN_TTL_SECONDS,
        ensures
            result@ == spec_authz_claims(self@, authn@, resource_claims_view(resources@), now),
    {
        let limit = now + TOKEN_TTL_SECONDS;
        let exp = if limit <= authn.exp {
            limit
        } else {
            authn.exp
        };
        AuthzClaims {
            iss: self.issuer.clone(),
            sub: authn.sub.clone(),
            iat: now,
            exp,
            aud: clone_strings(&self.audience),
            typ: "lore-authz".to_owned(),
            env: self.environment.clone(),
            name: authn.name.clone(),
            preferred_username: authn.preferred_username.clone(),
            idp: self.identity_provider.clone(),
            resources,
        }
    }

    /// The authorization claims granting `resources` to the holder of `authn`
    /// at the clock reading `now` (Unix seconds); refused exactly when the
    /// expiry would not fit in an `i64`.
    pub fn authz_claims_checked(&self, authn: &AuthnClaims, resources: Vec<ResourceClaim>, now: i64) -> (result: Result<
        AuthzClaims,
        JwtError,
    >)
        ensures
            result is Err <==> now > i64::MAX - TOKEN_TTL_SECONDS,
            match result {
                Ok(claims) => claims@ == spec_authz_claims(self@, authn@, resource_claims_view(resources@), now),
                Err(e) => e == JwtError::ClockOutOfRange,
            },
    {
        if now > i64::MAX - TOKEN_TTL_SECONDS {
            return Err(JwtError::ClockOutOfRange);
        }
        Ok(self.authz_claims_at(authn, resources, now))
    }

    /// The authorization claims granting `resources`, issued at the clock's
    /// current reading; refused only when the clock is so far ahead that the
    /// expiry would not fit (see [`JwtService::authz_claims_checked`]).
    pub fn issue_authz(&self, authn: &AuthnClaims, resources: Vec<ResourceClaim>) -> (result: Result<AuthzClaims, JwtError>)
        ensures
            match result {
                Ok(claims) => claims.iat <= i64::MAX - TOKEN_TTL_SECONDS && claims@ == spec_authz_claims(
                    self@,
                    authn@,
                    resource_claims_view(resources@),
                    claims.iat,
                ),
                Err(e) => e == JwtError::ClockOutOfRange,
            },
    {
        self.authz_claims_checked(authn, resources, unix_now())
    }

    /// Accepts verified claims only when they belong to an authentication token.
    pub fn validate_authn(&self, claims: AuthnClaims) -> (result: Result<AuthnClaims, JwtError>)
        ensures
            match result {
                Ok(c) => c@ == claims@ && claims@.typ == "lore-authn"@,
                Err(e) => e == JwtError::NotAuthenticationToken && claims@.typ != "lore-authn"@,
            },
    {
        if str_eq(claims.typ.as_str(), "lore-authn") {
            Ok(claims)
        } else {
            Err(JwtError::NotAuthenticationToken)
        }
    }

    /// Accepts verified claims only when they belong to an authorization token.
    pub fn validate_authz(&self, claims: AuthzClaims) -> (result: Result<AuthzClaims, JwtError>)
        ensures
            match result {
                Ok(c) => c@ == claims@ && claims@.typ == "lore-authz"@,
                Err(e) => e == JwtError::NotAuthorizationToken && claims@.typ != "lore-authz"@,
            },
    {
        if str_eq(claims.typ.as_str(), "lore-authz") {
            Ok(claims)
        } else {
            Err(JwtError::NotAuthorizationToken)
        }
    }

    /// The JWKS document: this service's single RS256 signing key.
    pub fn jwks(&self) -> (result: JwkSet)
        ensures
            result.keys@.len() == 1,
            result.keys@[0].kty@ == "RSA"@,
            result.keys@[0].key_use@ == "sig"@,
            result.keys@[0].alg@ == "RS256"@,
            result.keys@[0].kid@ == self@.key_id,
            result.keys@[0].n@ == self@.modulus,
            result.keys@[0].e@ == self@.exponent,
    {
        let key = Jwk {
            kty: "RSA".to_owned(),
            key_use: "sig".to_owned(),
            alg: "RS256".to_owned(),
            kid: self.key_id.clone(),
            n: self.modulus.clone(),
            e: self.exponent.clone(),
        };
        let mut keys = Vec::new();
        keys.push(key);
        JwkSet { keys }
    }
}

/// Authentication claims speak of the user they were issued to: the subject is
/// the user ID, the name is the display name and the preferred username is the
/// user's preferred username; the issuer, audience and environment are the
/// service's, and the token lives exactly the token lifetime.
pub proof fn law_authn_claims_describe_the_user(service: JwtServiceView, user: UserIdentityView, now: i64)
    requires
        now <= i64::MAX - TOKEN_TTL_SECONDS,
    ensures
        ({
            let c = spec_authn_claims(service, user, now);
            &&& c.sub == user.user_id
            &&& c.name == user.display_name
            &&& c.preferred_username == user.preferred_username
            &&& c.iss == service.issuer
            &&& c.aud == service.audience
            &&& c.env == service.environment
            &&& c.iat == now
            &&& c.exp == now + TOKEN_TTL_SECONDS
            &&& !c.is_service_account
        }),
{
}

/// Authorization claims carry over the identity of the authentication claims
/// they were exchanged for (subject, name and preferred username), grant
/// exactly the given resources, and name the service's issuer, audience,
/// environment and identity provider.
pub proof fn law_authz_claims_keep_the_identity(
    service: JwtServiceView,
    authn: AuthnClaimsView,
    resources: Seq<ResourceClaimView>,
    now: i64,
)
    ensures
        ({
            let c = spec_authz_claims(service, authn, resources, now);
            &&& c.sub == authn.sub
            &&& c.name == authn.name
            &&& c.preferred_username == authn.preferred_username
            &&& c.resources == resources
            &&& c.iss == service.issuer
            &&& c.aud == service.audience
            &&& c.env == service.environment
            &&& c.idp == service.identity_provider
            &&& c.iat == now
        }),
{
}

} // verus!
