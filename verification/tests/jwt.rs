use lore_auth_oidc::jwt::{
    authorizes_resource, jwk_thumbprint, resource_claims, AuthnClaims, AuthzClaims, JwtError,
    JwtService, ResourceClaim, ResourceClaimError,
};
use lore_auth_oidc::store::UserIdentity;

const FIRST_P: [u8; 128] = [
    242, 124, 102, 47, 180, 119, 150, 235, 150, 1, 144, 70, 213, 225, 74, 3,
    45, 58, 192, 115, 106, 12, 123, 211, 126, 1, 246, 173, 152, 97, 43, 33,
    62, 56, 4, 95, 182, 91, 121, 40, 135, 122, 3, 10, 136, 199, 191, 216,
    83, 168, 84, 53, 55, 115, 108, 222, 218, 88, 234, 253, 19, 97, 214, 230,
    132, 215, 230, 61, 16, 9, 105, 228, 249, 130, 119, 212, 55, 148, 218, 182,
    214, 132, 180, 8, 76, 136, 86, 233, 160, 117, 15, 123, 225, 45, 26, 117,
    84, 29, 49, 68, 31, 242, 171, 125, 250, 37, 189, 99, 54, 116, 34, 90,
    56, 100, 26, 167, 47, 241, 43, 175, 231, 228, 116, 177, 103, 40, 77, 243,
];

const FIRST_Q: [u8; 128] = [
    229, 68, 183, 174, 209, 123, 128, 91, 7, 235, 65, 93, 206, 169, 158, 4,
    140, 188, 161, 49, 137, 16, 17, 45, 196, 198, 165, 91, 178, 160, 153, 192,
    174, 103, 68, 73, 179, 76, 85, 150, 95, 51, 143, 46, 76, 212, 67, 78,
    154, 157, 224, 1, 118, 80, 78, 71, 167, 243, 26, 229, 198, 221, 25, 128,
    44, 173, 16, 236, 244, 253, 40, 163, 92, 10, 56, 91, 80, 15, 15, 182,
    237, 45, 185, 210, 106, 207, 15, 232, 25, 157, 211, 87, 237, 198, 210, 221,
    187, 155, 12, 172, 71, 74, 180, 192, 189, 205, 160, 106, 212, 140, 182, 221,
    19, 49, 79, 154, 65, 214, 73, 130, 9, 42, 63, 229, 186, 204, 193, 153,
];

const SECOND_P: [u8; 128] = [
    242, 82, 165, 191, 101, 59, 214, 87, 77, 84, 169, 176, 35, 109, 222, 88,
    190, 103, 152, 147, 147, 57, 1, 186, 217, 214, 35, 152, 127, 111, 60, 30,
    106, 246, 247, 207, 222, 86, 31, 229, 130, 229, 221, 252, 92, 154, 133, 161,
    82, 4, 131, 1, 118, 154, 19, 111, 192, 248, 7, 22, 170, 21, 243, 118,
    38, 198, 236, 181, 4, 165, 171, 183, 199, 163, 76, 74, 57, 1, 62, 206,
    95, 49, 40, 109, 85, 153, 91, 110, 31, 136, 122, 202, 83, 185, 158, 202,
    179, 162, 43, 24, 92, 198, 37, 195, 157, 218, 172, 19, 133, 89, 117, 210,
    67, 242, 126, 240, 177, 6, 14, 194, 55, 49, 48, 135, 191, 66, 229, 183,
];

const SECOND_Q: [u8; 128] = [
    181, 165, 26, 137, 214, 62, 166, 246, 42, 131, 223, 15, 217, 236, 192, 39,
    86, 254, 12, 130, 240, 131, 100, 60, 51, 123, 66, 229, 161, 50, 216, 19,
    2, 160, 27, 239, 18, 17, 201, 32, 148, 30, 72, 100, 225, 162, 157, 147,
    61, 148, 72, 169, 125, 157, 154, 62, 6, 121, 156, 227, 191, 80, 93, 166,
    141, 45, 78, 101, 9, 237, 163, 72, 235, 112, 214, 13, 238, 240, 104, 62,
    184, 164, 199, 226, 1, 19, 208, 254, 74, 188, 111, 217, 7, 62, 184, 2,
    3, 50, 108, 15, 196, 237, 179, 122, 72, 108, 172, 89, 222, 65, 178, 26,
    114, 11, 21, 159, 117, 153, 188, 191, 124, 188, 179, 68, 208, 173, 156, 155,
];

/// An RSA key built from two fixed primes, so that tests neither carry key
/// files nor spend seconds generating keys.
fn rsa_key(p: &[u8], q: &[u8]) -> rsa::RsaPrivateKey {
    rsa::RsaPrivateKey::from_p_q(
        rsa::BigUint::from_bytes_be(p),
        rsa::BigUint::from_bytes_be(q),
        rsa::BigUint::from(65537u32),
    )
    .unwrap()
}

fn pkcs8_pem(key: &rsa::RsaPrivateKey) -> String {
    let pem = rsa::pkcs8::EncodePrivateKey::to_pkcs8_pem(key, rsa::pkcs8::LineEnding::LF).unwrap();
    pem.as_str().to_owned()
}

fn pkcs1_pem(key: &rsa::RsaPrivateKey) -> String {
    let pem = rsa::pkcs1::EncodeRsaPrivateKey::to_pkcs1_pem(key, rsa::pkcs1::LineEnding::LF).unwrap();
    pem.as_str().to_owned()
}

fn pkcs8_key() -> String {
    pkcs8_pem(&rsa_key(&FIRST_P, &FIRST_Q))
}

fn pkcs1_key() -> String {
    pkcs1_pem(&rsa_key(&SECOND_P, &SECOND_Q))
}

fn service_from(pem: &str, key_id: Option<String>) -> JwtService {
    JwtService::from_pem(
        pem.as_bytes(),
        key_id,
        "https://auth.example.com".into(),
        vec!["lore.example.com".into()],
        "test".into(),
        "test-oidc".into(),
    )
    .unwrap()
}

fn service() -> JwtService {
    service_from(&pkcs8_key(), Some("test-key".into()))
}

fn user() -> UserIdentity {
    UserIdentity {
        user_id: "oidc-subject".into(),
        display_name: "Ada Lovelace".into(),
        preferred_username: "ada".into(),
    }
}

fn strings(values: &[String]) -> serde_json::Value {
    serde_json::Value::Array(values.iter().map(|v| serde_json::Value::String(v.clone())).collect())
}

fn text(value: &serde_json::Value, name: &str) -> String {
    value[name].as_str().unwrap().to_owned()
}

fn text_list(value: &serde_json::Value) -> Vec<String> {
    value.as_array().unwrap().iter().map(|v| v.as_str().unwrap().to_owned()).collect()
}

fn authn_json(claims: &AuthnClaims) -> serde_json::Value {
    let mut object = serde_json::Map::new();
    object.insert("iss".into(), claims.iss.clone().into());
    object.insert("sub".into(), claims.sub.clone().into());
    object.insert("iat".into(), claims.iat.into());
    object.insert("exp".into(), claims.exp.into());
    object.insert("aud".into(), strings(&claims.aud));
    object.insert("typ".into(), claims.typ.clone().into());
    object.insert("env".into(), claims.env.clone().into());
    object.insert("name".into(), claims.name.clone().into());
    object.insert("preferred_username".into(), claims.preferred_username.clone().into());
    object.insert("is_service_account".into(), claims.is_service_account.into());
    serde_json::Value::Object(object)
}

fn authn_from_json(value: &serde_json::Value) -> AuthnClaims {
    AuthnClaims {
        iss: text(value, "iss"),
        sub: text(value, "sub"),
        iat: value["iat"].as_i64().unwrap(),
        exp: value["exp"].as_i64().unwrap(),
        aud: text_list(&value["aud"]),
        typ: text(value, "typ"),
        env: text(value, "env"),
        name: text(value, "name"),
        preferred_username: text(value, "preferred_username"),
        is_service_account: value["is_service_account"].as_bool().unwrap(),
    }
}

fn authz_json(claims: &AuthzClaims) -> serde_json::Value {
    let mut object = serde_json::Map::new();
    object.insert("iss".into(), claims.iss.clone().into());
    object.insert("sub".into(), claims.sub.clone().into());
    object.insert("iat".into(), claims.iat.into());
    object.insert("exp".into(), claims.exp.into());
    object.insert("aud".into(), strings(&claims.aud));
    object.insert("typ".into(), claims.typ.clone().into());
    object.insert("env".into(), claims.env.clone().into());
    object.insert("name".into(), claims.name.clone().into());
    object.insert("preferred_username".into(), claims.preferred_username.clone().into());
    object.insert("idp".into(), claims.idp.clone().into());
    let resources = claims
        .resources
        .iter()
        .map(|r| {
            let mut grant = serde_json::Map::new();
            grant.insert("resource_id".into(), r.resource_id.clone().into());
            grant.insert("permission".into(), strings(&r.permission));
            serde_json::Value::Object(grant)
        })
        .collect();
    object.insert("resources".into(), serde_json::Value::Array(resources));
    serde_json::Value::Object(object)
}

fn authz_from_json(value: &serde_json::Value) -> AuthzClaims {
    AuthzClaims {
        iss: text(value, "iss"),
        sub: text(value, "sub"),
        iat: value["iat"].as_i64().unwrap(),
        exp: value["exp"].as_i64().unwrap(),
        aud: text_list(&value["aud"]),
        typ: text(value, "typ"),
        env: text(value, "env"),
        name: text(value, "name"),
        preferred_username: text(value, "preferred_username"),
        idp: text(value, "idp"),
        resources: value["resources"]
            .as_array()
            .unwrap()
            .iter()
            .map(|grant| ResourceClaim {
                resource_id: text(grant, "resource_id"),
                permission: text_list(&grant["permission"]),
            })
            .collect(),
    }
}

fn sign(jwt: &JwtService, claims: &serde_json::Value) -> String {
    let mut header = jsonwebtoken::Header::new(jsonwebtoken::Algorithm::RS256);
    header.kid = Some(jwt.key_id().to_owned());
    jsonwebtoken::encode(&header, claims, jwt.encoding_key()).unwrap()
}

fn verify(jwt: &JwtService, token: &str) -> Option<serde_json::Value> {
    let mut validation = jsonwebtoken::Validation::new(jsonwebtoken::Algorithm::RS256);
    validation.set_issuer(&[jwt.issuer()]);
    validation.set_audience(jwt.audience());
    jsonwebtoken::decode::<serde_json::Value>(token, jwt.decoding_key(), &validation)
        .ok()
        .map(|data| data.claims)
}

#[test]
fn creates_and_validates_tokens_and_jwks() {
    let jwt = service();
    let authn = jwt.issue_authn(&user()).unwrap();
    let authn_token = sign(&jwt, &authn_json(&authn));
    let authn_claims = jwt.validate_authn(authn_from_json(&verify(&jwt, &authn_token).unwrap())).unwrap();
    assert_eq!(authn_claims.sub, "oidc-subject");
    let resources = resource_claims(&["urc-repository".into()], true).unwrap();
    let authz = jwt.issue_authz(&authn_claims, resources).unwrap();
    let authz_token = sign(&jwt, &authz_json(&authz));
    let authz_claims = jwt.validate_authz(authz_from_json(&verify(&jwt, &authz_token).unwrap())).unwrap();
    assert_eq!(authz_claims.idp, "test-oidc");
    assert!(authorizes_resource(&authz_claims, "urc-repository"));
    assert!(!authorizes_resource(&authz_claims, "urc-other"));
    assert_eq!(jwt.jwks().keys[0].kid, "test-key");
}

#[test]
fn emits_and_validates_multiple_audiences() {
    let jwt = JwtService::from_pem(
        pkcs8_key().as_bytes(),
        Some("test-key".into()),
        "https://auth.example.com".into(),
        vec!["localhost".into(), "127.0.0.1".into()],
        "test".into(),
        "test-oidc".into(),
    )
    .unwrap();
    let authn = jwt.issue_authn(&user()).unwrap();
    let token = sign(&jwt, &authn_json(&authn));

    let payload_segment = token.split('.').nth(1).unwrap();
    let payload_bytes = base64::Engine::decode(&base64::engine::general_purpose::URL_SAFE_NO_PAD, payload_segment).unwrap();
    let claims: serde_json::Value = serde_json::from_slice(&payload_bytes).unwrap();
    assert_eq!(text_list(&claims["aud"]), vec!["localhost", "127.0.0.1"]);

    let single_audience = JwtService::from_pem(
        pkcs8_key().as_bytes(),
        Some("test-key".into()),
        "https://auth.example.com".into(),
        vec!["127.0.0.1".into()],
        "test".into(),
        "test-oidc".into(),
    )
    .unwrap();
    assert!(verify(&single_audience, &token).is_some());

    let unrelated_audience = JwtService::from_pem(
        pkcs8_key().as_bytes(),
        Some("test-key".into()),
        "https://auth.example.com".into(),
        vec!["unrelated.example.com".into()],
        "test".into(),
        "test-oidc".into(),
    )
    .unwrap();
    assert!(verify(&unrelated_audience, &token).is_none());
}

#[test]
fn rejects_tokens_of_the_wrong_type() {
    let jwt = service();
    let authn = jwt.issue_authn(&user()).unwrap();
    let authn_claims = jwt.validate_authn(authn.clone()).unwrap();
    let resources = resource_claims(&["urc-repository".into()], true).unwrap();
    let authz = jwt.issue_authz(&authn_claims, resources).unwrap();
    let mut authz_typed_authn = authz.clone();
    authz_typed_authn.typ = authn.typ.clone();
    let mut authn_typed_authz = authn.clone();
    authn_typed_authz.typ = authz.typ.clone();
    assert!(matches!(jwt.validate_authz(authz_typed_authn), Err(JwtError::NotAuthorizationToken)));
    assert!(matches!(jwt.validate_authn(authn_typed_authz), Err(JwtError::NotAuthenticationToken)));
}

#[test]
fn derives_a_stable_jwk_thumbprint_key_id() {
    let first = service_from(&pkcs8_key(), None);
    let second = service_from(&pkcs8_key(), None);
    assert_eq!(first.key_id(), second.key_id());
    assert_eq!(first.key_id().len(), 43);
    assert_ne!(service_from(&pkcs1_key(), None).key_id(), first.key_id());
}

#[test]
fn creates_expected_resource_claims() {
    let resources = resource_claims(&["urc-abc".into(), "urc-def".into(), "urc-abc".into()], true).unwrap();
    assert_eq!(
        resources.iter().map(|claim| claim.resource_id.as_str()).collect::<Vec<_>>(),
        ["urc-abc", "urc-def"]
    );
    assert!(resources.iter().all(|claim| claim.permission == ["read", "write", "admin"]));
    assert!(resource_claims(&["repository".into()], true).is_err());
    assert!(resource_claims(&["urc-".into()], true).is_err());
    assert!(resource_claims(&["urc-abc".into()], false).is_err());
    assert!(resource_claims(&[], true).is_err());
}

#[test]
fn wildcard_grant_authorizes_any_resource() {
    let jwt = service();
    let authn = jwt.issue_authn(&user()).unwrap();
    let authn_claims = jwt.validate_authn(authn).unwrap();
    let resources = resource_claims(&["urc-*".into()], true).unwrap();
    let authz = jwt.issue_authz(&authn_claims, resources).unwrap();
    let authz_claims = jwt.validate_authz(authz).unwrap();
    assert!(authorizes_resource(&authz_claims, "urc-anything"));
}

#[test]
fn thumbprint_matches_the_published_example() {
    let modulus = "0vx7agoebGcQSuuPiLJXZptN9nndrQmbXEps2aiAFbWhM78LhWx4cbbfAAtVT86zwu1RK7aPFFxuhDR1L6tSoc_BJECPebWKRXjBZCiFV4n3oknjhMstn64tZ_2W-5JsGY4Hc5n9yBXArwl93lqt7_RN5w6Cf0h4QyQ5v-65YGjQR0_FDW2QvzqY368QQMicAtaSqzs8KJZgnYb9c7d0zgdAZHzu6qMQvRL5hajrn1n91CbOpbISD08qNLyrdkt-bFTWhAI4vMQFh6WeZu0fM4lFd2NcRwr3XPksINHaQ-G_xBniIqbw0Ls1jF44-csFCur-kEgU8awapJzKnqDKgw";
    assert_eq!(jwk_thumbprint("AQAB", modulus), "NzbLsXh8uDCcd-6MNwXF4W_7noWXFZAfHkxZsRGC9Xs");
}

#[test]
fn default_key_id_is_the_key_thumbprint() {
    assert_eq!(service_from(&pkcs8_key(), None).key_id(), "66GnI_VV5nJsncbWwhY2820fznDsy7VhhP_POgV-gkU");
    assert_eq!(service_from(&pkcs1_key(), None).key_id(), "XfQP5XA_12xEw3J1TF18oKEHsHQcBGZ1h_yK2wWGCCE");
}

#[test]
fn publishes_the_signing_key() {
    let jwt = service();
    let jwks = jwt.jwks();
    assert_eq!(jwks.keys.len(), 1);
    let key = &jwks.keys[0];
    assert_eq!(key.kty, "RSA");
    assert_eq!(key.key_use, "sig");
    assert_eq!(key.alg, "RS256");
    assert_eq!(key.e, "AQAB");
    assert_eq!(key.n.len(), 342);
    assert_eq!(jwk_thumbprint(&key.e, &key.n), service_from(&pkcs8_key(), None).key_id());
}

#[test]
fn pkcs1_keys_sign_verifiable_tokens() {
    let jwt = service_from(&pkcs1_key(), Some("pkcs1".into()));
    let authn = jwt.issue_authn(&user()).unwrap();
    let token = sign(&jwt, &authn_json(&authn));
    let decoded = authn_from_json(&verify(&jwt, &token).unwrap());
    assert_eq!(decoded.sub, "oidc-subject");
    assert!(verify(&service(), &token).is_none());
}

#[test]
fn refuses_keys_that_are_not_rsa_pem() {
    let refuse = |pem: &[u8]| {
        JwtService::from_pem(pem, None, "iss".into(), vec!["aud".into()], "test".into(), "idp".into()).err()
    };
    assert_eq!(refuse(&[0xff, 0xfe, 0x00]), Some(JwtError::KeyNotUtf8));
    assert_eq!(refuse(b"not a key"), Some(JwtError::KeyNotRsaPem));
    assert_eq!(refuse(b""), Some(JwtError::KeyNotRsaPem));
}

#[test]
fn authentication_claims_carry_the_user_and_settings() {
    let jwt = service();
    let claims = jwt.authn_claims_at(&user(), 1_700_000_000);
    assert_eq!(claims.iss, "https://auth.example.com");
    assert_eq!(claims.sub, "oidc-subject");
    assert_eq!(claims.iat, 1_700_000_000);
    assert_eq!(claims.exp, 1_700_003_600);
    assert_eq!(claims.aud, vec!["lore.example.com".to_owned()]);
    assert_eq!(claims.typ, "lore-authn");
    assert_eq!(claims.env, "test");
    assert_eq!(claims.name, "Ada Lovelace");
    assert_eq!(claims.preferred_username, "ada");
    assert!(!claims.is_service_account);
}

#[test]
fn authorization_never_outlives_authentication() {
    let jwt = service();
    let authn = jwt.authn_claims_at(&user(), 1_700_000_000);
    let fresh = jwt.authz_claims_at(&authn, Vec::new(), 1_700_000_000);
    assert_eq!(fresh.exp, 1_700_003_600);
    let late = jwt.authz_claims_at(&authn, Vec::new(), 1_700_003_000);
    assert_eq!(late.exp, 1_700_003_600);
    assert_eq!(late.iat, 1_700_003_000);
    assert_eq!(late.typ, "lore-authz");
    assert_eq!(late.idp, "test-oidc");
    assert_eq!(late.sub, "oidc-subject");
}

#[test]
fn issued_tokens_last_an_hour() {
    let jwt = service();
    let authn = jwt.issue_authn(&user()).unwrap();
    assert_eq!(authn.exp - authn.iat, 3600);
    let authz = jwt.issue_authz(&authn, Vec::new()).unwrap();
    assert!(authz.exp <= authn.exp);
    assert!(authz.exp - authz.iat <= 3600);
}

#[test]
fn resource_refusals_explain_themselves() {
    assert_eq!(resource_claims(&["urc-abc".into()], false).err(), Some(ResourceClaimError::NoPolicyBackend));
    assert_eq!(resource_claims(&[], true).err(), Some(ResourceClaimError::NoResourceIds));
    assert_eq!(resource_claims(&["urc-a".into(), "x".into()], true).err(), Some(ResourceClaimError::InvalidResourceId));
    assert_eq!(ResourceClaimError::NoPolicyBackend.message(), "no authorization policy backend is configured");
    assert_eq!(ResourceClaimError::NoResourceIds.message(), "at least one resource_id is required");
    assert_eq!(ResourceClaimError::InvalidResourceId.message(), "resource IDs must use urc-{repository_id} or urc-*");
}

#[test]
fn grants_need_a_permission() {
    let jwt = service();
    let authn = jwt.authn_claims_at(&user(), 1_700_000_000);
    let grants = vec![
        ResourceClaim { resource_id: "urc-empty".into(), permission: Vec::new() },
        ResourceClaim { resource_id: "urc-read".into(), permission: vec!["read".into()] },
    ];
    let claims = jwt.authz_claims_at(&authn, grants, 1_700_000_000);
    assert!(!authorizes_resource(&claims, "urc-empty"));
    assert!(authorizes_resource(&claims, "urc-read"));
    assert!(!authorizes_resource(&claims, "urc-other"));
}

#[test]
fn claims_are_refused_only_when_the_expiry_would_not_fit() {
    let jwt = service();
    let last = i64::MAX - 3600;
    let authn = jwt.authn_claims_checked(&user(), last).unwrap();
    assert_eq!(authn.exp, i64::MAX);
    assert_eq!(jwt.authn_claims_checked(&user(), last + 1).err(), Some(JwtError::ClockOutOfRange));
    let authz = jwt.authz_claims_checked(&authn, Vec::new(), last).unwrap();
    assert_eq!(authz.exp, i64::MAX);
    assert_eq!(jwt.authz_claims_checked(&authn, Vec::new(), last + 1).err(), Some(JwtError::ClockOutOfRange));
    let early = jwt.authn_claims_checked(&user(), 1_700_000_000).unwrap();
    assert_eq!(early.iat, 1_700_000_000);
    assert_eq!(early.exp, 1_700_003_600);
}
