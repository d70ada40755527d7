use lore_auth_oidc::config::{
    optional_setting, parse_audiences, parse_bool, parse_scopes, parse_u64, secret_from_file_contents,
    Config, ConfigError, EnvVars, HostFacts, Setting,
};
use lore_auth_oidc::oidc::ClientAuthMethod;

fn vars() -> EnvVars {
    EnvVars {
        adapter_public_url: Some("https://auth.example.com".into()),
        oidc_issuer_url: Some("https://identity.example.com".into()),
        oidc_client_id: Some("client".into()),
        oidc_client_secret: Some("secret".into()),
        jwt_audience: Some("lore.example.com".into()),
        jwt_private_key_path: Some("/keys/jwt.pem".into()),
        ..EnvVars::default()
    }
}

fn host() -> HostFacts {
    HostFacts { grpc_bind_addr_valid: true, http_bind_addr_valid: true, ..HostFacts::default() }
}

fn refusal(vars: &EnvVars, host: &HostFacts) -> ConfigError {
    Config::from_env(vars, host).err().unwrap()
}

#[test]
fn parses_space_or_comma_separated_scopes() {
    assert_eq!(parse_scopes("openid profile,email").unwrap(), ["openid", "profile", "email"]);
    assert!(parse_scopes("profile email").is_err());
}

#[test]
fn parses_space_or_comma_separated_audiences() {
    assert_eq!(parse_audiences("localhost,127.0.0.1").unwrap(), ["localhost", "127.0.0.1"]);
    assert_eq!(parse_audiences("localhost 127.0.0.1").unwrap(), ["localhost", "127.0.0.1"]);
    assert_eq!(parse_audiences("lore.example.com").unwrap(), ["lore.example.com"]);
    assert!(parse_audiences("").is_err());
    assert!(parse_audiences("   ").is_err());
}

#[test]
fn reads_and_trims_file_secret() {
    assert_eq!(secret_from_file_contents("super-secret\n").unwrap(), "super-secret");
}

#[test]
fn rejects_empty_file_secret() {
    assert!(secret_from_file_contents("").is_err());
}

#[test]
fn fills_in_defaults() {
    let config = Config::from_env(&vars(), &host()).unwrap();
    assert_eq!(config.adapter_public_url, "https://auth.example.com/");
    assert_eq!(config.grpc_bind_addr, "0.0.0.0:50051");
    assert_eq!(config.http_bind_addr, "0.0.0.0:8080");
    assert_eq!(config.oidc_issuer_url, "https://identity.example.com");
    assert_eq!(config.oidc_client_id, "client");
    assert_eq!(config.oidc_client_secret, "secret");
    assert_eq!(config.oidc_redirect_url, "https://auth.example.com/callback");
    assert_eq!(config.oidc_scopes, ["openid", "profile", "email"]);
    assert_eq!(config.oidc_display_name_claim, None);
    assert_eq!(config.oidc_username_claim, None);
    assert_eq!(config.oidc_provider_name, "https://identity.example.com");
    assert_eq!(config.oidc_client_auth_method, ClientAuthMethod::ClientSecretBasic);
    assert_eq!(config.oidc_tls_root_ca, None);
    assert_eq!(config.jwt_issuer, "https://auth.example.com");
    assert_eq!(config.jwt_audience, ["lore.example.com"]);
    assert_eq!(config.jwt_private_key_path, "/keys/jwt.pem");
    assert_eq!(config.jwt_key_id, None);
    assert_eq!(config.session_ttl_seconds, 600);
    assert!(!config.allow_all_users);
    assert_eq!(config.lore_env, "production");
}

#[test]
fn takes_every_configured_value() {
    let mut vars = vars();
    vars.adapter_public_url = Some("https://auth.example.com/base/".into());
    vars.grpc_bind_addr = Some(" 127.0.0.1:9000 ".into());
    vars.http_bind_addr = Some("127.0.0.1:9001".into());
    vars.oidc_client_secret_file = Some("/run/secret".into());
    vars.oidc_redirect_url = Some("https://other.example.com/cb".into());
    vars.oidc_scopes = Some("openid,groups".into());
    vars.oidc_display_name_claim = Some(" name ".into());
    vars.oidc_username_claim = Some("cognito:username".into());
    vars.oidc_provider_name = Some("Corp".into());
    vars.oidc_client_auth_method = Some("client_secret_post".into());
    vars.oidc_tls_root_ca_file = Some("/run/ca.pem".into());
    vars.jwt_issuer = Some("https://issuer.example.com".into());
    vars.jwt_audience = Some("localhost, 127.0.0.1".into());
    vars.jwt_key_id = Some("key-1".into());
    vars.session_ttl_seconds = Some("120".into());
    vars.allow_all_users = Some("true".into());
    vars.lore_env = Some("staging".into());
    let mut host = host();
    host.client_secret_file = Some("  from-file \n".into());
    host.tls_root_ca_file = Some(b"PEM".to_vec());
    let config = Config::from_env(&vars, &host).unwrap();
    assert_eq!(config.adapter_public_url, "https://auth.example.com/base/");
    assert_eq!(config.grpc_bind_addr, "127.0.0.1:9000");
    assert_eq!(config.http_bind_addr, "127.0.0.1:9001");
    assert_eq!(config.oidc_client_secret, "from-file");
    assert_eq!(config.oidc_redirect_url, "https://other.example.com/cb");
    assert_eq!(config.oidc_scopes, ["openid", "groups"]);
    assert_eq!(config.oidc_display_name_claim.as_deref(), Some("name"));
    assert_eq!(config.oidc_username_claim.as_deref(), Some("cognito:username"));
    assert_eq!(config.oidc_provider_name, "Corp");
    assert_eq!(config.oidc_client_auth_method, ClientAuthMethod::ClientSecretPost);
    assert_eq!(config.oidc_tls_root_ca.as_deref(), Some(&b"PEM"[..]));
    assert_eq!(config.jwt_issuer, "https://issuer.example.com");
    assert_eq!(config.jwt_audience, ["localhost", "127.0.0.1"]);
    assert_eq!(config.jwt_key_id.as_deref(), Some("key-1"));
    assert_eq!(config.session_ttl_seconds, 120);
    assert!(config.allow_all_users);
    assert_eq!(config.lore_env, "staging");
}

#[test]
fn default_redirect_and_issuer_follow_the_public_url() {
    let mut vars = vars();
    vars.adapter_public_url = Some("https://auth.example.com/adapter/".into());
    let config = Config::from_env(&vars, &host()).unwrap();
    assert_eq!(config.oidc_redirect_url, "https://auth.example.com/adapter/callback");
    assert_eq!(config.jwt_issuer, "https://auth.example.com/adapter");
}

#[test]
fn names_the_first_setting_that_fails() {
    let mut v = vars();
    v.adapter_public_url = None;
    assert_eq!(refusal(&v, &host()), ConfigError::Missing(Setting::AdapterPublicUrl));
    let mut v = vars();
    v.adapter_public_url = Some("not a url".into());
    assert_eq!(refusal(&v, &host()), ConfigError::InvalidUrl(Setting::AdapterPublicUrl));
    let mut h = host();
    h.grpc_bind_addr_valid = false;
    assert_eq!(refusal(&vars(), &h), ConfigError::InvalidBindAddr(Setting::GrpcBindAddr));
    let mut h = host();
    h.http_bind_addr_valid = false;
    assert_eq!(refusal(&vars(), &h), ConfigError::InvalidBindAddr(Setting::HttpBindAddr));
    let mut v = vars();
    v.oidc_issuer_url = None;
    assert_eq!(refusal(&v, &host()), ConfigError::Missing(Setting::OidcIssuerUrl));
    let mut v = vars();
    v.oidc_issuer_url = Some("identity".into());
    assert_eq!(refusal(&v, &host()), ConfigError::InvalidUrl(Setting::OidcIssuerUrl));
    let mut v = vars();
    v.oidc_client_id = None;
    assert_eq!(refusal(&v, &host()), ConfigError::Missing(Setting::OidcClientId));
    let mut v = vars();
    v.oidc_client_secret = None;
    assert_eq!(refusal(&v, &host()), ConfigError::Missing(Setting::OidcClientSecret));
    let mut v = vars();
    v.oidc_client_secret_file = Some("/run/secret".into());
    assert_eq!(refusal(&v, &host()), ConfigError::UnreadableSecretFile);
    let mut h = host();
    h.client_secret_file = Some(" \n".into());
    assert_eq!(refusal(&v, &h), ConfigError::EmptySecretFile);
    let mut v = vars();
    v.oidc_redirect_url = Some("/callback".into());
    assert_eq!(refusal(&v, &host()), ConfigError::InvalidUrl(Setting::OidcRedirectUrl));
    let mut v = vars();
    v.oidc_scopes = Some("profile".into());
    assert_eq!(refusal(&v, &host()), ConfigError::ScopesWithoutOpenid);
    let mut v = vars();
    v.oidc_client_auth_method = Some("private_key_jwt".into());
    assert_eq!(refusal(&v, &host()), ConfigError::UnsupportedClientAuthMethod);
    let mut v = vars();
    v.oidc_tls_root_ca_file = Some("/run/ca.pem".into());
    assert_eq!(refusal(&v, &host()), ConfigError::UnreadableTlsRootCaFile);
    let mut v = vars();
    v.jwt_audience = None;
    assert_eq!(refusal(&v, &host()), ConfigError::Missing(Setting::JwtAudience));
    let mut v = vars();
    v.jwt_audience = Some(" , ".into());
    assert_eq!(refusal(&v, &host()), ConfigError::NoAudience);
    let mut v = vars();
    v.jwt_private_key_path = None;
    assert_eq!(refusal(&v, &host()), ConfigError::Missing(Setting::JwtPrivateKeyPath));
    let mut v = vars();
    v.session_ttl_seconds = Some("ten".into());
    assert_eq!(refusal(&v, &host()), ConfigError::InvalidSessionTtl);
    let mut v = vars();
    v.allow_all_users = Some("yes".into());
    assert_eq!(refusal(&v, &host()), ConfigError::InvalidAllowAllUsers);
    let mut v = vars();
    v.session_ttl_seconds = Some("0".into());
    assert_eq!(refusal(&v, &host()), ConfigError::ZeroSessionTtl);
}

#[test]
fn explains_refusals() {
    assert_eq!(ConfigError::Missing(Setting::JwtAudience).message(), "missing JWT_AUDIENCE");
    assert_eq!(ConfigError::InvalidUrl(Setting::OidcIssuerUrl).message(), "OIDC_ISSUER_URL must be a URL");
    assert_eq!(
        ConfigError::InvalidBindAddr(Setting::GrpcBindAddr).message(),
        "GRPC_BIND_ADDR must be a socket address"
    );
    assert_eq!(ConfigError::ScopesWithoutOpenid.message(), "OIDC_SCOPES must include openid");
    assert_eq!(ConfigError::NoAudience.message(), "JWT_AUDIENCE must specify at least one audience");
    assert_eq!(ConfigError::ZeroSessionTtl.message(), "SESSION_TTL_SECONDS must be greater than zero");
}

#[test]
fn parses_numbers_and_flags_as_rust_does() {
    assert_eq!(parse_u64("600"), Some(600));
    assert_eq!(parse_u64("+7"), Some(7));
    assert_eq!(parse_u64("18446744073709551615"), Some(u64::MAX));
    assert_eq!(parse_u64("18446744073709551616"), None);
    assert_eq!(parse_u64(""), None);
    assert_eq!(parse_u64("+"), None);
    assert_eq!(parse_u64("-1"), None);
    assert_eq!(parse_u64("1 "), None);
    assert_eq!(parse_bool("true"), Some(true));
    assert_eq!(parse_bool("false"), Some(false));
    assert_eq!(parse_bool("True"), None);
}

#[test]
fn blank_optional_settings_are_absent() {
    assert_eq!(optional_setting(&Some("  value \t".into())), Some("value".to_owned()));
    assert_eq!(optional_setting(&Some(" \n ".into())), None);
    assert_eq!(optional_setting(&None), None);
}
