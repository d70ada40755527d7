use vstd::prelude::*;

use crate::oidc::{spec_parse_client_auth_method, ClientAuthMethod};
use crate::text::{
    chars_of, list_items, option_view, split_list, str_eq, strings_view, trim, trim_end_char, trim_end_matches_char,
    trim_str,
};

verus! {

/// The serialization of the URL that `input` parses to, when it parses.
pub uninterp spec fn url_serialization(input: Seq<char>) -> Option<Seq<char>>;

/// `url::Url::parse`, keeping the parsed URL's serialization (`Url::as_str`).
#[verifier::external_body]
fn parse_url(input: &str) -> (result: Result<String, url::ParseError>)
    ensures
        match result {
            Ok(serialized) => url_serialization(input@) == Some(serialized@),
            Err(_) => url_serialization(input@) is None,
        },
{
    url::Url::parse(input).map(|url| url.as_str().to_owned())
}

/// `url::ParseError`, carried through without looking inside.
#[verifier::external_type_specification]
#[verifier::external_body]
pub struct ExUrlParseError(url::ParseError);

/// A configuration variable whose value is required or checked.
#[derive(Clone, Copy, Debug, PartialEq, Eq, Structural)]
pub enum Setting {
    AdapterPublicUrl,
    GrpcBindAddr,
    HttpBindAddr,
    OidcIssuerUrl,
    OidcClientId,
    OidcClientSecret,
    OidcRedirectUrl,
    JwtAudience,
    JwtPrivateKeyPath,
}

/// Why the configuration was refused.
#[derive(Clone, Copy, Debug, PartialEq, Eq, Structural)]
pub enum ConfigError {
    Missing(Setting),
    InvalidUrl(Setting),
    InvalidBindAddr(Setting),
    UnreadableSecretFile,
    EmptySecretFile,
    ScopesWithoutOpenid,
    UnsupportedClientAuthMethod,
    UnreadableTlsRootCaFile,
    NoAudience,
    InvalidSessionTtl,
    InvalidAllowAllUsers,
    ZeroSessionTtl,
}

pub open spec fn setting_name(s: Setting) -> Seq<char> {
    match s {
        Setting::AdapterPublicUrl => "ADAPTER_PUBLIC_URL"@,
        Setting::GrpcBindAddr => "GRPC_BIND_ADDR"@,
        Setting::HttpBindAddr => "HTTP_BIND_ADDR"@,
        Setting::OidcIssuerUrl => "OIDC_ISSUER_URL"@,
        Setting::OidcClientId => "OIDC_CLIENT_ID"@,
        Setting::OidcClientSecret => "OIDC_CLIENT_SECRET or OIDC_CLIENT_SECRET_FILE"@,
        Setting::OidcRedirectUrl => "OIDC_REDIRECT_URL"@,
        Setting::JwtAudience => "JWT_AUDIENCE"@,
        Setting::JwtPrivateKeyPath => "JWT_PRIVATE_KEY_PATH"@,
    }
}

pub open spec fn config_error_message(e: ConfigError) -> Seq<char> {
    match e {
        ConfigError::Missing(s) => "missing "@ + setting_name(s),
        ConfigError::InvalidUrl(s) => setting_name(s) + " must be a URL"@,
        ConfigError::InvalidBindAddr(s) => setting_name(s) + " must be a socket address"@,
        ConfigError::UnreadableSecretFile => "failed to read OIDC_CLIENT_SECRET_FILE"@,
        ConfigError::EmptySecretFile => "OIDC_CLIENT_SECRET_FILE points to an empty secret"@,
        ConfigError::ScopesWithoutOpenid => "OIDC_SCOPES must include openid"@,
        ConfigError::UnsupportedClientAuthMethod => "OIDC_CLIENT_AUTH_METHOD must be client_secret_basic or client_secret_post"@,
        ConfigError::UnreadableTlsRootCaFile => "failed to read OIDC_TLS_ROOT_CA_FILE"@,
        ConfigError::NoAudience => "JWT_AUDIENCE must specify at least one audience"@,
        ConfigError::InvalidSessionTtl => "SESSION_TTL_SECONDS must be a number of seconds"@,
        ConfigError::InvalidAllowAllUsers => "ALLOW_ALL_USERS must be true or false"@,
        ConfigError::ZeroSessionTtl => "SESSION_TTL_SECONDS must be greater than zero"@,
    }
}

fn setting_name_text(s: Setting) -> (result: String)
    ensures
        result@ == setting_name(s),
{
    match s {
        Setting::AdapterPublicUrl => "ADAPTER_PUBLIC_URL".to_owned(),
        Setting::GrpcBindAddr => "GRPC_BIND_ADDR".to_owned(),
        Setting::HttpBindAddr => "HTTP_BIND_ADDR".to_owned(),
        Setting::OidcIssuerUrl => "OIDC_ISSUER_URL".to_owned(),
        Setting::OidcClientId => "OIDC_CLIENT_ID".to_owned(),
        Setting::OidcClientSecret => "OIDC_CLIENT_SECRET or OIDC_CLIENT_SECRET_FILE".to_owned(),
        Setting::OidcRedirectUrl => "OIDC_REDIRECT_URL".to_owned(),
        Setting::JwtAudience => "JWT_AUDIENCE".to_owned(),
        Setting::JwtPrivateKeyPath => "JWT_PRIVATE_KEY_PATH".to_owned(),
    }
}

impl ConfigError {
    /// The human-readable text of this error.
    pub fn message(&self) -> (result: String)
        ensures
            result@ == config_error_message(*self),
    {
        match self {
            ConfigError::Missing(s) => {
                let mut m = "missing ".to_owned();
                m.append(setting_name_text(*s).as_str());
                m
            },
            ConfigError::InvalidUrl(s) => setting_name_text(*s).concat(" must be a URL"),
            ConfigError::InvalidBindAddr(s) => setting_name_text(*s).concat(" must be a socket address"),
            ConfigError::UnreadableSecretFile => "failed to read OIDC_CLIENT_SECRET_FILE".to_owned(),
            ConfigError::EmptySecretFile => "OIDC_CLIENT_SECRET_FILE points to an empty secret".to_owned(),
            ConfigError::ScopesWithoutOpenid => "OIDC_SCOPES must include openid".to_owned(),
            ConfigError::UnsupportedClientAuthMethod => "OIDC_CLIENT_AUTH_METHOD must be client_secret_basic or client_secret_post".to_owned(),
            ConfigError::UnreadableTlsRootCaFile => "failed to read OIDC_TLS_ROOT_CA_FILE".to_owned(),
            ConfigError::NoAudience => "JWT_AUDIENCE must specify at least one audience".to_owned(),
            ConfigError::InvalidSessionTtl => "SESSION_TTL_SECONDS must be a number of seconds".to_owned(),
            ConfigError::InvalidAllowAllUsers => "ALLOW_ALL_USERS must be true or false".to_owned(),
            ConfigError::ZeroSessionTtl => "SESSION_TTL_SECONDS must be greater than zero".to_owned(),
        }
    }
}

/// A configured optional value: trimmed, and absent when blank.
pub open spec fn spec_optional_setting(raw: Option<Seq<char>>) -> Option<Seq<char>> {
    match raw {
        None => None,
        Some(v) => if trim(v).len() == 0 {
            None
        } else {
            Some(trim(v))
        },
    }
}

/// A configured optional value, or `default` when it is absent or blank.
pub open spec fn setting_or(raw: Option<Seq<char>>, default: Seq<char>) -> Seq<char> {
    match spec_optional_setting(raw) {
        Some(v) => v,
        None => default,
    }
}

/// A raw variable, or `default` when it is not set.
pub open spec fn raw_or(raw: Option<Seq<char>>, default: Seq<char>) -> Seq<char> {
    match raw {
        Some(v) => v,
        None => default,
    }
}

/// The value of an optional setting: trimmed, absent when unset or blank.
pub fn optional_setting(raw: &Option<String>) -> (result: Option<String>)
    ensures
        option_view(result) == spec_optional_setting(option_view(*raw)),
{
    match raw {
        None => None,
        Some(v) => {
            let t = trim_str(v.as_str());
            if t.as_str().is_empty() {
                None
            } else {
                Some(t)
            }
        },
    }
}

fn setting_or_default(raw: &Option<String>, default: &str) -> (result: String)
    ensures
        result@ == setting_or(option_view(*raw), default@),
{
    match optional_setting(raw) {
        Some(v) => v,
        None => default.to_owned(),
    }
}

/// The scopes of a white-space or comma separated list, which must include `openid`.
pub open spec fn spec_parse_scopes(value: Seq<char>) -> Result<Seq<Seq<char>>, ConfigError> {
    if list_items(value).contains("openid"@) {
        Ok(list_items(value))
    } else {
        Err(ConfigError::ScopesWithoutOpenid)
    }
}

pub open spec fn strings_result(r: Result<Vec<String>, ConfigError>) -> Result<Seq<Seq<char>>, ConfigError> {
    match r {
        Ok(v) => Ok(strings_view(v@)),
        Err(e) => Err(e),
    }
}

/// Splits the configured OIDC scopes; `openid` is required.
pub fn parse_scopes(value: &str) -> (result: Result<Vec<String>, ConfigError>)
    ensures
        strings_result(result) == spec_parse_scopes(value@),
{
    let scopes = split_list(value);
    let mut i: usize = 0;
    while i < scopes.len()
        invariant
            i <= scopes.len(),
            strings_view(scopes@) == list_items(value@),
            forall|j: int| 0 <= j < i ==> (#[trigger] scopes@[j])@ != "openid"@,
        decreases scopes.len() - i,
    {
        if str_eq(scopes[i].as_str(), "openid") {
            proof {
                assert(strings_view(scopes@)[i as int] == "openid"@);
                assert(list_items(value@).contains("openid"@));
            }
            return Ok(scopes);
        }
        i = i + 1;
    }
    proof {
        if list_items(value@).contains("openid"@) {
            let j = choose|j: int| 0 <= j < list_items(value@).len() && list_items(value@)[j] == "openid"@;
            assert(scopes@[j]@ == "openid"@);
        }
    }
    Err(ConfigError::ScopesWithoutOpenid)
}

/// The audiences of a white-space or comma separated list; at least one is required.
pub open spec fn spec_parse_audiences(value: Seq<char>) -> Result<Seq<Seq<char>>, ConfigError> {
    if list_items(value).len() == 0 {
        Err(ConfigError::NoAudience)
    } else {
        Ok(list_items(value))
    }
}

/// Splits the configured JWT audiences: a Lore server may be reachable under
/// several host names, and a token is valid for any of them.
pub fn parse_audiences(value: &str) -> (result: Result<Vec<String>, ConfigError>)
    ensures
        strings_result(result) == spec_parse_audiences(value@),
{
    let audiences = split_list(value);
    if audiences.len() == 0 {
        Err(ConfigError::NoAudience)
    } else {
        Ok(audiences)
    }
}

/// A secret read from a file: trimmed, and refused when blank.
pub open spec fn spec_secret_from_file(contents: Seq<char>) -> Result<Seq<char>, ConfigError> {
    if trim(contents).len() == 0 {
        Err(ConfigError::EmptySecretFile)
    } else {
        Ok(trim(contents))
    }
}

pub open spec fn string_result(r: Result<String, ConfigError>) -> Result<Seq<char>, ConfigError> {
    match r {
        Ok(v) => Ok(v@),
        Err(e) => Err(e),
    }
}

/// The secret held by a secret file's contents.
pub fn secret_from_file_contents(contents: &str) -> (result: Result<String, ConfigError>)
    ensures
        string_result(result) == spec_secret_from_file(contents@),
{
    let value = trim_str(contents);
    if value.as_str().is_empty() {
        Err(ConfigError::EmptySecretFile)
    } else {
        Ok(value)
    }
}

pub open spec fn is_ascii_digit(c: char) -> bool {
    '0' <= c <= '9'
}

/// The number written by a sequence of decimal digits.
pub open spec fn decimal_value(digits: Seq<char>) -> nat
    decreases digits.len(),
{
    if digits.len() == 0 {
        0
    } else {
        decimal_value(digits.drop_last()) * 10 + ((digits.last() as u32) - ('0' as u32)) as nat
    }
}

/// `u64::from_str`: an optional `+`, then one or more decimal digits, whose
/// value fits in a `u64`.
pub open spec fn spec_parse_u64(s: Seq<char>) -> Option<u64> {
    if unsigned_digits(s).len() > 0 && all_digits(unsigned_digits(s)) && decimal_value(unsigned_digits(s))
        <= u64::MAX {
        Some(decimal_value(unsigned_digits(s)) as u64)
    } else {
        None
    }
}

/// `s` without one leading `+`.
pub open spec fn unsigned_digits(s: Seq<char>) -> Seq<char> {
    if s.len() > 0 && s[0] == '+' {
        s.drop_first()
    } else {
        s
    }
}

pub open spec fn all_digits(s: Seq<char>) -> bool {
    forall|i: int| 0 <= i < s.len() ==> is_ascii_digit(#[trigger] s[i])
}

proof fn lemma_decimal_value_grows(digits: Seq<char>, i: int, j: int)
    requires
        0 <= i <= j <= digits.len(),
        all_digits(digits),
    ensures
        decimal_value(digits.take(i)) <= decimal_value(digits.take(j)),
    decreases j - i,
{
    if i < j {
        lemma_decimal_value_grows(digits, i, j - 1);
        assert(digits.take(j).drop_last() =~= digits.take(j - 1));
    }
}

/// Parses a decimal `u64` as `u64::from_str` does.
pub fn parse_u64(s: &str) -> (result: Option<u64>)
    ensures
        result == spec_parse_u64(s@),
{
    let v = chars_of(s);
    let ghost digits = unsigned_digits(s@);
    let start: usize = if v.len() > 0 && v[0] == '+' {
        1
    } else {
        0
    };
    assert(digits =~= v@.subrange(start as int, v@.len() as int));
    if start == v.len() {
        return None;
    }
    let mut i: usize = start;
    let mut value: u64 = 0;
    while i < v.len()
        invariant
            start <= i <= v.len(),
            v@ == s@,
            start == 1 <==> (s@.len() > 0 && s@[0] == '+'),
            start <= 1,
            digits == unsigned_digits(s@),
            digits.len() > 0,
            digits =~= v@.subrange(start as int, v@.len() as int),
            forall|k: int| start <= k < i ==> is_ascii_digit(#[trigger] v@[k]),
            value == decimal_value(digits.take(i - start)),
        decreases v.len() - i,
    {
        let c = v[i];
        if !('0' <= c && c <= '9') {
            proof {
                assert(digits[i - start] == c);
                assert(!is_ascii_digit(digits[i - start]));
                assert(!all_digits(digits));
            }
            return None;
        }
        let d = (c as u32 - '0' as u32) as u64;
        proof {
            assert(digits.take(i + 1 - start).drop_last() =~= digits.take(i - start));
            assert(digits.take(i + 1 - start).last() == c);
        }
        if value > (u64::MAX - d) / 10 {
            proof {
                assert(decimal_value(digits.take(i + 1 - start)) > u64::MAX) by (nonlinear_arith)
                    requires
                        decimal_value(digits.take(i + 1 - start)) == value * 10 + d,
                        value > (u64::MAX - d) / 10,
                        d <= 9,
                ;
                if all_digits(digits) {
                    lemma_decimal_value_grows(digits, i + 1 - start, digits.len() as int);
                    assert(digits.take(digits.len() as int) =~= digits);
                    assert(decimal_value(digits) > u64::MAX);
                }
            }
            return None;
        }
        proof {
            assert(value * 10 + d <= u64::MAX) by (nonlinear_arith)
                requires
                    value <= (u64::MAX - d) / 10,
                    d <= 9,
            ;
        }
        value = value * 10 + d;
        i = i + 1;
    }
    assert(digits.take(digits.len() as int) =~= digits);
    Some(value)
}

/// `bool::from_str`: exactly `true` or `false`.
pub open spec fn spec_parse_bool(s: Seq<char>) -> Option<bool> {
    if s == "true"@ {
        Some(true)
    } else if s == "false"@ {
        Some(false)
    } else {
        None
    }
}

/// Parses a boolean as `bool::from_str` does.
pub fn parse_bool(s: &str) -> (result: Option<bool>)
    ensures
        result == spec_parse_bool(s@),
{
    if str_eq(s, "true") {
        Some(true)
    } else if str_eq(s, "false") {
        Some(false)
    } else {
        None
    }
}

/// The adapter's environment as the process sees it: each variable's value
/// when it is set and valid Unicode.
#[derive(Clone, Debug, Default)]
pub struct EnvVars {
    pub adapter_public_url: Option<String>,
    pub grpc_bind_addr: Option<String>,
    pub http_bind_addr: Option<String>,
    pub oidc_issuer_url: Option<String>,
    pub oidc_client_id: Option<String>,
    pub oidc_client_secret: Option<String>,
    pub oidc_client_secret_file: Option<String>,
    pub oidc_redirect_url: Option<String>,
    pub oidc_scopes: Option<String>,
    pub oidc_display_name_claim: Option<String>,
    pub oidc_username_claim: Option<String>,
    pub oidc_provider_name: Option<String>,
    pub oidc_client_auth_method: Option<String>,
    pub oidc_tls_root_ca_file: Option<String>,
    pub jwt_issuer: Option<String>,
    pub jwt_audience: Option<String>,
    pub jwt_private_key_path: Option<String>,
    pub jwt_key_id: Option<String>,
    pub session_ttl_seconds: Option<String>,
    pub allow_all_users: Option<String>,
    pub lore_env: Option<String>,
}

pub struct EnvVarsView {
    pub adapter_public_url: Option<Seq<char>>,
    pub grpc_bind_addr: Option<Seq<char>>,
    pub http_bind_addr: Option<Seq<char>>,
    pub oidc_issuer_url: Option<Seq<char>>,
    pub oidc_client_id: Option<Seq<char>>,
    pub oidc_client_secret: Option<Seq<char>>,
    pub oidc_client_secret_file: Option<Seq<char>>,
    pub oidc_redirect_url: Option<Seq<char>>,
    pub oidc_scopes: Option<Seq<char>>,
    pub oidc_display_name_claim: Option<Seq<char>>,
    pub oidc_username_claim: Option<Seq<char>>,
    pub oidc_provider_name: Option<Seq<char>>,
    pub oidc_client_auth_method: Option<Seq<char>>,
    pub oidc_tls_root_ca_file: Option<Seq<char>>,
    pub jwt_issuer: Option<Seq<char>>,
    pub jwt_audience: Option<Seq<char>>,
    pub jwt_private_key_path: Option<Seq<char>>,
    pub jwt_key_id: Option<Seq<char>>,
    pub session_ttl_seconds: Option<Seq<char>>,
    pub allow_all_users: Option<Seq<char>>,
    pub lore_env: Option<Seq<char>>,
}

impl View for EnvVars {
    type V = EnvVarsView;

    open spec fn view(&self) -> EnvVarsView {
        EnvVarsView {
            adapter_public_url: option_view(self.adapter_public_url),
            grpc_bind_addr: option_view(self.grpc_bind_addr),
            http_bind_addr: option_view(self.http_bind_addr),
            oidc_issuer_url: option_view(self.oidc_issuer_url),
            oidc_client_id: option_view(self.oidc_client_id),
            oidc_client_secret: option_view(self.oidc_client_secret),
            oidc_client_secret_file: option_view(self.oidc_client_secret_file),
            oidc_redirect_url: option_view(self.oidc_redirect_url),
            oidc_scopes: option_view(self.oidc_scopes),
            oidc_display_name_claim: option_view(self.oidc_display_name_claim),
            oidc_username_claim: option_view(self.oidc_username_claim),
            oidc_provider_name: option_view(self.oidc_provider_name),
            oidc_client_auth_method: option_view(self.oidc_client_auth_method),
            oidc_tls_root_ca_file: option_view(self.oidc_tls_root_ca_file),
            jwt_issuer: option_view(self.jwt_issuer),
            jwt_audience: option_view(self.jwt_audience),
            jwt_private_key_path: option_view(self.jwt_private_key_path),
            jwt_key_id: option_view(self.jwt_key_id),
            session_ttl_seconds: option_view(self.session_ttl_seconds),
            allow_all_users: option_view(self.allow_all_users),
            lore_env: option_view(self.lore_env),
        }
    }
}

/// What the host found for the settings that name files or socket addresses:
/// whether each bind address parses, and the contents of each configured file
/// that could be read.
#[derive(Clone, Debug, Default)]
pub struct HostFacts {
    pub grpc_bind_addr_valid: bool,
    pub http_bind_addr_valid: bool,
    pub client_secret_file: Option<String>,
    pub tls_root_ca_file: Option<Vec<u8>>,
}

pub struct HostFactsView {
    pub grpc_bind_addr_valid: bool,
    pub http_bind_addr_valid: bool,
    pub client_secret_file: Option<Seq<char>>,
    pub tls_root_ca_file: Option<Seq<u8>>,
}

impl View for HostFacts {
    type V = HostFactsView;

    open spec fn view(&self) -> HostFactsView {
        HostFactsView {
            grpc_bind_addr_valid: self.grpc_bind_addr_valid,
            http_bind_addr_valid: self.http_bind_addr_valid,
            client_secret_file: option_view(self.client_secret_file),
            tls_root_ca_file: match self.tls_root_ca_file {
                Some(b) => Some(b@),
                None => None,
            },
        }
    }
}

/// The adapter's resolved configuration.
#[derive(Clone, Debug)]
pub struct Config {
    pub adapter_public_url: String,
    pub grpc_bind_addr: String,
    pub http_bind_addr: String,
    pub oidc_issuer_url: String,
    pub oidc_client_id: String,
    pub oidc_client_secret: String,
    pub oidc_redirect_url: String,
    pub oidc_scopes: Vec<String>,
    pub oidc_display_name_claim: Option<String>,
    pub oidc_username_claim: Option<String>,
    pub oidc_provider_name: String,
    pub oidc_client_auth_method: ClientAuthMethod,
    pub oidc_tls_root_ca: Option<Vec<u8>>,
    pub jwt_issuer: String,
    pub jwt_audience: Vec<String>,
    pub jwt_private_key_path: String,
    pub jwt_key_id: Option<String>,
    pub session_ttl_seconds: u64,
    pub allow_all_users: bool,
    pub lore_env: String,
}

pub struct ConfigView {
    pub adapter_public_url: Seq<char>,
    pub grpc_bind_addr: Seq<char>,
    pub http_bind_addr: Seq<char>,
    pub oidc_issuer_url: Seq<char>,
    pub oidc_client_id: Seq<char>,
    pub oidc_client_secret: Seq<char>,
    pub oidc_redirect_url: Seq<char>,
    pub oidc_scopes: Seq<Seq<char>>,
    pub oidc_display_name_claim: Option<Seq<char>>,
    pub oidc_username_claim: Option<Seq<char>>,
    pub oidc_provider_name: Seq<char>,
    pub oidc_client_auth_method: ClientAuthMethod,
    pub oidc_tls_root_ca: Option<Seq<u8>>,
    pub jwt_issuer: Seq<char>,
    pub jwt_audience: Seq<Seq<char>>,
    pub jwt_private_key_path: Seq<char>,
    pub jwt_key_id: Option<Seq<char>>,
    pub session_ttl_seconds: u64,
    pub allow_all_users: bool,
    pub lore_env: Seq<char>,
}

impl View for Config {
    type V = ConfigView;

    open spec fn view(&self) -> ConfigView {
        ConfigView {
            adapter_public_url: self.adapter_public_url@,
            grpc_bind_addr: self.grpc_bind_addr@,
            http_bind_addr: self.http_bind_addr@,
            oidc_issuer_url: self.oidc_issuer_url@,
            oidc_client_id: self.oidc_client_id@,
            oidc_client_secret: self.oidc_client_secret@,
            oidc_redirect_url: self.oidc_redirect_url@,
            oidc_scopes: strings_view(self.oidc_scopes@),
            oidc_display_name_claim: option_view(self.oidc_display_name_claim),
            oidc_username_claim: option_view(self.oidc_username_claim),
            oidc_provider_name: self.oidc_provider_name@,
            oidc_client_auth_method: self.oidc_client_auth_method,
            oidc_tls_root_ca: match self.oidc_tls_root_ca {
                Some(b) => Some(b@),
                None => None,
            },
            jwt_issuer: self.jwt_issuer@,
            jwt_audience: strings_view(self.jwt_audience@),
            jwt_private_key_path: self.jwt_private_key_path@,
            jwt_key_id: option_view(self.jwt_key_id),
            session_ttl_seconds: self.session_ttl_seconds,
            allow_all_users: self.allow_all_users,
            lore_env: self.lore_env@,
        }
    }
}

/// The OIDC client secret: from the secret file when one is configured,
/// otherwise from the variable itself, as set.
pub open spec fn spec_client_secret(vars: EnvVarsView, host: HostFactsView) -> Result<Seq<char>, ConfigError> {
    match spec_optional_setting(vars.oidc_client_secret_file) {
        Some(_) => match host.client_secret_file {
            None => Err(ConfigError::UnreadableSecretFile),
            Some(contents) => spec_secret_from_file(contents),
        },
        None => match vars.oidc_client_secret {
            None => Err(ConfigError::Missing(Setting::OidcClientSecret)),
            Some(secret) => Ok(secret),
        },
    }
}

/// The extra root certificates: none unless a CA file is configured, in which
/// case it must have been read.
pub open spec fn spec_tls_root_ca(vars: EnvVarsView, host: HostFactsView) -> Result<Option<Seq<u8>>, ConfigError> {
    match spec_optional_setting(vars.oidc_tls_root_ca_file) {
        None => Ok(None),
        Some(_) => match host.tls_root_ca_file {
            None => Err(ConfigError::UnreadableTlsRootCaFile),
            Some(bytes) => Ok(Some(bytes)),
        },
    }
}

/// The public origin: the adapter URL's serialization without trailing slashes.
pub open spec fn public_origin(serialized: Seq<char>) -> Seq<char> {
    trim_end_char(serialized, '/')
}

/// The configuration resolved from the environment: each check in turn, the
/// first failing one deciding the error; then every value with its default.
pub open spec fn spec_config(vars: EnvVarsView, host: HostFactsView) -> Result<ConfigView, ConfigError> {
    match vars.adapter_public_url {
        None => Err(ConfigError::Missing(Setting::AdapterPublicUrl)),
        Some(raw_url) => match url_serialization(raw_url) {
            None => Err(ConfigError::InvalidUrl(Setting::AdapterPublicUrl)),
            Some(serialized) => {
                let origin = public_origin(serialized);
                if !host.grpc_bind_addr_valid {
                    Err(ConfigError::InvalidBindAddr(Setting::GrpcBindAddr))
                } else if !host.http_bind_addr_valid {
                    Err(ConfigError::InvalidBindAddr(Setting::HttpBindAddr))
                } else {
                    match vars.oidc_issuer_url {
                        None => Err(ConfigError::Missing(Setting::OidcIssuerUrl)),
                        Some(issuer) => if url_serialization(issuer) is None {
                            Err(ConfigError::InvalidUrl(Setting::OidcIssuerUrl))
                        } else {
                            match vars.oidc_client_id {
                                None => Err(ConfigError::Missing(Setting::OidcClientId)),
                                Some(client_id) => match spec_client_secret(vars, host) {
                                    Err(e) => Err(e),
                                    Ok(secret) => {
                                        let redirect = setting_or(vars.oidc_redirect_url, origin + "/callback"@);
                                        if url_serialization(redirect) is None {
                                            Err(ConfigError::InvalidUrl(Setting::OidcRedirectUrl))
                                        } else {
                                            spec_config_rest(vars, host, serialized, origin, issuer, client_id, secret, redirect)
                                        }
                                    },
                                },
                            }
                        },
                    }
                }
            },
        },
    }
}

/// The checks and values after the OIDC client settings.
pub open spec fn spec_config_rest(
    vars: EnvVarsView,
    host: HostFactsView,
    serialized: Seq<char>,
    origin: Seq<char>,
    issuer: Seq<char>,
    client_id: Seq<char>,
    secret: Seq<char>,
    redirect: Seq<char>,
) -> Result<ConfigView, ConfigError> {
    match spec_parse_scopes(raw_or(vars.oidc_scopes, "openid profile email"@)) {
        Err(e) => Err(e),
        Ok(scopes) => match spec_parse_client_auth_method(raw_or(vars.oidc_client_auth_method, "client_secret_basic"@)) {
            Err(_) => Err(ConfigError::UnsupportedClientAuthMethod),
            Ok(method) => match spec_tls_root_ca(vars, host) {
                Err(e) => Err(e),
                Ok(ca) => match vars.jwt_audience {
                    None => Err(ConfigError::Missing(Setting::JwtAudience)),
                    Some(audience_raw) => match spec_parse_audiences(audience_raw) {
                        Err(e) => Err(e),
                        Ok(audience) => match vars.jwt_private_key_path {
                            None => Err(ConfigError::Missing(Setting::JwtPrivateKeyPath)),
                            Some(key_path) => match spec_parse_u64(setting_or(vars.session_ttl_seconds, "600"@)) {
                                None => Err(ConfigError::InvalidSessionTtl),
                                Some(ttl) => match spec_parse_bool(setting_or(vars.allow_all_users, "false"@)) {
                                    None => Err(ConfigError::InvalidAllowAllUsers),
                                    Some(allow_all) => if ttl == 0 {
                                        Err(ConfigError::ZeroSessionTtl)
                                    } else {
                                        Ok(
                                            ConfigView {
                                                adapter_public_url: serialized,
                                                grpc_bind_addr: setting_or(vars.grpc_bind_addr, "0.0.0.0:50051"@),
                                                http_bind_addr: setting_or(vars.http_bind_addr, "0.0.0.0:8080"@),
                                                oidc_issuer_url: issuer,
                                                oidc_client_id: client_id,
                                                oidc_client_secret: secret,
                                                oidc_redirect_url: redirect,
                                                oidc_scopes: scopes,
                                                oidc_display_name_claim: spec_optional_setting(vars.oidc_display_name_claim),
                                                oidc_username_claim: spec_optional_setting(vars.oidc_username_claim),
                                                oidc_provider_name: setting_or(vars.oidc_provider_name, issuer),
                                                oidc_client_auth_method: method,
                                                oidc_tls_root_ca: ca,
                                                jwt_issuer: setting_or(vars.jwt_issuer, origin),
                                                jwt_audience: audience,
                                                jwt_private_key_path: key_path,
                                                jwt_key_id: spec_optional_setting(vars.jwt_key_id),
                                                session_ttl_seconds: ttl,
                                                allow_all_users: allow_all,
                                                lore_env: setting_or(vars.lore_env, "production"@),
                                            },
                                        )
                                    },
                                },
                            },
                        },
                    },
                },
            },
        },
    }
}

pub open spec fn config_result(r: Result<Config, ConfigError>) -> Result<ConfigView, ConfigError> {
    match r {
        Ok(c) => Ok(c@),
        Err(e) => Err(e),
    }
}

fn clone_option(o: &Option<String>) -> (result: Option<String>)
    ensures
        option_view(result) == option_view(*o),
{
    match o {
        Some(s) => Some(s.clone()),
        None => None,
    }
}

fn clone_bytes(v: &Vec<u8>) -> (result: Vec<u8>)
    ensures
        result@ == v@,
{
    let mut result: Vec<u8> = Vec::new();
    let mut i: usize = 0;
    while i < v.len()
        invariant
            i <= v.len(),
            result@ == v@.take(i as int),
        decreases v.len() - i,
    {
        result.push(v[i]);
        assert(result@ =~= v@.take(i + 1));
        i = i + 1;
    }
    assert(v@.take(v.len() as int) =~= v@);
    result
}

impl Config {
    /// The gRPC listener address text the host must parse.
    pub fn grpc_bind_addr_setting(vars: &EnvVars) -> (result: String)
        ensures
            result@ == setting_or(vars@.grpc_bind_addr, "0.0.0.0:50051"@),
    {
        setting_or_default(&vars.grpc_bind_addr, "0.0.0.0:50051")
    }

    /// The HTTP listener address text the host must parse.
    pub fn http_bind_addr_setting(vars: &EnvVars) -> (result: String)
        ensures
            result@ == setting_or(vars@.http_bind_addr, "0.0.0.0:8080"@),
    {
        setting_or_default(&vars.http_bind_addr, "0.0.0.0:8080")
    }

    /// The path of the client secret file the host must read, if one is configured.
    pub fn client_secret_file_setting(vars: &EnvVars) -> (result: Option<String>)
        ensures
            option_view(result) == spec_optional_setting(vars@.oidc_client_secret_file),
    {
        optional_setting(&vars.oidc_client_secret_file)
    }

    /// The path of the root CA file the host must read, if one is configured.
    pub fn tls_root_ca_file_setting(vars: &EnvVars) -> (result: Option<String>)
        ensures
            option_view(result) == spec_optional_setting(vars@.oidc_tls_root_ca_file),
    {
        optional_setting(&vars.oidc_tls_root_ca_file)
    }

    fn client_secret(vars: &EnvVars, host: &HostFacts) -> (result: Result<String, ConfigError>)
        ensures
            string_result(result) == spec_client_secret(vars@, host@),
    {
        match optional_setting(&vars.oidc_client_secret_file) {
            Some(_) => match &host.client_secret_file {
                None => Err(ConfigError::UnreadableSecretFile),
                Some(contents) => secret_from_file_contents(contents.as_str()),
            },
            None => match &vars.oidc_client_secret {
                None => Err(ConfigError::Missing(Setting::OidcClientSecret)),
                Some(secret) => Ok(secret.clone()),
            },
        }
    }

    fn tls_root_ca(vars: &EnvVars, host: &HostFacts) -> (result: Result<Option<Vec<u8>>, ConfigError>)
        ensures
            match result {
                Ok(Some(b)) => spec_tls_root_ca(vars@, host@) == Ok::<Option<Seq<u8>>, ConfigError>(Some(b@)),
                Ok(None) => spec_tls_root_ca(vars@, host@) == Ok::<Option<Seq<u8>>, ConfigError>(None),
                Err(e) => spec_tls_root_ca(vars@, host@) == Err::<Option<Seq<u8>>, ConfigError>(e),
            },
    {
        match optional_setting(&vars.oidc_tls_root_ca_file) {
            None => Ok(None),
            Some(_) => match &host.tls_root_ca_file {
                None => Err(ConfigError::UnreadableTlsRootCaFile),
                Some(bytes) => Ok(Some(clone_bytes(bytes))),
            },
        }
    }

    /// Resolves the adapter's configuration from its environment and what the
    /// host found for the settings that name files and socket addresses.
    pub fn from_env(vars: &EnvVars, host: &HostFacts) -> (result: Result<Config, ConfigError>)
        ensures
            config_result(result) == spec_config(vars@, host@),
    {
        let raw_url = match &vars.adapter_public_url {
            None => return Err(ConfigError::Missing(Setting::AdapterPublicUrl)),
            Some(u) => u,
        };
        let serialized = match parse_url(raw_url.as_str()) {
            Err(_) => return Err(ConfigError::InvalidUrl(Setting::AdapterPublicUrl)),
            Ok(s) => s,
        };
        let origin = trim_end_matches_char(serialized.as_str(), '/');
        if !host.grpc_bind_addr_valid {
            return Err(ConfigError::InvalidBindAddr(Setting::GrpcBindAddr));
        }
        if !host.http_bind_addr_valid {
            return Err(ConfigError::InvalidBindAddr(Setting::HttpBindAddr));
        }
        let issuer = match &vars.oidc_issuer_url {
            None => return Err(ConfigError::Missing(Setting::OidcIssuerUrl)),
            Some(i) => i,
        };
        if parse_url(issuer.as_str()).is_err() {
            return Err(ConfigError::InvalidUrl(Setting::OidcIssuerUrl));
        }
        let client_id = match &vars.oidc_client_id {
            None => return Err(ConfigError::Missing(Setting::OidcClientId)),
            Some(c) => c,
        };
        let secret = match Self::client_secret(vars, host) {
            Err(e) => return Err(e),
            Ok(s) => s,
        };
        let redirect = match optional_setting(&vars.oidc_redirect_url) {
            Some(r) => r,
            None => origin.clone().concat("/callback"),
        };
        if parse_url(redirect.as_str()).is_err() {
            return Err(ConfigError::InvalidUrl(Setting::OidcRedirectUrl));
        }
        let scopes_text = match &vars.oidc_scopes {
            Some(s) => s.clone(),
            None => "openid profile email".to_owned(),
        };
        let scopes = match parse_scopes(scopes_text.as_str()) {
            Err(e) => return Err(e),
            Ok(s) => s,
        };
        let method_text = match &vars.oidc_client_auth_method {
            Some(m) => m.clone(),
            None => "client_secret_basic".to_owned(),
        };
        let method = match ClientAuthMethod::parse(method_text.as_str()) {
            Err(_) => return Err(ConfigError::UnsupportedClientAuthMethod),
            Ok(m) => m,
        };
        let ca = match Self::tls_root_ca(vars, host) {
            Err(e) => return Err(e),
            Ok(c) => c,
        };
        let audience_raw = match &vars.jwt_audience {
            None => return Err(ConfigError::Missing(Setting::JwtAudience)),
            Some(a) => a,
        };
        let audience = match parse_audiences(audience_raw.as_str()) {
            Err(e) => return Err(e),
            Ok(a) => a,
        };
        let key_path = match &vars.jwt_private_key_path {
            None => return Err(ConfigError::Missing(Setting::JwtPrivateKeyPath)),
            Some(p) => p.clone(),
        };
        let ttl_text = setting_or_default(&vars.session_ttl_seconds, "600");
        let ttl = match parse_u64(ttl_text.as_str()) {
            None => return Err(ConfigError::InvalidSessionTtl),
            Some(t) => t,
        };
        let allow_text = setting_or_default(&vars.allow_all_users, "false");
        let allow_all = match parse_bool(allow_text.as_str()) {
            None => return Err(ConfigError::InvalidAllowAllUsers),
            Some(b) => b,
        };
        if ttl == 0 {
            return Err(ConfigError::ZeroSessionTtl);
        }
        let provider_name = match optional_setting(&vars.oidc_provider_name) {
            Some(p) => p,
            None => issuer.clone(),
        };
        let jwt_issuer = match optional_setting(&vars.jwt_issuer) {
            Some(i) => i,
            None => origin,
        };
        Ok(
            Config {
                adapter_public_url: serialized,
                grpc_bind_addr: Self::grpc_bind_addr_setting(vars),
                http_bind_addr: Self::http_bind_addr_setting(vars),
                oidc_issuer_url: issuer.clone(),
                oidc_client_id: client_id.clone(),
                oidc_client_secret: secret,
                oidc_redirect_url: redirect,
                oidc_scopes: scopes,
                oidc_display_name_claim: optional_setting(&vars.oidc_display_name_claim),
                oidc_username_claim: optional_setting(&vars.oidc_username_claim),
                oidc_provider_name: provider_name,
                oidc_client_auth_method: method,
                oidc_tls_root_ca: ca,
                jwt_issuer,
                jwt_audience: audience,
                jwt_private_key_path: key_path,
                jwt_key_id: optional_setting(&vars.jwt_key_id),
                session_ttl_seconds: ttl,
                allow_all_users: allow_all,
                lore_env: setting_or_default(&vars.lore_env, "production"),
            },
        )
    }
}

/// Every configuration that resolves asks the provider for `openid`, names at
/// least one audience, and gives sessions a positive lifetime.
pub proof fn law_resolved_config_is_usable(vars: EnvVarsView, host: HostFactsView)
    requires
        spec_config(vars, host) is Ok,
    ensures
        spec_config(vars, host)->Ok_0.oidc_scopes.contains("openid"@),
        spec_config(vars, host)->Ok_0.jwt_audience.len() > 0,
        spec_config(vars, host)->Ok_0.session_ttl_seconds > 0,
{
}

/// A configuration resolves only when the required settings are given: the
/// public URL, the issuer, the client ID, a client secret or secret file, the
/// audience and the signing key path.
pub proof fn law_required_settings_are_present(vars: EnvVarsView, host: HostFactsView)
    requires
        spec_config(vars, host) is Ok,
    ensures
        vars.adapter_public_url is Some,
        vars.oidc_issuer_url is Some,
        vars.oidc_client_id is Some,
        vars.oidc_client_secret is Some || spec_optional_setting(vars.oidc_client_secret_file) is Some,
        vars.jwt_audience is Some,
        vars.jwt_private_key_path is Some,
{
}

/// The issuer URL is kept exactly as configured, since issuers are compared as
/// strings; the client ID is kept as configured too.
pub proof fn law_issuer_is_kept_verbatim(vars: EnvVarsView, host: HostFactsView)
    requires
        spec_config(vars, host) is Ok,
    ensures
        spec_config(vars, host)->Ok_0.oidc_issuer_url == vars.oidc_issuer_url->Some_0,
        spec_config(vars, host)->Ok_0.oidc_client_id == vars.oidc_client_id->Some_0,
{
}

/// Without a configured redirect URL, the provider sends the browser back to
/// the public origin (the public URL without trailing slashes) followed by
/// `/callback`, whatever the JWT issuer is; a configured one is used trimmed.
/// Without a configured JWT issuer, the issuer is that public origin.
pub proof fn law_redirect_follows_the_public_url(vars: EnvVarsView, host: HostFactsView)
    requires
        spec_config(vars, host) is Ok,
    ensures
        ({
            let c = spec_config(vars, host)->Ok_0;
            &&& spec_optional_setting(vars.oidc_redirect_url) is None ==> c.oidc_redirect_url == trim_end_char(
                c.adapter_public_url,
                '/',
            ) + "/callback"@
            &&& spec_optional_setting(vars.oidc_redirect_url) matches Some(r) ==> c.oidc_redirect_url == r
            &&& spec_optional_setting(vars.jwt_issuer) is None ==> c.jwt_issuer == trim_end_char(c.adapter_public_url, '/')
            &&& spec_optional_setting(vars.jwt_issuer) matches Some(i) ==> c.jwt_issuer == i
            &&& c.adapter_public_url == url_serialization(vars.adapter_public_url->Some_0)->Some_0
        }),
{
}

} // verus!
