//! Records exchanged with the identity provider and the sign-in flow.
use crate::names::string_views;
use crate::text::str_eq;
use vstd::prelude::*;

verus! {

/// Native sign-in credentials.
#[derive(Debug, Clone)]
pub struct SignInUser {
    pub name: String,
    pub password: String,
}

/// The answer to a sign-in.
#[derive(Debug, Clone)]
pub struct SignInResponse {
    pub status: bool,
    pub message: String,
}

/// What a login starts from: its state and the provider's authorization URL.
#[derive(Debug, Clone)]
pub struct PreLoginData {
    pub state: String,
    pub auth_url: String,
}

/// Tokens issued by the provider.
#[derive(Debug, Clone)]
pub struct AuthTokens {
    pub access_token: String,
    pub refresh_token: Option<String>,
    pub id_token: Option<String>,
    pub token_type: String,
    pub expires_in: i64,
}

/// The outcome of validating a token.
#[derive(Debug, Clone)]
pub struct TokenValidationResponse {
    pub is_valid: bool,
    pub user_email: String,
    pub user_name: String,
    pub family_name: String,
    pub given_name: String,
    pub is_internal_user: bool,
    pub user_role: Option<String>,
}

/// A request to refresh tokens.
#[derive(Debug, Clone)]
pub struct RefreshTokenRequest {
    pub refresh_token: String,
}

/// A configured sign-on provider.
#[derive(Debug, Clone)]
pub struct SsoProvider {
    pub id: String,
    pub provider_type: String,
    pub name: String,
    pub enabled: bool,
}

/// A request to add an OIDC connector.
#[derive(Debug, Clone)]
pub struct CreateOidcConnectorRequest {
    pub id: String,
    pub name: String,
    pub issuer: String,
    pub client_id: String,
    pub client_secret: String,
    pub scopes: Vec<String>,
    pub redirect_uri: Option<String>,
    pub insecure_skip_verify: bool,
    pub groups_claim: Option<String>,
    pub email_claim: Option<String>,
}

/// A request to add an LDAP connector.
#[derive(Debug, Clone)]
pub struct CreateLdapConnectorRequest {
    pub id: String,
    pub name: String,
    pub host: String,
    pub port: u16,
    pub use_ssl: bool,
    pub start_tls: bool,
    pub insecure_skip_verify: bool,
    pub bind_dn: String,
    pub bind_password: String,
    pub user_search_base_dn: String,
    pub user_search_filter: Option<String>,
    pub user_search_username: Option<String>,
    pub user_search_id_attr: Option<String>,
    pub user_search_email_attr: Option<String>,
    pub user_search_name_attr: Option<String>,
    pub group_search_base_dn: Option<String>,
    pub group_search_filter: Option<String>,
}

/// A request to add a SAML connector.
#[derive(Debug, Clone)]
pub struct CreateSamlConnectorRequest {
    pub id: String,
    pub name: String,
    pub sso_url: String,
    pub entity_issuer: Option<String>,
    pub sso_issuer: Option<String>,
    pub ca: Option<String>,
    pub redirect_uri: Option<String>,
    pub name_attr: Option<String>,
    pub email_attr: Option<String>,
    pub groups_attr: Option<String>,
}

/// The claims of the provider's user-info endpoint.
#[derive(Debug, Clone)]
pub struct UserInfo {
    pub sub: String,
    pub email: Option<String>,
    pub email_verified: Option<bool>,
    pub name: Option<String>,
    pub given_name: Option<String>,
    pub family_name: Option<String>,
    pub preferred_username: Option<String>,
    pub picture: Option<String>,
    pub groups: Option<Vec<String>>,
}

/// The claims of an ID token.
#[derive(Debug, Clone)]
pub struct JwtClaims {
    pub sub: String,
    pub iss: String,
    pub aud: StringOrVec,
    pub exp: i64,
    pub iat: i64,
    pub email: Option<String>,
    pub email_verified: Option<bool>,
    pub name: Option<String>,
    pub given_name: Option<String>,
    pub family_name: Option<String>,
    pub groups: Option<Vec<String>>,
}

/// One value or several, as a token audience may be written.
#[derive(Debug, Clone)]
pub enum StringOrVec {
    Single(String),
    Multiple(Vec<String>),
}

impl StringOrVec {
    /// Whether `value` is the value, or one of the values.
    pub fn contains(&self, value: &str) -> (r: bool)
        ensures
            r == match *self {
                StringOrVec::Single(s) => s@ == value@,
                StringOrVec::Multiple(v) => string_views(v@).contains(value@),
            },
    {
        match self {
            StringOrVec::Single(s) => str_eq(s.as_str(), value),
            StringOrVec::Multiple(v) => contains_name(v, value),
        }
    }
}

fn contains_name(v: &Vec<String>, value: &str) -> (r: bool)
    ensures
        r == string_views(v@).contains(value@),
{
    let ghost vs = string_views(v@);
    let mut i: usize = 0;
    while i < v.len()
        invariant
            vs == string_views(v@),
            i <= v.len(),
            forall|j: int| 0 <= j < i ==> vs[j] != value@,
        decreases v.len() - i,
    {
        if str_eq(v[i].as_str(), value) {
            assert(vs[i as int] == value@);
            return true;
        }
        i = i + 1;
    }
    false
}

/// Where a sign-on login redirects to.
#[derive(Debug, Clone)]
pub struct SsoLoginResponse {
    pub redirect_url: String,
    pub state: String,
}

/// The query of the provider's callback.
#[derive(Debug, Clone)]
pub struct SsoCallbackQuery {
    pub code: Option<String>,
    pub state: Option<String>,
    pub error: Option<String>,
    pub error_description: Option<String>,
}

/// The query of a sign-on login.
#[derive(Debug, Clone)]
pub struct SsoLoginQuery {
    pub connector_id: Option<String>,
}

/// The PKCE values of one login.
#[derive(Debug, Clone)]
pub struct PkceData {
    pub code_verifier: String,
    pub code_challenge: String,
    pub state: String,
}

/// A native account of the provider.
#[derive(Debug, Clone)]
pub struct Password {
    pub email: String,
    pub username: String,
    pub user_id: String,
}

/// A refresh token issued to a client.
#[derive(Debug, Clone)]
pub struct RefreshTokenRef {
    pub id: String,
    pub client_id: String,
    pub created_at: Option<i64>,
    pub last_used: Option<i64>,
}

} // verus!
