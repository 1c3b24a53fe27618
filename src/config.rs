//! Configuration records: the tuple-store gateway, the identity provider, caching and
//! single sign-on, with their defaults.
use crate::text::{lower_of, owned, str_eq, to_lower};
use std::collections::HashMap;
use vstd::prelude::*;

verus! {

/// Settings of the tuple-store gateway. The store id and model id are filled in by
/// bootstrap.
#[derive(Debug, Clone)]
pub struct OpenFGAConfig {
    pub api_url: String,
    pub store_id: String,
    pub model_id: Option<String>,
    pub store_name: String,
    /// When false every check allows.
    pub enabled: bool,
    /// When false listings are not filtered by permission.
    pub list_only_permitted: bool,
    pub timeout_seconds: u64,
}

/// The store name used when none is configured.
pub fn default_store_name() -> (r: String)
    ensures
        r@ == "openobserve"@,
{
    owned("openobserve")
}

pub fn default_true() -> (r: bool)
    ensures
        r,
{
    true
}

/// The request timeout used when none is configured, in seconds.
pub fn default_timeout() -> (r: u64)
    ensures
        r == 30,
{
    30
}

/// A copy of an optional string.
pub fn copy_opt_string(o: &Option<String>) -> (r: Option<String>)
    ensures
        match (r, *o) {
            (Some(a), Some(b)) => a@ == b@,
            (None, None) => true,
            _ => false,
        },
{
    match o {
        Some(s) => Some(owned(s.as_str())),
        None => None,
    }
}

impl OpenFGAConfig {
    /// The defaults: a local store API, no store or model yet, checking and filtered
    /// listings on.
    pub fn new() -> (r: OpenFGAConfig)
        ensures
            r.api_url@ == "http://localhost:8080"@,
            r.store_id@.len() == 0,
            r.model_id is None,
            r.store_name@ == "openobserve"@,
            r.enabled,
            r.list_only_permitted,
            r.timeout_seconds == 30,
    {
        OpenFGAConfig {
            api_url: owned("http://localhost:8080"),
            store_id: String::new(),
            model_id: None,
            store_name: default_store_name(),
            enabled: true,
            list_only_permitted: true,
            timeout_seconds: default_timeout(),
        }
    }

    /// A copy with the same settings.
    pub fn duplicate(&self) -> (r: OpenFGAConfig)
        ensures
            r.api_url@ == self.api_url@,
            r.store_id@ == self.store_id@,
            opt_eq(r.model_id, self.model_id),
            r.store_name@ == self.store_name@,
            r.enabled == self.enabled,
            r.list_only_permitted == self.list_only_permitted,
            r.timeout_seconds == self.timeout_seconds,
    {
        OpenFGAConfig {
            api_url: owned(self.api_url.as_str()),
            store_id: owned(self.store_id.as_str()),
            model_id: copy_opt_string(&self.model_id),
            store_name: owned(self.store_name.as_str()),
            enabled: self.enabled,
            list_only_permitted: self.list_only_permitted,
            timeout_seconds: self.timeout_seconds,
        }
    }

    /// Sets the API URL.
    pub fn with_api_url(self, url: &str) -> (r: OpenFGAConfig)
        ensures
            r.api_url@ == url@,
            r.store_id == self.store_id,
            r.model_id == self.model_id,
            r.store_name == self.store_name,
            r.enabled == self.enabled,
            r.list_only_permitted == self.list_only_permitted,
            r.timeout_seconds == self.timeout_seconds,
    {
        let mut c = self;
        c.api_url = owned(url);
        c
    }

    /// Sets the store name.
    pub fn with_store_name(self, name: &str) -> (r: OpenFGAConfig)
        ensures
            r.store_name@ == name@,
            r.api_url == self.api_url,
            r.store_id == self.store_id,
            r.model_id == self.model_id,
            r.enabled == self.enabled,
            r.list_only_permitted == self.list_only_permitted,
            r.timeout_seconds == self.timeout_seconds,
    {
        let mut c = self;
        c.store_name = owned(name);
        c
    }

    /// Sets the store id.
    pub fn with_store_id(self, id: &str) -> (r: OpenFGAConfig)
        ensures
            r.store_id@ == id@,
            r.api_url == self.api_url,
            r.model_id == self.model_id,
            r.store_name == self.store_name,
            r.enabled == self.enabled,
            r.list_only_permitted == self.list_only_permitted,
            r.timeout_seconds == self.timeout_seconds,
    {
        let mut c = self;
        c.store_id = owned(id);
        c
    }

    /// Sets the model id.
    pub fn with_model_id(self, id: &str) -> (r: OpenFGAConfig)
        ensures
            r.model_id matches Some(m) && m@ == id@,
            r.api_url == self.api_url,
            r.store_id == self.store_id,
            r.store_name == self.store_name,
            r.enabled == self.enabled,
            r.list_only_permitted == self.list_only_permitted,
            r.timeout_seconds == self.timeout_seconds,
    {
        let mut c = self;
        c.model_id = Some(owned(id));
        c
    }
}

pub open spec fn opt_eq(a: Option<String>, b: Option<String>) -> bool {
    match (a, b) {
        (Some(x), Some(y)) => x@ == y@,
        (None, None) => true,
        _ => false,
    }
}

impl Default for OpenFGAConfig {
    fn default() -> (r: OpenFGAConfig)
        ensures
            r.api_url@ == "http://localhost:8080"@,
            r.store_id@.len() == 0,
            r.model_id is None,
            r.store_name@ == "openobserve"@,
            r.enabled,
            r.list_only_permitted,
            r.timeout_seconds == 30,
    {
        OpenFGAConfig::new()
    }
}

/// Settings of the identity provider.
#[derive(Debug, Clone)]
pub struct DexConfig {
    pub grpc_url: String,
    pub client_id: String,
    pub client_secret: String,
    pub issuer_url: String,
    pub redirect_uri: String,
    /// The org new users join.
    pub default_org: String,
    /// The role new users get.
    pub default_role: String,
    pub native_login_enabled: bool,
    pub group_claim: String,
    pub scopes: Vec<String>,
    pub timeout_seconds: u64,
}

/// The settings that the builders leave alone.
pub open spec fn dex_fixed_eq(a: DexConfig, b: DexConfig) -> bool {
    &&& a.grpc_url == b.grpc_url
    &&& a.default_org == b.default_org
    &&& a.default_role == b.default_role
    &&& a.native_login_enabled == b.native_login_enabled
    &&& a.group_claim == b.group_claim
    &&& a.scopes == b.scopes
    &&& a.timeout_seconds == b.timeout_seconds
}

impl DexConfig {
    /// The defaults with the given API URL.
    pub fn new(grpc_url: &str) -> (r: DexConfig)
        ensures
            r.grpc_url@ == grpc_url@,
            r.client_id@ == "openobserve"@,
            r.client_secret@.len() == 0,
            r.issuer_url@ == "http://localhost:5556"@,
            r.redirect_uri@ == "http://localhost:5080/config/redirect"@,
            r.default_org@ == "default"@,
            r.default_role@ == "viewer"@,
            r.native_login_enabled,
            r.group_claim@ == "groups"@,
            r.scopes@.len() == 5,
            r.timeout_seconds == 30,
    {
        let mut scopes: Vec<String> = Vec::new();
        scopes.push(owned("openid"));
        scopes.push(owned("email"));
        scopes.push(owned("profile"));
        scopes.push(owned("groups"));
        scopes.push(owned("offline_access"));
        DexConfig {
            grpc_url: owned(grpc_url),
            client_id: owned("openobserve"),
            client_secret: String::new(),
            issuer_url: owned("http://localhost:5556"),
            redirect_uri: owned("http://localhost:5080/config/redirect"),
            default_org: owned("default"),
            default_role: owned("viewer"),
            native_login_enabled: true,
            group_claim: owned("groups"),
            scopes,
            timeout_seconds: 30,
        }
    }

    /// Sets the issuer URL.
    pub fn with_issuer(self, issuer_url: &str) -> (r: DexConfig)
        ensures
            r.issuer_url@ == issuer_url@,
            dex_fixed_eq(r, self),
            r.client_id == self.client_id,
            r.client_secret == self.client_secret,
            r.redirect_uri == self.redirect_uri,
    {
        let mut c = self;
        c.issuer_url = owned(issuer_url);
        c
    }

    /// Sets the client credentials.
    pub fn with_client(self, client_id: &str, client_secret: &str) -> (r: DexConfig)
        ensures
            r.client_id@ == client_id@,
            r.client_secret@ == client_secret@,
            dex_fixed_eq(r, self),
            r.issuer_url == self.issuer_url,
            r.redirect_uri == self.redirect_uri,
    {
        let mut c = self;
        c.client_id = owned(client_id);
        c.client_secret = owned(client_secret);
        c
    }

    /// Sets the redirect URI.
    pub fn with_redirect_uri(self, uri: &str) -> (r: DexConfig)
        ensures
            r.redirect_uri@ == uri@,
            dex_fixed_eq(r, self),
            r.client_id == self.client_id,
            r.client_secret == self.client_secret,
            r.issuer_url == self.issuer_url,
    {
        let mut c = self;
        c.redirect_uri = owned(uri);
        c
    }

    /// Checks that the API URL, the client id and the issuer URL are set, in that order.
    pub fn validate(&self) -> (r: Result<(), String>)
        ensures
            self.grpc_url@.len() == 0 ==> (r matches Err(m) && m@ == "Dex gRPC URL is required"@),
            self.grpc_url@.len() != 0 && self.client_id@.len() == 0 ==> (r matches Err(m) && m@
                == "OAuth2 client ID is required"@),
            self.grpc_url@.len() != 0 && self.client_id@.len() != 0 && self.issuer_url@.len() == 0
                ==> (r matches Err(m) && m@ == "OIDC issuer URL is required"@),
            r is Ok <==> (self.grpc_url@.len() != 0 && self.client_id@.len() != 0
                && self.issuer_url@.len() != 0),
    {
        if self.grpc_url.as_str().is_empty() {
            return Err(owned("Dex gRPC URL is required"));
        }
        if self.client_id.as_str().is_empty() {
            return Err(owned("OAuth2 client ID is required"));
        }
        if self.issuer_url.as_str().is_empty() {
            return Err(owned("OIDC issuer URL is required"));
        }
        Ok(())
    }
}

impl Default for DexConfig {
    fn default() -> (r: DexConfig)
        ensures
            r.grpc_url@ == "http://localhost:5557"@,
            r.client_id@ == "openobserve"@,
            r.client_secret@.len() == 0,
            r.issuer_url@ == "http://localhost:5556"@,
            r.redirect_uri@ == "http://localhost:5080/config/redirect"@,
            r.default_org@ == "default"@,
            r.default_role@ == "viewer"@,
            r.native_login_enabled,
            r.group_claim@ == "groups"@,
            r.scopes@.len() == 5,
            r.timeout_seconds == 30,
    {
        DexConfig::new("http://localhost:5557")
    }
}

/// Permission cache settings.
#[derive(Debug, Clone)]
pub struct CacheConfig {
    pub enabled: bool,
    pub ttl_seconds: u64,
    pub max_entries: usize,
}

impl Default for CacheConfig {
    fn default() -> (r: CacheConfig)
        ensures
            r.enabled,
            r.ttl_seconds == 300,
            r.max_entries == 10000,
    {
        CacheConfig { enabled: true, ttl_seconds: 300, max_entries: 10000 }
    }
}

/// Single sign-on through an OIDC provider.
#[derive(Debug, Clone)]
pub struct OIDCConfig {
    pub issuer_url: String,
    pub client_id: String,
    pub client_secret: String,
    pub scopes: Vec<String>,
    pub redirect_uri: String,
    pub email_claim: String,
    pub name_claim: String,
    pub groups_claim: Option<String>,
    pub group_role_mappings: HashMap<String, String>,
    pub auto_create_users: bool,
    pub default_role: Option<String>,
}

/// The scopes asked for when none are configured.
pub fn default_oidc_scopes() -> (r: Vec<String>)
    ensures
        r@.len() == 3,
        r@[0]@ == "openid"@,
        r@[1]@ == "profile"@,
        r@[2]@ == "email"@,
{
    let mut v: Vec<String> = Vec::new();
    v.push(owned("openid"));
    v.push(owned("profile"));
    v.push(owned("email"));
    v
}

pub fn default_email_claim() -> (r: String)
    ensures
        r@ == "email"@,
{
    owned("email")
}

pub fn default_name_claim() -> (r: String)
    ensures
        r@ == "name"@,
{
    owned("name")
}

/// Single sign-on through an LDAP directory.
#[derive(Debug, Clone)]
pub struct LDAPConfig {
    pub server_url: String,
    pub bind_dn: String,
    pub bind_password: String,
    pub user_base_dn: String,
    pub user_filter: String,
    pub user_attr_email: String,
    pub user_attr_name: String,
    pub group_base_dn: Option<String>,
    pub group_filter: Option<String>,
    pub group_attr_name: String,
    pub group_role_mappings: HashMap<String, String>,
    pub use_ssl: bool,
    pub skip_ssl_verify: bool,
    pub timeout_seconds: u64,
}

pub fn default_user_filter() -> (r: String)
    ensures
        r@ == "(&(objectClass=person)(uid={0}))"@,
{
    owned("(&(objectClass=person)(uid={0}))")
}

pub fn default_ldap_email_attr() -> (r: String)
    ensures
        r@ == "mail"@,
{
    owned("mail")
}

pub fn default_ldap_name_attr() -> (r: String)
    ensures
        r@ == "cn"@,
{
    owned("cn")
}

pub fn default_group_filter() -> (r: String)
    ensures
        r@ == "(&(objectClass=groupOfNames)(member={0}))"@,
{
    owned("(&(objectClass=groupOfNames)(member={0}))")
}

pub fn default_ldap_group_attr() -> (r: String)
    ensures
        r@ == "cn"@,
{
    owned("cn")
}

pub fn default_ldap_timeout() -> (r: u64)
    ensures
        r == 10,
{
    10
}

/// The kind of a single sign-on provider.
#[derive(Debug, Clone, Copy, PartialEq, Eq, Structural)]
pub enum SSOProviderType {
    OIDC,
    LDAP,
}

pub open spec fn provider_of_lower(s: Seq<char>) -> Option<SSOProviderType> {
    if s == "oidc"@ {
        Some(SSOProviderType::OIDC)
    } else if s == "ldap"@ {
        Some(SSOProviderType::LDAP)
    } else {
        None
    }
}

impl SSOProviderType {
    /// Parses a provider kind, ignoring case.
    pub fn from_str(s: &str) -> (r: Result<SSOProviderType, String>)
        ensures
            r matches Ok(p) ==> provider_of_lower(lower_of(s@)) == Some(p),
            r is Err ==> provider_of_lower(lower_of(s@)) is None,
    {
        let lower = to_lower(s);
        match SSOProviderType::from_lowercase(lower.as_str()) {
            Some(p) => Ok(p),
            None => Err(crate::text::cat("Invalid SSO provider type: ", s)),
        }
    }

    /// Parses an already lower-cased provider kind.
    pub fn from_lowercase(s: &str) -> (r: Option<SSOProviderType>)
        ensures
            r == provider_of_lower(s@),
    {
        if str_eq(s, "oidc") {
            Some(SSOProviderType::OIDC)
        } else if str_eq(s, "ldap") {
            Some(SSOProviderType::LDAP)
        } else {
            None
        }
    }

    /// The kind's name.
    pub fn name(&self) -> (r: &'static str)
        ensures
            r@ == match *self {
                SSOProviderType::OIDC => "oidc"@,
                SSOProviderType::LDAP => "ldap"@,
            },
    {
        match self {
            SSOProviderType::OIDC => "oidc",
            SSOProviderType::LDAP => "ldap",
        }
    }
}

/// Whether the enterprise features are on; they always are.
pub fn is_enterprise_enabled() -> (r: bool)
    ensures
        r,
{
    true
}

/// The tuple-store API URL used when none is configured.
pub fn default_openfga_url() -> (r: String)
    ensures
        r@ == "http://localhost:8080"@,
{
    owned("http://localhost:8080")
}

/// The tuple-store name used when none is configured.
pub fn default_openfga_store_name() -> (r: String)
    ensures
        r@ == "openobserve"@,
{
    owned("openobserve")
}

/// The identity provider's API URL used when none is configured.
pub fn default_dex_grpc_url() -> (r: String)
    ensures
        r@ == "http://localhost:5557"@,
{
    owned("http://localhost:5557")
}

/// The identity provider's issuer URL used when none is configured.
pub fn default_dex_issuer_url() -> (r: String)
    ensures
        r@ == "http://localhost:5556"@,
{
    owned("http://localhost:5556")
}

/// The client id used when none is configured.
pub fn default_dex_client_id() -> (r: String)
    ensures
        r@ == "openobserve"@,
{
    owned("openobserve")
}

/// The redirect URI used when none is configured.
pub fn default_dex_redirect_uri() -> (r: String)
    ensures
        r@ == "http://localhost:5080/config/redirect"@,
{
    owned("http://localhost:5080/config/redirect")
}

/// How many logs pattern extraction looks at by default.
pub fn default_log_patterns_max_logs() -> (r: usize)
    ensures
        r == 10000,
{
    10000
}

/// The smallest cluster that counts as a pattern by default.
pub fn default_log_patterns_min_cluster_size() -> (r: usize)
    ensures
        r == 2,
{
    2
}

/// The default depth of the pattern tree.
pub fn default_log_patterns_drain_depth() -> (r: usize)
    ensures
        r == 4,
{
    4
}

/// The default bound on children per pattern-tree node.
pub fn default_log_patterns_drain_max_child() -> (r: usize)
    ensures
        r == 100,
{
    100
}

/// The default bound on extracted patterns.
pub fn default_log_patterns_max_clusters() -> (r: usize)
    ensures
        r == 1000,
{
    1000
}

} // verus!
