//! Connection and authentication settings shared by the API clients.

use std::time::Duration;
use vstd::prelude::*;

verus! {

/// User agent sent unless the caller chooses another.
pub const DEFAULT_USER_AGENT: &'static str = "bootsandcats-oauth2-client/0.1.0";

/// Seconds a request may take unless the caller chooses another timeout.
pub const DEFAULT_TIMEOUT_SECS: u64 = 30;

/// Configuration for API client.
#[derive(Debug, Clone)]
pub struct Configuration {
    /// Base URL for the API
    pub base_path: String,
    /// User agent string
    pub user_agent: Option<String>,
    /// Bearer access token
    pub bearer_access_token: Option<String>,
    /// Basic auth credentials
    pub basic_auth: Option<BasicAuth>,
    /// API key configuration
    pub api_key: Option<ApiKey>,
    /// HTTP client
    pub client: reqwest::Client,
    /// Request timeout
    pub timeout: Option<Duration>,
    /// Whether operations are wrapped in tracing spans
    pub tracing_enabled: bool,
}

/// Basic authentication credentials.
#[derive(Debug, Clone, PartialEq, Eq)]
pub struct BasicAuth {
    pub username: String,
    pub password: Option<String>,
}

/// API key configuration.
#[derive(Debug, Clone, PartialEq, Eq)]
pub struct ApiKey {
    pub prefix: Option<String>,
    pub key: String,
}

/// The text of an optional borrowed string.
pub open spec fn opt_str_view(o: Option<&str>) -> Option<Seq<char>> {
    match o {
        Some(s) => Some(s@),
        None => None,
    }
}

/// The text of an optional owned string.
pub open spec fn opt_string_view(o: Option<String>) -> Option<Seq<char>> {
    match o {
        Some(s) => Some(s@),
        None => None,
    }
}

/// What `Duration::from_secs` returns for a number of seconds.
pub uninterp spec fn duration_of_secs(secs: u64) -> Duration;

/// Relies on `Duration::from_secs`: the same count of seconds always gives
/// the same duration.
pub assume_specification[ Duration::from_secs ](secs: u64) -> (r: Duration)
    ensures
        r == duration_of_secs(secs),
;

/// Relies on `reqwest::Client::new`: a fresh client with default settings.
/// Nothing is known of the value, which is only carried along. It panics
/// only when a TLS backend or a configurable resolver fails to start; the
/// features this crate builds reqwest with enable neither.
#[verifier::external_body]
fn new_http_client() -> (r: reqwest::Client) {
    reqwest::Client::new()
}

/// An owned copy of a string.
pub(crate) fn owned(s: &str) -> (r: String)
    ensures
        r@ == s@,
{
    String::from_str(s)
}

fn owned_opt(o: Option<&str>) -> (r: Option<String>)
    ensures
        opt_string_view(r) == opt_str_view(o),
{
    match o {
        Some(s) => Some(owned(s)),
        None => None,
    }
}

impl Configuration {
    /// Create a new configuration with the given base path: no credentials,
    /// the default user agent, a 30-second timeout and a fresh HTTP client.
    /// The base path is not checked here; a malformed one surfaces when a
    /// request is sent.
    pub fn new(base_path: &str) -> (r: Self)
        ensures
            r.base_path@ == base_path@,
            opt_string_view(r.user_agent) == Some(DEFAULT_USER_AGENT@),
            r.bearer_access_token is None,
            r.basic_auth is None,
            r.api_key is None,
            r.timeout == Some(duration_of_secs(DEFAULT_TIMEOUT_SECS)),
            !r.tracing_enabled,
    {
        Configuration {
            base_path: owned(base_path),
            user_agent: Some(owned(DEFAULT_USER_AGENT)),
            bearer_access_token: None,
            basic_auth: None,
            api_key: None,
            client: new_http_client(),
            timeout: Some(Duration::from_secs(DEFAULT_TIMEOUT_SECS)),
            tracing_enabled: false,
        }
    }

    /// Set the bearer access token; other credentials are kept.
    pub fn with_bearer_token(self, token: &str) -> (r: Self)
        ensures
            opt_string_view(r.bearer_access_token) == Some(token@),
            r == (Configuration { bearer_access_token: r.bearer_access_token, ..self }),
    {
        Configuration { bearer_access_token: Some(owned(token)), ..self }
    }

    /// Set basic authentication credentials; other credentials are kept.
    pub fn with_basic_auth(self, username: &str, password: Option<&str>) -> (r: Self)
        ensures
            r.basic_auth matches Some(b) && b.username@ == username@ && opt_string_view(b.password)
                == opt_str_view(password),
            r == (Configuration { basic_auth: r.basic_auth, ..self }),
    {
        let auth = BasicAuth { username: owned(username), password: owned_opt(password) };
        Configuration { basic_auth: Some(auth), ..self }
    }

    /// Set an API key, with an optional prefix such as a header scheme;
    /// other credentials are kept.
    pub fn with_api_key(self, key: &str, prefix: Option<&str>) -> (r: Self)
        ensures
            r.api_key matches Some(k) && k.key@ == key@ && opt_string_view(k.prefix)
                == opt_str_view(prefix),
            r == (Configuration { api_key: r.api_key, ..self }),
    {
        let api_key = ApiKey { key: owned(key), prefix: owned_opt(prefix) };
        Configuration { api_key: Some(api_key), ..self }
    }

    /// Set custom user agent.
    pub fn with_user_agent(self, user_agent: &str) -> (r: Self)
        ensures
            opt_string_view(r.user_agent) == Some(user_agent@),
            r == (Configuration { user_agent: r.user_agent, ..self }),
    {
        Configuration { user_agent: Some(owned(user_agent)), ..self }
    }

    /// Set request timeout.
    pub fn with_timeout(self, timeout: Duration) -> (r: Self)
        ensures
            r == (Configuration { timeout: Some(timeout), ..self }),
    {
        Configuration { timeout: Some(timeout), ..self }
    }

    /// Set custom HTTP client.
    pub fn with_client(self, client: reqwest::Client) -> (r: Self)
        ensures
            r == (Configuration { client, ..self }),
    {
        Configuration { client, ..self }
    }

    /// Enable or disable tracing.
    pub fn with_tracing(self, enabled: bool) -> (r: Self)
        ensures
            r == (Configuration { tracing_enabled: enabled, ..self }),
    {
        Configuration { tracing_enabled: enabled, ..self }
    }
}

impl Default for Configuration {
    /// A configuration for a server on the local machine.
    fn default() -> (r: Self)
        ensures
            r.base_path@ == DEFAULT_BASE_PATH@,
            opt_string_view(r.user_agent) == Some(DEFAULT_USER_AGENT@),
            r.bearer_access_token is None,
            r.basic_auth is None,
            r.api_key is None,
            r.timeout == Some(duration_of_secs(DEFAULT_TIMEOUT_SECS)),
            !r.tracing_enabled,
    {
        Self::new(DEFAULT_BASE_PATH)
    }
}

/// Base path of [`Configuration::default`].
pub const DEFAULT_BASE_PATH: &'static str = "http://localhost:8080";

} // verus!
