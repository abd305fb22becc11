//! Wire-format data models exchanged with the authorization server.
//!
//! Required members are plain fields; members that a server may leave out
//! are `Option`s, absent rather than null.

use vstd::prelude::*;

verus! {

/// OAuth2 Token Response.
#[derive(Debug, Clone, PartialEq, Eq)]
pub struct TokenResponse {
    /// The access token.
    pub access_token: String,
    /// The token type (usually "Bearer").
    pub token_type: String,
    /// Token expiration time in seconds.
    pub expires_in: Option<i64>,
    /// The refresh token (if issued).
    pub refresh_token: Option<String>,
    /// The granted scopes.
    pub scope: Option<String>,
    /// The ID token (for OIDC).
    pub id_token: Option<String>,
}

/// OpenID Connect Discovery Document.
#[derive(Debug, Clone, PartialEq, Eq)]
pub struct OpenIDConfiguration {
    /// The issuer URL.
    pub issuer: String,
    /// The authorization endpoint URL.
    pub authorization_endpoint: String,
    /// The token endpoint URL.
    pub token_endpoint: String,
    /// The userinfo endpoint URL.
    pub userinfo_endpoint: Option<String>,
    /// The JWKS URI.
    pub jwks_uri: String,
    /// Registration endpoint URL.
    pub registration_endpoint: Option<String>,
    /// Supported scopes.
    pub scopes_supported: Option<Vec<String>>,
    /// Supported response types.
    pub response_types_supported: Vec<String>,
    /// Supported response modes.
    pub response_modes_supported: Option<Vec<String>>,
    /// Supported grant types.
    pub grant_types_supported: Option<Vec<String>>,
    /// Supported subject types.
    pub subject_types_supported: Vec<String>,
    /// Supported ID token signing algorithms.
    pub id_token_signing_alg_values_supported: Vec<String>,
    /// Supported token endpoint authentication methods.
    pub token_endpoint_auth_methods_supported: Option<Vec<String>>,
    /// Supported claims.
    pub claims_supported: Option<Vec<String>>,
    /// Supported code challenge methods.
    pub code_challenge_methods_supported: Option<Vec<String>>,
}

/// User Info Response.
#[derive(Debug, Clone, PartialEq, Eq)]
pub struct UserInfo {
    /// Subject identifier.
    pub sub: String,
    /// Full name.
    pub name: Option<String>,
    /// Given name.
    pub given_name: Option<String>,
    /// Family name.
    pub family_name: Option<String>,
    /// Preferred username.
    pub preferred_username: Option<String>,
    /// Email address.
    pub email: Option<String>,
    /// Whether email is verified.
    pub email_verified: Option<bool>,
    /// Profile picture URL.
    pub picture: Option<String>,
    /// Locale.
    pub locale: Option<String>,
    /// Last update timestamp.
    pub updated_at: Option<i64>,
}

/// OAuth2 Error Response.
#[derive(Debug, Clone, PartialEq, Eq)]
pub struct OAuth2Error {
    /// Error code.
    pub error: String,
    /// Error description.
    pub error_description: Option<String>,
    /// Error URI.
    pub error_uri: Option<String>,
    /// State parameter.
    pub state: Option<String>,
}

/// JSON Web Key.
#[derive(Debug, Clone, PartialEq, Eq)]
pub struct JWK {
    /// Key type.
    pub kty: String,
    /// Key use.
    pub use_: Option<String>,
    /// Key operations.
    pub key_ops: Option<Vec<String>>,
    /// Algorithm.
    pub alg: Option<String>,
    /// Key ID.
    pub kid: Option<String>,
    /// X.509 URL.
    pub x5u: Option<String>,
    /// X.509 certificate chain.
    pub x5c: Option<Vec<String>>,
    /// X.509 thumbprint.
    pub x5t: Option<String>,
    /// X.509 SHA-256 thumbprint.
    pub x5t_s256: Option<String>,
    // RSA specific
    /// RSA modulus.
    pub n: Option<String>,
    /// RSA exponent.
    pub e: Option<String>,
    // EC specific
    /// EC curve.
    pub crv: Option<String>,
    /// EC x coordinate.
    pub x: Option<String>,
    /// EC y coordinate.
    pub y: Option<String>,
}

/// JSON Web Key Set.
#[derive(Debug, Clone, PartialEq, Eq)]
pub struct JWKS {
    /// Keys in the set.
    pub keys: Vec<JWK>,
}

/// Token Introspection Response.
#[derive(Debug, Clone, PartialEq, Eq)]
pub struct IntrospectionResponse {
    /// Whether the token is active.
    pub active: bool,
    /// Token scope.
    pub scope: Option<String>,
    /// Client ID.
    pub client_id: Option<String>,
    /// Username.
    pub username: Option<String>,
    /// Token type.
    pub token_type: Option<String>,
    /// Expiration timestamp.
    pub exp: Option<i64>,
    /// Issued at timestamp.
    pub iat: Option<i64>,
    /// Not before timestamp.
    pub nbf: Option<i64>,
    /// Subject.
    pub sub: Option<String>,
    /// Audience.
    pub aud: Option<String>,
    /// Issuer.
    pub iss: Option<String>,
    /// JWT ID.
    pub jti: Option<String>,
}

} // verus!
