//! Client for an OAuth2 / OpenID Connect authorization server.
//!
//! The library decides what each operation sends and what each reply
//! means: which URL, method, headers and form fields a request carries,
//! and how a status and body become a typed result or an [`Error`].
//! Performing the exchanges themselves is left to the caller's transport.

pub mod api;
pub mod configuration;
pub mod error;
pub mod foreign;
pub mod models;

pub use api::{DiscoveryApi, HttpRequest, Method, TokenApi, UserInfoApi};

pub use configuration::{ApiKey, BasicAuth, Configuration};

pub use models::{
    IntrospectionResponse, OAuth2Error, OpenIDConfiguration, TokenResponse, UserInfo, JWK, JWKS,
};



pub use error::{Error, Result};
