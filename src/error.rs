//! The failures that every operation of the library can report.

use vstd::prelude::*;

verus! {

/// Errors that can occur when using the OAuth2 client.
#[derive(Debug)]
pub enum Error {
    /// The HTTP request could not be sent or its reply could not be read.
    Reqwest(reqwest::Error),
    /// A body was not JSON, or lacked a field that the target type requires.
    Serde(serde_json::Error),
    /// A URL could not be parsed.
    Url(url::ParseError),
    /// The server answered with a status outside 200..=299.
    Api { status: u16, message: String },
    /// An authentication failure.
    Auth(String),
    /// A piece of configuration or discovery data needed before sending is missing.
    Config(String),
    /// A local input/output failure.
    Io(std::io::Error),
}

/// Result type for OAuth2 client operations.
pub type Result<T> = core::result::Result<T, Error>;

impl From<reqwest::Error> for Error {
    fn from(e: reqwest::Error) -> (r: Self)
        ensures
            r == Error::Reqwest(e),
    {
        Error::Reqwest(e)
    }
}

impl vstd::std_specs::convert::FromSpecImpl<reqwest::Error> for Error {
    open spec fn obeys_from_spec() -> bool {
        true
    }

    open spec fn from_spec(e: reqwest::Error) -> Self {
        Error::Reqwest(e)
    }
}

impl From<serde_json::Error> for Error {
    fn from(e: serde_json::Error) -> (r: Self)
        ensures
            r == Error::Serde(e),
    {
        Error::Serde(e)
    }
}

impl vstd::std_specs::convert::FromSpecImpl<serde_json::Error> for Error {
    open spec fn obeys_from_spec() -> bool {
        true
    }

    open spec fn from_spec(e: serde_json::Error) -> Self {
        Error::Serde(e)
    }
}

impl From<url::ParseError> for Error {
    fn from(e: url::ParseError) -> (r: Self)
        ensures
            r == Error::Url(e),
    {
        Error::Url(e)
    }
}

impl vstd::std_specs::convert::FromSpecImpl<url::ParseError> for Error {
    open spec fn obeys_from_spec() -> bool {
        true
    }

    open spec fn from_spec(e: url::ParseError) -> Self {
        Error::Url(e)
    }
}

impl From<std::io::Error> for Error {
    fn from(e: std::io::Error) -> (r: Self)
        ensures
            r == Error::Io(e),
    {
        Error::Io(e)
    }
}

impl vstd::std_specs::convert::FromSpecImpl<std::io::Error> for Error {
    open spec fn obeys_from_spec() -> bool {
        true
    }

    open spec fn from_spec(e: std::io::Error) -> Self {
        Error::Io(e)
    }
}

} // verus!
