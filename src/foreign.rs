//! Declarations of the types from other crates that the library carries.
//!
//! Each type is opaque: values are passed through unchanged and never
//! inspected by verified code.

use reqwest::Error as TransportError;
use serde_json::Error as JsonError;
use vstd::prelude::*;

verus! {

/// `reqwest::Error`: a failure of the HTTP transport.
#[verifier::external_type_specification]
#[verifier::external_body]
pub struct ExReqwestError(TransportError);

/// `reqwest::Client`: a handle on the HTTP client and its connection pool.
#[verifier::external_type_specification]
#[verifier::external_body]
pub struct ExReqwestClient(reqwest::Client);

/// Relies on `Clone for reqwest::Client`: a second handle on the same
/// client; nothing is known of the value, which is only carried along.
pub assume_specification[ <reqwest::Client as std::clone::Clone>::clone ](
    client: &reqwest::Client,
) -> reqwest::Client;

/// `serde_json::Error`: a body that is not JSON or not of the expected shape.
#[verifier::external_type_specification]
#[verifier::external_body]
pub struct ExSerdeJsonError(JsonError);

/// `url::ParseError`: a malformed URL.
#[verifier::external_type_specification]
#[verifier::external_body]
pub struct ExUrlParseError(url::ParseError);

/// `std::io::Error`: a local input/output failure.
#[verifier::external_type_specification]
#[verifier::external_body]
pub struct ExIoError(std::io::Error);

} // verus!
