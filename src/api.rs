//! The three API clients: what each operation sends and what each reply means.
//!
//! Every operation is at most two exchanges: the discovery document, then
//! the request it points to. The clients here decide those requests and
//! interpret the replies; the caller's transport sends them. Token and
//! userinfo operations take the outcome of a fresh discovery call as input,
//! and a failed discovery is handed on unchanged. Every URL, supplied
//! or discovered, is parsed before a request is made of it: a malformed one
//! is a URL-parse failure and nothing is sent.

use crate::configuration::{opt_str_view, owned, Configuration};
use crate::error::{Error, Result};
use crate::models::OpenIDConfiguration;
use vstd::prelude::*;

verus! {

/// Path of the discovery document, relative to the base path.
pub const DISCOVERY_PATH: &'static str = "/.well-known/openid-configuration";

/// Header naming the media type of a request body.
pub const CONTENT_TYPE: &'static str = "content-type";

/// Media type of every token request body.
pub const FORM_CONTENT_TYPE: &'static str = "application/x-www-form-urlencoded";

/// Header carrying the access token of a userinfo request.
pub const AUTHORIZATION: &'static str = "authorization";

/// Scheme that precedes the access token in the authorization header.
pub const BEARER_PREFIX: &'static str = "Bearer ";

/// Message of the error reported when discovery lists no userinfo endpoint.
pub const USERINFO_UNAVAILABLE: &'static str = "UserInfo endpoint not available";

/// HTTP method of a request.
#[derive(Debug, Clone, Copy, PartialEq, Eq, Structural)]
pub enum Method {
    Get,
    Post,
}

/// A request to be sent by the transport: form fields, when present, are
/// sent url-encoded in this order.
#[derive(Debug, Clone)]
pub struct HttpRequest {
    pub method: Method,
    pub url: String,
    pub headers: Vec<(String, String)>,
    pub form: Vec<(String, String)>,
}

/// The text of a list of name/value pairs.
pub open spec fn pairs_view(v: Seq<(String, String)>) -> Seq<(Seq<char>, Seq<char>)> {
    v.map_values(|p: (String, String)| (p.0@, p.1@))
}

/// One form field when a value is given, none otherwise.
pub open spec fn optional_field(name: Seq<char>, value: Option<Seq<char>>) -> Seq<
    (Seq<char>, Seq<char>),
> {
    match value {
        Some(v) => seq![(name, v)],
        None => seq![],
    }
}

/// A GET of `url` with the given headers and no body.
pub open spec fn is_get(req: HttpRequest, url: Seq<char>, headers: Seq<(Seq<char>, Seq<char>)>) -> bool {
    &&& req.method == Method::Get
    &&& req.url@ == url
    &&& pairs_view(req.headers@) == headers
    &&& req.form@.len() == 0
}

/// A form-encoded POST of `form` to `url`.
pub open spec fn is_form_post(req: HttpRequest, url: Seq<char>, form: Seq<(Seq<char>, Seq<char>)>) -> bool {
    &&& req.method == Method::Post
    &&& req.url@ == url
    &&& pairs_view(req.headers@) == seq![(CONTENT_TYPE@, FORM_CONTENT_TYPE@)]
    &&& pairs_view(req.form@) == form
}

/// Form of the authorization code grant.
pub open spec fn exchange_code_form(
    code: Seq<char>,
    redirect_uri: Seq<char>,
    client_id: Seq<char>,
    client_secret: Option<Seq<char>>,
    code_verifier: Option<Seq<char>>,
) -> Seq<(Seq<char>, Seq<char>)> {
    seq![
        ("grant_type"@, "authorization_code"@),
        ("code"@, code),
        ("redirect_uri"@, redirect_uri),
        ("client_id"@, client_id),
    ] + optional_field("client_secret"@, client_secret) + optional_field(
        "code_verifier"@,
        code_verifier,
    )
}

/// Form of the refresh token grant.
pub open spec fn refresh_token_form(
    refresh_token: Seq<char>,
    client_id: Seq<char>,
    client_secret: Option<Seq<char>>,
) -> Seq<(Seq<char>, Seq<char>)> {
    seq![
        ("grant_type"@, "refresh_token"@),
        ("refresh_token"@, refresh_token),
        ("client_id"@, client_id),
    ] + optional_field("client_secret"@, client_secret)
}

/// Form of the client credentials grant.
pub open spec fn client_credentials_form(
    client_id: Seq<char>,
    client_secret: Seq<char>,
    scope: Option<Seq<char>>,
) -> Seq<(Seq<char>, Seq<char>)> {
    seq![
        ("grant_type"@, "client_credentials"@),
        ("client_id"@, client_id),
        ("client_secret"@, client_secret),
    ] + optional_field("scope"@, scope)
}

/// `r` is what an operation whose discovery step ended as `discovery` does
/// next: a failed discovery is passed on; otherwise the URL that `target`
/// picks from the document is checked, and `next` holds of the document and
/// the request.
pub open spec fn after_discovery(
    discovery: Result<OpenIDConfiguration>,
    r: Result<HttpRequest>,
    target: spec_fn(OpenIDConfiguration) -> Seq<char>,
    next: spec_fn(OpenIDConfiguration, HttpRequest) -> bool,
) -> bool {
    match discovery {
        Err(e) => r == Err::<HttpRequest, Error>(e),
        Ok(doc) => url_checked(target(doc), r, |req: HttpRequest| next(doc, req)),
    }
}

/// Whether `url::Url::parse` accepts a text as an absolute URL.
pub uninterp spec fn url_parses(s: Seq<char>) -> bool;

/// Relies on `url::Url::parse`: whether the text is an absolute URL, and
/// the parse error when it is not. The outcome depends on the text alone.
#[verifier::external_body]
fn parse_url(s: &str) -> (r: core::result::Result<(), url::ParseError>)
    ensures
        r is Ok <==> url_parses(s@),
{
    url::Url::parse(s).map(|_| ())
}

/// Succeeds when `url` is an absolute URL; otherwise a URL-parse failure.
fn check_url(url: &str) -> (r: Result<()>)
    ensures
        r is Ok <==> url_parses(url@),
        r is Err ==> r matches Err(Error::Url(_)),
{
    match parse_url(url) {
        Ok(()) => Ok(()),
        Err(e) => Err(Error::Url(e)),
    }
}

/// `r` is a request to `url` that meets `ok` when `url` parses, and a
/// URL-parse failure otherwise, with nothing to send.
pub open spec fn url_checked(url: Seq<char>, r: Result<HttpRequest>, ok: spec_fn(HttpRequest) -> bool) -> bool {
    if url_parses(url) {
        r matches Ok(req) && ok(req)
    } else {
        r matches Err(Error::Url(_))
    }
}

fn field(name: &str, value: &str) -> (r: (String, String))
    ensures
        r.0@ == name@,
        r.1@ == value@,
{
    (owned(name), owned(value))
}

fn push_field(pairs: &mut Vec<(String, String)>, name: &str, value: &str)
    ensures
        pairs_view(final(pairs)@) == pairs_view(old(pairs)@).push((name@, value@)),
{
    pairs.push(field(name, value));
    assert(pairs_view(final(pairs)@) =~= pairs_view(old(pairs)@).push((name@, value@)));
}

fn push_optional_field(pairs: &mut Vec<(String, String)>, name: &str, value: Option<&str>)
    ensures
        pairs_view(final(pairs)@) == pairs_view(old(pairs)@) + optional_field(
            name@,
            opt_str_view(value),
        ),
{
    match value {
        Some(v) => {
            push_field(pairs, name, v);
            assert(pairs_view(old(pairs)@).push((name@, v@)) =~= pairs_view(old(pairs)@) + seq![(name@, v@)]);
        },
        None => {
            assert(pairs_view(old(pairs)@) =~= pairs_view(old(pairs)@) + seq![]);
        },
    }
}

fn get_request(url: String, headers: Vec<(String, String)>) -> (r: HttpRequest)
    ensures
        r.method == Method::Get,
        r.url == url,
        r.headers == headers,
        r.form@.len() == 0,
{
    HttpRequest { method: Method::Get, url, headers, form: Vec::new() }
}

fn form_post(url: &String, form: Vec<(String, String)>) -> (r: HttpRequest)
    ensures
        is_form_post(r, url@, pairs_view(form@)),
{
    let mut headers: Vec<(String, String)> = Vec::new();
    push_field(&mut headers, CONTENT_TYPE, FORM_CONTENT_TYPE);
    assert(pairs_view(headers@) =~= seq![(CONTENT_TYPE@, FORM_CONTENT_TYPE@)]);
    HttpRequest { method: Method::Post, url: url.clone(), headers, form }
}

/// Whether a status reports success (200 to 299).
pub open spec fn is_success_status(status: u16) -> bool {
    200 <= status && status <= 299
}

/// Whether a status reports success (200 to 299).
pub fn is_success(status: u16) -> (r: bool)
    ensures
        r == is_success_status(status),
{
    200 <= status && status <= 299
}

/// `r` is what a reply with `status` and the outcome `body` of reading its
/// text means: on success the body to decode, or the transport error that
/// kept it from being read; otherwise an API error with the status and the
/// body verbatim, empty when it could not be read.
pub open spec fn reply_outcome(
    status: u16,
    body: core::result::Result<String, reqwest::Error>,
    r: Result<String>,
) -> bool {
    if is_success_status(status) {
        match body {
            Ok(b) => r == Ok::<String, Error>(b),
            Err(e) => r == Err::<String, Error>(Error::Reqwest(e)),
        }
    } else {
        r matches Err(Error::Api { status: s, message: m }) && s == status && m@ == match body {
            Ok(b) => b@,
            Err(_) => Seq::<char>::empty(),
        }
    }
}

/// Interpret a reply: its status and the outcome of reading its body.
pub fn read_reply(status: u16, body: core::result::Result<String, reqwest::Error>) -> (r: Result<
    String,
>)
    ensures
        reply_outcome(status, body, r),
{
    if is_success(status) {
        match body {
            Ok(b) => Ok(b),
            Err(e) => Err(Error::Reqwest(e)),
        }
    } else {
        let message = match body {
            Ok(b) => b,
            Err(_) => String::new(),
        };
        Err(Error::Api { status, message })
    }
}

/// `r` is the outcome of decoding a body that parsed as `parsed`.
pub open spec fn decode_outcome<T>(parsed: core::result::Result<T, serde_json::Error>, r: Result<T>) -> bool {
    match parsed {
        Ok(v) => r == Ok::<T, Error>(v),
        Err(e) => r == Err::<T, Error>(Error::Serde(e)),
    }
}

/// Turn the outcome of parsing a success body into the operation's result:
/// a parse failure is a deserialization error.
pub fn decode_reply<T>(parsed: core::result::Result<T, serde_json::Error>) -> (r: Result<T>)
    ensures
        decode_outcome(parsed, r),
{
    match parsed {
        Ok(v) => Ok(v),
        Err(e) => Err(Error::Serde(e)),
    }
}

/// Whether some field of `form` is named `name`.
pub open spec fn has_field(form: Seq<(Seq<char>, Seq<char>)>, name: Seq<char>) -> bool {
    exists|i: int| 0 <= i < form.len() && (#[trigger] form[i]).0 == name
}

/// The authorization code and refresh grants send a `client_secret` field
/// exactly when a secret is given: an absent secret is left out of the body,
/// not sent empty. The client credentials grant always sends its secret.
pub proof fn lemma_client_secret_field(
    code: Seq<char>,
    redirect_uri: Seq<char>,
    client_id: Seq<char>,
    client_secret: Option<Seq<char>>,
    code_verifier: Option<Seq<char>>,
    refresh_token: Seq<char>,
    required_secret: Seq<char>,
    scope: Option<Seq<char>>,
)
    ensures
        has_field(
            exchange_code_form(code, redirect_uri, client_id, client_secret, code_verifier),
            "client_secret"@,
        ) <==> client_secret is Some,
        has_field(refresh_token_form(refresh_token, client_id, client_secret), "client_secret"@)
            <==> client_secret is Some,
        client_credentials_form(client_id, required_secret, scope).contains(
            ("client_secret"@, required_secret),
        ),
{
    reveal_strlit("client_secret");
    reveal_strlit("grant_type");
    reveal_strlit("code");
    reveal_strlit("redirect_uri");
    reveal_strlit("client_id");
    reveal_strlit("code_verifier");
    reveal_strlit("refresh_token");
    let ec = exchange_code_form(code, redirect_uri, client_id, client_secret, code_verifier);
    let rt = refresh_token_form(refresh_token, client_id, client_secret);
    let cc = client_credentials_form(client_id, required_secret, scope);
    if let Some(s) = client_secret {
        assert(ec[4].0 == "client_secret"@);
        assert(rt[3].0 == "client_secret"@);
    } else {
        assert forall|i: int| 0 <= i < ec.len() implies (#[trigger] ec[i]).0 != "client_secret"@ by {
            assert("client_secret"@[2] != "grant_type"@[2]);
            assert("client_secret"@.len() != "code"@.len());
            assert("client_secret"@.len() != "redirect_uri"@.len());
            assert("client_secret"@[7] != "client_id"@[7]);
            assert("client_secret"@[1] != "code_verifier"@[1]);
        }
        assert forall|i: int| 0 <= i < rt.len() implies (#[trigger] rt[i]).0 != "client_secret"@ by {
            assert("client_secret"@[2] != "grant_type"@[2]);
            assert("client_secret"@[0] != "refresh_token"@[0]);
            assert("client_secret"@[7] != "client_id"@[7]);
        }
    }
    assert(cc[2] == ("client_secret"@, required_secret));
}

/// A reply with a success status whose body was read but does not parse
/// ends as a deserialization failure carrying the parse error, never as a
/// value.
pub proof fn lemma_unparsable_success_body_fails<T>(
    status: u16,
    body: String,
    read: Result<String>,
    e: serde_json::Error,
    r: Result<T>,
)
    requires
        is_success_status(status),
        reply_outcome(status, Ok(body), read),
        decode_outcome::<T>(Err(e), r),
    ensures
        read == Ok::<String, Error>(body),
        r == Err::<T, Error>(Error::Serde(e)),
{
}

/// URL of the discovery document of a configuration.
pub open spec fn discovery_url(config: Configuration) -> Seq<char> {
    config.base_path@ + DISCOVERY_PATH@
}

/// The discovery request of a configuration: a GET of
/// `{base_path}/.well-known/openid-configuration`.
pub open spec fn is_discovery_request(config: Configuration, req: HttpRequest) -> bool {
    is_get(req, discovery_url(config), seq![])
}

/// Discovery API client for OpenID Connect discovery endpoints.
pub struct DiscoveryApi {
    config: Configuration,
}

impl DiscoveryApi {
    /// The configuration this client sends requests with.
    pub closed spec fn spec_config(&self) -> Configuration {
        self.config
    }

    /// Create a new Discovery API client.
    pub fn new(config: Configuration) -> (r: Self)
        ensures
            r.spec_config() == config,
    {
        Self { config }
    }

    /// The configuration this client sends requests with.
    pub fn config(&self) -> (r: &Configuration)
        ensures
            *r == self.spec_config(),
    {
        &self.config
    }

    /// The request that fetches the discovery document; a URL-parse
    /// failure when the base path does not make an absolute URL.
    pub fn openid_configuration_request(&self) -> (r: Result<HttpRequest>)
        ensures
            url_checked(
                discovery_url(self.spec_config()),
                r,
                |req: HttpRequest| is_discovery_request(self.spec_config(), req),
            ),
    {
        let mut url = self.config.base_path.clone();
        url.append(DISCOVERY_PATH);
        check_url(url.as_str())?;
        let r = get_request(url, Vec::new());
        assert(pairs_view(r.headers@) =~= seq![]);
        Ok(r)
    }

    /// The request that fetches the key set named by the discovery document;
    /// a URL-parse failure when that URI is malformed.
    pub fn jwks_request(&self, discovery: Result<OpenIDConfiguration>) -> (r: Result<HttpRequest>)
        ensures
            after_discovery(
                discovery,
                r,
                |doc: OpenIDConfiguration| doc.jwks_uri@,
                |doc: OpenIDConfiguration, req: HttpRequest| is_get(req, doc.jwks_uri@, seq![]),
            ),
    {
        match discovery {
            Err(e) => Err(e),
            Ok(doc) => {
                check_url(doc.jwks_uri.as_str())?;
                let r = get_request(doc.jwks_uri, Vec::new());
                assert(pairs_view(r.headers@) =~= seq![]);
                Ok(r)
            },
        }
    }
}

/// Token API client for OAuth2 token operations.
pub struct TokenApi {
    config: Configuration,
}

impl TokenApi {
    /// The configuration this client sends requests with.
    pub closed spec fn spec_config(&self) -> Configuration {
        self.config
    }

    /// Create a new Token API client.
    pub fn new(config: Configuration) -> (r: Self)
        ensures
            r.spec_config() == config,
    {
        Self { config }
    }

    /// The configuration this client sends requests with.
    pub fn config(&self) -> (r: &Configuration)
        ensures
            *r == self.spec_config(),
    {
        &self.config
    }

    /// The request that exchanges an authorization code for tokens. The
    /// client secret and the PKCE code verifier are sent only when given.
    /// A malformed token endpoint is a URL-parse failure.
    pub fn exchange_code_request(
        &self,
        discovery: Result<OpenIDConfiguration>,
        code: &str,
        redirect_uri: &str,
        client_id: &str,
        client_secret: Option<&str>,
        code_verifier: Option<&str>,
    ) -> (r: Result<HttpRequest>)
        ensures
            after_discovery(
                discovery,
                r,
                |doc: OpenIDConfiguration| doc.token_endpoint@,
                |doc: OpenIDConfiguration, req: HttpRequest|
                    is_form_post(
                        req,
                        doc.token_endpoint@,
                        exchange_code_form(
                            code@,
                            redirect_uri@,
                            client_id@,
                            opt_str_view(client_secret),
                            opt_str_view(code_verifier),
                        ),
                    ),
            ),
    {
        match discovery {
            Err(e) => Err(e),
            Ok(doc) => {
                check_url(doc.token_endpoint.as_str())?;
                let mut form: Vec<(String, String)> = Vec::new();
                push_field(&mut form, "grant_type", "authorization_code");
                push_field(&mut form, "code", code);
                push_field(&mut form, "redirect_uri", redirect_uri);
                push_field(&mut form, "client_id", client_id);
                push_optional_field(&mut form, "client_secret", client_secret);
                push_optional_field(&mut form, "code_verifier", code_verifier);
                assert(pairs_view(form@) =~= exchange_code_form(
                    code@,
                    redirect_uri@,
                    client_id@,
                    opt_str_view(client_secret),
                    opt_str_view(code_verifier),
                ));
                Ok(form_post(&doc.token_endpoint, form))
            },
        }
    }

    /// The request that refreshes an access token. The client secret is
    /// sent only when given. A malformed token endpoint is a URL-parse
    /// failure.
    pub fn refresh_token_request(
        &self,
        discovery: Result<OpenIDConfiguration>,
        refresh_token: &str,
        client_id: &str,
        client_secret: Option<&str>,
    ) -> (r: Result<HttpRequest>)
        ensures
            after_discovery(
                discovery,
                r,
                |doc: OpenIDConfiguration| doc.token_endpoint@,
                |doc: OpenIDConfiguration, req: HttpRequest|
                    is_form_post(
                        req,
                        doc.token_endpoint@,
                        refresh_token_form(refresh_token@, client_id@, opt_str_view(client_secret)),
                    ),
            ),
    {
        match discovery {
            Err(e) => Err(e),
            Ok(doc) => {
                check_url(doc.token_endpoint.as_str())?;
                let mut form: Vec<(String, String)> = Vec::new();
                push_field(&mut form, "grant_type", "refresh_token");
                push_field(&mut form, "refresh_token", refresh_token);
                push_field(&mut form, "client_id", client_id);
                push_optional_field(&mut form, "client_secret", client_secret);
                assert(pairs_view(form@) =~= refresh_token_form(
                    refresh_token@,
                    client_id@,
                    opt_str_view(client_secret),
                ));
                Ok(form_post(&doc.token_endpoint, form))
            },
        }
    }

    /// The request of the client credentials grant, for which both the
    /// client id and the client secret are required. A malformed token
    /// endpoint is a URL-parse failure.
    pub fn client_credentials_request(
        &self,
        discovery: Result<OpenIDConfiguration>,
        client_id: &str,
        client_secret: &str,
        scope: Option<&str>,
    ) -> (r: Result<HttpRequest>)
        ensures
            after_discovery(
                discovery,
                r,
                |doc: OpenIDConfiguration| doc.token_endpoint@,
                |doc: OpenIDConfiguration, req: HttpRequest|
                    is_form_post(
                        req,
                        doc.token_endpoint@,
                        client_credentials_form(client_id@, client_secret@, opt_str_view(scope)),
                    ),
            ),
    {
        match discovery {
            Err(e) => Err(e),
            Ok(doc) => {
                check_url(doc.token_endpoint.as_str())?;
                let mut form: Vec<(String, String)> = Vec::new();
                push_field(&mut form, "grant_type", "client_credentials");
                push_field(&mut form, "client_id", client_id);
                push_field(&mut form, "client_secret", client_secret);
                push_optional_field(&mut form, "scope", scope);
                assert(pairs_view(form@) =~= client_credentials_form(
                    client_id@,
                    client_secret@,
                    opt_str_view(scope),
                ));
                Ok(form_post(&doc.token_endpoint, form))
            },
        }
    }
}

/// UserInfo API client.
pub struct UserInfoApi {
    config: Configuration,
}

impl UserInfoApi {
    /// The configuration this client sends requests with.
    pub closed spec fn spec_config(&self) -> Configuration {
        self.config
    }

    /// Create a new UserInfo API client.
    pub fn new(config: Configuration) -> (r: Self)
        ensures
            r.spec_config() == config,
    {
        Self { config }
    }

    /// The configuration this client sends requests with.
    pub fn config(&self) -> (r: &Configuration)
        ensures
            *r == self.spec_config(),
    {
        &self.config
    }

    /// The request for the claims of the holder of `access_token`, sent to
    /// the discovered userinfo endpoint with `Authorization: Bearer <token>`.
    /// The token is this parameter, never the configuration's own. Without a
    /// userinfo endpoint there is no request, only a configuration error;
    /// with a malformed one, only a URL-parse failure.
    pub fn user_info_request(&self, discovery: Result<OpenIDConfiguration>, access_token: &str) -> (r:
        Result<HttpRequest>)
        ensures
            match discovery {
                Err(e) => r == Err::<HttpRequest, Error>(e),
                Ok(doc) => match doc.userinfo_endpoint {
                    None => r matches Err(Error::Config(m)) && m@ == USERINFO_UNAVAILABLE@,
                    Some(endpoint) => url_checked(
                        endpoint@,
                        r,
                        |req: HttpRequest|
                            is_get(
                                req,
                                endpoint@,
                                seq![(AUTHORIZATION@, BEARER_PREFIX@ + access_token@)],
                            ),
                    ),
                },
            },
    {
        match discovery {
            Err(e) => Err(e),
            Ok(doc) => match doc.userinfo_endpoint {
                None => Err(Error::Config(owned(USERINFO_UNAVAILABLE))),
                Some(endpoint) => {
                    check_url(endpoint.as_str())?;
                    let mut bearer = owned(BEARER_PREFIX);
                    bearer.append(access_token);
                    let mut headers: Vec<(String, String)> = Vec::new();
                    headers.push((owned(AUTHORIZATION), bearer));
                    let r = get_request(endpoint, headers);
                    assert(pairs_view(r.headers@) =~= seq![(AUTHORIZATION@, BEARER_PREFIX@ + access_token@)]);
                    Ok(r)
                },
            },
        }
    }
}

} // verus!
