use bootsandcats_oauth2_client::api::{decode_reply, is_success, read_reply};
use bootsandcats_oauth2_client::{
    Configuration, DiscoveryApi, Error, HttpRequest, Method, OpenIDConfiguration, TokenApi,
    TokenResponse, UserInfoApi,
};

fn discovery_document(userinfo_endpoint: Option<&str>) -> OpenIDConfiguration {
    OpenIDConfiguration {
        issuer: "https://auth.example.com".to_string(),
        authorization_endpoint: "https://auth.example.com/authorize".to_string(),
        token_endpoint: "https://auth.example.com/token".to_string(),
        userinfo_endpoint: userinfo_endpoint.map(|s| s.to_string()),
        jwks_uri: "https://auth.example.com/jwks".to_string(),
        registration_endpoint: None,
        scopes_supported: None,
        response_types_supported: vec!["code".to_string()],
        response_modes_supported: None,
        grant_types_supported: None,
        subject_types_supported: vec!["public".to_string()],
        id_token_signing_alg_values_supported: vec!["RS256".to_string()],
        token_endpoint_auth_methods_supported: None,
        claims_supported: None,
        code_challenge_methods_supported: None,
    }
}

fn pairs(list: &[(&str, &str)]) -> Vec<(String, String)> {
    list.iter()
        .map(|(n, v)| (n.to_string(), v.to_string()))
        .collect()
}

fn config() -> Configuration {
    Configuration::new("https://auth.example.com")
}

fn transport_error() -> reqwest::Error {
    reqwest::Client::new()
        .get("not a url")
        .build()
        .expect_err("a relative URL cannot be requested")
}

fn json_error() -> serde_json::Error {
    serde_json::from_str::<serde_json::Value>("{\"access_token\":").unwrap_err()
}

fn form_of(r: Result<HttpRequest, Error>) -> HttpRequest {
    match r {
        Ok(req) => req,
        Err(e) => panic!("expected a request, got {:?}", e),
    }
}

#[test]
fn discovery_request_targets_well_known_path() {
    let req = form_of(DiscoveryApi::new(config()).openid_configuration_request());
    assert_eq!(req.method, Method::Get);
    assert_eq!(
        req.url,
        "https://auth.example.com/.well-known/openid-configuration"
    );
    assert!(req.headers.is_empty());
    assert!(req.form.is_empty());
}

#[test]
fn api_clients_keep_their_configuration() {
    let d = DiscoveryApi::new(config().with_bearer_token("t"));
    assert_eq!(d.config().base_path, "https://auth.example.com");
    assert_eq!(d.config().bearer_access_token.as_deref(), Some("t"));
    assert_eq!(TokenApi::new(config()).config().base_path, "https://auth.example.com");
    assert_eq!(UserInfoApi::new(config()).config().base_path, "https://auth.example.com");
}

#[test]
fn jwks_request_targets_discovered_uri() {
    let api = DiscoveryApi::new(config());
    let req = form_of(api.jwks_request(Ok(discovery_document(None))));
    assert_eq!(req.method, Method::Get);
    assert_eq!(req.url, "https://auth.example.com/jwks");
    assert!(req.headers.is_empty());
    assert!(req.form.is_empty());
}

#[test]
fn failed_discovery_is_passed_on() {
    let api = DiscoveryApi::new(config());
    let r = api.jwks_request(Err(Error::Api {
        status: 503,
        message: "down".to_string(),
    }));
    assert!(matches!(r, Err(Error::Api { status: 503, ref message }) if message == "down"));
    let token = TokenApi::new(config());
    let r = token.refresh_token_request(Err(Error::Serde(json_error())), "rt", "c", None);
    assert!(matches!(r, Err(Error::Serde(_))));
    let user = UserInfoApi::new(config());
    let r = user.user_info_request(Err(Error::Reqwest(transport_error())), "at");
    assert!(matches!(r, Err(Error::Reqwest(_))));
}

#[test]
fn exchange_code_without_secret_or_verifier() {
    let api = TokenApi::new(config());
    let req = form_of(api.exchange_code_request(
        Ok(discovery_document(None)),
        "auth-code",
        "https://app/callback",
        "client-1",
        None,
        None,
    ));
    assert_eq!(req.method, Method::Post);
    assert_eq!(req.url, "https://auth.example.com/token");
    assert_eq!(
        req.headers,
        pairs(&[("content-type", "application/x-www-form-urlencoded")])
    );
    assert_eq!(
        req.form,
        pairs(&[
            ("grant_type", "authorization_code"),
            ("code", "auth-code"),
            ("redirect_uri", "https://app/callback"),
            ("client_id", "client-1"),
        ])
    );
}

#[test]
fn exchange_code_with_secret_and_verifier() {
    let api = TokenApi::new(config());
    let req = form_of(api.exchange_code_request(
        Ok(discovery_document(None)),
        "c0de",
        "https://app/cb",
        "client-2",
        Some("s3cret"),
        Some("verifier-xyz"),
    ));
    assert_eq!(
        req.form,
        pairs(&[
            ("grant_type", "authorization_code"),
            ("code", "c0de"),
            ("redirect_uri", "https://app/cb"),
            ("client_id", "client-2"),
            ("client_secret", "s3cret"),
            ("code_verifier", "verifier-xyz"),
        ])
    );
}

#[test]
fn exchange_code_with_verifier_only() {
    let api = TokenApi::new(config());
    let req = form_of(api.exchange_code_request(
        Ok(discovery_document(None)),
        "c",
        "r",
        "id",
        None,
        Some("v"),
    ));
    assert_eq!(
        req.form,
        pairs(&[
            ("grant_type", "authorization_code"),
            ("code", "c"),
            ("redirect_uri", "r"),
            ("client_id", "id"),
            ("code_verifier", "v"),
        ])
    );
    assert!(req.form.iter().all(|(n, _)| n != "client_secret"));
}

#[test]
fn refresh_token_omits_absent_secret() {
    let api = TokenApi::new(config());
    let req = form_of(api.refresh_token_request(
        Ok(discovery_document(None)),
        "rt-1",
        "client-1",
        None,
    ));
    assert_eq!(req.method, Method::Post);
    assert_eq!(req.url, "https://auth.example.com/token");
    assert_eq!(
        req.form,
        pairs(&[
            ("grant_type", "refresh_token"),
            ("refresh_token", "rt-1"),
            ("client_id", "client-1"),
        ])
    );
}

#[test]
fn refresh_token_sends_given_secret() {
    let api = TokenApi::new(config());
    let req = form_of(api.refresh_token_request(
        Ok(discovery_document(None)),
        "rt-1",
        "client-1",
        Some("sec"),
    ));
    assert_eq!(
        req.form,
        pairs(&[
            ("grant_type", "refresh_token"),
            ("refresh_token", "rt-1"),
            ("client_id", "client-1"),
            ("client_secret", "sec"),
        ])
    );
}

#[test]
fn client_credentials_always_sends_secret() {
    let api = TokenApi::new(config());
    let req = form_of(api.client_credentials_request(
        Ok(discovery_document(None)),
        "svc",
        "svc-secret",
        None,
    ));
    assert_eq!(req.method, Method::Post);
    assert_eq!(req.url, "https://auth.example.com/token");
    assert_eq!(
        req.headers,
        pairs(&[("content-type", "application/x-www-form-urlencoded")])
    );
    assert_eq!(
        req.form,
        pairs(&[
            ("grant_type", "client_credentials"),
            ("client_id", "svc"),
            ("client_secret", "svc-secret"),
        ])
    );
    let req = form_of(api.client_credentials_request(
        Ok(discovery_document(None)),
        "svc",
        "svc-secret",
        Some("read write"),
    ));
    assert_eq!(req.form.last(), Some(&("scope".to_string(), "read write".to_string())));
    assert_eq!(req.form.len(), 4);
}

#[test]
fn user_info_request_uses_explicit_token() {
    let api = UserInfoApi::new(config().with_bearer_token("configured-token"));
    let req = form_of(api.user_info_request(
        Ok(discovery_document(Some("https://auth.example.com/userinfo"))),
        "abc123",
    ));
    assert_eq!(req.method, Method::Get);
    assert_eq!(req.url, "https://auth.example.com/userinfo");
    assert_eq!(req.headers, pairs(&[("authorization", "Bearer abc123")]));
    assert!(req.form.is_empty());
}

#[test]
fn user_info_without_endpoint_is_configuration_error() {
    let api = UserInfoApi::new(config());
    let r = api.user_info_request(Ok(discovery_document(None)), "abc123");
    match r {
        Err(Error::Config(message)) => assert_eq!(message, "UserInfo endpoint not available"),
        other => panic!("expected a configuration error, got {:?}", other),
    }
}

#[test]
fn success_statuses() {
    assert!(is_success(200));
    assert!(is_success(204));
    assert!(is_success(299));
    assert!(!is_success(199));
    assert!(!is_success(300));
    assert!(!is_success(400));
    assert!(!is_success(500));
}

#[test]
fn success_reply_hands_on_body() {
    let r = read_reply(200, Ok("{\"keys\":[]}".to_string()));
    assert_eq!(r.unwrap(), "{\"keys\":[]}");
    let r = read_reply(299, Ok(String::new()));
    assert_eq!(r.unwrap(), "");
}

#[test]
fn success_reply_with_unreadable_body_is_transport_error() {
    let r = read_reply(200, Err(transport_error()));
    assert!(matches!(r, Err(Error::Reqwest(_))));
}

#[test]
fn error_status_keeps_status_and_body() {
    let r = read_reply(400, Ok("{\"error\":\"invalid_grant\"}".to_string()));
    match r {
        Err(Error::Api { status, message }) => {
            assert_eq!(status, 400);
            assert_eq!(message, "{\"error\":\"invalid_grant\"}");
        }
        other => panic!("expected an API error, got {:?}", other),
    }
}

#[test]
fn error_status_with_empty_or_unreadable_body() {
    match read_reply(500, Ok(String::new())) {
        Err(Error::Api { status, message }) => {
            assert_eq!(status, 500);
            assert_eq!(message, "");
        }
        other => panic!("expected an API error, got {:?}", other),
    }
    match read_reply(302, Err(transport_error())) {
        Err(Error::Api { status, message }) => {
            assert_eq!(status, 302);
            assert_eq!(message, "");
        }
        other => panic!("expected an API error, got {:?}", other),
    }
    match read_reply(199, Ok("early".to_string())) {
        Err(Error::Api { status, message }) => {
            assert_eq!(status, 199);
            assert_eq!(message, "early");
        }
        other => panic!("expected an API error, got {:?}", other),
    }
}

#[test]
fn unparsable_success_body_is_deserialization_error() {
    let body = read_reply(200, Ok("{\"access_token\":".to_string())).unwrap();
    let parsed = serde_json::from_str::<serde_json::Value>(&body).map(|_| ());
    let r = decode_reply(parsed);
    assert!(matches!(r, Err(Error::Serde(_))));
}

#[test]
fn decoded_value_is_returned() {
    let token = TokenResponse {
        access_token: "a".to_string(),
        token_type: "Bearer".to_string(),
        expires_in: None,
        refresh_token: None,
        scope: None,
        id_token: None,
    };
    let r = decode_reply(Ok(token.clone()));
    assert_eq!(r.unwrap(), token);
}

fn token_from_json(body: &str) -> Result<TokenResponse, serde_json::Error> {
    let v: serde_json::Value = serde_json::from_str(body)?;
    let text = |k: &str| v.get(k).and_then(|x| x.as_str()).map(|s| s.to_string());
    Ok(TokenResponse {
        access_token: text("access_token").unwrap_or_default(),
        token_type: text("token_type").unwrap_or_default(),
        expires_in: v.get("expires_in").and_then(|x| x.as_i64()),
        refresh_token: text("refresh_token"),
        scope: text("scope"),
        id_token: text("id_token"),
    })
}

#[test]
fn exchange_code_end_to_end() {
    let api = TokenApi::new(config());
    let discovery_body = "{\"issuer\":\"https://auth.example.com\",\"authorization_endpoint\":\"...\",\"token_endpoint\":\"https://auth.example.com/token\",\"jwks_uri\":\"https://auth.example.com/jwks\",\"response_types_supported\":[\"code\"],\"subject_types_supported\":[\"public\"],\"id_token_signing_alg_values_supported\":[\"RS256\"]}";
    let discovery = read_reply(200, Ok(discovery_body.to_string())).unwrap();
    assert_eq!(discovery, discovery_body);
    let mut doc = discovery_document(None);
    doc.authorization_endpoint = "...".to_string();
    let req = form_of(api.exchange_code_request(
        Ok(doc),
        "auth-code",
        "https://app/callback",
        "client-1",
        None,
        None,
    ));
    assert_eq!(req.url, "https://auth.example.com/token");
    assert!(req.form.iter().all(|(n, _)| n != "client_secret" && n != "code_verifier"));
    let body = read_reply(
        200,
        Ok("{\"access_token\":\"abc123\",\"token_type\":\"Bearer\",\"expires_in\":3600}".to_string()),
    )
    .unwrap();
    let token = decode_reply(token_from_json(&body)).unwrap();
    assert_eq!(token.access_token, "abc123");
    assert_eq!(token.expires_in, Some(3600));
    assert_eq!(token.refresh_token, None);
}

#[test]
fn refresh_token_rejected_by_server() {
    let api = TokenApi::new(config());
    let req = form_of(api.refresh_token_request(
        Ok(discovery_document(None)),
        "expired",
        "client-1",
        None,
    ));
    assert_eq!(req.url, "https://auth.example.com/token");
    match read_reply(400, Ok("{\"error\":\"invalid_grant\"}".to_string())) {
        Err(Error::Api { status, message }) => {
            assert_eq!(status, 400);
            assert_eq!(message, "{\"error\":\"invalid_grant\"}");
        }
        other => panic!("expected an API error, got {:?}", other),
    }
}

#[test]
fn error_conversions_pick_their_variant() {
    assert!(matches!(Error::from(json_error()), Error::Serde(_)));
    assert!(matches!(Error::from(transport_error()), Error::Reqwest(_)));
    assert!(matches!(
        Error::from(url::Url::parse("no scheme").unwrap_err()),
        Error::Url(url::ParseError::RelativeUrlWithoutBase)
    ));
    let io = std::io::Error::new(std::io::ErrorKind::Other, "disk");
    assert!(matches!(Error::from(io), Error::Io(_)));
}

fn discovery_with_endpoints(token: &str, jwks: &str, userinfo: &str) -> OpenIDConfiguration {
    let mut doc = discovery_document(Some(userinfo));
    doc.token_endpoint = token.to_string();
    doc.jwks_uri = jwks.to_string();
    doc
}

fn is_url_error(r: &Result<HttpRequest, Error>) -> bool {
    matches!(r, Err(Error::Url(_)))
}

#[test]
fn malformed_base_path_is_url_error() {
    let api = DiscoveryApi::new(Configuration::new("not a url"));
    let r = api.openid_configuration_request();
    assert!(matches!(
        r,
        Err(Error::Url(url::ParseError::RelativeUrlWithoutBase))
    ));
    let api = DiscoveryApi::new(Configuration::new(""));
    assert!(is_url_error(&api.openid_configuration_request()));
}

#[test]
fn relative_token_endpoint_is_url_error() {
    let api = TokenApi::new(config());
    let doc = || Ok(discovery_with_endpoints("/token", "https://auth.example.com/jwks", "https://auth.example.com/userinfo"));
    assert!(is_url_error(&api.exchange_code_request(doc(), "c", "r", "id", None, None)));
    assert!(is_url_error(&api.refresh_token_request(doc(), "rt", "id", Some("s"))));
    assert!(is_url_error(&api.client_credentials_request(doc(), "id", "s", None)));
}

#[test]
fn malformed_jwks_uri_is_url_error() {
    let api = DiscoveryApi::new(config());
    let doc = discovery_with_endpoints("https://auth.example.com/token", "jwks", "https://auth.example.com/userinfo");
    assert!(is_url_error(&api.jwks_request(Ok(doc))));
}

#[test]
fn malformed_userinfo_endpoint_is_url_error() {
    let api = UserInfoApi::new(config());
    let doc = discovery_with_endpoints("https://auth.example.com/token", "https://auth.example.com/jwks", "http://[::1");
    assert!(is_url_error(&api.user_info_request(Ok(doc), "abc123")));
}
