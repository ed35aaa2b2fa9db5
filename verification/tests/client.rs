use proget::{AuthScheme, Client, ClientBuilder, ConfigIssue, Error, Method};

#[test]
fn anon_invalid_url_fails() {
    let r = Client::new_anon("not a url");
    assert!(matches!(r, Err(Error::Configuration(ConfigIssue::InvalidUrl))));
    let r = Client::new_anon("");
    assert!(matches!(r, Err(Error::Configuration(ConfigIssue::InvalidUrl))));
}

#[test]
fn anon_valid_url_succeeds() {
    let c = Client::new_anon("https://example.com").unwrap();
    let req = c.health_request();
    assert_eq!(req.method, Method::Get);
    assert_eq!(req.url, "https://example.com/health");
    assert!(req.auth_header.is_none());
    assert!(req.body.is_empty());
}

#[test]
fn anon_url_is_normalized() {
    // Parsing lower-cases the scheme and host; the stored base URL gains a
    // single trailing slash.
    let c = Client::new_anon("HTTPS://EXAMPLE.com/Api").unwrap();
    assert_eq!(c.health_request().url, "https://example.com/Api/health");
    let c = Client::new_anon("https://example.com/Api/").unwrap();
    assert_eq!(c.health_request().url, "https://example.com/Api/health");
}

#[test]
fn auth_basic_header_is_deterministic() {
    let c = Client::new_auth("https://example.com", "abc123", AuthScheme::Basic).unwrap();
    let (name, value) = c.health_request().auth_header.unwrap();
    assert_eq!(name, "Authorization");
    let expected = format!(
        "Basic {}",
        base64::Engine::encode(&base64::engine::general_purpose::STANDARD, b"api:abc123"),
    );
    assert_eq!(value, expected);
    assert_eq!(value, "Basic YXBpOmFiYzEyMw==");
}

#[test]
fn auth_api_key_header() {
    let c = Client::new_auth("https://example.com", "abc123", AuthScheme::ApiKey).unwrap();
    let (name, value) = c.health_request().auth_header.unwrap();
    assert_eq!(name, "X-ApiKey");
    assert_eq!(value, "abc123");
}

#[test]
fn auth_empty_token_fails() {
    let r = Client::new_auth("https://example.com", "", AuthScheme::Basic);
    assert!(matches!(r, Err(Error::Configuration(ConfigIssue::EmptyToken))));
}

#[test]
fn auth_url_is_checked_before_token() {
    let r = Client::new_auth("not a url", "", AuthScheme::Basic);
    assert!(matches!(r, Err(Error::Configuration(ConfigIssue::InvalidUrl))));
}

#[test]
fn auth_forwards_anonymous_operations() {
    // Capability forwarding: the health request from an authenticated
    // handle matches the one from the anonymous handle of the same URL in
    // everything but the credential header.
    let anon = Client::new_anon("https://example.com/proget").unwrap();
    let auth = Client::new_auth("https://example.com/proget", "tok", AuthScheme::ApiKey).unwrap();
    let a = anon.health_request();
    let b = auth.health_request();
    assert_eq!(a.url, b.url);
    assert_eq!(a.method, b.method);
    assert_eq!(a.body, b.body);
    assert!(a.auth_header.is_none());
    assert!(b.auth_header.is_some());
}

#[test]
fn builder_error_precedence() {
    // Field presence is checked before validity: server, then token, then
    // URL well-formedness, then token emptiness.
    let r = ClientBuilder::new().build();
    assert!(matches!(r, Err(Error::Configuration(ConfigIssue::MissingServer))));
    let r = ClientBuilder::new().server("not a url").build();
    assert!(matches!(r, Err(Error::Configuration(ConfigIssue::MissingToken))));
    let r = ClientBuilder::new().server("not a url").token("tok").build();
    assert!(matches!(r, Err(Error::Configuration(ConfigIssue::InvalidUrl))));
    let r = ClientBuilder::new().server("https://example.com").token("").build();
    assert!(matches!(r, Err(Error::Configuration(ConfigIssue::EmptyToken))));
}

#[test]
fn builder_builds_same_client_as_new_auth() {
    let built = ClientBuilder::new()
        .server("https://example.com")
        .token("abc123")
        .scheme(AuthScheme::Basic)
        .build()
        .unwrap();
    let direct = Client::new_auth("https://example.com", "abc123", AuthScheme::Basic).unwrap();
    let a = built.health_request();
    let b = direct.health_request();
    assert_eq!(a.url, b.url);
    assert_eq!(a.auth_header, b.auth_header);
}

#[test]
fn upload_deb_request_is_exact() {
    let auth = Client::new_auth("https://example.com", "tok", AuthScheme::ApiKey).unwrap();
    let data: Vec<u8> = vec![0x21, 0x3c, 0x61, 0x72, 0x63, 0x68, 0x3e, 0x0a];
    let req = auth.upload_deb_request("my-feed", "bionic", "pkg_1.0.0-1_amd64.deb", &data);
    assert_eq!(req.method, Method::Post);
    assert_eq!(
        req.url,
        "https://example.com/debian-packages/upload/my-feed/bionic/pkg_1.0.0-1_amd64.deb",
    );
    assert_eq!(req.body, data);
    assert_eq!(req.auth_header.unwrap().0, "X-ApiKey");
}

#[test]
fn upload_response_codes() {
    assert!(proget::upload_deb_response(201).is_ok());
    assert!(proget::upload_deb_response(200).is_ok());
    assert!(matches!(proget::upload_deb_response(409), Err(Error::HttpStatus(409))));
    assert!(matches!(proget::upload_deb_response(500), Err(Error::HttpStatus(500))));
}

#[test]
fn health_response_surfaces_status_errors() {
    assert!(matches!(proget::health_response(500, ""), Err(Error::HttpStatus(500))));
    assert!(matches!(proget::health_response(404, "{}"), Err(Error::HttpStatus(404))));
}
