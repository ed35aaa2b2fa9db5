//! A verified client library for a ProGet package-repository server's HTTP API.
//!
//! The library covers two endpoints — a health/status check and a
//! Debian-package upload — and is built around a capability model: an
//! anonymous client handle can only issue anonymous operations, while an
//! authenticated handle can issue every operation. The capability split is
//! enforced at compile time through the [`Anon`] and [`Auth`] marker types.
//!
//! The library itself performs no network I/O. A handle turns typed
//! arguments into a [`Request`] value (method, URL, credential header, body),
//! and the response validators turn a status code and body back into a typed
//! result. The surrounding application owns the transport: it sends each
//! [`Request`] exactly once and hands the answer back, so every rule about
//! URLs, credential headers, status codes and response bodies is stated and
//! verified here.

use vstd::prelude::*;

pub mod models;
mod json;

use vstd::string::StringSliceAdditionalSpecFns;
use vstd::utf8::encode_utf8;

verus! {

/// How constructing a client or running an operation failed.
///
/// Every error is surfaced to the caller; nothing is logged, swallowed or
/// retried inside the library. A failed operation leaves the client handle
/// fully reusable.
#[derive(Debug)]
pub enum Error {
    /// The server URL was invalid or the credential token was empty.
    /// Raised at construction time only. Not retryable.
    Configuration(ConfigIssue),
    /// The underlying HTTP call itself failed (DNS, connection refused,
    /// timeout). Built by the transport layer around this library; the
    /// verified operations never produce it.
    Transport(String),
    /// The server answered with a non-2xx status code; carries the code so
    /// callers can tell an authentication failure from a missing resource
    /// from a server fault.
    HttpStatus(u16),
    /// A 2xx response body did not have the expected JSON shape; carries the
    /// parse failure text for diagnostics.
    Deserialization(String),
}

/// The reasons constructing a client can fail.
#[derive(Debug, PartialEq, Eq, Structural, Clone, Copy)]
pub enum ConfigIssue {
    /// The server URL did not parse as a URL.
    InvalidUrl,
    /// The credential token was empty.
    EmptyToken,
    /// No server URL was given to the builder.
    MissingServer,
    /// No credential token was given to the builder.
    MissingToken,
}

/// Marker trait of the two capability tags a [`Client`] can carry.
pub trait AuthType {}

/// Capability tag of a client built without credentials.
#[derive(Clone, Copy, Debug)]
pub struct Anon;

/// Capability tag of a client built with credentials.
#[derive(Clone, Copy, Debug)]
pub struct Auth;

impl AuthType for Anon {}

impl AuthType for Auth {}

/// How an authenticated client presents its token, chosen at construction.
#[derive(Debug, PartialEq, Eq, Structural, Clone, Copy)]
pub enum AuthScheme {
    /// `Authorization: Basic base64("api:" + token)`, with the fixed literal
    /// user name `api`.
    Basic,
    /// `X-ApiKey: token`.
    ApiKey,
}

/// The HTTP method of a [`Request`].
#[derive(Debug, PartialEq, Eq, Structural, Clone, Copy)]
pub enum Method {
    Get,
    Post,
}

/// One HTTP request as this library prescribes it: everything the transport
/// needs except the transport itself. The transport must also attach its
/// fixed user-agent header.
#[derive(Debug, Clone)]
pub struct Request {
    pub method: Method,
    pub url: String,
    /// The credential header to attach, if the issuing client carries one.
    pub auth_header: Option<(String, String)>,
    pub body: Vec<u8>,
}

/// The view of an optional header pair.
pub open spec fn opt_header_view(h: Option<(String, String)>) -> Option<(Seq<char>, Seq<char>)> {
    match h {
        Some(p) => Some((p.0@, p.1@)),
        None => None,
    }
}

/// What `reqwest::Url::parse` makes of a string: `None` when the string is
/// not a syntactically valid URL, otherwise the parsed URL serialized back
/// to text (parsing normalizes, e.g. lower-cases the scheme and host and
/// gives a bare authority the path `/`).
pub uninterp spec fn url_norm_of(s: Seq<char>) -> Option<Seq<char>>;

/// Relies on `reqwest::Url::parse` (the `url` crate): returns the parsed
/// URL's serialization exactly when the input parses, `None` otherwise.
#[verifier::external_body]
fn parse_url(s: &str) -> (r: Option<String>)
    ensures
        (r is Some) == (url_norm_of(s@) is Some),
        r matches Some(u) ==> Some(u@) == url_norm_of(s@),
{
    match reqwest::Url::parse(s) {
        Ok(u) => Some(u.as_str().to_owned()),
        Err(_) => None,
    }
}

/// The standard base64 encoding (with padding) of a byte sequence.
pub uninterp spec fn base64_of(bytes: Seq<u8>) -> Seq<char>;

/// Relies on `base64::engine::general_purpose::STANDARD.encode`: the
/// standard-alphabet, padded base64 encoding of the argument's bytes,
/// a function of those bytes alone.
#[verifier::external_body]
fn encode_base64(s: &str) -> (r: String)
    ensures
        r@ == base64_of(s.spec_bytes()),
{
    base64::Engine::encode(&base64::engine::general_purpose::STANDARD, s.as_bytes())
}

/// `s` with exactly one `/` appended unless it already ends in one.
pub open spec fn with_trailing_slash(s: Seq<char>) -> Seq<char> {
    if s.len() > 0 && s.last() == '/' {
        s
    } else {
        s + "/"@
    }
}

/// The base URL a client stores for an accepted input: the parsed URL's
/// serialization, normalized to end in a trailing slash so paths can be
/// appended without one.
pub open spec fn stored_base_url(server_url: Seq<char>) -> Seq<char>
    recommends
        url_norm_of(server_url) is Some,
{
    with_trailing_slash(url_norm_of(server_url)->Some_0)
}

/// The value of the `Authorization` header under [`AuthScheme::Basic`]:
/// `Basic ` followed by the base64 encoding of `api:` and the token.
pub open spec fn basic_header_value(token: Seq<char>) -> Seq<char> {
    "Basic "@ + base64_of(encode_utf8("api:"@ + token))
}

/// The credential header (name, value) an authenticated client carries for
/// a scheme and token.
pub open spec fn credential_for(scheme: AuthScheme, token: Seq<char>) -> (Seq<char>, Seq<char>) {
    match scheme {
        AuthScheme::Basic => ("Authorization"@, basic_header_value(token)),
        AuthScheme::ApiKey => ("X-ApiKey"@, token),
    }
}

/// Normalization always leaves a nonempty string ending in `/`.
proof fn lemma_with_trailing_slash_wf(s: Seq<char>)
    ensures
        with_trailing_slash(s).len() > 0,
        with_trailing_slash(s).last() == '/',
{
    reveal_strlit("/");
}

fn ensure_trailing_slash(s: String) -> (r: String)
    ensures
        r@ == with_trailing_slash(s@),
{
    let n = s.as_str().unicode_len();
    if n > 0 && s.as_str().get_char(n - 1) == '/' {
        s
    } else {
        s.concat("/")
    }
}

/// A handle on one ProGet server, fixed at construction: the stored base
/// URL never changes and the credential header, once set, is immutable.
/// The capability tag `A` decides at compile time which operations the
/// handle can issue.
#[derive(Debug, Clone)]
pub struct Client<A: AuthType> {
    base_url: String,
    credential: Option<(String, String)>,
    tag: A,
}

impl<A: AuthType> Client<A> {
    /// The stored base URL, as a sequence of characters.
    pub closed spec fn base_url_spec(&self) -> Seq<char> {
        self.base_url@
    }

    /// The credential header the handle carries, if any.
    pub closed spec fn credential_spec(&self) -> Option<(Seq<char>, Seq<char>)> {
        opt_header_view(self.credential)
    }

    /// Every constructed handle stores a nonempty base URL ending in `/`.
    pub open spec fn wf(&self) -> bool {
        self.base_url_spec().len() > 0 && self.base_url_spec().last() == '/'
    }
}

/// The URL of the health endpoint for a base URL.
pub open spec fn health_url(base: Seq<char>) -> Seq<char> {
    base + "health"@
}

/// The URL of the Debian-package upload endpoint for a base URL, feed,
/// component and package file name. Each segment is taken verbatim from the
/// caller: no escaping is applied, so callers must supply URL-safe values.
pub open spec fn upload_deb_url(
    base: Seq<char>,
    feed_name: Seq<char>,
    component_name: Seq<char>,
    deb_name: Seq<char>,
) -> Seq<char> {
    base + "debian-packages/upload/"@ + feed_name + "/"@ + component_name + "/"@ + deb_name
}

/// Operations every client can issue, with or without credentials.
impl<A: AuthType> Client<A> {
    /// The one request of the health operation: `GET {base}health` with an
    /// empty body, carrying the handle's credential header if it has one.
    pub fn health_request(&self) -> (r: Request)
        ensures
            r.method == Method::Get,
            r.url@ == health_url(self.base_url_spec()),
            opt_header_view(r.auth_header) == self.credential_spec(),
            r.body@ == Seq::<u8>::empty(),
    {
        Request {
            method: Method::Get,
            url: self.base_url.clone().concat("health"),
            auth_header: clone_credential(&self.credential),
            body: Vec::new(),
        }
    }
}

fn clone_credential(c: &Option<(String, String)>) -> (r: Option<(String, String)>)
    ensures
        opt_header_view(r) == opt_header_view(*c),
{
    match c {
        Some(p) => Some((p.0.clone(), p.1.clone())),
        None => None,
    }
}

/// Construction without credentials.
impl Client<Anon> {
    /// Builds an anonymous handle for a server. Succeeds exactly when
    /// `server_url` is a syntactically valid URL and then stores it,
    /// normalized to end in a trailing slash, with no credential header.
    /// Performs no network I/O.
    pub fn new_anon(server_url: &str) -> (r: Result<Client<Anon>, Error>)
        ensures
            (r is Ok) == (url_norm_of(server_url@) is Some),
            r matches Ok(c) ==> c.wf() && c.credential_spec() is None && c.base_url_spec()
                == stored_base_url(server_url@),
            r matches Err(e) ==> e matches Error::Configuration(ConfigIssue::InvalidUrl),
    {
        match parse_url(server_url) {
            Some(u) => {
                proof {
                    lemma_with_trailing_slash_wf(u@);
                }
                Ok(Client { base_url: ensure_trailing_slash(u), credential: None, tag: Anon })
            },
            None => Err(Error::Configuration(ConfigIssue::InvalidUrl)),
        }
    }
}

/// Construction with credentials, and the operations that require them.
impl Client<Auth> {
    /// Builds an authenticated handle for a server. Succeeds exactly when
    /// `server_url` is a syntactically valid URL and `api_token` is
    /// nonempty; the URL is checked first. The stored base URL is the same
    /// one [`Client::new_anon`] would store, and the credential header is
    /// determined by the scheme and token alone. Performs no network I/O.
    pub fn new_auth(server_url: &str, api_token: &str, scheme: AuthScheme) -> (r: Result<
        Client<Auth>,
        Error,
    >)
        ensures
            (r is Ok) == (url_norm_of(server_url@) is Some && api_token@.len() > 0),
            r matches Ok(c) ==> c.wf() && c.base_url_spec() == stored_base_url(server_url@)
                && c.credential_spec() == Some(credential_for(scheme, api_token@)),
            r matches Err(e) ==> e matches Error::Configuration(i) && ((i
                == ConfigIssue::InvalidUrl && url_norm_of(server_url@) is None) || (i
                == ConfigIssue::EmptyToken && url_norm_of(server_url@) is Some && api_token@.len()
                == 0)),
    {
        let u = match parse_url(server_url) {
            Some(u) => u,
            None => {
                return Err(Error::Configuration(ConfigIssue::InvalidUrl));
            },
        };
        if api_token.is_empty() {
            return Err(Error::Configuration(ConfigIssue::EmptyToken));
        }
        let header = match scheme {
            AuthScheme::Basic => {
                let joined = String::from_str("api:").concat(api_token);
                let encoded = encode_base64(joined.as_str());
                (String::from_str("Authorization"), String::from_str("Basic ").concat(
                    encoded.as_str(),
                ))
            },
            AuthScheme::ApiKey => (String::from_str("X-ApiKey"), String::from_str(api_token)),
        };
        proof {
            lemma_with_trailing_slash_wf(u@);
        }
        Ok(Client { base_url: ensure_trailing_slash(u), credential: Some(header), tag: Auth })
    }

    /// The one request of the Debian-package upload operation:
    /// `POST {base}debian-packages/upload/{feed}/{component}/{name}` whose
    /// body is exactly the package bytes, carrying the credential header.
    /// Path segments are taken verbatim from the caller (no escaping).
    pub fn upload_deb_request(
        &self,
        feed_name: &str,
        component_name: &str,
        deb_name: &str,
        deb_data: &[u8],
    ) -> (r: Request)
        ensures
            r.method == Method::Post,
            r.url@ == upload_deb_url(
                self.base_url_spec(),
                feed_name@,
                component_name@,
                deb_name@,
            ),
            opt_header_view(r.auth_header) == self.credential_spec(),
            r.body@ == deb_data@,
    {
        let url = self.base_url.clone().concat("debian-packages/upload/").concat(
            feed_name,
        ).concat("/").concat(component_name).concat("/").concat(deb_name);
        Request {
            method: Method::Post,
            url,
            auth_header: clone_credential(&self.credential),
            body: vstd::slice::slice_to_vec(deb_data),
        }
    }
}

/// Accumulates the configuration of an authenticated client: the server
/// URL and the credential token as optional fields, plus the scheme,
/// which defaults to [`AuthScheme::Basic`]. [`ClientBuilder::build`]
/// validates everything at the end, with a fixed error precedence.
#[derive(Debug, Clone)]
pub struct ClientBuilder {
    server: Option<String>,
    token: Option<String>,
    scheme: AuthScheme,
}

impl ClientBuilder {
    /// The server URL set so far, if any.
    pub closed spec fn server_spec(&self) -> Option<Seq<char>> {
        match self.server {
            Some(s) => Some(s@),
            None => None,
        }
    }

    /// The credential token set so far, if any.
    pub closed spec fn token_spec(&self) -> Option<Seq<char>> {
        match self.token {
            Some(t) => Some(t@),
            None => None,
        }
    }

    /// The authentication scheme chosen so far.
    pub closed spec fn scheme_spec(&self) -> AuthScheme {
        self.scheme
    }

    /// A builder with nothing set and the Basic scheme.
    pub fn new() -> (r: ClientBuilder)
        ensures
            r.server_spec() is None,
            r.token_spec() is None,
            r.scheme_spec() == AuthScheme::Basic,
    {
        ClientBuilder { server: None, token: None, scheme: AuthScheme::Basic }
    }

    /// Sets the server URL.
    pub fn server(self, server_url: &str) -> (r: ClientBuilder)
        ensures
            r.server_spec() == Some(server_url@),
            r.token_spec() == self.token_spec(),
            r.scheme_spec() == self.scheme_spec(),
    {
        ClientBuilder {
            server: Some(String::from_str(server_url)),
            token: self.token,
            scheme: self.scheme,
        }
    }

    /// Sets the credential token.
    pub fn token(self, api_token: &str) -> (r: ClientBuilder)
        ensures
            r.server_spec() == self.server_spec(),
            r.token_spec() == Some(api_token@),
            r.scheme_spec() == self.scheme_spec(),
    {
        ClientBuilder {
            server: self.server,
            token: Some(String::from_str(api_token)),
            scheme: self.scheme,
        }
    }

    /// Sets the authentication scheme.
    pub fn scheme(self, scheme: AuthScheme) -> (r: ClientBuilder)
        ensures
            r.server_spec() == self.server_spec(),
            r.token_spec() == self.token_spec(),
            r.scheme_spec() == scheme,
    {
        ClientBuilder { server: self.server, token: self.token, scheme }
    }

    /// Validates the accumulated configuration and builds the client. The
    /// checks run in a fixed precedence, which decides the error surfaced
    /// when several fields are bad at once: missing server, then missing
    /// token, then invalid server URL, then empty token. On success the
    /// client is exactly the one [`Client::new_auth`] builds from the same
    /// values.
    pub fn build(self) -> (r: Result<Client<Auth>, Error>)
        ensures
            self.server_spec() is None ==> (r matches Err(Error::Configuration(i)) && i
                == ConfigIssue::MissingServer),
            self.server_spec() is Some && self.token_spec() is None ==> (r matches Err(
                Error::Configuration(i),
            ) && i == ConfigIssue::MissingToken),
            self.server_spec() matches Some(u) ==> (self.token_spec() matches Some(t) ==> ((r
                is Ok) == (url_norm_of(u) is Some && t.len() > 0) && (r matches Ok(c) ==> c.wf()
                && c.base_url_spec() == stored_base_url(u) && c.credential_spec() == Some(
                credential_for(self.scheme_spec(), t),
            )) && (r matches Err(e) ==> e matches Error::Configuration(i) && ((i
                == ConfigIssue::InvalidUrl && url_norm_of(u) is None) || (i
                == ConfigIssue::EmptyToken && url_norm_of(u) is Some && t.len() == 0))))),
    {
        let ClientBuilder { server, token, scheme } = self;
        let server = match server {
            Some(s) => s,
            None => {
                return Err(Error::Configuration(ConfigIssue::MissingServer));
            },
        };
        let token = match token {
            Some(t) => t,
            None => {
                return Err(Error::Configuration(ConfigIssue::MissingToken));
            },
        };
        Client::<Auth>::new_auth(server.as_str(), token.as_str(), scheme)
    }
}

/// A 2xx status code, the success range of both operations.
pub open spec fn is_success_code(code: u16) -> bool {
    200 <= code < 300
}

/// Validates the answer to a health request: any non-2xx status surfaces
/// as an HTTP status error carrying the code (no retry); a 2xx body is
/// deserialized as the health record, succeeding exactly when it is valid
/// JSON of the expected shape.
pub fn health_response(code: u16, body: &str) -> (r: Result<models::Health, Error>)
    ensures
        !is_success_code(code) ==> (r matches Err(Error::HttpStatus(c)) && c == code),
        is_success_code(code) ==> ((r is Ok) == (json::json_of(body@) matches Some(j)
            && models::health_shape_ok(j)) && (r matches Ok(h) ==> models::health_matches(
            h,
            json::json_of(body@)->Some_0,
        )) && (r matches Err(e) ==> e is Deserialization)),
{
    if code < 200 || code >= 300 {
        Err(Error::HttpStatus(code))
    } else {
        models::parse_health(body)
    }
}

/// Validates the answer to an upload request: success exactly on a 2xx
/// status, which yields no value; any other status surfaces as an HTTP
/// status error carrying the code (no retry).
pub fn upload_deb_response(code: u16) -> (r: Result<(), Error>)
    ensures
        (r is Ok) == is_success_code(code),
        !is_success_code(code) ==> (r matches Err(Error::HttpStatus(c)) && c == code),
{
    if code < 200 || code >= 300 {
        Err(Error::HttpStatus(code))
    } else {
        Ok(())
    }
}

/// Capability forwarding: the health operation behaves identically on an
/// authenticated handle and on the anonymous handle of the same server
/// URL. Any requests the two handles' `health_request` contracts admit
/// agree on the method, the URL and the body — the handles differ only in
/// the credential header they attach — and both answers then go through
/// the one `health_response` validator.
pub proof fn lemma_health_capability_forwarding(
    anon: Client<Anon>,
    auth: Client<Auth>,
    ra: Request,
    rb: Request,
)
    requires
        anon.base_url_spec() == auth.base_url_spec(),
        ra.method == Method::Get,
        ra.url@ == health_url(anon.base_url_spec()),
        ra.body@ == Seq::<u8>::empty(),
        rb.method == Method::Get,
        rb.url@ == health_url(auth.base_url_spec()),
        rb.body@ == Seq::<u8>::empty(),
    ensures
        ra.method == rb.method,
        ra.url@ == rb.url@,
        ra.body@ == rb.body@,
{
}

} // verus!
