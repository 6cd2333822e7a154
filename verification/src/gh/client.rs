//! The client of the search endpoint: how it is configured and built.

use vstd::prelude::*;
use crate::gh::error::GithubError;

verus! {

/// An HTTP client, as `reqwest` builds it.
#[verifier::external_type_specification]
#[verifier::external_body]
pub struct ExHttpClient(reqwest::Client);

/// A clone of an HTTP client is a second handle to it; nothing is said of it.
pub assume_specification[ <reqwest::Client as Clone>::clone ](http: &reqwest::Client) -> (handle:
    reqwest::Client);

/// The value of an HTTP header, as `reqwest` holds it.
#[verifier::external_type_specification]
#[verifier::external_body]
pub struct ExHeaderValue(reqwest::header::HeaderValue);

/// The endpoint that a new builder points to.
pub const DEFAULT_ENDPOINT: &'static str = "https://api.github.com/graphql";

/// The user agent that a new builder announces.
pub const DEFAULT_USER_AGENT: &'static str = "graphql-rust/0.10.0";

/// What precedes the token in the `Authorization` header.
pub const BEARER: &'static str = "Bearer ";

/// Whether a byte may stand in the value of an HTTP header: a tab, or
/// anything from the space on but the delete character.
pub open spec fn is_header_byte(byte: u8) -> bool {
    byte >= 32 && byte != 127 || byte == 9
}

/// Whether all of the bytes may stand in the value of an HTTP header.
pub open spec fn are_header_bytes(bytes: Seq<u8>) -> bool {
    forall|i: int| 0 <= i < bytes.len() ==> is_header_byte(#[trigger] bytes[i])
}

/// Whether a text may stand in the value of an HTTP header: whether every
/// byte of its UTF-8 form may.
pub open spec fn is_header_text(text: Seq<char>) -> bool {
    are_header_bytes(vstd::utf8::encode_utf8(text))
}

/// The value of the `Authorization` header for a token.
pub open spec fn authorization_text(token: Seq<char>) -> Seq<char> {
    BEARER@ + token
}

/// What `url::Url::parse` makes of a text: the URL it reads, written out
/// again, or `None` where the text is no absolute URL.
pub uninterp spec fn parsed_url(text: Seq<char>) -> Option<Seq<char>>;

/// Reads a text as an absolute URL and writes the URL out again.
///
/// Calls `url::Url::parse`, which depends on the text alone, and turns the
/// URL into its `String`.
#[verifier::external_body]
fn parse_url(text: &str) -> (parsed: Result<String, url::ParseError>)
    ensures
        parsed is Ok ==> parsed_url(text@) == Some(parsed->Ok_0@),
        parsed is Err ==> parsed_url(text@) is None,
{
    url::Url::parse(text).map(String::from)
}

/// The text that a header value was made of.
pub uninterp spec fn header_text(value: reqwest::header::HeaderValue) -> Seq<char>;

/// The user agent that an HTTP client announces in every request that
/// names none of its own.
pub uninterp spec fn client_agent(http: reqwest::Client) -> Seq<char>;

/// What an HTTP client sends in the `Authorization` header of every
/// request that has none of its own.
pub uninterp spec fn client_authorization(http: reqwest::Client) -> Seq<char>;

/// Makes a header value of a text.
///
/// Calls `reqwest::header::HeaderValue::from_str`, which fails exactly
/// where a byte of the text is none of [`is_header_byte`], and otherwise
/// keeps the bytes of the text.
#[verifier::external_body]
fn header_value(text: &str) -> (value: reqwest::header::HeaderValue)
    requires
        is_header_text(text@),
    ensures
        header_text(value) == text@,
{
    reqwest::header::HeaderValue::from_str(text).unwrap()
}

/// Builds the HTTP client that announces `user_agent` and sends
/// `authorization` in the `Authorization` header of every request.
///
/// Calls `reqwest::Client::builder`, then `user_agent`, `default_headers`
/// and `build` on the builder. The first two put their values among the
/// headers that the client adds to every request, and `build` fails where
/// the user agent is no header value. Whether a client comes out depends
/// on the machine as well (the TLS backend, the system's proxy settings),
/// so nothing is said of when one does.
#[verifier::external_body]
fn http_client(user_agent: &str, authorization: reqwest::header::HeaderValue) -> (built: Result<
    reqwest::Client,
    reqwest::Error,
>)
    ensures
        built is Ok ==> client_agent(built->Ok_0) == user_agent@,
        built is Ok ==> client_authorization(built->Ok_0) == header_text(authorization),
{
    reqwest::Client::builder()
        .user_agent(user_agent)
        .default_headers(
            std::iter::once((reqwest::header::AUTHORIZATION, authorization)).collect(),
        )
        .build()
}

/// Whether every byte of `text` may stand in the value of an HTTP header.
pub fn is_header_value(text: &str) -> (ok: bool)
    ensures
        ok == is_header_text(text@),
{
    let bytes = text.as_bytes();
    let mut i: usize = 0;
    while i < bytes.len()
        invariant
            i <= bytes.len(),
            bytes@ == vstd::utf8::encode_utf8(text@),
            are_header_bytes(bytes@.take(i as int)),
        decreases bytes.len() - i,
    {
        let byte: u8 = bytes[i];
        if !(byte >= 32 && byte != 127 || byte == 9) {
            return false;
        }
        assert(bytes@.take(i + 1) == bytes@.take(i as int).push(byte));
        i = i + 1;
    }
    assert(bytes@.take(bytes@.len() as int) == bytes@);
    true
}

/// The value of the `Authorization` header for a token.
pub fn authorization(token: &str) -> (value: String)
    ensures
        value@ == authorization_text(token@),
{
    let mut value = String::from_str(BEARER);
    value.append(token);
    value
}

/// What a builder has been told so far.
pub struct Settings {
    pub endpoint_url: Seq<char>,
    pub user_agent: Seq<char>,
    pub token: Seq<char>,
}

/// Collects the endpoint, the user agent and the token of a [`GithubClient`].
#[derive(Clone, Debug)]
pub struct GithubBuilder {
    endpoint_url: String,
    user_agent: String,
    token: String,
}

impl View for GithubBuilder {
    type V = Settings;

    closed spec fn view(&self) -> Settings {
        Settings {
            endpoint_url: self.endpoint_url@,
            user_agent: self.user_agent@,
            token: self.token@,
        }
    }
}

impl Default for GithubBuilder {
    /// A builder with nothing set: all three texts are empty.
    fn default() -> (builder: GithubBuilder)
        ensures
            builder@ == (Settings {
                endpoint_url: Seq::empty(),
                user_agent: Seq::empty(),
                token: Seq::empty(),
            }),
    {
        GithubBuilder { endpoint_url: String::new(), user_agent: String::new(), token: String::new() }
    }
}

impl GithubBuilder {
    /// A builder that points to the public endpoint, announces the default
    /// user agent and has no token.
    pub fn new() -> (builder: GithubBuilder)
        ensures
            builder@ == (Settings {
                endpoint_url: DEFAULT_ENDPOINT@,
                user_agent: DEFAULT_USER_AGENT@,
                token: Seq::empty(),
            }),
    {
        GithubBuilder {
            endpoint_url: String::from_str(DEFAULT_ENDPOINT),
            user_agent: String::from_str(DEFAULT_USER_AGENT),
            token: String::new(),
        }
    }

    /// Sets the endpoint; the rest stays.
    pub fn endpoint_url(self, endpoint_url: &str) -> (builder: GithubBuilder)
        ensures
            builder@ == (Settings { endpoint_url: endpoint_url@, ..self@ }),
    {
        let mut builder = self;
        builder.endpoint_url = String::from_str(endpoint_url);
        builder
    }

    /// Sets the user agent; the rest stays.
    pub fn user_agent(self, user_agent: &str) -> (builder: GithubBuilder)
        ensures
            builder@ == (Settings { user_agent: user_agent@, ..self@ }),
    {
        let mut builder = self;
        builder.user_agent = String::from_str(user_agent);
        builder
    }

    /// Sets the token; the rest stays.
    pub fn token(self, token: &str) -> (builder: GithubBuilder)
        ensures
            builder@ == (Settings { token: token@, ..self@ }),
    {
        let mut builder = self;
        builder.token = String::from_str(token);
        builder
    }

    /// Whether the token can be sent: whether every byte of the header value
    /// made of it may stand in an HTTP header.
    pub open spec fn sendable(self) -> bool {
        is_header_text(authorization_text(self@.token))
    }

    /// Whether the token can be sent in the `Authorization` header.
    pub fn has_sendable_token(&self) -> (ok: bool)
        ensures
            ok == self.sendable(),
    {
        let value = authorization(self.token.as_str());
        is_header_value(value.as_str())
    }

    /// Builds the client: the HTTP client first, then the endpoint.
    ///
    /// The client that comes out goes to the endpoint as the URL parser
    /// reads it, announces the user agent, and sends the token after
    /// `Bearer ` in the `Authorization` header. Fails with `RequestError`
    /// where the HTTP client cannot be built, which the machine decides as
    /// well as the settings; otherwise with `UrlParseError` exactly where
    /// the endpoint is no absolute URL.
    pub fn build(self) -> (built: Result<GithubClient, GithubError>)
        requires
            self.sendable(),
        ensures
            built is Ok ==> parsed_url(self@.endpoint_url) == Some(built->Ok_0.endpoint_text()),
            built is Ok ==> client_agent(built->Ok_0.http_handle()) == self@.user_agent,
            built is Ok ==> client_authorization(built->Ok_0.http_handle()) == authorization_text(
                self@.token,
            ),
            built is Err ==> built->Err_0 is RequestError || built->Err_0 is UrlParseError,
            built is Err && built->Err_0 is UrlParseError ==> parsed_url(self@.endpoint_url) is None,
    {
        let value = authorization(self.token.as_str());
        let http = http_client(self.user_agent.as_str(), header_value(value.as_str()));
        let endpoint = parse_url(self.endpoint_url.as_str());
        GithubClient::assemble(http, endpoint)
    }
}

/// A client of the search endpoint: the endpoint, and the HTTP client that
/// carries the token.
#[derive(Clone, Debug)]
pub struct GithubClient {
    endpoint_url: String,
    client: reqwest::Client,
}

impl GithubClient {
    /// A builder with the default settings.
    pub fn builder() -> (builder: GithubBuilder)
        ensures
            builder@ == (Settings {
                endpoint_url: DEFAULT_ENDPOINT@,
                user_agent: DEFAULT_USER_AGENT@,
                token: Seq::empty(),
            }),
    {
        GithubBuilder::new()
    }

    /// The endpoint of the client, as text.
    pub closed spec fn endpoint_text(self) -> Seq<char> {
        self.endpoint_url@
    }

    /// The HTTP client of the client.
    pub closed spec fn http_handle(self) -> reqwest::Client {
        self.client
    }

    /// The endpoint that requests go to.
    pub fn endpoint_url(&self) -> (url: &str)
        ensures
            url@ == self.endpoint_text(),
    {
        self.endpoint_url.as_str()
    }

    /// The HTTP client that requests go through.
    pub fn http(&self) -> (http: &reqwest::Client)
        ensures
            *http == self.http_handle(),
    {
        &self.client
    }

    /// The client made of an HTTP client and an endpoint, or the error that
    /// tells which of the two is missing: the HTTP client's error comes
    /// first, the endpoint's second.
    pub fn assemble(
        http: Result<reqwest::Client, reqwest::Error>,
        endpoint: Result<String, url::ParseError>,
    ) -> (built: Result<GithubClient, GithubError>)
        ensures
            http is Err ==> built is Err && built->Err_0 == (GithubError::RequestError {
                source: http->Err_0,
            }),
            http is Ok && endpoint is Err ==> built is Err && built->Err_0 == (
            GithubError::UrlParseError { source: endpoint->Err_0 }),
            http is Ok && endpoint is Ok ==> built is Ok && built->Ok_0.endpoint_text()
                == endpoint->Ok_0@ && built->Ok_0.http_handle() == http->Ok_0,
    {
        match http {
            Err(source) => Err(GithubError::RequestError { source }),
            Ok(client) => match endpoint {
                Err(source) => Err(GithubError::UrlParseError { source }),
                Ok(endpoint_url) => Ok(GithubClient { endpoint_url, client }),
            },
        }
    }
}

} // verus!
