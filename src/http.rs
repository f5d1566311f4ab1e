//! The typed REST client: builds authenticated JSON requests against a base
//! URL and turns responses into values or distinguishable errors. Sending
//! the request is left to the caller, which hands the response back.
use vstd::prelude::*;

use crate::teamcity::Config;

verus! {

#[verifier::external_type_specification]
#[verifier::external_body]
pub struct ExJsonValue(serde_json::Value);

#[verifier::external_type_specification]
#[verifier::external_body]
pub struct ExJsonError(serde_json::Error);

/// The HTTP method of a request.
#[derive(Debug, PartialEq, Eq, Structural, Clone, Copy)]
pub enum Method {
    Get,
    Post,
}

/// A request ready to send: method, absolute URL, headers, and the JSON
/// payload of a POST.
pub struct HttpRequest {
    pub method: Method,
    pub url: String,
    pub headers: Vec<(String, String)>,
    pub body: Option<String>,
}

/// Why a call failed.
#[derive(Debug, PartialEq, Eq)]
pub enum ClientError {
    /// The path does not resolve against the base URL.
    InvalidUrl,
    /// The request did not complete (name lookup, connection, TLS, timeout).
    Transport(String),
    /// The server answered with a status outside 200..=299; the body is kept.
    HttpStatus(u16, String),
    /// A successful response whose body is not the expected JSON.
    Decode,
}

/// The absolute URL that `path` denotes against `base`, as the `url` crate
/// resolves it, or `None` when either does not parse.
pub uninterp spec fn resolved_url(base: Seq<char>, path: Seq<char>) -> Option<Seq<char>>;

/// Relies on `url::Url::parse` for the base and `url::Url::join` for the
/// path: the serialized result of resolving `path` against `base`.
#[verifier::external_body]
fn resolve_url(base: &str, path: &str) -> (r: Option<String>)
    ensures
        r matches Some(u) ==> resolved_url(base@, path@) == Some(u@),
        r is None ==> resolved_url(base@, path@) is None,
{
    url::Url::parse(base).and_then(|b| b.join(path)).ok().map(|u| u.as_str().to_owned())
}

/// Whether `serde_json` reads the text as one JSON value.
pub uninterp spec fn is_json(s: Seq<char>) -> bool;

/// Relies on `serde_json::from_str`, read into a `serde_json::Value`: it
/// succeeds exactly on texts that hold one JSON value.
#[verifier::external_body]
fn parse_json(s: &str) -> (r: Result<serde_json::Value, serde_json::Error>)
    ensures
        r is Ok <==> is_json(s@),
{
    serde_json::from_str::<serde_json::Value>(s)
}

/// The headers of every request: the bearer token, and JSON both ways.
pub open spec fn default_headers(token: Seq<char>) -> Seq<(Seq<char>, Seq<char>)> {
    seq![
        ("Authorization"@, "Bearer "@ + token),
        ("Content-Type"@, "application/json"@),
        ("Accept"@, "application/json"@),
    ]
}

pub open spec fn header_views(h: Seq<(String, String)>) -> Seq<(Seq<char>, Seq<char>)> {
    h.map_values(|p: (String, String)| (p.0@, p.1@))
}

/// A status of success.
pub open spec fn is_success(status: u16) -> bool {
    200 <= status && status <= 299
}

fn text(s: &str) -> (r: String)
    ensures
        r@ == s@,
{
    let mut r = String::new();
    r.append(s);
    r
}

/// A client of one service: its base URL and bearer token, fixed when it is
/// made.
pub struct Client {
    pub base_url: String,
    pub auth_token: String,
}

impl Client {
    /// A client for the service that `config` describes.
    pub fn new(config: &Config) -> (r: Self)
        ensures
            r.base_url@ == config.host@,
            r.auth_token@ == config.auth_token@,
    {
        Client { base_url: text(config.host()), auth_token: text(config.auth_token()) }
    }

    /// The headers sent with each request.
    pub fn default_headers(&self) -> (r: Vec<(String, String)>)
        ensures
            header_views(r@) == default_headers(self.auth_token@),
    {
        let mut bearer = text("Bearer ");
        bearer.append(self.auth_token.as_str());
        let mut h: Vec<(String, String)> = Vec::new();
        h.push((text("Authorization"), bearer));
        h.push((text("Content-Type"), text("application/json")));
        h.push((text("Accept"), text("application/json")));
        assert(header_views(h@) =~= default_headers(self.auth_token@));
        h
    }

    fn request(&self, method: Method, path: &str, body: Option<String>) -> (r: Result<HttpRequest, ClientError>)
        ensures
            resolved_url(self.base_url@, path@) is None ==> r == Err::<HttpRequest, ClientError>(ClientError::InvalidUrl),
            resolved_url(self.base_url@, path@) matches Some(u) ==> (r matches Ok(q) && q.method == method
                && q.url@ == u && header_views(q.headers@) == default_headers(self.auth_token@)
                && q.body == body),
    {
        match resolve_url(self.base_url.as_str(), path) {
            None => Err(ClientError::InvalidUrl),
            Some(url) => Ok(HttpRequest { method, url, headers: self.default_headers(), body }),
        }
    }

    /// The GET request for `path`, resolved against the base URL.
    pub fn get_request(&self, path: &str) -> (r: Result<HttpRequest, ClientError>)
        ensures
            resolved_url(self.base_url@, path@) is None ==> r == Err::<HttpRequest, ClientError>(ClientError::InvalidUrl),
            resolved_url(self.base_url@, path@) matches Some(u) ==> (r matches Ok(q) && q.method == Method::Get
                && q.url@ == u && header_views(q.headers@) == default_headers(self.auth_token@)
                && q.body is None),
    {
        self.request(Method::Get, path, None)
    }

    /// The POST request for `path` with a JSON payload, resolved against the
    /// base URL.
    pub fn post_request(&self, path: &str, body: String) -> (r: Result<HttpRequest, ClientError>)
        ensures
            resolved_url(self.base_url@, path@) is None ==> r == Err::<HttpRequest, ClientError>(ClientError::InvalidUrl),
            resolved_url(self.base_url@, path@) matches Some(u) ==> (r matches Ok(q) && q.method == Method::Post
                && q.url@ == u && header_views(q.headers@) == default_headers(self.auth_token@)
                && (q.body matches Some(b) && b@ == body@)),
    {
        self.request(Method::Post, path, Some(body))
    }
}

/// The body of a successful response; a status outside 200..=299 is an
/// error that keeps the status and the body.
pub fn check_status(status: u16, body: String) -> (r: Result<String, ClientError>)
    ensures
        is_success(status) ==> (r matches Ok(b) && b@ == body@),
        !is_success(status) ==> (r matches Err(ClientError::HttpStatus(s, b)) && s == status && b@ == body@),
{
    if 200 <= status && status <= 299 {
        Ok(body)
    } else {
        Err(ClientError::HttpStatus(status, body))
    }
}

/// The JSON value of a response. A failing status is reported as such and
/// the body is not decoded; a successful body that is not JSON is a decode
/// error.
pub fn receive(status: u16, body: String) -> (r: Result<serde_json::Value, ClientError>)
    ensures
        !is_success(status) ==> (r matches Err(ClientError::HttpStatus(s, b)) && s == status && b@ == body@),
        is_success(status) && is_json(body@) ==> r is Ok,
        is_success(status) && !is_json(body@) ==> (r matches Err(ClientError::Decode)),
{
    match check_status(status, body) {
        Err(e) => Err(e),
        Ok(b) => match parse_json(b.as_str()) {
            Ok(v) => Ok(v),
            Err(_) => Err(ClientError::Decode),
        },
    }
}

} // verus!
