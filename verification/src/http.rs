use vstd::prelude::*;
use vstd::string::*;

verus! {

/// Every request times out after this many seconds (30 minutes).
pub const CLIENT_TIMEOUT_SECS: u64 = 1800;

/// The browser-like user-agent string sent with every request, chosen to
/// reduce the chance of being blocked by the request's origin.
pub open spec fn user_agent_spec() -> Seq<char> {
    "Mozilla/5.0 (Windows NT 10.0; Win64; x64) AppleWebKit/537.36 (KHTML, like Gecko) Chrome/131.0.0.0 Safari/537.36"@
}

/// What the shared client is built with: a fixed timeout and a fixed
/// user-agent. The client is constructed once, on first use, and reused
/// for the rest of the process lifetime.
pub struct ClientConfig {
    /// Whole-request timeout, in seconds.
    pub timeout_secs: u64,
    /// The user-agent string sent with every request.
    pub user_agent: String,
}

/// Builds the configuration of the shared client.
pub fn client_config() -> (r: ClientConfig)
    ensures
        r.timeout_secs == CLIENT_TIMEOUT_SECS,
        r.user_agent@ == user_agent_spec(),
{
    ClientConfig {
        timeout_secs: CLIENT_TIMEOUT_SECS,
        user_agent: String::from_str(
            "Mozilla/5.0 (Windows NT 10.0; Win64; x64) AppleWebKit/537.36 (KHTML, like Gecko) Chrome/131.0.0.0 Safari/537.36",
        ),
    }
}

/// The two HTTP verbs this crate sends.
#[derive(Clone, Copy, Debug, PartialEq, Eq, Structural)]
pub enum HttpMethod {
    Get,
    Post,
}

/// One outgoing request, as plain data: verb, URL, the headers in the
/// order they are attached, and the body, if any.
pub struct HttpRequest {
    pub method: HttpMethod,
    pub url: String,
    pub headers: Vec<(String, String)>,
    pub body: Option<Vec<u8>>,
}

/// The header list as pairs of character sequences.
pub open spec fn header_views(h: Seq<(String, String)>) -> Seq<(Seq<char>, Seq<char>)> {
    h.map_values(|p: (String, String)| (p.0@, p.1@))
}

/// The body as a byte sequence, if any.
pub open spec fn body_view(b: Option<Vec<u8>>) -> Option<Seq<u8>> {
    match b {
        Some(v) => Some(v@),
        None => None,
    }
}

/// The two headers every outgoing request receives, whatever its verb.
pub open spec fn default_header_views() -> Seq<(Seq<char>, Seq<char>)> {
    seq![("Accept"@, "*/*"@), ("Connection"@, "Keep-Alive"@)]
}

/// The headers a JSON POST carries: the two defaults, then the JSON
/// content type.
pub open spec fn json_post_header_views() -> Seq<(Seq<char>, Seq<char>)> {
    default_header_views().push(("Content-Type"@, "application/json"@))
}

/// Appends the two default headers, `Accept: */*` and
/// `Connection: Keep-Alive`, leaving everything else about the request as
/// it was. Callers of the exposed operations cannot override these.
pub fn config_request(request: HttpRequest) -> (r: HttpRequest)
    ensures
        r.method == request.method,
        r.url@ == request.url@,
        body_view(r.body) == body_view(request.body),
        header_views(r.headers@) == header_views(request.headers@) + default_header_views(),
{
    let mut r = request;
    r.headers.push((String::from_str("Accept"), String::from_str("*/*")));
    r.headers.push((String::from_str("Connection"), String::from_str("Keep-Alive")));
    proof {
        assert(header_views(r.headers@) =~= header_views(request.headers@)
            + default_header_views());
    }
    r
}

/// Builds the GET request for `url`: no body, and exactly the two default
/// headers.
pub fn get(url: &str) -> (r: HttpRequest)
    ensures
        r.method == HttpMethod::Get,
        r.url@ == url@,
        header_views(r.headers@) == default_header_views(),
        r.body is None,
{
    let request = HttpRequest {
        method: HttpMethod::Get,
        url: String::from_str(url),
        headers: Vec::new(),
        body: None,
    };
    let r = config_request(request);
    proof {
        assert(header_views(Seq::<(String, String)>::empty()) =~= Seq::<(
            Seq<char>,
            Seq<char>,
        )>::empty());
        assert(header_views(r.headers@) =~= default_header_views());
    }
    r
}

/// Builds the POST request for `url` whose body is the already-serialized
/// JSON `json_body`: the two default headers, then
/// `Content-Type: application/json`, and the body byte for byte.
pub fn post_json(url: &str, json_body: Vec<u8>) -> (r: HttpRequest)
    ensures
        r.method == HttpMethod::Post,
        r.url@ == url@,
        header_views(r.headers@) == json_post_header_views(),
        body_view(r.body) == Some(json_body@),
{
    let request = HttpRequest {
        method: HttpMethod::Post,
        url: String::from_str(url),
        headers: Vec::new(),
        body: Some(json_body),
    };
    let mut r = config_request(request);
    r.headers.push((String::from_str("Content-Type"), String::from_str("application/json")));
    proof {
        assert(header_views(Seq::<(String, String)>::empty()) =~= Seq::<(
            Seq<char>,
            Seq<char>,
        )>::empty());
        assert(header_views(r.headers@) =~= json_post_header_views());
    }
    r
}

} // verus!
