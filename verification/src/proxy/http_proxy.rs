//! What the proxy answers itself, how it checks a request against its route, and
//! how its errors read to the caller.
use crate::names::BackendName;
use crate::protocol::RouteInfo;
use crate::proxy::headers::{
    add_header, get_header_str, has_header, header_safe, header_str, headers_view, insert_header,
    is_header_safe, with_header, first_value,
};
use crate::proxy::request::{pq_view, PathAndQuery};
use crate::proxy::rewriter::{opt_view, RequestRewriter, RequestRewriterError, RequestUri};
use crate::proxy::subdomain::subdomain_of;
use crate::text::{push_char, push_str, str_eq};
use vstd::prelude::*;
use vstd::string::*;
use vstd::utf8::encode_utf8;

verus! {

/// The name the proxy gives itself in the `server` header.
pub const SERVER_NAME: &'static str = "Plane";

/// The header that tells the caller which backend answered.
pub const PLANE_BACKEND_ID_HEADER: &'static str = "x-plane-backend-id";

/// Whether `http::uri::Authority` accepts `text` as an authority.
pub uninterp spec fn authority_accepts(text: Seq<char>) -> bool;

/// Parses `text` with `http::uri::Authority::from_str` and says whether it was
/// accepted. (An accepted authority keeps the text as it was given.)
#[verifier::external_body]
fn parse_authority(text: &str) -> (r: bool)
    ensures
        r == authority_accepts(text@),
{
    text.parse::<http::uri::Authority>().is_ok()
}

/// Errors in handling a request; each reads to the caller as a status and a text.
#[derive(Clone, Debug, PartialEq, Eq)]
pub enum ProxyError {
    /// Invalid or expired connection token.
    InvalidConnectionToken,
    /// Missing `host` header.
    MissingHostHeader,
    /// Bad request.
    BadRequest,
    /// Invalid subdomain.
    InvalidSubdomain,
    /// A response could not be built.
    HttpError,
    /// The server could not bind its port (the cause, as text).
    BindError(String),
    /// A connection could not be upgraded (the cause, as text).
    UpgradeError(String),
    /// The backend could not be reached (the cause, as text, and the backend).
    RequestError(String, BackendName),
    /// An upgradable request failed (the cause, as text).
    UpgradableRequestLegacyError(String),
    /// An upgradable request failed (the cause, as text).
    UpgradableRequestError(String),
}

impl From<RequestRewriterError> for ProxyError {
    fn from(err: RequestRewriterError) -> (r: Self) {
        match err {
            RequestRewriterError::InvalidHostHeader => ProxyError::BadRequest,
        }
    }
}

impl vstd::std_specs::convert::FromSpecImpl<RequestRewriterError> for ProxyError {
    open spec fn obeys_from_spec() -> bool {
        true
    }

    open spec fn from_spec(err: RequestRewriterError) -> Self {
        ProxyError::BadRequest
    }
}

/// The status code and text an error answers with.
pub open spec fn error_status(err: ProxyError) -> (u16, Seq<char>) {
    match err {
        ProxyError::InvalidConnectionToken => (
            410,
            "The backend is no longer available or the connection token is invalid."@,
        ),
        ProxyError::MissingHostHeader => (400, "Bad request"@),
        ProxyError::InvalidSubdomain => (401, "Invalid subdomain"@),
        ProxyError::BadRequest => (400, "Bad request"@),
        ProxyError::RequestError(_, _) => (502, "Connect error"@),
        _ => (500, "Internal error"@),
    }
}

/// The status code and text an error answers with.
pub fn error_status_of(err: &ProxyError) -> (r: (u16, &'static str))
    ensures
        r.0 == error_status(*err).0,
        r.1@ == error_status(*err).1,
{
    match err {
        ProxyError::InvalidConnectionToken => (
            410,
            "The backend is no longer available or the connection token is invalid.",
        ),
        ProxyError::MissingHostHeader => (400, "Bad request"),
        ProxyError::InvalidSubdomain => (401, "Invalid subdomain"),
        ProxyError::BadRequest => (400, "Bad request"),
        ProxyError::RequestError(_, _) => (502, "Connect error"),
        _ => (500, "Internal error"),
    }
}

/// A response the proxy gives without a backend.
#[derive(Debug)]
pub struct ProxyResponse {
    pub status: u16,
    pub headers: Vec<(String, Vec<u8>)>,
    pub body: String,
}

/// The CORS headers every response the proxy makes itself starts with.
pub open spec fn cors_headers() -> Seq<(Seq<char>, Seq<u8>)> {
    seq![
        ("access-control-allow-origin"@, encode_utf8("*"@)),
        ("access-control-allow-methods"@, encode_utf8("GET, POST, PUT, DELETE, OPTIONS"@)),
        ("access-control-allow-headers"@, encode_utf8("Content-Type, Authorization"@)),
        ("access-control-allow-credentials"@, encode_utf8("true"@)),
    ]
}

proof fn lemma_cors_values_safe()
    ensures
        header_safe("*"@),
        header_safe("GET, POST, PUT, DELETE, OPTIONS"@),
        header_safe("Content-Type, Authorization"@),
        header_safe("true"@),
        header_safe("Plane"@),
{
    reveal_strlit("*");
    reveal_strlit("GET, POST, PUT, DELETE, OPTIONS");
    reveal_strlit("Content-Type, Authorization");
    reveal_strlit("true");
    reveal_strlit("Plane");
}

/// The headers a response the proxy makes itself starts with: the CORS headers.
pub fn response_builder() -> (r: Vec<(String, Vec<u8>)>)
    ensures
        headers_view(r@) == cors_headers(),
{
    proof {
        lemma_cors_values_safe();
    }
    let mut h: Vec<(String, Vec<u8>)> = Vec::new();
    add_header(&mut h, "access-control-allow-origin", "*");
    add_header(&mut h, "access-control-allow-methods", "GET, POST, PUT, DELETE, OPTIONS");
    add_header(&mut h, "access-control-allow-headers", "Content-Type, Authorization");
    add_header(&mut h, "access-control-allow-credentials", "true");
    proof {
        assert(headers_view(h@) =~= cors_headers());
    }
    h
}

/// The response an error gives: its status, the CORS and `server` headers, its text.
pub fn error_response(err: &ProxyError) -> (r: ProxyResponse)
    ensures
        r.status == error_status(*err).0,
        r.body@ == error_status(*err).1,
        headers_view(r.headers@) == cors_headers().push(("server"@, encode_utf8("Plane"@))),
{
    proof {
        lemma_cors_values_safe();
    }
    let (status, text) = error_status_of(err);
    let mut headers = response_builder();
    add_header(&mut headers, "server", SERVER_NAME);
    ProxyResponse { status, headers, body: text.to_owned() }
}

/// The path of a URI as `http` reads it: `/` for an empty path when there is a
/// query or a scheme; empty when the URI has neither a path, a query nor a scheme.
pub open spec fn request_path(u: RequestUri) -> Seq<char> {
    match pq_view(u.path_and_query) {
        Some((p, q)) => if p.len() > 0 {
            p
        } else if q is Some || u.scheme is Some {
            "/"@
        } else {
            Seq::empty()
        },
        None => if u.scheme is Some {
            "/"@
        } else {
            Seq::empty()
        },
    }
}

/// Where the HTTPS redirect points: `https://`, the host, then the path and query.
pub open spec fn https_location(host: Seq<char>, u: RequestUri) -> Seq<char> {
    "https://"@ + host + match pq_view(u.path_and_query) {
        Some((p, q)) => (if p.len() > 0 {
            p
        } else {
            "/"@
        }) + match q {
            Some(q) => seq!['?'] + q,
            None => Seq::empty(),
        },
        None => "/"@,
    }
}

/// What the proxy does with a request before looking at its token.
#[derive(Debug)]
pub enum RequestRoute {
    /// The proxy answers itself.
    Respond(ProxyResponse),
    /// The request goes on to a backend.
    Proxy,
}

/// The decision `route_request` makes, over the request and the proxy's settings:
/// `Ok(Some((status, location, body)))` for an answer of the proxy's own (the
/// location empty when there is none), `Ok(None)` to proxy.
pub open spec fn route_decision(
    u: RequestUri,
    h: Seq<(Seq<char>, Seq<u8>)>,
    connected: bool,
    https_redirect: bool,
    root_redirect_url: Option<Seq<char>>,
) -> Result<Option<(u16, Seq<char>, Seq<char>)>, ProxyError> {
    if request_path(u) == "/ready"@ {
        if connected {
            Ok(Some((200, Seq::empty(), "Plane Proxy server (ready)"@)))
        } else {
            Ok(Some((503, Seq::empty(), "Plane Proxy server (not ready)"@)))
        }
    } else if https_redirect {
        match header_str(h, "host"@) {
            None => Err(ProxyError::MissingHostHeader),
            Some(host) => if !authority_accepts(host) {
                Err(ProxyError::BadRequest)
            } else if !header_safe(https_location(host, u)) {
                Err(ProxyError::HttpError)
            } else {
                Ok(Some((301, https_location(host, u), Seq::empty())))
            },
        }
    } else if request_path(u) == "/"@ && root_redirect_url is Some {
        if header_safe(root_redirect_url->0) {
            Ok(Some((301, root_redirect_url->0, Seq::empty())))
        } else {
            Err(ProxyError::HttpError)
        }
    } else {
        Ok(None)
    }
}

/// The headers of an answer of the proxy's own.
pub open spec fn own_response_headers(location: Seq<char>) -> Seq<(Seq<char>, Seq<u8>)> {
    if location.len() == 0 {
        cors_headers().push(("server"@, encode_utf8("Plane"@)))
    } else {
        cors_headers().push(("location"@, encode_utf8(location))).push(
            ("server"@, encode_utf8("Plane"@)),
        )
    }
}

fn request_path_of(u: &RequestUri) -> (r: String)
    ensures
        r@ == request_path(*u),
{
    proof {
        reveal_strlit("/");
    }
    match &u.path_and_query {
        Some(pq) => {
            if pq.path.unicode_len() > 0 {
                pq.path.clone()
            } else if pq.query.is_some() || u.scheme.is_some() {
                "/".to_owned()
            } else {
                String::new()
            }
        },
        None => {
            if u.scheme.is_some() {
                "/".to_owned()
            } else {
                String::new()
            }
        },
    }
}

fn https_location_of(host: &str, u: &RequestUri) -> (r: String)
    ensures
        r@ == https_location(host@, *u),
{
    proof {
        reveal_strlit("/");
        reveal_strlit("https://");
    }
    let mut s = "https://".to_owned();
    push_str(&mut s, host);
    match &u.path_and_query {
        Some(pq) => {
            if pq.path.unicode_len() > 0 {
                push_str(&mut s, pq.path.as_str());
            } else {
                push_char(&mut s, '/');
            }
            if let Some(q) = &pq.query {
                push_char(&mut s, '?');
                push_str(&mut s, q.as_str());
            }
        },
        None => push_char(&mut s, '/'),
    }
    proof {
        assert(s@ =~= https_location(host@, *u));
    }
    s
}

fn own_response(status: u16, location: &str, body: &str) -> (r: ProxyResponse)
    requires
        header_safe(location@),
    ensures
        r.status == status,
        r.body@ == body@,
        headers_view(r.headers@) == own_response_headers(location@),
{
    proof {
        lemma_cors_values_safe();
    }
    let mut headers = response_builder();
    if location.unicode_len() > 0 {
        add_header(&mut headers, "location", location);
    }
    add_header(&mut headers, "server", SERVER_NAME);
    ProxyResponse { status, headers, body: body.to_owned() }
}

/// Decides what to do with a request before its token is read: answer
/// `/ready`, redirect to HTTPS when the proxy only redirects, redirect the root
/// path when a URL is set for it, or proxy it.
pub fn route_request(
    uri: &RequestUri,
    headers: &Vec<(String, Vec<u8>)>,
    connected: bool,
    https_redirect: bool,
    root_redirect_url: Option<&str>,
) -> (r: Result<RequestRoute, ProxyError>)
    ensures
        match (r, route_decision(
            *uri,
            headers_view(headers@),
            connected,
            https_redirect,
            match root_redirect_url {
                Some(u) => Some(u@),
                None => None,
            },
        )) {
            (Ok(RequestRoute::Proxy), Ok(None)) => true,
            (Ok(RequestRoute::Respond(resp)), Ok(Some((status, location, body)))) => {
                &&& resp.status == status
                &&& resp.body@ == body
                &&& headers_view(resp.headers@) == own_response_headers(location)
            },
            (Err(e), Err(d)) => e == d,
            _ => false,
        },
{
    proof {
        reveal_strlit("/ready");
        reveal_strlit("/");
        reveal_strlit("");
    }
    let path = request_path_of(uri);
    if str_eq(path.as_str(), "/ready") {
        if connected {
            return Ok(RequestRoute::Respond(own_response(200, "", "Plane Proxy server (ready)")));
        } else {
            return Ok(
                RequestRoute::Respond(own_response(503, "", "Plane Proxy server (not ready)")),
            );
        }
    }
    if https_redirect {
        let host = match get_header_str(headers, "host") {
            Some(h) => h,
            None => return Err(ProxyError::MissingHostHeader),
        };
        if !parse_authority(host.as_str()) {
            return Err(ProxyError::BadRequest);
        }
        let location = https_location_of(host.as_str(), uri);
        if !is_header_safe(location.as_str()) {
            return Err(ProxyError::HttpError);
        }
        return Ok(RequestRoute::Respond(own_response(301, location.as_str(), "")));
    }
    if str_eq(path.as_str(), "/") {
        if let Some(url) = root_redirect_url {
            if !is_header_safe(url) {
                return Err(ProxyError::HttpError);
            }
            return Ok(RequestRoute::Respond(own_response(301, url, "")));
        }
    }
    Ok(RequestRoute::Proxy)
}

/// Checks a request against the route its token names: there must be a route,
/// and the host must name the route's cluster and its subdomain.
pub fn check_route(rewriter: &RequestRewriter, route_info: Option<&RouteInfo>) -> (r: Result<
    (),
    ProxyError,
>)
    ensures
        match route_info {
            None => r == Err::<(), _>(ProxyError::InvalidConnectionToken),
            Some(route) => match header_str(headers_view(rewriter.headers@), "host"@) {
                Some(host) => match subdomain_of(host, route.cluster@) {
                    Ok(sub) => if sub == opt_view(route.subdomain) {
                        r is Ok
                    } else {
                        r == Err::<(), _>(ProxyError::InvalidSubdomain)
                    },
                    Err(_) => r == Err::<(), _>(ProxyError::InvalidSubdomain),
                },
                None => r == Err::<(), _>(ProxyError::InvalidSubdomain),
            },
        },
{
    let route = match route_info {
        Some(r) => r,
        None => return Err(ProxyError::InvalidConnectionToken),
    };
    let subdomain = match rewriter.get_subdomain(&route.cluster) {
        Ok(s) => s,
        Err(_) => return Err(ProxyError::InvalidSubdomain),
    };
    let same = match (&subdomain, &route.subdomain) {
        (Some(a), Some(b)) => str_eq(a.as_str(), b.as_str()),
        (None, None) => true,
        _ => false,
    };
    if !same {
        return Err(ProxyError::InvalidSubdomain);
    }
    Ok(())
}

/// The headers of a backend's response after the proxy adds its own: the
/// backend's id, and each CORS header the backend did not set.
pub open spec fn backend_response_headers(
    h: Seq<(Seq<char>, Seq<u8>)>,
    backend: Seq<char>,
) -> Seq<(Seq<char>, Seq<u8>)> {
    let h1 = with_header(h, "x-plane-backend-id"@, encode_utf8(backend));
    let h2 = if first_value(h1, cors_headers()[0].0) is Some {
        h1
    } else {
        with_header(h1, cors_headers()[0].0, cors_headers()[0].1)
    };
    let h3 = if first_value(h2, cors_headers()[1].0) is Some {
        h2
    } else {
        with_header(h2, cors_headers()[1].0, cors_headers()[1].1)
    };
    let h4 = if first_value(h3, cors_headers()[2].0) is Some {
        h3
    } else {
        with_header(h3, cors_headers()[2].0, cors_headers()[2].1)
    };
    if first_value(h4, cors_headers()[3].0) is Some {
        h4
    } else {
        with_header(h4, cors_headers()[3].0, cors_headers()[3].1)
    }
}

/// Adds the proxy's headers to a backend's response, as `backend_response_headers` says.
pub fn finish_backend_response(headers: &mut Vec<(String, Vec<u8>)>, backend_id: &BackendName)
    requires
        header_safe(backend_id@),
    ensures
        headers_view(final(headers)@) == backend_response_headers(
            headers_view(old(headers)@),
            backend_id@,
        ),
{
    proof {
        lemma_cors_values_safe();
    }
    insert_header(headers, PLANE_BACKEND_ID_HEADER, backend_id.as_str());
    if !has_header(headers, "access-control-allow-origin") {
        insert_header(headers, "access-control-allow-origin", "*");
    }
    if !has_header(headers, "access-control-allow-methods") {
        insert_header(headers, "access-control-allow-methods", "GET, POST, PUT, DELETE, OPTIONS");
    }
    if !has_header(headers, "access-control-allow-headers") {
        insert_header(headers, "access-control-allow-headers", "Content-Type, Authorization");
    }
    if !has_header(headers, "access-control-allow-credentials") {
        insert_header(headers, "access-control-allow-credentials", "true");
    }
}

} // verus!
