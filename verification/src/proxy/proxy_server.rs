//! The decisions of the proxy server: which requests it answers itself, and how
//! a proxied request is checked and marked before it goes to its backend.
use crate::names::BackendName;
use crate::protocol::RouteInfo;
use crate::proxy::headers::{
    add_header, get_header_str, header_safe, header_str, headers_view, insert_header,
    remove_verified_headers, with_header, without_verified,
};
use crate::proxy::http_proxy::{request_path, ProxyResponse, SERVER_NAME};
use crate::proxy::request::{get_and_maybe_remove_bearer_token, pq_view, uri_token, uri_without_token};
use crate::proxy::rewriter::{opt_view, RequestUri};
use crate::proxy::subdomain::{subdomain_in_host, subdomain_of};
use crate::text::str_eq;
use crate::types::BearerToken;
use vstd::prelude::*;
use vstd::string::*;
use vstd::utf8::encode_utf8;

verus! {

/// The headers every response of the server carries, set over what it has.
pub open spec fn general_headers(h: Seq<(Seq<char>, Seq<u8>)>) -> Seq<(Seq<char>, Seq<u8>)> {
    let h1 = with_header(h, "access-control-allow-origin"@, encode_utf8("*"@));
    let h2 = with_header(h1, "access-control-allow-methods"@, encode_utf8("*"@));
    let h3 = with_header(h2, "access-control-allow-headers"@, encode_utf8("*"@));
    with_header(h3, "server"@, encode_utf8("Plane"@))
}

proof fn lemma_general_values_safe()
    ensures
        header_safe("*"@),
        header_safe("Plane"@),
{
    reveal_strlit("*");
    reveal_strlit("Plane");
}

/// Sets the headers every response of the server carries.
pub fn apply_general_headers(headers: &mut Vec<(String, Vec<u8>)>)
    ensures
        headers_view(final(headers)@) == general_headers(headers_view(old(headers)@)),
{
    proof {
        lemma_general_values_safe();
    }
    insert_header(headers, "access-control-allow-origin", "*");
    insert_header(headers, "access-control-allow-methods", "*");
    insert_header(headers, "access-control-allow-headers", "*");
    insert_header(headers, "server", SERVER_NAME);
}

/// An empty response with the given status and the general headers.
pub fn status_code_to_response(status: u16) -> (r: ProxyResponse)
    ensures
        r.status == status,
        r.body@.len() == 0,
        headers_view(r.headers@) == general_headers(Seq::empty()),
{
    let mut headers: Vec<(String, Vec<u8>)> = Vec::new();
    proof {
        assert(headers_view(headers@) =~= Seq::empty());
    }
    apply_general_headers(&mut headers);
    ProxyResponse { status, headers, body: String::new() }
}

/// What the server does with a request before it looks up the route.
#[derive(Debug)]
pub enum ServerStep {
    /// The server answers itself.
    Respond(ProxyResponse),
    /// The request goes to the backend its token names; the path it came with is kept.
    Forward { token: BearerToken, original_path: String },
}

/// The decision `begin_request` makes: `Ok((status, location))` for an answer
/// of the server's own (the location empty when there is none), `Err(token)`
/// to look up the route of `token`.
pub open spec fn server_decision(
    u: RequestUri,
    ready: bool,
    root_redirect_url: Option<Seq<char>>,
) -> Result<(u16, Seq<char>), Seq<char>> {
    if request_path(u) == "/ready"@ {
        Ok((if ready { 200 } else { 503 }, Seq::empty()))
    } else if request_path(u) == "/"@ {
        match root_redirect_url {
            Some(url) => Ok((301, url)),
            None => Ok((400, Seq::empty())),
        }
    } else {
        match uri_token(pq_view(u.path_and_query)) {
            Some(t) => Err(t),
            None => Ok((400, Seq::empty())),
        }
    }
}

/// Decides what to do with a request: answer `/ready`, redirect the root path
/// (or refuse it when no URL is set), refuse a path without a token, or take
/// the token out of the URI and forward the request.
pub fn begin_request(uri: &mut RequestUri, ready: bool, root_redirect_url: Option<&str>) -> (r:
    ServerStep)
    requires
        match root_redirect_url {
            Some(u) => header_safe(u@),
            None => true,
        },
    ensures
        match (r, server_decision(
            *old(uri),
            ready,
            match root_redirect_url {
                Some(u) => Some(u@),
                None => None,
            },
        )) {
            (ServerStep::Respond(resp), Ok((status, location))) => {
                &&& resp.status == status
                &&& resp.body@.len() == 0
                &&& headers_view(resp.headers@) == general_headers(
                    if location.len() == 0 {
                        Seq::empty()
                    } else {
                        seq![("location"@, encode_utf8(location))]
                    },
                )
            },
            (ServerStep::Forward { token, original_path }, Err(t)) => {
                &&& token@ == t
                &&& original_path@ == request_path(*old(uri))
                &&& pq_view(final(uri).path_and_query) == uri_without_token(
                    pq_view(old(uri).path_and_query),
                )
            },
            _ => false,
        },
        opt_view(final(uri).scheme) == opt_view(old(uri).scheme),
        opt_view(final(uri).authority) == opt_view(old(uri).authority),
{
    proof {
        reveal_strlit("/ready");
        reveal_strlit("/");
    }
    let path = request_path_text(uri);
    if str_eq(path.as_str(), "/ready") {
        return ServerStep::Respond(status_code_to_response(if ready { 200 } else { 503 }));
    }
    if str_eq(path.as_str(), "/") {
        match root_redirect_url {
            Some(url) => {
                let mut headers: Vec<(String, Vec<u8>)> = Vec::new();
                if url.unicode_len() > 0 {
                    add_header(&mut headers, "location", url);
                }
                proof {
                    assert(headers_view(headers@) =~= (if url@.len() == 0 {
                        Seq::empty()
                    } else {
                        seq![("location"@, encode_utf8(url@))]
                    }));
                }
                apply_general_headers(&mut headers);
                return ServerStep::Respond(ProxyResponse { status: 301, headers, body: String::new() });
            },
            None => return ServerStep::Respond(status_code_to_response(400)),
        }
    }
    match get_and_maybe_remove_bearer_token(&mut uri.path_and_query) {
        Some(token) => ServerStep::Forward { token, original_path: path },
        None => ServerStep::Respond(status_code_to_response(400)),
    }
}

fn request_path_text(u: &RequestUri) -> (r: String)
    ensures
        r@ == request_path(*u),
{
    proof {
        reveal_strlit("/");
    }
    match &u.path_and_query {
        Some(pq) => {
            if pq.path.unicode_len() > 0 {
                pq.path.clone()
            } else if pq.query.is_some() || u.scheme.is_some() {
                "/".to_owned()
            } else {
                String::new()
            }
        },
        None => {
            if u.scheme.is_some() {
                "/".to_owned()
            } else {
                String::new()
            }
        },
    }
}

/// The headers of a request after it is marked for its backend: the
/// headers only Plane may set that the caller sent are gone, and Plane's are added.
pub open spec fn marked_headers(
    h: Seq<(Seq<char>, Seq<u8>)>,
    route: RouteInfo,
    original_path: Seq<char>,
) -> Seq<(Seq<char>, Seq<u8>)> {
    let h0 = without_verified(h);
    let h1 = match route.user {
        Some(u) => h0.push(("x-plane-user"@, encode_utf8(u@))),
        None => h0,
    };
    let h2 = match route.user_data {
        Some(d) => h1.push(("x-plane-auth"@, encode_utf8(d@))),
        None => h1,
    };
    h2.push(("x-verified-path"@, encode_utf8(original_path))).push(
        ("x-verified-backend"@, encode_utf8(route.backend_id@)),
    ).push(("x-verified-secret"@, encode_utf8(route.secret_token@)))
}

/// Whether every value `prepare_request` puts in a header can be a header value.
pub open spec fn marked_values_safe(route: RouteInfo, original_path: Seq<char>) -> bool {
    &&& (match route.user {
        Some(u) => header_safe(u@),
        None => true,
    })
    &&& (match route.user_data {
        Some(d) => header_safe(d@),
        None => true,
    })
    &&& header_safe(original_path)
    &&& header_safe(route.backend_id@)
    &&& header_safe(route.secret_token@)
}

/// The status with which `prepare_request` refuses a request, if it does: 400
/// without a readable host header, 403 when the host is not in the route's
/// cluster or names another subdomain than the route's.
pub open spec fn prepare_refusal(h: Seq<(Seq<char>, Seq<u8>)>, route: RouteInfo) -> Option<u16> {
    match header_str(h, "host"@) {
        None => Some(400),
        Some(host) => match subdomain_of(host, route.cluster@) {
            Err(_) => Some(403),
            Ok(sub) => match route.subdomain {
                Some(s) => if sub != Some(s@) {
                    Some(403)
                } else {
                    None
                },
                None => None,
            },
        },
    }
}

/// Checks the request's host against the route and marks the request for its
/// backend; a refusal leaves the headers as they were.
pub fn prepare_request(
    headers: &mut Vec<(String, Vec<u8>)>,
    route_info: &RouteInfo,
    original_path: &str,
) -> (r: Result<(), u16>)
    requires
        marked_values_safe(*route_info, original_path@),
    ensures
        match prepare_refusal(headers_view(old(headers)@), *route_info) {
            Some(code) => r == Err::<(), u16>(code) && headers_view(final(headers)@) == headers_view(
                old(headers)@,
            ),
            None => r is Ok && headers_view(final(headers)@) == marked_headers(
                headers_view(old(headers)@),
                *route_info,
                original_path@,
            ),
        },
{
    let host = match get_header_str(headers, "host") {
        Some(h) => h,
        None => return Err(400),
    };
    let request_subdomain = match subdomain_in_host(host.as_str(), route_info.cluster.as_str()) {
        Ok(s) => s,
        Err(()) => return Err(403),
    };
    if let Some(subdomain) = &route_info.subdomain {
        let same = match request_subdomain {
            Some(s) => str_eq(s, subdomain.as_str()),
            None => false,
        };
        if !same {
            return Err(403);
        }
    }
    remove_verified_headers(headers);
    if let Some(username) = &route_info.user {
        add_header(headers, "x-plane-user", username.as_str());
    }
    if let Some(user_data) = &route_info.user_data {
        add_header(headers, "x-plane-auth", user_data.as_str());
    }
    add_header(headers, "x-verified-path", original_path);
    add_header(headers, "x-verified-backend", route_info.backend_id.as_str());
    add_header(headers, "x-verified-secret", route_info.secret_token.as_str());
    Ok(())
}

/// What the server does once the route of a forwarded request is looked up: a
/// token that names no backend is answered 410 (Gone); otherwise the request is
/// checked against the route and marked for its backend, as `prepare_request`
/// says, and a refusal is answered with its status. Every answer is empty and
/// carries the general headers; an answer leaves the headers as they were.
pub fn after_lookup(
    headers: &mut Vec<(String, Vec<u8>)>,
    route_info: Option<&RouteInfo>,
    original_path: &str,
) -> (r: Result<(), ProxyResponse>)
    requires
        match route_info {
            Some(ri) => marked_values_safe(*ri, original_path@),
            None => true,
        },
    ensures
        match r {
            Err(resp) => {
                &&& resp.body@.len() == 0
                &&& headers_view(resp.headers@) == general_headers(Seq::empty())
                &&& headers_view(final(headers)@) == headers_view(old(headers)@)
            },
            Ok(()) => true,
        },
        match route_info {
            None => r matches Err(resp) && resp.status == 410,
            Some(ri) => match prepare_refusal(headers_view(old(headers)@), *ri) {
                Some(code) => r matches Err(resp) && resp.status == code,
                None => r is Ok && headers_view(final(headers)@) == marked_headers(
                    headers_view(old(headers)@),
                    *ri,
                    original_path@,
                ),
            },
        },
{
    match route_info {
        None => Err(status_code_to_response(410)),
        Some(ri) => match prepare_request(headers, ri, original_path) {
            Ok(()) => Ok(()),
            Err(code) => Err(status_code_to_response(code)),
        },
    }
}

/// The headers of a backend's response after the server adds its own.
pub open spec fn server_response_headers(h: Seq<(Seq<char>, Seq<u8>)>, backend: Seq<char>) -> Seq<
    (Seq<char>, Seq<u8>),
> {
    with_header(general_headers(h), "x-plane-backend-id"@, encode_utf8(backend))
}

/// Adds the general headers and the backend's id to a backend's response.
pub fn finish_server_response(headers: &mut Vec<(String, Vec<u8>)>, backend_id: &BackendName)
    requires
        header_safe(backend_id@),
    ensures
        headers_view(final(headers)@) == server_response_headers(
            headers_view(old(headers)@),
            backend_id@,
        ),
{
    apply_general_headers(headers);
    insert_header(headers, "x-plane-backend-id", backend_id.as_str());
}

} // verus!

verus! {

/// Whether a header is one the server sets from the route, with the value it sets.
pub open spec fn marked_by_plane(e: (Seq<char>, Seq<u8>), route: RouteInfo, original_path: Seq<char>) -> bool {
    ||| (e.0 == "x-plane-user"@ && route.user is Some && e.1 == encode_utf8(route.user->0@))
    ||| (e.0 == "x-plane-auth"@ && route.user_data is Some && e.1 == encode_utf8(route.user_data->0@))
    ||| (e.0 == "x-verified-path"@ && e.1 == encode_utf8(original_path))
    ||| (e.0 == "x-verified-backend"@ && e.1 == encode_utf8(route.backend_id@))
    ||| (e.0 == "x-verified-secret"@ && e.1 == encode_utf8(route.secret_token@))
}

/// A caller cannot forge the headers Plane vouches for: once the server marks
/// a request, every header only Plane may set in it is one the server set from
/// the route.
pub proof fn law_marked_requests_carry_only_plane_headers(
    h: Seq<(Seq<char>, Seq<u8>)>,
    route: RouteInfo,
    original_path: Seq<char>,
    i: int,
)
    requires
        0 <= i < marked_headers(h, route, original_path).len(),
        crate::proxy::headers::is_verified_header(marked_headers(h, route, original_path)[i].0),
    ensures
        marked_by_plane(marked_headers(h, route, original_path)[i], route, original_path),
{
    let h0 = without_verified(h);
    let h1 = match route.user {
        Some(u) => h0.push(("x-plane-user"@, encode_utf8(u@))),
        None => h0,
    };
    let h2 = match route.user_data {
        Some(d) => h1.push(("x-plane-auth"@, encode_utf8(d@))),
        None => h1,
    };
    let m = marked_headers(h, route, original_path);
    if i < h0.len() {
        assert(m[i] == h0[i]);
        h.lemma_filter_pred(crate::proxy::headers::kept_header(), i);
    }
}

/// A request that reaches a subdomain backend at that subdomain of the route's
/// cluster is accepted; a request is refused with 403 only when its host is not
/// in the cluster, or names another subdomain than the route's.
pub proof fn law_own_subdomain_is_accepted(h: Seq<(Seq<char>, Seq<u8>)>, route: RouteInfo, host: Seq<char>)
    requires
        header_str(h, "host"@) == Some(host),
    ensures
        (route.subdomain matches Some(s) && subdomain_of(host, route.cluster@) == Ok::<Option<Seq<char>>, ()>(
            Some(s@),
        )) ==> prepare_refusal(h, route) is None,
        route.subdomain is None && subdomain_of(host, route.cluster@) is Ok ==> prepare_refusal(h, route) is None,
        prepare_refusal(h, route) == Some(403u16) ==> (subdomain_of(host, route.cluster@) is Err || (
        route.subdomain matches Some(s) && subdomain_of(host, route.cluster@) != Ok::<Option<Seq<char>>, ()>(
            Some(s@),
        ))),
{
}

} // verus!
