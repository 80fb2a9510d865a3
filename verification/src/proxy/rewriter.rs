//! Rewriting of proxied requests: the connection token is taken out of the URI,
//! and the headers that tell the backend who is calling are set.
use crate::protocol::RouteInfo;
use crate::proxy::headers::{
    find_header, get_header_str, header_safe, header_str, header_text, headers_view,
    insert_header, is_header_safe, is_verified_header, kept_header, other_name, remove_verified_headers, value_text, with_header,
    without_verified, first_value,
};
use crate::proxy::request::{pq_view, PathAndQuery};
use crate::proxy::subdomain::{subdomain_in_host, subdomain_of};
use crate::proxy::{ForwardableRequestInfo, Protocol};
use crate::text::{chars_of, find_char, first_index_of, push_char, push_str, starts_with};
use crate::types::{token_is_static, BearerToken, ClusterName};
use vstd::prelude::*;
use vstd::string::*;
use vstd::utf8::encode_utf8;

verus! {

#[derive(Clone, Copy, Debug, PartialEq, Eq, Structural)]
pub enum RequestRewriterError {
    /// Invalid `host` header.
    InvalidHostHeader,
}

/// The URI of a request, in its parts.
#[derive(Debug)]
pub struct RequestUri {
    pub scheme: Option<String>,
    pub authority: Option<String>,
    pub path_and_query: Option<PathAndQuery>,
}

/// A request as the proxy reads and forwards it; the body travels beside it.
#[derive(Debug)]
pub struct ProxiedRequest {
    pub uri: RequestUri,
    pub headers: Vec<(String, Vec<u8>)>,
}

/// The token and the path that follow the leading `/` of a path: the token runs
/// up to the next `/`; without one, the whole is the token and the path is `/`.
pub open spec fn rewriter_split(full: Seq<char>) -> (Seq<char>, Seq<char>) {
    match first_index_of(full, '/') {
        Some(i) => (full.subrange(0, i), full.skip(i + 1)),
        None => (full, seq!['/']),
    }
}

/// The token a path carries in its first segment, when the path starts with `/`.
pub open spec fn path_token(path: Seq<char>) -> Option<Seq<char>> {
    if starts_with(path, seq!['/']) {
        Some(rewriter_split(path.skip(1)).0)
    } else {
        None
    }
}

/// The path that is forwarded: a static token leaves it as it was, any other
/// token is taken out of it.
pub open spec fn forwarded_path(path: Seq<char>) -> Seq<char> {
    match path_token(path) {
        Some(t) => if token_is_static(t) {
            path
        } else {
            seq!['/'] + rewriter_split(path.skip(1)).1
        },
        None => path,
    }
}

/// The text of the URI that names the token's own root: scheme and authority of
/// the request, if it has them, then `/token/`.
pub open spec fn prefix_uri_text(
    scheme: Option<Seq<char>>,
    authority: Option<Seq<char>>,
    token: Seq<char>,
) -> Seq<char> {
    (match scheme {
        Some(s) => s + "://"@,
        None => Seq::empty(),
    }) + (match authority {
        Some(a) => a,
        None => Seq::empty(),
    }) + seq!['/'] + token + seq!['/']
}

pub open spec fn opt_view(o: Option<String>) -> Option<Seq<char>> {
    match o {
        Some(s) => Some(s@),
        None => None,
    }
}

/// The value of `x-forwarded-for` after this hop: the earlier value (or empty
/// text, when it does not read as text), a comma, and the caller's address; or
/// the address alone.
pub open spec fn forwarded_for(h: Seq<(Seq<char>, Seq<u8>)>, ip: Seq<char>) -> Seq<char> {
    match first_value(h, "x-forwarded-for"@) {
        Some(v) => (match header_text(v) {
            Some(t) => t,
            None => Seq::empty(),
        }) + ", "@ + ip,
        None => ip,
    }
}

/// The user data header's text: the JSON of the user data, `null` when there is none.
pub open spec fn user_data_json(user_data: Option<Seq<char>>) -> Seq<char> {
    match user_data {
        Some(t) => t,
        None => "null"@,
    }
}

/// The headers after the rewriter sets them from the route: the headers only
/// Plane may set that the caller sent are gone; the ones Plane vouches for are
/// set (the user as `x-plane-user`, the auth data as `x-plane-auth`, and the
/// `x-verified-*` ones); and the forwarding headers record this hop.
pub open spec fn route_headers(
    h: Seq<(Seq<char>, Seq<u8>)>,
    route: RouteInfo,
    prefix: Seq<char>,
    meta: ForwardableRequestInfo,
) -> Seq<(Seq<char>, Seq<u8>)> {
    let h0 = without_verified(h);
    let h1 = match route.user {
        Some(u) => with_header(h0, "x-plane-user"@, encode_utf8(u@)),
        None => h0,
    };
    let h2 = with_header(h1, "x-forwarded-for"@, encode_utf8(forwarded_for(h1, meta.ip@)));
    let h3 = if first_value(h2, "x-forwarded-proto"@) is None {
        with_header(h2, "x-forwarded-proto"@, encode_utf8(protocol_name(meta.protocol)))
    } else {
        h2
    };
    let h4 = with_header(h3, "x-verified-secret"@, encode_utf8(route.secret_token@));
    let h5 = with_header(
        h4,
        "x-plane-auth"@,
        encode_utf8(user_data_json(opt_view(route.user_data))),
    );
    let h6 = with_header(h5, "x-verified-path"@, encode_utf8(prefix));
    with_header(h6, "x-verified-backend"@, encode_utf8(route.backend_id@))
}

pub open spec fn protocol_name(p: Protocol) -> Seq<char> {
    match p {
        Protocol::Http => "http"@,
        Protocol::Https => "https"@,
    }
}

/// Whether every value the route puts in a header can be a header value.
pub open spec fn route_values_safe(route: RouteInfo, prefix: Seq<char>, ip: Seq<char>) -> bool {
    &&& (match route.user {
        Some(u) => header_safe(u@),
        None => true,
    })
    &&& header_safe(ip)
    &&& header_safe(route.secret_token@)
    &&& header_safe(user_data_json(opt_view(route.user_data)))
    &&& header_safe(prefix)
    &&& header_safe(route.backend_id@)
}

/// Whether every value the route puts in a header can be a header value.
pub fn route_values_are_safe(route: &RouteInfo, prefix: &str, ip: &str) -> (r: bool)
    ensures
        r == route_values_safe(*route, prefix@, ip@),
{
    proof {
        reveal_strlit("null");
    }
    let user_ok = match &route.user {
        Some(u) => is_header_safe(u.as_str()),
        None => true,
    };
    let data_ok = match &route.user_data {
        Some(t) => is_header_safe(t.as_str()),
        None => is_header_safe("null"),
    };
    user_ok && is_header_safe(ip) && is_header_safe(route.secret_token.as_str()) && data_ok
        && is_header_safe(prefix) && is_header_safe(route.backend_id.as_str())
}

/// Sets the headers the backend relies on from the route, as `route_headers` says.
pub fn set_headers_from_route_info(
    headers: &mut Vec<(String, Vec<u8>)>,
    route_info: &RouteInfo,
    prefix_uri: &str,
    remote_meta: &ForwardableRequestInfo,
)
    requires
        route_values_safe(*route_info, prefix_uri@, remote_meta.ip@),
    ensures
        headers_view(final(headers)@) == route_headers(
            headers_view(old(headers)@),
            *route_info,
            prefix_uri@,
            *remote_meta,
        ),
{
    proof {
        reveal_strlit("null");
        reveal_strlit(", ");
        reveal_strlit("http");
        reveal_strlit("https");
    }
    remove_verified_headers(headers);
    if let Some(user) = &route_info.user {
        insert_header(headers, "x-plane-user", user.as_str());
    }
    let ghost h1 = headers_view(headers@);
    let forwards = match find_header(headers, "x-forwarded-for") {
        Some(i) => {
            let mut f = match value_text(headers[i].1.as_slice()) {
                Some(t) => t,
                None => String::new(),
            };
            push_str(&mut f, ", ");
            push_str(&mut f, remote_meta.ip.as_str());
            f
        },
        None => remote_meta.ip.clone(),
    };
    proof {
        assert(forwards@ == forwarded_for(h1, remote_meta.ip@));
        assert(header_safe(forwards@)) by {
            if let Some(v) = first_value(h1, "x-forwarded-for"@) {
                if let Some(t) = header_text(v) {
                    assert forall|j: int| 0 <= j < t.len() implies #[trigger] t[j] == '\t' || (t[j] as int
                        >= 32 && t[j] as int != 127) by {
                        assert(crate::proxy::headers::is_visible_byte(v[j]));
                    }
                }
                let pre = match header_text(v) {
                    Some(t) => t,
                    None => Seq::<char>::empty(),
                };
                assert forall|j: int| 0 <= j < forwards@.len() implies #[trigger] forwards@[j] == '\t' || (
                forwards@[j] as int >= 32 && forwards@[j] as int != 127) by {
                    if j < pre.len() {
                        assert(forwards@[j] == pre[j]);
                    } else if j < pre.len() + 2 {
                        assert(forwards@[j] == ", "@[j - pre.len()]);
                    } else {
                        assert(forwards@[j] == remote_meta.ip@[j - pre.len() - 2]);
                    }
                }
            }
        }
    }
    insert_header(headers, "x-forwarded-for", forwards.as_str());
    if find_header(headers, "x-forwarded-proto").is_none() {
        insert_header(headers, "x-forwarded-proto", remote_meta.protocol.as_str());
    }
    insert_header(headers, "x-verified-secret", route_info.secret_token.as_str());
    match &route_info.user_data {
        Some(t) => insert_header(headers, "x-plane-auth", t.as_str()),
        None => insert_header(headers, "x-plane-auth", "null"),
    }
    insert_header(headers, "x-verified-path", prefix_uri);
    insert_header(headers, "x-verified-backend", route_info.backend_id.as_str());
}

} // verus!

verus! {

/// A character in lowercase, as ASCII lowercases it.
pub open spec fn ascii_lower(c: char) -> char {
    if 'A' <= c && c <= 'Z' {
        ((c as int) + 32) as char
    } else {
        c
    }
}

/// A text in lowercase, as ASCII lowercases it.
pub open spec fn lowercase(s: Seq<char>) -> Seq<char> {
    s.map_values(|c: char| ascii_lower(c))
}

/// The pieces of a text between its commas, in order (one piece when there is no comma).
pub open spec fn comma_pieces(s: Seq<char>) -> Seq<Seq<char>>
    decreases s.len(),
{
    if s.len() == 0 {
        seq![Seq::empty()]
    } else {
        let p = comma_pieces(s.drop_last());
        if s.last() == ',' {
            p.push(Seq::empty())
        } else {
            p.update(p.len() - 1, p.last().push(s.last()))
        }
    }
}

/// The whitespace that trimming removes from a header's text.
pub open spec fn is_trim_space(c: char) -> bool {
    c == ' ' || c == '\t' || c == '\n' || c == '\r' || c == '\x0b' || c == '\x0c'
}

pub open spec fn trim_start(s: Seq<char>) -> Seq<char>
    decreases s.len(),
{
    if s.len() > 0 && is_trim_space(s[0]) {
        trim_start(s.drop_first())
    } else {
        s
    }
}

pub open spec fn trim_end(s: Seq<char>) -> Seq<char>
    decreases s.len(),
{
    if s.len() > 0 && is_trim_space(s.last()) {
        trim_end(s.drop_last())
    } else {
        s
    }
}

/// A text without the whitespace at its ends.
pub open spec fn trim(s: Seq<char>) -> Seq<char> {
    trim_end(trim_start(s))
}

/// Whether a `connection` header's text asks for an upgrade: one of its
/// comma-separated pieces is `upgrade`, in any case and with any spaces around it.
pub open spec fn connection_upgrade(text: Seq<char>) -> bool {
    exists|k: int|
        0 <= k < comma_pieces(lowercase(text)).len() && #[trigger] trim(
            comma_pieces(lowercase(text))[k],
        ) == "upgrade"@
}

/// Whether the headers ask for the connection to be upgraded.
pub open spec fn wants_upgrade(h: Seq<(Seq<char>, Seq<u8>)>) -> bool {
    match header_str(h, "connection"@) {
        Some(t) => connection_upgrade(t),
        None => false,
    }
}

proof fn lemma_comma_pieces_len(s: Seq<char>)
    ensures
        comma_pieces(s).len() >= 1,
    decreases s.len(),
{
    if s.len() > 0 {
        lemma_comma_pieces_len(s.drop_last());
    }
}

/// Whether `p`, without the whitespace at its ends, is `upgrade`.
fn trimmed_is_upgrade(p: &[char]) -> (r: bool)
    ensures
        r == (trim(p@) == "upgrade"@),
{
    let n = p.len();
    let mut a: usize = 0;
    proof {
        assert(p@.subrange(0, n as int) =~= p@);
    }
    while a < n && (p[a] == ' ' || p[a] == '\t' || p[a] == '\n' || p[a] == '\r' || p[a] == '\x0b'
        || p[a] == '\x0c')
        invariant
            n == p@.len(),
            a <= n,
            trim_start(p@) == trim_start(p@.subrange(a as int, n as int)),
        decreases n - a,
    {
        proof {
            assert(p@.subrange(a as int, n as int).drop_first() =~= p@.subrange(a + 1, n as int));
        }
        a = a + 1;
    }
    proof {
        assert(trim_start(p@) == p@.subrange(a as int, n as int));
    }
    let mut b: usize = n;
    while b > a && (p[b - 1] == ' ' || p[b - 1] == '\t' || p[b - 1] == '\n' || p[b - 1] == '\r'
        || p[b - 1] == '\x0b' || p[b - 1] == '\x0c')
        invariant
            n == p@.len(),
            a <= b <= n,
            trim_end(p@.subrange(a as int, n as int)) == trim_end(p@.subrange(a as int, b as int)),
        decreases b - a,
    {
        proof {
            assert(p@.subrange(a as int, b as int).drop_last() =~= p@.subrange(a as int, b - 1));
        }
        b = b - 1;
    }
    proof {
        assert(trim(p@) == p@.subrange(a as int, b as int));
        reveal_strlit("upgrade");
    }
    let word = chars_of("upgrade");
    if b - a != word.len() {
        proof {
            assert(p@.subrange(a as int, b as int).len() != "upgrade"@.len());
        }
        return false;
    }
    let mut i: usize = 0;
    while i < word.len()
        invariant
            word@ == "upgrade"@,
            trim(p@) == p@.subrange(a as int, b as int),
            a + word.len() == b,
            b <= n,
            n == p@.len(),
            i <= word.len(),
            forall|j: int| 0 <= j < i ==> p@[a + j] == word@[j],
        decreases word.len() - i,
    {
        if p[a + i] != word[i] {
            proof {
                assert(p@.subrange(a as int, b as int)[i as int] != word@[i as int]);
            }
            return false;
        }
        i = i + 1;
    }
    proof {
        assert(p@.subrange(a as int, b as int) =~= word@);
    }
    true
}

/// Whether a `connection` header's text asks for an upgrade, as `connection_upgrade` says.
pub fn connection_has_upgrade(text: &str) -> (r: bool)
    ensures
        r == connection_upgrade(text@),
{
    let c = chars_of(text);
    let ghost low = lowercase(text@);
    let mut cur: Vec<char> = Vec::new();
    let mut found = false;
    let mut i: usize = 0;
    proof {
        assert(low.take(0) =~= Seq::<char>::empty());
    }
    while i < c.len()
        invariant
            c@ == text@,
            low == lowercase(text@),
            i <= c.len(),
            comma_pieces(low.take(i as int)).last() == cur@,
            comma_pieces(low.take(i as int)).len() >= 1,
            found == exists|k: int|
                0 <= k < comma_pieces(low.take(i as int)).len() - 1 && #[trigger] trim(
                    comma_pieces(low.take(i as int))[k],
                ) == "upgrade"@,
        decreases c.len() - i,
    {
        let ch = c[i];
        let lc = if 'A' <= ch && ch <= 'Z' {
            ((ch as u8) + 32) as char
        } else {
            ch
        };
        let ghost before = comma_pieces(low.take(i as int));
        proof {
            assert(low.take(i + 1).drop_last() =~= low.take(i as int));
            assert(low.take(i + 1).last() == low[i as int]);
            assert(low[i as int] == ascii_lower(text@[i as int]));
            assert(lc == low[i as int]);
        }
        if lc == ',' {
            let done = trimmed_is_upgrade(cur.as_slice());
            proof {
                let after = comma_pieces(low.take(i + 1));
                assert(after == before.push(Seq::empty()));
                if found {
                    let k = choose|k: int|
                        0 <= k < before.len() - 1 && #[trigger] trim(before[k]) == "upgrade"@;
                    assert(after[k] == before[k]);
                }
                if done {
                    assert(after[before.len() - 1] == before.last());
                }
                if exists|k: int| 0 <= k < after.len() - 1 && #[trigger] trim(after[k]) == "upgrade"@ {
                    let k = choose|k: int| 0 <= k < after.len() - 1 && #[trigger] trim(after[k]) == "upgrade"@;
                    if k < before.len() - 1 {
                        assert(after[k] == before[k]);
                    }
                }
            }
            found = found || done;
            cur = Vec::new();
            proof {
                assert(comma_pieces(low.take(i + 1)).last() =~= cur@);
            }
        } else {
            cur.push(lc);
            proof {
                let after = comma_pieces(low.take(i + 1));
                assert(after == before.update(before.len() - 1, before.last().push(lc)));
                assert forall|k: int| 0 <= k < after.len() - 1 implies after[k] == before[k] by {}
            }
        }
        i = i + 1;
    }
    let last = trimmed_is_upgrade(cur.as_slice());
    proof {
        assert(low.take(c.len() as int) =~= low);
        let ps = comma_pieces(low);
        if last {
            assert(trim(ps[ps.len() - 1]) == "upgrade"@);
        }
        if found {
            let k = choose|k: int| 0 <= k < ps.len() - 1 && #[trigger] trim(ps[k]) == "upgrade"@;
            assert(trim(ps[k]) == "upgrade"@);
        }
    }
    found || last
}

/// Whether the headers ask for the connection to be upgraded: the first
/// `connection` header reads as text and names `upgrade` among its pieces.
pub fn should_upgrade_headers(headers: &Vec<(String, Vec<u8>)>) -> (r: bool)
    ensures
        r == wants_upgrade(headers_view(headers@)),
{
    match get_header_str(headers, "connection") {
        Some(t) => connection_has_upgrade(t.as_str()),
        None => false,
    }
}

} // verus!

verus! {

/// The parts of a URI, as character sequences.
pub open spec fn uri_view(u: RequestUri) -> (
    Option<Seq<char>>,
    Option<Seq<char>>,
    Option<(Seq<char>, Option<Seq<char>>)>,
) {
    (opt_view(u.scheme), opt_view(u.authority), pq_view(u.path_and_query))
}

/// Takes the connection token out of the path and returns it; `None` when the
/// path does not start with `/`. A static token leaves the path as it was.
pub fn extract_bearer_token(path_and_query: &mut Option<PathAndQuery>) -> (r: Option<BearerToken>)
    requires
        *old(path_and_query) is Some,
    ensures
        match r {
            Some(t) => path_token(old(path_and_query).unwrap().path@) == Some(t@),
            None => path_token(old(path_and_query).unwrap().path@) is None,
        },
        *final(path_and_query) is Some,
        final(path_and_query).unwrap().path@ == (match r {
            Some(_) => forwarded_path(old(path_and_query).unwrap().path@),
            None => old(path_and_query).unwrap().path@,
        }),
        opt_view(final(path_and_query).unwrap().query) == opt_view(old(path_and_query).unwrap().query),
{
    let path_s: String = match path_and_query {
        Some(pq) => pq.path.clone(),
        None => String::new(),
    };
    let path = path_s.as_str();
    let chars = chars_of(path);
    if chars.len() == 0 || chars[0] != '/' {
        proof {
            assert(!starts_with(path@, seq!['/'])) by {
                if chars@.len() > 0 {
                    assert(path@.subrange(0, 1)[0] == path@[0]);
                }
            }
        }
        return None;
    }
    let full_path = path.substring_char(1, chars.len());
    let full_chars = chars_of(full_path);
    let token_str = match find_char(full_chars.as_slice(), '/') {
        Some(i) => full_path.substring_char(0, i),
        None => full_path,
    };
    let mut new_path = String::new();
    push_char(&mut new_path, '/');
    match find_char(full_chars.as_slice(), '/') {
        Some(i) => push_str(&mut new_path, full_path.substring_char(i + 1, full_chars.len())),
        None => push_char(&mut new_path, '/'),
    }
    proof {
        assert(path@.subrange(0, 1) =~= seq!['/']);
        assert(full_path@ == path@.skip(1));
        assert(token_str@ == rewriter_split(path@.skip(1)).0);
        assert(new_path@ =~= seq!['/'] + rewriter_split(path@.skip(1)).1);
    }
    let token = BearerToken::from_string(token_str.to_owned());
    if token.is_static() {
        return Some(token);
    }
    match path_and_query {
        Some(pq) => {
            pq.path = new_path;
        },
        None => {},
    }
    Some(token)
}

/// A request on its way to a backend: the token is out of its URI, and it knows
/// where the token's own root is.
#[derive(Debug)]
pub struct RequestRewriter {
    pub uri: RequestUri,
    pub headers: Vec<(String, Vec<u8>)>,
    pub bearer_token: BearerToken,
    /// The URI of the token's root, `/token/` behind the request's scheme and authority.
    pub prefix_uri: String,
    pub remote_meta: ForwardableRequestInfo,
}

impl RequestRewriter {
    /// Reads the connection token out of the request's path; `None` when the
    /// path does not start with `/`. The forwarded URI is `http` and, unless the
    /// token is static, lacks the token.
    pub fn new(request: ProxiedRequest, remote_meta: ForwardableRequestInfo) -> (r: Option<Self>)
        requires
            request.uri.path_and_query is Some,
            request.uri.scheme is Some ==> request.uri.authority is Some,
        ensures
            match r {
                Some(rw) => {
                    let path = request.uri.path_and_query->0.path@;
                    &&& path_token(path) == Some(rw.bearer_token@)
                    &&& opt_view(rw.uri.scheme) == Some("http"@)
                    &&& opt_view(rw.uri.authority) == opt_view(request.uri.authority)
                    &&& rw.uri.path_and_query is Some
                    &&& rw.uri.path_and_query->0.path@ == forwarded_path(path)
                    &&& opt_view(rw.uri.path_and_query->0.query) == opt_view(
                        request.uri.path_and_query->0.query,
                    )
                    &&& headers_view(rw.headers@) == headers_view(request.headers@)
                    &&& rw.prefix_uri@ == prefix_uri_text(
                        opt_view(request.uri.scheme),
                        opt_view(request.uri.authority),
                        rw.bearer_token@,
                    )
                    &&& rw.remote_meta == remote_meta
                },
                None => path_token(request.uri.path_and_query->0.path@) is None,
            },
    {
        proof {
            reveal_strlit("http");
            reveal_strlit("://");
        }
        let ProxiedRequest { uri, headers } = request;
        let RequestUri { scheme, authority, path_and_query } = uri;
        let mut pq = path_and_query;
        let token = match extract_bearer_token(&mut pq) {
            Some(t) => t,
            None => return None,
        };
        let mut prefix = String::new();
        if let Some(s) = &scheme {
            push_str(&mut prefix, s.as_str());
            push_str(&mut prefix, "://");
        }
        if let Some(a) = &authority {
            push_str(&mut prefix, a.as_str());
        }
        push_char(&mut prefix, '/');
        push_str(&mut prefix, token.as_str());
        push_char(&mut prefix, '/');
        proof {
            assert(prefix@ =~= prefix_uri_text(opt_view(scheme), opt_view(authority), token@));
        }
        Some(RequestRewriter {
            uri: RequestUri { scheme: Some("http".to_owned()), authority, path_and_query: pq },
            headers,
            bearer_token: token,
            prefix_uri: prefix,
            remote_meta,
        })
    }

    /// Points the request at the backend, given as `host:port`.
    pub fn set_authority(&mut self, authority: String)
        ensures
            opt_view(final(self).uri.authority) == Some(authority@),
            opt_view(final(self).uri.scheme) == opt_view(old(self).uri.scheme),
            pq_view(final(self).uri.path_and_query) == pq_view(old(self).uri.path_and_query),
            headers_view(final(self).headers@) == headers_view(old(self).headers@),
            final(self).bearer_token@ == old(self).bearer_token@,
            final(self).prefix_uri@ == old(self).prefix_uri@,
            final(self).remote_meta == old(self).remote_meta,
    {
        self.uri.authority = Some(authority);
    }

    pub fn bearer_token(&self) -> (r: &BearerToken)
        ensures
            r@ == self.bearer_token@,
    {
        &self.bearer_token
    }

    /// The subdomain the host header names under `cluster`; an error when there
    /// is no host header, it does not read as text, or it is not in the cluster.
    pub fn get_subdomain(&self, cluster: &ClusterName) -> (r: Result<Option<String>, RequestRewriterError>)
        ensures
            match header_str(headers_view(self.headers@), "host"@) {
                Some(host) => match (r, subdomain_of(host, cluster@)) {
                    (Ok(Some(s)), Ok(Some(v))) => s@ == v,
                    (Ok(None), Ok(None)) => true,
                    (Err(e), Err(_)) => e == RequestRewriterError::InvalidHostHeader,
                    _ => false,
                },
                None => r == Err::<Option<String>, _>(RequestRewriterError::InvalidHostHeader),
            },
    {
        let host = match get_header_str(&self.headers, "host") {
            Some(h) => h,
            None => return Err(RequestRewriterError::InvalidHostHeader),
        };
        match subdomain_in_host(host.as_str(), cluster.as_str()) {
            Ok(Some(s)) => Ok(Some(s.to_owned())),
            Ok(None) => Ok(None),
            Err(()) => Err(RequestRewriterError::InvalidHostHeader),
        }
    }

    /// Whether the request asks for its connection to be upgraded.
    pub fn should_upgrade(&self) -> (r: bool)
        ensures
            r == wants_upgrade(headers_view(self.headers@)),
    {
        should_upgrade_headers(&self.headers)
    }

    /// The request to send to the backend, with the headers set from the route.
    pub fn into_request(self, route_info: &RouteInfo) -> (r: ProxiedRequest)
        requires
            self.uri.authority is Some,
            route_values_safe(*route_info, self.prefix_uri@, self.remote_meta.ip@),
        ensures
            uri_view(r.uri) == uri_view(self.uri),
            headers_view(r.headers@) == route_headers(
                headers_view(self.headers@),
                *route_info,
                self.prefix_uri@,
                self.remote_meta,
            ),
    {
        let RequestRewriter { uri, mut headers, prefix_uri, remote_meta, .. } = self;
        set_headers_from_route_info(&mut headers, route_info, prefix_uri.as_str(), &remote_meta);
        ProxiedRequest { uri, headers }
    }

    /// For an upgrade: the request kept on this side (its headers as they came)
    /// and a copy to send to the backend, with the headers set from the route.
    pub fn into_request_pair(self, route_info: &RouteInfo) -> (r: (ProxiedRequest, ProxiedRequest))
        requires
            self.uri.authority is Some,
            route_values_safe(*route_info, self.prefix_uri@, self.remote_meta.ip@),
        ensures
            uri_view(r.0.uri) == uri_view(self.uri),
            headers_view(r.0.headers@) == headers_view(self.headers@),
            uri_view(r.1.uri) == uri_view(self.uri),
            headers_view(r.1.headers@) == route_headers(
                headers_view(self.headers@),
                *route_info,
                self.prefix_uri@,
                self.remote_meta,
            ),
    {
        let RequestRewriter { uri, headers, prefix_uri, remote_meta, .. } = self;
        let mut copied = clone_headers(&headers);
        set_headers_from_route_info(&mut copied, route_info, prefix_uri.as_str(), &remote_meta);
        let copy_uri = clone_uri(&uri);
        (ProxiedRequest { uri, headers }, ProxiedRequest { uri: copy_uri, headers: copied })
    }
}

/// A copy of a header list.
pub fn clone_headers(h: &Vec<(String, Vec<u8>)>) -> (r: Vec<(String, Vec<u8>)>)
    ensures
        headers_view(r@) == headers_view(h@),
{
    let mut r: Vec<(String, Vec<u8>)> = Vec::new();
    let mut i: usize = 0;
    while i < h.len()
        invariant
            i <= h@.len(),
            headers_view(r@) == headers_view(h@).take(i as int),
        decreases h@.len() - i,
    {
        let name = h[i].0.clone();
        let value = h[i].1.clone();
        proof {
            assert(value@ =~= h@[i as int].1@);
        }
        let ghost before = r@;
        r.push((name, value));
        proof {
            assert(r@.drop_last() =~= before);
            assert(headers_view(r@) =~= headers_view(before).push(headers_view(h@)[i as int]));
            assert(headers_view(h@).take(i + 1) =~= headers_view(h@).take(i as int).push(headers_view(h@)[i as int]));
            assert(headers_view(r@) =~= headers_view(h@).take(i + 1));
        }
        i = i + 1;
    }
    proof {
        assert(headers_view(h@).take(h@.len() as int) =~= headers_view(h@));
    }
    r
}

fn clone_opt_string(s: &Option<String>) -> (r: Option<String>)
    ensures
        opt_view(r) == opt_view(*s),
{
    match s {
        Some(t) => Some(t.clone()),
        None => None,
    }
}

/// A copy of a URI.
pub fn clone_uri(u: &RequestUri) -> (r: RequestUri)
    ensures
        uri_view(r) == uri_view(*u),
{
    RequestUri {
        scheme: clone_opt_string(&u.scheme),
        authority: clone_opt_string(&u.authority),
        path_and_query: match &u.path_and_query {
            Some(pq) => Some(PathAndQuery { path: pq.path.clone(), query: clone_opt_string(&pq.query) }),
            None => None,
        },
    }
}

} // verus!

verus! {

/// Whether a header is one Plane sets from the route, with the value it sets.
pub open spec fn set_by_plane(e: (Seq<char>, Seq<u8>), route: RouteInfo, prefix: Seq<char>) -> bool {
    ||| (e.0 == "x-plane-user"@ && route.user is Some && e.1 == encode_utf8(route.user->0@))
    ||| (e.0 == "x-verified-secret"@ && e.1 == encode_utf8(route.secret_token@))
    ||| (e.0 == "x-plane-auth"@ && e.1 == encode_utf8(user_data_json(opt_view(route.user_data))))
    ||| (e.0 == "x-verified-path"@ && e.1 == encode_utf8(prefix))
    ||| (e.0 == "x-verified-backend"@ && e.1 == encode_utf8(route.backend_id@))
}

/// Whether every header only Plane may set in `s` is one Plane set from the route.
pub open spec fn only_plane_verified(s: Seq<(Seq<char>, Seq<u8>)>, route: RouteInfo, prefix: Seq<char>) -> bool {
    forall|i: int| 0 <= i < s.len() && is_verified_header(#[trigger] s[i].0) ==> set_by_plane(s[i], route, prefix)
}

proof fn lemma_filter_members<A>(s: Seq<A>, p: spec_fn(A) -> bool, i: int)
    requires
        0 <= i < s.filter(p).len(),
    ensures
        s.contains(s.filter(p)[i]),
    decreases s.len(),
{
    reveal(Seq::filter);
    if s.len() > 0 {
        let rest = s.drop_last().filter(p);
        if i < rest.len() {
            assert(s.filter(p)[i] == rest[i]);
            lemma_filter_members(s.drop_last(), p, i);
            let j = choose|j: int| 0 <= j < s.drop_last().len() && s.drop_last()[j] == rest[i];
            assert(s[j] == rest[i]);
        } else {
            assert(s.filter(p)[i] == s.last());
            assert(s[s.len() - 1] == s.last());
        }
    }
}

proof fn lemma_with_header_keeps(
    s: Seq<(Seq<char>, Seq<u8>)>,
    n: Seq<char>,
    v: Seq<u8>,
    route: RouteInfo,
    prefix: Seq<char>,
)
    requires
        only_plane_verified(s, route, prefix),
        is_verified_header(n) ==> set_by_plane((n, v), route, prefix),
    ensures
        only_plane_verified(with_header(s, n, v), route, prefix),
{
    let w = with_header(s, n, v);
    let f = s.filter(other_name(n));
    assert forall|i: int| 0 <= i < w.len() && is_verified_header(#[trigger] w[i].0) implies set_by_plane(w[i], route, prefix) by {
        if i < f.len() {
            assert(w[i] == f[i]);
            lemma_filter_members(s, other_name(n), i);
            let j = choose|j: int| 0 <= j < s.len() && s[j] == f[i];
            assert(is_verified_header(s[j].0));
        }
    }
}

/// A caller cannot forge the headers Plane vouches for: after the rewriter sets
/// the headers from the route, every header only Plane may set that the backend
/// sees is one Plane set, with the value the route gives it.
pub proof fn law_caller_cannot_forge_verified_headers(
    h: Seq<(Seq<char>, Seq<u8>)>,
    route: RouteInfo,
    prefix: Seq<char>,
    meta: ForwardableRequestInfo,
)
    ensures
        only_plane_verified(route_headers(h, route, prefix, meta), route, prefix),
{
    reveal_strlit("x-verified-");
    reveal_strlit("x-forwarded-for");
    reveal_strlit("x-forwarded-proto");
    reveal_strlit("x-plane-user");
    reveal_strlit("x-plane-auth");
    assert("x-plane-user"@.len() == 12 && "x-plane-auth"@.len() == 12);
    assert("x-forwarded-for"@.len() == 15 && "x-forwarded-proto"@.len() == 17);
    let h0 = without_verified(h);
    assert forall|i: int| 0 <= i < h0.len() && is_verified_header(#[trigger] h0[i].0) implies set_by_plane(h0[i], route, prefix) by {
        h.lemma_filter_pred(kept_header(), i);
    }
    let h1 = match route.user {
        Some(u) => with_header(h0, "x-plane-user"@, encode_utf8(u@)),
        None => h0,
    };
    if let Some(u) = route.user {
        lemma_with_header_keeps(h0, "x-plane-user"@, encode_utf8(u@), route, prefix);
    }
    assert(!is_verified_header("x-forwarded-for"@)) by {
        assert("x-forwarded-for"@.subrange(0, 11)[2] != "x-verified-"@[2]);
    }
    assert(!is_verified_header("x-forwarded-proto"@)) by {
        assert("x-forwarded-proto"@.subrange(0, 11)[2] != "x-verified-"@[2]);
    }
    let h2 = with_header(h1, "x-forwarded-for"@, encode_utf8(forwarded_for(h1, meta.ip@)));
    lemma_with_header_keeps(h1, "x-forwarded-for"@, encode_utf8(forwarded_for(h1, meta.ip@)), route, prefix);
    let h3 = if first_value(h2, "x-forwarded-proto"@) is None {
        with_header(h2, "x-forwarded-proto"@, encode_utf8(protocol_name(meta.protocol)))
    } else {
        h2
    };
    if first_value(h2, "x-forwarded-proto"@) is None {
        lemma_with_header_keeps(h2, "x-forwarded-proto"@, encode_utf8(protocol_name(meta.protocol)), route, prefix);
    }
    let h4 = with_header(h3, "x-verified-secret"@, encode_utf8(route.secret_token@));
    lemma_with_header_keeps(h3, "x-verified-secret"@, encode_utf8(route.secret_token@), route, prefix);
    let d = encode_utf8(user_data_json(opt_view(route.user_data)));
    let h5 = with_header(h4, "x-plane-auth"@, d);
    lemma_with_header_keeps(h4, "x-plane-auth"@, d, route, prefix);
    let h6 = with_header(h5, "x-verified-path"@, encode_utf8(prefix));
    lemma_with_header_keeps(h5, "x-verified-path"@, encode_utf8(prefix), route, prefix);
    lemma_with_header_keeps(h6, "x-verified-backend"@, encode_utf8(route.backend_id@), route, prefix);
}

} // verus!

verus! {

/// No header in `s` is named `n`.
pub open spec fn lacks_header(s: Seq<(Seq<char>, Seq<u8>)>, n: Seq<char>) -> bool {
    forall|i: int| 0 <= i < s.len() ==> #[trigger] s[i].0 != n
}

/// Every header in `s` named `n` has the value `v`, and there is one.
pub open spec fn only_value(s: Seq<(Seq<char>, Seq<u8>)>, n: Seq<char>, v: Seq<u8>) -> bool {
    &&& s.contains((n, v))
    &&& forall|i: int| 0 <= i < s.len() && #[trigger] s[i].0 == n ==> s[i].1 == v
}

/// Every entry of `with_header(s, n, v)` is the new one, or one of `s` not named `n`.
proof fn lemma_with_header_entries(s: Seq<(Seq<char>, Seq<u8>)>, n: Seq<char>, v: Seq<u8>)
    ensures
        with_header(s, n, v).contains((n, v)),
        forall|i: int| 0 <= i < with_header(s, n, v).len() ==> #[trigger] with_header(s, n, v)[i] == (n, v) || (
        with_header(s, n, v)[i].0 != n && s.contains(with_header(s, n, v)[i])),
{
    let w = with_header(s, n, v);
    let f = s.filter(other_name(n));
    assert(w[f.len() as int] == (n, v));
    assert forall|i: int| 0 <= i < w.len() implies #[trigger] w[i] == (n, v) || (w[i].0 != n && s.contains(w[i])) by {
        if i < f.len() {
            assert(w[i] == f[i]);
            s.lemma_filter_pred(other_name(n), i);
            lemma_filter_members(s, other_name(n), i);
        }
    }
}

/// Setting a header of another name keeps what `lacks_header` and `only_value`
/// say of `m`.
proof fn lemma_other_header_keeps(s: Seq<(Seq<char>, Seq<u8>)>, n: Seq<char>, val: Seq<u8>, m: Seq<char>, v: Seq<u8>)
    requires
        n != m,
    ensures
        lacks_header(s, m) ==> lacks_header(with_header(s, n, val), m),
        only_value(s, m, v) ==> only_value(with_header(s, n, val), m, v),
{
    let w = with_header(s, n, val);
    lemma_with_header_entries(s, n, val);
    if lacks_header(s, m) {
        assert forall|i: int| 0 <= i < w.len() implies #[trigger] w[i].0 != m by {
            if w[i] != (n, val) {
                let j = choose|j: int| 0 <= j < s.len() && s[j] == w[i];
                assert(s[j].0 != m);
            }
        }
    }
    if only_value(s, m, v) {
        let j = choose|j: int| 0 <= j < s.len() && s[j] == (m, v);
        s.lemma_filter_contains(other_name(n), j);
        let f = s.filter(other_name(n));
        let k = choose|k: int| 0 <= k < f.len() && f[k] == (m, v);
        assert(w[k] == (m, v));
        assert forall|i: int| 0 <= i < w.len() && #[trigger] w[i].0 == m implies w[i].1 == v by {
            let t = choose|t: int| 0 <= t < s.len() && s[t] == w[i];
            assert(s[t].0 == m);
        }
    }
}

/// Taking out the headers only Plane may set keeps a name absent.
proof fn lemma_without_verified_lacks(s: Seq<(Seq<char>, Seq<u8>)>, m: Seq<char>)
    requires
        lacks_header(s, m),
    ensures
        lacks_header(without_verified(s), m),
{
    let f = without_verified(s);
    assert forall|i: int| 0 <= i < f.len() implies #[trigger] f[i].0 != m by {
        lemma_filter_members(s, kept_header(), i);
        let j = choose|j: int| 0 <= j < s.len() && s[j] == f[i];
        assert(s[j].0 != m);
    }
}

/// A header list without `n` has no first value for it.
proof fn lemma_first_value_absent(s: Seq<(Seq<char>, Seq<u8>)>, n: Seq<char>)
    requires
        lacks_header(s, n),
    ensures
        first_value(s, n) is None,
    decreases s.len(),
{
    if s.len() > 0 {
        assert(s[0].0 != n);
        assert forall|i: int| 0 <= i < s.drop_first().len() implies #[trigger] s.drop_first()[i].0 != n by {
            assert(s.drop_first()[i] == s[i + 1]);
        }
        lemma_first_value_absent(s.drop_first(), n);
    }
}

/// When the caller sent no `x-forwarded-proto`, the backend is told the
/// protocol the caller used: `http` for a plain HTTP caller, `https` for an
/// HTTPS one, and no other value of that header reaches it.
pub proof fn law_forwarded_proto_names_the_protocol(
    h: Seq<(Seq<char>, Seq<u8>)>,
    route: RouteInfo,
    prefix: Seq<char>,
    meta: ForwardableRequestInfo,
)
    requires
        lacks_header(h, "x-forwarded-proto"@),
    ensures
        only_value(
            route_headers(h, route, prefix, meta),
            "x-forwarded-proto"@,
            encode_utf8(if meta.protocol == Protocol::Http { "http"@ } else { "https"@ }),
        ),
{
    reveal_strlit("x-forwarded-proto");
    reveal_strlit("x-forwarded-for");
    reveal_strlit("x-plane-user");
    reveal_strlit("x-plane-auth");
    reveal_strlit("x-verified-secret");
    reveal_strlit("x-verified-path");
    reveal_strlit("x-verified-backend");
    reveal_strlit("http");
    reveal_strlit("https");
    let p = "x-forwarded-proto"@;
    assert(p.len() == 17);
    assert(p != "x-forwarded-for"@ && p != "x-plane-user"@ && p != "x-plane-auth"@ && p != "x-verified-path"@
        && p != "x-verified-backend"@);
    assert(p[2] != "x-verified-secret"@[2]);
    let v = encode_utf8(if meta.protocol == Protocol::Http { "http"@ } else { "https"@ });
    assert(protocol_name(meta.protocol) == (if meta.protocol == Protocol::Http { "http"@ } else { "https"@ }));
    let h0 = without_verified(h);
    lemma_without_verified_lacks(h, p);
    let h1 = match route.user {
        Some(u) => with_header(h0, "x-plane-user"@, encode_utf8(u@)),
        None => h0,
    };
    if let Some(u) = route.user {
        lemma_other_header_keeps(h0, "x-plane-user"@, encode_utf8(u@), p, v);
    }
    let h2 = with_header(h1, "x-forwarded-for"@, encode_utf8(forwarded_for(h1, meta.ip@)));
    lemma_other_header_keeps(h1, "x-forwarded-for"@, encode_utf8(forwarded_for(h1, meta.ip@)), p, v);
    lemma_first_value_absent(h2, p);
    let h3 = with_header(h2, p, v);
    lemma_with_header_entries(h2, p, v);
    assert(only_value(h3, p, v)) by {
        assert forall|i: int| 0 <= i < h3.len() && #[trigger] h3[i].0 == p implies h3[i].1 == v by {
            if h3[i] != (p, v) {
                let j = choose|j: int| 0 <= j < h2.len() && h2[j] == h3[i];
                assert(h2[j].0 != p);
            }
        }
    }
    let h4 = with_header(h3, "x-verified-secret"@, encode_utf8(route.secret_token@));
    lemma_other_header_keeps(h3, "x-verified-secret"@, encode_utf8(route.secret_token@), p, v);
    let d = encode_utf8(user_data_json(opt_view(route.user_data)));
    let h5 = with_header(h4, "x-plane-auth"@, d);
    lemma_other_header_keeps(h4, "x-plane-auth"@, d, p, v);
    let h6 = with_header(h5, "x-verified-path"@, encode_utf8(prefix));
    lemma_other_header_keeps(h5, "x-verified-path"@, encode_utf8(prefix), p, v);
    lemma_other_header_keeps(h6, "x-verified-backend"@, encode_utf8(route.backend_id@), p, v);
}

} // verus!
