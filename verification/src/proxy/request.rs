//! Reading the host header and the connection token of an inbound request.
use crate::proxy::subdomain::{subdomain_in_host, subdomain_of, subdomain_result_matches};
use crate::text::{chars_of, find_char, first_index_of, push_char, push_str, starts_with};
use crate::types::{token_is_static, BearerToken, ClusterName};
use vstd::prelude::*;
use vstd::string::*;

verus! {

/// The path and query of a request URI.
#[derive(Clone, Debug, PartialEq, Eq)]
pub struct PathAndQuery {
    /// The path, e.g. `/foo/bar`.
    pub path: String,
    /// The query, without its leading `?`, if the URI has one.
    pub query: Option<String>,
}

/// The path and query of a URI, as character sequences.
pub open spec fn pq_view(pq: Option<PathAndQuery>) -> Option<(Seq<char>, Option<Seq<char>>)> {
    match pq {
        Some(p) => Some(
            (
                p.path@,
                match p.query {
                    Some(q) => Some(q@),
                    None => None,
                },
            ),
        ),
        None => None,
    }
}

/// Splits the path after its leading `/` into the token (up to the next `/`)
/// and the rest (after that `/`, or empty when there is none).
pub open spec fn split_token(full: Seq<char>) -> (Seq<char>, Seq<char>) {
    match first_index_of(full, '/') {
        Some(i) => (full.subrange(0, i), full.skip(i + 1)),
        None => (full, Seq::empty()),
    }
}

/// The connection token a URI carries: the first segment of its path, when the
/// path starts with `/` and that segment is not empty.
pub open spec fn uri_token(pq: Option<(Seq<char>, Option<Seq<char>>)>) -> Option<Seq<char>> {
    match pq {
        Some((path, _)) => if starts_with(path, seq!['/']) && split_token(path.skip(1)).0.len() > 0 {
            Some(split_token(path.skip(1)).0)
        } else {
            None
        },
        None => None,
    }
}

/// The path and query after the token is taken out: a static token leaves the
/// URI as it was; any other token is removed from the front of the path.
pub open spec fn uri_without_token(pq: Option<(Seq<char>, Option<Seq<char>>)>) -> Option<
    (Seq<char>, Option<Seq<char>>),
> {
    match uri_token(pq) {
        Some(token) => if token_is_static(token) {
            pq
        } else {
            match pq {
                Some((path, query)) => Some((seq!['/'] + split_token(path.skip(1)).1, query)),
                None => None,
            }
        },
        None => pq,
    }
}

/// Returns Ok(Some(subdomain)) if a subdomain is found.
/// Returns Ok(None) if no subdomain is found, but the host header matches the cluster name.
/// Returns Err(()) if the host header does not
/// match the cluster name.
pub fn subdomain_from_host<'a>(host: &'a str, cluster: &ClusterName) -> (r: Result<Option<&'a str>, ()>)
    ensures
        subdomain_result_matches(r, subdomain_of(host@, cluster@), ()),
{
    subdomain_in_host(host, cluster.as_str())
}

/// Removes a connection string from the URI and returns it.
/// If no connection string is found, returns None.
pub fn get_and_maybe_remove_bearer_token(path_and_query: &mut Option<PathAndQuery>) -> (r: Option<
    BearerToken,
>)
    ensures
        match (r, uri_token(pq_view(*old(path_and_query)))) {
            (Some(t), Some(s)) => t@ == s,
            (None, None) => true,
            _ => false,
        },
        pq_view(*final(path_and_query)) == uri_without_token(pq_view(*old(path_and_query))),
{
    let (path_s, query_s): (String, Option<String>) = match path_and_query {
        Some(pq) => (
            pq.path.clone(),
            match &pq.query {
                Some(q) => Some(q.clone()),
                None => None,
            },
        ),
        None => return None,
    };
    let path = path_s.as_str();
    let chars = chars_of(path);
    if chars.len() == 0 || chars[0] != '/' {
        proof {
            assert(!starts_with(path@, seq!['/'])) by {
                if chars@.len() > 0 {
                    assert(path@.subrange(0, 1)[0] == path@[0]);
                }
            }
        }
        return None;
    }
    let full_path = path.substring_char(1, chars.len());
    let full_chars = chars_of(full_path);
    let (token, rest) = match find_char(full_chars.as_slice(), '/') {
        Some(i) => (full_path.substring_char(0, i), full_path.substring_char(i + 1, full_chars.len())),
        None => (full_path, full_path.substring_char(full_chars.len(), full_chars.len())),
    };
    proof {
        assert(path@.subrange(0, 1) =~= seq!['/']);
        assert(full_path@ == path@.skip(1));
        assert(token@ == split_token(path@.skip(1)).0);
        assert(rest@ == split_token(path@.skip(1)).1);
    }
    if token.unicode_len() == 0 {
        return None;
    }
    let token = BearerToken::from_string(token.to_owned());
    if token.is_static() {
        return Some(token);
    }
    let mut new_path = String::new();
    push_char(&mut new_path, '/');
    push_str(&mut new_path, rest);
    *path_and_query = Some(PathAndQuery { path: new_path, query: query_s });
    Some(token)
}

} // verus!
