//! Extraction of the subdomain from a request's host header.
use crate::proxy::rewriter::RequestRewriterError;
use crate::text::{chars_of, drop_end, ends_with, seq_ends_with};
use crate::types::ClusterName;
use vstd::prelude::*;
use vstd::string::*;

verus! {

/// If a cluster name does not specify a port, :443 is implied.
/// Most browsers will not specify it, but some (e.g. the `ws` websocket client in Node.js)
/// will, so we strip it.
pub const HTTPS_PORT_SUFFIX: &'static str = ":443";

/// A host with a trailing `:443` removed.
pub open spec fn strip_https_port(host: Seq<char>) -> Seq<char> {
    if ends_with(host, ":443"@) { drop_end(host, 4) } else { host }
}

/// The subdomain that `host` names under `cluster`: `Ok(Some(sub))` when the host
/// is `sub.cluster`, `Ok(None)` when it is the cluster itself, and `Err(())`
/// when it is neither. A trailing `:443` on the host is ignored.
pub open spec fn subdomain_of(host: Seq<char>, cluster: Seq<char>) -> Result<Option<Seq<char>>, ()> {
    let h = strip_https_port(host);
    if ends_with(h, cluster) {
        let sub = drop_end(h, cluster.len() as int);
        if sub.len() == 0 {
            Ok(None)
        } else if sub.last() == '.' {
            Ok(Some(sub.drop_last()))
        } else {
            Err(())
        }
    } else {
        Err(())
    }
}

/// `r` is the result `subdomain_of` describes, with the subdomain given as a
/// slice of the host and the failure as `e`.
pub open spec fn subdomain_result_matches<E>(
    r: Result<Option<&str>, E>,
    spec: Result<Option<Seq<char>>, ()>,
    e: E,
) -> bool {
    match (r, spec) {
        (Ok(None), Ok(None)) => true,
        (Ok(Some(s)), Ok(Some(v))) => s@ == v,
        (Err(x), Err(_)) => x == e,
        _ => false,
    }
}

/// Finds the subdomain in `host`, as `subdomain_of` describes it; the subdomain is a
/// slice of `host`.
pub fn subdomain_in_host<'a>(host: &'a str, cluster: &str) -> (r: Result<Option<&'a str>, ()>)
    ensures
        subdomain_result_matches(r, subdomain_of(host@, cluster@), ()),
{
    proof {
        reveal_strlit(":443");
    }
    let hchars = chars_of(host);
    let suffix = chars_of(HTTPS_PORT_SUFFIX);
    let hlen: usize = if seq_ends_with(hchars.as_slice(), suffix.as_slice()) {
        hchars.len() - 4
    } else {
        hchars.len()
    };
    let h = host.substring_char(0, hlen);
    proof {
        assert(h@ == strip_https_port(host@));
    }
    let h_chars = chars_of(h);
    let c_chars = chars_of(cluster);
    if seq_ends_with(h_chars.as_slice(), c_chars.as_slice()) {
        let sub_len = hlen - c_chars.len();
        if sub_len == 0 {
            proof {
                assert(drop_end(h@, cluster@.len() as int).len() == 0);
            }
            Ok(None)
        } else if h_chars[sub_len - 1] == '.' {
            let sub = host.substring_char(0, sub_len - 1);
            proof {
                let d = drop_end(h@, cluster@.len() as int);
                assert(d.last() == h@[sub_len - 1]);
                assert(sub@ =~= d.drop_last());
            }
            Ok(Some(sub))
        } else {
            proof {
                let d = drop_end(h@, cluster@.len() as int);
                assert(d.last() == h@[sub_len - 1]);
            }
            Err(())
        }
    } else {
        Err(())
    }
}

/// Returns Ok(Some(subdomain)) if a subdomain is found.
/// Returns Ok(None) if no subdomain is found, but the host header matches the cluster name.
/// Returns Err(RequestRewriterError::InvalidHostHeader) if the host header does not
/// match the cluster name.
pub fn subdomain_from_host<'a>(host: &'a str, cluster: &ClusterName) -> (r: Result<
    Option<&'a str>,
    RequestRewriterError,
>)
    ensures
        subdomain_result_matches(r, subdomain_of(host@, cluster@), RequestRewriterError::InvalidHostHeader),
{
    match subdomain_in_host(host, cluster.as_str()) {
        Ok(s) => Ok(s),
        Err(()) => Err(RequestRewriterError::InvalidHostHeader),
    }
}

} // verus!
