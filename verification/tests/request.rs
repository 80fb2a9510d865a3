use plane::proxy::request::{get_and_maybe_remove_bearer_token, subdomain_from_host, PathAndQuery};
use plane::types::{BearerToken, ClusterName};

fn pq(path: &str) -> Option<PathAndQuery> {
    Some(PathAndQuery { path: path.to_string(), query: None })
}

#[test]
fn request_no_subdomains() {
    let host = "foo.bar.baz";
    let cluster = ClusterName::from_str("foo.bar.baz").unwrap();
    assert_eq!(subdomain_from_host(host, &cluster), Ok(None));
}

#[test]
fn request_valid_subdomain() {
    let host = "foobar.example.com";
    let cluster = ClusterName::from_str("example.com").unwrap();
    assert_eq!(subdomain_from_host(host, &cluster), Ok(Some("foobar")));
}

#[test]
fn request_valid_suffix_no_dot() {
    let host = "foobarexample.com";
    let cluster = ClusterName::from_str("example.com").unwrap();
    assert_eq!(subdomain_from_host(host, &cluster), Err(()));
}

#[test]
fn request_invalid_suffix() {
    let host = "abc.abc.com";
    let cluster = ClusterName::from_str("example.com").unwrap();
    assert_eq!(subdomain_from_host(host, &cluster), Err(()));
}

#[test]
fn request_allowed_port() {
    let host = "foobar.myhost:8080";
    let cluster = ClusterName::from_str("myhost:8080").unwrap();
    assert_eq!(subdomain_from_host(host, &cluster), Ok(Some("foobar")));
}

#[test]
fn request_port_required() {
    let host = "foobar.myhost";
    let cluster = ClusterName::from_str("myhost:8080").unwrap();
    assert_eq!(subdomain_from_host(host, &cluster), Err(()));
}

#[test]
fn request_port_must_match() {
    let host = "foobar.myhost:8080";
    let cluster = ClusterName::from_str("myhost").unwrap();
    assert_eq!(subdomain_from_host(host, &cluster), Err(()));
}

#[test]
fn request_port_443_optional() {
    let host = "foobar.myhost:443";
    let cluster = ClusterName::from_str("myhost").unwrap();
    assert_eq!(subdomain_from_host(host, &cluster), Ok(Some("foobar")));
}

#[test]
fn test_get_and_maybe_remove_bearer_token() {
    let mut parts = pq("/foo/bar");
    assert_eq!(
        get_and_maybe_remove_bearer_token(&mut parts),
        Some(BearerToken::from("foo".to_string()))
    );
    assert_eq!(parts, pq("/bar"));
}

#[test]
fn test_get_and_maybe_remove_bearer_token_ends_no_slash() {
    let mut parts = pq("/foo");
    assert_eq!(
        get_and_maybe_remove_bearer_token(&mut parts),
        Some(BearerToken::from("foo".to_string()))
    );
    assert_eq!(parts, pq("/"));
}

#[test]
fn test_get_and_maybe_remove_bearer_token_ends_in_slash() {
    let mut parts = pq("/foo/");
    assert_eq!(
        get_and_maybe_remove_bearer_token(&mut parts),
        Some(BearerToken::from("foo".to_string()))
    );
    assert_eq!(parts, pq("/"));
}

#[test]
fn test_get_and_maybe_remove_bearer_token_no_token() {
    let mut parts = pq("/");
    assert_eq!(get_and_maybe_remove_bearer_token(&mut parts), None);
    assert_eq!(parts, pq("/"));
}

#[test]
fn test_get_and_maybe_remove_bearer_token_static_token() {
    let mut parts = pq("/s.foo/bar");
    assert_eq!(
        get_and_maybe_remove_bearer_token(&mut parts),
        Some(BearerToken::from("s.foo".to_string()))
    );
    assert_eq!(parts, pq("/s.foo/bar"));
}

#[test]
fn bearer_token_keeps_query() {
    let mut parts = Some(PathAndQuery { path: "/tok/a/b".to_string(), query: Some("x=1".to_string()) });
    assert_eq!(
        get_and_maybe_remove_bearer_token(&mut parts),
        Some(BearerToken::from("tok".to_string()))
    );
    assert_eq!(parts, Some(PathAndQuery { path: "/a/b".to_string(), query: Some("x=1".to_string()) }));
}

#[test]
fn bearer_token_needs_leading_slash() {
    let mut parts = pq("foo/bar");
    assert_eq!(get_and_maybe_remove_bearer_token(&mut parts), None);
    assert_eq!(parts, pq("foo/bar"));
    let mut none: Option<PathAndQuery> = None;
    assert_eq!(get_and_maybe_remove_bearer_token(&mut none), None);
}
