use plane::proxy::rewriter::RequestRewriterError;
use plane::proxy::subdomain::subdomain_from_host;
use plane::types::ClusterName;

#[test]
fn subdomain_no_subdomains() {
    let host = "foo.bar.baz";
    let cluster = ClusterName::from_str("foo.bar.baz").unwrap();
    assert_eq!(subdomain_from_host(host, &cluster), Ok(None));
}

#[test]
fn subdomain_valid_subdomain() {
    let host = "foobar.example.com";
    let cluster = ClusterName::from_str("example.com").unwrap();
    assert_eq!(subdomain_from_host(host, &cluster), Ok(Some("foobar")));
}

#[test]
fn subdomain_valid_suffix_no_dot() {
    let host = "foobarexample.com";
    let cluster = ClusterName::from_str("example.com").unwrap();
    assert_eq!(
        subdomain_from_host(host, &cluster),
        Err(RequestRewriterError::InvalidHostHeader)
    );
}

#[test]
fn subdomain_invalid_suffix() {
    let host = "abc.abc.com";
    let cluster = ClusterName::from_str("example.com").unwrap();
    assert_eq!(
        subdomain_from_host(host, &cluster),
        Err(RequestRewriterError::InvalidHostHeader)
    );
}

#[test]
fn subdomain_allowed_port() {
    let host = "foobar.myhost:8080";
    let cluster = ClusterName::from_str("myhost:8080").unwrap();
    assert_eq!(subdomain_from_host(host, &cluster), Ok(Some("foobar")));
}

#[test]
fn subdomain_port_required() {
    let host = "foobar.myhost";
    let cluster = ClusterName::from_str("myhost:8080").unwrap();
    assert_eq!(
        subdomain_from_host(host, &cluster),
        Err(RequestRewriterError::InvalidHostHeader)
    );
}

#[test]
fn subdomain_port_must_match() {
    let host = "foobar.myhost:8080";
    let cluster = ClusterName::from_str("myhost").unwrap();
    assert_eq!(
        subdomain_from_host(host, &cluster),
        Err(RequestRewriterError::InvalidHostHeader)
    );
}

#[test]
fn subdomain_port_443_optional() {
    let host = "foobar.myhost:443";
    let cluster = ClusterName::from_str("myhost").unwrap();
    assert_eq!(subdomain_from_host(host, &cluster), Ok(Some("foobar")));
}

#[test]
fn subdomain_of_cluster_with_443_in_host_only() {
    let cluster = ClusterName::from_str("myhost").unwrap();
    assert_eq!(subdomain_from_host("myhost:443", &cluster), Ok(None));
}
