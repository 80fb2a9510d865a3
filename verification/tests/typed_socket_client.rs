use plane::plane2::client::ParsedUrl;
use plane::plane2::typed_socket::client::{auth_url_to_new_request, auth_url_to_request, AuthUrlError};

fn header<'a>(headers: &'a [(String, Vec<u8>)], name: &str) -> Option<&'a str> {
    headers
        .iter()
        .find(|(n, _)| n == name)
        .map(|(_, v)| std::str::from_utf8(v).unwrap())
}

#[test]
fn test_url_no_token() {
    let url = ParsedUrl::parse("https://foo.bar.com/").unwrap();
    let request = auth_url_to_new_request(&url).unwrap();
    assert!(header(&request.headers, "authorization").is_none());
}

#[test]
fn test_url_with_token() {
    let url = ParsedUrl::parse("https://abcdefg@foo.bar.com/").unwrap();
    let request = auth_url_to_new_request(&url).unwrap();
    assert_eq!(header(&request.headers, "authorization"), Some("Bearer YWJjZGVmZw=="));
    assert_eq!(header(&request.headers, "host"), Some("foo.bar.com"));
}

#[test]
fn ws_request_has_upgrade_headers() {
    let url = ParsedUrl::parse("http://example.com/ctrl").unwrap();
    let request = auth_url_to_request(&url, "dGhlIHNhbXBsZSBub25jZQ==").unwrap();
    assert_eq!(request.method, "GET");
    assert_eq!(request.uri, "http://example.com/ctrl");
    assert_eq!(header(&request.headers, "connection"), Some("Upgrade"));
    assert_eq!(header(&request.headers, "upgrade"), Some("websocket"));
    assert_eq!(header(&request.headers, "sec-websocket-version"), Some("13"));
    assert_eq!(header(&request.headers, "sec-websocket-key"), Some("dGhlIHNhbXBsZSBub25jZQ=="));
}

#[test]
fn ws_request_needs_a_host() {
    let url = ParsedUrl::parse("mailto:someone@example.com").unwrap();
    assert_eq!(auth_url_to_request(&url, "key").unwrap_err(), AuthUrlError::NoHost);
}

#[test]
fn token_is_removed_from_the_request_uri() {
    let url = ParsedUrl::parse("https://abcdefg@foo.bar.com/path").unwrap();
    let request = auth_url_to_request(&url, "key").unwrap();
    assert_eq!(request.uri, "https://foo.bar.com/path");
    assert_eq!(header(&request.headers, "authorization"), Some("Bearer YWJjZGVmZw=="));
}
