use plane::names::BackendName;
use plane::protocol::{CertManagerResponse, RouteInfo, RouteInfoResponse};
use plane::proxy::cert_manager::{
    identifiers_for, lease_decision, next_order_step, renewal_sleep, sleep_after_failure,
    time_until_renewal, LeaseDecision, OrderAction, OrderEvent, OrderPhase, FAILURE_SLEEP_TIME_MS,
    LOCK_SLEEP_TIME_MS, MAX_SLEEP_TIME_MS, RENEWAL_WINDOW_MS,
};
use plane::proxy::command::{port_config_for, ProxyOpts, ProxyOptsError};
use plane::proxy::connection_monitor::{ConnectionMonitor, VisitOutcome, HEARTBEAT_INTERVAL_MILLIS};
use plane::proxy::headers::{get_header_str, insert_header, is_header_safe, remove_verified_headers};
use plane::proxy::http_proxy::{
    check_route, error_response, finish_backend_response, route_request, ProxyError, RequestRoute,
};
use plane::proxy::proxy_server::{after_lookup, begin_request, finish_server_response, prepare_request, ServerStep};
use plane::proxy::request::PathAndQuery;
use plane::proxy::rewriter::{
    connection_has_upgrade, extract_bearer_token, ProxiedRequest, RequestRewriter, RequestUri,
};
use plane::proxy::route_map::{LookupStart, RouteMap};
use plane::proxy::{AcmeEabConfiguration, ForwardableRequestInfo, Protocol};
use plane::types::backend_state::{BackendAddr, IpAddress};
use plane::types::{BearerToken, ClusterName, SecretToken};

fn h(name: &str, value: &str) -> (String, Vec<u8>) {
    (name.to_string(), value.as_bytes().to_vec())
}

fn get<'a>(headers: &'a [(String, Vec<u8>)], name: &str) -> Option<&'a str> {
    headers.iter().find(|(n, _)| n == name).map(|(_, v)| std::str::from_utf8(v).unwrap())
}

fn uri(path: &str, query: Option<&str>) -> RequestUri {
    RequestUri {
        scheme: None,
        authority: None,
        path_and_query: Some(PathAndQuery { path: path.to_string(), query: query.map(|q| q.to_string()) }),
    }
}

fn route(subdomain: Option<&str>) -> RouteInfo {
    RouteInfo {
        backend_id: BackendName::new("ba-1".to_string()),
        address: BackendAddr { ip: IpAddress::V4(0x0a000001), port: 1234 },
        secret_token: SecretToken::from("secret".to_string()),
        cluster: ClusterName::from_str("example.com").unwrap(),
        user: Some("alice".to_string()),
        user_data: Some("{\"a\":1}".to_string()),
        subdomain: subdomain.map(|s| s.to_string()),
    }
}

fn meta() -> ForwardableRequestInfo {
    ForwardableRequestInfo { ip: "10.1.2.3".to_string(), protocol: Protocol::Https }
}

#[test]
fn verified_headers_are_stripped() {
    let mut headers = vec![
        h("x-plane-user", "mallory"),
        h("host", "a"),
        h("x-verified-secret", "s"),
        h("x-plane-auth", "{}"),
        h("x-other", "b"),
    ];
    remove_verified_headers(&mut headers);
    assert_eq!(headers, vec![h("host", "a"), h("x-other", "b")]);
}

#[test]
fn insert_replaces_every_value() {
    let mut headers = vec![h("a", "1"), h("b", "2"), h("a", "3")];
    insert_header(&mut headers, "a", "4");
    assert_eq!(headers, vec![h("b", "2"), h("a", "4")]);
    assert!(!is_header_safe("bad\nvalue"));
    assert!(is_header_safe("tab\tok"));
}

#[test]
fn header_text_must_be_visible_ascii() {
    let headers = vec![("host".to_string(), vec![0xff, 0x61]), h("host", "second")];
    assert_eq!(get_header_str(&headers, "host"), None);
    let headers = vec![h("host", "first"), h("host", "second")];
    assert_eq!(get_header_str(&headers, "host"), Some("first".to_string()));
}

#[test]
fn upgrade_detection() {
    assert!(connection_has_upgrade("Upgrade"));
    assert!(connection_has_upgrade("keep-alive, UPGRADE"));
    assert!(connection_has_upgrade("keep-alive,\t upgrade \t"));
    assert!(!connection_has_upgrade("keep-alive"));
    assert!(!connection_has_upgrade("upgrades"));
    assert!(!connection_has_upgrade(""));
}

#[test]
fn rewriter_extracts_token() {
    let mut pq = Some(PathAndQuery { path: "/tok/a/b".to_string(), query: Some("q=1".to_string()) });
    assert_eq!(extract_bearer_token(&mut pq), Some(BearerToken::from("tok".to_string())));
    assert_eq!(pq, Some(PathAndQuery { path: "/a/b".to_string(), query: Some("q=1".to_string()) }));
    let mut pq = Some(PathAndQuery { path: "/tok".to_string(), query: None });
    assert_eq!(extract_bearer_token(&mut pq), Some(BearerToken::from("tok".to_string())));
    assert_eq!(pq.unwrap().path, "//");
    let mut pq = Some(PathAndQuery { path: "/s.tok/x".to_string(), query: None });
    assert_eq!(extract_bearer_token(&mut pq), Some(BearerToken::from("s.tok".to_string())));
    assert_eq!(pq.unwrap().path, "/s.tok/x");
    let mut pq = Some(PathAndQuery { path: "relative".to_string(), query: None });
    assert_eq!(extract_bearer_token(&mut pq), None);
}

#[test]
fn rewriter_sets_route_headers() {
    let request = ProxiedRequest {
        uri: uri("/tok/path", None),
        headers: vec![h("host", "sub.example.com"), h("x-plane-user", "mallory"), h("x-forwarded-for", "1.1.1.1")],
    };
    let mut rw = RequestRewriter::new(request, meta()).unwrap();
    assert_eq!(rw.bearer_token().as_str(), "tok");
    assert_eq!(rw.prefix_uri, "/tok/");
    assert_eq!(rw.get_subdomain(&ClusterName::from_str("example.com").unwrap()), Ok(Some("sub".to_string())));
    assert!(!rw.should_upgrade());
    rw.set_authority("10.0.0.1:1234".to_string());
    let out = rw.into_request(&route(Some("sub")));
    assert_eq!(out.uri.scheme.as_deref(), Some("http"));
    assert_eq!(out.uri.authority.as_deref(), Some("10.0.0.1:1234"));
    assert_eq!(out.uri.path_and_query.as_ref().unwrap().path, "/path");
    assert_eq!(get(&out.headers, "x-plane-user"), Some("alice"));
    assert_eq!(get(&out.headers, "x-forwarded-for"), Some("1.1.1.1, 10.1.2.3"));
    assert_eq!(get(&out.headers, "x-forwarded-proto"), Some("https"));
    assert_eq!(get(&out.headers, "x-verified-secret"), Some("secret"));
    assert_eq!(get(&out.headers, "x-plane-auth"), Some("{\"a\":1}"));
    assert_eq!(get(&out.headers, "x-verified-path"), Some("/tok/"));
    assert_eq!(get(&out.headers, "x-verified-backend"), Some("ba-1"));
    assert_eq!(out.headers.iter().filter(|(n, _)| n == "x-plane-user").count(), 1);
}

#[test]
fn upgrade_pair_keeps_original_headers() {
    let request = ProxiedRequest {
        uri: uri("/tok/ws", None),
        headers: vec![h("host", "example.com"), h("connection", "Upgrade")],
    };
    let mut rw = RequestRewriter::new(request, meta()).unwrap();
    assert!(rw.should_upgrade());
    rw.set_authority("10.0.0.1:1234".to_string());
    let mut r = route(None);
    r.user_data = None;
    let (kept, sent) = rw.into_request_pair(&r);
    assert_eq!(kept.headers, vec![h("host", "example.com"), h("connection", "Upgrade")]);
    assert_eq!(get(&sent.headers, "x-plane-auth"), Some("null"));
    assert_eq!(get(&sent.headers, "x-forwarded-for"), Some("10.1.2.3"));
}

#[test]
fn route_checks() {
    let request = ProxiedRequest { uri: uri("/tok/", None), headers: vec![h("host", "sub.example.com")] };
    let rw = RequestRewriter::new(request, meta()).unwrap();
    assert_eq!(check_route(&rw, None), Err(ProxyError::InvalidConnectionToken));
    assert_eq!(check_route(&rw, Some(&route(Some("sub")))), Ok(()));
    assert_eq!(check_route(&rw, Some(&route(Some("other")))), Err(ProxyError::InvalidSubdomain));
    assert_eq!(check_route(&rw, Some(&route(None))), Err(ProxyError::InvalidSubdomain));
    let request = ProxiedRequest { uri: uri("/tok/", None), headers: vec![] };
    let rw = RequestRewriter::new(request, meta()).unwrap();
    assert_eq!(check_route(&rw, Some(&route(None))), Err(ProxyError::InvalidSubdomain));
}

#[test]
fn ready_and_redirects() {
    let headers = vec![h("host", "example.com")];
    match route_request(&uri("/ready", None), &headers, true, false, None).unwrap() {
        RequestRoute::Respond(r) => {
            assert_eq!(r.status, 200);
            assert_eq!(r.body, "Plane Proxy server (ready)");
            assert_eq!(get(&r.headers, "server"), Some("Plane"));
        }
        RequestRoute::Proxy => panic!("expected an answer"),
    }
    match route_request(&uri("/ready", None), &headers, false, false, None).unwrap() {
        RequestRoute::Respond(r) => assert_eq!(r.status, 503),
        RequestRoute::Proxy => panic!("expected an answer"),
    }
    match route_request(&uri("/x", Some("a=b")), &headers, true, true, None).unwrap() {
        RequestRoute::Respond(r) => {
            assert_eq!(r.status, 301);
            assert_eq!(get(&r.headers, "location"), Some("https://example.com/x?a=b"));
        }
        RequestRoute::Proxy => panic!("expected a redirect"),
    }
    assert_eq!(route_request(&uri("/x", None), &vec![], true, true, None).unwrap_err(), ProxyError::MissingHostHeader);
    assert_eq!(
        route_request(&uri("/x", None), &vec![h("host", "bad host")], true, true, None).unwrap_err(),
        ProxyError::BadRequest
    );
    match route_request(&uri("/", None), &headers, true, false, Some("https://plane.dev/")).unwrap() {
        RequestRoute::Respond(r) => {
            assert_eq!(r.status, 301);
            assert_eq!(get(&r.headers, "location"), Some("https://plane.dev/"));
        }
        RequestRoute::Proxy => panic!("expected a redirect"),
    }
    assert!(matches!(route_request(&uri("/", None), &headers, true, false, None).unwrap(), RequestRoute::Proxy));
    assert!(matches!(route_request(&uri("/tok/", None), &headers, true, false, None).unwrap(), RequestRoute::Proxy));
}

#[test]
fn error_statuses() {
    assert_eq!(error_response(&ProxyError::InvalidConnectionToken).status, 410);
    assert_eq!(
        error_response(&ProxyError::InvalidConnectionToken).body,
        "The backend is no longer available or the connection token is invalid."
    );
    assert_eq!(error_response(&ProxyError::MissingHostHeader).status, 400);
    assert_eq!(error_response(&ProxyError::BadRequest).body, "Bad request");
    assert_eq!(error_response(&ProxyError::InvalidSubdomain).status, 401);
    let backend = BackendName::new("ba-1".to_string());
    assert_eq!(error_response(&ProxyError::RequestError("x".to_string(), backend)).status, 502);
    assert_eq!(error_response(&ProxyError::HttpError).status, 500);
    assert_eq!(error_response(&ProxyError::UpgradeError("x".to_string())).body, "Internal error");
    assert_eq!(ProxyError::from(plane::proxy::rewriter::RequestRewriterError::InvalidHostHeader), ProxyError::BadRequest);
}

#[test]
fn backend_response_headers() {
    let mut headers = vec![h("access-control-allow-origin", "https://app"), h("x-plane-backend-id", "old")];
    finish_backend_response(&mut headers, &BackendName::new("ba-2".to_string()));
    assert_eq!(get(&headers, "x-plane-backend-id"), Some("ba-2"));
    assert_eq!(get(&headers, "access-control-allow-origin"), Some("https://app"));
    assert_eq!(get(&headers, "access-control-allow-methods"), Some("GET, POST, PUT, DELETE, OPTIONS"));
    assert_eq!(get(&headers, "access-control-allow-credentials"), Some("true"));
}

#[test]
fn server_answers_and_marks() {
    let mut u = uri("/ready", None);
    match begin_request(&mut u, false, None) {
        ServerStep::Respond(r) => {
            assert_eq!(r.status, 503);
            assert_eq!(get(&r.headers, "access-control-allow-origin"), Some("*"));
        }
        _ => panic!("expected an answer"),
    }
    let mut u = uri("/", None);
    match begin_request(&mut u, true, None) {
        ServerStep::Respond(r) => assert_eq!(r.status, 400),
        _ => panic!("expected an answer"),
    }
    let mut u = uri("/", None);
    match begin_request(&mut u, true, Some("https://home/")) {
        ServerStep::Respond(r) => {
            assert_eq!(r.status, 301);
            assert_eq!(get(&r.headers, "location"), Some("https://home/"));
        }
        _ => panic!("expected an answer"),
    }
    let mut u = uri("/tok/a", None);
    match begin_request(&mut u, true, None) {
        ServerStep::Forward { token, original_path } => {
            assert_eq!(token.as_str(), "tok");
            assert_eq!(original_path, "/tok/a");
            assert_eq!(u.path_and_query.unwrap().path, "/a");
        }
        _ => panic!("expected a forward"),
    }
    let mut headers = vec![h("host", "example.com"), h("x-verified-path", "spoof")];
    assert_eq!(prepare_request(&mut headers, &route(None), "/tok/a"), Ok(()));
    assert_eq!(get(&headers, "x-verified-path"), Some("/tok/a"));
    assert_eq!(get(&headers, "x-plane-user"), Some("alice"));
    let mut headers = vec![h("host", "example.com")];
    assert_eq!(prepare_request(&mut headers, &route(Some("sub")), "/"), Err(403));
    assert_eq!(headers, vec![h("host", "example.com")]);
    let mut headers = vec![h("host", "other.com")];
    assert_eq!(prepare_request(&mut headers, &route(None), "/"), Err(403));
    let mut headers = vec![];
    assert_eq!(prepare_request(&mut headers, &route(None), "/"), Err(400));
    let mut headers = vec![];
    finish_server_response(&mut headers, &BackendName::new("ba-3".to_string()));
    assert_eq!(get(&headers, "x-plane-backend-id"), Some("ba-3"));
    assert_eq!(get(&headers, "server"), Some("Plane"));
}

#[test]
fn route_map_reads_what_was_written() {
    let mut map = RouteMap::new();
    let token = BearerToken::from("tok".to_string());
    match map.start_lookup(&token) {
        LookupStart::Ask(req) => assert_eq!(req.token, token),
        LookupStart::Cached(_) => panic!("nothing is cached yet"),
    }
    assert!(map.finish_lookup(&token).is_none());
    map.receive(RouteInfoResponse { token: token.clone(), route_info: Some(route(None)) });
    match map.start_lookup(&token) {
        LookupStart::Cached(Some(r)) => assert_eq!(r.backend_id.as_str(), "ba-1"),
        _ => panic!("the route is cached"),
    }
    let gone = BearerToken::from("gone".to_string());
    map.insert(gone.clone(), None);
    assert!(matches!(map.start_lookup(&gone), LookupStart::Cached(None)));
}

#[test]
fn route_map_is_bounded() {
    let mut map = RouteMap::new();
    for i in 0..1001 {
        map.insert(BearerToken::from(format!("t{}", i)), None);
    }
    // The least recently used token was evicted.
    assert!(map.cached(&BearerToken::from("t0".to_string())).is_none());
    assert!(map.cached(&BearerToken::from("t1000".to_string())).is_some());
}

#[test]
fn renewal_timing() {
    assert_eq!(time_until_renewal(None, 0), None);
    let end = (RENEWAL_WINDOW_MS as i64) + 10_000;
    assert_eq!(time_until_renewal(Some(end), 4_000), Some(6_000));
    assert_eq!(time_until_renewal(Some(end), 10_000), None);
    assert_eq!(renewal_sleep(end, 10_000), Ok(None));
    assert_eq!(renewal_sleep(end, 11_000), Err(()));
    assert_eq!(renewal_sleep(end, 4_000), Ok(Some(MAX_SLEEP_TIME_MS)));
    let far = (RENEWAL_WINDOW_MS as i64) + 10_000_000;
    assert_eq!(renewal_sleep(far, 0), Ok(Some(10_000_000)));
    assert_eq!(sleep_after_failure(false), FAILURE_SLEEP_TIME_MS);
    assert_eq!(sleep_after_failure(true), LOCK_SLEEP_TIME_MS);
}

#[test]
fn lease_answers() {
    assert_eq!(lease_decision(Some(CertManagerResponse::CertLeaseResponse { accepted: true })), LeaseDecision::Granted);
    assert_eq!(lease_decision(Some(CertManagerResponse::CertLeaseResponse { accepted: false })), LeaseDecision::Refused);
    assert_eq!(lease_decision(Some(CertManagerResponse::SetTxtRecordResponse { accepted: true })), LeaseDecision::Abandon);
    assert_eq!(lease_decision(None), LeaseDecision::Abandon);
}

#[test]
fn acme_order_runs_to_the_end() {
    let cluster = "example.com";
    assert_eq!(identifiers_for(cluster, false), vec!["example.com".to_string(), "*.example.com".to_string()]);
    assert_eq!(identifiers_for(cluster, true), vec!["*.example.com".to_string()]);
    let (p, a) = next_order_step(OrderPhase::Account, OrderEvent::AccountBuilt, cluster, false);
    assert_eq!(p, OrderPhase::Order);
    assert!(matches!(a, OrderAction::BuildOrder { .. }));
    let (p, a) = next_order_step(p, OrderEvent::OrderBuilt { authorizations: 2 }, cluster, false);
    assert_eq!(p, OrderPhase::Challenge { index: 0, count: 2 });
    assert_eq!(a, OrderAction::FetchChallenge { index: 0 });
    let (p, a) = next_order_step(p, OrderEvent::ChallengeFetched { txt_value: Some("v".to_string()), already_valid: false }, cluster, false);
    assert!(matches!(a, OrderAction::SendRequest(_)));
    let (p, a) = next_order_step(p, OrderEvent::TxtResponse(Some(CertManagerResponse::SetTxtRecordResponse { accepted: true })), cluster, false);
    assert_eq!(a, OrderAction::ValidateChallenge { index: 0 });
    let (p, a) = next_order_step(p, OrderEvent::ChallengeDone { valid: true }, cluster, false);
    assert_eq!(a, OrderAction::WaitAuthorization { index: 0 });
    let (p, a) = next_order_step(p, OrderEvent::AuthorizationDone { valid: true }, cluster, false);
    assert_eq!(a, OrderAction::FetchChallenge { index: 1 });
    let (p, _) = next_order_step(p, OrderEvent::ChallengeFetched { txt_value: Some("w".to_string()), already_valid: true }, cluster, false);
    let (p, a) = next_order_step(p, OrderEvent::TxtResponse(Some(CertManagerResponse::SetTxtRecordResponse { accepted: true })), cluster, false);
    assert_eq!(a, OrderAction::WaitAuthorization { index: 1 });
    let (p, a) = next_order_step(p, OrderEvent::AuthorizationDone { valid: true }, cluster, false);
    assert_eq!((p, a), (OrderPhase::OrderReady, OrderAction::WaitOrderReady));
    let (p, a) = next_order_step(p, OrderEvent::OrderReadyDone { ready: true }, cluster, false);
    assert_eq!(a, OrderAction::FinalizeOrder);
    let (p, a) = next_order_step(p, OrderEvent::OrderFinalized { valid: true }, cluster, false);
    assert_eq!(a, OrderAction::FetchCertificate);
    let (p, a) = next_order_step(p, OrderEvent::CertificateFetched { count: Some(2) }, cluster, false);
    assert_eq!((p, a), (OrderPhase::Done, OrderAction::Finished));
}

#[test]
fn acme_order_failures() {
    let c = "example.com";
    let txt = OrderPhase::TxtRecord { index: 0, count: 1, already_valid: false };
    let (p, a) = next_order_step(txt, OrderEvent::TxtResponse(Some(CertManagerResponse::SetTxtRecordResponse { accepted: false })), c, false);
    assert_eq!(p, OrderPhase::Failed);
    assert_eq!(a, OrderAction::Fail { reason: "Cert manager rejected TXT record request.".to_string() });
    let (_, a) = next_order_step(txt, OrderEvent::TxtResponse(None), c, false);
    assert_eq!(a, OrderAction::Fail { reason: "Cert manager error.".to_string() });
    let (_, a) = next_order_step(txt, OrderEvent::TxtResponse(Some(CertManagerResponse::CertLeaseResponse { accepted: true })), c, false);
    assert_eq!(a, OrderAction::Fail { reason: "Unexpected response from cert manager.".to_string() });
    let (_, a) = next_order_step(OrderPhase::Certificate, OrderEvent::CertificateFetched { count: Some(0) }, c, false);
    assert_eq!(a, OrderAction::Fail { reason: "Certificate list is empty.".to_string() });
    let (_, a) = next_order_step(OrderPhase::Order, OrderEvent::CallFailed { reason: "Building order".to_string() }, c, false);
    assert_eq!(a, OrderAction::Fail { reason: "Building order".to_string() });
    let (p, _) = next_order_step(OrderPhase::Done, OrderEvent::AccountBuilt, c, false);
    assert_eq!(p, OrderPhase::Done);
}

#[test]
fn command_ports() {
    assert_eq!(port_config_for(false, None, None).http_port, 9090);
    assert_eq!(port_config_for(false, None, None).https_port, None);
    assert_eq!(port_config_for(true, None, None).https_port, Some(443));
    assert_eq!(port_config_for(true, Some(8080), None).http_port, 8080);
    assert_eq!(port_config_for(false, None, Some(8443)).http_port, 80);
    assert_eq!(port_config_for(false, Some(81), Some(8443)).https_port, Some(8443));
}

fn opts() -> ProxyOpts {
    ProxyOpts {
        name: None,
        controller_url: "http://ctrl".to_string(),
        cluster: ClusterName::from_str("example.com").unwrap(),
        https: false,
        http_port: None,
        https_port: None,
        cert_path: None,
        acme_endpoint: None,
        acme_email: None,
        acme_eab_kid: None,
        acme_eab_hmac_key: None,
        root_redirect_url: None,
    }
}

#[test]
fn command_errors() {
    let mut o = opts();
    o.acme_endpoint = Some("https://acme".to_string());
    assert_eq!(o.into_config().unwrap_err(), ProxyOptsError::AcmeEmailRequired);
    let mut o = opts();
    o.acme_email = Some("a@b".to_string());
    assert_eq!(o.into_config().unwrap_err(), ProxyOptsError::AcmeEndpointRequired);
    let mut o = opts();
    o.acme_eab_kid = Some("kid".to_string());
    assert_eq!(o.into_config().unwrap_err(), ProxyOptsError::EabKeyAndKidRequired);
    let mut o = opts();
    o.acme_eab_kid = Some("kid".to_string());
    o.acme_eab_hmac_key = Some("!!".to_string());
    assert_eq!(o.into_config().unwrap_err(), ProxyOptsError::InvalidEabKey);
    let mut o = opts();
    o.acme_endpoint = Some("https://acme".to_string());
    o.acme_email = Some("a@b".to_string());
    o.acme_eab_kid = Some("kid".to_string());
    o.acme_eab_hmac_key = Some("aGVsbG8".to_string());
    let config = o.into_config().unwrap();
    let acme = config.acme_config.unwrap();
    assert_eq!(acme.mailto_email, "a@b");
    assert_eq!(acme.acme_eab_keypair.unwrap().key_id, "kid");
    assert_eq!(config.port_config.http_port, 9090);
}

#[test]
fn eab_keys_decode() {
    let k = AcmeEabConfiguration::new("kid".to_string(), "aGVsbG8".to_string()).unwrap();
    assert_eq!(k.key_bytes().unwrap(), b"hello".to_vec());
    assert_eq!(k.eab_key_b64(), "aGVsbG8");
    assert!(AcmeEabConfiguration::new("kid".to_string(), "a=b".to_string()).is_err());
}

#[test]
fn monitor_keeps_used_backends() {
    let mut m = ConnectionMonitor::new();
    let b = BackendName::new("ba-1".to_string());
    assert!(m.touch_backend(&b, 1_000));
    assert!(!m.touch_backend(&b, 2_000));
    assert_eq!(m.next_visit_time(), Some(1_000 + HEARTBEAT_INTERVAL_MILLIS));
    assert!(!m.inc_connection(&b, 3_000));
    assert_eq!(m.get_backend_entry(&b).unwrap().active_connections, 1);
    m.dec_connection(&b);
    assert_eq!(m.get_backend_entry(&b).unwrap().active_connections, 0);
    // First visit: recently used, so kept and marked as not recent.
    assert!(matches!(m.visit_next(40_000), VisitOutcome::KeptAlive(_)));
    assert!(!m.get_backend_entry(&b).unwrap().had_recent_connection);
    // Second visit: idle, so forgotten.
    assert!(matches!(m.visit_next(80_000), VisitOutcome::Removed(_)));
    assert!(m.get_backend_entry(&b).is_none());
    assert!(matches!(m.visit_next(90_000), VisitOutcome::NothingQueued));
}

#[test]
fn monitor_keeps_open_connections() {
    let mut m = ConnectionMonitor::with_new_entries_recent(false);
    let b = BackendName::new("ba-2".to_string());
    assert!(m.touch_backend(&b, 0));
    assert!(!m.get_backend_entry(&b).unwrap().had_recent_connection);
    assert!(!m.inc_connection(&b, 0));
    assert!(matches!(m.visit_next(30_000), VisitOutcome::KeptAlive(_)));
    assert!(matches!(m.visit_next(60_000), VisitOutcome::KeptAlive(_)));
    assert_eq!(m.get_backend_entry(&b).unwrap().active_connections, 1);
}

#[test]
fn server_answers_gone_without_a_route() {
    let mut headers = vec![h("host", "example.com")];
    let resp = after_lookup(&mut headers, None, "/tok/a").unwrap_err();
    assert_eq!(resp.status, 410);
    assert!(resp.body.is_empty());
    assert_eq!(get(&resp.headers, "server"), Some("Plane"));
    assert_eq!(get(&resp.headers, "access-control-allow-headers"), Some("*"));
    assert_eq!(headers, vec![h("host", "example.com")]);
    let r = route(Some("sub"));
    let resp = after_lookup(&mut headers, Some(&r), "/tok/a").unwrap_err();
    assert_eq!(resp.status, 403);
    let r = route(None);
    assert!(after_lookup(&mut headers, Some(&r), "/tok/a").is_ok());
    assert_eq!(get(&headers, "x-plane-user"), Some("alice"));
    assert_eq!(get(&headers, "x-plane-auth"), Some("{\"a\":1}"));
    assert_eq!(get(&headers, "x-verified-backend"), Some("ba-1"));
}

#[test]
fn untracked_backends_in_the_monitor() {
    let b = BackendName::new("ba-untracked".to_string());
    let mut m = ConnectionMonitor::with_new_entries_recent(false);
    m.dec_connection(&b);
    assert!(m.get_backend_entry(&b).is_none());
    assert!(m.inc_connection(&b, 0));
    let e = m.get_backend_entry(&b).unwrap();
    assert_eq!(e.active_connections, 1);
    assert!(!e.had_recent_connection);
    let mut m = ConnectionMonitor::new();
    assert!(m.inc_connection(&b, 0));
    let e = m.get_backend_entry(&b).unwrap();
    assert_eq!(e.active_connections, 1);
    assert!(e.had_recent_connection);
    assert!(!m.inc_connection(&b, 10));
    m.dec_connection(&b);
    assert_eq!(m.get_backend_entry(&b).unwrap().active_connections, 1);
}
