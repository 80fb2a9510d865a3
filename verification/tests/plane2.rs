use plane::names::BackendName;
use plane::plane2::client::{http_to_ws_url, read_response, ParsedUrl, PlaneClient, PlaneClientError, ResponseReading};
use plane::plane2::command::{proxy_settings, ProxyCommandError};
use plane::plane2::controller::connect::connect_error_to_response;
use plane::plane2::controller::proxy::{lease_reply, route_reply, txt_reply, work_for, ProxySocketWork};
use plane::plane2::database::backend_key::{BackendKeyHealth, BackendKeyResult};
use plane::plane2::database::connect::{
    begin_connect, connect_step, should_retry, spawn_lease, ConnectAction, ConnectError, ConnectEvent, ConnectStage,
};
use plane::plane2::database::node::{node_active, NodeHeartbeatNotification};
use plane::plane2::dns::{lookup_cluster, no_record_error, txt_answer, DnsResponseCode};
use plane::plane2::drone::backend_manager::{after_pull, after_spawn, after_wait, step_state, StepStatusResult};
use plane::plane2::drone::docker::{
    container_env, container_port_key, cpu_ulimit_minutes, create_labels, port_from_bindings, should_pull, storage_size,
};
use plane::plane2::drone::executor::MetricsListener;
use plane::plane2::drone::key_manager::{after_termination, renew_request, renew_step, AfterTermination, RenewAction};
use plane::plane2::drone::wait_backend::{backend_ready, head_request_bytes, ProbeOutcome};
use plane::plane2::protocol::{
    drone_work_for, AcquiredKey, BackendAction, BackendActionMessage, BackendEventId, CertManagerRequest,
    CertManagerResponse, DroneWork, MessageFromDrone, MessageFromProxy, MessageToDrone, MessageToProxy, RouteInfoRequest,
};
use plane::plane2::typed_socket::client::{handshake_text, on_incoming, server_on_incoming, IncomingFrame, IncomingStep};
use plane::plane2::typed_socket::ping::PingSender;
use plane::plane2::types::{
    BackendKeyId, LoggableTime, BackendState, BackendStatus, BearerToken, ClusterName, ConnectRequest, ExecutorConfig, KeyConfig, NodeId,
    PullPolicy, SpawnConfig, TerminationKind,
};
use plane::plane2::util::{random_prefixed_string, random_string, random_token, BackoffSteps, BackoffWait, Callback};

#[test]
fn random_strings() {
    let s = random_string();
    assert_eq!(s.len(), 14);
    assert!(s.chars().all(|c| c.is_ascii_lowercase() || c.is_ascii_digit()));
    assert_ne!(random_string(), s);
    let p = random_prefixed_string("ba");
    assert!(p.starts_with("ba-"));
    assert_eq!(p.len(), 17);
    let t = random_token();
    assert_eq!(t.len(), 43);
    assert!(t.chars().all(|c| c.is_ascii_alphanumeric() || c == '-' || c == '_'));
}

#[test]
fn callbacks_call_their_function() {
    let cb = Callback::new(|x: u32| if x > 1 { Ok(()) } else { Err("small") }, "checks size");
    assert_eq!(cb.call(2), Ok(()));
    assert_eq!(cb.call(0), Err("small"));
    assert_eq!(cb.description(), "checks size");
    let seen = std::cell::Cell::new(0);
    let listener = MetricsListener::new(|n: u32| seen.set(n));
    listener.call(7);
    assert_eq!(seen.get(), 7);
}

#[test]
fn backoff_counts_and_resets() {
    let mut b = BackoffSteps::new();
    assert_eq!(b.begin_wait(0), BackoffWait::Wait { step: 0 });
    assert_eq!(b.begin_wait(10), BackoffWait::Wait { step: 1 });
    b.defer_reset(100, 60_000);
    // Called again before the deferral runs out: the count goes on.
    assert_eq!(b.begin_wait(200), BackoffWait::Wait { step: 2 });
    b.defer_reset(300, 60_000);
    assert_eq!(b.begin_wait(70_000), BackoffWait::Reset);
    assert_eq!(b.step(), 0);
}

#[test]
fn ping_round_trips() {
    let mut p = PingSender::new();
    assert_eq!(p.finish_current_attempt(0), 0);
    let id = p.start_attempt(1_000);
    assert_eq!(p.register_result(id.wrapping_add(1), 1_500), None);
    assert_eq!(p.register_result(id, 1_250), Some(250));
    assert_eq!(p.register_result(id, 1_300), None);
    let _ = p.start_attempt(2_000);
    assert_eq!(p.finish_current_attempt(12_000), 20_000);
}

#[test]
fn key_renewal_escalates() {
    let key = AcquiredKey {
        key: KeyConfig::new_random(),
        backend: BackendName::new("ba".to_string()),
        renew_at: 100,
        soft_terminate_at: 200,
        hard_terminate_at: 300,
        token: 1,
    };
    assert_eq!(renew_step(&key, 50), RenewAction::Sleep { until: 100 });
    assert_eq!(renew_step(&key, 150), RenewAction::Renew { sleep_until: 200 });
    assert_eq!(renew_step(&key, 250), RenewAction::SoftTerminate { sleep_until: 300 });
    assert_eq!(renew_step(&key, 300), RenewAction::HardTerminate);
    let request = renew_request(&key, LoggableTime(150));
    assert_eq!(request.key, key.key);
    assert_eq!(request.token, 1);
    assert_eq!(request.backend, key.backend);
    assert_eq!(request.local_time, LoggableTime(150));
    assert_eq!(after_termination(true, true), AfterTermination::End);
    assert_eq!(after_termination(false, true), AfterTermination::Continue);
    assert_eq!(after_termination(true, false), AfterTermination::Retry { wait_ms: 1_000 });
}

#[test]
fn spawned_backends_get_a_lease() {
    let key = KeyConfig { name: "k".to_string(), namespace: String::new(), tag: String::new() };
    let backend = BackendName::new("ba-new".to_string());
    let lease = spawn_lease(&key, &backend, 1_000_000);
    assert_eq!(lease.key, key);
    assert_eq!(lease.backend, backend);
    assert_eq!(lease.renew_at, 1_030_000);
    assert_eq!(lease.soft_terminate_at, 1_040_000);
    assert_eq!(lease.hard_terminate_at, 1_040_000);
    assert_eq!(lease.token, 0);
}

#[test]
fn statuses_compare_in_lifecycle_order() {
    assert!(BackendStatus::Scheduled < BackendStatus::Loading);
    assert!(BackendStatus::Ready < BackendStatus::Terminating);
    assert!(BackendStatus::Terminating < BackendStatus::Terminated);
}

#[test]
fn backend_manager_steps() {
    let s = BackendState { status: BackendStatus::Scheduled, address: None, termination: None, exit_code: None };
    assert_eq!(step_state(&s, PullPolicy::IfNotPresent), StepStatusResult::SetState(s.to_loading()));
    let l = s.to_loading();
    assert_eq!(step_state(&l, PullPolicy::Always), StepStatusResult::PullImage { force: true });
    assert_eq!(step_state(&l, PullPolicy::Never), StepStatusResult::SetState(l.to_starting()));
    assert_eq!(after_pull(&l, false), BackendState::terminated(None));
    let st = after_pull(&l, true);
    assert_eq!(st.status, BackendStatus::Starting);
    assert_eq!(step_state(&st, PullPolicy::Never), StepStatusResult::SpawnContainer);
    assert_eq!(after_spawn(&st, None).status, BackendStatus::Terminated);
    let hard = BackendState::terminating(TerminationKind::Hard);
    assert_eq!(step_state(&hard, PullPolicy::Never), StepStatusResult::TerminateContainer { hard: true });
    let w = after_wait(&st);
    assert_eq!(w.status, BackendStatus::Ready);
    assert_eq!(step_state(&w, PullPolicy::Never), StepStatusResult::DoNothing);
}

#[test]
fn connect_decisions() {
    let spawn = SpawnConfig {
        executable: ExecutorConfig::from_image_with_defaults("img".to_string()),
        lifetime_limit_seconds: None,
        max_idle_seconds: None,
    };
    let key = KeyConfig { name: "k".to_string(), namespace: String::new(), tag: "t".to_string() };
    let with_key = ConnectRequest { key: Some(key.clone()), ..ConnectRequest::default() };
    let spawning = ConnectRequest { spawn_config: Some(spawn), ..ConnectRequest::default() };
    let held = |tag: &str, age_ms: i64| BackendKeyResult {
        id: BackendKeyId::from_i32(7),
        tag: tag.to_string(),
        backend_id: BackendName::new("ba".to_string()),
        last_renewed: 1_000_000,
        as_of: 1_000_000 + age_ms,
    };

    // With a key, the key is looked up first.
    let (stage, action) = begin_connect(&with_key);
    assert!(matches!(&stage, Some(ConnectStage::CheckingKey(k)) if k == &key));
    assert!(matches!(action, ConnectAction::CheckKey(ref k) if k == &key));
    // Without a key or a spawn config, nothing can be done.
    assert!(matches!(begin_connect(&ConnectRequest::default()), (None, ConnectAction::Fail(ConnectError::KeyUnheldNoSpawnConfig))));
    // Without a key, a backend is spawned under a random key.
    let (stage, action) = begin_connect(&spawning);
    assert!(matches!(&stage, Some(ConnectStage::PickingDrone(k)) if k.name.starts_with("lk-") && k.tag.is_empty()));
    assert!(matches!(action, ConnectAction::PickDrone));

    // A held, active key with the same tag: connect to its backend.
    let (next, action) = connect_step(&with_key, ConnectStage::CheckingKey(key.clone()), ConnectEvent::KeyChecked(Some(held("t", 10_000))));
    assert!(next.is_none());
    assert!(matches!(action, ConnectAction::CreateToken { ref backend, spawned: false } if backend.as_str() == "ba"));
    // Another tag: refused.
    let (_, action) = connect_step(&with_key, ConnectStage::CheckingKey(key.clone()), ConnectEvent::KeyChecked(Some(held("u", 10_000))));
    assert!(matches!(action, ConnectAction::Fail(ConnectError::KeyHeld { ref request_tag, ref key_tag }) if request_tag == "t" && key_tag == "u"));
    // Not renewed for over 45 s: unhealthy.
    let (_, action) = connect_step(&with_key, ConnectStage::CheckingKey(key.clone()), ConnectEvent::KeyChecked(Some(held("t", 46_000))));
    assert!(matches!(action, ConnectAction::Fail(ConnectError::KeyHeldUnhealthy)));
    // Not renewed for over 120 s: the lease is removed.
    let (next, action) = connect_step(&with_key, ConnectStage::CheckingKey(key.clone()), ConnectEvent::KeyChecked(Some(held("t", 121_000))));
    assert!(matches!(next, Some(ConnectStage::RemovingKey(_))));
    assert!(matches!(action, ConnectAction::RemoveKey(id) if id.as_i32() == 7));
    let (_, action) = connect_step(&with_key, ConnectStage::RemovingKey(key.clone()), ConnectEvent::KeyRemoved(false));
    assert!(matches!(action, ConnectAction::Fail(ConnectError::FailedToRemoveKey)));
    // Removed, but the request cannot spawn.
    let (_, action) = connect_step(&with_key, ConnectStage::RemovingKey(key.clone()), ConnectEvent::KeyRemoved(true));
    assert!(matches!(action, ConnectAction::Fail(ConnectError::KeyUnheldNoSpawnConfig)));
    // No lease on the key, and a spawn config: pick a drone.
    let both = ConnectRequest { key: Some(key.clone()), ..spawning.clone() };
    let (next, action) = connect_step(&both, ConnectStage::CheckingKey(key.clone()), ConnectEvent::KeyChecked(None));
    assert!(matches!(next, Some(ConnectStage::PickingDrone(ref k)) if k == &key));
    assert!(matches!(action, ConnectAction::PickDrone));
    let (_, action) = connect_step(&both, ConnectStage::PickingDrone(key.clone()), ConnectEvent::DronePicked(None));
    assert!(matches!(action, ConnectAction::Fail(ConnectError::NoDroneAvailable)));
    let (next, action) = connect_step(&both, ConnectStage::PickingDrone(key.clone()), ConnectEvent::DronePicked(Some(NodeId::from_i32(4))));
    assert!(matches!(next, Some(ConnectStage::CreatingBackend(_))));
    assert!(matches!(action, ConnectAction::CreateBackend { ref key, drone } if key.name == "k" && drone.as_i32() == 4));
    let (_, action) = connect_step(&both, ConnectStage::CreatingBackend(key.clone()), ConnectEvent::BackendCreated(None));
    assert!(matches!(action, ConnectAction::Fail(ConnectError::FailedToAcquireKey)));
    let (next, action) = connect_step(
        &both,
        ConnectStage::CreatingBackend(key.clone()),
        ConnectEvent::BackendCreated(Some(BackendName::new("bn".to_string()))),
    );
    assert!(next.is_none());
    assert!(matches!(action, ConnectAction::CreateToken { ref backend, spawned: true } if backend.as_str() == "bn"));
    assert!(should_retry(&ConnectError::FailedToAcquireKey, 1));
    assert!(should_retry(&ConnectError::FailedToRemoveKey, 2));
    assert!(!should_retry(&ConnectError::FailedToAcquireKey, 3));
    assert!(!should_retry(&ConnectError::NoDroneAvailable, 1));
    assert_eq!(connect_error_to_response(&ConnectError::KeyHeldUnhealthy), (500, "Lock is held but unhealthy."));
    assert_eq!(connect_error_to_response(&ConnectError::FailedToRemoveKey), (409, "Failed to remove lock."));
    assert_eq!(connect_error_to_response(&ConnectError::Sql("x".to_string())), (500, "Internal error."));
}

#[test]
fn key_health_by_age() {
    let key = |age_ms: i64| BackendKeyResult {
        id: BackendKeyId::from_i32(1),
        tag: String::new(),
        backend_id: BackendName::new("ba".to_string()),
        last_renewed: 0,
        as_of: age_ms,
    };
    assert!(matches!(key(45_999).key_health(), BackendKeyHealth::Active(_)));
    assert!(matches!(key(46_000).key_health(), BackendKeyHealth::Unhealthy));
    assert!(matches!(key(120_999).key_health(), BackendKeyHealth::Unhealthy));
    assert!(matches!(key(121_000).key_health(), BackendKeyHealth::Expired));
}

#[test]
fn controller_proxy_socket() {
    let token = BearerToken::from("tok".to_string());
    assert!(matches!(
        work_for(Some(MessageFromProxy::RouteInfoRequest(RouteInfoRequest { token: token.clone() }))),
        ProxySocketWork::LookUpRoute { .. }
    ));
    assert!(matches!(work_for(Some(MessageFromProxy::CertManagerRequest(CertManagerRequest::ReleaseCertLease))), ProxySocketWork::ReleaseLease));
    assert!(matches!(work_for(None), ProxySocketWork::Close));
    assert!(route_reply(token.clone(), Err(())).is_none());
    assert!(matches!(route_reply(token, Ok(None)), Some(MessageToProxy::RouteInfoResponse(_))));
    assert!(matches!(
        lease_reply(Err(())),
        MessageToProxy::CertManagerResponse(CertManagerResponse::CertLeaseResponse { accepted: false })
    ));
    assert!(matches!(
        txt_reply(Ok(true)),
        Some(MessageToProxy::CertManagerResponse(CertManagerResponse::SetTxtRecordResponse { accepted: true }))
    ));
    assert!(txt_reply(Err(())).is_none());
}

#[test]
fn drone_messages() {
    let msg = MessageToDrone::Action(BackendActionMessage {
        action_id: "ak-1".to_string(),
        backend_id: BackendName::new("ba".to_string()),
        action: BackendAction::Terminate { kind: TerminationKind::Soft },
    });
    match drone_work_for(msg) {
        DroneWork::Apply { ack: MessageFromDrone::AckAction { action_id }, .. } => assert_eq!(action_id, "ak-1"),
        _ => panic!("expected an action"),
    }
    let id = BackendEventId::from(5);
    assert!(matches!(drone_work_for(MessageToDrone::AckEvent { event_id: id }), DroneWork::AckEvent(e) if e == id));
}

#[test]
fn dns_queries() {
    assert_eq!(lookup_cluster("_acme-challenge.foo.com.", true, "TXT").unwrap(), "foo.com");
    assert_eq!(lookup_cluster("_acme-challenge.foo.com", true, "TXT").unwrap(), "foo.com");
    let e = lookup_cluster("foo.com.", true, "TXT").unwrap_err();
    assert_eq!(e.code, DnsResponseCode::FormErr);
    assert_eq!(e.message, "Invalid TXT query: foo.com");
    let e = lookup_cluster("_acme-challenge.foo.com.", false, "A").unwrap_err();
    assert_eq!(e.code, DnsResponseCode::NotImp);
    assert_eq!(e.message, "Unsupported query type: A");
    assert_eq!(no_record_error("foo.com").message, "No TXT record found for foo.com");
    assert_eq!(txt_answer(Some("v".to_string())), vec![(300, "v".to_string())]);
    assert!(txt_answer(None).is_empty());
}

#[test]
fn docker_container_settings() {
    let labels = create_labels(&BackendName::new("ba-x".to_string()));
    assert_eq!(labels, vec![("dev.plane.backend".to_string(), "ba-x".to_string())]);
    assert_eq!(container_port_key(), "8080/tcp");
    let env = vec![("A".to_string(), "1".to_string()), ("PORT".to_string(), "1".to_string())];
    assert_eq!(
        container_env(&env, &BackendName::new("ba-x".to_string())),
        vec!["A=1".to_string(), "PORT=8080".to_string(), "PLANE_BACKEND_ID=ba-x".to_string()]
    );
    assert_eq!(cpu_ulimit_minutes(119), 1);
    assert_eq!(storage_size(1024), "1024");
    assert_eq!(port_from_bindings(&vec![Some("32768".to_string())]), Some(32768));
    assert_eq!(port_from_bindings(&vec![Some("+80".to_string())]), Some(80));
    assert_eq!(port_from_bindings(&vec![Some("x".to_string())]), None);
    assert_eq!(port_from_bindings(&vec![None]), None);
    assert_eq!(port_from_bindings(&vec![]), None);
    assert!(should_pull(true, true));
    assert!(should_pull(false, false));
    assert!(!should_pull(false, true));
}

#[test]
fn backend_probe() {
    assert_eq!(head_request_bytes(), b"HEAD / HTTP/1.1\r\nHost: localhost\r\n\r\n".to_vec());
    assert!(backend_ready(&ProbeOutcome::Answered(b"HTTP/".to_vec())));
    assert!(!backend_ready(&ProbeOutcome::Answered(b"HTTPS".to_vec())));
    assert!(!backend_ready(&ProbeOutcome::TimedOut));
}

#[test]
fn node_activity() {
    assert!(node_active(true, 30, true));
    assert!(!node_active(true, 31, true));
    assert!(!node_active(false, 0, true));
    assert!(!node_active(true, 0, false));
    assert_eq!(NodeHeartbeatNotification::kind(), "node_heartbeat");
    let n = NodeHeartbeatNotification { node_id: NodeId::from_i32(3) };
    assert_eq!(n.node_id.as_i32(), 3);
}

#[test]
fn proxy_command_settings() {
    assert_eq!(proxy_settings(false, None, None, Some("e".to_string()), None).unwrap_err(), ProxyCommandError::MissingAcmeEmail);
    assert_eq!(proxy_settings(false, None, None, None, Some("m".to_string())).unwrap_err(), ProxyCommandError::MissingAcmeEndpoint);
    let (ports, acme) = proxy_settings(true, None, None, Some("e".to_string()), Some("m".to_string())).unwrap();
    assert_eq!(ports.https_port, Some(443));
    assert_eq!(acme, Some(("e".to_string(), "m".to_string())));
    assert_eq!(ProxyCommandError::MissingAcmeEmail.to_string(), "Must specify --acme-email when using --acme-endpoint.");
}

#[test]
fn client_urls() {
    let base = ParsedUrl::parse("http://controller:8080/").unwrap();
    let client = PlaneClient::new(base);
    let cluster = ClusterName::from_str("example.com").unwrap();
    let path = PlaneClient::drone_socket_path(&cluster);
    assert_eq!(path, "/ctrl/c/example.com/drone-socket");
    let url = client.socket_url(&path).unwrap();
    assert_eq!(url.as_str(), "ws://controller:8080/ctrl/c/example.com/drone-socket");
    let status = client.endpoint_url(PlaneClient::status_path()).unwrap();
    assert_eq!(status.as_str(), "http://controller:8080/ctrl/status");
    let b = BackendName::new("ba-1".to_string());
    assert_eq!(PlaneClient::backend_status_path(&cluster, &b), "/pub/c/example.com/b/ba-1/status");
    assert_eq!(PlaneClient::drain_path(&cluster, "dr-1"), "/ctrl/c/example.com/d/dr-1/drain");
    let mut secure = ParsedUrl::parse("https://x.dev/a").unwrap();
    http_to_ws_url(&mut secure);
    assert_eq!(secure.scheme(), "wss");
    let mut other = ParsedUrl::parse("ftp://x.dev/a").unwrap();
    http_to_ws_url(&mut other);
    assert_eq!(other.scheme(), "ftp");
    assert!(ParsedUrl::parse("not a url").is_none());
    let opaque = PlaneClient::new(ParsedUrl::parse("mailto:a@b").unwrap());
    assert!(matches!(opaque.endpoint_url("/x"), Err(PlaneClientError::Url)));
}

#[test]
fn client_responses() {
    assert!(matches!(read_response(200, None), ResponseReading::ReadBody));
    assert!(matches!(read_response(404, None), ResponseReading::Failed(PlaneClientError::UnexpectedStatus(404))));
    assert!(matches!(
        read_response(409, Some("held".to_string())),
        ResponseReading::Failed(PlaneClientError::PlaneError(m, 409)) if m == "held"
    ));
}

#[test]
fn socket_frames() {
    assert!(matches!(on_incoming(IncomingFrame::Text("m".to_string())), IncomingStep::Deliver(m) if m == "m"));
    assert!(matches!(on_incoming(IncomingFrame::ResetWithoutClosingHandshake), IncomingStep::Stop));
    assert!(matches!(on_incoming(IncomingFrame::CloseFrame), IncomingStep::Ignore));
    assert!(matches!(server_on_incoming(IncomingFrame::CloseFrame), IncomingStep::Stop));
    assert!(matches!(server_on_incoming(IncomingFrame::ResetWithoutClosingHandshake), IncomingStep::Ignore));
    assert_eq!(handshake_text(None).unwrap_err(), "Socket closed before handshake received.");
    assert_eq!(handshake_text(Some(IncomingFrame::Other)).unwrap_err(), "Handshake message was not text.");
    assert_eq!(handshake_text(Some(IncomingFrame::Text("h".to_string()))).unwrap(), "h");
}
