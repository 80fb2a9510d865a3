use plane::names::BackendName;
use plane::types::backend_state::{
    BackendAddr, BackendError, BackendState, BackendStatus, BackendStatusStreamEntry, IpAddress,
    LoggableTime, TerminationKind, TerminationReason,
};
use plane::types::{BearerToken, ClusterName, ConnectResponse, KeyConfig, NodeId, NodeKind, SecretToken};
use plane::util::format_duration;

fn addr() -> BackendAddr {
    BackendAddr { ip: IpAddress::V4(0x7f000001), port: 8080 }
}

#[test]
fn status_ints_follow_the_lifecycle() {
    let order = [
        BackendStatus::Scheduled,
        BackendStatus::Loading,
        BackendStatus::Starting,
        BackendStatus::Waiting,
        BackendStatus::Ready,
        BackendStatus::Terminating,
        BackendStatus::HardTerminating,
        BackendStatus::Terminated,
    ];
    let ints: Vec<i32> = order.iter().map(|s| s.as_int()).collect();
    assert_eq!(ints, vec![10, 20, 30, 40, 50, 60, 65, 70]);
    for w in order.windows(2) {
        assert!(w[0].as_int() < w[1].as_int());
        assert!(w[1].is_at_or_after(&w[0]));
        assert!(!w[0].is_at_or_after(&w[1]));
    }
}

#[test]
fn status_names_round_trip() {
    for s in [
        BackendStatus::Scheduled,
        BackendStatus::Loading,
        BackendStatus::Starting,
        BackendStatus::Waiting,
        BackendStatus::Ready,
        BackendStatus::Terminating,
        BackendStatus::HardTerminating,
        BackendStatus::Terminated,
    ] {
        assert_eq!(BackendStatus::from_name(s.as_str()), Some(s));
    }
    assert_eq!(BackendStatus::HardTerminating.to_string(), "hard-terminating");
    assert_eq!(BackendStatus::from_name("Ready"), None);
}

#[test]
fn state_status_and_address() {
    let s = BackendState::default();
    assert_eq!(s, BackendState::Scheduled);
    assert_eq!(s.status(), BackendStatus::Scheduled);
    assert_eq!(s.address(), None);
    let w = s.to_waiting(addr());
    assert_eq!(w.status(), BackendStatus::Waiting);
    assert_eq!(w.address(), Some(addr()));
    assert_eq!(w.status_int(), 40);
    let r = w.to_ready(addr());
    assert_eq!(r.address(), Some(addr()));
    assert_eq!(s.to_loading().status(), BackendStatus::Loading);
    assert_eq!(s.to_starting().status(), BackendStatus::Starting);
}

#[test]
fn soft_termination_keeps_last_status() {
    let ready = BackendState::Ready { address: addr() };
    let t = ready.to_terminating(TerminationReason::Swept);
    assert_eq!(
        t,
        BackendState::Terminating {
            last_status: BackendStatus::Ready,
            termination: TerminationKind::Soft,
            reason: TerminationReason::Swept,
        }
    );
    // A second request changes nothing.
    assert_eq!(t.to_terminating(TerminationReason::External), t);
}

#[test]
fn hard_termination_after_soft_keeps_first_last_status() {
    let t = BackendState::Starting.to_terminating(TerminationReason::External);
    let h = t.to_hard_terminating(TerminationReason::Lost);
    assert_eq!(
        h,
        BackendState::HardTerminating { last_status: BackendStatus::Starting, reason: TerminationReason::Lost }
    );
    assert_eq!(h.to_hard_terminating(TerminationReason::Swept), h);
    assert_eq!(h.to_terminating(TerminationReason::Swept), h);
}

#[test]
fn terminated_is_final() {
    let h = BackendState::Loading.to_hard_terminating(TerminationReason::KeyExpired);
    let done = h.to_terminated(Some(3));
    assert_eq!(
        done,
        BackendState::Terminated {
            last_status: BackendStatus::Loading,
            termination: Some(TerminationKind::Hard),
            reason: Some(TerminationReason::KeyExpired),
            exit_code: Some(3),
        }
    );
    assert_eq!(done.to_terminated(Some(0)), done);
    assert_eq!(done.to_terminating(TerminationReason::Swept), done);
    let plain = BackendState::Ready { address: addr() }.to_terminated(None);
    assert_eq!(
        plain,
        BackendState::Terminated {
            last_status: BackendStatus::Ready,
            termination: None,
            reason: None,
            exit_code: None,
        }
    );
}

#[test]
fn status_stream_entry_reads_termination() {
    let soft = BackendState::Ready { address: addr() }.to_terminating(TerminationReason::Swept);
    let e = BackendStatusStreamEntry::from_state(soft, LoggableTime(5));
    assert_eq!(e.status, BackendStatus::Terminating);
    assert_eq!(e.termination_reason, Some(TerminationReason::Swept));
    assert_eq!(e.termination_kind, Some(TerminationKind::Soft));
    assert_eq!(e.exit_error, None);
    let failed = BackendState::Starting.to_terminated(Some(1));
    let e = BackendStatusStreamEntry::from_state(failed, LoggableTime(6));
    assert_eq!(e.exit_error, Some(true));
    let ok = BackendState::Starting.to_terminated(Some(0));
    assert_eq!(BackendStatusStreamEntry::from_state(ok, LoggableTime(7)).exit_error, Some(false));
}

#[test]
fn termination_reason_values() {
    assert_eq!(TerminationReason::KeyExpired.as_value(), "key_expired");
    assert_eq!(TerminationReason::StartupTimeout.as_value(), "startup_timeout");
    assert_eq!(BackendError::StartupTimeout.to_string(), "Timeout waiting for backend to start");
    assert_eq!(BackendError::Other("boom".to_string()).to_string(), "boom");
}

#[test]
fn node_id_round_trip() {
    let n = NodeId::from_i32(-42);
    assert_eq!(n.as_i32(), -42);
    assert_eq!(n.to_string(), "-42");
    assert_eq!(NodeId::from_i32(7).to_string(), "7");
}

#[test]
fn cluster_names() {
    let c = ClusterName::from_str("example.com").unwrap();
    assert!(c.is_https());
    assert_eq!(c.as_str(), "example.com");
    assert!(ClusterName::from_str("localhost:9090").is_ok());
    assert!(!ClusterName::from_str("localhost:9090").unwrap().is_https());
    assert!(ClusterName::from_str("example.com:443").unwrap().is_https());
    assert_eq!(ClusterName::from_str("example.com:notaport").unwrap_err(), "invalid port");
    assert_eq!(ClusterName::from_str("exa mple.com").unwrap_err(), "invalid hostname or ip");
    assert_eq!(ClusterName::check("example.com", false).unwrap_err(), "invalid hostname or ip");
}

#[test]
fn bearer_tokens() {
    let t = BearerToken::new_random_static();
    assert!(t.is_static());
    assert!(t.as_str().starts_with("s."));
    assert_eq!(t.as_str().len(), 45);
    assert!(!BearerToken::from("abc".to_string()).is_static());
    assert!(BearerToken::from("s.abc".to_string()).is_static());
    let a = BearerToken::new_random_static();
    assert_ne!(a, t);
}

#[test]
fn random_key_config() {
    let k = KeyConfig::new_random();
    assert!(!k.name.is_empty());
    assert_eq!(k.namespace, "");
    assert_eq!(k.tag, "");
    assert_ne!(KeyConfig::new_random().name, k.name);
}

#[test]
fn connect_response_url() {
    let cluster = ClusterName::from_str("example.com").unwrap();
    let r = ConnectResponse::new(
        BackendName::new("ba-1".to_string()),
        &cluster,
        true,
        BackendStatus::Scheduled,
        BearerToken::from("tok".to_string()),
        Some(SecretToken::from("sec".to_string())),
        "http://ctrl/status".to_string(),
        None,
    );
    assert_eq!(r.url, "https://example.com/tok/");
    let local = ClusterName::from_str("localhost:9090").unwrap();
    let r = ConnectResponse::new(
        BackendName::new("ba-1".to_string()),
        &local,
        false,
        BackendStatus::Ready,
        BearerToken::from("tok".to_string()),
        None,
        "s".to_string(),
        None,
    );
    assert_eq!(r.url, "http://localhost:9090/tok/");
}

#[test]
fn node_kinds_round_trip() {
    for k in [NodeKind::Proxy, NodeKind::Drone, NodeKind::AcmeDnsServer] {
        assert_eq!(NodeKind::from_name(&k.to_string()), Some(k));
    }
    assert_eq!(NodeKind::Drone.to_string(), "Drone");
    assert_eq!(NodeKind::from_name("drone"), None);
}

#[test]
fn durations_format() {
    assert_eq!(format_duration(0), "0s");
    assert_eq!(format_duration(59), "59s");
    assert_eq!(format_duration(3600), "1h");
    assert_eq!(format_duration(90061), "1d 1h 1m 1s");
    assert_eq!(format_duration(-90), "0s");
    assert_eq!(format_duration(86400 * 3 + 120), "3d 2m");
}
