use plane::protocol::{CertManagerRequest, CertManagerResponse};
use plane::proxy::cert_manager::{
    begin_refresh, refresh_step, OrderAction, OrderEvent, OrderPhase, RefreshAction, RefreshEvent, RefreshPhase,
    FAILURE_SLEEP_TIME_MS, LOCK_SLEEP_TIME_MS, RENEWAL_WINDOW_MS,
};

const DAY_MS: i64 = 86_400_000;

#[test]
fn refresh_sleeps_while_the_certificate_is_good() {
    let now = 1_000 * DAY_MS;
    let end = now + 40 * DAY_MS;
    let (phase, action) = begin_refresh(Some(end), now, true);
    assert_eq!(phase, RefreshPhase::Over);
    assert_eq!(action, RefreshAction::Sleep { ms: (end - now) as u64 - RENEWAL_WINDOW_MS });
}

#[test]
fn refresh_asks_for_the_lease_first() {
    let now = 1_000 * DAY_MS;
    let (phase, action) = begin_refresh(Some(now + 10 * DAY_MS), now, true);
    assert_eq!(phase, RefreshPhase::Lease);
    assert_eq!(action, RefreshAction::SendRequest(CertManagerRequest::CertLeaseRequest));
    let (phase, action) = begin_refresh(None, now, false);
    assert_eq!(phase, RefreshPhase::Account);
    assert_eq!(action, RefreshAction::BuildAccount);
    let (phase, action) = refresh_step(phase, RefreshEvent::AccountBuilt { ok: true }, "example.com");
    assert_eq!(phase, RefreshPhase::Lease);
    assert_eq!(action, RefreshAction::SendRequest(CertManagerRequest::CertLeaseRequest));
    let (phase, action) = refresh_step(RefreshPhase::Account, RefreshEvent::AccountBuilt { ok: false }, "example.com");
    assert_eq!(phase, RefreshPhase::Over);
    assert_eq!(action, RefreshAction::Error { reason: "Building account".to_string() });
}

#[test]
fn refresh_stops_unless_the_lease_is_granted() {
    let refused = Some(CertManagerResponse::CertLeaseResponse { accepted: false });
    assert_eq!(
        refresh_step(RefreshPhase::Lease, RefreshEvent::LeaseAnswer(refused), "example.com"),
        (RefreshPhase::Over, RefreshAction::Sleep { ms: LOCK_SLEEP_TIME_MS })
    );
    assert_eq!(
        refresh_step(RefreshPhase::Lease, RefreshEvent::LeaseAnswer(None), "example.com"),
        (RefreshPhase::Over, RefreshAction::End)
    );
    let other = Some(CertManagerResponse::SetTxtRecordResponse { accepted: true });
    assert_eq!(
        refresh_step(RefreshPhase::Lease, RefreshEvent::LeaseAnswer(other), "example.com"),
        (RefreshPhase::Over, RefreshAction::End)
    );
}

#[test]
fn refresh_orders_and_publishes() {
    let granted = Some(CertManagerResponse::CertLeaseResponse { accepted: true });
    let (phase, action) = refresh_step(RefreshPhase::Lease, RefreshEvent::LeaseAnswer(granted), "example.com");
    assert_eq!(phase, RefreshPhase::Obtaining(OrderPhase::Order));
    assert_eq!(
        action,
        RefreshAction::Order(OrderAction::BuildOrder {
            identifiers: vec!["example.com".to_string(), "*.example.com".to_string()]
        })
    );
    let (phase, action) = refresh_step(phase, RefreshEvent::Order(OrderEvent::OrderBuilt { authorizations: 0 }), "example.com");
    assert_eq!(action, RefreshAction::Order(OrderAction::WaitOrderReady));
    let (phase, action) = refresh_step(phase, RefreshEvent::Order(OrderEvent::OrderReadyDone { ready: true }), "example.com");
    assert_eq!(action, RefreshAction::Order(OrderAction::FinalizeOrder));
    let (phase, action) = refresh_step(phase, RefreshEvent::Order(OrderEvent::OrderFinalized { valid: true }), "example.com");
    assert_eq!(action, RefreshAction::Order(OrderAction::FetchCertificate));
    let (phase2, action) =
        refresh_step(phase, RefreshEvent::Order(OrderEvent::CertificateFetched { count: Some(2) }), "example.com");
    assert_eq!((phase2, action), (RefreshPhase::Over, RefreshAction::Publish));
    let (phase3, action) = refresh_step(
        phase,
        RefreshEvent::Order(OrderEvent::CallFailed { reason: "Getting certificate".to_string() }),
        "example.com",
    );
    assert_eq!((phase3, action), (RefreshPhase::Over, RefreshAction::Sleep { ms: FAILURE_SLEEP_TIME_MS }));
}
