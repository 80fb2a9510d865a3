//! The certificate refresh: when to renew, what to do with the controller's
//! answers to lease and TXT record requests, and the order of the ACME steps
//! that obtain a certificate. The steps themselves run outside; each one's
//! outcome comes back here as an event, and the next step goes out as an action.
use crate::protocol::{CertManagerRequest, CertManagerResponse};
use crate::text::{push_str, str_eq};
use vstd::prelude::*;
use vstd::string::*;

verus! {

/// The ACME challenge type that is answered with a DNS TXT record.
pub const DNS_01: &'static str = "dns-01";

/// How long to sleep after failing to acquire the certificate lease (1 minute).
pub const LOCK_SLEEP_TIME_MS: u64 = 60_000;

/// How long to sleep after failing to renew the certificate (5 minutes).
pub const FAILURE_SLEEP_TIME_MS: u64 = 300_000;

/// How long in advance of the certificate expiring to renew it (30 days).
pub const RENEWAL_WINDOW_MS: u64 = 2_592_000_000;

/// The longest sleep of the second-generation refresh (30 minutes).
pub const MAX_SLEEP_TIME_MS: u64 = 1_800_000;

/// How long until a certificate valid until `validity_end` is due for renewal.
pub open spec fn until_renewal(validity_end: int, now: int) -> int {
    validity_end - RENEWAL_WINDOW_MS - now
}

/// How long to sleep before renewing, in milliseconds: `None` when there is no
/// certificate or it is already due; otherwise the time until it is.
pub fn time_until_renewal(validity_end_ms: Option<i64>, now_ms: i64) -> (r: Option<u64>)
    ensures
        match validity_end_ms {
            Some(end) => if until_renewal(end as int, now_ms as int) > 0 {
                r == Some(until_renewal(end as int, now_ms as int) as u64)
            } else {
                r is None
            },
            None => r is None,
        },
{
    match validity_end_ms {
        Some(end) => {
            let wait: i128 = (end as i128) - (RENEWAL_WINDOW_MS as i128) - (now_ms as i128);
            if wait > 0 {
                Some(wait as u64)
            } else {
                None
            }
        },
        None => None,
    }
}

/// The second generation's renewal wait: an error when the renewal time has
/// passed; nothing to wait for when it is now; otherwise a sleep of the time
/// until it, but never less than `MAX_SLEEP_TIME_MS`.
pub open spec fn renewal_sleep_spec(validity_end: int, now: int) -> Result<Option<int>, ()> {
    let wait = until_renewal(validity_end, now);
    if wait < 0 {
        Err(())
    } else if wait == 0 {
        Ok(None)
    } else if wait > MAX_SLEEP_TIME_MS {
        Ok(Some(wait))
    } else {
        Ok(Some(MAX_SLEEP_TIME_MS as int))
    }
}

/// The second generation's renewal wait, as `renewal_sleep_spec` says.
pub fn renewal_sleep(validity_end_ms: i64, now_ms: i64) -> (r: Result<Option<u64>, ()>)
    ensures
        match (r, renewal_sleep_spec(validity_end_ms as int, now_ms as int)) {
            (Ok(Some(a)), Ok(Some(b))) => a == b,
            (Ok(None), Ok(None)) => true,
            (Err(_), Err(_)) => true,
            _ => false,
        },
{
    let wait: i128 = (validity_end_ms as i128) - (RENEWAL_WINDOW_MS as i128) - (now_ms as i128);
    if wait < 0 {
        Err(())
    } else if wait == 0 {
        Ok(None)
    } else if wait > MAX_SLEEP_TIME_MS as i128 {
        Ok(Some(wait as u64))
    } else {
        Ok(Some(MAX_SLEEP_TIME_MS))
    }
}

/// What the answer to a lease request means.
#[derive(Clone, Copy, Debug, PartialEq, Eq, Structural)]
pub enum LeaseDecision {
    /// The lease is ours: go on to obtain the certificate.
    Granted,
    /// Another proxy holds the lease: sleep `LOCK_SLEEP_TIME_MS`, then start over.
    Refused,
    /// No usable answer: start over.
    Abandon,
}

/// What the answer to a lease request means; `None` is an answer that never came.
pub fn lease_decision(response: Option<CertManagerResponse>) -> (r: LeaseDecision)
    ensures
        r == (match response {
            Some(CertManagerResponse::CertLeaseResponse { accepted: true }) => LeaseDecision::Granted,
            Some(CertManagerResponse::CertLeaseResponse { accepted: false }) => LeaseDecision::Refused,
            _ => LeaseDecision::Abandon,
        }),
{
    match response {
        Some(CertManagerResponse::CertLeaseResponse { accepted: true }) => LeaseDecision::Granted,
        Some(CertManagerResponse::CertLeaseResponse { accepted: false }) => LeaseDecision::Refused,
        _ => LeaseDecision::Abandon,
    }
}

/// Where an ACME order stands.
#[derive(Clone, Copy, Debug, PartialEq, Eq, Structural)]
pub enum OrderPhase {
    /// Waiting for the ACME account.
    Account,
    /// Waiting for the order and its authorizations.
    Order,
    /// Waiting for the dns-01 challenge of authorization `index` of `count`.
    Challenge { index: u64, count: u64 },
    /// Waiting for the controller to answer the TXT record of authorization `index`.
    TxtRecord { index: u64, count: u64, already_valid: bool },
    /// Waiting for the challenge of authorization `index` to validate.
    Validation { index: u64, count: u64 },
    /// Waiting for authorization `index` to be done.
    Authorization { index: u64, count: u64 },
    /// Waiting for the order to become ready.
    OrderReady,
    /// Waiting for the finalized order to become done.
    Finalize,
    /// Waiting for the certificate chain.
    Certificate,
    /// The certificate chain is in.
    Done,
    /// The order failed.
    Failed,
}

/// The outcome of the last ACME step.
#[derive(Clone, Debug, PartialEq, Eq)]
pub enum OrderEvent {
    /// The account was built.
    AccountBuilt,
    /// The order was built; it has this many authorizations.
    OrderBuilt { authorizations: u64 },
    /// The dns-01 challenge came, with its TXT value (`None` when it has none),
    /// and whether it is valid already.
    ChallengeFetched { txt_value: Option<String>, already_valid: bool },
    /// The controller's answer to the TXT record request (`None` when it never came).
    TxtResponse(Option<CertManagerResponse>),
    /// The challenge is done; whether it is valid.
    ChallengeDone { valid: bool },
    /// The authorization is done; whether it is valid.
    AuthorizationDone { valid: bool },
    /// The order is done waiting to be ready; whether it is.
    OrderReadyDone { ready: bool },
    /// The finalized order is done; whether it is valid.
    OrderFinalized { valid: bool },
    /// The certificate chain: how many certificates it holds, or `None` when the
    /// response had none.
    CertificateFetched { count: Option<u64> },
    /// The step failed; what failed.
    CallFailed { reason: String },
}

/// The next ACME step to take.
#[derive(Clone, Debug, PartialEq, Eq)]
pub enum OrderAction {
    BuildAccount,
    /// Build an order for these DNS identifiers and fetch its authorizations.
    BuildOrder { identifiers: Vec<String> },
    /// Fetch the dns-01 challenge of authorization `index`.
    FetchChallenge { index: u64 },
    /// Send this request to the controller and wait for its answer.
    SendRequest(CertManagerRequest),
    /// Validate the challenge of authorization `index` and wait for it.
    ValidateChallenge { index: u64 },
    /// Wait for authorization `index` to be done.
    WaitAuthorization { index: u64 },
    WaitOrderReady,
    /// Make a key, finalize the order with it, and wait for the order.
    FinalizeOrder,
    FetchCertificate,
    /// The certificate chain is in.
    Finished,
    /// The order failed, for this reason.
    Fail { reason: String },
}

/// An action with its texts as character sequences.
pub enum OrderActionView {
    BuildAccount,
    BuildOrder { identifiers: Seq<Seq<char>> },
    FetchChallenge { index: u64 },
    SetTxtRecord { txt_value: Seq<char> },
    ValidateChallenge { index: u64 },
    WaitAuthorization { index: u64 },
    WaitOrderReady,
    FinalizeOrder,
    FetchCertificate,
    Finished,
    Fail { reason: Seq<char> },
    Other,
}

impl View for OrderAction {
    type V = OrderActionView;

    open spec fn view(&self) -> OrderActionView {
        match self {
            OrderAction::BuildAccount => OrderActionView::BuildAccount,
            OrderAction::BuildOrder { identifiers } => OrderActionView::BuildOrder {
                identifiers: identifiers@.map_values(|s: String| s@),
            },
            OrderAction::FetchChallenge { index } => OrderActionView::FetchChallenge { index: *index },
            OrderAction::SendRequest(CertManagerRequest::SetTxtRecord { txt_value }) => {
                OrderActionView::SetTxtRecord { txt_value: txt_value@ }
            },
            OrderAction::SendRequest(_) => OrderActionView::Other,
            OrderAction::ValidateChallenge { index } => OrderActionView::ValidateChallenge {
                index: *index,
            },
            OrderAction::WaitAuthorization { index } => OrderActionView::WaitAuthorization {
                index: *index,
            },
            OrderAction::WaitOrderReady => OrderActionView::WaitOrderReady,
            OrderAction::FinalizeOrder => OrderActionView::FinalizeOrder,
            OrderAction::FetchCertificate => OrderActionView::FetchCertificate,
            OrderAction::Finished => OrderActionView::Finished,
            OrderAction::Fail { reason } => OrderActionView::Fail { reason: reason@ },
        }
    }
}

/// The DNS names the certificate is ordered for: the cluster and every name
/// under it, or, for a wildcard-only order, just the names under it.
pub open spec fn order_identifiers(cluster: Seq<char>, wildcard_only: bool) -> Seq<Seq<char>> {
    if wildcard_only {
        seq!["*."@ + cluster]
    } else {
        seq![cluster, "*."@ + cluster]
    }
}

/// The reason given when an event comes that the phase does not wait for.
pub open spec fn unexpected_step() -> Seq<char> {
    "Unexpected ACME step."@
}

/// One step of an ACME order: from the phase and the outcome of the last step,
/// the next phase and the next step. A rejection or failure at any point ends
/// the order as failed, with the reason the step gives.
pub open spec fn order_step(
    phase: OrderPhase,
    event: OrderEvent,
    cluster: Seq<char>,
    wildcard_only: bool,
) -> (OrderPhase, OrderActionView) {
    match (phase, event) {
        (OrderPhase::Done, _) => (OrderPhase::Done, OrderActionView::Finished),
        (OrderPhase::Failed, _) => (OrderPhase::Failed, OrderActionView::Fail { reason: unexpected_step() }),
        (_, OrderEvent::CallFailed { reason }) => (OrderPhase::Failed, OrderActionView::Fail { reason: reason@ }),
        (OrderPhase::Account, OrderEvent::AccountBuilt) => (
            OrderPhase::Order,
            OrderActionView::BuildOrder { identifiers: order_identifiers(cluster, wildcard_only) },
        ),
        (OrderPhase::Order, OrderEvent::OrderBuilt { authorizations }) => if authorizations == 0 {
            (OrderPhase::OrderReady, OrderActionView::WaitOrderReady)
        } else {
            (
                OrderPhase::Challenge { index: 0, count: authorizations },
                OrderActionView::FetchChallenge { index: 0 },
            )
        },
        (OrderPhase::Challenge { index, count }, OrderEvent::ChallengeFetched { txt_value, already_valid }) => {
            match txt_value {
                Some(t) => (
                    OrderPhase::TxtRecord { index, count, already_valid },
                    OrderActionView::SetTxtRecord { txt_value: t@ },
                ),
                None => (OrderPhase::Failed, OrderActionView::Fail { reason: "No authorization value."@ }),
            }
        },
        (OrderPhase::TxtRecord { index, count, already_valid }, OrderEvent::TxtResponse(response)) => {
            match response {
                None => (OrderPhase::Failed, OrderActionView::Fail { reason: "Cert manager error."@ }),
                Some(CertManagerResponse::SetTxtRecordResponse { accepted: true }) => if already_valid {
                    (
                        OrderPhase::Authorization { index, count },
                        OrderActionView::WaitAuthorization { index },
                    )
                } else {
                    (
                        OrderPhase::Validation { index, count },
                        OrderActionView::ValidateChallenge { index },
                    )
                },
                Some(CertManagerResponse::SetTxtRecordResponse { accepted: false }) => (
                    OrderPhase::Failed,
                    OrderActionView::Fail { reason: "Cert manager rejected TXT record request."@ },
                ),
                Some(_) => (
                    OrderPhase::Failed,
                    OrderActionView::Fail { reason: "Unexpected response from cert manager."@ },
                ),
            }
        },
        (OrderPhase::Validation { index, count }, OrderEvent::ChallengeDone { valid }) => if valid {
            (OrderPhase::Authorization { index, count }, OrderActionView::WaitAuthorization { index })
        } else {
            (OrderPhase::Failed, OrderActionView::Fail { reason: "ACME challenge failed."@ })
        },
        (OrderPhase::Authorization { index, count }, OrderEvent::AuthorizationDone { valid }) => if !valid {
            (OrderPhase::Failed, OrderActionView::Fail { reason: "ACME authorization failed."@ })
        } else if index + 1 < count {
            (
                OrderPhase::Challenge { index: (index + 1) as u64, count },
                OrderActionView::FetchChallenge { index: (index + 1) as u64 },
            )
        } else {
            (OrderPhase::OrderReady, OrderActionView::WaitOrderReady)
        },
        (OrderPhase::OrderReady, OrderEvent::OrderReadyDone { ready }) => if ready {
            (OrderPhase::Finalize, OrderActionView::FinalizeOrder)
        } else {
            (OrderPhase::Failed, OrderActionView::Fail { reason: "ACME order failed."@ })
        },
        (OrderPhase::Finalize, OrderEvent::OrderFinalized { valid }) => if valid {
            (OrderPhase::Certificate, OrderActionView::FetchCertificate)
        } else {
            (OrderPhase::Failed, OrderActionView::Fail { reason: "ACME order not valid."@ })
        },
        (OrderPhase::Certificate, OrderEvent::CertificateFetched { count }) => match count {
            None => (
                OrderPhase::Failed,
                OrderActionView::Fail { reason: "ACME order response didn't include certificate."@ },
            ),
            Some(n) => if n == 0 {
                (OrderPhase::Failed, OrderActionView::Fail { reason: "Certificate list is empty."@ })
            } else {
                (OrderPhase::Done, OrderActionView::Finished)
            },
        },
        _ => (OrderPhase::Failed, OrderActionView::Fail { reason: unexpected_step() }),
    }
}

/// Whether a phase is well formed: the authorization it is at exists.
pub open spec fn phase_wf(phase: OrderPhase) -> bool {
    match phase {
        OrderPhase::Challenge { index, count } => index < count,
        OrderPhase::TxtRecord { index, count, .. } => index < count,
        OrderPhase::Validation { index, count } => index < count,
        OrderPhase::Authorization { index, count } => index < count,
        _ => true,
    }
}

fn fail(reason: &str) -> (r: (OrderPhase, OrderAction))
    ensures
        r.0 == OrderPhase::Failed,
        r.1@ == (OrderActionView::Fail { reason: reason@ }),
{
    (OrderPhase::Failed, OrderAction::Fail { reason: reason.to_owned() })
}

/// The identifiers of the order, as `order_identifiers` says.
pub fn identifiers_for(cluster: &str, wildcard_only: bool) -> (r: Vec<String>)
    ensures
        r@.map_values(|s: String| s@) == order_identifiers(cluster@, wildcard_only),
{
    proof {
        reveal_strlit("*.");
    }
    let mut wildcard = "*.".to_owned();
    push_str(&mut wildcard, cluster);
    let mut ids: Vec<String> = Vec::new();
    if !wildcard_only {
        ids.push(cluster.to_owned());
    }
    ids.push(wildcard);
    proof {
        assert(ids@.map_values(|s: String| s@) =~= order_identifiers(cluster@, wildcard_only));
    }
    ids
}

/// One step of an ACME order, as `order_step` says.
pub fn next_order_step(phase: OrderPhase, event: OrderEvent, cluster: &str, wildcard_only: bool) -> (r: (
    OrderPhase,
    OrderAction,
))
    requires
        phase_wf(phase),
    ensures
        (r.0, r.1@) == order_step(phase, event, cluster@, wildcard_only),
        phase_wf(r.0),
{
    match phase {
        OrderPhase::Done => return (OrderPhase::Done, OrderAction::Finished),
        OrderPhase::Failed => return fail("Unexpected ACME step."),
        _ => {},
    }
    match event {
        OrderEvent::CallFailed { reason } => {
            return (OrderPhase::Failed, OrderAction::Fail { reason });
        },
        _ => {},
    }
    match (phase, event) {
        (OrderPhase::Account, OrderEvent::AccountBuilt) => (
            OrderPhase::Order,
            OrderAction::BuildOrder { identifiers: identifiers_for(cluster, wildcard_only) },
        ),
        (OrderPhase::Order, OrderEvent::OrderBuilt { authorizations }) => if authorizations == 0 {
            (OrderPhase::OrderReady, OrderAction::WaitOrderReady)
        } else {
            (
                OrderPhase::Challenge { index: 0, count: authorizations },
                OrderAction::FetchChallenge { index: 0 },
            )
        },
        (OrderPhase::Challenge { index, count }, OrderEvent::ChallengeFetched { txt_value, already_valid }) => {
            match txt_value {
                Some(t) => (
                    OrderPhase::TxtRecord { index, count, already_valid },
                    OrderAction::SendRequest(CertManagerRequest::SetTxtRecord { txt_value: t }),
                ),
                None => fail("No authorization value."),
            }
        },
        (OrderPhase::TxtRecord { index, count, already_valid }, OrderEvent::TxtResponse(response)) => {
            match response {
                None => fail("Cert manager error."),
                Some(CertManagerResponse::SetTxtRecordResponse { accepted: true }) => if already_valid {
                    (OrderPhase::Authorization { index, count }, OrderAction::WaitAuthorization { index })
                } else {
                    (OrderPhase::Validation { index, count }, OrderAction::ValidateChallenge { index })
                },
                Some(CertManagerResponse::SetTxtRecordResponse { accepted: false }) => fail(
                    "Cert manager rejected TXT record request.",
                ),
                Some(_) => fail("Unexpected response from cert manager."),
            }
        },
        (OrderPhase::Validation { index, count }, OrderEvent::ChallengeDone { valid }) => if valid {
            (OrderPhase::Authorization { index, count }, OrderAction::WaitAuthorization { index })
        } else {
            fail("ACME challenge failed.")
        },
        (OrderPhase::Authorization { index, count }, OrderEvent::AuthorizationDone { valid }) => if !valid {
            fail("ACME authorization failed.")
        } else if index + 1 < count {
            (
                OrderPhase::Challenge { index: index + 1, count },
                OrderAction::FetchChallenge { index: index + 1 },
            )
        } else {
            (OrderPhase::OrderReady, OrderAction::WaitOrderReady)
        },
        (OrderPhase::OrderReady, OrderEvent::OrderReadyDone { ready }) => if ready {
            (OrderPhase::Finalize, OrderAction::FinalizeOrder)
        } else {
            fail("ACME order failed.")
        },
        (OrderPhase::Finalize, OrderEvent::OrderFinalized { valid }) => if valid {
            (OrderPhase::Certificate, OrderAction::FetchCertificate)
        } else {
            fail("ACME order not valid.")
        },
        (OrderPhase::Certificate, OrderEvent::CertificateFetched { count }) => match count {
            None => fail("ACME order response didn't include certificate."),
            Some(n) => if n == 0 {
                fail("Certificate list is empty.")
            } else {
                (OrderPhase::Done, OrderAction::Finished)
            },
        },
        _ => fail("Unexpected ACME step."),
    }
}

/// How far an order has come: every step that does not fail takes it further.
pub open spec fn order_progress(phase: OrderPhase) -> int {
    match phase {
        OrderPhase::Account => 0,
        OrderPhase::Order => 1,
        OrderPhase::Challenge { index, .. } => 2 + 4 * index,
        OrderPhase::TxtRecord { index, .. } => 3 + 4 * index,
        OrderPhase::Validation { index, .. } => 4 + 4 * index,
        OrderPhase::Authorization { index, .. } => 5 + 4 * index,
        OrderPhase::OrderReady => 0x1_0000_0000_0000_0000int * 4 + 2,
        OrderPhase::Finalize => 0x1_0000_0000_0000_0000int * 4 + 3,
        OrderPhase::Certificate => 0x1_0000_0000_0000_0000int * 4 + 4,
        OrderPhase::Done => 0x1_0000_0000_0000_0000int * 4 + 5,
        OrderPhase::Failed => -1,
    }
}

/// An order only moves forward: from a phase that is neither done nor failed,
/// each step either fails the order or reaches a phase further along.
pub proof fn law_order_moves_forward(
    phase: OrderPhase,
    event: OrderEvent,
    cluster: Seq<char>,
    wildcard_only: bool,
)
    requires
        phase_wf(phase),
        phase != OrderPhase::Done,
        phase != OrderPhase::Failed,
    ensures
        order_step(phase, event, cluster, wildcard_only).0 == OrderPhase::Failed || order_progress(
            order_step(phase, event, cluster, wildcard_only).0,
        ) > order_progress(phase),
{
}

/// The certificate is only taken after the controller accepted the TXT record
/// of the last authorization and that authorization was valid: the only way
/// into the order's ready phase from the authorizations is a valid last one.
pub proof fn law_order_ready_needs_every_authorization(
    phase: OrderPhase,
    event: OrderEvent,
    cluster: Seq<char>,
    wildcard_only: bool,
)
    requires
        phase_wf(phase),
        order_step(phase, event, cluster, wildcard_only).0 == OrderPhase::OrderReady,
        phase != OrderPhase::OrderReady,
    ensures
        phase == OrderPhase::Order && event == (OrderEvent::OrderBuilt { authorizations: 0 }) || (
        phase matches OrderPhase::Authorization { index, count } && index + 1 == count && event == (
        OrderEvent::AuthorizationDone { valid: true })),
{
}

/// A refused TXT record ends the order: the certificate is not obtained.
pub proof fn law_refused_txt_record_fails_the_order(
    index: u64,
    count: u64,
    already_valid: bool,
    cluster: Seq<char>,
    wildcard_only: bool,
)
    ensures
        order_step(
            OrderPhase::TxtRecord { index, count, already_valid },
            OrderEvent::TxtResponse(Some(CertManagerResponse::SetTxtRecordResponse { accepted: false })),
            cluster,
            wildcard_only,
        ).0 == OrderPhase::Failed,
{
}

/// A finished or failed order stays as it is, whatever comes next.
pub proof fn law_order_end_is_final(
    phase: OrderPhase,
    event: OrderEvent,
    cluster: Seq<char>,
    wildcard_only: bool,
)
    requires
        phase == OrderPhase::Done || phase == OrderPhase::Failed,
    ensures
        order_step(phase, event, cluster, wildcard_only).0 == phase,
{
}

/// What follows the order: a certificate is published; a failure sleeps
/// before the next attempt, `FAILURE_SLEEP_TIME_MS` in the first generation
/// and `LOCK_SLEEP_TIME_MS` in the second.
pub fn sleep_after_failure(second_generation: bool) -> (r: u64)
    ensures
        r == (if second_generation { LOCK_SLEEP_TIME_MS } else { FAILURE_SLEEP_TIME_MS }),
{
    if second_generation {
        LOCK_SLEEP_TIME_MS
    } else {
        FAILURE_SLEEP_TIME_MS
    }
}

/// Where one round of the certificate refresh stands.
#[derive(Clone, Copy, Debug, PartialEq, Eq, Structural)]
pub enum RefreshPhase {
    /// Waiting for the ACME account to be built.
    Account,
    /// Waiting for the controller's answer to the lease request.
    Lease,
    /// The lease is ours, and the ACME order is at this phase.
    Obtaining(OrderPhase),
    /// The round is over.
    Over,
}

/// The outcome of the last thing the round asked for.
#[derive(Clone, Debug, PartialEq, Eq)]
pub enum RefreshEvent {
    /// The account was built, or building it failed.
    AccountBuilt { ok: bool },
    /// The controller's answer to the lease request (`None` when it never came).
    LeaseAnswer(Option<CertManagerResponse>),
    /// The outcome of the last ACME step of the order.
    Order(OrderEvent),
}

/// What the round asks for next.
#[derive(Clone, Debug, PartialEq, Eq)]
pub enum RefreshAction {
    /// Sleep this many milliseconds; the round is over.
    Sleep { ms: u64 },
    /// Build the ACME account.
    BuildAccount,
    /// Send this request to the controller and wait for its answer.
    SendRequest(CertManagerRequest),
    /// Take this ACME step.
    Order(OrderAction),
    /// The certificate is in: hand it to the watchers and save it; the round is over.
    Publish,
    /// The round fails with this error.
    Error { reason: String },
    /// The round is over, with nothing more to do.
    End,
}

/// A refresh action with its texts as character sequences.
pub enum RefreshActionView {
    Sleep { ms: u64 },
    BuildAccount,
    SendRequest(CertManagerRequest),
    Order(OrderActionView),
    Publish,
    Error { reason: Seq<char> },
    End,
}

impl View for RefreshAction {
    type V = RefreshActionView;

    open spec fn view(&self) -> RefreshActionView {
        match self {
            RefreshAction::Sleep { ms } => RefreshActionView::Sleep { ms: *ms },
            RefreshAction::BuildAccount => RefreshActionView::BuildAccount,
            RefreshAction::SendRequest(r) => RefreshActionView::SendRequest(*r),
            RefreshAction::Order(a) => RefreshActionView::Order(a@),
            RefreshAction::Publish => RefreshActionView::Publish,
            RefreshAction::Error { reason } => RefreshActionView::Error { reason: reason@ },
            RefreshAction::End => RefreshActionView::End,
        }
    }
}

/// How a round begins: a certificate that is not yet due for renewal is slept
/// on until it is; otherwise the account is built if there is none yet, and the
/// lease is requested.
pub open spec fn refresh_start(current_validity_end: Option<i64>, now: i64, has_account: bool) -> (
    RefreshPhase,
    RefreshActionView,
) {
    match current_validity_end {
        Some(end) if until_renewal(end as int, now as int) > 0 => (
            RefreshPhase::Over,
            RefreshActionView::Sleep { ms: until_renewal(end as int, now as int) as u64 },
        ),
        _ => if has_account {
            (RefreshPhase::Lease, RefreshActionView::SendRequest(CertManagerRequest::CertLeaseRequest))
        } else {
            (RefreshPhase::Account, RefreshActionView::BuildAccount)
        },
    }
}

/// The event each phase of a round waits for.
pub open spec fn refresh_expects(phase: RefreshPhase, event: RefreshEvent) -> bool {
    match (phase, event) {
        (RefreshPhase::Account, RefreshEvent::AccountBuilt { .. }) => true,
        (RefreshPhase::Lease, RefreshEvent::LeaseAnswer(_)) => true,
        (RefreshPhase::Obtaining(p), RefreshEvent::Order(_)) => phase_wf(p) && p != OrderPhase::Done && p
            != OrderPhase::Failed,
        _ => false,
    }
}

/// One step of a round of the certificate refresh: the account leads to the
/// lease request; only a granted lease starts the order for the cluster and
/// every name under it; a refused lease sleeps `LOCK_SLEEP_TIME_MS`, and any
/// other answer ends the round; a finished order publishes the certificate, a
/// failed one sleeps `FAILURE_SLEEP_TIME_MS`.
pub open spec fn refresh_next(phase: RefreshPhase, event: RefreshEvent, cluster: Seq<char>) -> (
    RefreshPhase,
    RefreshActionView,
) {
    match (phase, event) {
        (RefreshPhase::Account, RefreshEvent::AccountBuilt { ok }) => if ok {
            (RefreshPhase::Lease, RefreshActionView::SendRequest(CertManagerRequest::CertLeaseRequest))
        } else {
            (RefreshPhase::Over, RefreshActionView::Error { reason: "Building account"@ })
        },
        (RefreshPhase::Lease, RefreshEvent::LeaseAnswer(answer)) => match answer {
            Some(CertManagerResponse::CertLeaseResponse { accepted: true }) => (
                RefreshPhase::Obtaining(OrderPhase::Order),
                RefreshActionView::Order(
                    OrderActionView::BuildOrder { identifiers: order_identifiers(cluster, false) },
                ),
            ),
            Some(CertManagerResponse::CertLeaseResponse { accepted: false }) => (
                RefreshPhase::Over,
                RefreshActionView::Sleep { ms: LOCK_SLEEP_TIME_MS },
            ),
            _ => (RefreshPhase::Over, RefreshActionView::End),
        },
        (RefreshPhase::Obtaining(p), RefreshEvent::Order(e)) => {
            let (p2, a) = order_step(p, e, cluster, false);
            match a {
                OrderActionView::Finished => (RefreshPhase::Over, RefreshActionView::Publish),
                OrderActionView::Fail { .. } => (
                    RefreshPhase::Over,
                    RefreshActionView::Sleep { ms: FAILURE_SLEEP_TIME_MS },
                ),
                _ => (RefreshPhase::Obtaining(p2), RefreshActionView::Order(a)),
            }
        },
        _ => (RefreshPhase::Over, RefreshActionView::End),
    }
}

/// Begins a round of the certificate refresh, as `refresh_start` says, given the
/// end of the current certificate's validity (milliseconds), the time now, and
/// whether the ACME account is built already.
pub fn begin_refresh(current_validity_end_ms: Option<i64>, now_ms: i64, has_account: bool) -> (r: (
    RefreshPhase,
    RefreshAction,
))
    ensures
        (r.0, r.1@) == refresh_start(current_validity_end_ms, now_ms, has_account),
{
    match time_until_renewal(current_validity_end_ms, now_ms) {
        Some(ms) => (RefreshPhase::Over, RefreshAction::Sleep { ms }),
        None => if has_account {
            (RefreshPhase::Lease, RefreshAction::SendRequest(CertManagerRequest::CertLeaseRequest))
        } else {
            (RefreshPhase::Account, RefreshAction::BuildAccount)
        },
    }
}

/// Takes a round of the certificate refresh one step, as `refresh_next` says.
pub fn refresh_step(phase: RefreshPhase, event: RefreshEvent, cluster: &str) -> (r: (
    RefreshPhase,
    RefreshAction,
))
    requires
        refresh_expects(phase, event),
    ensures
        (r.0, r.1@) == refresh_next(phase, event, cluster@),
{
    proof {
        reveal_strlit("Building account");
    }
    match (phase, event) {
        (RefreshPhase::Account, RefreshEvent::AccountBuilt { ok }) => if ok {
            (RefreshPhase::Lease, RefreshAction::SendRequest(CertManagerRequest::CertLeaseRequest))
        } else {
            (RefreshPhase::Over, RefreshAction::Error { reason: "Building account".to_owned() })
        },
        (RefreshPhase::Lease, RefreshEvent::LeaseAnswer(answer)) => match lease_decision(answer) {
            LeaseDecision::Granted => (
                RefreshPhase::Obtaining(OrderPhase::Order),
                RefreshAction::Order(OrderAction::BuildOrder { identifiers: identifiers_for(cluster, false) }),
            ),
            LeaseDecision::Refused => (RefreshPhase::Over, RefreshAction::Sleep { ms: LOCK_SLEEP_TIME_MS }),
            LeaseDecision::Abandon => (RefreshPhase::Over, RefreshAction::End),
        },
        (RefreshPhase::Obtaining(p), RefreshEvent::Order(e)) => {
            let (p2, a) = next_order_step(p, e, cluster, false);
            match a {
                OrderAction::Finished => (RefreshPhase::Over, RefreshAction::Publish),
                OrderAction::Fail { .. } => (RefreshPhase::Over, RefreshAction::Sleep { ms: FAILURE_SLEEP_TIME_MS }),
                _ => (RefreshPhase::Obtaining(p2), RefreshAction::Order(a)),
            }
        },
        _ => (RefreshPhase::Over, RefreshAction::End),
    }
}

/// A round asks for the lease before anything else once a certificate is due:
/// it begins with the account or the lease request, and the account leads to
/// the lease request.
pub proof fn law_lease_request_goes_first(current_validity_end: Option<i64>, now: i64, has_account: bool)
    ensures
        ({
            let (p, a) = refresh_start(current_validity_end, now, has_account);
            ||| (p == RefreshPhase::Over && a is Sleep)
            ||| (p == RefreshPhase::Account && a == RefreshActionView::BuildAccount)
            ||| (p == RefreshPhase::Lease && a == RefreshActionView::SendRequest(
                CertManagerRequest::CertLeaseRequest,
            ))
        }),
        refresh_next(RefreshPhase::Account, RefreshEvent::AccountBuilt { ok: true }, Seq::empty()).1
            == RefreshActionView::SendRequest(CertManagerRequest::CertLeaseRequest),
{
}

/// The ACME order starts only once the controller granted the lease.
pub proof fn law_order_needs_the_lease(phase: RefreshPhase, event: RefreshEvent, cluster: Seq<char>)
    requires
        refresh_expects(phase, event),
        refresh_next(phase, event, cluster).0 is Obtaining,
    ensures
        phase is Obtaining || (phase == RefreshPhase::Lease && event == RefreshEvent::LeaseAnswer(
            Some(CertManagerResponse::CertLeaseResponse { accepted: true }),
        )),
{
}

/// Nothing follows a lease that is not granted: the round ends, after the lock
/// sleep when the lease was refused, and no request goes out.
pub proof fn law_nothing_follows_a_refusal(answer: Option<CertManagerResponse>, cluster: Seq<char>)
    requires
        answer != Some(CertManagerResponse::CertLeaseResponse { accepted: true }),
    ensures
        refresh_next(RefreshPhase::Lease, RefreshEvent::LeaseAnswer(answer), cluster).0 == RefreshPhase::Over,
        refresh_next(RefreshPhase::Lease, RefreshEvent::LeaseAnswer(answer), cluster).1 == (if answer == Some(
            CertManagerResponse::CertLeaseResponse { accepted: false },
        ) {
            RefreshActionView::Sleep { ms: LOCK_SLEEP_TIME_MS }
        } else {
            RefreshActionView::End
        }),
{
}

} // verus!
