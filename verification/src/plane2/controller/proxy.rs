//! The controller's side of a proxy's socket: what each message from the proxy
//! asks of the database, and what goes back once the database has answered.
use crate::names::BackendName;
use crate::plane2::protocol::{
    CertManagerRequest, CertManagerResponse, MessageFromProxy, MessageToProxy, RouteInfo,
    RouteInfoRequest, RouteInfoResponse,
};
use crate::plane2::types::BearerToken;
use vstd::prelude::*;

verus! {

/// The database work a message from the proxy asks for.
#[derive(Debug)]
pub enum ProxySocketWork {
    /// Look up the route of a token, and answer with it.
    LookUpRoute { token: BearerToken },
    /// Record that a backend is still in use.
    KeepAlive { backend: BackendName },
    /// Try to lease the cluster's DNS for a certificate, and answer whether it worked.
    LeaseDns,
    /// Try to set the cluster's TXT record, and answer whether it worked.
    SetTxtRecord { txt_value: String },
    /// Release the cluster's DNS lease; nothing is answered.
    ReleaseLease,
    /// The socket is closed: stop.
    Close,
}

/// The work a message asks for; `None` is a closed socket.
pub fn work_for(message: Option<MessageFromProxy>) -> (r: ProxySocketWork)
    ensures
        match message {
            Some(MessageFromProxy::RouteInfoRequest(RouteInfoRequest { token })) => r matches ProxySocketWork::LookUpRoute { token: t } && t@ == token@,
            Some(MessageFromProxy::KeepAlive(b)) => r matches ProxySocketWork::KeepAlive { backend } && backend@ == b@,
            Some(MessageFromProxy::CertManagerRequest(CertManagerRequest::CertLeaseRequest)) => r is LeaseDns,
            Some(MessageFromProxy::CertManagerRequest(CertManagerRequest::SetTxtRecord { txt_value })) => r matches ProxySocketWork::SetTxtRecord { txt_value: t } && t@ == txt_value@,
            Some(MessageFromProxy::CertManagerRequest(CertManagerRequest::ReleaseCertLease)) => r is ReleaseLease,
            None => r is Close,
        },
{
    match message {
        Some(MessageFromProxy::RouteInfoRequest(RouteInfoRequest { token })) => ProxySocketWork::LookUpRoute { token },
        Some(MessageFromProxy::KeepAlive(backend)) => ProxySocketWork::KeepAlive { backend },
        Some(MessageFromProxy::CertManagerRequest(CertManagerRequest::CertLeaseRequest)) => ProxySocketWork::LeaseDns,
        Some(MessageFromProxy::CertManagerRequest(CertManagerRequest::SetTxtRecord { txt_value })) => ProxySocketWork::SetTxtRecord { txt_value },
        Some(MessageFromProxy::CertManagerRequest(CertManagerRequest::ReleaseCertLease)) => ProxySocketWork::ReleaseLease,
        None => ProxySocketWork::Close,
    }
}

/// The answer to a route request: the route the database found (or `None`),
/// or no answer at all when the lookup failed.
pub fn route_reply(token: BearerToken, looked_up: Result<Option<RouteInfo>, ()>) -> (r: Option<MessageToProxy>)
    ensures
        match looked_up {
            Ok(route) => r matches Some(MessageToProxy::RouteInfoResponse(resp)) && resp.token@ == token@ && resp.route_info == route,
            Err(_) => r is None,
        },
{
    match looked_up {
        Ok(route_info) => Some(MessageToProxy::RouteInfoResponse(RouteInfoResponse { token, route_info })),
        Err(()) => None,
    }
}

/// The answer to a lease request: whether the lease was granted; a failed
/// database call counts as refused.
pub fn lease_reply(leased: Result<bool, ()>) -> (r: MessageToProxy)
    ensures
        r == MessageToProxy::CertManagerResponse(CertManagerResponse::CertLeaseResponse {
            accepted: match leased {
                Ok(b) => b,
                Err(_) => false,
            },
        }),
{
    let accepted = match leased {
        Ok(b) => b,
        Err(()) => false,
    };
    MessageToProxy::CertManagerResponse(CertManagerResponse::CertLeaseResponse { accepted })
}

/// The answer to a TXT record request: whether the record was set; no answer
/// at all when the database call failed.
pub fn txt_reply(set: Result<bool, ()>) -> (r: Option<MessageToProxy>)
    ensures
        match set {
            Ok(b) => r == Some(MessageToProxy::CertManagerResponse(CertManagerResponse::SetTxtRecordResponse { accepted: b })),
            Err(_) => r is None,
        },
{
    match set {
        Ok(accepted) => Some(MessageToProxy::CertManagerResponse(CertManagerResponse::SetTxtRecordResponse { accepted })),
        Err(()) => None,
    }
}

} // verus!
