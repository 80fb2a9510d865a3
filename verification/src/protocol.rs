//! Route information the controller gives the proxy for a connection token.
use crate::names::BackendName;
use crate::types::backend_state::BackendAddr;
use crate::types::{BearerToken, ClusterName, SecretToken};
use vstd::prelude::*;

verus! {

#[derive(Debug)]
pub struct RouteInfo {
    pub backend_id: BackendName,
    pub address: BackendAddr,
    pub secret_token: SecretToken,
    pub cluster: ClusterName,
    pub user: Option<String>,
    /// Arbitrary JSON data, as its serialized text.
    pub user_data: Option<String>,
    /// The subdomain the backend is served under, if any.
    pub subdomain: Option<String>,
}

#[derive(Clone, Debug, PartialEq, Eq)]
pub enum CertManagerRequest {
    /// Request a certificate lease for a cluster.
    CertLeaseRequest,
    /// Set the TXT record for a cluster. Fails if another proxy
    /// has more recently been granted the lease.
    SetTxtRecord { txt_value: String },
    /// Release a certificate lease for a cluster so that another
    /// proxy can request it immediately.
    ReleaseCertLease,
}

#[derive(Clone, Copy, Debug, PartialEq, Eq, Structural)]
pub enum CertManagerResponse {
    /// Acknowledge a lease request and indicate whether it was accepted.
    CertLeaseResponse { accepted: bool },
    /// Acknowledge a TXT record update and indicate whether it was accepted.
    SetTxtRecordResponse { accepted: bool },
}

/// A request for the route of a connection token.
#[derive(Clone, Debug)]
pub struct RouteInfoRequest {
    pub token: BearerToken,
}

/// The route of a connection token; `None` when the token names no backend.
#[derive(Debug)]
pub struct RouteInfoResponse {
    pub token: BearerToken,
    pub route_info: Option<RouteInfo>,
}

fn clone_opt_string(s: &Option<String>) -> (r: Option<String>)
    ensures
        r == *s,
{
    match s {
        Some(t) => Some(t.clone()),
        None => None,
    }
}

impl Clone for RouteInfo {
    fn clone(&self) -> (r: Self)
        ensures
            r == *self,
    {
        RouteInfo {
            backend_id: self.backend_id.clone(),
            address: self.address,
            secret_token: self.secret_token.clone(),
            cluster: self.cluster.clone(),
            user: clone_opt_string(&self.user),
            user_data: clone_opt_string(&self.user_data),
            subdomain: clone_opt_string(&self.subdomain),
        }
    }
}

} // verus!
