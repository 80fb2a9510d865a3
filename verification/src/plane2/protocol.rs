//! Messages exchanged between the controller and drones, proxies and DNS servers.
use crate::names::BackendName;
pub use crate::protocol::{CertManagerRequest, CertManagerResponse};
use crate::typed_socket::ChannelMessage;
use crate::plane2::types::{
    BackendAddr, BackendStatus, BearerToken, ClusterName, ExecutorConfig, KeyConfig, LoggableTime,
    SecretToken, TerminationKind,
};
use vstd::prelude::*;

verus! {

#[derive(Clone, Debug)]
pub enum BackendAction {
    Spawn { executable: ExecutorConfig, key: KeyConfig },
    Terminate { kind: TerminationKind },
}

#[derive(Clone, Copy, Debug, PartialEq, Eq, Structural)]
pub struct BackendEventId(i64);

impl View for BackendEventId {
    type V = i64;

    closed spec fn view(&self) -> i64 {
        self.0
    }
}

impl BackendEventId {
    pub fn from_i64(i: i64) -> (r: Self)
        ensures
            r@ == i,
    {
        BackendEventId(i)
    }

    pub fn as_i64(&self) -> (r: i64)
        ensures
            r == self@,
    {
        self.0
    }
}

impl From<i64> for BackendEventId {
    fn from(i: i64) -> (r: Self) {
        BackendEventId(i)
    }
}

impl vstd::std_specs::convert::FromSpecImpl<i64> for BackendEventId {
    open spec fn obeys_from_spec() -> bool {
        true
    }

    closed spec fn from_spec(v: i64) -> Self {
        BackendEventId(v)
    }
}

#[derive(Clone, Debug)]
pub struct BackendStateMessage {
    pub event_id: BackendEventId,
    pub backend_id: BackendName,
    pub status: BackendStatus,
    pub address: Option<BackendAddr>,
    pub exit_code: Option<i32>,
    pub timestamp: LoggableTime,
}

/// A key held by a backend, with the times (milliseconds since the epoch) at which
/// the drone must renew it, and at which the backend must be soft- and
/// hard-terminated if the key has not been renewed.
#[derive(Clone, Debug)]
pub struct AcquiredKey {
    pub key: KeyConfig,
    pub backend: BackendName,
    pub renew_at: u64,
    pub soft_terminate_at: u64,
    pub hard_terminate_at: u64,
    pub token: i64,
}

/// A drone's request to the controller to renew the key a backend holds.
#[derive(Clone, Debug)]
pub struct RenewKeyRequest {
    pub key: KeyConfig,
    /// The token the key was acquired with.
    pub token: i64,
    pub backend: BackendName,
    /// The drone's time when it asked (milliseconds since the epoch).
    pub local_time: LoggableTime,
}

/// An action the controller asks a drone to take on a backend.
#[derive(Clone, Debug)]
pub struct BackendActionMessage {
    /// The action's name, which the drone acknowledges it by.
    pub action_id: String,
    pub backend_id: BackendName,
    pub action: BackendAction,
}

/// The drone's periodic sign of life, with its local time.
#[derive(Clone, Copy, Debug)]
pub struct Heartbeat {
    pub local_time: LoggableTime,
}

#[derive(Clone, Debug)]
pub enum MessageFromDrone {
    Heartbeat(Heartbeat),
    BackendEvent(BackendStateMessage),
    AckAction { action_id: String },
}

#[derive(Clone, Debug)]
pub enum MessageToDrone {
    Action(BackendActionMessage),
    /// Acknowledge that the container has received and processed a backend event.
    AckEvent { event_id: BackendEventId },
}

impl ChannelMessage for MessageFromDrone {
    type Reply = MessageToDrone;
}

impl ChannelMessage for MessageToDrone {
    type Reply = MessageFromDrone;
}

/// What the drone does with a message from the controller.
#[derive(Debug)]
pub enum DroneWork {
    /// Apply the action to the backend, then acknowledge it with this message.
    Apply { backend_id: BackendName, action: BackendAction, ack: MessageFromDrone },
    /// Forget the acknowledged event.
    AckEvent(BackendEventId),
}

/// What the drone does with a message from the controller: an action is
/// applied and then acknowledged by its id; an acknowledged event is dropped
/// from the events still to send.
pub fn drone_work_for(message: MessageToDrone) -> (r: DroneWork)
    ensures
        match message {
            MessageToDrone::Action(m) => r matches DroneWork::Apply { backend_id, ack: MessageFromDrone::AckAction { action_id }, .. }
                && backend_id@ == m.backend_id@ && action_id@ == m.action_id@,
            MessageToDrone::AckEvent { event_id } => r == DroneWork::AckEvent(event_id),
        },
{
    match message {
        MessageToDrone::Action(BackendActionMessage { action_id, backend_id, action }) => DroneWork::Apply {
            backend_id,
            action,
            ack: MessageFromDrone::AckAction { action_id },
        },
        MessageToDrone::AckEvent { event_id } => DroneWork::AckEvent(event_id),
    }
}

#[derive(Clone, Debug)]
pub struct RouteInfo {
    pub backend_id: BackendName,
    pub address: BackendAddr,
    pub secret_token: SecretToken,
    pub user: Option<String>,
    /// Arbitrary JSON data, as its serialized text.
    pub user_data: Option<String>,
}

impl ChannelMessage for CertManagerRequest {
    type Reply = CertManagerResponse;
}

impl ChannelMessage for CertManagerResponse {
    type Reply = CertManagerRequest;
}

#[derive(Clone, Debug, PartialEq, Eq)]
pub struct RouteInfoRequest {
    pub token: BearerToken,
}

#[derive(Clone, Debug)]
pub struct RouteInfoResponse {
    pub token: BearerToken,
    pub route_info: Option<RouteInfo>,
}

impl ChannelMessage for RouteInfoRequest {
    type Reply = RouteInfoResponse;
}

impl ChannelMessage for RouteInfoResponse {
    type Reply = RouteInfoRequest;
}

#[derive(Clone, Debug)]
pub enum MessageFromProxy {
    RouteInfoRequest(RouteInfoRequest),
    KeepAlive(BackendName),
    CertManagerRequest(CertManagerRequest),
}

#[derive(Clone, Debug)]
pub enum MessageToProxy {
    RouteInfoResponse(RouteInfoResponse),
    CertManagerResponse(CertManagerResponse),
}

impl ChannelMessage for MessageFromProxy {
    type Reply = MessageToProxy;
}

impl ChannelMessage for MessageToProxy {
    type Reply = MessageFromProxy;
}

#[derive(Clone, Debug)]
pub enum MessageFromDns {
    TxtRecordRequest { cluster: ClusterName },
}

#[derive(Clone, Debug)]
pub enum MessageToDns {
    TxtRecordResponse { cluster: ClusterName, txt_value: Option<String> },
}

impl ChannelMessage for MessageFromDns {
    type Reply = MessageToDns;
}

impl ChannelMessage for MessageToDns {
    type Reply = MessageFromDns;
}

} // verus!
