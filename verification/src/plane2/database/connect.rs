//! The decisions behind a connection request: whether to connect to the backend
//! that holds the requested key, to spawn a new one, or to refuse.
use crate::names::BackendName;
use crate::plane2::database::backend_key::{
    key_age, BackendKeyHealth, BackendKeyResult, KEY_LEASE_RENEW_AFTER_SECONDS, KEY_LEASE_SOFT_TERMINATE_AFTER_SECONDS,
};
use crate::plane2::protocol::AcquiredKey;
use crate::plane2::heartbeat_consts::{ASSUME_LOST_SECONDS, UNHEALTHY_SECONDS};
use crate::plane2::types::{BackendKeyId, ConnectRequest, KeyConfig, NodeId};
use crate::text::str_eq;
use vstd::prelude::*;

verus! {

/// How long a connection token is valid, in seconds.
pub const TOKEN_LIFETIME_SECONDS: u64 = 3600;

/// How many times a connection request is attempted at most.
pub const MAX_CONNECT_ATTEMPTS: u32 = 3;

#[derive(Clone, Debug)]
pub enum ConnectError {
    /// No active drone available.
    NoDroneAvailable,
    /// Key held and tag does not match.
    KeyHeld { request_tag: String, key_tag: String },
    /// The key is held but unhealthy.
    KeyHeldUnhealthy,
    /// The key is unheld and no spawn config was provided.
    KeyUnheldNoSpawnConfig,
    /// Failed to remove key.
    FailedToRemoveKey,
    /// Failed to acquire key.
    FailedToAcquireKey,
    /// SQL error, with its message.
    Sql(String),
    /// Serialization error, with its message.
    Serialization(String),
    /// Other internal error.
    Other(String),
}

/// Errors due to race conditions, which a retry may overcome.
pub open spec fn is_retryable(e: ConnectError) -> bool {
    e is FailedToRemoveKey || e is FailedToAcquireKey
}

impl ConnectError {
    /// Some errors are due to race conditions, but if we retry they should work.
    pub fn retryable(&self) -> (r: bool)
        ensures
            r == is_retryable(*self),
    {
        match self {
            ConnectError::FailedToRemoveKey | ConnectError::FailedToAcquireKey => true,
            _ => false,
        }
    }
}

/// Whether attempt number `attempt` (counting from 1), which failed with `error`,
/// is followed by another attempt.
pub open spec fn retries_after(error: ConnectError, attempt: u32) -> bool {
    is_retryable(error) && attempt < MAX_CONNECT_ATTEMPTS
}

/// Decides whether to attempt the connection again after attempt number
/// `attempt` failed with `error`.
pub fn should_retry(error: &ConnectError, attempt: u32) -> (r: bool)
    ensures
        r == retries_after(*error, attempt),
{
    error.retryable() && attempt < MAX_CONNECT_ATTEMPTS
}

/// No connection request is attempted more than three times.
pub proof fn law_connect_attempts_are_bounded(error: ConnectError, attempt: u32)
    ensures
        retries_after(error, attempt) ==> attempt + 1 <= MAX_CONNECT_ATTEMPTS,
        !is_retryable(error) ==> !retries_after(error, attempt),
{
}

/// The lease a backend created with `key` gets, from the last local time the
/// picked drone reported (milliseconds since the epoch): renewal is due
/// `KEY_LEASE_RENEW_AFTER_SECONDS` later, and both the soft and the hard
/// termination deadlines fall `KEY_LEASE_SOFT_TERMINATE_AFTER_SECONDS` later; the
/// lease's token is 0.
pub fn spawn_lease(key: &KeyConfig, backend: &BackendName, drone_local_time_ms: u64) -> (r: AcquiredKey)
    requires
        drone_local_time_ms + KEY_LEASE_SOFT_TERMINATE_AFTER_SECONDS * 1000 <= u64::MAX,
    ensures
        r.key == *key,
        r.backend == *backend,
        r.renew_at == drone_local_time_ms + KEY_LEASE_RENEW_AFTER_SECONDS * 1000,
        r.soft_terminate_at == drone_local_time_ms + KEY_LEASE_SOFT_TERMINATE_AFTER_SECONDS * 1000,
        r.hard_terminate_at == drone_local_time_ms + KEY_LEASE_SOFT_TERMINATE_AFTER_SECONDS * 1000,
        r.token == 0,
{
    AcquiredKey {
        key: key.clone(),
        backend: backend.clone(),
        renew_at: drone_local_time_ms + KEY_LEASE_RENEW_AFTER_SECONDS * 1000,
        soft_terminate_at: drone_local_time_ms + KEY_LEASE_SOFT_TERMINATE_AFTER_SECONDS * 1000,
        hard_terminate_at: drone_local_time_ms + KEY_LEASE_SOFT_TERMINATE_AFTER_SECONDS * 1000,
        token: 0,
    }
}

/// Where an attempt to connect stands while it waits on the database.
#[derive(Debug)]
pub enum ConnectStage {
    /// The requested key is being looked up.
    CheckingKey(KeyConfig),
    /// The expired lease on the key is being removed.
    RemovingKey(KeyConfig),
    /// A drone is being picked for a new backend that will hold the key.
    PickingDrone(KeyConfig),
    /// A backend that holds the key is being created.
    CreatingBackend(KeyConfig),
}

/// What the database answered to the last action.
#[derive(Debug)]
pub enum ConnectEvent {
    /// The lease on the key, if one is held.
    KeyChecked(Option<BackendKeyResult>),
    /// Whether the expired lease was removed.
    KeyRemoved(bool),
    /// The drone picked to spawn on, if any is available.
    DronePicked(Option<NodeId>),
    /// The backend created with the key; `None` when the key was taken meanwhile.
    BackendCreated(Option<BackendName>),
}

/// What the attempt asks of the database next, or how it ends.
#[derive(Debug)]
pub enum ConnectAction {
    /// Look up the lease on this key.
    CheckKey(KeyConfig),
    /// Remove the expired lease with this id.
    RemoveKey(BackendKeyId),
    /// Pick a drone to spawn on.
    PickDrone,
    /// Create a backend on the drone, holding the key, from the request's spawn config.
    CreateBackend { key: KeyConfig, drone: NodeId },
    /// Create a token for the backend and answer with it; `spawned` tells whether
    /// the backend is a new one. The attempt ends here.
    CreateToken { backend: BackendName, spawned: bool },
    /// The attempt fails with this error.
    Fail(ConnectError),
}

/// The event each stage waits for.
pub open spec fn stage_expects(stage: ConnectStage, event: ConnectEvent) -> bool {
    match (stage, event) {
        (ConnectStage::CheckingKey(_), ConnectEvent::KeyChecked(_)) => true,
        (ConnectStage::RemovingKey(_), ConnectEvent::KeyRemoved(_)) => true,
        (ConnectStage::PickingDrone(_), ConnectEvent::DronePicked(_)) => true,
        (ConnectStage::CreatingBackend(_), ConnectEvent::BackendCreated(_)) => true,
        _ => false,
    }
}

/// Once no lease holds the key: spawn a backend for it, which needs a spawn config.
pub open spec fn after_key_free(request: ConnectRequest, key: KeyConfig) -> (Option<ConnectStage>, ConnectAction) {
    if request.spawn_config is Some {
        (Some(ConnectStage::PickingDrone(key)), ConnectAction::PickDrone)
    } else {
        (None, ConnectAction::Fail(ConnectError::KeyUnheldNoSpawnConfig))
    }
}

/// The next stage of an attempt, and its action, after `event` in `stage`; no
/// next stage when the action ends the attempt.
pub open spec fn connect_next(request: ConnectRequest, stage: ConnectStage, event: ConnectEvent) -> (
    Option<ConnectStage>,
    ConnectAction,
) {
    match (stage, event) {
        (ConnectStage::CheckingKey(key), ConnectEvent::KeyChecked(None)) => after_key_free(request, key),
        (ConnectStage::CheckingKey(key), ConnectEvent::KeyChecked(Some(held))) => {
            let age = key_age(held.last_renewed, held.as_of);
            if age > ASSUME_LOST_SECONDS {
                (Some(ConnectStage::RemovingKey(key)), ConnectAction::RemoveKey(held.id))
            } else if age > UNHEALTHY_SECONDS {
                (None, ConnectAction::Fail(ConnectError::KeyHeldUnhealthy))
            } else if held.tag@ != key.tag@ {
                (None, ConnectAction::Fail(ConnectError::KeyHeld { request_tag: key.tag, key_tag: held.tag }))
            } else {
                (None, ConnectAction::CreateToken { backend: held.backend_id, spawned: false })
            }
        },
        (ConnectStage::RemovingKey(key), ConnectEvent::KeyRemoved(removed)) => if removed {
            after_key_free(request, key)
        } else {
            (None, ConnectAction::Fail(ConnectError::FailedToRemoveKey))
        },
        (ConnectStage::PickingDrone(key), ConnectEvent::DronePicked(drone)) => match drone {
            Some(d) => (Some(ConnectStage::CreatingBackend(key)), ConnectAction::CreateBackend { key, drone: d }),
            None => (None, ConnectAction::Fail(ConnectError::NoDroneAvailable)),
        },
        (ConnectStage::CreatingBackend(_), ConnectEvent::BackendCreated(created)) => match created {
            Some(b) => (None, ConnectAction::CreateToken { backend: b, spawned: true }),
            None => (None, ConnectAction::Fail(ConnectError::FailedToAcquireKey)),
        },
        _ => (None, ConnectAction::Fail(ConnectError::FailedToAcquireKey)),
    }
}

/// Starts an attempt to connect: look up the requested key, or, without one,
/// spawn a backend under a new random key.
pub fn begin_connect(request: &ConnectRequest) -> (r: (Option<ConnectStage>, ConnectAction))
    ensures
        match request.key {
            Some(k) => r == (Some(ConnectStage::CheckingKey(k)), ConnectAction::CheckKey(k)),
            None => if request.spawn_config is Some {
                r matches (Some(ConnectStage::PickingDrone(key)), ConnectAction::PickDrone)
                    && crate::plane2::util::is_random_prefixed(key.name@, "lk"@) && key.namespace@.len() == 0
                    && key.tag@.len() == 0
            } else {
                r == (None::<ConnectStage>, ConnectAction::Fail(ConnectError::KeyUnheldNoSpawnConfig))
            },
        },
{
    match &request.key {
        Some(k) => (Some(ConnectStage::CheckingKey(k.clone())), ConnectAction::CheckKey(k.clone())),
        None => {
            if request.spawn_config.is_none() {
                return (None, ConnectAction::Fail(ConnectError::KeyUnheldNoSpawnConfig));
            }
            (Some(ConnectStage::PickingDrone(KeyConfig::new_random())), ConnectAction::PickDrone)
        },
    }
}

/// Once no lease holds the key: spawn a backend for it, which needs a spawn config.
fn spawn_for_free_key(request: &ConnectRequest, key: KeyConfig) -> (r: (Option<ConnectStage>, ConnectAction))
    ensures
        r == after_key_free(*request, key),
{
    if request.spawn_config.is_some() {
        (Some(ConnectStage::PickingDrone(key)), ConnectAction::PickDrone)
    } else {
        (None, ConnectAction::Fail(ConnectError::KeyUnheldNoSpawnConfig))
    }
}

/// Takes an attempt one step: decides, from the database's answer, what to ask
/// next or how the attempt ends.
pub fn connect_step(request: &ConnectRequest, stage: ConnectStage, event: ConnectEvent) -> (r: (
    Option<ConnectStage>,
    ConnectAction,
))
    requires
        stage_expects(stage, event),
    ensures
        r == connect_next(*request, stage, event),
{
    match stage {
        ConnectStage::CheckingKey(key) => match event {
            ConnectEvent::KeyChecked(None) => spawn_for_free_key(request, key),
            ConnectEvent::KeyChecked(Some(held)) => {
                match held.key_health() {
                    BackendKeyHealth::Expired => (Some(ConnectStage::RemovingKey(key)), ConnectAction::RemoveKey(held.id)),
                    BackendKeyHealth::Unhealthy => (None, ConnectAction::Fail(ConnectError::KeyHeldUnhealthy)),
                    BackendKeyHealth::Active(_) => {
                        if !str_eq(held.tag.as_str(), key.tag.as_str()) {
                            (None, ConnectAction::Fail(ConnectError::KeyHeld { request_tag: key.tag, key_tag: held.tag }))
                        } else {
                            (None, ConnectAction::CreateToken { backend: held.backend_id, spawned: false })
                        }
                    },
                }
            },
            _ => (None, ConnectAction::Fail(ConnectError::FailedToAcquireKey)),
        },
        ConnectStage::RemovingKey(key) => match event {
            ConnectEvent::KeyRemoved(removed) => if removed {
                spawn_for_free_key(request, key)
            } else {
                (None, ConnectAction::Fail(ConnectError::FailedToRemoveKey))
            },
            _ => (None, ConnectAction::Fail(ConnectError::FailedToAcquireKey)),
        },
        ConnectStage::PickingDrone(key) => match event {
            ConnectEvent::DronePicked(Some(d)) => (Some(ConnectStage::CreatingBackend(key.clone())), ConnectAction::CreateBackend { key, drone: d }),
            ConnectEvent::DronePicked(None) => (None, ConnectAction::Fail(ConnectError::NoDroneAvailable)),
            _ => (None, ConnectAction::Fail(ConnectError::FailedToAcquireKey)),
        },
        ConnectStage::CreatingBackend(_) => match event {
            ConnectEvent::BackendCreated(Some(b)) => (None, ConnectAction::CreateToken { backend: b, spawned: true }),
            ConnectEvent::BackendCreated(None) => (None, ConnectAction::Fail(ConnectError::FailedToAcquireKey)),
            _ => (None, ConnectAction::Fail(ConnectError::FailedToAcquireKey)),
        },
    }
}

/// What every stage of an attempt keeps of its request: the key it works with is
/// the requested one, when the request names one; and a spawn is only on the way
/// when the request says how to spawn.
pub open spec fn stage_fits(request: ConnectRequest, stage: ConnectStage) -> bool {
    let key = match stage {
        ConnectStage::CheckingKey(k) => k,
        ConnectStage::RemovingKey(k) => k,
        ConnectStage::PickingDrone(k) => k,
        ConnectStage::CreatingBackend(k) => k,
    };
    &&& (request.key matches Some(rk) ==> key == rk)
    &&& (stage is PickingDrone || stage is CreatingBackend ==> request.spawn_config is Some)
}

/// Every attempt keeps to its request: from a stage that fits the request, the
/// next stage fits it too; a backend is only ever created holding the requested
/// key, and only when the request has a spawn config.
pub proof fn law_connect_keeps_to_the_request(request: ConnectRequest, stage: ConnectStage, event: ConnectEvent)
    requires
        stage_fits(request, stage),
        stage_expects(stage, event),
    ensures
        connect_next(request, stage, event).0 matches Some(next) ==> stage_fits(request, next),
        connect_next(request, stage, event).1 matches ConnectAction::CreateBackend { key, drone } ==> (
        request.spawn_config is Some && (request.key matches Some(rk) ==> key == rk)),
{
}

/// A running backend that holds the requested key is connected to only when the
/// tag of the request matches the tag of the key; then it is connected to, and no
/// new backend is created.
pub proof fn law_held_key_connects_only_with_matching_tag(
    request: ConnectRequest,
    key: KeyConfig,
    held: BackendKeyResult,
)
    requires
        key_age(held.last_renewed, held.as_of) <= UNHEALTHY_SECONDS,
    ensures
        held.tag@ == key.tag@ ==> connect_next(request, ConnectStage::CheckingKey(key), ConnectEvent::KeyChecked(Some(held))) == (
        None::<ConnectStage>, ConnectAction::CreateToken { backend: held.backend_id, spawned: false }),
        held.tag@ != key.tag@ ==> connect_next(request, ConnectStage::CheckingKey(key), ConnectEvent::KeyChecked(Some(held))).1 matches ConnectAction::Fail(
            ConnectError::KeyHeld { .. }),
{
}

} // verus!
