//! Identifiers, backend states and configuration of the second-generation protocol.
use crate::names::BackendName;
use crate::text::{push_str, str_eq};
use vstd::prelude::*;
use vstd::string::*;

pub use crate::types::backend_state::{BackendAddr, IpAddress, LoggableTime};
pub use crate::types::{
    BearerToken, ClusterName, DockerCpuPeriod, DockerRegistryAuth, KeyConfig, NodeId, NodeKind,
    PullPolicy, ResourceLimits, SecretToken, TerminationKind,
};

verus! {

#[derive(Clone, Copy, Debug, PartialEq, Eq, Structural)]
pub struct BackendKeyId(i32);

impl View for BackendKeyId {
    type V = i32;

    closed spec fn view(&self) -> i32 {
        self.0
    }
}

impl BackendKeyId {
    pub fn from_i32(i: i32) -> (r: BackendKeyId)
        ensures
            r@ == i,
    {
        BackendKeyId(i)
    }

    pub fn as_i32(&self) -> (r: i32)
        ensures
            r == self@,
    {
        self.0
    }
}

#[derive(Clone, Copy, Debug, PartialEq, Eq, PartialOrd, Structural)]
pub enum BackendStatus {
    /// The backend has been scheduled to a drone, but has not yet been acknowledged.
    /// This status is only assigned by the controller; the drone will never assign it by definition.
    Scheduled,
    /// The backend has been assigned to a drone, which is now responsible for loading its image.
    Loading,
    /// Telling Docker to start the container.
    Starting,
    /// Wait for the backend to be ready to accept connections.
    Waiting,
    /// The backend is listening for connections.
    Ready,
    /// The backend has been sent a SIGTERM, either because we sent it or the user did,
    /// and we are waiting for it to exit.
    /// Proxies should stop sending traffic to it, but we should not yet release the key.
    Terminating,
    /// The backend has exited or been swept.
    Terminated,
}

/// Position of a status in the lifecycle.
pub open spec fn status_position(s: BackendStatus) -> int {
    match s {
        BackendStatus::Scheduled => 0,
        BackendStatus::Loading => 1,
        BackendStatus::Starting => 2,
        BackendStatus::Waiting => 3,
        BackendStatus::Ready => 4,
        BackendStatus::Terminating => 5,
        BackendStatus::Terminated => 6,
    }
}

/// The serialized name of a status.
pub open spec fn status_name(s: BackendStatus) -> Seq<char> {
    match s {
        BackendStatus::Scheduled => "Scheduled"@,
        BackendStatus::Loading => "Loading"@,
        BackendStatus::Starting => "Starting"@,
        BackendStatus::Waiting => "Waiting"@,
        BackendStatus::Ready => "Ready"@,
        BackendStatus::Terminating => "Terminating"@,
        BackendStatus::Terminated => "Terminated"@,
    }
}

/// The status whose serialized name is `name`.
pub open spec fn status_from_name(name: Seq<char>) -> Option<BackendStatus> {
    if name == "Scheduled"@ {
        Some(BackendStatus::Scheduled)
    } else if name == "Loading"@ {
        Some(BackendStatus::Loading)
    } else if name == "Starting"@ {
        Some(BackendStatus::Starting)
    } else if name == "Waiting"@ {
        Some(BackendStatus::Waiting)
    } else if name == "Ready"@ {
        Some(BackendStatus::Ready)
    } else if name == "Terminating"@ {
        Some(BackendStatus::Terminating)
    } else if name == "Terminated"@ {
        Some(BackendStatus::Terminated)
    } else {
        None
    }
}

impl BackendStatus {
    pub fn to_string(&self) -> (r: String)
        ensures
            r@ == status_name(*self),
    {
        let mut s = String::new();
        match self {
            BackendStatus::Scheduled => push_str(&mut s, "Scheduled"),
            BackendStatus::Loading => push_str(&mut s, "Loading"),
            BackendStatus::Starting => push_str(&mut s, "Starting"),
            BackendStatus::Waiting => push_str(&mut s, "Waiting"),
            BackendStatus::Ready => push_str(&mut s, "Ready"),
            BackendStatus::Terminating => push_str(&mut s, "Terminating"),
            BackendStatus::Terminated => push_str(&mut s, "Terminated"),
        }
        s
    }

    /// Parses a status from its serialized name.
    pub fn from_name(name: &str) -> (r: Option<BackendStatus>)
        ensures
            r == status_from_name(name@),
    {
        if str_eq(name, "Scheduled") {
            Some(BackendStatus::Scheduled)
        } else if str_eq(name, "Loading") {
            Some(BackendStatus::Loading)
        } else if str_eq(name, "Starting") {
            Some(BackendStatus::Starting)
        } else if str_eq(name, "Waiting") {
            Some(BackendStatus::Waiting)
        } else if str_eq(name, "Ready") {
            Some(BackendStatus::Ready)
        } else if str_eq(name, "Terminating") {
            Some(BackendStatus::Terminating)
        } else if str_eq(name, "Terminated") {
            Some(BackendStatus::Terminated)
        } else {
            None
        }
    }
}

/// A status read back from its serialized name is the status itself.
pub proof fn law_status_name_round_trip(s: BackendStatus)
    ensures
        status_from_name(status_name(s)) == Some(s),
{
    reveal_strlit("Scheduled");
    reveal_strlit("Loading");
    reveal_strlit("Starting");
    reveal_strlit("Waiting");
    reveal_strlit("Ready");
    reveal_strlit("Terminating");
    reveal_strlit("Terminated");
    assert("Scheduled"@.len() == 9);
    assert("Loading"@.len() == 7);
    assert("Starting"@.len() == 8);
    assert("Waiting"@.len() == 7);
    assert("Ready"@.len() == 5);
    assert("Terminating"@.len() == 11);
    assert("Terminated"@.len() == 10);
    assert("Loading"@[0] != "Waiting"@[0]);
}

#[derive(Clone, Copy, Debug, PartialEq, Eq, Structural)]
pub struct BackendState {
    pub status: BackendStatus,
    pub address: Option<BackendAddr>,
    pub termination: Option<TerminationKind>,
    pub exit_code: Option<i32>,
}

impl BackendState {
    pub fn to_loading(&self) -> (r: BackendState)
        ensures
            r == (BackendState { status: BackendStatus::Loading, ..*self }),
    {
        BackendState { status: BackendStatus::Loading, ..*self }
    }

    pub fn to_starting(&self) -> (r: BackendState)
        ensures
            r == (BackendState { status: BackendStatus::Starting, ..*self }),
    {
        BackendState { status: BackendStatus::Starting, ..*self }
    }

    pub fn to_waiting(&self, address: BackendAddr) -> (r: BackendState)
        ensures
            r == (BackendState { status: BackendStatus::Waiting, address: Some(address), ..*self }),
    {
        BackendState { status: BackendStatus::Waiting, address: Some(address), ..*self }
    }

    pub fn to_ready(&self) -> (r: BackendState)
        ensures
            r == (BackendState { status: BackendStatus::Ready, ..*self }),
    {
        BackendState { status: BackendStatus::Ready, ..*self }
    }

    pub fn terminating(termination: TerminationKind) -> (r: BackendState)
        ensures
            r == (BackendState {
                status: BackendStatus::Terminating,
                termination: Some(termination),
                address: None,
                exit_code: None,
            }),
    {
        BackendState {
            status: BackendStatus::Terminating,
            termination: Some(termination),
            address: None,
            exit_code: None,
        }
    }

    pub fn terminated(exit_code: Option<i32>) -> (r: BackendState)
        ensures
            r == (BackendState {
                status: BackendStatus::Terminated,
                exit_code,
                address: None,
                termination: None,
            }),
    {
        BackendState { status: BackendStatus::Terminated, exit_code, address: None, termination: None }
    }
}

impl Default for BackendState {
    fn default() -> (r: Self)
        ensures
            r == (BackendState {
                status: BackendStatus::Scheduled,
                address: None,
                termination: None,
                exit_code: None,
            }),
    {
        BackendState {
            status: BackendStatus::Scheduled,
            address: None,
            termination: None,
            exit_code: None,
        }
    }
}

#[derive(Clone, Debug)]
pub struct ExecutorConfig {
    pub image: String,
    pub pull_policy: PullPolicy,
    pub credentials: Option<DockerRegistryAuth>,
    /// Environment variables, as name and value.
    pub env: Vec<(String, String)>,
    pub resource_limits: ResourceLimits,
}

impl ExecutorConfig {
    pub fn from_image_with_defaults(image: String) -> (r: Self)
        ensures
            r.image@ == image@,
            r.pull_policy == PullPolicy::IfNotPresent,
            r.credentials is None,
            r.env@.len() == 0,
            r.resource_limits == ResourceLimits::default_spec(),
    {
        ExecutorConfig {
            image,
            pull_policy: PullPolicy::default(),
            env: Vec::new(),
            resource_limits: ResourceLimits::default(),
            credentials: None,
        }
    }
}

#[derive(Clone, Debug)]
pub struct SpawnConfig {
    /// Config to use to spawn the backend process.
    pub executable: ExecutorConfig,
    /// If provided, the maximum amount of time the backend will be allowed to
    /// stay alive. Time counts from when the backend is scheduled.
    pub lifetime_limit_seconds: Option<i32>,
    /// If provided, the maximum amount of time the backend will be allowed to
    /// stay alive with no inbound connections to it.
    pub max_idle_seconds: Option<i32>,
}

/// A request to connect to a backend, spawning one when needed.
#[derive(Clone, Debug)]
pub struct ConnectRequest {
    /// Config to use if we need to create a new backend to connect to.
    pub spawn_config: Option<SpawnConfig>,
    /// Configuration for the key to use.
    pub key: Option<KeyConfig>,
    /// Username or other identifier to associate with the generated connection URL.
    /// Passed to the backend through the X-Plane-User header.
    pub user: Option<String>,
    /// A JSON object passed along with each request to the backend through the
    /// X-Plane-Auth header: its fields, each as its name and the JSON text of its value.
    pub auth: Vec<(String, String)>,
}

impl Default for ConnectRequest {
    fn default() -> (r: Self)
        ensures
            r.spawn_config is None,
            r.key is None,
            r.user is None,
            r.auth@.len() == 0,
    {
        ConnectRequest { spawn_config: None, key: None, user: None, auth: Vec::new() }
    }
}

#[derive(Clone, Debug)]
pub struct ConnectResponse {
    pub backend_id: BackendName,
    /// Whether the backend is a new one spawned due to the request.
    pub spawned: bool,
    pub token: BearerToken,
    pub url: String,
    pub secret_token: SecretToken,
    pub status_url: String,
}

impl ConnectResponse {
    /// Builds the response to a connection request; `status_url` is the
    /// controller's status URL for the backend.
    pub fn new(
        backend_id: BackendName,
        cluster: &ClusterName,
        spawned: bool,
        token: BearerToken,
        secret_token: SecretToken,
        status_url: String,
    ) -> (r: Self)
        ensures
            r.backend_id == backend_id,
            r.spawned == spawned,
            r.token == token,
            r.url@ == crate::types::connection_url(cluster@, token@),
            r.secret_token == secret_token,
            r.status_url == status_url,
    {
        let mut url = String::new();
        if cluster.is_https() {
            push_str(&mut url, "https://");
        } else {
            push_str(&mut url, "http://");
        }
        push_str(&mut url, cluster.as_str());
        push_str(&mut url, "/");
        push_str(&mut url, token.as_str());
        push_str(&mut url, "/");
        ConnectResponse { backend_id, spawned, token, url, secret_token, status_url }
    }
}

#[derive(Clone, Copy, Debug, PartialEq, Eq, Structural)]
pub struct TimestampedBackendStatus {
    pub status: BackendStatus,
    pub time: LoggableTime,
}

} // verus!
