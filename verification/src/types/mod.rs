//! Identifiers, configuration and request/response types shared across Plane.
use crate::names::{BackendName, DroneName};
use crate::text::{chars_of, decimal, find_char, first_index_of, parse_u16, parse_u16_spec, push_char, push_decimal, push_str, seq_starts_with, starts_with, str_eq};
use vstd::prelude::*;
use vstd::string::*;

pub mod backend_state;

pub use backend_state::{BackendState, BackendStatus, TerminationKind, TerminationReason};

verus! {

#[derive(Clone, Copy, Debug, PartialEq, Eq, Structural, Hash)]
pub struct NodeId(i32);

impl View for NodeId {
    type V = i32;

    closed spec fn view(&self) -> i32 {
        self.0
    }
}

impl NodeId {
    pub fn from_i32(i: i32) -> (r: NodeId)
        ensures
            r@ == i,
    {
        NodeId(i)
    }

    pub fn as_i32(&self) -> (r: i32)
        ensures
            r == self@,
    {
        self.0
    }

    /// The decimal text of the id.
    pub fn to_string(&self) -> (r: String)
        ensures
            r@ == signed_decimal(self@ as int),
    {
        let mut s = String::new();
        push_signed_decimal(&mut s, self.0 as i64);
        s
    }
}

/// Decimal rendering of an integer, with a leading `-` when negative.
pub open spec fn signed_decimal(n: int) -> Seq<char> {
    if n < 0 { seq!['-'] + decimal((-n) as nat) } else { decimal(n as nat) }
}

/// Appends the decimal rendering of `n` to `s`.
pub fn push_signed_decimal(s: &mut String, n: i64)
    ensures
        final(s)@ == old(s)@ + signed_decimal(n as int),
{
    if n < 0 {
        push_char(s, '-');
        let m: u64 = if n == i64::MIN { 9223372036854775808u64 } else { (-n) as u64 };
        push_decimal(s, m);
        proof {
            assert(old(s)@.push('-') + decimal(m as nat) =~= old(s)@ + (seq!['-'] + decimal(m as nat)));
        }
    } else {
        push_decimal(s, n as u64);
    }
}

/// The part of a cluster name before its first `:`.
pub open spec fn cluster_host(s: Seq<char>) -> Seq<char> {
    match first_index_of(s, ':') {
        Some(i) => s.subrange(0, i),
        None => s,
    }
}

/// The part of a cluster name after its first `:`, if it has one.
pub open spec fn cluster_port(s: Seq<char>) -> Option<Seq<char>> {
    match first_index_of(s, ':') {
        Some(i) => Some(s.skip(i + 1)),
        None => None,
    }
}

/// Whether `url::Host::parse` accepts `host` as a domain name or an IP address.
pub uninterp spec fn url_host_parses(host: Seq<char>) -> bool;

/// `url::Host::parse`, reduced to whether it succeeds. The contract claims that
/// the answer is the named predicate of the input; which hosts it accepts is not
/// stated.
#[verifier::external_body]
pub(crate) fn host_parses(host: &str) -> (r: bool)
    ensures
        r == url_host_parses(host@),
{
    url::Host::parse(host).is_ok()
}

/// What `ClusterName::from_str` gives on `s`, once it is known whether the host
/// part parses.
pub open spec fn cluster_name_check(s: Seq<char>, host_ok: bool) -> Result<Seq<char>, Seq<char>> {
    if !host_ok {
        Err("invalid hostname or ip"@)
    } else {
        match cluster_port(s) {
            Some(port) => if parse_u16_spec(port) is Some {
                Ok(s)
            } else {
                Err("invalid port"@)
            },
            None => Ok(s),
        }
    }
}

/// Whether a cluster name uses HTTPS: it has no port, or its port is 443.
pub open spec fn cluster_is_https(s: Seq<char>) -> bool {
    match cluster_port(s) {
        None => true,
        Some(port) => port == "443"@,
    }
}

/// The name of a cluster: a host name or IP address, optionally followed by
/// `:` and a port.
#[derive(Debug, PartialEq, Eq, Hash)]
pub struct ClusterName(String);

impl Clone for ClusterName {
    fn clone(&self) -> (r: Self)
        ensures
            r == *self,
    {
        ClusterName(self.0.clone())
    }
}

impl View for ClusterName {
    type V = Seq<char>;

    closed spec fn view(&self) -> Seq<char> {
        self.0@
    }
}

impl ClusterName {
    /// Checks a cluster name, given whether its host part is a valid host.
    pub fn check(s: &str, host_ok: bool) -> (r: Result<ClusterName, &'static str>)
        ensures
            match (r, cluster_name_check(s@, host_ok)) {
                (Ok(c), Ok(v)) => c@ == v,
                (Err(e), Err(m)) => e@ == m,
                _ => false,
            },
    {
        if !host_ok {
            return Err("invalid hostname or ip");
        }
        let chars = chars_of(s);
        match find_char(chars.as_slice(), ':') {
            Some(i) => {
                let port = s.substring_char(i + 1, chars.len());
                let port_chars = chars_of(port);
                proof {
                    assert(port@ == s@.skip(i + 1));
                }
                if parse_u16(port_chars.as_slice()).is_some() {
                    Ok(ClusterName(s.to_owned()))
                } else {
                    Err("invalid port")
                }
            },
            None => Ok(ClusterName(s.to_owned())),
        }
    }

    /// Parses a cluster name: the host part must be a valid host, and the port,
    /// if present, a valid port number.
    pub fn from_str(s: &str) -> (r: Result<ClusterName, &'static str>)
        ensures
            match (r, cluster_name_check(s@, url_host_parses(cluster_host(s@)))) {
                (Ok(c), Ok(v)) => c@ == v,
                (Err(e), Err(m)) => e@ == m,
                _ => false,
            },
    {
        let chars = chars_of(s);
        let host = match find_char(chars.as_slice(), ':') {
            Some(i) => s.substring_char(0, i),
            None => s,
        };
        let host_ok = host_parses(host);
        ClusterName::check(s, host_ok)
    }

    pub fn is_https(&self) -> (r: bool)
        ensures
            r == cluster_is_https(self@),
    {
        let name = self.0.as_str();
        let chars = chars_of(name);
        match find_char(chars.as_slice(), ':') {
            None => true,
            Some(i) => {
                assert(i < chars.len());
                let port = name.substring_char(i + 1, chars.len());
                str_eq(port, "443")
            },
        }
    }

    pub fn as_str(&self) -> (r: &str)
        ensures
            r@ == self@,
    {
        self.0.as_str()
    }

    pub fn to_string(&self) -> (r: String)
        ensures
            r@ == self@,
    {
        self.0.clone()
    }
}

impl core::str::FromStr for ClusterName {
    type Err = &'static str;

    fn from_str(s: &str) -> (r: Result<Self, Self::Err>)
        ensures
            match (r, cluster_name_check(s@, url_host_parses(cluster_host(s@)))) {
                (Ok(c), Ok(v)) => c@ == v,
                (Err(e), Err(m)) => e@ == m,
                _ => false,
            },
    {
        ClusterName::from_str(s)
    }
}

#[derive(Clone, Copy, Debug, PartialEq, Eq, Structural)]
pub enum PullPolicy {
    IfNotPresent,
    Always,
    Never,
}

impl Default for PullPolicy {
    fn default() -> (r: Self)
        ensures
            r == PullPolicy::IfNotPresent,
    {
        PullPolicy::IfNotPresent
    }
}

/// Period of CPU time, in microseconds.
#[derive(Clone, Copy, Debug, PartialEq, Eq, Structural)]
pub struct DockerCpuPeriod(pub u64);

impl Default for DockerCpuPeriod {
    /// 100 milliseconds.
    fn default() -> (r: Self)
        ensures
            r.0 == 100_000,
    {
        DockerCpuPeriod(100_000)
    }
}

impl DockerCpuPeriod {
    pub fn as_micros(&self) -> (r: u64)
        ensures
            r == self.0,
    {
        self.0
    }
}

/// Total CPU time, in seconds.
#[derive(Clone, Copy, Debug, PartialEq, Eq, Structural)]
pub struct DockerCpuTimeLimit(pub u64);

#[derive(Clone, Copy, Debug, PartialEq, Eq, Structural)]
pub struct ResourceLimits {
    /// Period of cpu time (in microseconds)
    pub cpu_period: Option<DockerCpuPeriod>,
    /// Proportion of period used by container
    pub cpu_period_percent: Option<u8>,
    /// Total cpu time allocated to container
    pub cpu_time_limit: Option<DockerCpuTimeLimit>,
    /// Maximum amount of memory container can use (in bytes)
    pub memory_limit_bytes: Option<i64>,
    /// Maximum disk space container can use (in bytes)
    pub disk_limit_bytes: Option<i64>,
}

impl Default for ResourceLimits {
    fn default() -> (r: Self)
        ensures
            r.cpu_period is None,
            r.cpu_period_percent is None,
            r.cpu_time_limit is None,
            r.memory_limit_bytes is None,
            r.disk_limit_bytes is None,
    {
        ResourceLimits {
            cpu_period: None,
            cpu_period_percent: None,
            cpu_time_limit: None,
            memory_limit_bytes: None,
            disk_limit_bytes: None,
        }
    }
}

#[derive(Clone, Debug)]
pub enum DockerRegistryAuth {
    UsernamePassword { username: String, password: String },
}

#[derive(Clone, Debug)]
pub struct ExecutorConfig {
    pub image: String,
    pub pull_policy: Option<PullPolicy>,
    pub credentials: Option<DockerRegistryAuth>,
    /// Environment variables, as name and value.
    pub env: Vec<(String, String)>,
    pub resource_limits: ResourceLimits,
}

impl ExecutorConfig {
    pub fn from_image_with_defaults(image: String) -> (r: Self)
        ensures
            r.image@ == image@,
            r.pull_policy is None,
            r.credentials is None,
            r.env@.len() == 0,
            r.resource_limits == ResourceLimits::default_spec(),
    {
        ExecutorConfig {
            image,
            pull_policy: None,
            env: Vec::new(),
            resource_limits: ResourceLimits::default(),
            credentials: None,
        }
    }
}

impl ResourceLimits {
    /// The limits that `default` gives: none set.
    pub open spec fn default_spec() -> ResourceLimits {
        ResourceLimits {
            cpu_period: None,
            cpu_period_percent: None,
            cpu_time_limit: None,
            memory_limit_bytes: None,
            disk_limit_bytes: None,
        }
    }
}

#[derive(Clone, Debug)]
pub struct SpawnConfig {
    /// ID to assign to the new backend. Must be unique.
    pub id: Option<BackendName>,
    /// Cluster to spawn to. Uses the controller default if not provided.
    pub cluster: Option<ClusterName>,
    /// Config to use to spawn the backend process.
    pub executable: ExecutorConfig,
    /// If provided, the maximum amount of time the backend will be allowed to
    /// stay alive. Time counts from when the backend is scheduled.
    pub lifetime_limit_seconds: Option<i32>,
    /// If provided, the maximum amount of time the backend will be allowed to
    /// stay alive with no inbound connections to it.
    pub max_idle_seconds: Option<i32>,
    /// If true, the backend will have a single connection token associated with it at spawn
    /// time instead of dynamic tokens for each user.
    pub use_static_token: bool,
}

#[derive(Debug, PartialEq, Eq, Hash)]
pub struct KeyConfig {
    /// If provided, and a running backend was created with the same key,
    /// namespace, and tag, we will connect to that backend instead
    /// of creating a new one.
    pub name: String,
    /// Namespace of the key. If not specified, the default namespace (empty string)
    /// is used.
    pub namespace: String,
    /// If we request a connection to a key and the backend for that key
    /// is running, we will only connect to it if the tag matches the tag
    /// of the connection request that created it.
    pub tag: String,
}

impl Clone for KeyConfig {
    fn clone(&self) -> (r: Self)
        ensures
            r == *self,
    {
        KeyConfig { name: self.name.clone(), namespace: self.namespace.clone(), tag: self.tag.clone() }
    }
}

impl Default for KeyConfig {
    fn default() -> (r: Self)
        ensures
            r.name@.len() == 0,
            r.namespace@.len() == 0,
            r.tag@.len() == 0,
    {
        KeyConfig { name: String::new(), namespace: String::new(), tag: String::new() }
    }
}

impl KeyConfig {
    /// A key with a random name `lk-...` in the default namespace, with no tag.
    pub fn new_random() -> (r: Self)
        ensures
            crate::plane2::util::is_random_prefixed(r.name@, "lk"@),
            r.namespace@.len() == 0,
            r.tag@.len() == 0,
    {
        let name = crate::plane2::util::random_prefixed_string("lk");
        proof {
            reveal_strlit("lk");
            reveal_strlit("-");
            let tail = name@.skip(3);
            assert(name@ =~= "lk"@ + "-"@ + tail);
        }
        KeyConfig { name, namespace: String::new(), tag: String::new() }
    }
}

/// A request to connect to a backend, spawning one when needed.
#[derive(Clone, Debug)]
pub struct ConnectRequest {
    /// Configuration for the key to use.
    pub key: Option<KeyConfig>,
    /// Config to use if we need to create a new backend to connect to.
    pub spawn_config: Option<SpawnConfig>,
    /// Username or other identifier to associate with the generated connection URL.
    /// Passed to the backend through the X-Plane-User header.
    pub user: Option<String>,
    /// A JSON object passed along with each request to the backend through the
    /// X-Plane-Auth header: its fields, each as its name and the JSON text of its value.
    pub auth: Vec<(String, String)>,
}

impl Default for ConnectRequest {
    fn default() -> (r: Self)
        ensures
            r.key is None,
            r.spawn_config is None,
            r.user is None,
            r.auth@.len() == 0,
    {
        ConnectRequest { key: None, spawn_config: None, user: None, auth: Vec::new() }
    }
}

/// Prefix of static bearer tokens.
pub const STATIC_TOKEN_PREFIX: &'static str = "s.";

#[derive(Debug, PartialEq, Eq, Hash)]
pub struct BearerToken(String);

impl Clone for BearerToken {
    fn clone(&self) -> (r: Self)
        ensures
            r == *self,
    {
        BearerToken(self.0.clone())
    }
}

impl View for BearerToken {
    type V = Seq<char>;

    closed spec fn view(&self) -> Seq<char> {
        self.0@
    }
}

/// A token is static when it starts with `s.`.
pub open spec fn token_is_static(t: Seq<char>) -> bool {
    starts_with(t, "s."@)
}

impl BearerToken {
    /// A new static token: `s.` followed by a random token.
    pub fn new_random_static() -> (r: Self)
        ensures
            token_is_static(r@),
            exists|bytes: Seq<u8>|
                bytes.len() == 32 && r@ == "s."@ + crate::plane2::util::base64url_nopad_encoding(bytes),
            r@.len() == 45,
    {
        let mut s = String::new();
        push_str(&mut s, STATIC_TOKEN_PREFIX);
        let token = crate::plane2::util::random_token();
        push_str(&mut s, token.as_str());
        proof {
            reveal_strlit("s.");
            assert(s@.subrange(0, 2) =~= "s."@);
        }
        BearerToken(s)
    }

    pub fn is_static(&self) -> (r: bool)
        ensures
            r == token_is_static(self@),
    {
        let chars = chars_of(self.0.as_str());
        let prefix = chars_of(STATIC_TOKEN_PREFIX);
        seq_starts_with(chars.as_slice(), prefix.as_slice())
    }

    pub fn from_string(s: String) -> (r: Self)
        ensures
            r@ == s@,
    {
        BearerToken(s)
    }

    pub fn as_str(&self) -> (r: &str)
        ensures
            r@ == self@,
    {
        self.0.as_str()
    }

    pub fn to_string(&self) -> (r: String)
        ensures
            r@ == self@,
    {
        self.0.clone()
    }
}

impl From<String> for BearerToken {
    fn from(s: String) -> Self {
        BearerToken(s)
    }
}

impl vstd::std_specs::convert::FromSpecImpl<String> for BearerToken {
    open spec fn obeys_from_spec() -> bool {
        true
    }

    closed spec fn from_spec(v: String) -> Self {
        BearerToken(v)
    }
}

#[derive(Debug, PartialEq, Eq)]
pub struct SecretToken(String);

impl Clone for SecretToken {
    fn clone(&self) -> (r: Self)
        ensures
            r == *self,
    {
        SecretToken(self.0.clone())
    }
}

impl View for SecretToken {
    type V = Seq<char>;

    closed spec fn view(&self) -> Seq<char> {
        self.0@
    }
}

impl SecretToken {
    pub fn from_string(s: String) -> (r: Self)
        ensures
            r@ == s@,
    {
        SecretToken(s)
    }

    pub fn as_str(&self) -> (r: &str)
        ensures
            r@ == self@,
    {
        self.0.as_str()
    }

    pub fn to_string(&self) -> (r: String)
        ensures
            r@ == self@,
    {
        self.0.clone()
    }
}

impl From<String> for SecretToken {
    fn from(s: String) -> Self {
        SecretToken(s)
    }
}

impl vstd::std_specs::convert::FromSpecImpl<String> for SecretToken {
    open spec fn obeys_from_spec() -> bool {
        true
    }

    closed spec fn from_spec(v: String) -> Self {
        SecretToken(v)
    }
}

/// The connection URL handed out for `token` on `cluster`.
pub open spec fn connection_url(cluster: Seq<char>, token: Seq<char>) -> Seq<char> {
    (if cluster_is_https(cluster) { "https://"@ } else { "http://"@ }) + cluster + "/"@ + token
        + "/"@
}

#[derive(Clone, Debug)]
pub struct ConnectResponse {
    pub backend_id: BackendName,
    /// Whether the backend is a new one spawned due to the request.
    pub spawned: bool,
    pub status: BackendStatus,
    pub token: BearerToken,
    pub url: String,
    pub secret_token: Option<SecretToken>,
    pub status_url: String,
    /// The drone that spawned this backend, if the request resulted in a spawn.
    pub drone: Option<DroneName>,
}

impl ConnectResponse {
    /// Builds the response to a connection request; `status_url` is the
    /// controller's status URL for the backend.
    pub fn new(
        backend_id: BackendName,
        cluster: &ClusterName,
        spawned: bool,
        status: BackendStatus,
        token: BearerToken,
        secret_token: Option<SecretToken>,
        status_url: String,
        drone: Option<DroneName>,
    ) -> (r: Self)
        ensures
            r.backend_id == backend_id,
            r.spawned == spawned,
            r.status == status,
            r.token == token,
            r.url@ == connection_url(cluster@, token@),
            r.secret_token == secret_token,
            r.status_url == status_url,
            r.drone == drone,
    {
        let mut url = String::new();
        if cluster.is_https() {
            push_str(&mut url, "https://");
        } else {
            push_str(&mut url, "http://");
        }
        push_str(&mut url, cluster.as_str());
        push_str(&mut url, "/");
        push_str(&mut url, token.as_str());
        push_str(&mut url, "/");
        ConnectResponse {
            backend_id,
            spawned,
            status,
            token,
            url,
            secret_token,
            status_url,
            drone,
        }
    }
}

#[derive(Clone, Copy, Debug, PartialEq, Eq, Structural)]
pub enum NodeKind {
    Proxy,
    Drone,
    AcmeDnsServer,
}

/// The serialized name of a node kind.
pub open spec fn node_kind_name(k: NodeKind) -> Seq<char> {
    match k {
        NodeKind::Proxy => "Proxy"@,
        NodeKind::Drone => "Drone"@,
        NodeKind::AcmeDnsServer => "AcmeDnsServer"@,
    }
}

/// The node kind whose serialized name is `name`.
pub open spec fn node_kind_from_name(name: Seq<char>) -> Option<NodeKind> {
    if name == "Proxy"@ {
        Some(NodeKind::Proxy)
    } else if name == "Drone"@ {
        Some(NodeKind::Drone)
    } else if name == "AcmeDnsServer"@ {
        Some(NodeKind::AcmeDnsServer)
    } else {
        None
    }
}

impl NodeKind {
    pub fn to_string(&self) -> (r: String)
        ensures
            r@ == node_kind_name(*self),
    {
        let mut s = String::new();
        match self {
            NodeKind::Proxy => push_str(&mut s, "Proxy"),
            NodeKind::Drone => push_str(&mut s, "Drone"),
            NodeKind::AcmeDnsServer => push_str(&mut s, "AcmeDnsServer"),
        }
        s
    }

    /// Parses a node kind from its serialized name.
    pub fn from_name(name: &str) -> (r: Option<NodeKind>)
        ensures
            r == node_kind_from_name(name@),
    {
        if str_eq(name, "Proxy") {
            Some(NodeKind::Proxy)
        } else if str_eq(name, "Drone") {
            Some(NodeKind::Drone)
        } else if str_eq(name, "AcmeDnsServer") {
            Some(NodeKind::AcmeDnsServer)
        } else {
            None
        }
    }
}

/// A node kind read back from its serialized name is the kind itself.
pub proof fn law_node_kind_name_round_trip(k: NodeKind)
    ensures
        node_kind_from_name(node_kind_name(k)) == Some(k),
{
    reveal_strlit("Proxy");
    reveal_strlit("Drone");
    reveal_strlit("AcmeDnsServer");
    assert("Proxy"@.len() == 5);
    assert("Drone"@.len() == 5);
    assert("Proxy"@[0] != "Drone"@[0]);
    assert("AcmeDnsServer"@.len() == 13);
}

} // verus!
