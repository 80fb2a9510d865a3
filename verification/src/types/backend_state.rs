//! The lifecycle of a backend: its status, its state (status plus the data that
//! goes with it), and the transitions between states.
use crate::text::{push_str, str_eq};
use vstd::prelude::*;
use vstd::string::*;

verus! {

/// Where a backend listens: an IP address and a port.
#[derive(Clone, Copy, Debug, PartialEq, Eq, Structural)]
pub enum IpAddress {
    /// An IPv4 address, as its 32 bits in network order.
    V4(u32),
    /// An IPv6 address, as its 128 bits in network order.
    V6(u128),
}

/// The socket address of a running backend.
#[derive(Clone, Copy, Debug, PartialEq, Eq, Structural)]
pub struct BackendAddr {
    pub ip: IpAddress,
    pub port: u16,
}

#[derive(Clone, Copy, Debug, PartialEq, Eq, PartialOrd, Structural)]
pub enum BackendStatus {
    /// The backend has been scheduled to a drone, but has not yet been acknowledged.
    /// This status is only assigned by the controller; the drone will never assign it by definition.
    Scheduled,
    /// The backend has been assigned to a drone, which is now responsible for loading its image.
    Loading,
    /// Telling Docker to start the container.
    Starting,
    /// Wait for the backend to be ready to accept connections.
    Waiting,
    /// The backend is listening for connections.
    Ready,
    /// The backend has been sent a SIGTERM, either because we sent it or the user did,
    /// and we are waiting for it to exit.
    /// Proxies should stop sending traffic to it, but we should not yet release the key.
    Terminating,
    /// The backend has been sent a SIGKILL, either because the user sent a hard termination
    /// request or the lock was past the hard-termination deadline.
    HardTerminating,
    /// The backend has exited or been swept.
    Terminated,
}

/// Position of a status in the lifecycle, in declaration order.
pub open spec fn lifecycle_position(s: BackendStatus) -> int {
    match s {
        BackendStatus::Scheduled => 0,
        BackendStatus::Loading => 1,
        BackendStatus::Starting => 2,
        BackendStatus::Waiting => 3,
        BackendStatus::Ready => 4,
        BackendStatus::Terminating => 5,
        BackendStatus::HardTerminating => 6,
        BackendStatus::Terminated => 7,
    }
}

/// The integer representation of a status.
pub open spec fn status_rank(s: BackendStatus) -> int {
    match s {
        BackendStatus::Scheduled => 10,
        BackendStatus::Loading => 20,
        BackendStatus::Starting => 30,
        BackendStatus::Waiting => 40,
        BackendStatus::Ready => 50,
        BackendStatus::Terminating => 60,
        BackendStatus::HardTerminating => 65,
        BackendStatus::Terminated => 70,
    }
}

/// The name of a status, as it appears in serialized form.
pub open spec fn status_name(s: BackendStatus) -> Seq<char> {
    match s {
        BackendStatus::Scheduled => "scheduled"@,
        BackendStatus::Loading => "loading"@,
        BackendStatus::Starting => "starting"@,
        BackendStatus::Waiting => "waiting"@,
        BackendStatus::Ready => "ready"@,
        BackendStatus::Terminating => "terminating"@,
        BackendStatus::HardTerminating => "hard-terminating"@,
        BackendStatus::Terminated => "terminated"@,
    }
}

/// The status whose name is `name`, if any.
pub open spec fn status_from_name(name: Seq<char>) -> Option<BackendStatus> {
    if name == "scheduled"@ {
        Some(BackendStatus::Scheduled)
    } else if name == "loading"@ {
        Some(BackendStatus::Loading)
    } else if name == "starting"@ {
        Some(BackendStatus::Starting)
    } else if name == "waiting"@ {
        Some(BackendStatus::Waiting)
    } else if name == "ready"@ {
        Some(BackendStatus::Ready)
    } else if name == "terminating"@ {
        Some(BackendStatus::Terminating)
    } else if name == "hard-terminating"@ {
        Some(BackendStatus::HardTerminating)
    } else if name == "terminated"@ {
        Some(BackendStatus::Terminated)
    } else {
        None
    }
}

impl BackendStatus {
    /// Returns an integer representation of the status. This is meant to be an
    /// opaque value that can be used for determining if one status comes before
    /// another in the backend lifecycle.
    /// Gaps are intentionally left in these values to provide room for future
    /// statuses.
    pub fn as_int(&self) -> (r: i32)
        ensures
            r == status_rank(*self),
    {
        match self {
            BackendStatus::Scheduled => 10,
            BackendStatus::Loading => 20,
            BackendStatus::Starting => 30,
            BackendStatus::Waiting => 40,
            BackendStatus::Ready => 50,
            BackendStatus::Terminating => 60,
            BackendStatus::HardTerminating => 65,
            BackendStatus::Terminated => 70,
        }
    }

    /// The serialized name of the status.
    pub fn as_str(&self) -> (r: &'static str)
        ensures
            r@ == status_name(*self),
    {
        match self {
            BackendStatus::Scheduled => "scheduled",
            BackendStatus::Loading => "loading",
            BackendStatus::Starting => "starting",
            BackendStatus::Waiting => "waiting",
            BackendStatus::Ready => "ready",
            BackendStatus::Terminating => "terminating",
            BackendStatus::HardTerminating => "hard-terminating",
            BackendStatus::Terminated => "terminated",
        }
    }

    /// The serialized name of the status, as an owned string.
    pub fn to_string(&self) -> (r: String)
        ensures
            r@ == status_name(*self),
    {
        let mut s = String::new();
        push_str(&mut s, self.as_str());
        s
    }

    /// Parses a status from its serialized name.
    pub fn from_name(name: &str) -> (r: Option<BackendStatus>)
        ensures
            r == status_from_name(name@),
    {
        if str_eq(name, "scheduled") {
            Some(BackendStatus::Scheduled)
        } else if str_eq(name, "loading") {
            Some(BackendStatus::Loading)
        } else if str_eq(name, "starting") {
            Some(BackendStatus::Starting)
        } else if str_eq(name, "waiting") {
            Some(BackendStatus::Waiting)
        } else if str_eq(name, "ready") {
            Some(BackendStatus::Ready)
        } else if str_eq(name, "terminating") {
            Some(BackendStatus::Terminating)
        } else if str_eq(name, "hard-terminating") {
            Some(BackendStatus::HardTerminating)
        } else if str_eq(name, "terminated") {
            Some(BackendStatus::Terminated)
        } else {
            None
        }
    }

    /// Whether `self` comes at or after `other` in the backend lifecycle.
    pub fn is_at_or_after(&self, other: &BackendStatus) -> (r: bool)
        ensures
            r == (status_rank(*self) >= status_rank(*other)),
    {
        self.as_int() >= other.as_int()
    }
}

#[derive(Clone, Copy, Debug, PartialEq, Eq, Structural)]
pub enum TerminationKind {
    Soft,
    Hard,
}

#[derive(Clone, Copy, Debug, PartialEq, Eq, Structural)]
pub enum TerminationReason {
    Swept,
    External,
    KeyExpired,
    Lost,
    StartupTimeout,
    ErrorWaiting,
}

/// The logged name of a termination reason.
pub open spec fn reason_name(r: TerminationReason) -> Seq<char> {
    match r {
        TerminationReason::Swept => "swept"@,
        TerminationReason::External => "external"@,
        TerminationReason::KeyExpired => "key_expired"@,
        TerminationReason::Lost => "lost"@,
        TerminationReason::StartupTimeout => "startup_timeout"@,
        TerminationReason::ErrorWaiting => "error_waiting"@,
    }
}

impl TerminationReason {
    /// The name under which the reason is logged.
    pub fn as_value(&self) -> (r: &'static str)
        ensures
            r@ == reason_name(*self),
    {
        match self {
            TerminationReason::Swept => "swept",
            TerminationReason::External => "external",
            TerminationReason::KeyExpired => "key_expired",
            TerminationReason::Lost => "lost",
            TerminationReason::StartupTimeout => "startup_timeout",
            TerminationReason::ErrorWaiting => "error_waiting",
        }
    }
}

#[derive(Clone, Debug)]
pub enum BackendError {
    /// Timeout waiting for backend to start.
    StartupTimeout,
    Other(String),
}

impl BackendError {
    /// The message of the error.
    pub fn to_string(&self) -> (r: String)
        ensures
            match self {
                BackendError::StartupTimeout => r@ == "Timeout waiting for backend to start"@,
                BackendError::Other(m) => r@ == m@,
            },
    {
        match self {
            BackendError::StartupTimeout => {
                let mut s = String::new();
                push_str(&mut s, "Timeout waiting for backend to start");
                s
            },
            BackendError::Other(m) => m.clone(),
        }
    }
}

#[derive(Clone, Copy, Debug, PartialEq, Eq, Structural)]
pub enum BackendState {
    Scheduled,
    Loading,
    Starting,
    Waiting {
        address: BackendAddr,
    },
    Ready {
        address: BackendAddr,
    },
    Terminating {
        /// Last status before either soft or hard termination.
        last_status: BackendStatus,
        termination: TerminationKind,
        reason: TerminationReason,
    },
    HardTerminating {
        /// Last status before either soft or hard termination.
        last_status: BackendStatus,
        reason: TerminationReason,
    },
    Terminated {
        last_status: BackendStatus,
        termination: Option<TerminationKind>,
        reason: Option<TerminationReason>,
        exit_code: Option<i32>,
    },
}

/// The status of a state.
pub open spec fn state_status(s: BackendState) -> BackendStatus {
    match s {
        BackendState::Scheduled => BackendStatus::Scheduled,
        BackendState::Loading => BackendStatus::Loading,
        BackendState::Starting => BackendStatus::Starting,
        BackendState::Waiting { .. } => BackendStatus::Waiting,
        BackendState::Ready { .. } => BackendStatus::Ready,
        BackendState::Terminating { .. } => BackendStatus::Terminating,
        BackendState::HardTerminating { .. } => BackendStatus::HardTerminating,
        BackendState::Terminated { .. } => BackendStatus::Terminated,
    }
}

/// The address a state carries, if any.
pub open spec fn state_address(s: BackendState) -> Option<BackendAddr> {
    match s {
        BackendState::Waiting { address } => Some(address),
        BackendState::Ready { address } => Some(address),
        _ => None,
    }
}

/// The state after a soft termination request for `reason`.
pub open spec fn terminating_from(s: BackendState, reason: TerminationReason) -> BackendState {
    if status_rank(state_status(s)) >= status_rank(BackendStatus::Terminating) {
        s
    } else {
        BackendState::Terminating {
            last_status: state_status(s),
            termination: TerminationKind::Soft,
            reason,
        }
    }
}

/// The state after a hard termination request for `reason`.
pub open spec fn hard_terminating_from(s: BackendState, reason: TerminationReason) -> BackendState {
    if status_rank(state_status(s)) >= status_rank(BackendStatus::HardTerminating) {
        s
    } else {
        match s {
            BackendState::Terminating { last_status, .. } => BackendState::HardTerminating {
                last_status,
                reason,
            },
            _ => BackendState::HardTerminating { last_status: state_status(s), reason },
        }
    }
}

/// The state after the backend exited with `exit_code`.
pub open spec fn terminated_from(s: BackendState, exit_code: Option<i32>) -> BackendState {
    match s {
        BackendState::Terminated { .. } => s,
        BackendState::HardTerminating { last_status, reason } => BackendState::Terminated {
            last_status,
            termination: Some(TerminationKind::Hard),
            reason: Some(reason),
            exit_code,
        },
        BackendState::Terminating { last_status, termination, reason } => BackendState::Terminated {
            last_status,
            termination: Some(termination),
            reason: Some(reason),
            exit_code,
        },
        _ => BackendState::Terminated {
            last_status: state_status(s),
            termination: None,
            reason: None,
            exit_code,
        },
    }
}

impl BackendState {
    pub fn address(&self) -> (r: Option<BackendAddr>)
        ensures
            r == state_address(*self),
    {
        match self {
            BackendState::Waiting { address } => Some(*address),
            BackendState::Ready { address } => Some(*address),
            _ => None,
        }
    }

    pub fn status(&self) -> (r: BackendStatus)
        ensures
            r == state_status(*self),
    {
        match self {
            BackendState::Scheduled => BackendStatus::Scheduled,
            BackendState::Loading => BackendStatus::Loading,
            BackendState::Starting => BackendStatus::Starting,
            BackendState::Waiting { .. } => BackendStatus::Waiting,
            BackendState::Ready { .. } => BackendStatus::Ready,
            BackendState::Terminating { .. } => BackendStatus::Terminating,
            BackendState::HardTerminating { .. } => BackendStatus::HardTerminating,
            BackendState::Terminated { .. } => BackendStatus::Terminated,
        }
    }

    pub fn status_int(&self) -> (r: i32)
        ensures
            r == status_rank(state_status(*self)),
    {
        self.status().as_int()
    }

    pub fn to_loading(&self) -> (r: BackendState)
        ensures
            r == BackendState::Loading,
    {
        BackendState::Loading
    }

    pub fn to_starting(&self) -> (r: BackendState)
        ensures
            r == BackendState::Starting,
    {
        BackendState::Starting
    }

    pub fn to_waiting(&self, address: BackendAddr) -> (r: BackendState)
        ensures
            r == (BackendState::Waiting { address }),
    {
        BackendState::Waiting { address }
    }

    pub fn to_ready(&self, address: BackendAddr) -> (r: BackendState)
        ensures
            r == (BackendState::Ready { address }),
    {
        BackendState::Ready { address }
    }

    /// Moves the backend to soft termination, unless it is already terminating
    /// or further along, in which case the state is kept.
    pub fn to_terminating(&self, reason: TerminationReason) -> (r: BackendState)
        ensures
            r == terminating_from(*self, reason),
    {
        if self.status().is_at_or_after(&BackendStatus::Terminating) {
            return *self;
        }
        BackendState::Terminating {
            last_status: self.status(),
            termination: TerminationKind::Soft,
            reason,
        }
    }

    /// Moves the backend to hard termination, unless it is already hard-terminating
    /// or terminated, in which case the state is kept. The status before termination
    /// began is carried over.
    pub fn to_hard_terminating(&self, reason: TerminationReason) -> (r: BackendState)
        ensures
            r == hard_terminating_from(*self, reason),
    {
        if self.status().is_at_or_after(&BackendStatus::HardTerminating) {
            return *self;
        }
        match self {
            BackendState::Terminating { last_status, .. } => BackendState::HardTerminating {
                last_status: *last_status,
                reason,
            },
            _ => BackendState::HardTerminating { last_status: self.status(), reason },
        }
    }

    /// Marks the backend as terminated with the given exit code. A terminated
    /// backend keeps its state.
    pub fn to_terminated(&self, exit_code: Option<i32>) -> (r: BackendState)
        ensures
            r == terminated_from(*self, exit_code),
    {
        match self {
            BackendState::Terminated { .. } => *self,
            BackendState::HardTerminating { last_status, reason } => BackendState::Terminated {
                last_status: *last_status,
                termination: Some(TerminationKind::Hard),
                reason: Some(*reason),
                exit_code,
            },
            BackendState::Terminating { last_status, termination, reason } => {
                BackendState::Terminated {
                    last_status: *last_status,
                    termination: Some(*termination),
                    reason: Some(*reason),
                    exit_code,
                }
            },
            _ => BackendState::Terminated {
                last_status: self.status(),
                termination: None,
                reason: None,
                exit_code,
            },
        }
    }
}

impl Default for BackendState {
    fn default() -> (r: Self)
        ensures
            r == BackendState::Scheduled,
    {
        BackendState::Scheduled
    }
}

/// A point in time, in milliseconds since the Unix epoch.
#[derive(Clone, Copy, Debug, PartialEq, Eq, Structural)]
pub struct LoggableTime(pub i64);

/// A timestamped representation of a backend's status, along with
/// termination information. This is used for public-facing endpoints.
/// It does not include the backend's address, which is only available
/// to the controller.
#[derive(Clone, Copy, Debug, PartialEq, Eq, Structural)]
pub struct BackendStatusStreamEntry {
    pub status: BackendStatus,
    pub termination_reason: Option<TerminationReason>,
    pub termination_kind: Option<TerminationKind>,
    /// Whether the process exited with an error. None if the process
    /// is still running.
    pub exit_error: Option<bool>,
    pub time: LoggableTime,
}

/// The termination reason a state reports.
pub open spec fn state_termination_reason(s: BackendState) -> Option<TerminationReason> {
    match s {
        BackendState::Terminated { reason, .. } => reason,
        BackendState::Terminating { reason, .. } => Some(reason),
        BackendState::HardTerminating { reason, .. } => Some(reason),
        _ => None,
    }
}

/// The termination kind a state reports.
pub open spec fn state_termination_kind(s: BackendState) -> Option<TerminationKind> {
    match s {
        BackendState::Terminated { termination, .. } => termination,
        BackendState::Terminating { .. } => Some(TerminationKind::Soft),
        BackendState::HardTerminating { .. } => Some(TerminationKind::Hard),
        _ => None,
    }
}

/// Whether the process exited with an error, for a terminated state.
pub open spec fn state_exit_error(s: BackendState) -> Option<bool> {
    match s {
        BackendState::Terminated { exit_code: Some(d), .. } => Some(d != 0),
        BackendState::Terminated { .. } => Some(false),
        _ => None,
    }
}

impl BackendStatusStreamEntry {
    pub fn from_state(state: BackendState, timestamp: LoggableTime) -> (r: Self)
        ensures
            r.status == state_status(state),
            r.termination_reason == state_termination_reason(state),
            r.termination_kind == state_termination_kind(state),
            r.exit_error == state_exit_error(state),
            r.time == timestamp,
    {
        let termination_reason = match state {
            BackendState::Terminated { reason, .. } => reason,
            BackendState::Terminating { reason, .. } => Some(reason),
            BackendState::HardTerminating { reason, .. } => Some(reason),
            _ => None,
        };

        let termination_kind = match state {
            BackendState::Terminated { termination, .. } => termination,
            BackendState::Terminating { .. } => Some(TerminationKind::Soft),
            BackendState::HardTerminating { .. } => Some(TerminationKind::Hard),
            _ => None,
        };

        let exit_error = match state {
            BackendState::Terminated { exit_code: Some(d), .. } => Some(d != 0),
            BackendState::Terminated { .. } => Some(false),
            _ => None,
        };

        BackendStatusStreamEntry {
            status: state.status(),
            termination_reason,
            termination_kind,
            exit_error,
            time: timestamp,
        }
    }
}

/// The integer representation orders statuses as the lifecycle does, and no
/// two statuses share one.
pub proof fn law_status_rank_follows_lifecycle(a: BackendStatus, b: BackendStatus)
    ensures
        status_rank(a) < status_rank(b) <==> lifecycle_position(a) < lifecycle_position(b),
        status_rank(a) == status_rank(b) <==> a == b,
{
}

/// A termination request or an exit never moves a backend back in its lifecycle.
pub proof fn law_termination_never_goes_back(
    s: BackendState,
    reason: TerminationReason,
    exit_code: Option<i32>,
)
    ensures
        status_rank(state_status(terminating_from(s, reason))) >= status_rank(state_status(s)),
        status_rank(state_status(hard_terminating_from(s, reason))) >= status_rank(state_status(s)),
        status_rank(state_status(terminated_from(s, exit_code))) >= status_rank(state_status(s)),
        status_rank(state_status(terminating_from(s, reason))) >= status_rank(BackendStatus::Terminating),
        status_rank(state_status(hard_terminating_from(s, reason))) >= status_rank(BackendStatus::HardTerminating),
        state_status(terminated_from(s, exit_code)) == BackendStatus::Terminated,
{
}

/// Once terminated, a backend stays as it is, whatever further request comes.
pub proof fn law_terminated_is_final(
    s: BackendState,
    reason: TerminationReason,
    exit_code: Option<i32>,
)
    requires
        state_status(s) == BackendStatus::Terminated,
    ensures
        terminating_from(s, reason) == s,
        hard_terminating_from(s, reason) == s,
        terminated_from(s, exit_code) == s,
{
}

/// Repeating a termination request changes nothing.
pub proof fn law_termination_requests_are_idempotent(
    s: BackendState,
    r1: TerminationReason,
    r2: TerminationReason,
    e1: Option<i32>,
    e2: Option<i32>,
)
    ensures
        terminating_from(terminating_from(s, r1), r2) == terminating_from(s, r1),
        hard_terminating_from(hard_terminating_from(s, r1), r2) == hard_terminating_from(s, r1),
        terminated_from(terminated_from(s, e1), e2) == terminated_from(s, e1),
{
}

/// Through soft and hard termination to exit, a backend remembers the status it had
/// before termination began, and the kind and reason of its last termination request.
pub proof fn law_termination_keeps_last_status(
    s: BackendState,
    r1: TerminationReason,
    r2: TerminationReason,
    exit_code: Option<i32>,
)
    requires
        status_rank(state_status(s)) < status_rank(BackendStatus::Terminating),
    ensures
        terminated_from(terminating_from(s, r1), exit_code) == (BackendState::Terminated {
            last_status: state_status(s),
            termination: Some(TerminationKind::Soft),
            reason: Some(r1),
            exit_code,
        }),
        terminated_from(hard_terminating_from(terminating_from(s, r1), r2), exit_code) == (
        BackendState::Terminated {
            last_status: state_status(s),
            termination: Some(TerminationKind::Hard),
            reason: Some(r2),
            exit_code,
        }),
        terminated_from(hard_terminating_from(s, r2), exit_code) == (BackendState::Terminated {
            last_status: state_status(s),
            termination: Some(TerminationKind::Hard),
            reason: Some(r2),
            exit_code,
        }),
{
}

/// A status read back from its serialized name is the status itself.
pub proof fn law_status_name_round_trip(s: BackendStatus)
    ensures
        status_from_name(status_name(s)) == Some(s),
{
    reveal_strlit("scheduled");
    reveal_strlit("loading");
    reveal_strlit("starting");
    reveal_strlit("waiting");
    reveal_strlit("ready");
    reveal_strlit("terminating");
    reveal_strlit("hard-terminating");
    reveal_strlit("terminated");
    assert("scheduled"@.len() == 9);
    assert("loading"@.len() == 7);
    assert("starting"@.len() == 8);
    assert("waiting"@.len() == 7);
    assert("ready"@.len() == 5);
    assert("terminating"@.len() == 11);
    assert("hard-terminating"@.len() == 16);
    assert("terminated"@.len() == 10);
    assert("loading"@[0] != "waiting"@[0]);
}

/// The status stream reports the kind of a termination as it was asked for: a
/// hard-terminating backend as hard, a soft-terminating one as soft; so a hard
/// termination request on a running backend is reported as hard, and a soft
/// one as soft.
pub proof fn law_stream_reports_termination_kind(s: BackendState, reason: TerminationReason)
    ensures
        s is HardTerminating ==> state_termination_kind(s) == Some(TerminationKind::Hard),
        s is Terminating ==> state_termination_kind(s) == Some(TerminationKind::Soft),
        status_rank(state_status(s)) < status_rank(BackendStatus::HardTerminating) ==> state_termination_kind(
            hard_terminating_from(s, reason),
        ) == Some(TerminationKind::Hard),
        status_rank(state_status(s)) < status_rank(BackendStatus::Terminating) ==> state_termination_kind(
            terminating_from(s, reason),
        ) == Some(TerminationKind::Soft),
{
}

} // verus!
