//! Renewal of the keys held by a drone's backends, and termination of backends
//! whose key could not be renewed in time.
use crate::plane2::protocol::{AcquiredKey, RenewKeyRequest};
use crate::plane2::types::LoggableTime;
use vstd::prelude::*;

verus! {

/// What the renewal task for a key does next.
#[derive(Clone, Copy, Debug, PartialEq, Eq, Structural)]
pub enum RenewAction {
    /// Sleep until the given time (milliseconds since the epoch).
    Sleep { until: u64 },
    /// Send a renewal request, then sleep until the given time.
    Renew { sleep_until: u64 },
    /// Soft-terminate the backend, then sleep until the given time.
    SoftTerminate { sleep_until: u64 },
    /// Hard-terminate the backend; once that succeeds, the task ends.
    HardTerminate,
}

/// How long to wait before trying a termination again after it failed (1 second).
pub const TERMINATE_RETRY_MS: u64 = 1_000;

/// What the renewal task does after a termination it asked for.
#[derive(Clone, Copy, Debug, PartialEq, Eq, Structural)]
pub enum AfterTermination {
    /// The backend is hard-terminated: the task ends.
    End,
    /// The termination failed: wait `TERMINATE_RETRY_MS`, then decide again.
    Retry { wait_ms: u64 },
    /// The backend is soft-terminated: sleep as the action said, then decide again.
    Continue,
}

/// What follows a termination: a failed one is retried after
/// `TERMINATE_RETRY_MS`; a successful hard termination ends the task; a
/// successful soft one lets the task go on.
pub fn after_termination(hard: bool, succeeded: bool) -> (r: AfterTermination)
    ensures
        r == (if !succeeded {
            AfterTermination::Retry { wait_ms: TERMINATE_RETRY_MS }
        } else if hard {
            AfterTermination::End
        } else {
            AfterTermination::Continue
        }),
{
    if !succeeded {
        AfterTermination::Retry { wait_ms: TERMINATE_RETRY_MS }
    } else if hard {
        AfterTermination::End
    } else {
        AfterTermination::Continue
    }
}

/// The request that renews `key`: its key, token and backend, and the drone's
/// time when it asks.
pub fn renew_request(key: &AcquiredKey, local_time: LoggableTime) -> (r: RenewKeyRequest)
    ensures
        r.key == key.key,
        r.token == key.token,
        r.backend == key.backend,
        r.local_time == local_time,
{
    RenewKeyRequest { key: key.key.clone(), token: key.token, backend: key.backend.clone(), local_time }
}

/// What the renewal task does at time `now` for a key with the given deadlines.
pub open spec fn renew_action(now: u64, renew_at: u64, soft_at: u64, hard_at: u64) -> RenewAction {
    if now >= hard_at {
        RenewAction::HardTerminate
    } else if now >= soft_at {
        RenewAction::SoftTerminate { sleep_until: hard_at }
    } else if now >= renew_at {
        RenewAction::Renew { sleep_until: soft_at }
    } else {
        RenewAction::Sleep { until: renew_at }
    }
}

/// Decides what the renewal task for `key` does at time `now` (milliseconds
/// since the epoch).
pub fn renew_step(key: &AcquiredKey, now: u64) -> (r: RenewAction)
    ensures
        r == renew_action(now, key.renew_at, key.soft_terminate_at, key.hard_terminate_at),
{
    if now >= key.hard_terminate_at {
        RenewAction::HardTerminate
    } else if now >= key.soft_terminate_at {
        RenewAction::SoftTerminate { sleep_until: key.hard_terminate_at }
    } else if now >= key.renew_at {
        RenewAction::Renew { sleep_until: key.soft_terminate_at }
    } else {
        RenewAction::Sleep { until: key.renew_at }
    }
}

/// How far an action escalates: sleeping, renewing, soft and hard termination.
pub open spec fn escalation(a: RenewAction) -> int {
    match a {
        RenewAction::Sleep { .. } => 0,
        RenewAction::Renew { .. } => 1,
        RenewAction::SoftTerminate { .. } => 2,
        RenewAction::HardTerminate => 3,
    }
}

/// As time passes, the renewal task only escalates; a backend is hard-terminated
/// exactly from its hard deadline on, and nothing is terminated before the soft
/// deadline when the deadlines are in order.
pub proof fn law_renewal_escalates_with_time(
    t1: u64,
    t2: u64,
    renew_at: u64,
    soft_at: u64,
    hard_at: u64,
)
    requires
        t1 <= t2,
        renew_at <= soft_at <= hard_at,
    ensures
        escalation(renew_action(t1, renew_at, soft_at, hard_at)) <= escalation(
            renew_action(t2, renew_at, soft_at, hard_at),
        ),
        (renew_action(t1, renew_at, soft_at, hard_at) == RenewAction::HardTerminate) <==> t1 >= hard_at,
        t1 < soft_at ==> escalation(renew_action(t1, renew_at, soft_at, hard_at)) <= 1,
{
}

} // verus!
