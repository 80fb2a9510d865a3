//! Constants for the heartbeat protocol.
use vstd::prelude::*;

verus! {

/// How often the drone should emit a heartbeat.
pub const HEARTBEAT_INTERVAL_SECONDS: i64 = 30;

/// If we have not heard from a drone in this many seconds,
/// we will consider it unhealthy. This means that we will
/// not send new connections to backends running on it,
/// but we will not remove its locks.
pub const UNHEALTHY_SECONDS: i64 = 45;

/// If a drone's lock message has not been confirmed in
/// this many seconds, it should tell any of its backends
/// which hold locks to shut down. This ensures that if a
/// drone gets disconnected from a controller, the controller
/// will eventually be able to assume that its locks can be
/// reassigned.
pub const SOFT_TERMINATE_DEADLINE_SECONDS: i64 = 60;

/// If a drone's lock message has not been confirmed in this many seconds,
/// its backends are hard-terminated.
pub const HARD_TERMINATE_DEADLINE_SECONDS: i64 = 90;

/// If we have not heard from a drone in this many seconds,
/// we will consider it lost. This means that we will remove
/// its locks.
pub const ASSUME_LOST_SECONDS: i64 = 120;

/// The heartbeat interval, in milliseconds.
pub const HEARTBEAT_INTERVAL_MILLIS: u64 = 30_000;

/// The heartbeat deadlines are ordered: a drone sends a heartbeat before it
/// can be considered unhealthy, backends are soft-terminated before they are
/// hard-terminated, and hard-terminated before their drone is assumed lost.
pub proof fn law_heartbeat_deadlines_are_ordered()
    ensures
        HEARTBEAT_INTERVAL_SECONDS > 0,
        UNHEALTHY_SECONDS > HEARTBEAT_INTERVAL_SECONDS,
        HARD_TERMINATE_DEADLINE_SECONDS > SOFT_TERMINATE_DEADLINE_SECONDS,
        ASSUME_LOST_SECONDS > HARD_TERMINATE_DEADLINE_SECONDS,
        HEARTBEAT_INTERVAL_MILLIS == HEARTBEAT_INTERVAL_SECONDS * 1000,
{
}

} // verus!
