//! Health of the key leases that backends hold.
use crate::names::BackendName;
use crate::plane2::heartbeat_consts::{ASSUME_LOST_SECONDS, UNHEALTHY_SECONDS};
use crate::plane2::types::BackendKeyId;
use vstd::prelude::*;

verus! {

/// How long after a key is leased it should be renewed, in seconds.
pub const KEY_LEASE_RENEW_AFTER_SECONDS: u64 = 30;
/// How long after a key is leased its backend is soft-terminated if not renewed, in seconds.
pub const KEY_LEASE_SOFT_TERMINATE_AFTER_SECONDS: u64 = 40;
/// How long after a key is leased its backend is hard-terminated if not renewed, in seconds.
pub const KEY_LEASE_HARD_TERMINATE_AFTER_SECONDS: u64 = 50;
/// How long after a key is leased the lease expires, in seconds.
pub const KEY_LEASE_EXPIRATION_SECONDS: u64 = 60;

#[derive(Clone, Debug)]
pub enum BackendKeyHealth {
    /// The lock has been renewed within the normal interval.
    Active(BackendName),
    /// The lock has not been renewed within the normal interval (plus grace period),
    /// but it has not been inactive long enough to be removed.
    Unhealthy,
    /// The lock has expired.
    Expired,
}

#[derive(Debug)]
pub struct BackendKeyResult {
    pub id: BackendKeyId,
    pub tag: String,
    pub backend_id: BackendName,
    /// When the key was last renewed, in milliseconds since the epoch.
    pub last_renewed: i64,
    /// When the key was read, in milliseconds since the epoch.
    pub as_of: i64,
}

/// Whole seconds in a span of `millis` milliseconds, truncated toward zero.
pub open spec fn whole_seconds(millis: int) -> int {
    if millis >= 0 { millis / 1000 } else { -((-millis) / 1000) }
}

/// The age of a key, in whole seconds.
pub open spec fn key_age(last_renewed: i64, as_of: i64) -> int {
    whole_seconds(as_of - last_renewed)
}

impl BackendKeyResult {
    /// Classifies the key by the time since it was last renewed: older than the
    /// time after which a drone is assumed lost, it has expired; older than the
    /// time after which a drone is unhealthy, it is unhealthy; else it is active.
    pub fn key_health(&self) -> (r: BackendKeyHealth)
        ensures
            match r {
                BackendKeyHealth::Expired => key_age(self.last_renewed, self.as_of) > ASSUME_LOST_SECONDS,
                BackendKeyHealth::Unhealthy => UNHEALTHY_SECONDS < key_age(self.last_renewed, self.as_of)
                    <= ASSUME_LOST_SECONDS,
                BackendKeyHealth::Active(b) => key_age(self.last_renewed, self.as_of) <= UNHEALTHY_SECONDS
                    && b@ == self.backend_id@,
            },
    {
        let span: i128 = self.as_of as i128 - self.last_renewed as i128;
        let age: i128 = if span >= 0 { span / 1000 } else { -((-span) / 1000) };
        if age > ASSUME_LOST_SECONDS as i128 {
            return BackendKeyHealth::Expired;
        }
        if age > UNHEALTHY_SECONDS as i128 {
            return BackendKeyHealth::Unhealthy;
        }
        BackendKeyHealth::Active(self.backend_id.clone())
    }
}

} // verus!
