//! What the node table tells: heartbeats, and whether a node is active.
use crate::plane2::heartbeat_consts::HEARTBEAT_INTERVAL_SECONDS;
use crate::plane2::types::NodeId;
use vstd::prelude::*;

verus! {

/// The notification sent when a node's heartbeat is recorded.
#[derive(Clone, Copy, Debug, PartialEq, Eq, Structural)]
pub struct NodeHeartbeatNotification {
    pub node_id: NodeId,
}

impl NodeHeartbeatNotification {
    /// The kind of notification this is.
    pub fn kind() -> (r: &'static str)
        ensures
            r@ == "node_heartbeat"@,
    {
        "node_heartbeat"
    }
}

/// Whether a node is active: a controller holds it, its last heartbeat is no
/// older than the heartbeat interval, and its last status is an active one.
pub fn node_active(has_controller: bool, status_age_seconds: i64, status_is_active: bool) -> (r: bool)
    ensures
        r == (has_controller && status_age_seconds <= HEARTBEAT_INTERVAL_SECONDS && status_is_active),
{
    if !has_controller {
        return false;
    }
    if status_age_seconds > HEARTBEAT_INTERVAL_SECONDS {
        return false;
    }
    status_is_active
}

} // verus!
