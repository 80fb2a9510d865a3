//! The HTTP response to a failed connection request.
use crate::plane2::database::connect::ConnectError;
use vstd::prelude::*;

verus! {

/// The HTTP status and message for a failed connection request.
pub open spec fn connect_error_response(e: ConnectError) -> (u16, Seq<char>) {
    match e {
        ConnectError::FailedToAcquireKey => (500, "Failed to acquire lock."@),
        ConnectError::KeyUnheldNoSpawnConfig => (409, "Lock is unheld but no spawn config was provided."@),
        ConnectError::KeyHeldUnhealthy => (500, "Lock is held but unhealthy."@),
        ConnectError::KeyHeld { .. } => (409, "Lock is held but tag does not match."@),
        ConnectError::NoDroneAvailable => (500, "No active drone available."@),
        ConnectError::FailedToRemoveKey => (409, "Failed to remove lock."@),
        ConnectError::Sql(_) | ConnectError::Serialization(_) => (500, "Internal error."@),
        ConnectError::Other(_) => (500, "Internal error."@),
    }
}

/// The HTTP status code and message the controller answers a failed connection
/// request with.
pub fn connect_error_to_response(connect_error: &ConnectError) -> (r: (u16, &'static str))
    ensures
        (r.0, r.1@) == connect_error_response(*connect_error),
{
    match connect_error {
        ConnectError::FailedToAcquireKey => (500, "Failed to acquire lock."),
        ConnectError::KeyUnheldNoSpawnConfig => (409, "Lock is unheld but no spawn config was provided."),
        ConnectError::KeyHeldUnhealthy => (500, "Lock is held but unhealthy."),
        ConnectError::KeyHeld { .. } => (409, "Lock is held but tag does not match."),
        ConnectError::NoDroneAvailable => (500, "No active drone available."),
        ConnectError::FailedToRemoveKey => (409, "Failed to remove lock."),
        ConnectError::Sql(_) | ConnectError::Serialization(_) => (500, "Internal error."),
        ConnectError::Other(_) => (500, "Internal error."),
    }
}

} // verus!
