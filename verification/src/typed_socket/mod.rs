//! Typed message sockets: the handshake and the errors of sending.
use crate::text::str_eq;
use crate::version::PlaneVersionInfo;
use vstd::prelude::*;

verus! {

/// A message type of a typed socket, and the type of the replies to it.
pub trait ChannelMessage: Sized {
    type Reply;
}

pub enum SocketAction<T> {
    Send(T),
    Close,
}

#[derive(Clone, Copy, Debug, PartialEq, Eq, Structural)]
pub enum TypedSocketError {
    /// Socket closed.
    Closed,
    /// Socket disconnected.
    Disconnected,
}

/// Why a message could not be queued for sending.
#[derive(Clone, Copy, Debug, PartialEq, Eq, Structural)]
pub enum SendFailure {
    /// The outgoing queue is full.
    Full,
    /// The receiving side is gone.
    Closed,
}

impl TypedSocketError {
    /// A full queue means the peer is not keeping up (disconnected); a closed one,
    /// that the socket is closed.
    pub fn from_send_failure(failure: SendFailure) -> (r: Self)
        ensures
            r == (match failure {
                SendFailure::Full => TypedSocketError::Disconnected,
                SendFailure::Closed => TypedSocketError::Closed,
            }),
    {
        match failure {
            SendFailure::Full => TypedSocketError::Disconnected,
            SendFailure::Closed => TypedSocketError::Closed,
        }
    }

    pub fn to_string(&self) -> (r: &'static str)
        ensures
            r@ == (match self {
                TypedSocketError::Closed => "Socket closed"@,
                TypedSocketError::Disconnected => "Socket disconnected"@,
            }),
    {
        match self {
            TypedSocketError::Closed => "Socket closed",
            TypedSocketError::Disconnected => "Socket disconnected",
        }
    }
}

#[derive(Clone, Debug)]
pub struct Handshake {
    pub version: PlaneVersionInfo,
    pub name: String,
}

/// How two handshakes compare.
#[derive(Clone, Copy, Debug, PartialEq, Eq, Structural)]
pub enum HandshakeCompat {
    /// Same version and git hash.
    Compatible,
    /// Different Plane versions.
    VersionMismatch,
    /// Same version, different git hashes.
    GitHashMismatch,
}

/// How a local and a remote handshake compare: versions are compared first,
/// then git hashes.
pub open spec fn handshake_compat(local: Handshake, remote: Handshake) -> HandshakeCompat {
    if local.version.version@ != remote.version.version@ {
        HandshakeCompat::VersionMismatch
    } else if local.version.git_hash@ != remote.version.git_hash@ {
        HandshakeCompat::GitHashMismatch
    } else {
        HandshakeCompat::Compatible
    }
}

impl Handshake {
    /// Compare a local and remote handshake; a result other than `Compatible`
    /// is logged as a warning.
    pub fn check_compat(&self, other: &Handshake) -> (r: HandshakeCompat)
        ensures
            r == handshake_compat(*self, *other),
    {
        if !str_eq(self.version.version.as_str(), other.version.version.as_str()) {
            HandshakeCompat::VersionMismatch
        } else if !str_eq(self.version.git_hash.as_str(), other.version.git_hash.as_str()) {
            HandshakeCompat::GitHashMismatch
        } else {
            HandshakeCompat::Compatible
        }
    }
}

} // verus!
