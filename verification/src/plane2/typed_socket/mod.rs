//! Typed message sockets of the second-generation protocol.
pub mod ping;

pub use crate::typed_socket::{ChannelMessage, Handshake, HandshakeCompat, SocketAction};
pub mod client;
