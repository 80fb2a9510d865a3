//! Plane: core logic of a system that runs stateful WebSocket backends.
pub mod names;
pub mod plane2;
pub mod protocol;
pub mod proxy;
pub mod text;
pub mod typed_socket;
pub mod typed_unix_socket;
pub mod types;
pub mod util;
pub mod version;
