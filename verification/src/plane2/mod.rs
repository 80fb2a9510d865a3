//! The second generation of Plane's controller, drone and proxy.
pub mod client;
pub mod command;
pub mod controller;
pub mod database;
pub mod dns;
pub mod drone;
pub mod heartbeat_consts;
pub mod protocol;
pub mod typed_socket;
pub mod types;
pub mod util;
