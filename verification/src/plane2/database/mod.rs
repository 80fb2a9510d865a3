//! Decisions the controller makes over what its database holds.
pub mod backend_key;
pub mod connect;
pub mod node;
