//! The drone: runs backends in containers and reports their state.
pub mod backend_manager;
pub mod key_manager;
pub mod executor;
pub mod docker;
pub mod state_store;
pub mod wait_backend;
