//! The controller's answers to HTTP requests.
pub mod connect;
pub mod proxy;
