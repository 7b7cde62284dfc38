//! A typed control plane for the host's Service Control Manager.
//!
//! The library decides: it encodes configuration into the values that the
//! operating system takes, interprets what the system reports back, and maps
//! numeric error codes onto one error family per operation.
pub mod codes;
pub mod error;
pub mod handle;
pub mod service;
pub mod service_manager;
pub mod wide;
