//! The configuration values that make up a microVM before it boots, and the
//! collections that hold them.

pub mod boot_source;
pub mod drive;
pub mod logger;
pub mod machine_config;
pub mod net;
pub mod rate_limiter;
pub mod vsock;
