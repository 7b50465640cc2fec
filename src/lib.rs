//! Sidecar lifecycle management for meshed workloads: an admission engine
//! that rewrites Pod specs so the application waits on a lifecycle shim, and
//! a sweeper that tells the proxy sidecar to exit once the application is done.

pub mod admission;
pub mod meta;
pub mod patch;
pub mod procs;
pub mod sweep;
pub mod text;
pub mod timeout;
pub mod tls;
