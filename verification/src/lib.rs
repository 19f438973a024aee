//! Capability detection and active-session sampling for a database metrics
//! collector: which server extensions are installed, which metric pipelines
//! may run given those extensions and the server version, and a bounded,
//! time-windowed buffer of sampled active sessions.

pub mod compat;
pub mod config;
pub mod eligibility;
pub mod errors;
pub mod extensions;
pub mod sampler;
