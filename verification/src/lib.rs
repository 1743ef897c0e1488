//! Supervisor for a bundled sidecar process: resolves the platform-specific
//! executable name for a logical backend, classifies the outcome of a launch
//! attempt, and relays the child's standard output to the host's log, line by
//! line, until the stream closes.

pub mod launcher;
pub mod relay;
pub mod supervisor;
