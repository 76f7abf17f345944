//! Per-repository file-synchronization daemon core.
//!
//! The library holds the decision logic of the daemon: resolving a sync
//! target from the configuration, the PID-file process registry, the
//! transfer-command builder, and the watch-loop state machine. Everything
//! that touches the operating system (filesystem, processes, change
//! notifications) lives outside and feeds plain values in.

pub mod config;
pub mod engine;
pub mod model;
pub mod registry;
pub mod sync;
pub mod watch;
