//! Orchestration core for a fleet of ephemeral remote compute sessions.
//!
//! The library holds the decision logic of the orchestrator: the quota gate,
//! the per-slot session lifecycle state machine, the keep-alive schedule, the
//! credential rotation scheduler, and the persisted-state codec.  All I/O
//! (processes, files, sleeps) is driven by the surrounding binary, which feeds
//! observed results back into these verified functions.

pub mod text;
pub mod config;
pub mod quota;
pub mod github;
pub mod session;
pub mod scheduler;
pub mod keepalive;
