//! Orchestration core for driving a native automation engine: agent
//! subprocess batches with all-or-nothing rollback, a registry of
//! per-instance engine handles, cooperative-then-forced shutdown, and the
//! task submission flow.
//!
//! Blocking work (process spawning, connect handshakes, file and network
//! I/O) belongs to the embedding program; this crate holds the decisions
//! and the state, each function with a verified contract.

pub mod batch;
pub mod encode;
pub mod errors;
pub mod filter;
pub mod instance;
pub mod launcher;
pub mod mxu;
pub mod paths;
pub mod pipe;
pub mod registry;
pub mod shutdown;
pub mod tasks;
pub mod types;
pub mod util;
pub mod version;
