//! Core of a snapshot-based fuzzing harness for a virtualized target.
//!
//! The crate holds the parts of the harness that decide something:
//!
//! * [`channel`]: the fixed-capacity buffer through which one test case per
//!   execution reaches the agent that runs inside the target;
//! * [`status`]: the status signal that the agent reports, the verdict that the
//!   fuzz loop sees, and the restore that follows each reading;
//! * [`controller`]: the sequencing of one iteration, as a state machine that
//!   the caller drives around the engine's blocking calls;
//! * [`events`], [`stats`], [`manager`]: the telemetry events of the workers,
//!   the broker's statistics view and the single-worker event manager;
//! * [`snapshot`], [`config`], [`lifecycle`]: the name of the baseline
//!   snapshot, the fixed configuration, and how a process ends.
//!
//! Nothing here performs I/O: running the target, loading a snapshot and
//! printing are the caller's part. Every function states what it returns and
//! changes, and the statements are proved.

pub mod channel;
pub mod config;
pub mod controller;
pub mod events;
pub mod lifecycle;
pub mod manager;
pub mod snapshot;
pub mod stats;
pub mod status;
