//! A notification-popup daemon, split into its verified core:
//! the notification service with its id-allocation and replace
//! semantics, and the surface-lifecycle and event-orchestration
//! state machine that a display-server client drives.
//!
//! All I/O — the display-server connection, the rendering context,
//! the IPC bus — lives outside this crate; the library decides, the
//! caller performs.

pub mod events;
pub mod laws;
pub mod notify;
pub mod orchestrator;
