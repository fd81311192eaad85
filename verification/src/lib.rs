//! A minimal process-injection harness: a controller locates a running target
//! process, loads a payload module into it, and receives a live diagnostic
//! stream from the payload over a local byte channel.
//!
//! This crate holds the decision logic of that system, verified: the module
//! entry point's dispatch on activation reasons, the controller's lifecycle
//! state machine, the byte-exact relay from the transport to the output sink,
//! and the payload's emission schedule. The surrounding I/O (sockets, thread
//! spawning, the OS-level module-load primitive) lives outside the library.

pub mod controller;
pub mod entry;
pub mod payload;
pub mod relay;

use vstd::prelude::*;

verus! {

/// Port on which the controller listens and to which the payload connects.
pub const CONTROLLER_PORT: u16 = 7331;

/// Nominal interval between two diagnostic emissions, in milliseconds.
pub const EMIT_INTERVAL_MS: u64 = 1000;

} // verus!
