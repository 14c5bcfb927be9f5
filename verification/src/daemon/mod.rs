//! Daemon-side state and IPC.
//!
//! - `activity`: the bounded activity log
//! - `ipc`: daemon commands, responses and message framing
//! - `process`: daemon configuration and PID-file handling
//! - `signals`: shutdown / reload request flags
use vstd::prelude::*;

pub mod activity;
pub mod ipc;
pub mod process;
pub mod signals;

verus! {

/// Initialize the daemon module (nothing to set up).
pub fn init() {
}

} // verus!
