//! The TUI's view state and its key handling.
//!
//! The TUI is a pure client of the daemon; everything it shows comes from
//! the daemon and every action is sent to it. Here are the parts that decide:
//! the view state's enums, list selection, and what a key press in normal
//! mode does to the view and which action it asks the caller to perform.
use vstd::prelude::*;

pub mod state;
pub mod keys;
pub mod input;
pub mod replies;
pub mod actions;
pub mod header;

verus! {

} // verus!
