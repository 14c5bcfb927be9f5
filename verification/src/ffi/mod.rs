//! Bookkeeping for the callbacks handed to the pclsync C library and for the
//! application's own overlay callbacks, and helpers for its events.
use vstd::prelude::*;

pub mod callbacks;
pub mod events;

verus! {

} // verus!
