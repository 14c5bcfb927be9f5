//! Helpers for activity-log entries made from pclsync events.
use vstd::prelude::*;

use crate::text::{dec2, push_str, push_u64_2};

verus! {

/// `HH:MM:SS` (UTC) of a time given in seconds since the Unix epoch.
pub open spec fn hms_text(secs: u64) -> Seq<char> {
    dec2(((secs / 3600) % 24) as nat) + ":"@ + dec2(((secs / 60) % 60) as nat) + ":"@ + dec2(
        (secs % 60) as nat,
    )
}

/// Format a Unix time as `HH:MM:SS` (UTC), the timestamp of activity-log
/// entries.
pub fn format_hms(secs: u64) -> (r: String)
    ensures
        r@ == hms_text(secs),
{
    let mut s = String::new();
    push_u64_2(&mut s, (secs / 3600) % 24);
    push_str(&mut s, ":");
    push_u64_2(&mut s, (secs / 60) % 60);
    push_str(&mut s, ":");
    push_u64_2(&mut s, secs % 60);
    s
}

} // verus!
