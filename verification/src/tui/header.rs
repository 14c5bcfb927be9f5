//! The texts of the dashboard header: account, data region, storage and
//! mount state, and the transient status message.
//!
//! The byte counts and the usage percentage are formatted by the caller (they
//! go through floating point); this module decides what each line says.
use vstd::prelude::*;

use super::state::StatusMessageKind;
use crate::text::{push_str, string_from};

verus! {

/// What the header shows besides the engine status.
#[derive(Debug, Clone, PartialEq, Eq)]
pub struct HeaderLines {
    /// The account's e-mail address, or `--`.
    pub account: String,
    /// The account's data region, or `--`.
    pub region: String,
    /// `used / total (pct%)`, or `--` when the quota is unknown.
    pub storage: String,
    /// Whether the filesystem is mounted (shown with a check mark).
    pub mounted: bool,
    /// `Mounted at <mountpoint>` or `Not mounted`.
    pub mount: String,
    /// The status message after the status, indented by two spaces.
    pub message: Option<(String, StatusMessageKind)>,
}

/// A value, or `--` when absent.
pub open spec fn or_dashes(v: Option<Seq<char>>) -> Seq<char> {
    match v {
        Some(s) => s,
        None => "--"@,
    }
}

/// The storage text: `used / total (pct%)` when the total is known (not 0),
/// `--` otherwise.
pub open spec fn storage_text(quota_total: u64, used: Seq<char>, total: Seq<char>, pct: u64) -> Seq<char> {
    if quota_total > 0 {
        used + " / "@ + total + " ("@ + crate::text::dec(pct as nat) + "%)"@
    } else {
        "--"@
    }
}

/// The mount text.
pub open spec fn mount_text(fs_mounted: bool, mountpoint: Option<Seq<char>>) -> Seq<char> {
    if fs_mounted {
        "Mounted at "@ + match mountpoint {
            Some(m) => m,
            None => "unknown"@,
        }
    } else {
        "Not mounted"@
    }
}

fn or_dashes_text(v: Option<&str>) -> (r: String)
    ensures
        r@ == or_dashes(crate::cli::args::opt_view(v)),
{
    match v {
        Some(s) => string_from(s),
        None => string_from("--"),
    }
}

/// The header's texts. `storage` holds the formatted used and total byte
/// counts and the usage percentage; it is shown only when `quota_total` is
/// not 0.
pub fn header_lines(
    account: Option<&str>,
    region: Option<&str>,
    fs_mounted: bool,
    mountpoint: Option<&str>,
    quota_total: u64,
    storage: (&str, &str, u64),
    message: Option<(&str, StatusMessageKind)>,
) -> (r: HeaderLines)
    ensures
        r.account@ == or_dashes(crate::cli::args::opt_view(account)),
        r.region@ == or_dashes(crate::cli::args::opt_view(region)),
        r.storage@ == storage_text(quota_total, storage.0@, storage.1@, storage.2),
        r.mounted == fs_mounted,
        r.mount@ == mount_text(fs_mounted, crate::cli::args::opt_view(mountpoint)),
        match message {
            Some((m, k)) => (r.message matches Some((t, kind)) && t@ == "  "@ + m@ && kind == k),
            None => r.message is None,
        },
{
    let storage_line = if quota_total > 0 {
        let mut s = string_from(storage.0);
        push_str(&mut s, " / ");
        push_str(&mut s, storage.1);
        push_str(&mut s, " (");
        crate::text::push_u64(&mut s, storage.2);
        push_str(&mut s, "%)");
        s
    } else {
        string_from("--")
    };
    let mount = if fs_mounted {
        let mut s = string_from("Mounted at ");
        match mountpoint {
            Some(m) => push_str(&mut s, m),
            None => push_str(&mut s, "unknown"),
        }
        s
    } else {
        string_from("Not mounted")
    };
    let msg = match message {
        Some((m, k)) => {
            let mut t = string_from("  ");
            push_str(&mut t, m);
            Some((t, k))
        },
        None => None,
    };
    HeaderLines {
        account: or_dashes_text(account),
        region: or_dashes_text(region),
        storage: storage_line,
        mounted: fs_mounted,
        mount,
        message: msg,
    }
}

} // verus!
