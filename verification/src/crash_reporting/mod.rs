//! Crash reporting decisions: the release stage a version reports under, the
//! version string with its profile suffix, and recognizing the crash-monitor
//! subprocess's command line.
//!
//! Reporting itself is an optional part of the client; without it the entry
//! points (`init`, `install_native_handler`, `run_monitor`) do nothing.
use vstd::prelude::*;

use crate::text::{chars_of, ends_with, eq_str, has_suffix, push_str, string_from};

verus! {

/// Hidden CLI argument used to launch the crash reporter subprocess.
pub const CRASH_MONITOR_ARG: &'static str = "--crash-monitor";

/// The release stage a version reports under.
pub open spec fn release_stage_spec(version: Seq<char>) -> Seq<char> {
    if has_suffix(version, "-dev"@) {
        "development"@
    } else if has_suffix(version, "-qa"@) {
        "qa"@
    } else {
        "production"@
    }
}

/// Derive the release stage from the version string: `-dev` builds are
/// `development`, `-qa` builds `qa`, everything else `production`.
pub fn release_stage(version: &str) -> (r: &'static str)
    ensures
        r@ == release_stage_spec(version@),
{
    let v = chars_of(version);
    let dev = chars_of("-dev");
    let qa = chars_of("-qa");
    if ends_with(v.as_slice(), dev.as_slice()) {
        "development"
    } else if ends_with(v.as_slice(), qa.as_slice()) {
        "qa"
    } else {
        "production"
    }
}

/// The version string with its profile suffix.
pub open spec fn version_string_spec(base: Seq<char>, build_profile: Seq<char>, profile: Seq<char>) -> Seq<char> {
    if build_profile == "qa"@ {
        base + "-qa"@
    } else if profile == "debug"@ {
        base + "-dev"@
    } else {
        base
    }
}

/// The application version: the package version, with `-qa` for QA builds
/// and `-dev` for debug builds.
pub fn version_string(base: &str, build_profile: &str, profile: &str) -> (r: String)
    ensures
        r@ == version_string_spec(base@, build_profile@, profile@),
{
    let bp = chars_of(build_profile);
    let p = chars_of(profile);
    let mut r = string_from(base);
    if eq_str(bp.as_slice(), "qa") {
        push_str(&mut r, "-qa");
    } else if eq_str(p.as_slice(), "debug") {
        push_str(&mut r, "-dev");
    }
    r
}

/// The socket name and dump directory when the command line launches the
/// crash monitor (`<exe> --crash-monitor <socket> <dir> ...`), else `None`.
pub fn check_monitor_args(args: &[String]) -> (r: Option<(String, String)>)
    ensures
        (args@.len() >= 4 && args@[1]@ == "--crash-monitor"@) ==> (r matches Some((s, d)) && s@
            == args@[2]@ && d@ == args@[3]@),
        !(args@.len() >= 4 && args@[1]@ == "--crash-monitor"@) ==> r is None,
{
    if args.len() >= 4 {
        let a1 = chars_of(args[1].as_str());
        if eq_str(a1.as_slice(), CRASH_MONITOR_ARG) {
            return Some((args[2].clone(), args[3].clone()));
        }
    }
    None
}

/// Initialize crash reporting (nothing to do without the reporter).
pub fn init() {
}

/// Install the native crash handler for this process (nothing to do without
/// the reporter).
pub fn install_native_handler() {
}

/// Run as the crash monitor subprocess for `socket_name`, queuing dumps in
/// `dump_dir` (nothing to do without the reporter).
pub fn run_monitor(socket_name: &str, dump_dir: &str) {
}

} // verus!
