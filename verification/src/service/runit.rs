//! runit backend (system service): `/etc/sv/pcloud-cli/run` symlinked into
//! `/var/service`.
use vstd::prelude::*;

use super::quote::{sh_quote, sh_quote_spec};
use super::{ServiceBackend, ServiceConfig};
use crate::text::{push_str, string_from};

verus! {

/// The runit backend.
pub struct RunitBackend;

/// The service directory.
pub const RUNIT_SERVICE_DIR: &'static str = "/etc/sv/pcloud-cli";

/// The `run` script.
pub const RUNIT_RUN_SCRIPT: &'static str = "/etc/sv/pcloud-cli/run";

/// The link in the directory scanned by `runsvdir`.
pub const RUNIT_ACTIVE_LINK: &'static str = "/var/service/pcloud-cli";

/// The `down` file: while present, `runsv` does not start the service
/// (honors `--no-start`).
pub const RUNIT_DOWN_FILE: &'static str = "/etc/sv/pcloud-cli/down";

/// The `run` script for `cfg`, run as `username`: every argument shell-quoted.
pub open spec fn run_script_text(cfg: ServiceConfig, username: Seq<char>) -> Seq<char> {
    "#!/bin/sh\nexec 2>&1\nexec chpst -u "@ + sh_quote_spec(username) + " "@ + sh_quote_spec(
        cfg.exe@,
    ) + " "@ + sh_quote_spec("start"@) + " "@ + sh_quote_spec("--foreground"@) + " "@
        + sh_quote_spec(cfg.mountpoint@) + "\n"@
}

impl RunitBackend {
    /// Render the `run` script; the service runs as `username`.
    pub fn render(&self, cfg: &ServiceConfig, username: &str) -> (r: String)
        ensures
            r@ == run_script_text(*cfg, username@),
    {
        let mut s = string_from("#!/bin/sh\nexec 2>&1\nexec chpst -u ");
        let u = sh_quote(username);
        push_str(&mut s, u.as_str());
        push_str(&mut s, " ");
        let e = sh_quote(cfg.exe.as_str());
        push_str(&mut s, e.as_str());
        push_str(&mut s, " ");
        let a0 = sh_quote("start");
        push_str(&mut s, a0.as_str());
        push_str(&mut s, " ");
        let a1 = sh_quote("--foreground");
        push_str(&mut s, a1.as_str());
        push_str(&mut s, " ");
        let a2 = sh_quote(cfg.mountpoint.as_str());
        push_str(&mut s, a2.as_str());
        push_str(&mut s, "\n");
        s
    }
}

impl ServiceBackend for RunitBackend {
    fn describe(&self) -> (r: &'static str)
        ensures
            r@ == "runit"@,
    {
        "runit"
    }
}

} // verus!
