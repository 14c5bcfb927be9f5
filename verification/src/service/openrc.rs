//! OpenRC backend (system service): `/etc/init.d/pcloud-cli`.
use vstd::prelude::*;

use super::quote::{sh_quote, sh_quote_spec};
use super::{ServiceBackend, ServiceConfig};
use crate::text::{push_str, string_from};

verus! {

/// The OpenRC backend.
pub struct OpenRcBackend;

/// Path of the init script.
pub const OPENRC_SCRIPT_PATH: &'static str = "/etc/init.d/pcloud-cli";

/// The init script for `cfg`, run as `username`.
pub open spec fn script_text(cfg: ServiceConfig, username: Seq<char>) -> Seq<char> {
    "#!/sbin/openrc-run\n\nname=\"pCloud\"\ndescription=\"pCloud sync (FUSE mount + IPC daemon)\"\ncommand=\""@
        + cfg.exe@ + "\"\ncommand_args=\"start --foreground "@ + sh_quote_spec(cfg.mountpoint@)
        + "\"\ncommand_user=\""@ + username
        + "\"\nsupervisor=\"supervise-daemon\"\npidfile=\"/run/pcloud-cli.pid\"\nrespawn_delay=5\n\ndepend() {\n  need net\n}\n"@
}

impl OpenRcBackend {
    /// Render the OpenRC init script; the service runs as `username`.
    pub fn render(&self, cfg: &ServiceConfig, username: &str) -> (r: String)
        ensures
            r@ == script_text(*cfg, username@),
    {
        let mut s = string_from(
            "#!/sbin/openrc-run\n\nname=\"pCloud\"\ndescription=\"pCloud sync (FUSE mount + IPC daemon)\"\ncommand=\"",
        );
        push_str(&mut s, cfg.exe.as_str());
        push_str(&mut s, "\"\ncommand_args=\"start --foreground ");
        let mount = sh_quote(cfg.mountpoint.as_str());
        push_str(&mut s, mount.as_str());
        push_str(&mut s, "\"\ncommand_user=\"");
        push_str(&mut s, username);
        push_str(
            &mut s,
            "\"\nsupervisor=\"supervise-daemon\"\npidfile=\"/run/pcloud-cli.pid\"\nrespawn_delay=5\n\ndepend() {\n  need net\n}\n",
        );
        s
    }
}

impl ServiceBackend for OpenRcBackend {
    fn describe(&self) -> (r: &'static str)
        ensures
            r@ == "OpenRC"@,
    {
        "OpenRC"
    }
}

} // verus!
