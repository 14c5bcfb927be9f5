//! macOS launchd backend: a per-user LaunchAgent (recommended) or a system
//! LaunchDaemon.
//!
//! macFUSE mounts require a logged-in user session, so the LaunchAgent
//! (`--user`, the default) is the reliable choice; `--system` LaunchDaemons are
//! supported but warned about.
use vstd::prelude::*;

use super::quote::{xml_escape, xml_escape_spec};
use super::{Scope, ServiceBackend, ServiceConfig};
use crate::cli::args::{join_path, opt_view, path_join};
use crate::error::PCloudError;
use crate::text::{dec, push_str, push_u64, string_from};

verus! {

/// The launchd backend.
pub struct LaunchdBackend;

/// One `<string>` element of the `ProgramArguments` array.
pub open spec fn program_arg(a: Seq<char>) -> Seq<char> {
    "    <string>"@ + a + "</string>\n"@
}

/// The `UserName` key: present for system daemons only.
pub open spec fn username_key(scope: Scope, username: Seq<char>) -> Seq<char> {
    match scope {
        Scope::System => "  <key>UserName</key>\n  <string>"@ + username + "</string>\n"@,
        Scope::User => Seq::empty(),
    }
}

/// The plist for `cfg`; `username` pins system daemons to the installing user.
pub open spec fn plist_text(cfg: ServiceConfig, username: Seq<char>) -> Seq<char> {
    "<?xml version=\"1.0\" encoding=\"UTF-8\"?>\n<!DOCTYPE plist PUBLIC \"-//Apple//DTD PLIST 1.0//EN\" \"http://www.apple.com/DTDs/PropertyList-1.0.dtd\">\n<plist version=\"1.0\">\n<dict>\n  <key>Label</key>\n  <string>com.pcloud.cli</string>\n  <key>ProgramArguments</key>\n  <array>\n"@
        + program_arg(xml_escape_spec(cfg.exe@)) + program_arg("start"@) + program_arg(
        "--foreground"@,
    ) + program_arg(xml_escape_spec(cfg.mountpoint@)) + "  </array>\n"@ + username_key(cfg.scope, username)
        + "  <key>RunAtLoad</key>\n  <true/>\n  <key>KeepAlive</key>\n  <dict>\n    <key>SuccessfulExit</key>\n    <false/>\n  </dict>\n  <key>StandardErrorPath</key>\n  <string>/tmp/pcloud-cli.err.log</string>\n  <key>StandardOutPath</key>\n  <string>/tmp/pcloud-cli.out.log</string>\n</dict>\n</plist>\n"@
}

/// Appends one `ProgramArguments` element.
fn push_program_arg(s: &mut String, a: &str)
    ensures
        final(s)@ == old(s)@ + program_arg(a@),
{
    push_str(s, "    <string>");
    push_str(s, a);
    push_str(s, "</string>\n");
}

impl LaunchdBackend {
    /// Render the plist; system daemons are pinned to `username`.
    pub fn render(&self, cfg: &ServiceConfig, username: &str) -> (r: String)
        ensures
            r@ == plist_text(*cfg, username@),
    {
        let mut s = string_from(
            "<?xml version=\"1.0\" encoding=\"UTF-8\"?>\n<!DOCTYPE plist PUBLIC \"-//Apple//DTD PLIST 1.0//EN\" \"http://www.apple.com/DTDs/PropertyList-1.0.dtd\">\n<plist version=\"1.0\">\n<dict>\n  <key>Label</key>\n  <string>com.pcloud.cli</string>\n  <key>ProgramArguments</key>\n  <array>\n",
        );
        let exe = xml_escape(cfg.exe.as_str());
        let mount = xml_escape(cfg.mountpoint.as_str());
        push_program_arg(&mut s, exe.as_str());
        push_program_arg(&mut s, "start");
        push_program_arg(&mut s, "--foreground");
        push_program_arg(&mut s, mount.as_str());
        push_str(&mut s, "  </array>\n");
        match cfg.scope {
            Scope::System => {
                push_str(&mut s, "  <key>UserName</key>\n  <string>");
                push_str(&mut s, username);
                push_str(&mut s, "</string>\n");
            },
            Scope::User => {},
        }
        push_str(
            &mut s,
            "  <key>RunAtLoad</key>\n  <true/>\n  <key>KeepAlive</key>\n  <dict>\n    <key>SuccessfulExit</key>\n    <false/>\n  </dict>\n  <key>StandardErrorPath</key>\n  <string>/tmp/pcloud-cli.err.log</string>\n  <key>StandardOutPath</key>\n  <string>/tmp/pcloud-cli.out.log</string>\n</dict>\n</plist>\n",
        );
        s
    }
}

impl ServiceBackend for LaunchdBackend {
    fn describe(&self) -> (r: &'static str)
        ensures
            r@ == "launchd"@,
    {
        "launchd"
    }
}

/// Path of the plist: `/Library/LaunchDaemons` for daemons,
/// `$HOME/Library/LaunchAgents` for agents.
pub open spec fn plist_path_spec(scope: Scope, home: Option<Seq<char>>) -> Option<Seq<char>> {
    match scope {
        Scope::System => Some("/Library/LaunchDaemons/com.pcloud.cli.plist"@),
        Scope::User => match home {
            Some(h) => Some(path_join(path_join(h, "Library/LaunchAgents"@), "com.pcloud.cli.plist"@)),
            None => None,
        },
    }
}

/// Path of the plist for `scope`, given `$HOME`; an agent without `$HOME` is
/// an error.
pub fn plist_path(scope: Scope, home: Option<&str>) -> (r: Result<String, PCloudError>)
    ensures
        match plist_path_spec(scope, opt_view(home)) {
            Some(p) => r matches Ok(s) && s@ == p,
            None => r matches Err(PCloudError::Service(m)) && m@ == "HOME is not set"@,
        },
{
    match scope {
        Scope::System => Ok(string_from("/Library/LaunchDaemons/com.pcloud.cli.plist")),
        Scope::User => match home {
            Some(h) => {
                let dir = join_path(h, "Library/LaunchAgents");
                Ok(join_path(dir.as_str(), "com.pcloud.cli.plist"))
            },
            None => Err(PCloudError::Service(string_from("HOME is not set"))),
        },
    }
}

/// The launchd domain: `gui/<uid>` for agents, `system` for daemons.
pub open spec fn domain_spec(scope: Scope, uid: u32) -> Seq<char> {
    match scope {
        Scope::System => "system"@,
        Scope::User => "gui/"@ + dec(uid as nat),
    }
}

/// launchd domain target for `scope`; `uid` is the calling user's id.
pub fn domain(scope: Scope, uid: u32) -> (r: String)
    ensures
        r@ == domain_spec(scope, uid),
{
    match scope {
        Scope::System => string_from("system"),
        Scope::User => {
            let mut s = string_from("gui/");
            push_u64(&mut s, uid as u64);
            s
        },
    }
}

/// launchd service target: `<domain>/com.pcloud.cli`.
pub fn service_target(scope: Scope, uid: u32) -> (r: String)
    ensures
        r@ == domain_spec(scope, uid) + "/com.pcloud.cli"@,
{
    let mut s = domain(scope, uid);
    push_str(&mut s, "/com.pcloud.cli");
    s
}

} // verus!
