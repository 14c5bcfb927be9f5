//! systemd backend: user service (`~/.config/systemd/user`) or system service
//! (`/etc/systemd/system`, `User=`).
use vstd::prelude::*;

use super::quote::{systemd_quote, systemd_quote_spec};
use super::{Scope, ServiceBackend, ServiceConfig};
use crate::cli::args::{join_path, path_join};
use crate::error::PCloudError;
use crate::text::{push_str, string_from};

verus! {

/// The systemd backend.
pub struct SystemdBackend;

/// The `User=` line: present for system units only.
pub open spec fn user_line(scope: Scope, username: Seq<char>) -> Seq<char> {
    match scope {
        Scope::System => "User="@ + username + "\n"@,
        Scope::User => Seq::empty(),
    }
}

/// The install target: `multi-user.target` for system units,
/// `default.target` for user units.
pub open spec fn wanted_by(scope: Scope) -> Seq<char> {
    match scope {
        Scope::System => "multi-user.target"@,
        Scope::User => "default.target"@,
    }
}

/// The unit file for `cfg`; `username` is the installing user.
pub open spec fn unit_text(cfg: ServiceConfig, username: Seq<char>) -> Seq<char> {
    "[Unit]\nDescription=pCloud sync (FUSE mount + IPC daemon)\nAfter=network-online.target\nWants=network-online.target\n\n[Service]\nType=simple\n"@
        + user_line(cfg.scope, username) + "ExecStart="@ + systemd_quote_spec(cfg.exe@)
        + " start --foreground "@ + systemd_quote_spec(cfg.mountpoint@) + "\nExecStop="@
        + systemd_quote_spec(cfg.exe@)
        + " stop\nRestart=on-failure\nRestartSec=5\n\n[Install]\nWantedBy="@ + wanted_by(cfg.scope)
        + "\n"@
}

impl SystemdBackend {
    /// Render the unit file contents; `username` is the installing user
    /// (named in `User=` for system units).
    pub fn render(&self, cfg: &ServiceConfig, username: &str) -> (r: String)
        ensures
            r@ == unit_text(*cfg, username@),
    {
        let mut s = string_from(
            "[Unit]\nDescription=pCloud sync (FUSE mount + IPC daemon)\nAfter=network-online.target\nWants=network-online.target\n\n[Service]\nType=simple\n",
        );
        match cfg.scope {
            Scope::System => {
                push_str(&mut s, "User=");
                push_str(&mut s, username);
                push_str(&mut s, "\n");
            },
            Scope::User => {},
        }
        let exe = systemd_quote(cfg.exe.as_str());
        let mount = systemd_quote(cfg.mountpoint.as_str());
        push_str(&mut s, "ExecStart=");
        push_str(&mut s, exe.as_str());
        push_str(&mut s, " start --foreground ");
        push_str(&mut s, mount.as_str());
        push_str(&mut s, "\nExecStop=");
        push_str(&mut s, exe.as_str());
        push_str(&mut s, " stop\nRestart=on-failure\nRestartSec=5\n\n[Install]\nWantedBy=");
        match cfg.scope {
            Scope::System => push_str(&mut s, "multi-user.target"),
            Scope::User => push_str(&mut s, "default.target"),
        }
        push_str(&mut s, "\n");
        s
    }
}

impl ServiceBackend for SystemdBackend {
    fn describe(&self) -> (r: &'static str)
        ensures
            r@ == "systemd"@,
    {
        "systemd"
    }
}

/// Path of the unit file: system units under `/etc/systemd/system`, user
/// units under `$HOME/.config/systemd/user`.
pub open spec fn unit_path_spec(scope: Scope, home: Option<Seq<char>>) -> Option<Seq<char>> {
    match scope {
        Scope::System => Some("/etc/systemd/system/pcloud-cli.service"@),
        Scope::User => match home {
            Some(h) => Some(
                path_join(path_join(h, ".config/systemd/user"@), "pcloud-cli.service"@),
            ),
            None => None,
        },
    }
}

/// Path of the unit file for `scope`, given `$HOME`; a user unit without
/// `$HOME` is an error.
pub fn unit_path(scope: Scope, home: Option<&str>) -> (r: Result<String, PCloudError>)
    ensures
        match unit_path_spec(scope, crate::cli::args::opt_view(home)) {
            Some(p) => r matches Ok(s) && s@ == p,
            None => r matches Err(PCloudError::Service(m)) && m@ == "HOME is not set"@,
        },
{
    match scope {
        Scope::System => Ok(string_from("/etc/systemd/system/pcloud-cli.service")),
        Scope::User => match home {
            Some(h) => {
                let dir = join_path(h, ".config/systemd/user");
                Ok(join_path(dir.as_str(), "pcloud-cli.service"))
            },
            None => Err(PCloudError::Service(string_from("HOME is not set"))),
        },
    }
}

/// `systemctl` arguments, prefixed with `--user` for user scope.
pub fn sctl<'a>(scope: Scope, rest: &[&'a str]) -> (r: Vec<&'a str>)
    ensures
        scope == Scope::User ==> r@.len() == rest@.len() + 1 && r@[0]@ == "--user"@ && r@.skip(1)
            == rest@,
        scope == Scope::System ==> r@ == rest@,
{
    let mut v: Vec<&'a str> = Vec::new();
    if scope == Scope::User {
        v.push("--user");
    }
    let ghost start = v@;
    for i in 0..rest.len()
        invariant
            v@ == start + rest@.take(i as int),
    {
        v.push(rest[i]);
        assert(rest@.take(i + 1) =~= rest@.take(i as int).push(rest@[i as int]));
    }
    assert(rest@.take(rest@.len() as int) =~= rest@);
    proof {
        if scope == Scope::User {
            assert(v@.skip(1) =~= rest@);
        }
    }
    v
}

/// The status line: what `systemctl is-active` and `is-enabled` printed.
pub fn status_line(active: &str, enabled: &str) -> (r: String)
    ensures
        r@ == "active="@ + active@ + ", enabled="@ + enabled@,
{
    let mut s = string_from("active=");
    push_str(&mut s, active);
    push_str(&mut s, ", enabled=");
    push_str(&mut s, enabled);
    s
}

} // verus!
