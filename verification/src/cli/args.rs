//! The CLI subcommand tree.
//!
//! ```text
//! pcloud-cli                          # bare invocation → TUI
//! pcloud-cli auth   login|logout|status|unlink
//! pcloud-cli mount  [PATH] [--token TOKEN]
//! pcloud-cli start  [PATH] [--token TOKEN]
//! pcloud-cli stop
//! pcloud-cli status
//! pcloud-cli crypto start|stop|status
//! pcloud-cli backup add|list|remove|status|stop-device|root-name
//! pcloud-cli tui
//! pcloud-cli doctor
//! pcloud-cli service install|uninstall|restart|status
//! pcloud-cli completions bash|zsh|fish
//! ```
//!
//! Paths are held as strings.
use vstd::prelude::*;

use crate::text::{push_str, string_from};

verus! {

/// Parsed command line. No subcommand launches the interactive TUI.
#[derive(Debug, Clone, Default)]
pub struct Cli {
    /// Subcommand to execute. If omitted, the interactive TUI is launched.
    pub command: Option<Command>,
}

/// Top-level subcommands.
#[derive(Debug, Clone)]
pub enum Command {
    /// Manage pCloud authentication (login / logout / status / unlink).
    Auth(AuthArgs),
    /// Mount pCloud as a FUSE filesystem in the foreground.
    Mount(MountArgs),
    /// Start the pCloud daemon (mounts the FUSE filesystem in background).
    Start(StartArgs),
    /// Stop the running pCloud daemon.
    Stop,
    /// Print combined auth / mount / crypto / daemon status.
    Status,
    /// Manage the Crypto folder (unlock / lock / status).
    Crypto(CryptoArgs),
    /// Manage pCloud backups for the current device.
    Backup(BackupArgs),
    /// Launch the interactive TUI dashboard.
    Tui,
    /// Run dependency and environment diagnostics.
    Doctor,
    /// Install or manage the OS service that starts the daemon.
    Service(ServiceArgs),
    /// Print a shell completion script to standard output.
    Completions { shell: crate::cli::completion::CompletionShell },
    /// Print the completion candidates for a partly typed command line (run
    /// by the bash completion script).
    Complete(CompleteArgs),
}

/// Arguments of the completion callback: the words typed so far and the
/// index of the word being completed.
#[derive(Debug, Clone)]
pub struct CompleteArgs {
    pub index: usize,
    pub words: Vec<String>,
}

/// Arguments for the `service` subcommand group.
#[derive(Debug, Clone)]
pub struct ServiceArgs {
    pub op: Option<ServiceOp>,
}

/// OS service operations. `--user` (the default) manages a per-user service,
/// `--system` a system-wide one.
#[derive(Debug, Clone, PartialEq, Eq)]
pub enum ServiceOp {
    /// Install the service (and start it unless `no_start`).
    Install { path: Option<String>, user: bool, system: bool, boot: bool, no_start: bool },
    /// Remove the service.
    Uninstall { user: bool, system: bool },
    /// Restart the service.
    Restart { user: bool, system: bool },
    /// Show the service's state.
    Status { user: bool, system: bool },
}

/// Arguments for the `auth` subcommand group.
#[derive(Debug, Clone)]
pub struct AuthArgs {
    pub op: Option<AuthOp>,
}

/// Authentication operations.
#[derive(Debug, Clone, PartialEq, Eq)]
pub enum AuthOp {
    /// Authenticate (interactive web flow, or persist the given token).
    Login { token: Option<String> },
    /// Clear the saved auth token. Keeps local sync data.
    Logout,
    /// Show whether saved credentials exist locally.
    Status,
    /// Destructive: clear the saved token AND all local sync data.
    Unlink { yes: bool },
}

/// Arguments for the `mount` (foreground) subcommand.
#[derive(Debug, Clone)]
pub struct MountArgs {
    /// Mount path. Defaults to `$PCLOUD_MOUNTPOINT` or `~/pCloud`.
    pub path: Option<String>,
    /// Auth token to use for this session.
    pub token: Option<String>,
}

/// Arguments for the `start` (background daemon) subcommand.
#[derive(Debug, Clone)]
pub struct StartArgs {
    /// Mount path. Defaults to `$PCLOUD_MOUNTPOINT` or `~/pCloud`.
    pub path: Option<String>,
    /// Auth token to use for this session.
    pub token: Option<String>,
}

/// Arguments for the `crypto` subcommand group.
#[derive(Debug, Clone)]
pub struct CryptoArgs {
    pub op: Option<CryptoOp>,
}

/// Crypto folder operations.
#[derive(Debug, Clone, PartialEq, Eq)]
pub enum CryptoOp {
    /// Unlock the Crypto folder.
    Start { password_file: Option<String> },
    /// Lock the Crypto folder.
    Stop,
    /// Show whether the Crypto folder is unlocked.
    Status,
}

/// Arguments for the `backup` subcommand group.
#[derive(Debug, Clone)]
pub struct BackupArgs {
    pub op: Option<BackupOp>,
}

/// Individual backup operations.
#[derive(Debug, Clone, PartialEq, Eq)]
pub enum BackupOp {
    /// Register a local folder as a pCloud backup destination.
    Add { path: String },
    /// List backups configured for the current device.
    List,
    /// Remove a backup by sync id.
    Remove { id: u32 },
    /// Stop all backups on this device.
    StopDevice,
    /// Show backup status; optionally for a single backup id.
    Status { id: Option<u32> },
    /// Print the backup root folder name for this device.
    RootName,
}

/// `Path::join` of a directory and a relative component.
pub open spec fn path_join(dir: Seq<char>, comp: Seq<char>) -> Seq<char> {
    if dir.len() == 0 {
        comp
    } else if dir.last() == '/' {
        dir + comp
    } else {
        dir + seq!['/'] + comp
    }
}

/// The default mountpoint for a given `$HOME` value.
pub open spec fn default_mountpoint_spec(home: Option<Seq<char>>) -> Seq<char> {
    match home {
        Some(h) => path_join(h, "pCloud"@),
        None => "/tmp/pCloud"@,
    }
}

/// The mountpoint chosen from the CLI path, `$PCLOUD_MOUNTPOINT` and `$HOME`.
pub open spec fn resolve_mountpoint_spec(
    cli_path: Option<Seq<char>>,
    env_mountpoint: Option<Seq<char>>,
    home: Option<Seq<char>>,
) -> Seq<char> {
    match cli_path {
        Some(p) => p,
        None => match env_mountpoint {
            Some(e) if e.len() > 0 => e,
            _ => default_mountpoint_spec(home),
        },
    }
}

/// View of an optional string.
pub open spec fn opt_view(o: Option<&str>) -> Option<Seq<char>> {
    match o {
        Some(s) => Some(s@),
        None => None,
    }
}

/// Joins `comp` onto directory `dir` as `Path::join` does.
pub fn join_path(dir: &str, comp: &str) -> (r: String)
    ensures
        r@ == path_join(dir@, comp@),
{
    let d = crate::text::chars_of(dir);
    let mut r = string_from(dir);
    if d.len() == 0 {
        return string_from(comp);
    }
    if d[d.len() - 1] != '/' {
        crate::text::push_char(&mut r, '/');
    }
    push_str(&mut r, comp);
    r
}

/// The default mountpoint: `$HOME/pCloud`, or `/tmp/pCloud` without `$HOME`.
pub fn default_mountpoint(home: Option<&str>) -> (r: String)
    ensures
        r@ == default_mountpoint_spec(opt_view(home)),
{
    match home {
        Some(h) => join_path(h, "pCloud"),
        None => string_from("/tmp/pCloud"),
    }
}

/// Resolve a mountpoint from a CLI-supplied path, the `PCLOUD_MOUNTPOINT`
/// value (when set and non-empty), or the `$HOME/pCloud` default.
pub fn resolve_mountpoint(cli_path: Option<&str>, env_mountpoint: Option<&str>, home: Option<&str>) -> (r: String)
    ensures
        r@ == resolve_mountpoint_spec(opt_view(cli_path), opt_view(env_mountpoint), opt_view(home)),
{
    if let Some(p) = cli_path {
        return string_from(p);
    }
    if let Some(e) = env_mountpoint {
        let ev = crate::text::chars_of(e);
        if ev.len() > 0 {
            return string_from(e);
        }
    }
    default_mountpoint(home)
}

} // verus!
