//! OS service integration: the service that starts the pCloud daemon on boot
//! or user login.
//!
//! The service runs `pcloud-cli start --foreground <mountpoint>` (the engine
//! and the IPC server). A backend is chosen from the init system, the scope
//! and the trigger:
//!
//! | scope \ platform | systemd | macOS | OpenRC/runit | other Linux |
//! |---|---|---|---|---|
//! | `--user` (login) | user unit | LaunchAgent | XDG autostart | XDG autostart |
//! | `--user --boot`  | user unit + linger | LaunchAgent | cron `@reboot` | cron `@reboot` |
//! | `--system`       | system unit | LaunchDaemon | OpenRC/runit | error |
//!
//! This module decides; the caller probes the host (`InitProbe`), writes the
//! rendered files and runs the supervisor commands.
use vstd::prelude::*;

pub mod quote;
pub mod systemd;
pub mod openrc;
pub mod runit;
pub mod launchd;
pub mod fallback;
pub mod plan;

use crate::error::PCloudError;
use crate::text::{push_str, string_from};

verus! {

/// Service artifact name (systemd unit, OpenRC/runit service, `.desktop`).
pub const SERVICE_NAME: &'static str = "pcloud-cli";

/// launchd label / plist basename on macOS.
pub const LAUNCHD_LABEL: &'static str = "com.pcloud.cli";

/// Whether the service is installed for the calling user or system-wide.
#[derive(Debug, Clone, Copy, PartialEq, Eq, Structural)]
pub enum Scope {
    /// Per-user service for the calling user (default).
    User,
    /// System-wide service (usually needs root).
    System,
}

/// When the service should start.
#[derive(Debug, Clone, Copy, PartialEq, Eq, Structural)]
pub enum Trigger {
    /// Start when the user logs in (default).
    Login,
    /// Start at boot, before/without an interactive login.
    Boot,
}

/// Everything a backend needs to render and manage the service.
#[derive(Debug, Clone)]
pub struct ServiceConfig {
    pub scope: Scope,
    pub trigger: Trigger,
    /// Mount path passed to `start --foreground`.
    pub mountpoint: String,
    /// Absolute path to the client binary.
    pub exe: String,
    /// Whether to start the service immediately after installing.
    pub start_now: bool,
}

/// What every service backend reports about itself.
pub trait ServiceBackend {
    /// Short label naming this backend (for user-facing messages).
    fn describe(&self) -> &'static str;
}

/// Detected service supervisor for the current host.
#[derive(Debug, Clone, Copy, PartialEq, Eq, Structural)]
pub enum InitSystem {
    Systemd,
    OpenRc,
    Runit,
    Launchd,
    /// No recognized supervisor; only the per-user fallback is available.
    Unknown,
}

/// What was observed on the host, in the order detection consults it.
#[derive(Debug, Clone, Copy, PartialEq, Eq, Structural)]
pub struct InitProbe {
    /// Built for macOS.
    pub macos: bool,
    /// `/run/systemd/system` is a directory.
    pub systemd_runtime_dir: bool,
    /// `/run/openrc` exists.
    pub openrc_runtime: bool,
    /// `openrc-run` is an executable on `PATH`.
    pub openrc_run_on_path: bool,
    /// `/run/runit` exists.
    pub runit_runtime: bool,
    /// `/etc/runit` exists.
    pub runit_config: bool,
}

/// The init system that a probe indicates.
pub open spec fn detect_init_spec(p: InitProbe) -> InitSystem {
    if p.macos {
        InitSystem::Launchd
    } else if p.systemd_runtime_dir {
        InitSystem::Systemd
    } else if p.openrc_runtime || p.openrc_run_on_path {
        InitSystem::OpenRc
    } else if p.runit_runtime || p.runit_config {
        InitSystem::Runit
    } else {
        InitSystem::Unknown
    }
}

/// Detect the active init/service system from what was observed on the host.
pub fn detect_init(p: &InitProbe) -> (r: InitSystem)
    ensures
        r == detect_init_spec(*p),
{
    if p.macos {
        return InitSystem::Launchd;
    }
    if p.systemd_runtime_dir {
        return InitSystem::Systemd;
    }
    if p.openrc_runtime || p.openrc_run_on_path {
        return InitSystem::OpenRc;
    }
    if p.runit_runtime || p.runit_config {
        return InitSystem::Runit;
    }
    InitSystem::Unknown
}

/// The backends a service can be installed with.
#[derive(Debug, Clone, Copy, PartialEq, Eq, Structural)]
pub enum BackendKind {
    Systemd,
    OpenRc,
    Runit,
    Launchd,
    XdgAutostart,
    Cron,
}

/// The label of a backend.
pub open spec fn backend_label(k: BackendKind) -> Seq<char> {
    match k {
        BackendKind::Systemd => "systemd"@,
        BackendKind::OpenRc => "OpenRC"@,
        BackendKind::Runit => "runit"@,
        BackendKind::Launchd => "launchd"@,
        BackendKind::XdgAutostart => "XDG autostart (login)"@,
        BackendKind::Cron => "cron @reboot (boot)"@,
    }
}

impl BackendKind {
    /// Short label naming this backend.
    pub fn describe(&self) -> (r: &'static str)
        ensures
            r@ == backend_label(*self),
    {
        match self {
            BackendKind::Systemd => "systemd",
            BackendKind::OpenRc => "OpenRC",
            BackendKind::Runit => "runit",
            BackendKind::Launchd => "launchd",
            BackendKind::XdgAutostart => "XDG autostart (login)",
            BackendKind::Cron => "cron @reboot (boot)",
        }
    }
}

/// The per-user fallback: XDG autostart for login, cron `@reboot` for boot.
pub open spec fn fallback_backend_spec(t: Trigger) -> BackendKind {
    match t {
        Trigger::Login => BackendKind::XdgAutostart,
        Trigger::Boot => BackendKind::Cron,
    }
}

/// The message when `--system` is asked for on a host without a supervisor.
pub open spec fn no_supervisor_message() -> Seq<char> {
    "no supported system service manager detected (systemd/OpenRC/runit); try installing as a user service with --user"@
}

/// The backend for a scope and trigger on a host with init system `init`, or
/// `None` where there is none.
pub open spec fn backend_for(init: InitSystem, scope: Scope, trigger: Trigger) -> Option<BackendKind> {
    match init {
        InitSystem::Launchd => Some(BackendKind::Launchd),
        InitSystem::Systemd => Some(BackendKind::Systemd),
        InitSystem::OpenRc => match scope {
            Scope::System => Some(BackendKind::OpenRc),
            Scope::User => Some(fallback_backend_spec(trigger)),
        },
        InitSystem::Runit => match scope {
            Scope::System => Some(BackendKind::Runit),
            Scope::User => Some(fallback_backend_spec(trigger)),
        },
        InitSystem::Unknown => match scope {
            Scope::User => Some(fallback_backend_spec(trigger)),
            Scope::System => None,
        },
    }
}

/// The per-user fallback for `cfg`'s trigger.
fn fallback_backend(cfg: &ServiceConfig) -> (r: BackendKind)
    ensures
        r == fallback_backend_spec(cfg.trigger),
{
    match cfg.trigger {
        Trigger::Login => BackendKind::XdgAutostart,
        Trigger::Boot => BackendKind::Cron,
    }
}

/// Choose the backend for `cfg` on a host with init system `init`.
///
/// `--user` always resolves to a working per-user mechanism (systemd user unit,
/// launchd LaunchAgent, or the XDG-autostart / cron fallback). `--system` on a
/// host with no recognized system supervisor is an error.
pub fn select_backend(cfg: &ServiceConfig, init: InitSystem) -> (r: Result<BackendKind, PCloudError>)
    ensures
        match backend_for(init, cfg.scope, cfg.trigger) {
            Some(k) => r == Ok::<BackendKind, PCloudError>(k),
            None => r matches Err(PCloudError::NotSupported(m)) && m@ == no_supervisor_message(),
        },
{
    match init {
        InitSystem::Launchd => Ok(BackendKind::Launchd),
        InitSystem::Systemd => Ok(BackendKind::Systemd),
        InitSystem::OpenRc => match cfg.scope {
            Scope::System => Ok(BackendKind::OpenRc),
            Scope::User => Ok(fallback_backend(cfg)),
        },
        InitSystem::Runit => match cfg.scope {
            Scope::System => Ok(BackendKind::Runit),
            Scope::User => Ok(fallback_backend(cfg)),
        },
        InitSystem::Unknown => match cfg.scope {
            Scope::User => Ok(fallback_backend(cfg)),
            Scope::System => Err(
                PCloudError::NotSupported(
                    string_from(
                        "no supported system service manager detected (systemd/OpenRC/runit); try installing as a user service with --user",
                    ),
                ),
            ),
        },
    }
}

/// A user-scope service on a host whose init has no per-user integration.
pub open spec fn is_user_fallback_spec(scope: Scope, init: InitSystem) -> bool {
    scope == Scope::User && (init == InitSystem::OpenRc || init == InitSystem::Runit || init
        == InitSystem::Unknown)
}

/// True when this host uses the per-user XDG/cron fallback for `cfg`.
pub fn is_user_fallback(cfg: &ServiceConfig, init: InitSystem) -> (r: bool)
    ensures
        r == is_user_fallback_spec(cfg.scope, init),
{
    cfg.scope == Scope::User && (init == InitSystem::OpenRc || init == InitSystem::Runit || init
        == InitSystem::Unknown)
}

/// What restart, status and uninstall act on.
#[derive(Debug, Clone, Copy, PartialEq, Eq, Structural)]
pub enum OperationTarget {
    /// The selected backend.
    Backend(BackendKind),
    /// Both per-user fallbacks: the install-time trigger is not known, so the
    /// XDG autostart entry and the cron line are handled together.
    UserFallback,
}

/// The label reported for operations on the per-user fallback.
pub const USER_FALLBACK_LABEL: &'static str = "XDG autostart / cron";

/// The target of restart/status/uninstall for `cfg` on a host with `init`.
pub fn operation_target(cfg: &ServiceConfig, init: InitSystem) -> (r: Result<OperationTarget, PCloudError>)
    ensures
        is_user_fallback_spec(cfg.scope, init) ==> r == Ok::<OperationTarget, PCloudError>(
            OperationTarget::UserFallback,
        ),
        !is_user_fallback_spec(cfg.scope, init) ==> match backend_for(init, cfg.scope, cfg.trigger) {
            Some(k) => r == Ok::<OperationTarget, PCloudError>(OperationTarget::Backend(k)),
            None => r matches Err(PCloudError::NotSupported(m)) && m@ == no_supervisor_message(),
        },
{
    if is_user_fallback(cfg, init) {
        return Ok(OperationTarget::UserFallback);
    }
    match select_backend(cfg, init) {
        Ok(k) => Ok(OperationTarget::Backend(k)),
        Err(e) => Err(e),
    }
}

/// The combined status line of the two per-user fallbacks: `"<xdg>; <cron>"`.
pub fn fallback_status_line(xdg: &str, cron: &str) -> (r: String)
    ensures
        r@ == xdg@ + "; "@ + cron@,
{
    let mut r = string_from(xdg);
    push_str(&mut r, "; ");
    push_str(&mut r, cron);
    r
}

/// The arguments of `start --foreground <mountpoint>`.
pub open spec fn foreground_args_spec(cfg: ServiceConfig) -> Seq<Seq<char>> {
    seq!["start"@, "--foreground"@, cfg.mountpoint@]
}

/// Build the `start --foreground <mountpoint>` argument vector (supervised
/// services run the engine in the foreground so the supervisor owns the
/// process).
pub fn foreground_args(cfg: &ServiceConfig) -> (r: Vec<String>)
    ensures
        r@.len() == 3,
        forall|i: int| 0 <= i < 3 ==> #[trigger] r@[i]@ == foreground_args_spec(*cfg)[i],
{
    let mut v: Vec<String> = Vec::new();
    v.push(string_from("start"));
    v.push(string_from("--foreground"));
    v.push(cfg.mountpoint.clone());
    v
}

/// `--user --boot` on systemd needs lingering so the user manager runs at boot.
pub fn needs_linger(cfg: &ServiceConfig) -> (r: bool)
    ensures
        r == (cfg.scope == Scope::User && cfg.trigger == Trigger::Boot),
{
    cfg.scope == Scope::User && cfg.trigger == Trigger::Boot
}

/// A systemd user-scope uninstall offers to disable lingering afterwards.
pub fn offers_linger_removal(scope: Scope, init: InitSystem) -> (r: bool)
    ensures
        r == (scope == Scope::User && init == InitSystem::Systemd),
{
    scope == Scope::User && init == InitSystem::Systemd
}

/// Whatever init system is detected, a user-scope service always gets a
/// backend.
pub proof fn law_user_scope_always_resolves(init: InitSystem, trigger: Trigger)
    ensures
        backend_for(init, Scope::User, trigger) is Some,
{
}

/// A system-scope service is refused exactly on hosts without a recognized
/// supervisor.
pub proof fn law_system_scope_needs_supervisor(init: InitSystem, trigger: Trigger)
    ensures
        backend_for(init, Scope::System, trigger) is None <==> init == InitSystem::Unknown,
{
}

/// The word for a scope in messages.
pub open spec fn scope_word(scope: Scope) -> Seq<char> {
    match scope {
        Scope::User => "user"@,
        Scope::System => "system"@,
    }
}

/// The message after an install: `Installed <backend> <scope> service
/// (mount <mountpoint>, starts on <boot|login>).`
pub fn install_message(label: &str, cfg: &ServiceConfig) -> (r: String)
    ensures
        r@ == "Installed "@ + label@ + " "@ + scope_word(cfg.scope) + " service (mount "@
            + cfg.mountpoint@ + ", starts on "@ + (if cfg.trigger == Trigger::Boot {
            "boot"@
        } else {
            "login"@
        }) + ")."@,
{
    let mut s = string_from("Installed ");
    push_str(&mut s, label);
    push_str(&mut s, " ");
    match cfg.scope {
        Scope::User => push_str(&mut s, "user"),
        Scope::System => push_str(&mut s, "system"),
    }
    push_str(&mut s, " service (mount ");
    push_str(&mut s, cfg.mountpoint.as_str());
    push_str(&mut s, ", starts on ");
    if cfg.trigger == Trigger::Boot {
        push_str(&mut s, "boot");
    } else {
        push_str(&mut s, "login");
    }
    push_str(&mut s, ").");
    s
}

/// The message after another operation: `<done> <backend> service.`, e.g.
/// `Removed systemd service.`
pub fn done_message(done: &str, label: &str) -> (r: String)
    ensures
        r@ == done@ + " "@ + label@ + " service."@,
{
    let mut s = string_from(done);
    push_str(&mut s, " ");
    push_str(&mut s, label);
    push_str(&mut s, " service.");
    s
}

/// The status report: `<backend> service: <status line>`.
pub fn status_message(label: &str, line: &str) -> (r: String)
    ensures
        r@ == label@ + " service: "@ + line@,
{
    let mut s = string_from(label);
    push_str(&mut s, " service: ");
    push_str(&mut s, line);
    s
}

} // verus!
