//! What installing, removing and restarting the service does, step by step,
//! for each backend.
//!
//! A plan is a list of steps that the caller carries out in order: it writes
//! and removes files, runs the supervisor's commands and starts or stops the
//! daemon. A failing step ends the operation with its error, except the
//! best-effort ones (removals, `stop`, and commands marked so), whose failure
//! is ignored.
use vstd::prelude::*;

use super::fallback::{
    cron_install_body, cron_install_body_spec, cron_uninstall_body, cron_uninstall_body_spec,
    desktop_entry_text, desktop_path, XdgAutostartBackend,
};
use super::launchd::{
    domain, domain_spec, plist_path, plist_path_spec, plist_text, service_target, LaunchdBackend,
};
use super::openrc::{script_text, OpenRcBackend, OPENRC_SCRIPT_PATH};
use super::runit::{
    run_script_text, RunitBackend, RUNIT_ACTIVE_LINK, RUNIT_DOWN_FILE, RUNIT_RUN_SCRIPT,
    RUNIT_SERVICE_DIR,
};
use super::systemd::{unit_path, unit_path_spec, unit_text, SystemdBackend};
use super::{needs_linger, BackendKind, Scope, ServiceConfig, Trigger};
use crate::cli::args::opt_view;
use crate::text::string_from;

verus! {

/// One step of a service operation.
#[derive(Debug, Clone, PartialEq, Eq)]
pub enum ServiceStep {
    /// Write `content` to `path` (creating its directory), marking it
    /// executable when `executable`.
    WriteFile { path: String, content: String, executable: bool },
    /// Remove a file (best effort).
    RemoveFile(String),
    /// Remove a directory and everything in it (best effort).
    RemoveDir(String),
    /// Make `link` a symlink to `target`, unless `link` already exists.
    LinkIfMissing { target: String, link: String },
    /// Run `program` with `args`; its failure is ignored when `best_effort`.
    Run { program: String, args: Vec<String>, best_effort: bool },
    /// Replace the user's crontab with this text.
    WriteCrontab(String),
    /// Launch `<exe> start <mountpoint>` in the background.
    SpawnStart,
    /// Run `<exe> stop` (best effort).
    StopDaemon,
    /// Print this warning.
    Warn(String),
    /// End the operation with this service error.
    Fail(String),
}

/// A step as plain values.
pub enum StepView {
    WriteFile(Seq<char>, Seq<char>, bool),
    RemoveFile(Seq<char>),
    RemoveDir(Seq<char>),
    LinkIfMissing(Seq<char>, Seq<char>),
    Run(Seq<char>, Seq<Seq<char>>, bool),
    WriteCrontab(Seq<char>),
    SpawnStart,
    StopDaemon,
    Warn(Seq<char>),
    Fail(Seq<char>),
}

/// The character sequences held by a list of strings.
pub open spec fn strings_view(v: Seq<String>) -> Seq<Seq<char>> {
    Seq::new(v.len(), |i: int| v[i]@)
}

impl View for ServiceStep {
    type V = StepView;

    open spec fn view(&self) -> StepView {
        match self {
            ServiceStep::WriteFile { path, content, executable } => StepView::WriteFile(
                path@,
                content@,
                *executable,
            ),
            ServiceStep::RemoveFile(p) => StepView::RemoveFile(p@),
            ServiceStep::RemoveDir(p) => StepView::RemoveDir(p@),
            ServiceStep::LinkIfMissing { target, link } => StepView::LinkIfMissing(target@, link@),
            ServiceStep::Run { program, args, best_effort } => StepView::Run(
                program@,
                strings_view(args@),
                *best_effort,
            ),
            ServiceStep::WriteCrontab(t) => StepView::WriteCrontab(t@),
            ServiceStep::SpawnStart => StepView::SpawnStart,
            ServiceStep::StopDaemon => StepView::StopDaemon,
            ServiceStep::Warn(m) => StepView::Warn(m@),
            ServiceStep::Fail(m) => StepView::Fail(m@),
        }
    }
}

/// The views of a list of steps.
pub open spec fn steps_view(v: Seq<ServiceStep>) -> Seq<StepView> {
    Seq::new(v.len(), |i: int| v[i]@)
}

/// `systemctl` arguments: `--user` first for user scope.
pub open spec fn sctl_args(scope: Scope, rest: Seq<Seq<char>>) -> Seq<Seq<char>> {
    match scope {
        Scope::User => seq!["--user"@] + rest,
        Scope::System => rest,
    }
}

/// A command that must succeed.
pub open spec fn run(program: Seq<char>, args: Seq<Seq<char>>) -> StepView {
    StepView::Run(program, args, false)
}

/// A command whose failure is ignored.
pub open spec fn try_run(program: Seq<char>, args: Seq<Seq<char>>) -> StepView {
    StepView::Run(program, args, true)
}

/// `s` when `b`, nothing otherwise.
pub open spec fn when(b: bool, s: StepView) -> Seq<StepView> {
    if b {
        seq![s]
    } else {
        seq![]
    }
}

/// The error when a per-user path is needed and `$HOME` is not set.
pub open spec fn no_home() -> StepView {
    StepView::Fail("HOME is not set"@)
}

/// The warning printed before installing a system LaunchDaemon.
pub open spec fn launch_daemon_warning() -> Seq<char> {
    "Warning: macFUSE mounts need a logged-in user session; a system LaunchDaemon may fail to mount at boot. A user LaunchAgent (--user) is recommended."@
}

/// The service's name in supervisor commands.
pub open spec fn name() -> Seq<char> {
    "pcloud-cli"@
}

/// Installing with systemd: write the unit, reload, enable lingering for a
/// user service that starts at boot, enable (and start, unless told not to).
pub open spec fn systemd_install(cfg: ServiceConfig, user: Seq<char>, home: Option<Seq<char>>) -> Seq<StepView> {
    match unit_path_spec(cfg.scope, home) {
        None => seq![no_home()],
        Some(p) => seq![
            StepView::WriteFile(p, unit_text(cfg, user), false),
            run("systemctl"@, sctl_args(cfg.scope, seq!["daemon-reload"@])),
        ] + when(
            cfg.scope == Scope::User && cfg.trigger == Trigger::Boot,
            run("loginctl"@, seq!["enable-linger"@, user]),
        ) + seq![
            run(
                "systemctl"@,
                sctl_args(
                    cfg.scope,
                    if cfg.start_now {
                        seq!["enable"@, "--now"@, name()]
                    } else {
                        seq!["enable"@, name()]
                    },
                ),
            ),
        ],
    }
}

/// Installing with OpenRC: write the init script, add it to the default
/// runlevel, start it unless told not to.
pub open spec fn openrc_install(cfg: ServiceConfig, user: Seq<char>) -> Seq<StepView> {
    seq![
        StepView::WriteFile(OPENRC_SCRIPT_PATH@, script_text(cfg, user), true),
        run("rc-update"@, seq!["add"@, name(), "default"@]),
    ] + when(cfg.start_now, run("rc-service"@, seq![name(), "start"@]))
}

/// Installing with runit: write the run script, keep it down (a `down` file)
/// when not starting now, and link the service into the active directory.
pub open spec fn runit_install(cfg: ServiceConfig, user: Seq<char>) -> Seq<StepView> {
    seq![
        StepView::WriteFile(RUNIT_RUN_SCRIPT@, run_script_text(cfg, user), true),
        if cfg.start_now {
            StepView::RemoveFile(RUNIT_DOWN_FILE@)
        } else {
            StepView::WriteFile(RUNIT_DOWN_FILE@, Seq::empty(), false)
        },
        StepView::LinkIfMissing(RUNIT_SERVICE_DIR@, RUNIT_ACTIVE_LINK@),
    ]
}

/// Installing with launchd: warn about a system daemon, write the plist, and
/// to start now replace any loaded instance and bootstrap the new one.
pub open spec fn launchd_install(cfg: ServiceConfig, user: Seq<char>, home: Option<Seq<char>>, uid: u32) -> Seq<StepView> {
    when(cfg.scope == Scope::System, StepView::Warn(launch_daemon_warning())) + match plist_path_spec(
        cfg.scope,
        home,
    ) {
        None => seq![no_home()],
        Some(p) => seq![StepView::WriteFile(p, plist_text(cfg, user), false)] + if cfg.start_now {
            seq![
                try_run("launchctl"@, seq!["bootout"@, domain_spec(cfg.scope, uid) + "/com.pcloud.cli"@]),
                run("launchctl"@, seq!["bootstrap"@, domain_spec(cfg.scope, uid), p]),
            ]
        } else {
            seq![]
        },
    }
}

/// The autostart entry's path, if `$HOME` is known.
pub open spec fn desktop_path_spec(home: Option<Seq<char>>) -> Option<Seq<char>> {
    match home {
        Some(h) => Some(
            crate::cli::args::path_join(
                crate::cli::args::path_join(h, ".config/autostart"@),
                "pcloud-cli.desktop"@,
            ),
        ),
        None => None,
    }
}

/// Installing the XDG autostart entry, and starting the daemon unless told
/// not to.
pub open spec fn xdg_install(cfg: ServiceConfig, home: Option<Seq<char>>) -> Seq<StepView> {
    match desktop_path_spec(home) {
        None => seq![no_home()],
        Some(p) => seq![StepView::WriteFile(p, desktop_entry_text(cfg), false)] + when(
            cfg.start_now,
            StepView::SpawnStart,
        ),
    }
}

/// Installing the cron `@reboot` line over `crontab`, and starting the
/// daemon unless told not to.
pub open spec fn cron_install(cfg: ServiceConfig, crontab: Seq<char>) -> Seq<StepView> {
    seq![StepView::WriteCrontab(cron_install_body_spec(crontab, cfg))] + when(
        cfg.start_now,
        StepView::SpawnStart,
    )
}

/// The install plan of backend `kind`. `user`: the login name; `home`:
/// `$HOME`; `uid`: the user id; `crontab`: the current crontab (for cron).
pub open spec fn install_plan_spec(kind: BackendKind, cfg: ServiceConfig, user: Seq<char>, home: Option<Seq<char>>, uid: u32, crontab: Seq<char>) -> Seq<StepView> {
    match kind {
        BackendKind::Systemd => systemd_install(cfg, user, home),
        BackendKind::OpenRc => openrc_install(cfg, user),
        BackendKind::Runit => runit_install(cfg, user),
        BackendKind::Launchd => launchd_install(cfg, user, home, uid),
        BackendKind::XdgAutostart => xdg_install(cfg, home),
        BackendKind::Cron => cron_install(cfg, crontab),
    }
}

/// The uninstall plan of backend `kind`: disable and stop what runs (best
/// effort), remove what was installed.
pub open spec fn uninstall_plan_spec(kind: BackendKind, cfg: ServiceConfig, home: Option<Seq<char>>, uid: u32, crontab: Seq<char>) -> Seq<StepView> {
    match kind {
        BackendKind::Systemd => seq![
            try_run("systemctl"@, sctl_args(cfg.scope, seq!["disable"@, "--now"@, name()])),
        ] + match unit_path_spec(cfg.scope, home) {
            None => seq![no_home()],
            Some(p) => seq![
                StepView::RemoveFile(p),
                run("systemctl"@, sctl_args(cfg.scope, seq!["daemon-reload"@])),
            ],
        },
        BackendKind::OpenRc => seq![
            try_run("rc-service"@, seq![name(), "stop"@]),
            try_run("rc-update"@, seq!["del"@, name(), "default"@]),
            StepView::RemoveFile(OPENRC_SCRIPT_PATH@),
        ],
        BackendKind::Runit => seq![
            try_run("sv"@, seq!["stop"@, name()]),
            StepView::RemoveFile(RUNIT_ACTIVE_LINK@),
            StepView::RemoveDir(RUNIT_SERVICE_DIR@),
        ],
        BackendKind::Launchd => seq![
            try_run("launchctl"@, seq!["bootout"@, domain_spec(cfg.scope, uid) + "/com.pcloud.cli"@]),
        ] + match plist_path_spec(cfg.scope, home) {
            None => seq![no_home()],
            Some(p) => seq![StepView::RemoveFile(p)],
        },
        BackendKind::XdgAutostart => match desktop_path_spec(home) {
            None => seq![no_home()],
            Some(p) => seq![StepView::RemoveFile(p), StepView::StopDaemon],
        },
        BackendKind::Cron => seq![
            StepView::WriteCrontab(cron_uninstall_body_spec(crontab)),
            StepView::StopDaemon,
        ],
    }
}

/// The restart plan of backend `kind`: the supervisor's restart, or for the
/// per-user fallbacks stopping the daemon and starting it again.
pub open spec fn restart_plan_spec(kind: BackendKind, cfg: ServiceConfig, uid: u32) -> Seq<StepView> {
    match kind {
        BackendKind::Systemd => seq![
            run("systemctl"@, sctl_args(cfg.scope, seq!["restart"@, name()])),
        ],
        BackendKind::OpenRc => seq![run("rc-service"@, seq![name(), "restart"@])],
        BackendKind::Runit => seq![run("sv"@, seq!["restart"@, name()])],
        BackendKind::Launchd => seq![
            run("launchctl"@, seq!["kickstart"@, "-k"@, domain_spec(cfg.scope, uid) + "/com.pcloud.cli"@]),
        ],
        BackendKind::XdgAutostart | BackendKind::Cron => seq![
            StepView::StopDaemon,
            StepView::SpawnStart,
        ],
    }
}

// ---------------------------------------------------------------------------
// Building the steps
// ---------------------------------------------------------------------------

/// `[a]` as strings.
fn args1(a: &str) -> (r: Vec<String>)
    ensures
        strings_view(r@) == seq![a@],
{
    let mut v: Vec<String> = Vec::new();
    v.push(string_from(a));
    assert(strings_view(v@) =~= seq![a@]);
    v
}

/// `[a, b]` as strings.
fn args2(a: &str, b: &str) -> (r: Vec<String>)
    ensures
        strings_view(r@) == seq![a@, b@],
{
    let mut v: Vec<String> = Vec::new();
    v.push(string_from(a));
    v.push(string_from(b));
    assert(strings_view(v@) =~= seq![a@, b@]);
    v
}

/// `[a, b, c]` as strings.
fn args3(a: &str, b: &str, c: &str) -> (r: Vec<String>)
    ensures
        strings_view(r@) == seq![a@, b@, c@],
{
    let mut v: Vec<String> = Vec::new();
    v.push(string_from(a));
    v.push(string_from(b));
    v.push(string_from(c));
    assert(strings_view(v@) =~= seq![a@, b@, c@]);
    v
}

/// `v` with `--user` in front for user scope.
fn scoped(scope: Scope, v: Vec<String>) -> (r: Vec<String>)
    ensures
        strings_view(r@) == sctl_args(scope, strings_view(v@)),
{
    match scope {
        Scope::System => v,
        Scope::User => {
            let mut r: Vec<String> = Vec::new();
            r.push(string_from("--user"));
            let mut i: usize = 0;
            while i < v.len()
                invariant
                    i <= v.len(),
                    r@.len() == i + 1,
                    r@[0]@ == "--user"@,
                    forall|j: int| 0 <= j < i ==> #[trigger] r@[j + 1]@ == v@[j]@,
                decreases v.len() - i,
            {
                r.push(v[i].clone());
                i = i + 1;
            }
            assert(strings_view(r@) =~= seq!["--user"@] + strings_view(v@)) by {
                assert forall|k: int| 1 <= k < r@.len() implies r@[k]@ == v@[k - 1]@ by {
                    assert(r@[(k - 1) + 1]@ == v@[k - 1]@);
                }
            }
            r
        },
    }
}

fn run_step(program: &str, args: Vec<String>, best_effort: bool) -> (r: ServiceStep)
    ensures
        r@ == StepView::Run(program@, strings_view(args@), best_effort),
{
    ServiceStep::Run { program: string_from(program), args, best_effort }
}

/// Appends `s` to `v`.
fn push_step(v: &mut Vec<ServiceStep>, s: ServiceStep)
    ensures
        steps_view(final(v)@) == steps_view(old(v)@).push(s@),
{
    v.push(s);
    assert(steps_view(v@) =~= steps_view(old(v)@).push(s@));
}

fn fail_no_home() -> (r: ServiceStep)
    ensures
        r@ == no_home(),
{
    ServiceStep::Fail(string_from("HOME is not set"))
}

fn systemd_install_steps(cfg: &ServiceConfig, user: &str, home: Option<&str>) -> (r: Vec<ServiceStep>)
    ensures
        steps_view(r@) == systemd_install(*cfg, user@, opt_view(home)),
{
    let mut v: Vec<ServiceStep> = Vec::new();
    match unit_path(cfg.scope, home) {
        Err(_) => {
            push_step(&mut v, fail_no_home());
            assert(steps_view(v@) =~= seq![no_home()]);
        },
        Ok(p) => {
            let ghost path = p@;
            let content = SystemdBackend.render(cfg, user);
            push_step(&mut v, ServiceStep::WriteFile { path: p, content, executable: false });
            push_step(&mut v, run_step("systemctl", scoped(cfg.scope, args1("daemon-reload")), false));
            let linger = needs_linger(cfg);
            if linger {
                push_step(&mut v, run_step("loginctl", args2("enable-linger", user), false));
            }
            let rest = if cfg.start_now {
                args3("enable", "--now", "pcloud-cli")
            } else {
                args2("enable", "pcloud-cli")
            };
            push_step(&mut v, run_step("systemctl", scoped(cfg.scope, rest), false));
            assert(steps_view(v@) =~= systemd_install(*cfg, user@, opt_view(home)));
        },
    }
    v
}

fn openrc_install_steps(cfg: &ServiceConfig, user: &str) -> (r: Vec<ServiceStep>)
    ensures
        steps_view(r@) == openrc_install(*cfg, user@),
{
    let mut v: Vec<ServiceStep> = Vec::new();
    let content = OpenRcBackend.render(cfg, user);
    push_step(&mut v, ServiceStep::WriteFile { path: string_from(OPENRC_SCRIPT_PATH), content, executable: true });
    push_step(&mut v, run_step("rc-update", args3("add", "pcloud-cli", "default"), false));
    if cfg.start_now {
        push_step(&mut v, run_step("rc-service", args2("pcloud-cli", "start"), false));
    }
    assert(steps_view(v@) =~= openrc_install(*cfg, user@));
    v
}

fn runit_install_steps(cfg: &ServiceConfig, user: &str) -> (r: Vec<ServiceStep>)
    ensures
        steps_view(r@) == runit_install(*cfg, user@),
{
    let mut v: Vec<ServiceStep> = Vec::new();
    let content = RunitBackend.render(cfg, user);
    push_step(&mut v, ServiceStep::WriteFile { path: string_from(RUNIT_RUN_SCRIPT), content, executable: true });
    if cfg.start_now {
        push_step(&mut v, ServiceStep::RemoveFile(string_from(RUNIT_DOWN_FILE)));
    } else {
        push_step(
            &mut v,
            ServiceStep::WriteFile { path: string_from(RUNIT_DOWN_FILE), content: String::new(), executable: false },
        );
    }
    push_step(
        &mut v,
        ServiceStep::LinkIfMissing { target: string_from(RUNIT_SERVICE_DIR), link: string_from(RUNIT_ACTIVE_LINK) },
    );
    assert(steps_view(v@) =~= runit_install(*cfg, user@));
    v
}

fn launchd_install_steps(cfg: &ServiceConfig, user: &str, home: Option<&str>, uid: u32) -> (r: Vec<ServiceStep>)
    ensures
        steps_view(r@) == launchd_install(*cfg, user@, opt_view(home), uid),
{
    let mut v: Vec<ServiceStep> = Vec::new();
    if cfg.scope == Scope::System {
        push_step(
            &mut v,
            ServiceStep::Warn(string_from("Warning: macFUSE mounts need a logged-in user session; a system LaunchDaemon may fail to mount at boot. A user LaunchAgent (--user) is recommended.")),
        );
    }
    let ghost warned = steps_view(v@);
    assert(warned =~= when(cfg.scope == Scope::System, StepView::Warn(launch_daemon_warning())));
    match plist_path(cfg.scope, home) {
        Err(_) => {
            push_step(&mut v, fail_no_home());
        },
        Ok(p) => {
            let content = LaunchdBackend.render(cfg, user);
            push_step(&mut v, ServiceStep::WriteFile { path: p.clone(), content, executable: false });
            if cfg.start_now {
                let target = service_target(cfg.scope, uid);
                let mut a: Vec<String> = Vec::new();
                a.push(string_from("bootout"));
                a.push(target);
                assert(strings_view(a@) =~= seq!["bootout"@, domain_spec(cfg.scope, uid) + "/com.pcloud.cli"@]);
                push_step(&mut v, run_step("launchctl", a, true));
                let mut b: Vec<String> = Vec::new();
                b.push(string_from("bootstrap"));
                b.push(domain(cfg.scope, uid));
                b.push(p);
                assert(strings_view(b@) =~= seq!["bootstrap"@, domain_spec(cfg.scope, uid), p@]);
                push_step(&mut v, run_step("launchctl", b, false));
            }
        },
    }
    assert(steps_view(v@) =~= launchd_install(*cfg, user@, opt_view(home), uid));
    v
}

fn xdg_install_steps(cfg: &ServiceConfig, home: Option<&str>) -> (r: Vec<ServiceStep>)
    ensures
        steps_view(r@) == xdg_install(*cfg, opt_view(home)),
{
    let mut v: Vec<ServiceStep> = Vec::new();
    match desktop_path(home) {
        Err(_) => {
            push_step(&mut v, fail_no_home());
        },
        Ok(p) => {
            let content = XdgAutostartBackend.render(cfg);
            push_step(&mut v, ServiceStep::WriteFile { path: p, content, executable: false });
            if cfg.start_now {
                push_step(&mut v, ServiceStep::SpawnStart);
            }
        },
    }
    assert(steps_view(v@) =~= xdg_install(*cfg, opt_view(home)));
    v
}

fn cron_install_steps(cfg: &ServiceConfig, crontab: &str) -> (r: Vec<ServiceStep>)
    ensures
        steps_view(r@) == cron_install(*cfg, crontab@),
{
    let mut v: Vec<ServiceStep> = Vec::new();
    push_step(&mut v, ServiceStep::WriteCrontab(cron_install_body(crontab, cfg)));
    if cfg.start_now {
        push_step(&mut v, ServiceStep::SpawnStart);
    }
    assert(steps_view(v@) =~= cron_install(*cfg, crontab@));
    v
}

/// The install plan for backend `kind` (see `install_plan_spec`).
pub fn install_plan(kind: BackendKind, cfg: &ServiceConfig, user: &str, home: Option<&str>, uid: u32, crontab: &str) -> (r: Vec<ServiceStep>)
    ensures
        steps_view(r@) == install_plan_spec(kind, *cfg, user@, opt_view(home), uid, crontab@),
{
    match kind {
        BackendKind::Systemd => systemd_install_steps(cfg, user, home),
        BackendKind::OpenRc => openrc_install_steps(cfg, user),
        BackendKind::Runit => runit_install_steps(cfg, user),
        BackendKind::Launchd => launchd_install_steps(cfg, user, home, uid),
        BackendKind::XdgAutostart => xdg_install_steps(cfg, home),
        BackendKind::Cron => cron_install_steps(cfg, crontab),
    }
}

/// The uninstall plan for backend `kind` (see `uninstall_plan_spec`).
pub fn uninstall_plan(kind: BackendKind, cfg: &ServiceConfig, home: Option<&str>, uid: u32, crontab: &str) -> (r: Vec<ServiceStep>)
    ensures
        steps_view(r@) == uninstall_plan_spec(kind, *cfg, opt_view(home), uid, crontab@),
{
    let mut v: Vec<ServiceStep> = Vec::new();
    match kind {
        BackendKind::Systemd => {
            push_step(&mut v, run_step("systemctl", scoped(cfg.scope, args3("disable", "--now", "pcloud-cli")), true));
            match unit_path(cfg.scope, home) {
                Err(_) => push_step(&mut v, fail_no_home()),
                Ok(p) => {
                    push_step(&mut v, ServiceStep::RemoveFile(p));
                    push_step(&mut v, run_step("systemctl", scoped(cfg.scope, args1("daemon-reload")), false));
                },
            }
        },
        BackendKind::OpenRc => {
            push_step(&mut v, run_step("rc-service", args2("pcloud-cli", "stop"), true));
            push_step(&mut v, run_step("rc-update", args3("del", "pcloud-cli", "default"), true));
            push_step(&mut v, ServiceStep::RemoveFile(string_from(OPENRC_SCRIPT_PATH)));
        },
        BackendKind::Runit => {
            push_step(&mut v, run_step("sv", args2("stop", "pcloud-cli"), true));
            push_step(&mut v, ServiceStep::RemoveFile(string_from(RUNIT_ACTIVE_LINK)));
            push_step(&mut v, ServiceStep::RemoveDir(string_from(RUNIT_SERVICE_DIR)));
        },
        BackendKind::Launchd => {
            let target = service_target(cfg.scope, uid);
            let mut a: Vec<String> = Vec::new();
            a.push(string_from("bootout"));
            a.push(target);
            assert(strings_view(a@) =~= seq!["bootout"@, domain_spec(cfg.scope, uid) + "/com.pcloud.cli"@]);
            push_step(&mut v, run_step("launchctl", a, true));
            match plist_path(cfg.scope, home) {
                Err(_) => push_step(&mut v, fail_no_home()),
                Ok(p) => push_step(&mut v, ServiceStep::RemoveFile(p)),
            }
        },
        BackendKind::XdgAutostart => {
            match desktop_path(home) {
                Err(_) => push_step(&mut v, fail_no_home()),
                Ok(p) => {
                    push_step(&mut v, ServiceStep::RemoveFile(p));
                    push_step(&mut v, ServiceStep::StopDaemon);
                },
            }
        },
        BackendKind::Cron => {
            push_step(&mut v, ServiceStep::WriteCrontab(cron_uninstall_body(crontab)));
            push_step(&mut v, ServiceStep::StopDaemon);
        },
    }
    assert(steps_view(v@) =~= uninstall_plan_spec(kind, *cfg, opt_view(home), uid, crontab@));
    v
}

/// The restart plan for backend `kind` (see `restart_plan_spec`).
pub fn restart_plan(kind: BackendKind, cfg: &ServiceConfig, uid: u32) -> (r: Vec<ServiceStep>)
    ensures
        steps_view(r@) == restart_plan_spec(kind, *cfg, uid),
{
    let mut v: Vec<ServiceStep> = Vec::new();
    match kind {
        BackendKind::Systemd => {
            push_step(&mut v, run_step("systemctl", scoped(cfg.scope, args2("restart", "pcloud-cli")), false));
        },
        BackendKind::OpenRc => {
            push_step(&mut v, run_step("rc-service", args2("pcloud-cli", "restart"), false));
        },
        BackendKind::Runit => {
            push_step(&mut v, run_step("sv", args2("restart", "pcloud-cli"), false));
        },
        BackendKind::Launchd => {
            let target = service_target(cfg.scope, uid);
            let mut a: Vec<String> = Vec::new();
            a.push(string_from("kickstart"));
            a.push(string_from("-k"));
            a.push(target);
            assert(strings_view(a@) =~= seq!["kickstart"@, "-k"@, domain_spec(cfg.scope, uid) + "/com.pcloud.cli"@]);
            push_step(&mut v, run_step("launchctl", a, false));
        },
        BackendKind::XdgAutostart | BackendKind::Cron => {
            push_step(&mut v, ServiceStep::StopDaemon);
            push_step(&mut v, ServiceStep::SpawnStart);
        },
    }
    assert(steps_view(v@) =~= restart_plan_spec(kind, *cfg, uid));
    v
}

/// `plan` removes the file `p`: it removes `p` itself or a directory that
/// holds it.
pub open spec fn removes(plan: Seq<StepView>, p: Seq<char>) -> bool {
    exists|j: int|
        0 <= j < plan.len() && match #[trigger] plan[j] {
            StepView::RemoveFile(q) => q == p,
            StepView::RemoveDir(d) => crate::text::has_prefix(p, d + "/"@),
            _ => false,
        }
}

/// Uninstalling removes every file that installing wrote, whatever the
/// trigger and start choice of either (the scope and `$HOME` being the
/// same). The cron backend writes no file: its line is taken out of the
/// crontab instead.
pub proof fn law_uninstall_removes_installed_files(
    kind: BackendKind,
    cfg: ServiceConfig,
    other: ServiceConfig,
    user: Seq<char>,
    home: Option<Seq<char>>,
    uid: u32,
    crontab: Seq<char>,
)
    requires
        other.scope == cfg.scope,
    ensures
        forall|i: int|
            0 <= i < install_plan_spec(kind, cfg, user, home, uid, crontab).len() ==> (
            #[trigger] install_plan_spec(kind, cfg, user, home, uid, crontab)[i] matches StepView::WriteFile(
                p,
                _,
                _,
            ) ==> removes(uninstall_plan_spec(kind, other, home, uid, crontab), p)),
{
    let ins = install_plan_spec(kind, cfg, user, home, uid, crontab);
    let un = uninstall_plan_spec(kind, other, home, uid, crontab);
    reveal_strlit("/etc/sv/pcloud-cli/run");
    reveal_strlit("/etc/sv/pcloud-cli/down");
    reveal_strlit("/etc/sv/pcloud-cli");
    reveal_strlit("/");
    assert forall|i: int| 0 <= i < ins.len() implies (#[trigger] ins[i] matches StepView::WriteFile(
        p,
        _,
        _,
    ) ==> removes(un, p)) by {
        match ins[i] {
            StepView::WriteFile(p, _, _) => {
                match kind {
                    BackendKind::Systemd => {
                        assert(un[1] == StepView::RemoveFile(p));
                    },
                    BackendKind::OpenRc => {
                        assert(un[2] == StepView::RemoveFile(p));
                    },
                    BackendKind::Runit => {
                        let d = RUNIT_SERVICE_DIR@ + "/"@;
                        assert(un[2] == StepView::RemoveDir(RUNIT_SERVICE_DIR@));
                        assert(p == RUNIT_RUN_SCRIPT@ || p == RUNIT_DOWN_FILE@);
                        assert(p.subrange(0, d.len() as int) =~= d);
                        assert(crate::text::has_prefix(p, d));
                    },
                    BackendKind::Launchd => {
                        assert(un[1] == StepView::RemoveFile(p));
                    },
                    BackendKind::XdgAutostart => {
                        assert(un[0] == StepView::RemoveFile(p));
                    },
                    BackendKind::Cron => {},
                }
            },
            _ => {},
        }
    }
}

/// Installing with OpenRC starts the service (`rc-service pcloud-cli start`)
/// exactly when asked to start now.
pub proof fn law_openrc_install_starts_iff_start_now(
    cfg: ServiceConfig,
    user: Seq<char>,
    home: Option<Seq<char>>,
    uid: u32,
    crontab: Seq<char>,
)
    ensures
        install_plan_spec(BackendKind::OpenRc, cfg, user, home, uid, crontab).contains(
            StepView::Run("rc-service"@, seq!["pcloud-cli"@, "start"@], false),
        ) <==> cfg.start_now,
{
    let plan = install_plan_spec(BackendKind::OpenRc, cfg, user, home, uid, crontab);
    let start = StepView::Run("rc-service"@, seq!["pcloud-cli"@, "start"@], false);
    if cfg.start_now {
        assert(plan[2] == start);
    } else {
        assert(plan.len() == 2);
        assert(plan[1] != start) by {
            assert(seq!["add"@, name(), "default"@].len() != seq!["pcloud-cli"@, "start"@].len());
        }
        assert(!plan.contains(start));
    }
}

/// Uninstalling a systemd service first disables it and stops it where it
/// runs (`systemctl [--user] disable --now pcloud-cli`), ignoring a failure.
pub proof fn law_systemd_uninstall_stops_first(
    cfg: ServiceConfig,
    home: Option<Seq<char>>,
    uid: u32,
    crontab: Seq<char>,
)
    ensures
        uninstall_plan_spec(BackendKind::Systemd, cfg, home, uid, crontab).len() > 0,
        uninstall_plan_spec(BackendKind::Systemd, cfg, home, uid, crontab)[0] == StepView::Run(
            "systemctl"@,
            (if cfg.scope == Scope::User {
                seq!["--user"@]
            } else {
                seq![]
            }) + seq!["disable"@, "--now"@, "pcloud-cli"@],
            true,
        ),
{
}

} // verus!
